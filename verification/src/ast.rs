//! The parsed program: what the type checker reads.

use vstd::prelude::*;

use crate::list::List;
use crate::span::{DefId, Spanned, Symbol, TextSpan};

verus! {

#[derive(Clone, Copy, Debug, PartialEq, Eq, Structural)]
pub enum UnaryOp {
    InvertSign,
    BitNot,
    Not,
}

impl UnaryOp {
    /// The operator as it is written.
    #[verifier::allow_in_spec]
    pub fn as_text(self) -> (result: &'static str)
        returns
            (match self {
                UnaryOp::InvertSign => "-",
                UnaryOp::BitNot => "~",
                UnaryOp::Not => "!",
            }),
    {
        match self {
            UnaryOp::InvertSign => "-",
            UnaryOp::BitNot => "~",
            UnaryOp::Not => "!",
        }
    }
}

#[derive(Clone, Copy, Debug, PartialEq, Eq, Structural)]
pub enum BinaryOp {
    Add,
    Sub,
    Mul,
    Div,
    Rem,
    BitAnd,
    BitOr,
    BitXor,
    LeftShift,
    RightShift,
    And,
    Or,
    Eq,
    NotEq,
    Less,
    LessEq,
    Greater,
    GreaterEq,
    Assign,
    AddAssign,
    SubAssign,
    MulAssign,
    DivAssign,
    RemAssign,
}

impl BinaryOp {
    /// `+`, `-`, `*`, `/` and `%`.
    #[verifier::allow_in_spec]
    pub fn is_arithmetic(self) -> (result: bool)
        returns
            (match self {
                BinaryOp::Add | BinaryOp::Sub | BinaryOp::Mul | BinaryOp::Div
                | BinaryOp::Rem => true,
                _ => false,
            }),
    {
        match self {
            BinaryOp::Add | BinaryOp::Sub | BinaryOp::Mul | BinaryOp::Div | BinaryOp::Rem => true,
            _ => false,
        }
    }

    /// `&`, `|`, `^`, `<<` and `>>`.
    #[verifier::allow_in_spec]
    pub fn is_bitwise(self) -> (result: bool)
        returns
            (match self {
                BinaryOp::BitAnd | BinaryOp::BitOr | BinaryOp::BitXor | BinaryOp::LeftShift
                | BinaryOp::RightShift => true,
                _ => false,
            }),
    {
        match self {
            BinaryOp::BitAnd
            | BinaryOp::BitOr
            | BinaryOp::BitXor
            | BinaryOp::LeftShift
            | BinaryOp::RightShift => true,
            _ => false,
        }
    }

    /// The operator as it is written.
    #[verifier::allow_in_spec]
    pub fn as_text(self) -> (result: &'static str)
        returns
            (match self {
                BinaryOp::Add => "+",
                BinaryOp::Sub => "-",
                BinaryOp::Mul => "*",
                BinaryOp::Div => "/",
                BinaryOp::Rem => "%",
                BinaryOp::BitAnd => "&",
                BinaryOp::BitOr => "|",
                BinaryOp::BitXor => "^",
                BinaryOp::LeftShift => "<<",
                BinaryOp::RightShift => ">>",
                BinaryOp::And => "&&",
                BinaryOp::Or => "||",
                BinaryOp::Eq => "==",
                BinaryOp::NotEq => "!=",
                BinaryOp::Less => "<",
                BinaryOp::LessEq => "<=",
                BinaryOp::Greater => ">",
                BinaryOp::GreaterEq => ">=",
                BinaryOp::Assign => "=",
                BinaryOp::AddAssign => "+=",
                BinaryOp::SubAssign => "-=",
                BinaryOp::MulAssign => "*=",
                BinaryOp::DivAssign => "/=",
                BinaryOp::RemAssign => "%=",
            }),
    {
        match self {
            BinaryOp::Add => "+",
            BinaryOp::Sub => "-",
            BinaryOp::Mul => "*",
            BinaryOp::Div => "/",
            BinaryOp::Rem => "%",
            BinaryOp::BitAnd => "&",
            BinaryOp::BitOr => "|",
            BinaryOp::BitXor => "^",
            BinaryOp::LeftShift => "<<",
            BinaryOp::RightShift => ">>",
            BinaryOp::And => "&&",
            BinaryOp::Or => "||",
            BinaryOp::Eq => "==",
            BinaryOp::NotEq => "!=",
            BinaryOp::Less => "<",
            BinaryOp::LessEq => "<=",
            BinaryOp::Greater => ">",
            BinaryOp::GreaterEq => ">=",
            BinaryOp::Assign => "=",
            BinaryOp::AddAssign => "+=",
            BinaryOp::SubAssign => "-=",
            BinaryOp::MulAssign => "*=",
            BinaryOp::DivAssign => "/=",
            BinaryOp::RemAssign => "%=",
        }
    }
}

/// One name of a `::` path, with the type arguments written after it.
pub struct PathSegment {
    pub ident: Spanned<Symbol>,
    pub type_args: List<Spanned<TypeExpression>>,
}

#[allow(inconsistent_fields)]
pub enum TypeExpression {
    /// `_`
    Infer,
    Path(List<PathSegment>),
    Function {
        params: List<Spanned<TypeExpression>>,
        result: Option<Box<Spanned<TypeExpression>>>,
    },
    Pointer { mutability: Option<TextSpan>, inner: Box<Spanned<TypeExpression>> },
    Slice { mutability: Option<TextSpan>, inner: Box<Spanned<TypeExpression>> },
    Array { size: u32, mutability: Option<TextSpan>, inner: Box<Spanned<TypeExpression>> },
    Tuple { elements: List<Spanned<TypeExpression>> },
    /// A pointer, slice or array in a named memory: `heap::*T`.
    MemoryTagged { memory: List<PathSegment>, inner: Box<Spanned<TypeExpression>> },
    /// `Name<T, U>`
    GenericApplication { name: Spanned<Symbol>, args: List<Spanned<TypeExpression>> },
}

/// What a `where` clause says of one associated type.
pub enum BindingExpression {
    Equals(Spanned<TypeExpression>),
    Bound(Spanned<BoundExpression>),
}

pub struct WhereBinding {
    pub name: Spanned<Symbol>,
    pub rhs: BindingExpression,
}

pub enum BoundExpression {
    Path(List<PathSegment>),
    /// `Trait where { Assoc = T }`
    WithBindings { path: Box<BoundExpression>, bindings: List<WhereBinding> },
    /// `A + B`
    BoundList(List<Spanned<BoundExpression>>),
}

pub struct TypeParam {
    pub name: Spanned<Symbol>,
    pub bounds: Option<Spanned<BoundExpression>>,
}

pub struct Param {
    pub mut_span: Option<TextSpan>,
    pub name: Spanned<Symbol>,
    pub ty: Option<Spanned<TypeExpression>>,
}

pub struct FunctionSignature {
    pub name: Spanned<Symbol>,
    pub type_params: List<TypeParam>,
    pub params: List<Param>,
    pub result: Option<Spanned<TypeExpression>>,
}

pub struct StructInitField {
    pub name: Spanned<Symbol>,
    /// Absent in the shorthand `{ a }`, which means `{ a: a }`.
    pub value: Option<Box<Spanned<Expression>>>,
}

pub struct MatchArm {
    pub pattern: Spanned<Expression>,
    pub body: List<Statement>,
    pub body_span: TextSpan,
}

#[allow(inconsistent_fields)]
pub enum Expression {
    Error,
    /// `_`
    Placeholder,
    Unreachable,
    True,
    False,
    Int { value: i64 },
    /// A float literal by its bit pattern.
    Float { bits: u64 },
    /// A string literal as it is written, its escapes not yet replaced.
    String { raw: String },
    /// A character literal as it is written, quotes included.
    Char { raw: String },
    Path(List<PathSegment>),
    Unary { operator: Spanned<UnaryOp>, operand: Box<Spanned<Expression>> },
    Binary {
        operator: Spanned<BinaryOp>,
        left: Box<Spanned<Expression>>,
        right: Box<Spanned<Expression>>,
    },
    /// `(value)`
    Grouping { value: Box<Spanned<Expression>> },
    Call { callee: Box<Spanned<Expression>>, arguments: List<Spanned<Expression>> },
    MethodCall {
        object: Box<Spanned<Expression>>,
        method: Spanned<Symbol>,
        type_args: List<Spanned<TypeExpression>>,
        arguments: List<Spanned<Expression>>,
    },
    /// `object.member`
    ObjectAccess { object: Box<Spanned<Expression>>, member: Spanned<Symbol> },
    /// `pointer.*`
    Deref { pointer: Box<Spanned<Expression>> },
    /// `value.&` and `value.&mut`
    AddressOf { value: Box<Spanned<Expression>>, mut_span: Option<TextSpan> },
    Return { value: Option<Box<Spanned<Expression>>> },
    Block { statements: List<Statement> },
    IfElse {
        condition: Box<Spanned<Expression>>,
        then_block: List<Statement>,
        then_span: TextSpan,
        else_block: Option<Spanned<List<Statement>>>,
    },
    Match { scrutinee: Box<Spanned<Expression>>, arms: List<MatchArm> },
    Loop { statements: List<Statement>, body_span: TextSpan },
    Cast { value: Box<Spanned<Expression>>, ty: Spanned<TypeExpression> },
    Break { label: Option<Spanned<Symbol>>, value: Option<Box<Spanned<Expression>>> },
    Continue { label: Option<Spanned<Symbol>> },
    /// A block, `if` or `loop` with a label.
    Label { label: Spanned<Symbol>, block: Box<Spanned<Expression>> },
    StructInit { path: List<PathSegment>, fields: List<StructInitField> },
    Tuple { elements: List<Spanned<Expression>> },
    /// `callee::<T>`
    TypeApplication {
        callee: Box<Spanned<Expression>>,
        args: List<Spanned<TypeExpression>>,
    },
    ArrayList { elements: List<Spanned<Expression>> },
    ArrayRepeat { value: Box<Spanned<Expression>>, count: Box<Spanned<Expression>> },
    Index { object: Box<Spanned<Expression>>, index: Box<Spanned<Expression>> },
    SliceRange {
        object: Box<Spanned<Expression>>,
        start: Option<Box<Spanned<Expression>>>,
        end: Option<Box<Spanned<Expression>>>,
    },
}

pub struct PatternField {
    pub name: Spanned<Symbol>,
    /// Absent in the shorthand `{ x }`, which binds `x`.
    pub pattern: Option<Spanned<Pattern>>,
}

/// The left side of a `local` definition.
#[allow(inconsistent_fields)]
pub enum Pattern {
    Wildcard,
    Binding { mut_span: Option<TextSpan>, name: Spanned<Symbol> },
    Tuple { elements: List<Spanned<Pattern>> },
    Struct {
        path: List<PathSegment>,
        fields: List<PatternField>,
        /// The place of a closing `..`.
        rest: Option<TextSpan>,
    },
}

pub enum StatementKind {
    Expression(Box<Spanned<Expression>>),
    LocalDefinition {
        pattern: Spanned<Pattern>,
        ty: Option<Spanned<TypeExpression>>,
        value: Box<Spanned<Expression>>,
    },
}

pub struct Statement {
    pub kind: StatementKind,
    pub span: TextSpan,
    /// Whether a semicolon follows.
    pub separated: bool,
}

pub enum AttributeValue {
    Word,
    /// The symbol of the value with its quotes.
    NameValue(Spanned<Symbol>),
}

pub struct Attribute {
    pub name: Spanned<Symbol>,
    pub value: AttributeValue,
}

pub struct StructField {
    pub pub_span: Option<TextSpan>,
    pub name: Spanned<Symbol>,
    pub ty: Spanned<TypeExpression>,
}

pub struct EnumVariant {
    pub name: Spanned<Symbol>,
    pub value: Option<Spanned<Expression>>,
}

#[allow(inconsistent_fields)]
pub enum TraitItem {
    Function {
        id: DefId,
        attributes: List<Attribute>,
        signature: FunctionSignature,
        body: Option<Spanned<List<Statement>>>,
    },
    Const {
        id: DefId,
        attributes: List<Attribute>,
        name: Spanned<Symbol>,
        ty: Spanned<TypeExpression>,
    },
    AssociatedType {
        id: DefId,
        attributes: List<Attribute>,
        name: Spanned<Symbol>,
        bounds: Option<Spanned<BoundExpression>>,
    },
}

#[allow(inconsistent_fields)]
pub enum ImplItem {
    Function {
        id: DefId,
        pub_span: Option<TextSpan>,
        attributes: List<Attribute>,
        signature: FunctionSignature,
        block: Spanned<List<Statement>>,
    },
    Constant {
        id: DefId,
        name: Spanned<Symbol>,
        ty: Option<Spanned<TypeExpression>>,
        value: Spanned<Expression>,
    },
    AssociatedType { id: DefId, name: Spanned<Symbol>, ty: Spanned<TypeExpression> },
}

pub enum ImportDeclaration {
    Function { id: DefId, signature: FunctionSignature },
    Global {
        id: DefId,
        name: Spanned<Symbol>,
        ty: Spanned<TypeExpression>,
        mut_span: Option<TextSpan>,
    },
    Memory { id: DefId, name: Spanned<Symbol> },
}

pub struct ExportEntry {
    pub name: Spanned<Symbol>,
    /// The name to export under, unquoted, where it is not the item's own.
    pub alias: Option<Spanned<Symbol>>,
}

#[derive(Clone, Copy, Debug, PartialEq, Eq)]
pub struct MemoryConfig {
    pub min_pages: Option<u32>,
    pub max_pages: Option<u32>,
}

#[allow(inconsistent_fields)]
pub enum Item {
    Function {
        id: DefId,
        pub_span: Option<TextSpan>,
        attributes: List<Attribute>,
        signature: FunctionSignature,
        block: Spanned<List<Statement>>,
    },
    FunctionDeclaration {
        id: DefId,
        pub_span: Option<TextSpan>,
        attributes: List<Attribute>,
        signature: FunctionSignature,
    },
    Global {
        id: DefId,
        pub_span: Option<TextSpan>,
        mut_span: Option<TextSpan>,
        name: Spanned<Symbol>,
        ty: Option<Spanned<TypeExpression>>,
        value: Spanned<Expression>,
    },
    Struct {
        id: DefId,
        pub_span: Option<TextSpan>,
        attributes: List<Attribute>,
        name: Spanned<Symbol>,
        type_params: List<TypeParam>,
        fields: List<StructField>,
    },
    Enum {
        id: DefId,
        pub_span: Option<TextSpan>,
        name: Spanned<Symbol>,
        repr: Option<Spanned<TypeExpression>>,
        variants: List<EnumVariant>,
    },
    TypeAlias {
        id: DefId,
        pub_span: Option<TextSpan>,
        name: Spanned<Symbol>,
        type_params: List<TypeParam>,
        ty: Spanned<TypeExpression>,
    },
    Memory {
        id: DefId,
        name: Spanned<Symbol>,
        kind: Spanned<BoundExpression>,
        config: Option<MemoryConfig>,
    },
    Const {
        id: DefId,
        pub_span: Option<TextSpan>,
        name: Spanned<Symbol>,
        ty: Option<Spanned<TypeExpression>>,
        value: Spanned<Expression>,
    },
    Module { name: Spanned<Symbol>, pub_span: Option<TextSpan>, items: List<Item> },
    ModuleDeclaration { name: Spanned<Symbol>, pub_span: Option<TextSpan> },
    Trait {
        id: DefId,
        attributes: List<Attribute>,
        name: Spanned<Symbol>,
        supertraits: Option<Spanned<BoundExpression>>,
        items: List<TraitItem>,
    },
    TypeSet {
        id: DefId,
        pub_span: Option<TextSpan>,
        attributes: List<Attribute>,
        name: Spanned<Symbol>,
        members: List<Spanned<TypeExpression>>,
    },
    InherentImpl {
        id: DefId,
        type_params: List<TypeParam>,
        target: Spanned<TypeExpression>,
        items: List<ImplItem>,
    },
    TraitImpl {
        id: DefId,
        type_params: List<TypeParam>,
        trait_name: List<PathSegment>,
        target: Spanned<TypeExpression>,
        items: List<ImplItem>,
    },
    /// `import "module" as alias { .. }`
    Import {
        /// The symbol of the module's name with its quotes.
        module: Spanned<Symbol>,
        alias: Option<Spanned<Symbol>>,
        entries: List<ImportDeclaration>,
    },
    /// `use path::*;`
    Use { path: List<Spanned<Symbol>> },
    Export { entries: List<ExportEntry> },
}

} // verus!
