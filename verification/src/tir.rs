//! What the type checker produces: resolved items and typed expressions.

use vstd::prelude::*;

use crate::ast::{BinaryOp, UnaryOp};
use crate::list::List;
use crate::span::{DefId, FileId, SourceSpan, Spanned, Symbol, TextSpan};
use crate::types::{TypeIndex, TypeParamOwner};

verus! {

/// Types and values have separate names.
#[derive(Clone, Copy, Debug, PartialEq, Eq, Structural)]
pub enum SymbolNamespace {
    Type,
    Value,
}

/// What a name in a namespace stands for.
#[derive(Clone, Copy, Debug, PartialEq, Eq, Structural)]
pub enum SymbolKind {
    Function { func_index: usize },
    Global { global_index: usize },
    Const { const_index: usize },
    Enum { enum_index: usize },
    Struct { struct_index: usize },
    Module { namespace_idx: usize },
    Trait { trait_index: usize },
    TypeSet { typeset_index: usize },
    Memory { memory_index: usize, kind: TypeIndex },
    TraitAssocType { trait_index: usize, assoc_name: Symbol },
    TypeAlias { type_alias_index: usize },
    /// Claimed by a definition whose signature is not resolved yet.
    Pending(DefId),
}

/// One name in one namespace; `None` is the root.
#[derive(Clone, Copy, Debug, PartialEq, Eq, Structural)]
pub struct SymbolEntry {
    pub namespace: Option<usize>,
    pub space: SymbolNamespace,
    pub name: Symbol,
    pub kind: SymbolKind,
}

/// Where a definition ended up.
#[derive(Clone, Copy, Debug, PartialEq, Eq, Structural)]
pub enum ItemIndex {
    Function(usize),
    Global(usize),
    Memory(usize),
    Struct(usize),
    Const(usize),
    Enum(usize),
    TypeAlias(usize),
    TypeSet(usize),
    Trait(usize),
    TraitImpl(usize),
}

#[derive(Clone, Copy, Debug, PartialEq, Eq, Structural)]
pub struct ItemEntry {
    pub id: DefId,
    pub index: ItemIndex,
}

/// A member of a trait or an impl.
#[derive(Clone, Copy, Debug, PartialEq, Eq, Structural)]
pub enum ImplEntry {
    Method(usize),
    AssocFunction(usize),
    AssocConstant(usize),
    AssocType { ty: TypeIndex },
}

#[derive(Clone, Copy, Debug, PartialEq, Eq, Structural)]
pub struct Member {
    pub name: Symbol,
    pub entry: ImplEntry,
}

#[derive(Clone, Copy, Debug, PartialEq, Eq, Structural)]
pub enum ItemParent {
    Impl(TypeIndex),
    GenericImpl(usize),
    Trait(usize),
}

#[derive(Clone, Copy, Debug, PartialEq, Eq, Structural)]
pub enum ItemAttribute {
    Inline,
    Intrinsic,
    FixedLayout,
    Tag(Symbol),
}

/// What must hold of a type: the traits it implements and the typeset it is
/// a member of.
#[derive(Debug, PartialEq, Eq)]
pub struct Bounds {
    pub traits: List<TraitBound>,
    pub typeset: Option<usize>,
}

#[derive(Debug, PartialEq, Eq)]
pub struct TraitBound {
    pub trait_index: usize,
    pub span: TextSpan,
    pub bindings: List<AssocBinding>,
}

/// One clause of a `where { .. }` on a trait bound.
#[derive(Debug, PartialEq, Eq)]
pub struct AssocBinding {
    pub name: Spanned<Symbol>,
    pub file_id: FileId,
    pub rhs: AssocBindingKind,
    pub rhs_span: TextSpan,
}

#[allow(inconsistent_fields)]
#[derive(Debug, PartialEq, Eq)]
pub enum AssocBindingKind {
    Equals(TypeIndex),
    Bound(Bounds),
}

#[derive(Debug, PartialEq, Eq)]
pub struct TypeParamInfo {
    pub name: Spanned<Symbol>,
    pub bounds: Bounds,
}

#[derive(Clone, Copy, Debug, PartialEq, Eq)]
pub struct FunctionParam {
    pub mut_span: Option<TextSpan>,
    pub name: Spanned<Symbol>,
    pub ty: Spanned<TypeIndex>,
}

#[derive(Debug, PartialEq, Eq)]
pub struct Function {
    pub id: DefId,
    pub file_id: FileId,
    pub namespace: Option<usize>,
    pub parent: Option<ItemParent>,
    pub type_params: List<TypeParamInfo>,
    /// The impl or trait whose type parameters come before its own.
    pub type_param_parent: Option<TypeParamOwner>,
    pub inherited_type_param_count: usize,
    pub pub_span: Option<TextSpan>,
    pub signature_index: TypeIndex,
    pub name: Spanned<Symbol>,
    pub params: List<FunctionParam>,
    pub result: Option<Spanned<TypeIndex>>,
    pub attributes: List<ItemAttribute>,
    pub body: Option<FunctionBody>,
}

#[derive(Debug, PartialEq, Eq)]
pub struct Global {
    pub id: DefId,
    pub file_id: FileId,
    pub namespace: Option<usize>,
    pub name: Spanned<Symbol>,
    pub ty: Spanned<TypeIndex>,
    pub pub_span: Option<TextSpan>,
    pub mut_span: Option<TextSpan>,
    pub value: Option<FunctionBody>,
}

/// A value known when the program is compiled; floats by their bit pattern.
#[derive(Clone, Copy, Debug, PartialEq, Eq, Structural)]
pub enum ConstValue {
    Int(i64),
    Float(u64),
    Bool(bool),
    Char(char),
}

#[derive(Debug, PartialEq, Eq)]
pub struct Constant {
    pub id: DefId,
    pub file_id: FileId,
    pub namespace: Option<usize>,
    pub parent: Option<ItemParent>,
    pub pub_span: Option<TextSpan>,
    pub name: Spanned<Symbol>,
    pub ty: Spanned<TypeIndex>,
    pub value: Option<Expression>,
    pub const_value: Option<ConstValue>,
}

#[derive(Clone, Copy, Debug, PartialEq, Eq)]
pub struct StructField {
    pub name: Spanned<Symbol>,
    pub ty: Spanned<TypeIndex>,
    pub pub_span: Option<TextSpan>,
}

#[derive(Debug, PartialEq, Eq)]
pub struct Struct {
    pub id: DefId,
    pub file_id: FileId,
    pub namespace: Option<usize>,
    pub pub_span: Option<TextSpan>,
    pub name: Spanned<Symbol>,
    pub type_params: List<TypeParamInfo>,
    pub self_type: TypeIndex,
    pub attributes: List<ItemAttribute>,
    pub fields: List<StructField>,
}

#[derive(Debug, PartialEq, Eq)]
pub struct EnumVariant {
    pub name: Spanned<Symbol>,
    pub value: Option<Expression>,
    pub const_value: Option<i64>,
}

#[derive(Debug, PartialEq, Eq)]
pub struct Enum {
    pub id: DefId,
    pub file_id: FileId,
    pub namespace: Option<usize>,
    pub pub_span: Option<TextSpan>,
    pub name: Spanned<Symbol>,
    pub repr_type: TypeIndex,
    pub self_type: TypeIndex,
    pub variants: List<EnumVariant>,
}

#[derive(Debug, PartialEq, Eq)]
pub struct TypeAlias {
    pub id: DefId,
    pub file_id: FileId,
    pub namespace: Option<usize>,
    pub pub_span: Option<TextSpan>,
    pub name: Spanned<Symbol>,
    pub type_params: List<TypeParamInfo>,
    /// The aliased type, over the alias's own type parameters.
    pub template: TypeIndex,
}

#[derive(Clone, Copy, Debug, PartialEq, Eq)]
pub struct Memory {
    pub id: DefId,
    pub file_id: FileId,
    pub name: Spanned<Symbol>,
    /// The type of an address in this memory.
    pub kind: TypeIndex,
    pub min_pages: Option<u32>,
    pub max_pages: Option<u32>,
}

/// An associated type as its trait declares it.
#[derive(Debug, PartialEq, Eq)]
pub struct TraitAssocType {
    pub id: DefId,
    pub name: Spanned<Symbol>,
    pub bounds: Bounds,
}

/// The value that a trait gives to an associated type of a supertrait.
#[derive(Clone, Copy, Debug, PartialEq, Eq, Structural)]
pub struct SupertraitBinding {
    pub trait_index: usize,
    pub name: Symbol,
    pub ty: TypeIndex,
}

#[derive(Debug, PartialEq, Eq)]
pub struct Trait {
    pub id: DefId,
    pub file_id: FileId,
    pub namespace: Option<usize>,
    pub name: Spanned<Symbol>,
    /// `Self`, as the trait's one type parameter.
    pub self_type_param: TypeParamInfo,
    pub supertraits: List<usize>,
    /// What the clauses on the supertraits say of their associated types.
    pub supertrait_bindings: List<SupertraitBinding>,
    pub members: List<Member>,
    pub assoc_types: List<TraitAssocType>,
    pub member_ids: List<DefId>,
}

#[derive(Debug, PartialEq, Eq)]
pub struct TraitImpl {
    pub id: DefId,
    pub trait_index: usize,
    pub type_params: List<TypeParamInfo>,
    pub target: Spanned<TypeIndex>,
    pub members: List<Member>,
    pub span: TextSpan,
    pub file_id: FileId,
}

#[derive(Debug, PartialEq, Eq)]
pub struct InherentImpl {
    pub id: DefId,
    pub file_id: FileId,
    pub type_params: List<TypeParamInfo>,
    pub target: Spanned<TypeIndex>,
    pub members: List<Member>,
}

/// The integers from `min` to `max`.
#[derive(Clone, Copy, Debug, PartialEq, Eq, Structural)]
pub struct IntegerRange {
    pub min: i64,
    pub max: u64,
}

#[derive(Debug, PartialEq, Eq)]
pub struct TypeSet {
    pub id: DefId,
    pub file_id: FileId,
    pub namespace: Option<usize>,
    pub name: Spanned<Symbol>,
    pub pub_span: Option<TextSpan>,
    pub members: List<TypeIndex>,
    /// The values that every member holds.
    pub intersection_range: IntegerRange,
}

#[derive(Clone, Copy, Debug, PartialEq, Eq, Structural)]
pub enum ModuleDeclarationKind {
    Module(usize),
    Import(usize),
    /// A library crate, by the file of its root module.
    Crate(FileId),
}

#[derive(Debug, PartialEq, Eq)]
pub struct ModuleNamespace {
    pub name: Symbol,
    pub parent: Option<usize>,
    pub declaration: ModuleDeclarationKind,
    pub wildcard_imports: List<usize>,
}

#[derive(Clone, Copy, Debug, PartialEq, Eq)]
pub struct ModuleDecl {
    pub namespace_idx: usize,
    pub declaring_file_id: FileId,
    pub own_file_id: Option<FileId>,
    pub name: Spanned<Symbol>,
    pub pub_span: Option<TextSpan>,
}

/// What a name of an import stands for.
#[derive(Clone, Copy, Debug, PartialEq, Eq, Structural)]
pub enum ImportValue {
    Function(DefId),
    Global(DefId),
}

#[derive(Clone, Copy, Debug, PartialEq, Eq, Structural)]
pub struct ImportEntry {
    pub name: Symbol,
    pub value: ImportValue,
}

#[derive(Debug, PartialEq, Eq)]
pub struct ImportDecl {
    pub namespace_idx: usize,
    pub file_id: FileId,
    pub external_name: Spanned<Symbol>,
    pub internal_name: Option<Spanned<Symbol>>,
    pub lookup: List<ImportEntry>,
}

#[derive(Clone, Copy, Debug, PartialEq, Eq, Structural)]
pub enum ExportTarget {
    Function(DefId),
    Global(DefId),
    Memory(DefId),
}

#[derive(Clone, Copy, Debug, PartialEq, Eq)]
pub struct ExportItem {
    pub target: ExportTarget,
    pub internal_name: Spanned<Symbol>,
    /// The name to export under, where it is not the item's own.
    pub external_name: Option<Spanned<Symbol>>,
}

impl ExportItem {
    /// The name that the item is exported under.
    #[verifier::allow_in_spec]
    pub fn name(self) -> (result: Spanned<Symbol>)
        returns
            (match self.external_name {
                Some(name) => name,
                None => self.internal_name,
            }),
    {
        match self.external_name {
            Some(name) => name,
            None => self.internal_name,
        }
    }
}

/// Something whose uses are recorded.
#[derive(Clone, Copy, Debug, PartialEq, Eq, Structural)]
pub enum AccessTarget {
    Function(usize),
    Global(usize),
    Const(usize),
    Enum(usize),
    EnumVariant(usize, usize),
    Struct(usize),
    FieldRead(usize, usize),
    FieldInit(usize, usize),
    Namespace(usize),
    Trait(usize),
    TypeSet(usize),
    Memory(usize),
    TypeAlias(usize),
    TypeParam(TypeParamOwner, usize),
    /// The word `Self`, for an impl's target.
    SelfKeyword(TypeParamOwner),
    TraitAssocType(usize, Symbol),
}

#[derive(Clone, Copy, Debug, PartialEq, Eq, Structural)]
pub struct AccessRecord {
    pub target: AccessTarget,
    pub span: SourceSpan,
}

#[derive(Clone, Copy, Debug, PartialEq, Eq, Structural)]
pub enum AccessKind {
    Read,
    Write,
    ReadWrite,
}

/// What an expression is built for.
#[derive(Clone, Copy, Debug, PartialEq, Eq, Structural)]
pub struct AccessContext {
    pub expected_type: TypeIndex,
    pub access_kind: AccessKind,
}

#[derive(Clone, Copy, Debug, PartialEq, Eq, Structural)]
pub struct LocalAccess {
    pub kind: AccessKind,
    pub span: TextSpan,
}

#[derive(Debug, PartialEq, Eq)]
pub struct Local {
    pub name: Spanned<Symbol>,
    pub ty: TypeIndex,
    pub mut_span: Option<TextSpan>,
    pub accesses: List<LocalAccess>,
}

#[derive(Debug, PartialEq, Eq)]
pub struct LabelInfo {
    pub name: Spanned<Symbol>,
    pub accesses: List<TextSpan>,
}

#[derive(Clone, Copy, Debug, PartialEq, Eq, Structural)]
pub enum BlockKind {
    Block,
    Loop,
}

#[derive(Debug, PartialEq, Eq)]
pub struct BlockScope {
    pub parent: Option<usize>,
    pub label: Option<usize>,
    pub kind: BlockKind,
    pub span: TextSpan,
    pub locals: List<Local>,
    /// What the results and `break`s seen so far make of the block's type.
    pub inferred_type: TypeIndex,
    pub expected_type: TypeIndex,
}

#[derive(Debug, PartialEq, Eq)]
pub struct StackFrame {
    pub scopes: List<BlockScope>,
    pub labels: List<LabelInfo>,
}

#[derive(Debug, PartialEq, Eq)]
pub struct FunctionBody {
    pub block: Expression,
    pub stack: StackFrame,
}

#[derive(Clone, Copy, Debug, PartialEq, Eq, Structural)]
pub enum Pattern {
    Wildcard,
    Int(i64),
    Char(char),
    Bool(bool),
    EnumVariant { enum_index: usize, variant_index: usize },
}

#[derive(Debug, PartialEq, Eq)]
pub struct MatchArm {
    pub pattern: Pattern,
    pub pattern_span: TextSpan,
    pub body: Expression,
}

/// One step from a value to a part of it.
#[derive(Clone, Copy, Debug, PartialEq, Eq, Structural)]
pub struct PathStep {
    pub aggregate_ty: TypeIndex,
    pub index: usize,
}

/// A local that a pattern binds, with the way from the value to its part.
#[derive(Debug, PartialEq, Eq)]
pub struct PatternBinding {
    pub scope_index: usize,
    pub local_index: usize,
    pub path: List<PathStep>,
}

#[allow(inconsistent_fields)]
#[derive(Debug, PartialEq, Eq)]
pub enum PlaceKind {
    Deref { pointer: Box<Expression> },
    Index { object: Box<Expression>, index: Box<Expression> },
    Field { object: Box<Place>, field_index: usize },
}

/// A location in a linear memory.
#[derive(Debug, PartialEq, Eq)]
pub struct Place {
    pub kind: PlaceKind,
    pub ty: TypeIndex,
    pub memory: TypeIndex,
    pub mutable: bool,
    pub span: TextSpan,
}

#[allow(inconsistent_fields)]
#[derive(Debug, PartialEq, Eq)]
pub enum ExprKind {
    Error,
    Placeholder,
    Unreachable,
    Int { value: i64 },
    Float { bits: u64 },
    Bool { value: bool },
    Char { value: char },
    String { symbol: Symbol },
    Local { scope_index: usize, local_index: usize },
    Global { id: DefId },
    Const { id: DefId },
    Function { id: DefId },
    Memory { id: DefId },
    EnumVariant { enum_index: usize, variant_index: usize },
    /// A member of a namespace, by the type of the namespace.
    NamespaceAccess { namespace: Spanned<TypeIndex>, member: Box<Expression> },
    Unary { operator: Spanned<UnaryOp>, operand: Box<Expression> },
    Binary { operator: Spanned<BinaryOp>, left: Box<Expression>, right: Box<Expression> },
    Assign { left: Box<Expression>, right: Box<Expression> },
    Cast { value: Box<Expression> },
    Call { callee: Box<Expression>, arguments: List<Expression> },
    GenericCall { id: DefId, type_args: List<TypeIndex>, arguments: List<Expression> },
    MethodCall { id: DefId, arguments: List<Expression> },
    GenericMethodCall { id: DefId, type_args: List<TypeIndex>, arguments: List<Expression> },
    FieldAccess { object: Box<Expression>, field_index: usize },
    Load { place: Box<Place> },
    Store { place: Box<Place>, value: Box<Expression> },
    AddressOf { place: Box<Place>, mutable: bool },
    Block { scope_index: usize, expressions: List<Expression>, result: Option<Box<Expression>> },
    Loop { scope_index: usize, block: Box<Expression> },
    IfElse {
        condition: Box<Expression>,
        then_block: Box<Expression>,
        else_block: Option<Box<Expression>>,
    },
    Match { scrutinee: Box<Expression>, arms: List<MatchArm> },
    Break { scope_index: usize, value: Option<Box<Expression>> },
    Continue { scope_index: usize },
    Return { value: Option<Box<Expression>> },
    LocalDeclaration {
        name: Spanned<Symbol>,
        scope_index: usize,
        local_index: usize,
        value: Box<Expression>,
    },
    DestructureDeclaration { value: Box<Expression>, bindings: List<PatternBinding> },
    StructInit { struct_index: usize, fields: List<Expression> },
    TupleInit { elements: List<Expression> },
    ArrayLiteral { elements: List<Expression>, memory: TypeIndex },
    ArrayRepeat { value: Box<Expression>, count: u32, memory: TypeIndex },
    SliceRange {
        object: Box<Expression>,
        start: Option<Box<Expression>>,
        end: Option<Box<Expression>>,
    },
}

#[derive(Debug, PartialEq, Eq)]
pub struct Expression {
    pub kind: ExprKind,
    pub ty: TypeIndex,
    pub span: TextSpan,
}

/// How far the computation of a signature has come.
#[derive(Clone, Copy, Debug, PartialEq, Eq, Structural)]
pub enum ComputeState {
    Pending,
    InProgress,
    Done,
}

/// Where names are looked up from, and the file that asks.
#[derive(Clone, Copy, Debug, PartialEq, Eq, Structural)]
pub struct ResolveContext {
    pub file_id: FileId,
    pub namespace: Option<usize>,
}

impl ResolveContext {
    #[verifier::allow_in_spec]
    pub fn new(file_id: FileId, namespace: Option<usize>) -> (result: ResolveContext)
        returns
            (ResolveContext { file_id, namespace }),
    {
        ResolveContext { file_id, namespace }
    }

    /// A place in the file that asks.
    #[verifier::allow_in_spec]
    pub fn at(self, span: TextSpan) -> (result: SourceSpan)
        returns
            SourceSpan::new(self.file_id, span),
    {
        SourceSpan::new(self.file_id, span)
    }
}

/// The type parameters and the meaning of `Self` that are in scope.
#[derive(Clone, Copy, Debug, PartialEq, Eq, Structural)]
pub struct GenericScope {
    pub owner: TypeParamOwner,
    pub self_type: Option<TypeIndex>,
}

} // verus!
