//! Types and the questions about one type alone.

use vstd::prelude::*;

use crate::list::List;
use crate::span::{DefId, Symbol};

verus! {

/// The position of a type in the type pool.
pub type TypeIndex = usize;

/// The declaration that a type parameter belongs to.
#[derive(Clone, Copy, Debug, PartialEq, Eq, Structural)]
pub enum TypeParamOwner {
    ImplBlock(usize),
    Function(DefId),
    Struct(DefId),
    Trait(usize),
    TraitImpl(usize),
    TypeAlias(DefId),
}

/// The types of a function's parameters, followed by that of its result.
#[derive(Debug, PartialEq, Eq)]
pub struct FunctionSignature {
    pub params: List<TypeIndex>,
    pub result: TypeIndex,
}

#[allow(inconsistent_fields)]
#[derive(Debug, PartialEq, Eq)]
pub enum Type {
    Error,
    Infer,
    Unit,
    Never,
    Integer,
    Float,
    U8,
    I8,
    U16,
    I16,
    U32,
    I32,
    U64,
    I64,
    F32,
    F64,
    Bool,
    Char,
    /// `*T` in a memory, with or without the right to write.
    Pointer { to: TypeIndex, memory: TypeIndex, mutable: bool },
    /// `[]T` in a memory.
    Slice { of: TypeIndex, memory: TypeIndex, mutable: bool },
    /// `[N]T` in a memory.
    Array { of: TypeIndex, size: u32, memory: TypeIndex, mutable: bool },
    Tuple { elements: List<TypeIndex> },
    Function { signature: FunctionSignature },
    /// One function, named, with the arguments for its type parameters.
    FunctionItem { id: DefId, type_args: List<TypeIndex> },
    Struct { struct_index: usize, args: List<TypeIndex> },
    Enum { enum_index: usize },
    Namespace { namespace_idx: usize },
    /// A linear memory whose addresses have the type `kind`.
    Memory { kind: TypeIndex, id: DefId },
    TypeParam { owner: TypeParamOwner, param_index: usize },
    /// An associated type as its trait declares it.
    AssociatedType { assoc_name: Symbol, trait_index: usize },
    /// The associated type of a type that is not known yet.
    AssocTypeProjection { base: TypeIndex, assoc_name: Symbol, trait_index: usize },
}

/// Whether two lists of types are the same.
pub fn same_types(left: &List<TypeIndex>, right: &List<TypeIndex>) -> (result: bool)
    ensures
        result == (*left == *right),
    decreases left,
{
    match (left, right) {
        (List::Nil, List::Nil) => true,
        (List::Cons(a, left_rest), List::Cons(b, right_rest)) => **a == **b && same_types(
            left_rest,
            right_rest,
        ),
        _ => false,
    }
}

/// Whether two types are the same.
pub fn same_type(left: &Type, right: &Type) -> (result: bool)
    ensures
        result == (*left == *right),
{
    match (left, right) {
        (Type::Error, Type::Error) => true,
        (Type::Infer, Type::Infer) => true,
        (Type::Unit, Type::Unit) => true,
        (Type::Never, Type::Never) => true,
        (Type::Integer, Type::Integer) => true,
        (Type::Float, Type::Float) => true,
        (Type::U8, Type::U8) => true,
        (Type::I8, Type::I8) => true,
        (Type::U16, Type::U16) => true,
        (Type::I16, Type::I16) => true,
        (Type::U32, Type::U32) => true,
        (Type::I32, Type::I32) => true,
        (Type::U64, Type::U64) => true,
        (Type::I64, Type::I64) => true,
        (Type::F32, Type::F32) => true,
        (Type::F64, Type::F64) => true,
        (Type::Bool, Type::Bool) => true,
        (Type::Char, Type::Char) => true,
        (
            Type::Pointer { to: a, memory: b, mutable: c },
            Type::Pointer { to: d, memory: e, mutable: f },
        ) => *a == *d && *b == *e && *c == *f,
        (
            Type::Slice { of: a, memory: b, mutable: c },
            Type::Slice { of: d, memory: e, mutable: f },
        ) => *a == *d && *b == *e && *c == *f,
        (
            Type::Array { of: a, size: m, memory: b, mutable: c },
            Type::Array { of: d, size: n, memory: e, mutable: f },
        ) => *a == *d && *m == *n && *b == *e && *c == *f,
        (Type::Tuple { elements: a }, Type::Tuple { elements: b }) => same_types(a, b),
        (Type::Function { signature: a }, Type::Function { signature: b }) => {
            same_types(&a.params, &b.params) && a.result == b.result
        },
        (
            Type::FunctionItem { id: a, type_args: b },
            Type::FunctionItem { id: c, type_args: d },
        ) => *a == *c && same_types(b, d),
        (
            Type::Struct { struct_index: a, args: b },
            Type::Struct { struct_index: c, args: d },
        ) => *a == *c && same_types(b, d),
        (Type::Enum { enum_index: a }, Type::Enum { enum_index: b }) => *a == *b,
        (
            Type::Namespace { namespace_idx: a },
            Type::Namespace { namespace_idx: b },
        ) => *a == *b,
        (Type::Memory { kind: a, id: b }, Type::Memory { kind: c, id: d }) => {
            *a == *c && *b == *d
        },
        (
            Type::TypeParam { owner: a, param_index: b },
            Type::TypeParam { owner: c, param_index: d },
        ) => *a == *c && *b == *d,
        (
            Type::AssociatedType { assoc_name: a, trait_index: b },
            Type::AssociatedType { assoc_name: c, trait_index: d },
        ) => *a == *c && *b == *d,
        (
            Type::AssocTypeProjection { base: a, assoc_name: b, trait_index: c },
            Type::AssocTypeProjection { base: d, assoc_name: e, trait_index: f },
        ) => *a == *d && *b == *e && *c == *f,
        _ => false,
    }
}

impl Type {
    /// A second value for the same type.
    pub fn duplicate(&self) -> (result: Type)
        ensures
            result == *self,
    {
        match self {
            Type::Error => Type::Error,
            Type::Infer => Type::Infer,
            Type::Unit => Type::Unit,
            Type::Never => Type::Never,
            Type::Integer => Type::Integer,
            Type::Float => Type::Float,
            Type::U8 => Type::U8,
            Type::I8 => Type::I8,
            Type::U16 => Type::U16,
            Type::I16 => Type::I16,
            Type::U32 => Type::U32,
            Type::I32 => Type::I32,
            Type::U64 => Type::U64,
            Type::I64 => Type::I64,
            Type::F32 => Type::F32,
            Type::F64 => Type::F64,
            Type::Bool => Type::Bool,
            Type::Char => Type::Char,
            Type::Pointer { to, memory, mutable } => Type::Pointer {
                to: *to,
                memory: *memory,
                mutable: *mutable,
            },
            Type::Slice { of, memory, mutable } => Type::Slice {
                of: *of,
                memory: *memory,
                mutable: *mutable,
            },
            Type::Array { of, size, memory, mutable } => Type::Array {
                of: *of,
                size: *size,
                memory: *memory,
                mutable: *mutable,
            },
            Type::Tuple { elements } => Type::Tuple { elements: elements.duplicate() },
            Type::Function { signature } => Type::Function {
                signature: FunctionSignature {
                    params: signature.params.duplicate(),
                    result: signature.result,
                },
            },
            Type::FunctionItem { id, type_args } => Type::FunctionItem {
                id: *id,
                type_args: type_args.duplicate(),
            },
            Type::Struct { struct_index, args } => Type::Struct {
                struct_index: *struct_index,
                args: args.duplicate(),
            },
            Type::Enum { enum_index } => Type::Enum { enum_index: *enum_index },
            Type::Namespace { namespace_idx } => Type::Namespace { namespace_idx: *namespace_idx },
            Type::Memory { kind, id } => Type::Memory { kind: *kind, id: *id },
            Type::TypeParam { owner, param_index } => Type::TypeParam {
                owner: *owner,
                param_index: *param_index,
            },
            Type::AssociatedType { assoc_name, trait_index } => Type::AssociatedType {
                assoc_name: *assoc_name,
                trait_index: *trait_index,
            },
            Type::AssocTypeProjection { base, assoc_name, trait_index } => {
                Type::AssocTypeProjection {
                    base: *base,
                    assoc_name: *assoc_name,
                    trait_index: *trait_index,
                }
            },
        }
    }
}

/// The kind of value that WebAssembly holds a type in.
#[derive(Clone, Copy, Debug, PartialEq, Eq, Structural)]
pub enum WasmScalar {
    I32,
    I64,
    F32,
    F64,
}

} // verus!
