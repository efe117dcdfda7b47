//! Relations between types: coercion, unification, agreement with an
//! annotation, and equality of representation.

use vstd::prelude::*;

use crate::list::{cons, List};
use crate::state;
use crate::state::{vec_at, Builder, State};
use crate::tir::FunctionParam;
use crate::span::Spanned;
use crate::ty;
use crate::types::{FunctionSignature, Type, TypeIndex, WasmScalar};

verus! {

/// How deep the parts of a type, and the types that its associated types lead
/// to, are followed: no program gets there.
pub const MAX_DEPTH: usize = usize::MAX;

/// The types of the parameters.
pub open spec fn param_types(params: List<FunctionParam>) -> List<TypeIndex>
    decreases params,
{
    match params {
        List::Nil => List::Nil,
        List::Cons(head, tail) => cons(head.ty.inner, param_types(*tail)),
    }
}

/// The types of the parameters.
pub fn types_of_params(params: &List<FunctionParam>) -> (result: List<TypeIndex>)
    ensures
        result == param_types(*params),
    decreases params,
{
    match params {
        List::Nil => List::Nil,
        List::Cons(head, tail) => cons(head.ty.inner, types_of_params(tail)),
    }
}

/// The type of a result; a function without one returns unit.
#[verifier::allow_in_spec]
pub fn result_type(result: Option<Spanned<TypeIndex>>) -> (index: TypeIndex)
    returns
        (match result {
            Some(ty) => ty.inner,
            None => ty::UNIT,
        }),
{
    match result {
        Some(ty) => ty.inner,
        None => ty::UNIT,
    }
}

impl<'ast> State<'ast> {
    /// The function type of the given parameters and result.
    pub open spec fn intern_function_type(
        self,
        params: List<FunctionParam>,
        result: Option<Spanned<TypeIndex>>,
    ) -> (State<'ast>, TypeIndex) {
        self.intern(
            Type::Function {
                signature: FunctionSignature {
                    params: param_types(params),
                    result: result_type(result),
                },
            },
        )
    }

    /// Whether a value of type `a` can be used as one of type `b`. The type
    /// itself can; code that does not finish and poisoned types agree with
    /// everything; a pointer, slice or array may lose the right to write; a
    /// named function becomes a value of its function type.
    pub open spec fn coercible(self, a: TypeIndex, b: TypeIndex) -> (State<'ast>, bool) {
        if a == b || a == ty::NEVER || a == ty::ERROR || b == ty::ERROR {
            (self, true)
        } else {
            match (self.ty(a), self.ty(b)) {
                (
                    Type::Pointer { to: a_to, memory: a_memory, mutable: true },
                    Type::Pointer { to: b_to, memory: b_memory, mutable: false },
                ) => (self, a_to == b_to && a_memory == b_memory),
                (
                    Type::Slice { of: a_of, memory: a_memory, mutable: true },
                    Type::Slice { of: b_of, memory: b_memory, mutable: false },
                ) => (self, a_of == b_of && a_memory == b_memory),
                (
                    Type::Array { of: a_of, size: a_size, memory: a_memory, mutable: true },
                    Type::Array { of: b_of, size: b_size, memory: b_memory, mutable: false },
                ) => (self, a_of == b_of && a_size == b_size && a_memory == b_memory),
                (Type::FunctionItem { id, type_args }, Type::Function { .. }) => {
                    let (s, signature) = self.substituted(
                        self.signature_of(id),
                        type_args,
                        MAX_DEPTH,
                    );
                    (s, signature == b)
                },
                _ => (self, false),
            }
        }
    }

    /// The common type of two branches, if they have one.
    pub open spec fn unified(self, a: TypeIndex, b: TypeIndex) -> (
        State<'ast>,
        Option<TypeIndex>,
    ) {
        if a == b {
            (self, Some(a))
        } else if a == ty::NEVER {
            (self, Some(b))
        } else if b == ty::NEVER {
            (self, Some(a))
        } else if a == ty::ERROR || b == ty::ERROR {
            (self, Some(ty::ERROR))
        } else {
            match (self.ty(a), self.ty(b)) {
                (
                    Type::FunctionItem { id: a_id, type_args: a_args },
                    Type::FunctionItem { id: b_id, type_args: b_args },
                ) => {
                    let (s, concrete_a) = self.substituted(
                        self.signature_of(a_id),
                        a_args,
                        MAX_DEPTH,
                    );
                    let (t, concrete_b) = s.substituted(
                        self.signature_of(b_id),
                        b_args,
                        MAX_DEPTH,
                    );
                    if concrete_a == concrete_b {
                        (t, Some(concrete_a))
                    } else {
                        (t, None)
                    }
                },
                _ => (self, None),
            }
        }
    }

    /// The substituted type of a parameter, as far as it says what an
    /// argument must be.
    pub open spec fn expected(self, index: TypeIndex, args: List<TypeIndex>) -> (
        State<'ast>,
        TypeIndex,
    ) {
        let (s, result) = self.substituted(index, args, MAX_DEPTH);
        match s.ty(result) {
            Type::TypeParam { .. } | Type::Integer | Type::Float | Type::Error => (s, ty::INFER),
            _ => (s, result),
        }
    }

    /// Whether a part of the type is still to be inferred.
    pub open spec fn has_infer(self, index: TypeIndex) -> bool {
        self.has_infer_within(index, MAX_DEPTH)
    }

    /// Whether a part of the type is still to be inferred, as far as `depth`
    /// reaches into its parts.
    pub open spec fn has_infer_within(self, index: TypeIndex, depth: usize) -> bool
        decreases depth, 1nat, List::<TypeIndex>::Nil,
    {
        index == ty::INFER || match self.ty(index) {
            Type::Struct { struct_index: _, args } => self.any_infer(args, depth),
            Type::Pointer { to, memory, mutable: _ } => depth > 0 && (self.has_infer_within(
                to,
                (depth - 1) as usize,
            ) || self.has_infer_within(memory, (depth - 1) as usize)),
            Type::Array { of, size: _, memory, mutable: _ } => depth > 0 && (self.has_infer_within(
                of,
                (depth - 1) as usize,
            ) || self.has_infer_within(memory, (depth - 1) as usize)),
            Type::Slice { of, memory, mutable: _ } => depth > 0 && (self.has_infer_within(
                of,
                (depth - 1) as usize,
            ) || self.has_infer_within(memory, (depth - 1) as usize)),
            Type::Tuple { elements } => self.any_infer(elements, depth),
            Type::Function { signature } => self.any_infer(signature.params, depth) || (depth > 0
                && self.has_infer_within(signature.result, (depth - 1) as usize)),
            Type::FunctionItem { id: _, type_args } => self.any_infer(type_args, depth),
            Type::AssocTypeProjection { base, assoc_name: _, trait_index: _ } => depth > 0
                && self.has_infer_within(base, (depth - 1) as usize),
            _ => false,
        }
    }

    /// Whether one of the parts of a type has a part still to be inferred.
    pub open spec fn any_infer(self, types: List<TypeIndex>, depth: usize) -> bool
        decreases depth, 0nat, types,
    {
        match types {
            List::Nil => false,
            List::Cons(head, tail) => (depth > 0 && self.has_infer_within(
                *head,
                (depth - 1) as usize,
            )) || self.any_infer(*tail, depth),
        }
    }

    /// Whether a part of the type is the type of a literal that the context
    /// has yet to pin down.
    pub open spec fn has_comptime_number(self, index: TypeIndex) -> bool {
        self.has_comptime_number_within(index, MAX_DEPTH)
    }

    /// The same, as far as `depth` reaches into the parts of the type.
    pub open spec fn has_comptime_number_within(self, index: TypeIndex, depth: usize) -> bool
        decreases depth, 1nat, List::<TypeIndex>::Nil,
    {
        ty::is_comptime_number(index) || match self.ty(index) {
            Type::Struct { struct_index: _, args } => self.any_comptime_number(args, depth),
            Type::Tuple { elements } => self.any_comptime_number(elements, depth),
            _ => false,
        }
    }

    /// Whether one of the parts of a type has such a part.
    pub open spec fn any_comptime_number(self, types: List<TypeIndex>, depth: usize) -> bool
        decreases depth, 0nat, types,
    {
        match types {
            List::Nil => false,
            List::Cons(head, tail) => (depth > 0 && self.has_comptime_number_within(
                *head,
                (depth - 1) as usize,
            )) || self.any_comptime_number(*tail, depth),
        }
    }

    /// Whether a type agrees with an annotation in which parts may be left to
    /// infer: a part that is fits every type, and the others are the same, but
    /// for a right to write that is not asked for.
    pub open spec fn satisfies(self, actual: TypeIndex, expected: TypeIndex) -> bool {
        self.satisfies_within(actual, expected, MAX_DEPTH)
    }

    /// The same, as far as `depth` reaches into the parts of the types.
    pub open spec fn satisfies_within(
        self,
        actual: TypeIndex,
        expected: TypeIndex,
        depth: usize,
    ) -> bool
        decreases depth, 2nat, List::<TypeIndex>::Nil,
    {
        expected == ty::INFER || actual == expected || match (self.ty(actual), self.ty(expected)) {
            (
                Type::Struct { struct_index: a, args: a_args },
                Type::Struct { struct_index: b, args: b_args },
            ) => a == b && self.all_satisfy(a_args, b_args, depth),
            (
                Type::Pointer { to: a, memory: a_memory, mutable: a_mutable },
                Type::Pointer { to: b, memory: b_memory, mutable: b_mutable },
            ) => (a_mutable || !b_mutable) && self.satisfies_pair(a, b, a_memory, b_memory, depth),
            (
                Type::Slice { of: a, memory: a_memory, mutable: a_mutable },
                Type::Slice { of: b, memory: b_memory, mutable: b_mutable },
            ) => (a_mutable || !b_mutable) && self.satisfies_pair(a, b, a_memory, b_memory, depth),
            (
                Type::Array { of: a, size: a_size, memory: a_memory, mutable: a_mutable },
                Type::Array { of: b, size: b_size, memory: b_memory, mutable: b_mutable },
            ) => a_size == b_size && (a_mutable || !b_mutable) && self.satisfies_pair(
                a,
                b,
                a_memory,
                b_memory,
                depth,
            ),
            (Type::Function { signature: a }, Type::Function { signature: b }) => self.all_satisfy(
                a.params,
                b.params,
                depth,
            ) && depth > 0 && self.satisfies_within(a.result, b.result, (depth - 1) as usize),
            (
                Type::FunctionItem { id: a, type_args: a_args },
                Type::FunctionItem { id: b, type_args: b_args },
            ) => a == b && self.all_satisfy(a_args, b_args, depth),
            (
                Type::AssocTypeProjection { base: a, assoc_name: a_name, trait_index: a_trait },
                Type::AssocTypeProjection { base: b, assoc_name: b_name, trait_index: b_trait },
            ) => a_name == b_name && a_trait == b_trait && depth > 0 && self.satisfies_within(
                a,
                b,
                (depth - 1) as usize,
            ),
            (Type::Tuple { elements: a }, Type::Tuple { elements: b }) => self.all_satisfy(
                a,
                b,
                depth,
            ),
            _ => false,
        }
    }

    /// Whether two parts of a type agree with those of an annotation.
    pub open spec fn satisfies_pair(
        self,
        first: TypeIndex,
        first_expected: TypeIndex,
        second: TypeIndex,
        second_expected: TypeIndex,
        depth: usize,
    ) -> bool
        decreases depth, 1nat, List::<TypeIndex>::Nil,
    {
        &&& depth > 0
        &&& self.satisfies_within(first, first_expected, (depth - 1) as usize)
        &&& self.satisfies_within(second, second_expected, (depth - 1) as usize)
    }

    /// Whether the parts of a type agree with those of an annotation.
    pub open spec fn all_satisfy(
        self,
        actuals: List<TypeIndex>,
        expecteds: List<TypeIndex>,
        depth: usize,
    ) -> bool
        decreases depth, 0nat, expecteds,
    {
        match (actuals, expecteds) {
            (List::Nil, List::Nil) => true,
            (List::Cons(actual, actual_rest), List::Cons(expected, expected_rest)) => {
                &&& depth > 0
                &&& self.satisfies_within(*actual, *expected, (depth - 1) as usize)
                &&& self.all_satisfy(*actual_rest, *expected_rest, depth)
            },
            _ => false,
        }
    }

    /// The kind of value that WebAssembly holds the type in, if it is held in
    /// one.
    pub open spec fn scalar(self, index: TypeIndex) -> Option<WasmScalar> {
        self.scalar_within(index, MAX_DEPTH)
    }

    /// The same, after at most `depth` steps to the type that the type is held
    /// as.
    pub open spec fn scalar_within(self, index: TypeIndex, depth: usize) -> Option<WasmScalar>
        decreases depth,
    {
        match self.ty(index) {
            Type::Bool | Type::U8 | Type::I8 | Type::U16 | Type::I16 | Type::I32 | Type::U32
            | Type::Char | Type::Function { .. } => Some(WasmScalar::I32),
            Type::U64 | Type::I64 => Some(WasmScalar::I64),
            Type::F32 => Some(WasmScalar::F32),
            Type::F64 => Some(WasmScalar::F64),
            Type::Enum { enum_index } => match state::seq_at(self.enums, enum_index) {
                Some(declaration) => if depth > 0 {
                    self.scalar_within(declaration.repr_type, (depth - 1) as usize)
                } else {
                    None
                },
                None => None,
            },
            Type::Pointer { to: _, memory, mutable: _ } => match self.ty(memory) {
                Type::Memory { kind: _, id } => match self.memory_index(id) {
                    Some(memory_index) => match state::seq_at(self.memories, memory_index) {
                        Some(declaration) => if depth > 0 {
                            self.scalar_within(declaration.kind, (depth - 1) as usize)
                        } else {
                            None
                        },
                        None => None,
                    },
                    None => None,
                },
                _ => None,
            },
            _ => None,
        }
    }

    /// Whether a value of one type can be read as one of the other without a
    /// change of representation.
    pub open spec fn scalar_compatible(self, a: TypeIndex, b: TypeIndex) -> bool {
        a == b || match (self.ty(a), self.ty(b)) {
            (
                Type::Pointer { to: _, memory: a_memory, mutable: _ },
                Type::Pointer { to: _, memory: b_memory, mutable: _ },
            ) => a_memory == b_memory,
            (
                Type::Array { of: _, size: _, memory: a_memory, mutable: _ },
                Type::Array { of: _, size: _, memory: b_memory, mutable: _ },
            ) => a_memory == b_memory,
            (
                Type::Slice { of: _, memory: a_memory, mutable: _ },
                Type::Slice { of: _, memory: b_memory, mutable: _ },
            ) => a_memory == b_memory,
            (
                Type::AssocTypeProjection { base, assoc_name, trait_index: _ },
                Type::Pointer { to: _, memory, mutable: _ },
            ) => base == memory && assoc_name == self.names.size,
            (
                Type::Pointer { to: _, memory, mutable: _ },
                Type::AssocTypeProjection { base, assoc_name, trait_index: _ },
            ) => memory == base && assoc_name == self.names.size,
            _ => self.scalar(a) is Some && self.scalar(a) == self.scalar(b),
        }
    }

    /// The type parameters of a call that the type of an argument fixes: each
    /// that is still to be inferred gets the type it meets. The type of a
    /// number literal fixes none.
    pub open spec fn inferred(
        self,
        args: List<TypeIndex>,
        param: TypeIndex,
        actual: TypeIndex,
    ) -> List<TypeIndex> {
        self.inferred_within(args, param, actual, MAX_DEPTH)
    }

    /// The same, as far as `depth` reaches into the parts of the type of the
    /// parameter.
    pub open spec fn inferred_within(
        self,
        args: List<TypeIndex>,
        param: TypeIndex,
        actual: TypeIndex,
        depth: usize,
    ) -> List<TypeIndex>
        decreases depth, 1nat, List::<TypeIndex>::Nil,
    {
        match (self.ty(param), self.ty(actual)) {
            (Type::TypeParam { owner: _, param_index }, _) => if args.at(param_index as nat) == Some(
                ty::INFER,
            ) && actual != ty::ERROR && !ty::is_comptime_number(actual) {
                args.replaced(param_index as nat, actual)
            } else {
                args
            },
            (
                Type::Struct { struct_index: a, args: a_args },
                Type::Struct { struct_index: b, args: b_args },
            ) => if a == b {
                self.inferred_list(args, a_args, b_args, depth)
            } else {
                args
            },
            (
                Type::Pointer { to: a, memory: a_memory, mutable: _ },
                Type::Pointer { to: b, memory: b_memory, mutable: _ },
            ) => self.inferred_list(args, cons(a, cons(a_memory, List::Nil)), cons(b, cons(b_memory, List::Nil)), depth),
            (
                Type::Slice { of: a, memory: a_memory, mutable: _ },
                Type::Slice { of: b, memory: b_memory, mutable: _ },
            ) => self.inferred_list(args, cons(a, cons(a_memory, List::Nil)), cons(b, cons(b_memory, List::Nil)), depth),
            (
                Type::Array { of: a, size: _, memory: a_memory, mutable: _ },
                Type::Array { of: b, size: _, memory: b_memory, mutable: _ },
            ) => self.inferred_list(args, cons(a, cons(a_memory, List::Nil)), cons(b, cons(b_memory, List::Nil)), depth),
            (Type::Tuple { elements: a }, Type::Tuple { elements: b }) => self.inferred_list(
                args,
                a,
                b,
                depth,
            ),
            (Type::Function { signature: a }, Type::Function { signature: b }) => {
                let next = self.inferred_list(args, a.params, b.params, depth);
                if depth > 0 {
                    self.inferred_within(next, a.result, b.result, (depth - 1) as usize)
                } else {
                    next
                }
            },
            _ => args,
        }
    }

    /// What the parts of the type of an argument fix.
    pub open spec fn inferred_list(
        self,
        args: List<TypeIndex>,
        params: List<TypeIndex>,
        actuals: List<TypeIndex>,
        depth: usize,
    ) -> List<TypeIndex>
        decreases depth, 0nat, params,
    {
        match (params, actuals) {
            (List::Cons(param, rest), List::Cons(actual, actual_rest)) => {
                let next = if depth > 0 {
                    self.inferred_within(args, *param, *actual, (depth - 1) as usize)
                } else {
                    args
                };
                self.inferred_list(next, *rest, *actual_rest, depth)
            },
            _ => args,
        }
    }
}

impl<'ast> Builder<'ast> {
    /// Whether a value of type `a` can be used as one of type `b`.
    pub fn coercible_to(&mut self, a: TypeIndex, b: TypeIndex) -> (result: bool)
        ensures
            (final(self)@, result) == old(self)@.coercible(a, b),
    {
        if a == b || a == ty::NEVER || a == ty::ERROR || b == ty::ERROR {
            return true;
        }
        match (self.ty(a), self.ty(b)) {
            (
                Type::Pointer { to: a_to, memory: a_memory, mutable: true },
                Type::Pointer { to: b_to, memory: b_memory, mutable: false },
            ) => a_to == b_to && a_memory == b_memory,
            (
                Type::Slice { of: a_of, memory: a_memory, mutable: true },
                Type::Slice { of: b_of, memory: b_memory, mutable: false },
            ) => a_of == b_of && a_memory == b_memory,
            (
                Type::Array { of: a_of, size: a_size, memory: a_memory, mutable: true },
                Type::Array { of: b_of, size: b_size, memory: b_memory, mutable: false },
            ) => a_of == b_of && a_size == b_size && a_memory == b_memory,
            (Type::FunctionItem { id, type_args }, Type::Function { .. }) => {
                let generic: TypeIndex = self.signature_of(id);
                self.substitute_type(generic, &type_args, MAX_DEPTH) == b
            },
            _ => false,
        }
    }

    /// The common type of two branches, if they have one.
    pub fn unify(&mut self, a: TypeIndex, b: TypeIndex) -> (result: Option<TypeIndex>)
        ensures
            (final(self)@, result) == old(self)@.unified(a, b),
    {
        if a == b {
            return Some(a);
        }
        if a == ty::NEVER {
            return Some(b);
        }
        if b == ty::NEVER {
            return Some(a);
        }
        if a == ty::ERROR || b == ty::ERROR {
            return Some(ty::ERROR);
        }
        match (self.ty(a), self.ty(b)) {
            (
                Type::FunctionItem { id: a_id, type_args: a_args },
                Type::FunctionItem { id: b_id, type_args: b_args },
            ) => {
                let a_generic: TypeIndex = self.signature_of(a_id);
                let b_generic: TypeIndex = self.signature_of(b_id);
                let concrete_a: TypeIndex = self.substitute_type(a_generic, &a_args, MAX_DEPTH);
                let concrete_b: TypeIndex = self.substitute_type(b_generic, &b_args, MAX_DEPTH);
                if concrete_a == concrete_b {
                    Some(concrete_a)
                } else {
                    None
                }
            },
            _ => None,
        }
    }

    /// The function type of the given parameters and result.
    pub fn intern_function(
        &mut self,
        params: &List<FunctionParam>,
        result: Option<Spanned<TypeIndex>>,
    ) -> (index: TypeIndex)
        ensures
            (final(self)@, index) == old(self)@.intern_function_type(*params, result),
    {
        self.intern_type(
            Type::Function {
                signature: FunctionSignature {
                    params: types_of_params(params),
                    result: result_type(result),
                },
            },
        )
    }

    /// The substituted type of a parameter, as far as it says what an
    /// argument must be.
    pub fn substitute_expected_type(&mut self, index: TypeIndex, args: &List<TypeIndex>) -> (result:
        TypeIndex)
        ensures
            (final(self)@, result) == old(self)@.expected(index, *args),
    {
        let result: TypeIndex = self.substitute_type(index, args, MAX_DEPTH);
        match self.ty(result) {
            Type::TypeParam { .. } | Type::Integer | Type::Float | Type::Error => ty::INFER,
            _ => result,
        }
    }

    /// Whether a part of the type is still to be inferred.
    pub fn contains_infer(&self, index: TypeIndex) -> (result: bool)
        ensures
            result == self@.has_infer(index),
    {
        self.contains_infer_within(index, MAX_DEPTH)
    }

    fn contains_infer_within(&self, index: TypeIndex, depth: usize) -> (result: bool)
        ensures
            result == self@.has_infer_within(index, depth),
        decreases depth, 1nat, List::<TypeIndex>::Nil,
    {
        if index == ty::INFER {
            return true;
        }
        match self.ty(index) {
            Type::Struct { args, .. } => self.any_contains_infer(&args, depth),
            Type::Pointer { to, memory, .. } => depth > 0 && (self.contains_infer_within(
                to,
                depth - 1,
            ) || self.contains_infer_within(memory, depth - 1)),
            Type::Array { of, memory, .. } => depth > 0 && (self.contains_infer_within(
                of,
                depth - 1,
            ) || self.contains_infer_within(memory, depth - 1)),
            Type::Slice { of, memory, .. } => depth > 0 && (self.contains_infer_within(
                of,
                depth - 1,
            ) || self.contains_infer_within(memory, depth - 1)),
            Type::Tuple { elements } => self.any_contains_infer(&elements, depth),
            Type::Function { signature } => self.any_contains_infer(&signature.params, depth) || (
            depth > 0 && self.contains_infer_within(signature.result, depth - 1)),
            Type::FunctionItem { type_args, .. } => self.any_contains_infer(&type_args, depth),
            Type::AssocTypeProjection { base, .. } => depth > 0 && self.contains_infer_within(
                base,
                depth - 1,
            ),
            _ => false,
        }
    }

    fn any_contains_infer(&self, types: &List<TypeIndex>, depth: usize) -> (result: bool)
        ensures
            result == self@.any_infer(*types, depth),
        decreases depth, 0nat, *types,
    {
        match types {
            List::Nil => false,
            List::Cons(head, tail) => (depth > 0 && self.contains_infer_within(**head, depth - 1))
                || self.any_contains_infer(tail, depth),
        }
    }

    /// Whether a part of the type is the type of a literal that the context
    /// has yet to pin down.
    pub fn contains_comptime_number(&self, index: TypeIndex) -> (result: bool)
        ensures
            result == self@.has_comptime_number(index),
    {
        self.contains_comptime_number_within(index, MAX_DEPTH)
    }

    fn contains_comptime_number_within(&self, index: TypeIndex, depth: usize) -> (result: bool)
        ensures
            result == self@.has_comptime_number_within(index, depth),
        decreases depth, 1nat, List::<TypeIndex>::Nil,
    {
        if ty::is_comptime_number(index) {
            return true;
        }
        match self.ty(index) {
            Type::Struct { args, .. } => self.any_contains_comptime_number(&args, depth),
            Type::Tuple { elements } => self.any_contains_comptime_number(&elements, depth),
            _ => false,
        }
    }

    fn any_contains_comptime_number(&self, types: &List<TypeIndex>, depth: usize) -> (result: bool)
        ensures
            result == self@.any_comptime_number(*types, depth),
        decreases depth, 0nat, *types,
    {
        match types {
            List::Nil => false,
            List::Cons(head, tail) => (depth > 0 && self.contains_comptime_number_within(
                **head,
                depth - 1,
            )) || self.any_contains_comptime_number(tail, depth),
        }
    }

    /// Whether a type agrees with an annotation in which parts may be left to
    /// infer: a part that is fits every type, and the others are the same, but
    /// for a right to write that is not asked for.
    pub fn type_satisfies_annotation(&self, actual: TypeIndex, expected: TypeIndex) -> (result:
        bool)
        ensures
            result == self@.satisfies(actual, expected),
    {
        self.satisfies_annotation_within(actual, expected, MAX_DEPTH)
    }

    fn satisfies_annotation_within(
        &self,
        actual: TypeIndex,
        expected: TypeIndex,
        depth: usize,
    ) -> (result: bool)
        ensures
            result == self@.satisfies_within(actual, expected, depth),
        decreases depth, 2nat, List::<TypeIndex>::Nil,
    {
        if expected == ty::INFER || actual == expected {
            return true;
        }
        match (self.ty(actual), self.ty(expected)) {
            (
                Type::Struct { struct_index: a, args: a_args },
                Type::Struct { struct_index: b, args: b_args },
            ) => a == b && self.all_satisfy_annotation(&a_args, &b_args, depth),
            (
                Type::Pointer { to: a, memory: a_memory, mutable: a_mutable },
                Type::Pointer { to: b, memory: b_memory, mutable: b_mutable },
            ) => (a_mutable || !b_mutable) && self.satisfy_annotation_pair(
                a,
                b,
                a_memory,
                b_memory,
                depth,
            ),
            (
                Type::Slice { of: a, memory: a_memory, mutable: a_mutable },
                Type::Slice { of: b, memory: b_memory, mutable: b_mutable },
            ) => (a_mutable || !b_mutable) && self.satisfy_annotation_pair(
                a,
                b,
                a_memory,
                b_memory,
                depth,
            ),
            (
                Type::Array { of: a, size: a_size, memory: a_memory, mutable: a_mutable },
                Type::Array { of: b, size: b_size, memory: b_memory, mutable: b_mutable },
            ) => a_size == b_size && (a_mutable || !b_mutable) && self.satisfy_annotation_pair(
                a,
                b,
                a_memory,
                b_memory,
                depth,
            ),
            (Type::Function { signature: a }, Type::Function { signature: b }) => {
                self.all_satisfy_annotation(&a.params, &b.params, depth) && depth > 0
                    && self.satisfies_annotation_within(a.result, b.result, depth - 1)
            },
            (
                Type::FunctionItem { id: a, type_args: a_args },
                Type::FunctionItem { id: b, type_args: b_args },
            ) => a == b && self.all_satisfy_annotation(&a_args, &b_args, depth),
            (
                Type::AssocTypeProjection { base: a, assoc_name: a_name, trait_index: a_trait },
                Type::AssocTypeProjection { base: b, assoc_name: b_name, trait_index: b_trait },
            ) => a_name == b_name && a_trait == b_trait && depth > 0
                && self.satisfies_annotation_within(a, b, depth - 1),
            (Type::Tuple { elements: a }, Type::Tuple { elements: b }) => {
                self.all_satisfy_annotation(&a, &b, depth)
            },
            _ => false,
        }
    }

    fn satisfy_annotation_pair(
        &self,
        first: TypeIndex,
        first_expected: TypeIndex,
        second: TypeIndex,
        second_expected: TypeIndex,
        depth: usize,
    ) -> (result: bool)
        ensures
            result == self@.satisfies_pair(first, first_expected, second, second_expected, depth),
        decreases depth, 1nat, List::<TypeIndex>::Nil,
    {
        depth > 0 && self.satisfies_annotation_within(first, first_expected, depth - 1)
            && self.satisfies_annotation_within(second, second_expected, depth - 1)
    }

    fn all_satisfy_annotation(
        &self,
        actuals: &List<TypeIndex>,
        expecteds: &List<TypeIndex>,
        depth: usize,
    ) -> (result: bool)
        ensures
            result == self@.all_satisfy(*actuals, *expecteds, depth),
        decreases depth, 0nat, *expecteds,
    {
        match (actuals, expecteds) {
            (List::Nil, List::Nil) => true,
            (List::Cons(actual, actual_rest), List::Cons(expected, expected_rest)) => {
                depth > 0 && self.satisfies_annotation_within(**actual, **expected, depth - 1)
                    && self.all_satisfy_annotation(actual_rest, expected_rest, depth)
            },
            _ => false,
        }
    }

    /// The kind of value that WebAssembly holds the type in, if it is held in
    /// one.
    pub fn type_scalar(&self, index: TypeIndex) -> (result: Option<WasmScalar>)
        ensures
            result == self@.scalar(index),
    {
        self.type_scalar_within(index, MAX_DEPTH)
    }

    fn type_scalar_within(&self, index: TypeIndex, depth: usize) -> (result: Option<WasmScalar>)
        ensures
            result == self@.scalar_within(index, depth),
        decreases depth,
    {
        match self.ty(index) {
            Type::Bool
            | Type::U8
            | Type::I8
            | Type::U16
            | Type::I16
            | Type::I32
            | Type::U32
            | Type::Char
            | Type::Function { .. } => Some(WasmScalar::I32),
            Type::U64 | Type::I64 => Some(WasmScalar::I64),
            Type::F32 => Some(WasmScalar::F32),
            Type::F64 => Some(WasmScalar::F64),
            Type::Enum { enum_index } => match vec_at(&self.enums, enum_index) {
                Some(declaration) => if depth > 0 {
                    self.type_scalar_within(declaration.repr_type, depth - 1)
                } else {
                    None
                },
                None => None,
            },
            Type::Pointer { memory, .. } => match self.ty(memory) {
                Type::Memory { id, .. } => match self.memory_index(id) {
                    Some(memory_index) => match vec_at(&self.memories, memory_index) {
                        Some(declaration) => if depth > 0 {
                            self.type_scalar_within(declaration.kind, depth - 1)
                        } else {
                            None
                        },
                        None => None,
                    },
                    None => None,
                },
                _ => None,
            },
            _ => None,
        }
    }

    /// Whether a value of one type can be read as one of the other without a
    /// change of representation.
    pub fn are_scalar_compatible(&self, a: TypeIndex, b: TypeIndex) -> (result: bool)
        ensures
            result == self@.scalar_compatible(a, b),
    {
        if a == b {
            return true;
        }
        match (self.ty(a), self.ty(b)) {
            (
                Type::Pointer { memory: a_memory, .. },
                Type::Pointer { memory: b_memory, .. },
            ) => a_memory == b_memory,
            (
                Type::Array { memory: a_memory, .. },
                Type::Array { memory: b_memory, .. },
            ) => a_memory == b_memory,
            (
                Type::Slice { memory: a_memory, .. },
                Type::Slice { memory: b_memory, .. },
            ) => a_memory == b_memory,
            (
                Type::AssocTypeProjection { base, assoc_name, .. },
                Type::Pointer { memory, .. },
            ) => base == memory && assoc_name == self.names.size,
            (
                Type::Pointer { memory, .. },
                Type::AssocTypeProjection { base, assoc_name, .. },
            ) => memory == base && assoc_name == self.names.size,
            _ => match (self.type_scalar(a), self.type_scalar(b)) {
                (Some(x), Some(y)) => x == y,
                _ => false,
            },
        }
    }

    /// The type parameters of a call that the type of an argument fixes.
    pub fn infer_type_args(&self, args: List<TypeIndex>, param: TypeIndex, actual: TypeIndex) -> (result:
        List<TypeIndex>)
        ensures
            result == self@.inferred(args, param, actual),
    {
        self.infer_type_args_within(args, param, actual, MAX_DEPTH)
    }

    fn infer_type_args_within(
        &self,
        args: List<TypeIndex>,
        param: TypeIndex,
        actual: TypeIndex,
        depth: usize,
    ) -> (result: List<TypeIndex>)
        ensures
            result == self@.inferred_within(args, param, actual, depth),
        decreases depth, 1nat, List::<TypeIndex>::Nil,
    {
        match (self.ty(param), self.ty(actual)) {
            (Type::TypeParam { param_index, .. }, _) => {
                let open: bool = match args.get(param_index) {
                    Some(slot) => *slot == ty::INFER,
                    None => false,
                };
                if open && actual != ty::ERROR && !ty::is_comptime_number(actual) {
                    args.set(param_index, actual)
                } else {
                    args
                }
            },
            (
                Type::Struct { struct_index: a, args: a_args },
                Type::Struct { struct_index: b, args: b_args },
            ) => if a == b {
                self.infer_types(args, &a_args, &b_args, depth)
            } else {
                args
            },
            (
                Type::Pointer { to: a, memory: a_memory, .. },
                Type::Pointer { to: b, memory: b_memory, .. },
            ) => self.infer_types(
                args,
                &cons(a, cons(a_memory, List::Nil)),
                &cons(b, cons(b_memory, List::Nil)),
                depth,
            ),
            (
                Type::Slice { of: a, memory: a_memory, .. },
                Type::Slice { of: b, memory: b_memory, .. },
            ) => self.infer_types(
                args,
                &cons(a, cons(a_memory, List::Nil)),
                &cons(b, cons(b_memory, List::Nil)),
                depth,
            ),
            (
                Type::Array { of: a, memory: a_memory, .. },
                Type::Array { of: b, memory: b_memory, .. },
            ) => self.infer_types(
                args,
                &cons(a, cons(a_memory, List::Nil)),
                &cons(b, cons(b_memory, List::Nil)),
                depth,
            ),
            (Type::Tuple { elements: a }, Type::Tuple { elements: b }) => {
                self.infer_types(args, &a, &b, depth)
            },
            (Type::Function { signature: a }, Type::Function { signature: b }) => {
                let next = self.infer_types(args, &a.params, &b.params, depth);
                if depth > 0 {
                    self.infer_type_args_within(next, a.result, b.result, depth - 1)
                } else {
                    next
                }
            },
            _ => args,
        }
    }

    fn infer_types(
        &self,
        args: List<TypeIndex>,
        params: &List<TypeIndex>,
        actuals: &List<TypeIndex>,
        depth: usize,
    ) -> (result: List<TypeIndex>)
        ensures
            result == self@.inferred_list(args, *params, *actuals, depth),
        decreases depth, 0nat, *params,
    {
        match (params, actuals) {
            (List::Cons(param, rest), List::Cons(actual, actual_rest)) => {
                let next = if depth > 0 {
                    self.infer_type_args_within(args, **param, **actual, depth - 1)
                } else {
                    args
                };
                self.infer_types(next, rest, actual_rest, depth)
            },
            _ => args,
        }
    }
}

} // verus!
