//! Matching a type against a pattern with type parameters, and putting types
//! in the place of type parameters.

use vstd::prelude::*;

use crate::list::{cons, List};
use crate::list;
use crate::relate::MAX_DEPTH;
use crate::span::Symbol;
use crate::state;
use crate::state::{vec_at, Builder, ImplTarget, State, TraitDispatch};
use crate::tir::{ImplEntry, Member, TraitImpl};
use crate::ty;
use crate::types::{same_types, FunctionSignature, Type, TypeIndex};

verus! {

/// The entry of the first member of that name.
pub open spec fn member_entry(members: List<Member>, name: Symbol) -> Option<ImplEntry>
    decreases members,
{
    match members {
        List::Nil => None,
        List::Cons(head, tail) => if head.name == name {
            Some(head.entry)
        } else {
            member_entry(*tail, name)
        },
    }
}

/// The entry of the first member of that name.
pub fn find_member(members: &List<Member>, name: Symbol) -> (result: Option<ImplEntry>)
    ensures
        result == member_entry(*members, name),
    decreases members,
{
    match members {
        List::Nil => None,
        List::Cons(head, tail) => if head.name == name {
            Some(head.entry)
        } else {
            find_member(tail, name)
        },
    }
}

/// The members with one more, in place of an earlier one of the same name.
pub open spec fn with_member(members: List<Member>, member: Member) -> List<Member>
    decreases members,
{
    match members {
        List::Nil => cons(member, List::Nil),
        List::Cons(head, tail) => if head.name == member.name {
            List::Cons(Box::new(member), tail)
        } else {
            List::Cons(head, Box::new(with_member(*tail, member)))
        },
    }
}

/// Adds a member, in place of an earlier one of the same name.
pub fn set_member(members: &mut List<Member>, member: Member)
    ensures
        *final(members) == with_member(*old(members), member),
    decreases *old(members),
{
    match members {
        List::Nil => {
            *members = cons(member, List::Nil);
        },
        List::Cons(head, tail) => {
            if head.name == member.name {
                **head = member;
            } else {
                set_member(tail, member);
            }
        },
    }
}

/// What a member found afterwards is: the one that was set last.
pub proof fn law_member_read_after_write(members: List<Member>, member: Member, name: Symbol)
    ensures
        member_entry(with_member(members, member), name) == if name == member.name {
            Some(member.entry)
        } else {
            member_entry(members, name)
        },
    decreases members,
{
    match members {
        List::Nil => {
            reveal_with_fuel(member_entry, 2);
        },
        List::Cons(_, tail) => {
            law_member_read_after_write(*tail, member, name);
        },
    }
}

/// What an impl for the type is registered under; nothing where a type cannot
/// have impls.
pub open spec fn impl_target(index: TypeIndex, ty: Type) -> Option<ImplTarget> {
    match ty {
        Type::U8 | Type::I8 | Type::U16 | Type::I16 | Type::U32 | Type::I32 | Type::U64
        | Type::I64 | Type::F32 | Type::F64 | Type::Bool | Type::Char => Some(
            ImplTarget::Primitive(index),
        ),
        Type::Struct { struct_index, args: _ } => Some(ImplTarget::Struct(struct_index)),
        Type::Enum { enum_index } => Some(ImplTarget::Enum(enum_index)),
        Type::Memory { kind: _, id } => Some(ImplTarget::Memory(id)),
        Type::Slice { .. } => Some(ImplTarget::Slice),
        Type::Array { .. } => Some(ImplTarget::Array),
        Type::Tuple { .. } => Some(ImplTarget::Tuple),
        _ => None,
    }
}

impl ImplTarget {
    /// What an impl for the type is registered under; nothing where a type
    /// cannot have impls.
    pub fn from_type(index: TypeIndex, ty: &Type) -> (result: Option<ImplTarget>)
        ensures
            result == impl_target(index, *ty),
    {
        match ty {
            Type::U8
            | Type::I8
            | Type::U16
            | Type::I16
            | Type::U32
            | Type::I32
            | Type::U64
            | Type::I64
            | Type::F32
            | Type::F64
            | Type::Bool
            | Type::Char => Some(ImplTarget::Primitive(index)),
            Type::Struct { struct_index, .. } => Some(ImplTarget::Struct(*struct_index)),
            Type::Enum { enum_index } => Some(ImplTarget::Enum(*enum_index)),
            Type::Memory { id, .. } => Some(ImplTarget::Memory(*id)),
            Type::Slice { .. } => Some(ImplTarget::Slice),
            Type::Array { .. } => Some(ImplTarget::Array),
            Type::Tuple { .. } => Some(ImplTarget::Tuple),
            _ => None,
        }
    }
}

/// The impl of a trait that is registered for a target.
pub open spec fn dispatched_impl(
    table: Seq<TraitDispatch>,
    target: ImplTarget,
    trait_index: usize,
    from: int,
) -> Option<usize>
    decreases table.len() - from,
{
    if from < 0 || from >= table.len() {
        None
    } else if table[from].target == target && table[from].trait_index == trait_index {
        Some(table[from].impl_index)
    } else {
        dispatched_impl(table, target, trait_index, from + 1)
    }
}

impl<'ast> State<'ast> {
    /// Matches `actual` against `pattern`: a type parameter of the pattern
    /// stands for the type that `args` has for it, or, where that is still to
    /// be inferred, for the type it meets first. `depth` bounds how deep the
    /// parts of the pattern are followed.
    pub open spec fn matched(
        self,
        args: List<TypeIndex>,
        pattern: TypeIndex,
        actual: TypeIndex,
        depth: usize,
    ) -> Option<List<TypeIndex>>
        decreases depth, 2nat, List::<TypeIndex>::Nil,
    {
        match (self.ty(pattern), self.ty(actual)) {
            (Type::TypeParam { owner: _, param_index }, _) => match args.at(param_index as nat) {
                Some(bound) => if bound == ty::INFER {
                    Some(args.replaced(param_index as nat, actual))
                } else if bound == actual {
                    Some(args)
                } else {
                    None
                },
                None => if pattern == actual {
                    Some(args)
                } else {
                    None
                },
            },
            (
                Type::Struct { struct_index: a, args: a_args },
                Type::Struct { struct_index: b, args: b_args },
            ) => if a == b {
                self.matched_list(args, a_args, b_args, depth)
            } else {
                None
            },
            (
                Type::Pointer { to: a, memory: a_memory, mutable: m },
                Type::Pointer { to: b, memory: b_memory, mutable: n },
            ) => if m == n {
                self.matched_pair(args, a, b, a_memory, b_memory, depth)
            } else {
                None
            },
            (
                Type::Slice { of: a, memory: a_memory, mutable: m },
                Type::Slice { of: b, memory: b_memory, mutable: n },
            ) => if m == n {
                self.matched_pair(args, a, b, a_memory, b_memory, depth)
            } else {
                None
            },
            (
                Type::Array { of: a, size: k, memory: a_memory, mutable: m },
                Type::Array { of: b, size: l, memory: b_memory, mutable: n },
            ) => if k == l && m == n {
                self.matched_pair(args, a, b, a_memory, b_memory, depth)
            } else {
                None
            },
            (Type::Tuple { elements: a }, Type::Tuple { elements: b }) => {
                self.matched_list(args, a, b, depth)
            },
            (Type::Function { signature: a }, Type::Function { signature: b }) => {
                match self.matched_list(args, a.params, b.params, depth) {
                    Some(next) => if depth > 0 {
                        self.matched(next, a.result, b.result, (depth - 1) as usize)
                    } else {
                        None
                    },
                    None => None,
                }
            },
            _ => if pattern == actual {
                Some(args)
            } else {
                None
            },
        }
    }

    /// Matches two components one after the other.
    pub open spec fn matched_pair(
        self,
        args: List<TypeIndex>,
        first: TypeIndex,
        first_actual: TypeIndex,
        second: TypeIndex,
        second_actual: TypeIndex,
        depth: usize,
    ) -> Option<List<TypeIndex>>
        decreases depth, 1nat, List::<TypeIndex>::Nil,
    {
        if depth > 0 {
            match self.matched(args, first, first_actual, (depth - 1) as usize) {
                Some(next) => self.matched(next, second, second_actual, (depth - 1) as usize),
                None => None,
            }
        } else {
            None
        }
    }

    /// Matches components in order; the lists must have the same length.
    pub open spec fn matched_list(
        self,
        args: List<TypeIndex>,
        patterns: List<TypeIndex>,
        actuals: List<TypeIndex>,
        depth: usize,
    ) -> Option<List<TypeIndex>>
        decreases depth, 0nat, patterns,
    {
        match (patterns, actuals) {
            (List::Nil, List::Nil) => Some(args),
            (List::Cons(pattern, rest), List::Cons(actual, actual_rest)) => if depth > 0 {
                match self.matched(args, *pattern, *actual, (depth - 1) as usize) {
                    Some(next) => self.matched_list(next, *rest, *actual_rest, depth),
                    None => None,
                }
            } else {
                None
            },
            _ => None,
        }
    }
}

impl<'ast> State<'ast> {
    /// The arguments for the type parameters of a trait impl that make its
    /// target the given type.
    pub open spec fn impl_arguments(self, implementation: TraitImpl, actual: TypeIndex) -> Option<
        List<TypeIndex>,
    > {
        self.matched(
            List::repeated(ty::INFER, list::clamp(implementation.type_params.count()) as nat),
            implementation.target.inner,
            actual,
            MAX_DEPTH,
        )
    }

    /// The impl of a trait that is registered for a target.
    pub open spec fn find_dispatched_impl(self, target: ImplTarget, trait_index: usize) -> Option<
        usize,
    > {
        dispatched_impl(self.trait_dispatch, target, trait_index, 0)
    }

    /// The impl of a trait for a type, with the arguments for the impl's type
    /// parameters.
    pub open spec fn trait_impl_for(self, actual: TypeIndex, trait_index: usize) -> Option<
        (usize, List<TypeIndex>),
    > {
        match impl_target(actual, self.ty(actual)) {
            Some(target) => match self.find_dispatched_impl(target, trait_index) {
                Some(impl_index) => match state::seq_at(self.trait_impls, impl_index) {
                    Some(implementation) => match self.impl_arguments(implementation, actual) {
                        Some(args) => Some((impl_index, args)),
                        None => None,
                    },
                    None => None,
                },
                None => None,
            },
            None => None,
        }
    }

    /// The type that an impl gives an associated type, over the impl's type
    /// parameters.
    pub open spec fn impl_assoc_type(self, impl_index: usize, assoc_name: Symbol) -> Option<
        TypeIndex,
    > {
        match state::seq_at(self.trait_impls, impl_index) {
            Some(implementation) => match member_entry(implementation.members, assoc_name) {
                Some(ImplEntry::AssocType { ty }) => Some(ty),
                _ => None,
            },
            None => None,
        }
    }

    /// The type with the arguments in the place of its type parameters. A
    /// parameter without an argument, or with a poisoned one, stays. The
    /// associated type of a type that is known by then becomes what the impl
    /// says. `depth` bounds how deep the parts of the type, and the types that
    /// this leads to, are followed.
    pub open spec fn substituted(self, index: TypeIndex, args: List<TypeIndex>, depth: usize) -> (
        State<'ast>,
        TypeIndex,
    )
        decreases depth, 2nat, List::<TypeIndex>::Nil,
    {
        match self.ty(index) {
            Type::TypeParam { owner: _, param_index } => match args.at(param_index as nat) {
                Some(argument) => if argument == ty::ERROR {
                    (self, index)
                } else {
                    (self, argument)
                },
                None => (self, index),
            },
            Type::AssocTypeProjection { base, assoc_name, trait_index } => if depth > 0 {
                let (s, next) = self.substituted(base, args, (depth - 1) as usize);
                match s.ty(next) {
                    Type::TypeParam { .. } | Type::AssocTypeProjection { .. } => if next == base {
                        (s, index)
                    } else {
                        s.intern(Type::AssocTypeProjection { base: next, assoc_name, trait_index })
                    },
                    _ => match s.trait_impl_for(next, trait_index) {
                        Some((impl_index, impl_args)) => match s.impl_assoc_type(
                            impl_index,
                            assoc_name,
                        ) {
                            Some(value) => s.substituted(value, impl_args, (depth - 1) as usize),
                            None => (s, index),
                        },
                        None => (s, index),
                    },
                }
            } else {
                (self, index)
            },
            Type::Pointer { to, memory, mutable } => {
                let (s, next, next_memory) = self.substituted_pair(to, memory, args, depth);
                if next == to && next_memory == memory {
                    (s, index)
                } else {
                    s.intern(Type::Pointer { to: next, memory: next_memory, mutable })
                }
            },
            Type::Array { of, size, memory, mutable } => {
                let (s, next, next_memory) = self.substituted_pair(of, memory, args, depth);
                if next == of && next_memory == memory {
                    (s, index)
                } else {
                    s.intern(Type::Array { of: next, size, memory: next_memory, mutable })
                }
            },
            Type::Slice { of, memory, mutable } => {
                let (s, next, next_memory) = self.substituted_pair(of, memory, args, depth);
                if next == of && next_memory == memory {
                    (s, index)
                } else {
                    s.intern(Type::Slice { of: next, memory: next_memory, mutable })
                }
            },
            Type::Tuple { elements } => {
                let (s, next) = self.substituted_list(elements, args, depth);
                if next == elements {
                    (s, index)
                } else {
                    s.intern(Type::Tuple { elements: next })
                }
            },
            Type::Function { signature } => {
                let (s, params) = self.substituted_list(signature.params, args, depth);
                let (t, result) = if depth > 0 {
                    s.substituted(signature.result, args, (depth - 1) as usize)
                } else {
                    (s, signature.result)
                };
                if params == signature.params && result == signature.result {
                    (t, index)
                } else {
                    t.intern(Type::Function { signature: FunctionSignature { params, result } })
                }
            },
            Type::Struct { struct_index, args: struct_args } => {
                let (s, next) = self.substituted_list(struct_args, args, depth);
                if next == struct_args {
                    (s, index)
                } else {
                    s.intern(Type::Struct { struct_index, args: next })
                }
            },
            Type::FunctionItem { id, type_args } => {
                let (s, next) = self.substituted_list(type_args, args, depth);
                if next == type_args {
                    (s, index)
                } else {
                    s.intern(Type::FunctionItem { id, type_args: next })
                }
            },
            _ => (self, index),
        }
    }

    /// Substitutes in two components of a type, in order.
    pub open spec fn substituted_pair(
        self,
        first: TypeIndex,
        second: TypeIndex,
        args: List<TypeIndex>,
        depth: usize,
    ) -> (State<'ast>, TypeIndex, TypeIndex)
        decreases depth, 1nat, List::<TypeIndex>::Nil,
    {
        let (s, next) = if depth > 0 {
            self.substituted(first, args, (depth - 1) as usize)
        } else {
            (self, first)
        };
        let (t, next_second) = if depth > 0 {
            s.substituted(second, args, (depth - 1) as usize)
        } else {
            (s, second)
        };
        (t, next, next_second)
    }

    /// Substitutes in each of the components of a type, in order.
    pub open spec fn substituted_list(
        self,
        types: List<TypeIndex>,
        args: List<TypeIndex>,
        depth: usize,
    ) -> (State<'ast>, List<TypeIndex>)
        decreases depth, 0nat, types,
    {
        match types {
            List::Nil => (self, List::Nil),
            List::Cons(head, tail) => {
                let (s, next) = if depth > 0 {
                    self.substituted(*head, args, (depth - 1) as usize)
                } else {
                    (self, *head)
                };
                let (t, rest) = s.substituted_list(*tail, args, depth);
                (t, cons(next, rest))
            },
        }
    }

    /// The type with the poison type in the place of every type parameter. The
    /// associated type of a type that this changes is poisoned with it. `depth`
    /// bounds how deep the parts of the type are followed.
    pub open spec fn poisoned(self, index: TypeIndex, depth: usize) -> (State<'ast>, TypeIndex)
        decreases depth, 2nat, List::<TypeIndex>::Nil,
    {
        match self.ty(index) {
            Type::TypeParam { .. } => (self, ty::ERROR),
            Type::AssocTypeProjection { base, assoc_name: _, trait_index: _ } => if depth > 0 {
                let (s, next) = self.poisoned(base, (depth - 1) as usize);
                if next == base {
                    (s, index)
                } else {
                    (s, ty::ERROR)
                }
            } else {
                (self, index)
            },
            Type::Pointer { to, memory, mutable } => {
                let (s, next, next_memory) = self.poisoned_pair(to, memory, depth);
                if next == to && next_memory == memory {
                    (s, index)
                } else {
                    s.intern(Type::Pointer { to: next, memory: next_memory, mutable })
                }
            },
            Type::Array { of, size, memory, mutable } => {
                let (s, next, next_memory) = self.poisoned_pair(of, memory, depth);
                if next == of && next_memory == memory {
                    (s, index)
                } else {
                    s.intern(Type::Array { of: next, size, memory: next_memory, mutable })
                }
            },
            Type::Slice { of, memory, mutable } => {
                let (s, next, next_memory) = self.poisoned_pair(of, memory, depth);
                if next == of && next_memory == memory {
                    (s, index)
                } else {
                    s.intern(Type::Slice { of: next, memory: next_memory, mutable })
                }
            },
            Type::Tuple { elements } => {
                let (s, next) = self.poisoned_list(elements, depth);
                if next == elements {
                    (s, index)
                } else {
                    s.intern(Type::Tuple { elements: next })
                }
            },
            Type::Function { signature } => {
                let (s, params) = self.poisoned_list(signature.params, depth);
                let (t, result) = if depth > 0 {
                    s.poisoned(signature.result, (depth - 1) as usize)
                } else {
                    (s, signature.result)
                };
                if params == signature.params && result == signature.result {
                    (t, index)
                } else {
                    t.intern(Type::Function { signature: FunctionSignature { params, result } })
                }
            },
            Type::Struct { struct_index, args } => {
                let (s, next) = self.poisoned_list(args, depth);
                if next == args {
                    (s, index)
                } else {
                    s.intern(Type::Struct { struct_index, args: next })
                }
            },
            Type::FunctionItem { id, type_args } => {
                let (s, next) = self.poisoned_list(type_args, depth);
                if next == type_args {
                    (s, index)
                } else {
                    s.intern(Type::FunctionItem { id, type_args: next })
                }
            },
            _ => (self, index),
        }
    }

    /// Poisons two components of a type, in order.
    pub open spec fn poisoned_pair(
        self,
        first: TypeIndex,
        second: TypeIndex,
        depth: usize,
    ) -> (State<'ast>, TypeIndex, TypeIndex)
        decreases depth, 1nat, List::<TypeIndex>::Nil,
    {
        let (s, next) = if depth > 0 {
            self.poisoned(first, (depth - 1) as usize)
        } else {
            (self, first)
        };
        let (t, next_second) = if depth > 0 {
            s.poisoned(second, (depth - 1) as usize)
        } else {
            (s, second)
        };
        (t, next, next_second)
    }

    /// Poisons each of the components of a type, in order.
    pub open spec fn poisoned_list(self, types: List<TypeIndex>, depth: usize) -> (
        State<'ast>,
        List<TypeIndex>,
    )
        decreases depth, 0nat, types,
    {
        match types {
            List::Nil => (self, List::Nil),
            List::Cons(head, tail) => {
                let (s, next) = if depth > 0 {
                    self.poisoned(*head, (depth - 1) as usize)
                } else {
                    (self, *head)
                };
                let (t, rest) = s.poisoned_list(*tail, depth);
                (t, cons(next, rest))
            },
        }
    }
}

impl<'ast> Builder<'ast> {
    /// Matches `actual` against `pattern`.
    pub fn match_type(
        &self,
        args: List<TypeIndex>,
        pattern: TypeIndex,
        actual: TypeIndex,
        depth: usize,
    ) -> (result: Option<List<TypeIndex>>)
        ensures
            result == self@.matched(args, pattern, actual, depth),
        decreases depth, 2nat, List::<TypeIndex>::Nil,
    {
        match (self.ty(pattern), self.ty(actual)) {
            (Type::TypeParam { param_index, .. }, _) => {
                let bound: Option<TypeIndex> = match args.get(param_index) {
                    Some(bound) => Some(*bound),
                    None => None,
                };
                match bound {
                    Some(bound) => if bound == ty::INFER {
                        Some(args.set(param_index, actual))
                    } else if bound == actual {
                        Some(args)
                    } else {
                        None
                    },
                    None => if pattern == actual {
                        Some(args)
                    } else {
                        None
                    },
                }
            },
            (
                Type::Struct { struct_index: a, args: a_args },
                Type::Struct { struct_index: b, args: b_args },
            ) => if a == b {
                self.match_types(args, &a_args, &b_args, depth)
            } else {
                None
            },
            (
                Type::Pointer { to: a, memory: a_memory, mutable: m },
                Type::Pointer { to: b, memory: b_memory, mutable: n },
            ) => if m == n {
                self.match_pair(args, a, b, a_memory, b_memory, depth)
            } else {
                None
            },
            (
                Type::Slice { of: a, memory: a_memory, mutable: m },
                Type::Slice { of: b, memory: b_memory, mutable: n },
            ) => if m == n {
                self.match_pair(args, a, b, a_memory, b_memory, depth)
            } else {
                None
            },
            (
                Type::Array { of: a, size: k, memory: a_memory, mutable: m },
                Type::Array { of: b, size: l, memory: b_memory, mutable: n },
            ) => if k == l && m == n {
                self.match_pair(args, a, b, a_memory, b_memory, depth)
            } else {
                None
            },
            (Type::Tuple { elements: a }, Type::Tuple { elements: b }) => {
                self.match_types(args, &a, &b, depth)
            },
            (Type::Function { signature: a }, Type::Function { signature: b }) => {
                match self.match_types(args, &a.params, &b.params, depth) {
                    Some(next) => if depth > 0 {
                        self.match_type(next, a.result, b.result, depth - 1)
                    } else {
                        None
                    },
                    None => None,
                }
            },
            _ => if pattern == actual {
                Some(args)
            } else {
                None
            },
        }
    }

    fn match_pair(
        &self,
        args: List<TypeIndex>,
        first: TypeIndex,
        first_actual: TypeIndex,
        second: TypeIndex,
        second_actual: TypeIndex,
        depth: usize,
    ) -> (result: Option<List<TypeIndex>>)
        ensures
            result == self@.matched_pair(
                args,
                first,
                first_actual,
                second,
                second_actual,
                depth,
            ),
        decreases depth, 1nat, List::<TypeIndex>::Nil,
    {
        if depth > 0 {
            match self.match_type(args, first, first_actual, depth - 1) {
                Some(next) => self.match_type(next, second, second_actual, depth - 1),
                None => None,
            }
        } else {
            None
        }
    }

    fn match_types(
        &self,
        args: List<TypeIndex>,
        patterns: &List<TypeIndex>,
        actuals: &List<TypeIndex>,
        depth: usize,
    ) -> (result: Option<List<TypeIndex>>)
        ensures
            result == self@.matched_list(args, *patterns, *actuals, depth),
        decreases depth, 0nat, *patterns,
    {
        match (patterns, actuals) {
            (List::Nil, List::Nil) => Some(args),
            (List::Cons(pattern, rest), List::Cons(actual, actual_rest)) => if depth > 0 {
                match self.match_type(args, **pattern, **actual, depth - 1) {
                    Some(next) => self.match_types(next, rest, actual_rest, depth),
                    None => None,
                }
            } else {
                None
            },
            _ => None,
        }
    }

    /// The impl of a trait that is registered for a target.
    pub fn find_dispatched_impl(&self, target: ImplTarget, trait_index: usize) -> (result: Option<usize>)
        ensures
            result == self@.find_dispatched_impl(target, trait_index),
    {
        let mut i: usize = 0;
        while i < self.trait_dispatch.len()
            invariant
                i <= self.trait_dispatch.len(),
                dispatched_impl(self.trait_dispatch@, target, trait_index, 0) == dispatched_impl(
                    self.trait_dispatch@,
                    target,
                    trait_index,
                    i as int,
                ),
            decreases self.trait_dispatch.len() - i,
        {
            let entry: TraitDispatch = self.trait_dispatch[i];
            if entry.target == target && entry.trait_index == trait_index {
                return Some(entry.impl_index);
            }
            i = i + 1;
        }
        None
    }

    /// The arguments for the type parameters of a trait impl that make its
    /// target the given type.
    pub fn unify_trait_impl_target(&self, implementation: &TraitImpl, actual: TypeIndex) -> (result:
        Option<List<TypeIndex>>)
        ensures
            result == self@.impl_arguments(*implementation, actual),
    {
        self.match_type(
            List::repeat(ty::INFER, implementation.type_params.len()),
            implementation.target.inner,
            actual,
            MAX_DEPTH,
        )
    }

    /// The impl of a trait for a type, with the arguments for the impl's type
    /// parameters.
    pub fn find_trait_impl(&self, actual: TypeIndex, trait_index: usize) -> (result: Option<
        (usize, List<TypeIndex>),
    >)
        ensures
            result == self@.trait_impl_for(actual, trait_index),
    {
        match ImplTarget::from_type(actual, &self.ty(actual)) {
            Some(target) => match self.find_dispatched_impl(target, trait_index) {
                Some(impl_index) => match vec_at(&self.trait_impls, impl_index) {
                    Some(implementation) => match self.unify_trait_impl_target(
                        implementation,
                        actual,
                    ) {
                        Some(args) => Some((impl_index, args)),
                        None => None,
                    },
                    None => None,
                },
                None => None,
            },
            None => None,
        }
    }

    /// The type that an impl gives an associated type.
    pub fn assoc_type_of_impl(&self, impl_index: usize, assoc_name: Symbol) -> (result: Option<
        TypeIndex,
    >)
        ensures
            result == self@.impl_assoc_type(impl_index, assoc_name),
    {
        match vec_at(&self.trait_impls, impl_index) {
            Some(implementation) => match find_member(&implementation.members, assoc_name) {
                Some(ImplEntry::AssocType { ty }) => Some(ty),
                _ => None,
            },
            None => None,
        }
    }

    /// The type with the arguments in the place of its type parameters.
    pub fn substitute_type(&mut self, index: TypeIndex, args: &List<TypeIndex>, depth: usize) -> (result:
        TypeIndex)
        ensures
            (final(self)@, result) == old(self)@.substituted(index, *args, depth),
        decreases depth, 2nat, List::<TypeIndex>::Nil,
    {
        match self.ty(index) {
            Type::TypeParam { param_index, .. } => match args.get(param_index) {
                Some(argument) => if *argument == ty::ERROR {
                    index
                } else {
                    *argument
                },
                None => index,
            },
            Type::AssocTypeProjection { base, assoc_name, trait_index } => if depth > 0 {
                let next: TypeIndex = self.substitute_type(base, args, depth - 1);
                match self.ty(next) {
                    Type::TypeParam { .. } | Type::AssocTypeProjection { .. } => if next == base {
                        index
                    } else {
                        self.intern_type(
                            Type::AssocTypeProjection { base: next, assoc_name, trait_index },
                        )
                    },
                    _ => match self.find_trait_impl(next, trait_index) {
                        Some((impl_index, impl_args)) => match self.assoc_type_of_impl(
                            impl_index,
                            assoc_name,
                        ) {
                            Some(value) => self.substitute_type(value, &impl_args, depth - 1),
                            None => index,
                        },
                        None => index,
                    },
                }
            } else {
                index
            },
            Type::Pointer { to, memory, mutable } => {
                let (next, next_memory) = self.substitute_pair(to, memory, args, depth);
                if next == to && next_memory == memory {
                    index
                } else {
                    self.intern_type(Type::Pointer { to: next, memory: next_memory, mutable })
                }
            },
            Type::Array { of, size, memory, mutable } => {
                let (next, next_memory) = self.substitute_pair(of, memory, args, depth);
                if next == of && next_memory == memory {
                    index
                } else {
                    self.intern_type(
                        Type::Array { of: next, size, memory: next_memory, mutable },
                    )
                }
            },
            Type::Slice { of, memory, mutable } => {
                let (next, next_memory) = self.substitute_pair(of, memory, args, depth);
                if next == of && next_memory == memory {
                    index
                } else {
                    self.intern_type(Type::Slice { of: next, memory: next_memory, mutable })
                }
            },
            Type::Tuple { elements } => {
                let next = self.substitute_types(&elements, args, depth);
                if same_types(&next, &elements) {
                    index
                } else {
                    self.intern_type(Type::Tuple { elements: next })
                }
            },
            Type::Function { signature } => {
                let params = self.substitute_types(&signature.params, args, depth);
                let result: TypeIndex = if depth > 0 {
                    self.substitute_type(signature.result, args, depth - 1)
                } else {
                    signature.result
                };
                if same_types(&params, &signature.params) && result == signature.result {
                    index
                } else {
                    self.intern_type(
                        Type::Function { signature: FunctionSignature { params, result } },
                    )
                }
            },
            Type::Struct { struct_index, args: struct_args } => {
                let next = self.substitute_types(&struct_args, args, depth);
                if same_types(&next, &struct_args) {
                    index
                } else {
                    self.intern_type(Type::Struct { struct_index, args: next })
                }
            },
            Type::FunctionItem { id, type_args } => {
                let next = self.substitute_types(&type_args, args, depth);
                if same_types(&next, &type_args) {
                    index
                } else {
                    self.intern_type(Type::FunctionItem { id, type_args: next })
                }
            },
            _ => index,
        }
    }

    fn substitute_pair(
        &mut self,
        first: TypeIndex,
        second: TypeIndex,
        args: &List<TypeIndex>,
        depth: usize,
    ) -> (result: (TypeIndex, TypeIndex))
        ensures
            (final(self)@, result.0, result.1) == old(self)@.substituted_pair(
                first,
                second,
                *args,
                depth,
            ),
        decreases depth, 1nat, List::<TypeIndex>::Nil,
    {
        let next: TypeIndex = if depth > 0 {
            self.substitute_type(first, args, depth - 1)
        } else {
            first
        };
        let next_second: TypeIndex = if depth > 0 {
            self.substitute_type(second, args, depth - 1)
        } else {
            second
        };
        (next, next_second)
    }

    fn substitute_types(
        &mut self,
        types: &List<TypeIndex>,
        args: &List<TypeIndex>,
        depth: usize,
    ) -> (result: List<TypeIndex>)
        ensures
            (final(self)@, result) == old(self)@.substituted_list(*types, *args, depth),
        decreases depth, 0nat, *types,
    {
        match types {
            List::Nil => List::Nil,
            List::Cons(head, tail) => {
                let next: TypeIndex = if depth > 0 {
                    self.substitute_type(**head, args, depth - 1)
                } else {
                    **head
                };
                let rest = self.substitute_types(tail, args, depth);
                cons(next, rest)
            },
        }
    }

    /// The type with the poison type in the place of every type parameter. The
    /// associated type of a type that this changes is poisoned with it.
    pub fn poison_type(&mut self, index: TypeIndex, depth: usize) -> (result: TypeIndex)
        ensures
            (final(self)@, result) == old(self)@.poisoned(index, depth),
        decreases depth, 2nat, List::<TypeIndex>::Nil,
    {
        match self.ty(index) {
            Type::TypeParam { .. } => ty::ERROR,
            Type::AssocTypeProjection { base, .. } => if depth > 0 {
                let next: TypeIndex = self.poison_type(base, depth - 1);
                if next == base {
                    index
                } else {
                    ty::ERROR
                }
            } else {
                index
            },
            Type::Pointer { to, memory, mutable } => {
                let (next, next_memory) = self.poison_pair(to, memory, depth);
                if next == to && next_memory == memory {
                    index
                } else {
                    self.intern_type(Type::Pointer { to: next, memory: next_memory, mutable })
                }
            },
            Type::Array { of, size, memory, mutable } => {
                let (next, next_memory) = self.poison_pair(of, memory, depth);
                if next == of && next_memory == memory {
                    index
                } else {
                    self.intern_type(
                        Type::Array { of: next, size, memory: next_memory, mutable },
                    )
                }
            },
            Type::Slice { of, memory, mutable } => {
                let (next, next_memory) = self.poison_pair(of, memory, depth);
                if next == of && next_memory == memory {
                    index
                } else {
                    self.intern_type(Type::Slice { of: next, memory: next_memory, mutable })
                }
            },
            Type::Tuple { elements } => {
                let next = self.poison_types(&elements, depth);
                if same_types(&next, &elements) {
                    index
                } else {
                    self.intern_type(Type::Tuple { elements: next })
                }
            },
            Type::Function { signature } => {
                let params = self.poison_types(&signature.params, depth);
                let result: TypeIndex = if depth > 0 {
                    self.poison_type(signature.result, depth - 1)
                } else {
                    signature.result
                };
                if same_types(&params, &signature.params) && result == signature.result {
                    index
                } else {
                    self.intern_type(
                        Type::Function { signature: FunctionSignature { params, result } },
                    )
                }
            },
            Type::Struct { struct_index, args } => {
                let next = self.poison_types(&args, depth);
                if same_types(&next, &args) {
                    index
                } else {
                    self.intern_type(Type::Struct { struct_index, args: next })
                }
            },
            Type::FunctionItem { id, type_args } => {
                let next = self.poison_types(&type_args, depth);
                if same_types(&next, &type_args) {
                    index
                } else {
                    self.intern_type(Type::FunctionItem { id, type_args: next })
                }
            },
            _ => index,
        }
    }

    fn poison_pair(&mut self, first: TypeIndex, second: TypeIndex, depth: usize) -> (result: (
        TypeIndex,
        TypeIndex,
    ))
        ensures
            (final(self)@, result.0, result.1) == old(self)@.poisoned_pair(first, second, depth),
        decreases depth, 1nat, List::<TypeIndex>::Nil,
    {
        let next: TypeIndex = if depth > 0 {
            self.poison_type(first, depth - 1)
        } else {
            first
        };
        let next_second: TypeIndex = if depth > 0 {
            self.poison_type(second, depth - 1)
        } else {
            second
        };
        (next, next_second)
    }

    fn poison_types(&mut self, types: &List<TypeIndex>, depth: usize) -> (result: List<
        TypeIndex,
    >)
        ensures
            (final(self)@, result) == old(self)@.poisoned_list(*types, depth),
        decreases depth, 0nat, *types,
    {
        match types {
            List::Nil => List::Nil,
            List::Cons(head, tail) => {
                let next: TypeIndex = if depth > 0 {
                    self.poison_type(**head, depth - 1)
                } else {
                    **head
                };
                let rest = self.poison_types(tail, depth);
                cons(next, rest)
            },
        }
    }
}

} // verus!
