//! Matching and substitution belong together: the arguments that a match
//! finds turn the pattern into the type that was matched.

use vstd::prelude::*;

use crate::growth;
use crate::laws;
use crate::list::List;
use crate::relate::MAX_DEPTH;
use crate::scope::lemma_at_replaced;
use crate::state::State;
use crate::tir::TraitImpl;
use crate::ty;
use crate::types::{Type, TypeIndex};

verus! {

/// Whether every argument that is known stays, and there are as many as
/// before.
pub open spec fn keeps_known(earlier: List<TypeIndex>, later: List<TypeIndex>) -> bool {
    &&& forall|i: nat|
        (#[trigger] earlier.at(i)) is Some && earlier.at(i) != Some(ty::INFER) ==> later.at(i)
            == earlier.at(i)
    &&& forall|i: nat| (#[trigger] earlier.at(i)) is None ==> later.at(i) is None
}

impl<'ast> State<'ast> {
    /// Whether a type is a pattern: outside of types without type parameters
    /// it has no function item, and it has no open associated type, as far as
    /// `depth` reaches into its parts.
    pub open spec fn is_pattern(self, index: TypeIndex, depth: usize) -> bool
        decreases depth, 1nat, List::<TypeIndex>::Nil,
    {
        match self.ty(index) {
            Type::AssocTypeProjection { .. } => false,
            Type::FunctionItem { .. } => self.is_closed(index, depth),
            Type::Pointer { to, memory, mutable: _ } => depth > 0 ==> self.is_pattern(
                to,
                (depth - 1) as usize,
            ) && self.is_pattern(memory, (depth - 1) as usize),
            Type::Array { of, size: _, memory, mutable: _ } => depth > 0 ==> self.is_pattern(
                of,
                (depth - 1) as usize,
            ) && self.is_pattern(memory, (depth - 1) as usize),
            Type::Slice { of, memory, mutable: _ } => depth > 0 ==> self.is_pattern(
                of,
                (depth - 1) as usize,
            ) && self.is_pattern(memory, (depth - 1) as usize),
            Type::Tuple { elements } => self.all_patterns(elements, depth),
            Type::Function { signature } => self.all_patterns(signature.params, depth) && (depth > 0
                ==> self.is_pattern(signature.result, (depth - 1) as usize)),
            Type::Struct { struct_index: _, args } => self.all_patterns(args, depth),
            _ => true,
        }
    }

    /// Whether the parts of a type are patterns.
    pub open spec fn all_patterns(self, types: List<TypeIndex>, depth: usize) -> bool
        decreases depth, 0nat, types,
    {
        match types {
            List::Nil => true,
            List::Cons(head, tail) => (depth > 0 ==> self.is_pattern(*head, (depth - 1) as usize))
                && self.all_patterns(*tail, depth),
        }
    }

    /// Whether no part of a type is poisoned or still to be inferred, as far
    /// as `depth` reaches into its parts.
    pub open spec fn is_known(self, index: TypeIndex, depth: usize) -> bool
        decreases depth, 1nat, List::<TypeIndex>::Nil,
    {
        &&& index != ty::INFER
        &&& index != ty::ERROR
        &&& match self.ty(index) {
            Type::Pointer { to, memory, mutable: _ } => depth > 0 ==> self.is_known(
                to,
                (depth - 1) as usize,
            ) && self.is_known(memory, (depth - 1) as usize),
            Type::Array { of, size: _, memory, mutable: _ } => depth > 0 ==> self.is_known(
                of,
                (depth - 1) as usize,
            ) && self.is_known(memory, (depth - 1) as usize),
            Type::Slice { of, memory, mutable: _ } => depth > 0 ==> self.is_known(
                of,
                (depth - 1) as usize,
            ) && self.is_known(memory, (depth - 1) as usize),
            Type::Tuple { elements } => self.all_known(elements, depth),
            Type::Function { signature } => self.all_known(signature.params, depth) && (depth > 0
                ==> self.is_known(signature.result, (depth - 1) as usize)),
            Type::Struct { struct_index: _, args } => self.all_known(args, depth),
            _ => true,
        }
    }

    /// Whether the parts of a type are known.
    pub open spec fn all_known(self, types: List<TypeIndex>, depth: usize) -> bool
        decreases depth, 0nat, types,
    {
        match types {
            List::Nil => true,
            List::Cons(head, tail) => (depth > 0 ==> self.is_known(*head, (depth - 1) as usize))
                && self.all_known(*tail, depth),
        }
    }
}

proof fn match_keeps_known<'ast>(
    s: State<'ast>,
    args: List<TypeIndex>,
    pattern: TypeIndex,
    actual: TypeIndex,
    depth: usize,
)
    ensures
        s.matched(args, pattern, actual, depth) matches Some(found) ==> keeps_known(args, found),
    decreases depth, 2nat, List::<TypeIndex>::Nil,
{
    match (s.ty(pattern), s.ty(actual)) {
        (Type::TypeParam { owner: _, param_index }, _) => {
            assert forall|i: nat| #[trigger] args.replaced(param_index as nat, actual).at(i)
                == if i == param_index && args.at(param_index as nat) is Some {
                Some(actual)
            } else {
                args.at(i)
            } by {
                lemma_at_replaced(args, param_index as nat, actual, i);
            }
        },
        (
            Type::Struct { struct_index: _, args: a_args },
            Type::Struct { struct_index: _, args: b_args },
        ) => {
            matches_keep_known(s, args, a_args, b_args, depth);
        },
        (
            Type::Pointer { to: a, memory: a_memory, mutable: _ },
            Type::Pointer { to: b, memory: b_memory, mutable: _ },
        ) => {
            pair_keeps_known(s, args, a, b, a_memory, b_memory, depth);
        },
        (
            Type::Slice { of: a, memory: a_memory, mutable: _ },
            Type::Slice { of: b, memory: b_memory, mutable: _ },
        ) => {
            pair_keeps_known(s, args, a, b, a_memory, b_memory, depth);
        },
        (
            Type::Array { of: a, size: _, memory: a_memory, mutable: _ },
            Type::Array { of: b, size: _, memory: b_memory, mutable: _ },
        ) => {
            pair_keeps_known(s, args, a, b, a_memory, b_memory, depth);
        },
        (Type::Tuple { elements: a }, Type::Tuple { elements: b }) => {
            matches_keep_known(s, args, a, b, depth);
        },
        (Type::Function { signature: a }, Type::Function { signature: b }) => {
            matches_keep_known(s, args, a.params, b.params, depth);
            match s.matched_list(args, a.params, b.params, depth) {
                Some(next) => {
                    if depth > 0 {
                        match_keeps_known(s, next, a.result, b.result, (depth - 1) as usize);
                    }
                },
                None => {},
            }
        },
        _ => {},
    }
}

proof fn pair_keeps_known<'ast>(
    s: State<'ast>,
    args: List<TypeIndex>,
    first: TypeIndex,
    first_actual: TypeIndex,
    second: TypeIndex,
    second_actual: TypeIndex,
    depth: usize,
)
    ensures
        s.matched_pair(args, first, first_actual, second, second_actual, depth) matches Some(found)
            ==> keeps_known(args, found),
    decreases depth, 1nat, List::<TypeIndex>::Nil,
{
    if depth > 0 {
        match_keeps_known(s, args, first, first_actual, (depth - 1) as usize);
        match s.matched(args, first, first_actual, (depth - 1) as usize) {
            Some(next) => {
                match_keeps_known(s, next, second, second_actual, (depth - 1) as usize);
            },
            None => {},
        }
    }
}

proof fn matches_keep_known<'ast>(
    s: State<'ast>,
    args: List<TypeIndex>,
    patterns: List<TypeIndex>,
    actuals: List<TypeIndex>,
    depth: usize,
)
    ensures
        s.matched_list(args, patterns, actuals, depth) matches Some(found) ==> keeps_known(
            args,
            found,
        ),
    decreases depth, 0nat, patterns,
{
    match (patterns, actuals) {
        (List::Cons(pattern, rest), List::Cons(actual, actual_rest)) => {
            if depth > 0 {
                match_keeps_known(s, args, *pattern, *actual, (depth - 1) as usize);
                match s.matched(args, *pattern, *actual, (depth - 1) as usize) {
                    Some(next) => {
                        matches_keep_known(s, next, *rest, *actual_rest, depth);
                    },
                    None => {},
                }
            }
        },
        _ => {},
    }
}

/// In a pool without duplicates a type has the index where it is.
proof fn interned_where_it_is<'ast>(s: State<'ast>, index: TypeIndex)
    requires
        growth::distinct_types(s.types),
        index < s.types.len(),
    ensures
        s.intern(s.ty(index)) == (s, index),
{
    reveal(State::intern);
    growth::type_position_holds(s.types, s.ty(index), 0);
}

/// The arguments that make a pattern match turn it into the type that it
/// matches, also when more arguments are found later.
pub proof fn law_match_is_undone_by_substitution<'ast>(
    s: State<'ast>,
    args: List<TypeIndex>,
    pattern: TypeIndex,
    actual: TypeIndex,
    found: List<TypeIndex>,
    depth: usize,
)
    requires
        growth::distinct_types(s.types),
        s.is_pattern(pattern, depth),
        s.is_known(actual, depth),
        s.matched(args, pattern, actual, depth) matches Some(direct) && keeps_known(direct, found),
    ensures
        s.substituted(pattern, found, depth) == (s, actual),
    decreases depth, 2nat, List::<TypeIndex>::Nil,
{
    match (s.ty(pattern), s.ty(actual)) {
        (Type::TypeParam { owner: _, param_index }, _) => {
            lemma_at_replaced(args, param_index as nat, actual, param_index as nat);
            let direct = s.matched(args, pattern, actual, depth)->0;
            assert(direct.at(param_index as nat) is Some || direct.at(param_index as nat) is None);
        },
        (
            Type::Struct { struct_index, args: a_args },
            Type::Struct { struct_index: _, args: b_args },
        ) => {
            matches_are_undone(s, args, a_args, b_args, found, depth);
            interned_where_it_is(s, actual);
        },
        (
            Type::Pointer { to: a, memory: a_memory, mutable },
            Type::Pointer { to: b, memory: b_memory, mutable: _ },
        ) => {
            pair_is_undone(s, args, a, b, a_memory, b_memory, found, depth);
            interned_where_it_is(s, actual);
        },
        (
            Type::Slice { of: a, memory: a_memory, mutable },
            Type::Slice { of: b, memory: b_memory, mutable: _ },
        ) => {
            pair_is_undone(s, args, a, b, a_memory, b_memory, found, depth);
            interned_where_it_is(s, actual);
        },
        (
            Type::Array { of: a, size, memory: a_memory, mutable },
            Type::Array { of: b, size: _, memory: b_memory, mutable: _ },
        ) => {
            pair_is_undone(s, args, a, b, a_memory, b_memory, found, depth);
            interned_where_it_is(s, actual);
        },
        (Type::Tuple { elements: a }, Type::Tuple { elements: b }) => {
            matches_are_undone(s, args, a, b, found, depth);
            interned_where_it_is(s, actual);
        },
        (Type::Function { signature: a }, Type::Function { signature: b }) => {
            let next = s.matched_list(args, a.params, b.params, depth)->0;
            match_keeps_known(s, next, a.result, b.result, (depth - 1) as usize);
            matches_are_undone(s, args, a.params, b.params, found, depth);
            law_match_is_undone_by_substitution(
                s,
                next,
                a.result,
                b.result,
                found,
                (depth - 1) as usize,
            );
            interned_where_it_is(s, actual);
        },
        (Type::FunctionItem { .. }, _) => {
            laws::law_closed_type_stays(s, pattern, found, depth);
        },
        _ => {},
    }
}

proof fn pair_is_undone<'ast>(
    s: State<'ast>,
    args: List<TypeIndex>,
    first: TypeIndex,
    first_actual: TypeIndex,
    second: TypeIndex,
    second_actual: TypeIndex,
    found: List<TypeIndex>,
    depth: usize,
)
    requires
        growth::distinct_types(s.types),
        depth > 0 ==> s.is_pattern(first, (depth - 1) as usize),
        depth > 0 ==> s.is_pattern(second, (depth - 1) as usize),
        depth > 0 ==> s.is_known(first_actual, (depth - 1) as usize),
        depth > 0 ==> s.is_known(second_actual, (depth - 1) as usize),
        s.matched_pair(args, first, first_actual, second, second_actual, depth) matches Some(direct)
            && keeps_known(direct, found),
    ensures
        s.substituted_pair(first, second, found, depth) == (
            s,
            first_actual,
            second_actual,
        ),
    decreases depth, 1nat, List::<TypeIndex>::Nil,
{
    let inner = (depth - 1) as usize;
    let next = s.matched(args, first, first_actual, inner)->0;
    match_keeps_known(s, next, second, second_actual, inner);
    law_match_is_undone_by_substitution(s, args, first, first_actual, found, inner);
    law_match_is_undone_by_substitution(s, next, second, second_actual, found, inner);
}

proof fn matches_are_undone<'ast>(
    s: State<'ast>,
    args: List<TypeIndex>,
    patterns: List<TypeIndex>,
    actuals: List<TypeIndex>,
    found: List<TypeIndex>,
    depth: usize,
)
    requires
        growth::distinct_types(s.types),
        s.all_patterns(patterns, depth),
        s.all_known(actuals, depth),
        s.matched_list(args, patterns, actuals, depth) matches Some(direct) && keeps_known(
            direct,
            found,
        ),
    ensures
        s.substituted_list(patterns, found, depth) == (s, actuals),
    decreases depth, 0nat, patterns,
{
    match (patterns, actuals) {
        (List::Cons(pattern, rest), List::Cons(actual, actual_rest)) => {
            let inner = (depth - 1) as usize;
            let next = s.matched(args, *pattern, *actual, inner)->0;
            matches_keep_known(s, next, *rest, *actual_rest, depth);
            law_match_is_undone_by_substitution(s, args, *pattern, *actual, found, inner);
            matches_are_undone(s, next, *rest, *actual_rest, found, depth);
        },
        _ => {},
    }
}

/// The arguments of an impl that is found for a type turn the impl's target
/// into that type.
pub proof fn law_impl_target_becomes_the_type<'ast>(
    s: State<'ast>,
    implementation: TraitImpl,
    actual: TypeIndex,
)
    requires
        growth::distinct_types(s.types),
        s.is_pattern(implementation.target.inner, MAX_DEPTH),
        s.is_known(actual, MAX_DEPTH),
        s.impl_arguments(implementation, actual) is Some,
    ensures
        s.substituted(
            implementation.target.inner,
            s.impl_arguments(implementation, actual)->0,
            MAX_DEPTH,
        ) == (s, actual),
{
    let args = List::repeated(
        ty::INFER,
        crate::list::clamp(implementation.type_params.count()) as nat,
    );
    let found = s.impl_arguments(implementation, actual)->0;
    law_match_is_undone_by_substitution(
        s,
        args,
        implementation.target.inner,
        actual,
        found,
        MAX_DEPTH,
    );
}

} // verus!
