//! What only makes new types changes the type pool and nothing else: nothing
//! is reported, declared or used by it.

use vstd::prelude::*;

use crate::list::List;
use crate::relate::MAX_DEPTH;
use crate::state::State;
use crate::types::{Type, TypeIndex};

verus! {

/// Whether two states have everything but their types in common.
pub open spec fn differs_in_types_alone<'ast>(s: State<'ast>, later: State<'ast>) -> bool {
    later == State { types: later.types, ..s }
}

/// Substituting type arguments changes the type pool alone.
pub proof fn law_substitution_changes_types_alone<'ast>(
    s: State<'ast>,
    index: TypeIndex,
    args: List<TypeIndex>,
    depth: usize,
)
    ensures
        differs_in_types_alone(s, s.substituted(index, args, depth).0),
    decreases depth, 2nat, List::<TypeIndex>::Nil,
{
    reveal(State::intern);
    match s.ty(index) {
        Type::AssocTypeProjection { base, assoc_name, trait_index } => {
            if depth > 0 {
                law_substitution_changes_types_alone(s, base, args, (depth - 1) as usize);
                let (t, next) = s.substituted(base, args, (depth - 1) as usize);
                match t.trait_impl_for(next, trait_index) {
                    Some((impl_index, impl_args)) => match t.impl_assoc_type(
                        impl_index,
                        assoc_name,
                    ) {
                        Some(value) => {
                            law_substitution_changes_types_alone(
                                t,
                                value,
                                impl_args,
                                (depth - 1) as usize,
                            );
                        },
                        None => {},
                    },
                    None => {},
                }
            }
        },
        Type::Pointer { to, memory, mutable: _ } => {
            substituting_a_pair(s, to, memory, args, depth);
        },
        Type::Array { of, size: _, memory, mutable: _ } => {
            substituting_a_pair(s, of, memory, args, depth);
        },
        Type::Slice { of, memory, mutable: _ } => {
            substituting_a_pair(s, of, memory, args, depth);
        },
        Type::Tuple { elements } => {
            substituting_a_list(s, elements, args, depth);
        },
        Type::Function { signature } => {
            substituting_a_list(s, signature.params, args, depth);
            if depth > 0 {
                law_substitution_changes_types_alone(
                    s.substituted_list(signature.params, args, depth).0,
                    signature.result,
                    args,
                    (depth - 1) as usize,
                );
            }
        },
        Type::Struct { struct_index: _, args: parts } => {
            substituting_a_list(s, parts, args, depth);
        },
        Type::FunctionItem { id: _, type_args } => {
            substituting_a_list(s, type_args, args, depth);
        },
        _ => {},
    }
}

proof fn substituting_a_pair<'ast>(
    s: State<'ast>,
    first: TypeIndex,
    second: TypeIndex,
    args: List<TypeIndex>,
    depth: usize,
)
    ensures
        differs_in_types_alone(s, s.substituted_pair(first, second, args, depth).0),
    decreases depth, 1nat, List::<TypeIndex>::Nil,
{
    let t = if depth > 0 {
        s.substituted(first, args, (depth - 1) as usize).0
    } else {
        s
    };
    if depth > 0 {
        law_substitution_changes_types_alone(s, first, args, (depth - 1) as usize);
    }
    if depth > 0 {
        law_substitution_changes_types_alone(t, second, args, (depth - 1) as usize);
    }
}

proof fn substituting_a_list<'ast>(
    s: State<'ast>,
    types: List<TypeIndex>,
    args: List<TypeIndex>,
    depth: usize,
)
    ensures
        differs_in_types_alone(s, s.substituted_list(types, args, depth).0),
    decreases depth, 0nat, types,
{
    match types {
        List::Nil => {},
        List::Cons(head, tail) => {
            let t = if depth > 0 {
                s.substituted(*head, args, (depth - 1) as usize).0
            } else {
                s
            };
            if depth > 0 {
                law_substitution_changes_types_alone(s, *head, args, (depth - 1) as usize);
            }
            substituting_a_list(t, *tail, args, depth);
        },
    }
}

/// Poisoning type parameters changes the type pool alone.
pub proof fn law_poisoning_changes_types_alone<'ast>(
    s: State<'ast>,
    index: TypeIndex,
    depth: usize,
)
    ensures
        differs_in_types_alone(s, s.poisoned(index, depth).0),
    decreases depth, 2nat, List::<TypeIndex>::Nil,
{
    reveal(State::intern);
    match s.ty(index) {
        Type::AssocTypeProjection { base, assoc_name: _, trait_index: _ } => {
            if depth > 0 {
                law_poisoning_changes_types_alone(s, base, (depth - 1) as usize);
            }
        },
        Type::Pointer { to, memory, mutable: _ } => {
            poisoning_a_pair(s, to, memory, depth);
        },
        Type::Array { of, size: _, memory, mutable: _ } => {
            poisoning_a_pair(s, of, memory, depth);
        },
        Type::Slice { of, memory, mutable: _ } => {
            poisoning_a_pair(s, of, memory, depth);
        },
        Type::Tuple { elements } => {
            poisoning_a_list(s, elements, depth);
        },
        Type::Function { signature } => {
            poisoning_a_list(s, signature.params, depth);
            if depth > 0 {
                law_poisoning_changes_types_alone(
                    s.poisoned_list(signature.params, depth).0,
                    signature.result,
                    (depth - 1) as usize,
                );
            }
        },
        Type::Struct { struct_index: _, args: parts } => {
            poisoning_a_list(s, parts, depth);
        },
        Type::FunctionItem { id: _, type_args } => {
            poisoning_a_list(s, type_args, depth);
        },
        _ => {},
    }
}

proof fn poisoning_a_pair<'ast>(
    s: State<'ast>,
    first: TypeIndex,
    second: TypeIndex,
    depth: usize,
)
    ensures
        differs_in_types_alone(s, s.poisoned_pair(first, second, depth).0),
    decreases depth, 1nat, List::<TypeIndex>::Nil,
{
    let t = if depth > 0 {
        s.poisoned(first, (depth - 1) as usize).0
    } else {
        s
    };
    if depth > 0 {
        law_poisoning_changes_types_alone(s, first, (depth - 1) as usize);
    }
    if depth > 0 {
        law_poisoning_changes_types_alone(t, second, (depth - 1) as usize);
    }
}

proof fn poisoning_a_list<'ast>(
    s: State<'ast>,
    types: List<TypeIndex>,
    depth: usize,
)
    ensures
        differs_in_types_alone(s, s.poisoned_list(types, depth).0),
    decreases depth, 0nat, types,
{
    match types {
        List::Nil => {},
        List::Cons(head, tail) => {
            let t = if depth > 0 {
                s.poisoned(*head, (depth - 1) as usize).0
            } else {
                s
            };
            if depth > 0 {
                law_poisoning_changes_types_alone(s, *head, (depth - 1) as usize);
            }
            poisoning_a_list(t, *tail, depth);
        },
    }
}

/// Comparing two types changes the type pool alone.
pub proof fn law_comparing_changes_types_alone<'ast>(s: State<'ast>, a: TypeIndex, b: TypeIndex)
    ensures
        differs_in_types_alone(s, s.coercible(a, b).0),
        differs_in_types_alone(s, s.unified(a, b).0),
{
    match s.ty(a) {
        Type::FunctionItem { id: a_id, type_args: a_args } => {
            law_substitution_changes_types_alone(s, s.signature_of(a_id), a_args, MAX_DEPTH);
            match s.ty(b) {
                Type::FunctionItem { id: b_id, type_args: b_args } => {
                    law_substitution_changes_types_alone(
                        s.substituted(s.signature_of(a_id), a_args, MAX_DEPTH).0,
                        s.signature_of(b_id),
                        b_args,
                        MAX_DEPTH,
                    );
                },
                _ => {},
            }
        },
        _ => {},
    }
}

} // verus!
