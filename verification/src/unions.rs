//! Merging a bound into a set a second time changes nothing: the set that the
//! first time gives absorbs the bound.

use vstd::prelude::*;

use crate::implied;
use crate::implied::{
    AssocBindingConflict, BoundArena, BoundId, ImpliedAssocBinding, ImpliedBindingKind,
    ImpliedTraitBound, RequiredBounds,
};
use crate::list::{cons, List};

verus! {

/// The bound on a trait in a merged set.
pub open spec fn bound_on(implied: List<ImpliedTraitBound>, trait_index: usize) -> Option<
    ImpliedTraitBound,
>
    decreases implied,
{
    match implied {
        List::Nil => None,
        List::Cons(first, rest) => if first.trait_index == trait_index {
            Some(*first)
        } else {
            bound_on(*rest, trait_index)
        },
    }
}

/// The associated type that a clause is about.
pub open spec fn subject_of(arena: &BoundArena, clause: ImpliedAssocBinding) -> Option<usize> {
    arena.assoc_type_of(clause.source)
}

/// The clause on an associated type.
pub open spec fn clause_on(
    arena: &BoundArena,
    clauses: List<ImpliedAssocBinding>,
    subject: Option<usize>,
) -> Option<ImpliedAssocBinding>
    decreases clauses,
{
    match clauses {
        List::Nil => None,
        List::Cons(first, rest) => if subject_of(arena, *first) == subject {
            Some(*first)
        } else {
            clause_on(arena, *rest, subject)
        },
    }
}

/// The traits that an associated type must implement.
pub open spec fn required_traits(required: RequiredBounds) -> List<ImpliedTraitBound> {
    match required {
        RequiredBounds::Nothing => List::Nil,
        RequiredBounds::Traits(traits) => traits,
    }
}

/// Whether no associated type has two clauses in a bound, and no trait is
/// required twice by one clause, at any depth. Where nothing is required, the
/// clause says so and does not list no traits.
pub open spec fn is_merged(arena: &BoundArena, bound: ImpliedTraitBound) -> bool
    decreases bound,
{
    clauses_are_merged(arena, bound.bindings)
}

pub open spec fn clauses_are_merged(arena: &BoundArena, clauses: List<ImpliedAssocBinding>) -> bool
    decreases clauses,
{
    match clauses {
        List::Nil => true,
        List::Cons(first, rest) => {
            &&& required_is_merged(arena, first.required_bounds)
            &&& clause_on(arena, *rest, subject_of(arena, *first)) is None
            &&& clauses_are_merged(arena, *rest)
        },
    }
}

pub open spec fn required_is_merged(arena: &BoundArena, required: RequiredBounds) -> bool
    decreases required,
{
    match required {
        RequiredBounds::Nothing => true,
        RequiredBounds::Traits(traits) => traits !is Nil && bounds_are_merged(arena, traits),
    }
}

pub open spec fn bounds_are_merged(arena: &BoundArena, implied: List<ImpliedTraitBound>) -> bool
    decreases implied,
{
    match implied {
        List::Nil => true,
        List::Cons(first, rest) => {
            &&& is_merged(arena, *first)
            &&& bound_on(*rest, first.trait_index) is None
            &&& bounds_are_merged(arena, *rest)
        },
    }
}

/// Whether a set says everything already that a bound says.
pub open spec fn absorbs(
    arena: &BoundArena,
    implied: List<ImpliedTraitBound>,
    bound: ImpliedTraitBound,
) -> bool
    decreases bound,
{
    match bound_on(implied, bound.trait_index) {
        Some(held) => absorbs_clauses(arena, held.bindings, bound.bindings),
        None => false,
    }
}

pub open spec fn absorbs_clauses(
    arena: &BoundArena,
    clauses: List<ImpliedAssocBinding>,
    incoming: List<ImpliedAssocBinding>,
) -> bool
    decreases incoming,
{
    match incoming {
        List::Nil => true,
        List::Cons(clause, rest) => absorbs_clause(arena, clauses, *clause) && absorbs_clauses(
            arena,
            clauses,
            *rest,
        ),
    }
}

pub open spec fn absorbs_clause(
    arena: &BoundArena,
    clauses: List<ImpliedAssocBinding>,
    clause: ImpliedAssocBinding,
) -> bool
    decreases clause,
{
    match clause_on(arena, clauses, subject_of(arena, clause)) {
        Some(held) => absorbs_kind(arena, held.kind, clause.kind) && absorbs_required(
            arena,
            held.required_bounds,
            clause.required_bounds,
        ),
        None => false,
    }
}

/// Whether joining a second kind to a first one leaves the first.
pub open spec fn absorbs_kind(
    arena: &BoundArena,
    held: ImpliedBindingKind,
    kind: ImpliedBindingKind,
) -> bool {
    match (held, kind) {
        (ImpliedBindingKind::Conflicting, _) => true,
        (_, ImpliedBindingKind::Bound) => true,
        (ImpliedBindingKind::Equals(a), ImpliedBindingKind::Equals(b)) => arena.equals_type(a)
            == arena.equals_type(b),
        _ => false,
    }
}

pub open spec fn absorbs_required(
    arena: &BoundArena,
    held: RequiredBounds,
    required: RequiredBounds,
) -> bool
    decreases required,
{
    match required {
        RequiredBounds::Nothing => true,
        RequiredBounds::Traits(traits) => held == RequiredBounds::new(required_traits(held))
            && absorbs_all(arena, required_traits(held), traits),
    }
}

pub open spec fn absorbs_all(
    arena: &BoundArena,
    implied: List<ImpliedTraitBound>,
    incoming: List<ImpliedTraitBound>,
) -> bool
    decreases incoming,
{
    match incoming {
        List::Nil => true,
        List::Cons(bound, rest) => absorbs(arena, implied, *bound) && absorbs_all(
            arena,
            implied,
            *rest,
        ),
    }
}

// ---------------------------------------------------------------- absorbed bounds

/// A bound that a set absorbs adds nothing to it.
pub proof fn law_absorbed_bound_adds_nothing(
    arena: &BoundArena,
    implied: List<ImpliedTraitBound>,
    conflicts: List<AssocBindingConflict>,
    bound: ImpliedTraitBound,
    merge_point: BoundId,
)
    requires
        absorbs(arena, implied, bound),
    ensures
        implied::with_trait_bound(arena, implied, conflicts, bound, merge_point) == (
            implied,
            conflicts,
        ),
    decreases bound, 0int, implied,
{
    match implied {
        List::Nil => {},
        List::Cons(first, rest) => {
            if first.trait_index == bound.trait_index {
                absorbed_clauses_add_nothing(
                    arena,
                    first.bindings,
                    conflicts,
                    bound.bindings,
                    merge_point,
                );
                assert(implied::with_clauses(
                    arena,
                    first.bindings,
                    conflicts,
                    bound.bindings,
                    merge_point,
                ) == (first.bindings, conflicts));
            } else {
                law_absorbed_bound_adds_nothing(arena, *rest, conflicts, bound, merge_point);
            }
        },
    }
}

proof fn absorbed_clauses_add_nothing(
    arena: &BoundArena,
    clauses: List<ImpliedAssocBinding>,
    conflicts: List<AssocBindingConflict>,
    incoming: List<ImpliedAssocBinding>,
    merge_point: BoundId,
)
    requires
        absorbs_clauses(arena, clauses, incoming),
    ensures
        implied::with_each_clause(arena, clauses, conflicts, incoming, merge_point) == (
            clauses,
            conflicts,
        ),
        implied::with_clauses(arena, clauses, conflicts, incoming, merge_point) == (
            clauses,
            conflicts,
        ),
    decreases incoming, 0int, List::<usize>::Nil,
{
    match incoming {
        List::Nil => {},
        List::Cons(clause, rest) => {
            absorbed_clause_adds_nothing(arena, clauses, conflicts, *clause, merge_point);
            absorbed_clauses_add_nothing(arena, clauses, conflicts, *rest, merge_point);
            assert(clauses !is Nil);
        },
    }
}

proof fn absorbed_clause_adds_nothing(
    arena: &BoundArena,
    clauses: List<ImpliedAssocBinding>,
    conflicts: List<AssocBindingConflict>,
    clause: ImpliedAssocBinding,
    merge_point: BoundId,
)
    requires
        absorbs_clause(arena, clauses, clause),
    ensures
        implied::with_clause(arena, clauses, conflicts, clause, merge_point) == (
            clauses,
            conflicts,
        ),
    decreases clause, 0int, clauses,
{
    match clauses {
        List::Nil => {},
        List::Cons(first, rest) => {
            if subject_of(arena, *first) == subject_of(arena, clause) {
                match clause.required_bounds {
                    RequiredBounds::Nothing => {},
                    RequiredBounds::Traits(traits) => {
                        absorbed_bounds_add_nothing(
                            arena,
                            required_traits(first.required_bounds),
                            conflicts,
                            traits,
                            merge_point,
                        );
                    },
                }
                assert(implied::with_required(
                    arena,
                    first.required_bounds,
                    conflicts,
                    clause.required_bounds,
                    merge_point,
                ) == (first.required_bounds, conflicts));
                assert(implied::joined_kind(
                    arena,
                    first.kind,
                    clause.kind,
                    conflicts,
                    merge_point,
                ) == (first.kind, conflicts));
            } else {
                absorbed_clause_adds_nothing(arena, *rest, conflicts, clause, merge_point);
            }
        },
    }
}

proof fn absorbed_bounds_add_nothing(
    arena: &BoundArena,
    implied: List<ImpliedTraitBound>,
    conflicts: List<AssocBindingConflict>,
    incoming: List<ImpliedTraitBound>,
    merge_point: BoundId,
)
    requires
        absorbs_all(arena, implied, incoming),
    ensures
        implied::with_bounds(arena, implied, conflicts, incoming, merge_point) == (
            implied,
            conflicts,
        ),
    decreases incoming, 0int, List::<usize>::Nil,
{
    match incoming {
        List::Nil => {},
        List::Cons(bound, rest) => {
            law_absorbed_bound_adds_nothing(arena, implied, conflicts, *bound, merge_point);
            absorbed_bounds_add_nothing(arena, implied, conflicts, *rest, merge_point);
        },
    }
}

// ---------------------------------------------------------------- bounds absorb themselves

/// Whether each of some clauses is found by its associated type.
spec fn clauses_found(
    arena: &BoundArena,
    all: List<ImpliedAssocBinding>,
    some: List<ImpliedAssocBinding>,
) -> bool
    decreases some,
{
    match some {
        List::Nil => true,
        List::Cons(first, rest) => {
            &&& clause_on(arena, all, subject_of(arena, *first)) == Some(*first)
            &&& clauses_found(arena, all, *rest)
        },
    }
}

/// Whether each of some bounds is found by its trait.
spec fn bounds_found(all: List<ImpliedTraitBound>, some: List<ImpliedTraitBound>) -> bool
    decreases some,
{
    match some {
        List::Nil => true,
        List::Cons(first, rest) => {
            &&& bound_on(all, first.trait_index) == Some(*first)
            &&& bounds_found(all, *rest)
        },
    }
}

proof fn clauses_are_found_behind(
    arena: &BoundArena,
    before: ImpliedAssocBinding,
    all: List<ImpliedAssocBinding>,
    some: List<ImpliedAssocBinding>,
)
    requires
        clauses_found(arena, all, some),
        clause_on(arena, some, subject_of(arena, before)) is None,
    ensures
        clauses_found(arena, cons(before, all), some),
    decreases some,
{
    match some {
        List::Nil => {},
        List::Cons(_, rest) => {
            clauses_are_found_behind(arena, before, all, *rest);
        },
    }
}

proof fn merged_clauses_are_found(arena: &BoundArena, clauses: List<ImpliedAssocBinding>)
    requires
        clauses_are_merged(arena, clauses),
    ensures
        clauses_found(arena, clauses, clauses),
    decreases clauses,
{
    match clauses {
        List::Nil => {},
        List::Cons(first, rest) => {
            merged_clauses_are_found(arena, *rest);
            clauses_are_found_behind(arena, *first, *rest, *rest);
        },
    }
}

proof fn bounds_are_found_behind(
    before: ImpliedTraitBound,
    all: List<ImpliedTraitBound>,
    some: List<ImpliedTraitBound>,
)
    requires
        bounds_found(all, some),
        bound_on(some, before.trait_index) is None,
    ensures
        bounds_found(cons(before, all), some),
    decreases some,
{
    match some {
        List::Nil => {},
        List::Cons(_, rest) => {
            bounds_are_found_behind(before, all, *rest);
        },
    }
}

proof fn merged_bounds_are_found(arena: &BoundArena, implied: List<ImpliedTraitBound>)
    requires
        bounds_are_merged(arena, implied),
    ensures
        bounds_found(implied, implied),
    decreases implied,
{
    match implied {
        List::Nil => {},
        List::Cons(first, rest) => {
            merged_bounds_are_found(arena, *rest);
            bounds_are_found_behind(*first, *rest, *rest);
        },
    }
}

proof fn found_clauses_are_absorbed(
    arena: &BoundArena,
    all: List<ImpliedAssocBinding>,
    some: List<ImpliedAssocBinding>,
)
    requires
        clauses_are_merged(arena, some),
        clauses_found(arena, all, some),
    ensures
        absorbs_clauses(arena, all, some),
    decreases some,
{
    match some {
        List::Nil => {},
        List::Cons(first, rest) => {
            required_absorbs_itself(arena, first.required_bounds);
            found_clauses_are_absorbed(arena, all, *rest);
            assert(absorbs_clause(arena, all, *first));
        },
    }
}

proof fn required_absorbs_itself(arena: &BoundArena, required: RequiredBounds)
    requires
        required_is_merged(arena, required),
    ensures
        absorbs_required(arena, required, required),
    decreases required,
{
    match required {
        RequiredBounds::Nothing => {},
        RequiredBounds::Traits(traits) => {
            merged_bounds_are_found(arena, traits);
            found_bounds_are_absorbed(arena, traits, traits);
        },
    }
}

proof fn found_bounds_are_absorbed(
    arena: &BoundArena,
    all: List<ImpliedTraitBound>,
    some: List<ImpliedTraitBound>,
)
    requires
        bounds_are_merged(arena, some),
        bounds_found(all, some),
    ensures
        absorbs_all(arena, all, some),
    decreases some,
{
    match some {
        List::Nil => {},
        List::Cons(first, rest) => {
            assert(is_merged(arena, *first));
            merged_clauses_are_found(arena, first.bindings);
            found_clauses_are_absorbed(arena, first.bindings, first.bindings);
            assert(absorbs(arena, all, *first));
            found_bounds_are_absorbed(arena, all, *rest);
        },
    }
}

// ---------------------------------------------------------------- unions absorb

/// A set absorbs a bound that was merged into it, and holds the other bounds
/// as they were.
pub proof fn law_union_absorbs_the_bound(
    arena: &BoundArena,
    implied: List<ImpliedTraitBound>,
    conflicts: List<AssocBindingConflict>,
    bound: ImpliedTraitBound,
    merge_point: BoundId,
)
    requires
        is_merged(arena, bound),
    ensures
        ({
            let after = implied::with_trait_bound(
                arena,
                implied,
                conflicts,
                bound,
                merge_point,
            ).0;
            &&& absorbs(arena, after, bound)
            &&& forall|other: usize|
                other != bound.trait_index ==> bound_on(after, other) == #[trigger] bound_on(
                    implied,
                    other,
                )
        }),
    decreases bound, 0int, implied,
{
    let after = implied::with_trait_bound(arena, implied, conflicts, bound, merge_point).0;
    match implied {
        List::Nil => {
            merged_clauses_are_found(arena, bound.bindings);
            found_clauses_are_absorbed(arena, bound.bindings, bound.bindings);
            assert(after == cons(bound, List::Nil));
            assert(bound_on(after, bound.trait_index) == Some(bound));
            assert forall|other: usize| other != bound.trait_index implies bound_on(after, other)
                == #[trigger] bound_on(implied, other) by {
                assert(bound_on(List::Nil, other) is None);
            }
        },
        List::Cons(first, rest) => {
            if first.trait_index == bound.trait_index {
                union_absorbs_clauses(
                    arena,
                    first.bindings,
                    conflicts,
                    bound.bindings,
                    merge_point,
                );
                let bindings = implied::with_clauses(
                    arena,
                    first.bindings,
                    conflicts,
                    bound.bindings,
                    merge_point,
                ).0;
                assert(bound_on(after, bound.trait_index) == Some(
                    ImpliedTraitBound {
                        trait_index: first.trait_index,
                        source: first.source,
                        bindings,
                    },
                ));
            } else {
                law_union_absorbs_the_bound(arena, *rest, conflicts, bound, merge_point);
                assert forall|other: usize| other != bound.trait_index implies bound_on(
                    after,
                    other,
                ) == #[trigger] bound_on(implied, other) by {
                    let _ = bound_on(*rest, other);
                }
            }
        },
    }
}

proof fn union_absorbs_clauses(
    arena: &BoundArena,
    clauses: List<ImpliedAssocBinding>,
    conflicts: List<AssocBindingConflict>,
    incoming: List<ImpliedAssocBinding>,
    merge_point: BoundId,
)
    requires
        clauses_are_merged(arena, incoming),
    ensures
        absorbs_clauses(
            arena,
            implied::with_clauses(arena, clauses, conflicts, incoming, merge_point).0,
            incoming,
        ),
    decreases incoming, 1int, List::<usize>::Nil,
{
    match clauses {
        List::Nil => {
            merged_clauses_are_found(arena, incoming);
            found_clauses_are_absorbed(arena, incoming, incoming);
        },
        List::Cons(..) => {
            union_absorbs_each_clause(arena, clauses, conflicts, incoming, merge_point);
        },
    }
}

/// Whether one list of clauses says of an associated type what another one
/// does.
spec fn same_clause(
    arena: &BoundArena,
    left: List<ImpliedAssocBinding>,
    right: List<ImpliedAssocBinding>,
    subject: Option<usize>,
) -> bool {
    clause_on(arena, left, subject) == clause_on(arena, right, subject)
}

proof fn union_absorbs_each_clause(
    arena: &BoundArena,
    clauses: List<ImpliedAssocBinding>,
    conflicts: List<AssocBindingConflict>,
    incoming: List<ImpliedAssocBinding>,
    merge_point: BoundId,
)
    requires
        clauses_are_merged(arena, incoming),
    ensures
        ({
            let after = implied::with_each_clause(
                arena,
                clauses,
                conflicts,
                incoming,
                merge_point,
            ).0;
            &&& absorbs_clauses(arena, after, incoming)
            &&& forall|subject: Option<usize>|
                clause_on(arena, incoming, subject) is None ==> #[trigger] same_clause(
                    arena,
                    after,
                    clauses,
                    subject,
                )
        }),
    decreases incoming, 0int, List::<usize>::Nil,
{
    match incoming {
        List::Nil => {},
        List::Cons(clause, rest) => {
            union_absorbs_clause(arena, clauses, conflicts, *clause, merge_point);
            let (next, next_conflicts) = implied::with_clause(
                arena,
                clauses,
                conflicts,
                *clause,
                merge_point,
            );
            union_absorbs_each_clause(arena, next, next_conflicts, *rest, merge_point);
            let after = implied::with_each_clause(
                arena,
                next,
                next_conflicts,
                *rest,
                merge_point,
            ).0;
            assert(same_clause(arena, after, next, subject_of(arena, *clause)));
            assert(absorbs_clause(arena, after, *clause));
            assert forall|subject: Option<usize>|
                clause_on(arena, incoming, subject) is None implies #[trigger] same_clause(
                arena,
                after,
                clauses,
                subject,
            ) by {
                assert(same_clause(arena, after, next, subject));
                assert(same_clause(arena, next, clauses, subject));
            }
        },
    }
}

proof fn union_absorbs_clause(
    arena: &BoundArena,
    clauses: List<ImpliedAssocBinding>,
    conflicts: List<AssocBindingConflict>,
    clause: ImpliedAssocBinding,
    merge_point: BoundId,
)
    requires
        required_is_merged(arena, clause.required_bounds),
    ensures
        ({
            let after = implied::with_clause(arena, clauses, conflicts, clause, merge_point).0;
            &&& absorbs_clause(arena, after, clause)
            &&& forall|subject: Option<usize>|
                subject != subject_of(arena, clause) ==> #[trigger] same_clause(
                    arena,
                    after,
                    clauses,
                    subject,
                )
        }),
    decreases clause, 0int, clauses,
{
    let after = implied::with_clause(arena, clauses, conflicts, clause, merge_point).0;
    match clauses {
        List::Nil => {
            required_absorbs_itself(arena, clause.required_bounds);
            assert(after == cons(clause, List::Nil));
            assert(clause_on(arena, after, subject_of(arena, clause)) == Some(clause));
            assert forall|subject: Option<usize>|
                subject != subject_of(arena, clause) implies #[trigger] same_clause(
                arena,
                after,
                clauses,
                subject,
            ) by {
                assert(clause_on(arena, List::Nil, subject) is None);
            }
        },
        List::Cons(first, rest) => {
            if subject_of(arena, *first) == subject_of(arena, clause) {
                let (required_bounds, next) = implied::with_required(
                    arena,
                    first.required_bounds,
                    conflicts,
                    clause.required_bounds,
                    merge_point,
                );
                union_absorbs_required(
                    arena,
                    first.required_bounds,
                    conflicts,
                    clause.required_bounds,
                    merge_point,
                );
                let kind = implied::joined_kind(
                    arena,
                    first.kind,
                    clause.kind,
                    next,
                    merge_point,
                ).0;
                assert(absorbs_kind(arena, kind, clause.kind));
                assert(clause_on(arena, after, subject_of(arena, clause)) == Some(
                    ImpliedAssocBinding { source: first.source, kind, required_bounds },
                ));
            } else {
                union_absorbs_clause(arena, *rest, conflicts, clause, merge_point);
                let others = implied::with_clause(
                    arena,
                    *rest,
                    conflicts,
                    clause,
                    merge_point,
                ).0;
                assert forall|subject: Option<usize>|
                    subject != subject_of(arena, clause) implies #[trigger] same_clause(
                    arena,
                    after,
                    clauses,
                    subject,
                ) by {
                    assert(same_clause(arena, others, *rest, subject));
                }
            }
        },
    }
}

proof fn union_absorbs_required(
    arena: &BoundArena,
    required: RequiredBounds,
    conflicts: List<AssocBindingConflict>,
    incoming: RequiredBounds,
    merge_point: BoundId,
)
    requires
        required_is_merged(arena, incoming),
    ensures
        absorbs_required(
            arena,
            implied::with_required(arena, required, conflicts, incoming, merge_point).0,
            incoming,
        ),
    decreases incoming, 0int, List::<usize>::Nil,
{
    match incoming {
        RequiredBounds::Nothing => {},
        RequiredBounds::Traits(traits) => {
            union_absorbs_bounds(
                arena,
                required_traits(required),
                conflicts,
                traits,
                merge_point,
            );
        },
    }
}

proof fn union_absorbs_bounds(
    arena: &BoundArena,
    implied: List<ImpliedTraitBound>,
    conflicts: List<AssocBindingConflict>,
    incoming: List<ImpliedTraitBound>,
    merge_point: BoundId,
)
    requires
        bounds_are_merged(arena, incoming),
    ensures
        ({
            let after = implied::with_bounds(arena, implied, conflicts, incoming, merge_point).0;
            &&& absorbs_all(arena, after, incoming)
            &&& forall|other: usize|
                bound_on(incoming, other) is None ==> bound_on(after, other)
                    == #[trigger] bound_on(implied, other)
        }),
    decreases incoming, 0int, List::<usize>::Nil,
{
    match incoming {
        List::Nil => {},
        List::Cons(bound, rest) => {
            law_union_absorbs_the_bound(arena, implied, conflicts, *bound, merge_point);
            let (next, next_conflicts) = implied::with_trait_bound(
                arena,
                implied,
                conflicts,
                *bound,
                merge_point,
            );
            union_absorbs_bounds(arena, next, next_conflicts, *rest, merge_point);
            let after = implied::with_bounds(
                arena,
                next,
                next_conflicts,
                *rest,
                merge_point,
            ).0;
            assert(bound_on(after, bound.trait_index) == bound_on(next, bound.trait_index));
            assert(absorbs(arena, after, *bound));
            assert forall|other: usize| bound_on(incoming, other) is None implies bound_on(
                after,
                other,
            ) == #[trigger] bound_on(implied, other) by {
                assert(bound_on(*rest, other) is None);
                assert(bound_on(after, other) == bound_on(next, other));
            }
        },
    }
}

/// Merging a bound into a set a second time changes nothing and finds no
/// conflict. What the bound holds is merged itself: at every depth its traits
/// are distinct, and so are the associated types of its clauses.
pub proof fn law_repeated_union_changes_nothing(
    arena: &BoundArena,
    implied: List<ImpliedTraitBound>,
    conflicts: List<AssocBindingConflict>,
    bound: ImpliedTraitBound,
    merge_point: BoundId,
)
    requires
        is_merged(arena, bound),
    ensures
        ({
            let (after, found) = implied::with_trait_bound(
                arena,
                implied,
                conflicts,
                bound,
                merge_point,
            );
            implied::with_trait_bound(arena, after, found, bound, merge_point) == (after, found)
        }),
{
    let (after, found) = implied::with_trait_bound(arena, implied, conflicts, bound, merge_point);
    law_union_absorbs_the_bound(arena, implied, conflicts, bound, merge_point);
    law_absorbed_bound_adds_nothing(arena, after, found, bound, merge_point);
}

} // verus!
