//! Trait bounds as they are written, and what a set of them implies.
//!
//! Each written bound is stored once. A merged set refers to the clauses of
//! the written bounds, so their places stay known as sets are combined.

use vstd::prelude::*;

use crate::diagnostics::Diagnostic;
use crate::list::{cons, single, List};
use crate::reports::report_conflicting_assoc_type_binding;
use crate::span::{SourceSpan, Spanned, Symbol};
use crate::types::TypeIndex;

verus! {

/// The position of a written bound.
pub type BoundId = u32;

/// One clause of a written bound.
#[derive(Clone, Copy, Debug, PartialEq, Eq, Structural)]
pub struct BindingRef {
    pub bound: BoundId,
    pub index: u32,
}

/// One trait bound as it is written.
#[derive(Debug, PartialEq, Eq)]
pub struct SourceTraitBound {
    pub trait_index: usize,
    pub span: SourceSpan,
    pub bindings: List<SourceAssocBinding>,
}

/// One clause `Assoc = Type` or `Assoc: Bounds` of a written bound.
#[derive(Debug, PartialEq, Eq)]
pub struct SourceAssocBinding {
    pub assoc_type_index: usize,
    pub name: Spanned<Symbol>,
    pub kind: BindingRequirement,
}

#[allow(inconsistent_fields)]
#[derive(Debug, PartialEq, Eq)]
pub enum BindingRequirement {
    Equals(Spanned<TypeIndex>),
    Bound(List<BoundId>),
}

/// One trait of a merged set, with the first written bound that brought it
/// in.
#[derive(Debug, PartialEq, Eq)]
pub struct ImpliedTraitBound {
    pub trait_index: usize,
    pub source: BoundId,
    pub bindings: List<ImpliedAssocBinding>,
}

#[derive(Debug, PartialEq, Eq)]
pub struct ImpliedAssocBinding {
    pub source: BindingRef,
    pub kind: ImpliedBindingKind,
    /// What the associated type must implement, also where an equality gives
    /// it a type.
    pub required_bounds: RequiredBounds,
}

/// The bounds that an associated type must meet.
#[derive(Debug, PartialEq, Eq)]
pub enum RequiredBounds {
    Nothing,
    Traits(List<ImpliedTraitBound>),
}

#[allow(inconsistent_fields)]
#[derive(Clone, Copy, Debug, PartialEq, Eq, Structural)]
pub enum ImpliedBindingKind {
    Equals(BindingRef),
    Bound,
    Conflicting,
}

/// Two clauses that give one associated type different types.
#[derive(Clone, Copy, Debug, PartialEq, Eq, Structural)]
pub struct AssocBindingConflict {
    pub first: BindingRef,
    pub second: BindingRef,
    /// The written bound whose expansion brought the two together.
    pub merge_point: BoundId,
}

/// What is known of a trait when bounds that name it are merged.
#[allow(inconsistent_fields)]
#[derive(Debug, PartialEq, Eq)]
pub enum TraitStatus {
    /// Its own bounds, merged.
    Resolved(List<ImpliedTraitBound>),
    /// Its bounds are still being merged, which is not reported yet.
    Cycle,
    /// Its bounds are still being merged, which has been reported.
    CycleReported,
}

/// A trait, as far as the merging of bounds goes.
#[derive(Debug, PartialEq, Eq)]
pub struct TraitEnv {
    pub name: Symbol,
    pub status: TraitStatus,
}

/// A trait that its own bounds lead back to, with the bound that does.
#[derive(Clone, Copy, Debug, PartialEq, Eq, Structural)]
pub struct ImpliedCycle {
    pub trait_index: usize,
    pub reference: SourceSpan,
}

/// A merged set, with what came up while it was merged.
#[derive(Debug, PartialEq, Eq)]
pub struct MergedBounds {
    pub implied: List<ImpliedTraitBound>,
    pub conflicts: List<AssocBindingConflict>,
    pub cycles: List<ImpliedCycle>,
}

/// The written bounds, in the order in which they were resolved: a bound
/// comes after the bounds that are written inside it.
pub struct BoundArena {
    bounds: Vec<SourceTraitBound>,
}

impl View for BoundArena {
    type V = Seq<SourceTraitBound>;

    closed spec fn view(&self) -> Seq<SourceTraitBound> {
        self.bounds@
    }
}

impl BoundArena {
    pub fn new() -> (result: BoundArena)
        ensures
            result@ == Seq::<SourceTraitBound>::empty(),
    {
        BoundArena { bounds: Vec::new() }
    }

    /// Stores a written bound; the result is its position.
    pub fn push(&mut self, bound: SourceTraitBound) -> (result: BoundId)
        requires
            old(self)@.len() <= u32::MAX,
        ensures
            final(self)@ == old(self)@.push(bound),
            result == old(self)@.len(),
    {
        let index: u32 = self.bounds.len() as u32;
        self.bounds.push(bound);
        index
    }

    pub open spec fn spec_get(&self, id: BoundId) -> Option<&SourceTraitBound> {
        if id < self@.len() {
            Some(&self@[id as int])
        } else {
            None
        }
    }

    /// The written bound at a position.
    #[verifier::when_used_as_spec(spec_get)]
    pub fn get(&self, id: BoundId) -> (result: Option<&SourceTraitBound>)
        ensures
            result == self.spec_get(id),
    {
        if (id as usize) < self.bounds.len() {
            Some(&self.bounds[id as usize])
        } else {
            None
        }
    }

    pub open spec fn spec_binding(&self, reference: BindingRef) -> Option<&SourceAssocBinding> {
        match self.spec_get(reference.bound) {
            Some(bound) => bound.bindings.spec_get(reference.index as usize),
            None => None,
        }
    }

    /// The clause that a reference names.
    #[verifier::when_used_as_spec(spec_binding)]
    pub fn binding(&self, reference: BindingRef) -> (result: Option<&SourceAssocBinding>)
        ensures
            result == self.spec_binding(reference),
    {
        match self.get(reference.bound) {
            Some(bound) => bound.bindings.get(reference.index as usize),
            None => None,
        }
    }

    pub open spec fn spec_assoc_type_of(&self, reference: BindingRef) -> Option<usize> {
        match self.spec_binding(reference) {
            Some(binding) => Some(binding.assoc_type_index),
            None => None,
        }
    }

    /// The associated type that a clause is about.
    #[verifier::when_used_as_spec(spec_assoc_type_of)]
    pub fn assoc_type_of(&self, reference: BindingRef) -> (result: Option<usize>)
        ensures
            result == self.spec_assoc_type_of(reference),
    {
        match self.binding(reference) {
            Some(binding) => Some(binding.assoc_type_index),
            None => None,
        }
    }

    pub open spec fn spec_equals_type(&self, reference: BindingRef) -> Option<TypeIndex> {
        match self.spec_binding(reference) {
            Some(binding) => match binding.kind {
                BindingRequirement::Equals(value) => Some(value.inner),
                BindingRequirement::Bound(_) => None,
            },
            None => None,
        }
    }

    /// The type that a clause gives its associated type.
    #[verifier::when_used_as_spec(spec_equals_type)]
    pub fn equals_type(&self, reference: BindingRef) -> (result: Option<TypeIndex>)
        ensures
            result == self.spec_equals_type(reference),
    {
        match self.binding(reference) {
            Some(binding) => match &binding.kind {
                BindingRequirement::Equals(value) => Some(value.inner),
                BindingRequirement::Bound(_) => None,
            },
            None => None,
        }
    }

    pub open spec fn spec_len(&self) -> u64 {
        self@.len() as u64
    }

    /// The number of written bounds.
    #[verifier::when_used_as_spec(spec_len)]
    pub fn len(&self) -> (result: u64)
        ensures
            result == self.spec_len(),
            result == self@.len(),
    {
        self.bounds.len() as u64
    }
}

pub open spec fn spec_env(traits: &Vec<TraitEnv>, index: usize) -> Option<&TraitEnv> {
    if index < traits@.len() {
        Some(&traits@[index as int])
    } else {
        None
    }
}

/// What is known of the trait at an index.
#[verifier::when_used_as_spec(spec_env)]
pub fn env(traits: &Vec<TraitEnv>, index: usize) -> (result: Option<&TraitEnv>)
    ensures
        result == spec_env(traits, index),
{
    if index < traits.len() {
        Some(&traits[index])
    } else {
        None
    }
}

impl List<ImpliedTraitBound> {
    /// A second list of the same bounds.
    pub fn duplicate(&self) -> (result: List<ImpliedTraitBound>)
        ensures
            result == *self,
        decreases self,
    {
        match self {
            List::Nil => List::Nil,
            List::Cons(bound, rest) => cons(
                ImpliedTraitBound {
                    trait_index: bound.trait_index,
                    source: bound.source,
                    bindings: bound.bindings.duplicate(),
                },
                rest.duplicate(),
            ),
        }
    }
}

impl RequiredBounds {
    #[verifier::allow_in_spec]
    pub fn new(traits: List<ImpliedTraitBound>) -> (result: RequiredBounds)
        returns
            (match traits {
                List::Nil => RequiredBounds::Nothing,
                List::Cons(..) => RequiredBounds::Traits(traits),
            }),
    {
        match traits {
            List::Nil => RequiredBounds::Nothing,
            List::Cons(..) => RequiredBounds::Traits(traits),
        }
    }
}

impl List<ImpliedAssocBinding> {
    /// A second list of the same clauses.
    pub fn duplicate(&self) -> (result: List<ImpliedAssocBinding>)
        ensures
            result == *self,
        decreases self,
    {
        match self {
            List::Nil => List::Nil,
            List::Cons(binding, rest) => cons(
                ImpliedAssocBinding {
                    source: binding.source,
                    kind: binding.kind,
                    required_bounds: match &binding.required_bounds {
                        RequiredBounds::Nothing => RequiredBounds::Nothing,
                        RequiredBounds::Traits(traits) => RequiredBounds::Traits(
                            traits.duplicate(),
                        ),
                    },
                },
                rest.duplicate(),
            ),
        }
    }
}

/// The clause that comes after one.
#[verifier::allow_in_spec]
pub fn next_clause(index: u32) -> (result: u32)
    returns
        (if index < u32::MAX {
            (index + 1) as u32
        } else {
            index
        }),
{
    if index < u32::MAX {
        index + 1
    } else {
        index
    }
}

/// What two clauses for one associated type make together, and the conflict
/// where they give it different types. A conflict stays one.
pub open spec fn joined_kind(
    arena: &BoundArena,
    first: ImpliedBindingKind,
    second: ImpliedBindingKind,
    conflicts: List<AssocBindingConflict>,
    merge_point: BoundId,
) -> (ImpliedBindingKind, List<AssocBindingConflict>) {
    match (first, second) {
        (ImpliedBindingKind::Conflicting, _) => (ImpliedBindingKind::Conflicting, conflicts),
        (_, ImpliedBindingKind::Conflicting) => (ImpliedBindingKind::Conflicting, conflicts),
        (ImpliedBindingKind::Equals(a), ImpliedBindingKind::Equals(b)) => {
            if arena.equals_type(a) != arena.equals_type(b) {
                (
                    ImpliedBindingKind::Conflicting,
                    conflicts.push(AssocBindingConflict { first: a, second: b, merge_point }),
                )
            } else {
                (first, conflicts)
            }
        },
        (ImpliedBindingKind::Bound, ImpliedBindingKind::Equals(b)) => {
            (ImpliedBindingKind::Equals(b), conflicts)
        },
        (_, ImpliedBindingKind::Bound) => (first, conflicts),
    }
}

/// What two clauses for one associated type make together, and the conflict
/// where they give it different types. A conflict stays one.
pub fn join_kinds(
    arena: &BoundArena,
    first: ImpliedBindingKind,
    second: ImpliedBindingKind,
    conflicts: List<AssocBindingConflict>,
    merge_point: BoundId,
) -> (result: (ImpliedBindingKind, List<AssocBindingConflict>))
    ensures
        result == joined_kind(arena, first, second, conflicts, merge_point),
{
    match (first, second) {
        (ImpliedBindingKind::Conflicting, _) => (ImpliedBindingKind::Conflicting, conflicts),
        (_, ImpliedBindingKind::Conflicting) => (ImpliedBindingKind::Conflicting, conflicts),
        (ImpliedBindingKind::Equals(a), ImpliedBindingKind::Equals(b)) => if arena.equals_type(a) != arena.equals_type(b) {
            (
                ImpliedBindingKind::Conflicting,
                conflicts.push(AssocBindingConflict { first: a, second: b, merge_point }),
            )
        } else {
            (first, conflicts)
        },
        (ImpliedBindingKind::Bound, ImpliedBindingKind::Equals(b)) => {
            (ImpliedBindingKind::Equals(b), conflicts)
        },
        (_, ImpliedBindingKind::Bound) => (first, conflicts),
    }
}

/// A set of bounds with one more: a trait that is there already gets the
/// clauses of the new bound, any other comes last.
pub open spec fn with_trait_bound(
    arena: &BoundArena,
    implied: List<ImpliedTraitBound>,
    conflicts: List<AssocBindingConflict>,
    bound: ImpliedTraitBound,
    merge_point: BoundId,
) -> (List<ImpliedTraitBound>, List<AssocBindingConflict>)
    decreases bound, 0int, implied,
{
    match implied {
        List::Nil => (single(bound), conflicts),
        List::Cons(first, rest) => {
            if first.trait_index == bound.trait_index {
                let (bindings, conflicts) = with_clauses(
                    arena,
                    first.bindings,
                    conflicts,
                    bound.bindings,
                    merge_point,
                );
                (
                    cons(
                        ImpliedTraitBound {
                            trait_index: first.trait_index,
                            source: first.source,
                            bindings,
                        },
                        *rest,
                    ),
                    conflicts,
                )
            } else {
                let (others, conflicts) = with_trait_bound(
                    arena,
                    *rest,
                    conflicts,
                    bound,
                    merge_point,
                );
                (cons(*first, others), conflicts)
            }
        },
    }
}

/// A set of bounds with one more: a trait that is there already gets the
/// clauses of the new bound, any other comes last.
pub fn union_trait_bound(
    arena: &BoundArena,
    implied: List<ImpliedTraitBound>,
    conflicts: List<AssocBindingConflict>,
    bound: ImpliedTraitBound,
    merge_point: BoundId,
) -> (result: (List<ImpliedTraitBound>, List<AssocBindingConflict>))
    ensures
        result == with_trait_bound(arena, implied, conflicts, bound, merge_point),
    decreases bound, 0int, implied,
{
    match implied {
        List::Nil => (single(bound), conflicts),
        List::Cons(first, rest) => {
            if first.trait_index == bound.trait_index {
                let (bindings, conflicts) = union_clauses(
                    arena,
                    first.bindings,
                    conflicts,
                    bound.bindings,
                    merge_point,
                );
                (
                    cons(
                        ImpliedTraitBound {
                            trait_index: first.trait_index,
                            source: first.source,
                            bindings,
                        },
                        *rest,
                    ),
                    conflicts,
                )
            } else {
                let (others, conflicts) = union_trait_bound(
                    arena,
                    *rest,
                    conflicts,
                    bound,
                    merge_point,
                );
                (cons(*first, others), conflicts)
            }
        },
    }
}

/// The clauses of a bound with those of another bound on the same trait.
pub open spec fn with_clauses(
    arena: &BoundArena,
    clauses: List<ImpliedAssocBinding>,
    conflicts: List<AssocBindingConflict>,
    incoming: List<ImpliedAssocBinding>,
    merge_point: BoundId,
) -> (List<ImpliedAssocBinding>, List<AssocBindingConflict>)
    decreases incoming, 1int, List::<usize>::Nil,
{
    match clauses {
        List::Nil => (incoming, conflicts),
        List::Cons(..) => with_each_clause(arena, clauses, conflicts, incoming, merge_point),
    }
}

/// The clauses of a bound with those of another bound on the same trait.
pub fn union_clauses(
    arena: &BoundArena,
    clauses: List<ImpliedAssocBinding>,
    conflicts: List<AssocBindingConflict>,
    incoming: List<ImpliedAssocBinding>,
    merge_point: BoundId,
) -> (result: (List<ImpliedAssocBinding>, List<AssocBindingConflict>))
    ensures
        result == with_clauses(arena, clauses, conflicts, incoming, merge_point),
    decreases incoming, 1int, List::<usize>::Nil,
{
    match clauses {
        List::Nil => (incoming, conflicts),
        List::Cons(..) => union_each_clause(arena, clauses, conflicts, incoming, merge_point),
    }
}

/// Clauses with each of some others in turn.
pub open spec fn with_each_clause(
    arena: &BoundArena,
    clauses: List<ImpliedAssocBinding>,
    conflicts: List<AssocBindingConflict>,
    incoming: List<ImpliedAssocBinding>,
    merge_point: BoundId,
) -> (List<ImpliedAssocBinding>, List<AssocBindingConflict>)
    decreases incoming, 0int, List::<usize>::Nil,
{
    match incoming {
        List::Nil => (clauses, conflicts),
        List::Cons(clause, rest) => {
            let (clauses, conflicts) = with_clause(
                arena,
                clauses,
                conflicts,
                *clause,
                merge_point,
            );
            with_each_clause(arena, clauses, conflicts, *rest, merge_point)
        },
    }
}

/// Clauses with each of some others in turn.
pub fn union_each_clause(
    arena: &BoundArena,
    clauses: List<ImpliedAssocBinding>,
    conflicts: List<AssocBindingConflict>,
    incoming: List<ImpliedAssocBinding>,
    merge_point: BoundId,
) -> (result: (List<ImpliedAssocBinding>, List<AssocBindingConflict>))
    ensures
        result == with_each_clause(arena, clauses, conflicts, incoming, merge_point),
    decreases incoming, 0int, List::<usize>::Nil,
{
    match incoming {
        List::Nil => (clauses, conflicts),
        List::Cons(clause, rest) => {
            let (clauses, conflicts) = union_clause(
                arena,
                clauses,
                conflicts,
                *clause,
                merge_point,
            );
            union_each_clause(arena, clauses, conflicts, *rest, merge_point)
        },
    }
}

/// Clauses with one more: an associated type that has one already keeps it,
/// joined with the new one.
pub open spec fn with_clause(
    arena: &BoundArena,
    clauses: List<ImpliedAssocBinding>,
    conflicts: List<AssocBindingConflict>,
    clause: ImpliedAssocBinding,
    merge_point: BoundId,
) -> (List<ImpliedAssocBinding>, List<AssocBindingConflict>)
    decreases clause, 0int, clauses,
{
    match clauses {
        List::Nil => (single(clause), conflicts),
        List::Cons(first, rest) => {
            if arena.assoc_type_of(first.source) == arena.assoc_type_of(clause.source) {
                let (required_bounds, conflicts) = with_required(
                    arena,
                    first.required_bounds,
                    conflicts,
                    clause.required_bounds,
                    merge_point,
                );
                let (kind, conflicts) = joined_kind(
                    arena,
                    first.kind,
                    clause.kind,
                    conflicts,
                    merge_point,
                );
                (
                    cons(
                        ImpliedAssocBinding { source: first.source, kind, required_bounds },
                        *rest,
                    ),
                    conflicts,
                )
            } else {
                let (others, conflicts) = with_clause(
                    arena,
                    *rest,
                    conflicts,
                    clause,
                    merge_point,
                );
                (cons(*first, others), conflicts)
            }
        },
    }
}

/// Clauses with one more: an associated type that has one already keeps it,
/// joined with the new one.
pub fn union_clause(
    arena: &BoundArena,
    clauses: List<ImpliedAssocBinding>,
    conflicts: List<AssocBindingConflict>,
    clause: ImpliedAssocBinding,
    merge_point: BoundId,
) -> (result: (List<ImpliedAssocBinding>, List<AssocBindingConflict>))
    ensures
        result == with_clause(arena, clauses, conflicts, clause, merge_point),
    decreases clause, 0int, clauses,
{
    match clauses {
        List::Nil => (single(clause), conflicts),
        List::Cons(first, rest) => {
            if arena.assoc_type_of(first.source) == arena.assoc_type_of(clause.source) {
                let (required_bounds, conflicts) = union_required(
                    arena,
                    first.required_bounds,
                    conflicts,
                    clause.required_bounds,
                    merge_point,
                );
                let (kind, conflicts) = join_kinds(
                    arena,
                    first.kind,
                    clause.kind,
                    conflicts,
                    merge_point,
                );
                (
                    cons(
                        ImpliedAssocBinding { source: first.source, kind, required_bounds },
                        *rest,
                    ),
                    conflicts,
                )
            } else {
                let (others, conflicts) = union_clause(
                    arena,
                    *rest,
                    conflicts,
                    clause,
                    merge_point,
                );
                (cons(*first, others), conflicts)
            }
        },
    }
}

/// What an associated type must meet, with what else it must meet.
pub open spec fn with_required(
    arena: &BoundArena,
    required: RequiredBounds,
    conflicts: List<AssocBindingConflict>,
    incoming: RequiredBounds,
    merge_point: BoundId,
) -> (RequiredBounds, List<AssocBindingConflict>)
    decreases incoming, 0int, List::<usize>::Nil,
{
    match incoming {
        RequiredBounds::Nothing => (required, conflicts),
        RequiredBounds::Traits(incoming) => {
            let traits = match required {
                RequiredBounds::Nothing => List::Nil,
                RequiredBounds::Traits(traits) => traits,
            };
            let (traits, conflicts) = with_bounds(
                arena,
                traits,
                conflicts,
                incoming,
                merge_point,
            );
            (RequiredBounds::new(traits), conflicts)
        },
    }
}

/// What an associated type must meet, with what else it must meet.
pub fn union_required(
    arena: &BoundArena,
    required: RequiredBounds,
    conflicts: List<AssocBindingConflict>,
    incoming: RequiredBounds,
    merge_point: BoundId,
) -> (result: (RequiredBounds, List<AssocBindingConflict>))
    ensures
        result == with_required(arena, required, conflicts, incoming, merge_point),
    decreases incoming, 0int, List::<usize>::Nil,
{
    match incoming {
        RequiredBounds::Nothing => (required, conflicts),
        RequiredBounds::Traits(incoming) => {
            let traits = match required {
                RequiredBounds::Nothing => List::Nil,
                RequiredBounds::Traits(traits) => traits,
            };
            let (traits, conflicts) = union_bounds(
                arena,
                traits,
                conflicts,
                incoming,
                merge_point,
            );
            (RequiredBounds::new(traits), conflicts)
        },
    }
}

/// A set of bounds with each of some others in turn.
pub open spec fn with_bounds(
    arena: &BoundArena,
    implied: List<ImpliedTraitBound>,
    conflicts: List<AssocBindingConflict>,
    incoming: List<ImpliedTraitBound>,
    merge_point: BoundId,
) -> (List<ImpliedTraitBound>, List<AssocBindingConflict>)
    decreases incoming, 0int, List::<usize>::Nil,
{
    match incoming {
        List::Nil => (implied, conflicts),
        List::Cons(bound, rest) => {
            let (implied, conflicts) = with_trait_bound(
                arena,
                implied,
                conflicts,
                *bound,
                merge_point,
            );
            with_bounds(arena, implied, conflicts, *rest, merge_point)
        },
    }
}

/// A set of bounds with each of some others in turn.
pub fn union_bounds(
    arena: &BoundArena,
    implied: List<ImpliedTraitBound>,
    conflicts: List<AssocBindingConflict>,
    incoming: List<ImpliedTraitBound>,
    merge_point: BoundId,
) -> (result: (List<ImpliedTraitBound>, List<AssocBindingConflict>))
    ensures
        result == with_bounds(arena, implied, conflicts, incoming, merge_point),
    decreases incoming, 0int, List::<usize>::Nil,
{
    match incoming {
        List::Nil => (implied, conflicts),
        List::Cons(bound, rest) => {
            let (implied, conflicts) = union_trait_bound(
                arena,
                implied,
                conflicts,
                *bound,
                merge_point,
            );
            union_bounds(arena, implied, conflicts, *rest, merge_point)
        },
    }
}

/// A merged set with what the own bounds of a trait imply.
pub open spec fn with_inherited(
    arena: &BoundArena,
    traits: &Vec<TraitEnv>,
    trait_index: usize,
    reference: SourceSpan,
    id: BoundId,
    merged: MergedBounds,
) -> MergedBounds {
    match env(traits, trait_index) {
        Some(env) => {
            match &env.status {
                TraitStatus::Resolved(inherited) => {
                    let (implied, conflicts) = with_bounds(
                        arena,
                        merged.implied,
                        merged.conflicts,
                        *inherited,
                        id,
                    );
                    MergedBounds { implied, conflicts, cycles: merged.cycles }
                },
                TraitStatus::Cycle => {
                    MergedBounds {
                        implied: merged.implied,
                        conflicts: merged.conflicts,
                        cycles: merged.cycles.push(ImpliedCycle { trait_index, reference }),
                    }
                },
                TraitStatus::CycleReported => merged,
            }
        },
        None => merged,
    }
}

/// A merged set with what the own bounds of a trait imply.
pub fn inherit_bounds(
    arena: &BoundArena,
    traits: &Vec<TraitEnv>,
    trait_index: usize,
    reference: SourceSpan,
    id: BoundId,
    merged: MergedBounds,
) -> (result: MergedBounds)
    ensures
        result == with_inherited(arena, traits, trait_index, reference, id, merged),
{
    match env(traits, trait_index) {
        Some(env) => match &env.status {
            TraitStatus::Resolved(inherited) => {
                let (implied, conflicts) = union_bounds(
                    arena,
                    merged.implied,
                    merged.conflicts,
                    inherited.duplicate(),
                    id,
                );
                MergedBounds { implied, conflicts, cycles: merged.cycles }
            },
            TraitStatus::Cycle => MergedBounds {
                implied: merged.implied,
                conflicts: merged.conflicts,
                cycles: merged.cycles.push(ImpliedCycle { trait_index, reference }),
            },
            TraitStatus::CycleReported => merged,
        },
        None => merged,
    }
}

/// Merges the bounds at some positions into a set. `depth` bounds how deep
/// the bounds inside their clauses are nested.
pub open spec fn merged_set(
    arena: &BoundArena,
    traits: &Vec<TraitEnv>,
    bounds: &List<BoundId>,
    depth: u64,
    merged: MergedBounds,
) -> MergedBounds
    decreases depth, 1int, bounds,
{
    match bounds {
        List::Nil => merged,
        List::Cons(id, rest) => {
            let merged = merged_bound(arena, traits, **id, depth, merged);
            merged_set(arena, traits, rest, depth, merged)
        },
    }
}

/// Merges the bounds at some positions into a set. `depth` bounds how deep
/// the bounds inside their clauses are nested.
pub fn merge_bound_set(
    arena: &BoundArena,
    traits: &Vec<TraitEnv>,
    bounds: &List<BoundId>,
    depth: u64,
    merged: MergedBounds,
) -> (result: MergedBounds)
    ensures
        result == merged_set(arena, traits, bounds, depth, merged),
    decreases depth, 1int, bounds,
{
    match bounds {
        List::Nil => merged,
        List::Cons(id, rest) => {
            let merged = merge_bound(arena, traits, **id, depth, merged);
            merge_bound_set(arena, traits, rest, depth, merged)
        },
    }
}

/// Merges one written bound, and then what its trait implies, into a set.
pub open spec fn merged_bound(
    arena: &BoundArena,
    traits: &Vec<TraitEnv>,
    id: BoundId,
    depth: u64,
    merged: MergedBounds,
) -> MergedBounds
    decreases depth, 0int, List::<BoundId>::Nil,
{
    match arena.get(id) {
        Some(source) => {
            if depth > 0 {
                let (bindings, conflicts, cycles) = merged_clauses(
                    arena,
                    traits,
                    id,
                    (depth - 1) as u64,
                    &source.bindings,
                    0,
                    List::Nil,
                    merged.conflicts,
                    merged.cycles,
                );
                let bound = ImpliedTraitBound {
                    trait_index: source.trait_index,
                    source: id,
                    bindings,
                };
                let (implied, conflicts) = with_trait_bound(
                    arena,
                    merged.implied,
                    conflicts,
                    bound,
                    id,
                );
                with_inherited(
                    arena,
                    traits,
                    source.trait_index,
                    source.span,
                    id,
                    MergedBounds { implied, conflicts, cycles },
                )
            } else {
                merged
            }
        },
        None => merged,
    }
}

/// Merges one written bound, and then what its trait implies, into a set.
pub fn merge_bound(
    arena: &BoundArena,
    traits: &Vec<TraitEnv>,
    id: BoundId,
    depth: u64,
    merged: MergedBounds,
) -> (result: MergedBounds)
    ensures
        result == merged_bound(arena, traits, id, depth, merged),
    decreases depth, 0int, List::<BoundId>::Nil,
{
    match arena.get(id) {
        Some(source) => if depth > 0 {
            let (bindings, conflicts, cycles) = merge_clauses(
                arena,
                traits,
                id,
                depth - 1,
                &source.bindings,
                0,
                List::Nil,
                merged.conflicts,
                merged.cycles,
            );
            let bound = ImpliedTraitBound {
                trait_index: source.trait_index,
                source: id,
                bindings,
            };
            let (implied, conflicts) = union_trait_bound(
                arena,
                merged.implied,
                conflicts,
                bound,
                id,
            );
            inherit_bounds(
                arena,
                traits,
                source.trait_index,
                source.span,
                id,
                MergedBounds { implied, conflicts, cycles },
            )
        } else {
            merged
        },
        None => merged,
    }
}

/// The clauses of one written bound, each with the bounds inside it merged.
pub open spec fn merged_clauses(
    arena: &BoundArena,
    traits: &Vec<TraitEnv>,
    id: BoundId,
    depth: u64,
    bindings: &List<SourceAssocBinding>,
    index: u32,
    clauses: List<ImpliedAssocBinding>,
    conflicts: List<AssocBindingConflict>,
    cycles: List<ImpliedCycle>,
) -> (List<ImpliedAssocBinding>, List<AssocBindingConflict>, List<ImpliedCycle>)
    decreases depth, 2int, bindings,
{
    match bindings {
        List::Nil => (clauses, conflicts, cycles),
        List::Cons(binding, rest) => {
            let source = BindingRef { bound: id, index };
            match &binding.kind {
                BindingRequirement::Equals(_) => {
                    merged_clauses(
                        arena,
                        traits,
                        id,
                        depth,
                        rest,
                        next_clause(index),
                        clauses.push(
                            ImpliedAssocBinding {
                                source,
                                kind: ImpliedBindingKind::Equals(source),
                                required_bounds: RequiredBounds::Nothing,
                            },
                        ),
                        conflicts,
                        cycles,
                    )
                },
                BindingRequirement::Bound(ids) => {
                    let nested = merged_set(
                        arena,
                        traits,
                        ids,
                        depth,
                        MergedBounds { implied: List::Nil, conflicts, cycles },
                    );
                    merged_clauses(
                        arena,
                        traits,
                        id,
                        depth,
                        rest,
                        next_clause(index),
                        clauses.push(
                            ImpliedAssocBinding {
                                source,
                                kind: ImpliedBindingKind::Bound,
                                required_bounds: RequiredBounds::new(nested.implied),
                            },
                        ),
                        nested.conflicts,
                        nested.cycles,
                    )
                },
            }
        },
    }
}

/// The clauses of one written bound, each with the bounds inside it merged.
pub fn merge_clauses(
    arena: &BoundArena,
    traits: &Vec<TraitEnv>,
    id: BoundId,
    depth: u64,
    bindings: &List<SourceAssocBinding>,
    index: u32,
    clauses: List<ImpliedAssocBinding>,
    conflicts: List<AssocBindingConflict>,
    cycles: List<ImpliedCycle>,
) -> (result: (List<ImpliedAssocBinding>, List<AssocBindingConflict>, List<ImpliedCycle>))
    ensures
        result == merged_clauses(
            arena,
            traits,
            id,
            depth,
            bindings,
            index,
            clauses,
            conflicts,
            cycles,
        ),
    decreases depth, 2int, bindings,
{
    match bindings {
        List::Nil => (clauses, conflicts, cycles),
        List::Cons(binding, rest) => {
            let source = BindingRef { bound: id, index };
            match &binding.kind {
                BindingRequirement::Equals(_) => merge_clauses(
                    arena,
                    traits,
                    id,
                    depth,
                    rest,
                    next_clause(index),
                    clauses.push(
                        ImpliedAssocBinding {
                            source,
                            kind: ImpliedBindingKind::Equals(source),
                            required_bounds: RequiredBounds::Nothing,
                        },
                    ),
                    conflicts,
                    cycles,
                ),
                BindingRequirement::Bound(ids) => {
                    let nested = merge_bound_set(
                        arena,
                        traits,
                        ids,
                        depth,
                        MergedBounds { implied: List::Nil, conflicts, cycles },
                    );
                    merge_clauses(
                        arena,
                        traits,
                        id,
                        depth,
                        rest,
                        next_clause(index),
                        clauses.push(
                            ImpliedAssocBinding {
                                source,
                                kind: ImpliedBindingKind::Bound,
                                required_bounds: RequiredBounds::new(nested.implied),
                            },
                        ),
                        nested.conflicts,
                        nested.cycles,
                    )
                },
            }
        },
    }
}

/// The diagnostic for a conflict in the bounds of a subject; nothing where
/// the clauses are not equalities.
pub open spec fn conflict_report(
    arena: &BoundArena,
    traits: &Vec<TraitEnv>,
    subject: Symbol,
    conflict: AssocBindingConflict,
) -> Option<Diagnostic> {
    match arena.get(conflict.first.bound) {
        Some(first_bound) => {
            match arena.get(conflict.second.bound) {
                Some(second_bound) => {
                    match arena.get(conflict.merge_point) {
                        Some(merge_point) => {
                            match arena.binding(conflict.first) {
                                Some(first) => {
                                    match arena.binding(conflict.second) {
                                        Some(second) => {
                                            match env(traits, first_bound.trait_index) {
                                                Some(env) => {
                                                    match (&first.kind, &second.kind) {
                                                        (
                                                            BindingRequirement::Equals(
                                                                first_value,
                                                            ),
                                                            BindingRequirement::Equals(
                                                                second_value,
                                                            ),
                                                        ) => {
                                                            Some(
                                                                report_conflicting_assoc_type_binding(
                                                                    subject,
                                                                    env.name,
                                                                    first.name.inner,
                                                                    SourceSpan::new(
                                                                        second_bound.span.file_id,
                                                                        second_value.span,
                                                                    ),
                                                                    SourceSpan::new(
                                                                        first_bound.span.file_id,
                                                                        first_value.span,
                                                                    ),
                                                                    merge_point.span,
                                                                ),
                                                            )
                                                        },
                                                        _ => None,
                                                    }
                                                },
                                                None => None,
                                            }
                                        },
                                        None => None,
                                    }
                                },
                                None => None,
                            }
                        },
                        None => None,
                    }
                },
                None => None,
            }
        },
        None => None,
    }
}

/// The diagnostic for a conflict in the bounds of a subject; nothing where
/// the clauses are not equalities.
pub fn report_conflict(
    arena: &BoundArena,
    traits: &Vec<TraitEnv>,
    subject: Symbol,
    conflict: AssocBindingConflict,
) -> (result: Option<Diagnostic>)
    ensures
        result == conflict_report(arena, traits, subject, conflict),
{
    let first_bound = arena.get(conflict.first.bound)?;
    let second_bound = arena.get(conflict.second.bound)?;
    let merge_point = arena.get(conflict.merge_point)?;
    let first = arena.binding(conflict.first)?;
    let second = arena.binding(conflict.second)?;
    let env = env(traits, first_bound.trait_index)?;
    match (&first.kind, &second.kind) {
        (BindingRequirement::Equals(first_value), BindingRequirement::Equals(second_value)) => Some(
            report_conflicting_assoc_type_binding(
                subject,
                env.name,
                first.name.inner,
                SourceSpan::new(second_bound.span.file_id, second_value.span),
                SourceSpan::new(first_bound.span.file_id, first_value.span),
                merge_point.span,
            ),
        ),
        _ => None,
    }
}

/// The diagnostics for the conflicts in the bounds of a subject, in order.
pub open spec fn conflict_reports(
    arena: &BoundArena,
    traits: &Vec<TraitEnv>,
    subject: Symbol,
    conflicts: &List<AssocBindingConflict>,
) -> List<Diagnostic>
    decreases conflicts,
{
    match conflicts {
        List::Nil => List::Nil,
        List::Cons(conflict, rest) => {
            let others = conflict_reports(arena, traits, subject, rest);
            match conflict_report(arena, traits, subject, **conflict) {
                Some(diagnostic) => cons(diagnostic, others),
                None => others,
            }
        },
    }
}

/// The diagnostics for the conflicts in the bounds of a subject, in order.
pub fn report_conflicts(
    arena: &BoundArena,
    traits: &Vec<TraitEnv>,
    subject: Symbol,
    conflicts: &List<AssocBindingConflict>,
) -> (result: List<Diagnostic>)
    ensures
        result == conflict_reports(arena, traits, subject, conflicts),
    decreases conflicts,
{
    match conflicts {
        List::Nil => List::Nil,
        List::Cons(conflict, rest) => {
            let others = report_conflicts(arena, traits, subject, rest);
            match report_conflict(arena, traits, subject, **conflict) {
                Some(diagnostic) => cons(diagnostic, others),
                None => others,
            }
        },
    }
}

/// What the written bounds of a trait, type parameter or associated type
/// imply, with the conflicts among them reported for that subject, and the
/// traits whose bounds lead back to themselves.
pub open spec fn implied_bounds(
    arena: &BoundArena,
    traits: &Vec<TraitEnv>,
    bounds: &List<BoundId>,
    subject: Symbol,
) -> (List<ImpliedTraitBound>, List<Diagnostic>, List<ImpliedCycle>) {
    let merged = merged_set(
        arena,
        traits,
        bounds,
        arena.len(),
        MergedBounds { implied: List::Nil, conflicts: List::Nil, cycles: List::Nil },
    );
    let reports = conflict_reports(arena, traits, subject, &merged.conflicts);
    (merged.implied, reports, merged.cycles)
}

/// What the written bounds of a trait, type parameter or associated type
/// imply, with the conflicts among them reported for that subject, and the
/// traits whose bounds lead back to themselves.
pub fn compute_implied_bounds(
    arena: &BoundArena,
    traits: &Vec<TraitEnv>,
    bounds: &List<BoundId>,
    subject: Symbol,
) -> (result: (List<ImpliedTraitBound>, List<Diagnostic>, List<ImpliedCycle>))
    ensures
        result == implied_bounds(arena, traits, bounds, subject),
{
    let merged = merge_bound_set(
        arena,
        traits,
        bounds,
        arena.len(),
        MergedBounds { implied: List::Nil, conflicts: List::Nil, cycles: List::Nil },
    );
    let reports = report_conflicts(arena, traits, subject, &merged.conflicts);
    (merged.implied, reports, merged.cycles)
}

} // verus!
