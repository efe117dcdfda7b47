//! Lookup candidates, merged bounds, and the check of a type against bounds.

use wx_tir::candidates::{CandidateSelection, CandidateSet};
use wx_tir::diagnostics::{DiagnosticCode, Piece};
use wx_tir::implied::{
    compute_implied_bounds, union_trait_bound, BindingRef, BindingRequirement, BoundArena,
    ImpliedAssocBinding, ImpliedBindingKind, ImpliedTraitBound, RequiredBounds,
    SourceAssocBinding, SourceTraitBound, TraitEnv, TraitStatus,
};
use wx_tir::interner::Interner;
use wx_tir::list::{cons, single, List};
use wx_tir::reports::{
    report_duplicate_assoc_type_binding, report_expected_trait_bound, report_not_an_associated_type,
};
use wx_tir::satisfy::{BoundOrigin, Subject};
use wx_tir::span::{SourceSpan, Spanned, TextSpan};
use wx_tir::state::{Builder, ImplTarget, TraitDispatch, WellKnown};
use wx_tir::tir::{
    AssocBinding, AssocBindingKind, Bounds, ImplEntry, Member, Trait, TraitAssocType, TraitBound,
    TraitImpl, TypeParamInfo,
};
use wx_tir::ty;
use wx_tir::types::{TypeIndex, TypeParamOwner};

fn place(start: u32) -> SourceSpan {
    SourceSpan { file_id: 0, span: TextSpan { start, end: start + 1 } }
}

fn spanned<T>(inner: T) -> Spanned<T> {
    Spanned { inner, span: TextSpan { start: 0, end: 1 } }
}

// ------------------------------------------------------------------ candidates

#[test]
fn no_candidate() {
    let set: CandidateSet<u32, char> = CandidateSet::new();
    assert!(matches!(set.finish(), CandidateSelection::Absent));
}

#[test]
fn one_candidate() {
    let mut set = CandidateSet::new();
    set.insert(1u32, 'a');
    set.insert(1u32, 'b');
    assert!(matches!(set.finish(), CandidateSelection::One('a')));
}

#[test]
fn several_candidates_keep_their_order() {
    let mut set = CandidateSet::new();
    set.insert(3u32, 'c');
    set.insert(1u32, 'a');
    set.insert(3u32, 'x');
    set.insert(2u32, 'b');
    set.insert(1u32, 'y');
    match set.finish() {
        CandidateSelection::Many(values) => assert_eq!(values, vec!['c', 'a', 'b']),
        _ => panic!("expected several candidates"),
    }
}

// ------------------------------------------------------------------ merged bounds

fn plain(trait_index: usize, start: u32) -> SourceTraitBound {
    SourceTraitBound { trait_index, span: place(start), bindings: List::Nil }
}

fn equal(trait_index: usize, start: u32, assoc: usize, value: TypeIndex) -> SourceTraitBound {
    SourceTraitBound {
        trait_index,
        span: place(start),
        bindings: single(SourceAssocBinding {
            assoc_type_index: assoc,
            name: spanned(7),
            kind: BindingRequirement::Equals(spanned(value)),
        }),
    }
}

fn traits(count: usize) -> Vec<TraitEnv> {
    (0..count)
        .map(|index| TraitEnv {
            name: index as u32,
            status: TraitStatus::Resolved(List::Nil),
        })
        .collect()
}

#[test]
fn arena_gives_back_what_it_holds() {
    let mut arena = BoundArena::new();
    let first = arena.push(plain(0, 1));
    let second = arena.push(equal(1, 2, 5, ty::I32));
    assert_eq!(arena.get(first), Some(&plain(0, 1)));
    assert_eq!(arena.get(second), Some(&equal(1, 2, 5, ty::I32)));
    assert_eq!(arena.get(9), None);
    let clause = BindingRef { bound: second, index: 0 };
    assert_eq!(arena.equals_type(clause), Some(ty::I32));
    assert_eq!(arena.assoc_type_of(clause), Some(5));
    assert_eq!(arena.equals_type(BindingRef { bound: second, index: 1 }), None);
    assert_eq!(arena.len(), 2);
}

#[test]
fn repeated_plain_bound_is_merged() {
    let mut arena = BoundArena::new();
    let ids = cons(arena.push(plain(0, 1)), cons(arena.push(plain(1, 2)), single(arena.push(plain(0, 3)))));
    let (implied, reports, cycles) = compute_implied_bounds(&arena, &traits(2), &ids, 0);
    assert_eq!(implied.len(), 2);
    assert_eq!(implied.get(0).unwrap().trait_index, 0);
    assert_eq!(implied.get(0).unwrap().source, 0);
    assert_eq!(implied.get(1).unwrap().trait_index, 1);
    assert!(reports.is_empty());
    assert!(cycles.is_empty());
}

#[test]
fn conflicting_values_are_reported_once() {
    let mut arena = BoundArena::new();
    let first = arena.push(equal(0, 1, 5, ty::I32));
    let second = arena.push(equal(0, 2, 5, ty::BOOL));
    let third = arena.push(equal(0, 3, 5, ty::CHAR));
    let ids = cons(first, cons(second, single(third)));
    let (implied, reports, _) = compute_implied_bounds(&arena, &traits(1), &ids, 0);
    assert_eq!(implied.len(), 1);
    let clause = implied.get(0).unwrap().bindings.get(0).unwrap();
    assert_eq!(clause.kind, ImpliedBindingKind::Conflicting);
    assert_eq!(reports.len(), 1);
    let report = reports.get(0).unwrap();
    assert_eq!(report.code, Some(DiagnosticCode::DuplicateAssocTypeBinding));
    assert_eq!(report.labels.len(), 3);
}

#[test]
fn equal_values_agree() {
    let mut arena = BoundArena::new();
    let first = arena.push(equal(0, 1, 5, ty::I32));
    let second = arena.push(equal(0, 2, 5, ty::I32));
    let ids = cons(first, single(second));
    let (implied, reports, _) = compute_implied_bounds(&arena, &traits(1), &ids, 0);
    let clause = implied.get(0).unwrap().bindings.get(0).unwrap();
    assert_eq!(clause.kind, ImpliedBindingKind::Equals(BindingRef { bound: first, index: 0 }));
    assert!(reports.is_empty());
}

#[test]
fn nested_bounds_are_merged_inside() {
    let mut arena = BoundArena::new();
    let inner = arena.push(plain(1, 1));
    let outer = arena.push(SourceTraitBound {
        trait_index: 0,
        span: place(2),
        bindings: single(SourceAssocBinding {
            assoc_type_index: 5,
            name: spanned(7),
            kind: BindingRequirement::Bound(single(inner)),
        }),
    });
    let value = arena.push(equal(0, 3, 5, ty::I32));
    let ids = cons(outer, single(value));
    let (implied, reports, _) = compute_implied_bounds(&arena, &traits(2), &ids, 0);
    let clause = implied.get(0).unwrap().bindings.get(0).unwrap();
    assert_eq!(clause.kind, ImpliedBindingKind::Equals(BindingRef { bound: value, index: 0 }));
    match &clause.required_bounds {
        RequiredBounds::Traits(required) => {
            assert_eq!(required.len(), 1);
            assert_eq!(required.get(0).unwrap().trait_index, 1);
        }
        RequiredBounds::Nothing => panic!("the requirement is lost"),
    }
    assert!(reports.is_empty());
}

#[test]
fn bounds_of_a_trait_are_inherited() {
    let mut arena = BoundArena::new();
    let base = arena.push(plain(1, 1));
    let (inherited, _, _) = compute_implied_bounds(&arena, &traits(2), &single(base), 0);
    let derived = arena.push(plain(0, 2));
    let known = vec![
        TraitEnv { name: 0, status: TraitStatus::Resolved(inherited) },
        TraitEnv { name: 1, status: TraitStatus::Resolved(List::Nil) },
    ];
    let (implied, _, cycles) = compute_implied_bounds(&arena, &known, &single(derived), 0);
    assert_eq!(implied.len(), 2);
    assert_eq!(implied.get(1).unwrap().trait_index, 1);
    assert!(cycles.is_empty());
}

#[test]
fn trait_that_leads_back_to_itself_is_named() {
    let mut arena = BoundArena::new();
    let bound = arena.push(plain(0, 4));
    let known = vec![TraitEnv { name: 0, status: TraitStatus::Cycle }];
    let (implied, _, cycles) = compute_implied_bounds(&arena, &known, &single(bound), 0);
    assert_eq!(implied.len(), 1);
    assert_eq!(cycles.len(), 1);
    assert_eq!(cycles.get(0).unwrap().trait_index, 0);
    assert_eq!(cycles.get(0).unwrap().reference, place(4));
    let known = vec![TraitEnv { name: 0, status: TraitStatus::CycleReported }];
    let (_, _, cycles) = compute_implied_bounds(&arena, &known, &single(bound), 0);
    assert!(cycles.is_empty());
}

// ------------------------------------------------------------------ the check of bounds

fn unbound() -> Bounds {
    Bounds { traits: List::Nil, typeset: None }
}

fn declared(name: u32, assoc_types: List<TraitAssocType>) -> Trait {
    Trait {
        id: name,
        file_id: 0,
        namespace: None,
        name: spanned(name),
        self_type_param: TypeParamInfo { name: spanned(0), bounds: unbound() },
        supertraits: List::Nil,
        supertrait_bindings: List::Nil,
        members: List::Nil,
        assoc_types,
        member_ids: List::Nil,
    }
}

fn implemented(trait_index: usize, target: TypeIndex, item: Option<TypeIndex>) -> TraitImpl {
    let members = match item {
        Some(ty) => single(Member { name: 7, entry: ImplEntry::AssocType { ty } }),
        None => List::Nil,
    };
    TraitImpl {
        id: 50,
        trait_index,
        type_params: List::Nil,
        target: spanned(target),
        members,
        span: TextSpan { start: 0, end: 1 },
        file_id: 0,
    }
}

/// Trait 0 has the associated type `Item: 1`; `bool` implements it with
/// `Item = i32`; `i32` implements trait 1.
fn world<'ast>(interner: Interner, names: WellKnown) -> Builder<'ast> {
    let mut builder = Builder::new(interner, names, 0);
    let marked = TraitBound {
        trait_index: 1,
        span: TextSpan { start: 9, end: 10 },
        bindings: List::Nil,
    };
    let item = TraitAssocType {
        id: 20,
        name: spanned(7),
        bounds: Bounds { traits: single(marked), typeset: None },
    };
    builder.traits.push(declared(0, single(item)));
    builder.traits.push(declared(1, List::Nil));
    builder.trait_impls.push(implemented(0, ty::BOOL, Some(ty::I32)));
    builder.trait_impls.push(implemented(1, ty::I32, None));
    builder.trait_dispatch.push(TraitDispatch {
        target: ImplTarget::Primitive(ty::BOOL),
        trait_index: 0,
        impl_index: 0,
    });
    builder.trait_dispatch.push(TraitDispatch {
        target: ImplTarget::Primitive(ty::I32),
        trait_index: 1,
        impl_index: 1,
    });
    builder
}

fn with_self_bounds(builder: &mut Builder, bindings: List<AssocBinding>) -> BoundOrigin {
    let bound = TraitBound { trait_index: 0, span: TextSpan { start: 3, end: 4 }, bindings };
    builder.traits[1].self_type_param.bounds = Bounds { traits: single(bound), typeset: None };
    BoundOrigin::TypeParam { owner: TypeParamOwner::Trait(1), index: 0 }
}

fn clause(rhs: AssocBindingKind) -> AssocBinding {
    AssocBinding { name: spanned(7), file_id: 0, rhs, rhs_span: TextSpan { start: 5, end: 6 } }
}

#[test]
fn type_that_implements_the_trait_passes() {
    let mut interner = Interner::new();
    let names = interner.well_known();
    let mut builder = world(interner, names);
    let origin = with_self_bounds(&mut builder, List::Nil);
    let found = builder.check_bounds(Subject::new(place(1), ty::BOOL), origin, &List::Nil);
    assert!(found.is_empty());
}

#[test]
fn type_that_misses_the_trait_is_named() {
    let mut interner = Interner::new();
    let names = interner.well_known();
    let mut builder = world(interner, names);
    let origin = with_self_bounds(&mut builder, List::Nil);
    let found = builder.check_bounds(Subject::new(place(1), ty::CHAR), origin, &List::Nil);
    assert_eq!(found.len(), 1);
    let report = found.get(0).unwrap();
    assert_eq!(report.code, Some(DiagnosticCode::TraitBoundViolation));
    assert_eq!(report.labels.get(0).unwrap().at, place(1));
    assert_eq!(report.labels.get(1).unwrap().at, place(3));
}

#[test]
fn poisoned_type_violates_nothing() {
    let mut interner = Interner::new();
    let names = interner.well_known();
    let mut builder = world(interner, names);
    let origin = with_self_bounds(&mut builder, List::Nil);
    let found = builder.check_bounds(Subject::new(place(1), ty::ERROR), origin, &List::Nil);
    assert!(found.is_empty());
}

#[test]
fn pinned_associated_type_is_compared() {
    let mut interner = Interner::new();
    let names = interner.well_known();
    let mut builder = world(interner, names);
    let origin = with_self_bounds(&mut builder, single(clause(AssocBindingKind::Equals(ty::I32))));
    let found = builder.check_bounds(Subject::new(place(1), ty::BOOL), origin, &List::Nil);
    assert!(found.is_empty());
    let origin = with_self_bounds(&mut builder, single(clause(AssocBindingKind::Equals(ty::U8))));
    let found = builder.check_bounds(Subject::new(place(1), ty::BOOL), origin, &List::Nil);
    // `u8` does not meet the bound of `Item`, and `Item` is not `u8`.
    assert_eq!(found.len(), 2);
    assert_eq!(found.get(0).unwrap().labels.get(0).unwrap().at, place(5));
    assert_eq!(found.get(1).unwrap().labels.get(0).unwrap().at, place(1));
}

#[test]
fn nested_bound_is_checked_on_the_value() {
    let mut interner = Interner::new();
    let names = interner.well_known();
    let mut builder = world(interner, names);
    let inner = |trait_index| {
        AssocBindingKind::Bound(Bounds {
            traits: single(TraitBound {
                trait_index,
                span: TextSpan { start: 6, end: 7 },
                bindings: List::Nil,
            }),
            typeset: None,
        })
    };
    let origin = with_self_bounds(&mut builder, single(clause(inner(1))));
    let found = builder.check_bounds(Subject::new(place(1), ty::BOOL), origin, &List::Nil);
    assert!(found.is_empty());
    let origin = with_self_bounds(&mut builder, single(clause(inner(0))));
    let found = builder.check_bounds(Subject::new(place(1), ty::BOOL), origin, &List::Nil);
    assert_eq!(found.len(), 1);
    assert_eq!(found.get(0).unwrap().labels.get(1).unwrap().at, place(6));
}

#[test]
fn value_of_an_associated_type_meets_its_declaration() {
    let mut interner = Interner::new();
    let names = interner.well_known();
    let mut builder = world(interner, names);
    let good = builder.check_assoc_value(0, 7, Subject::new(place(1), ty::I32), ty::BOOL);
    assert!(good.is_empty());
    let bad = builder.check_assoc_value(0, 7, Subject::new(place(1), ty::U8), ty::BOOL);
    assert_eq!(bad.len(), 1);
    assert_eq!(bad.get(0).unwrap().labels.get(1).unwrap().at, place(9));
    let unknown = builder.check_assoc_value(0, 8, Subject::new(place(1), ty::U8), ty::BOOL);
    assert!(unknown.is_empty());
}

#[test]
fn reports_on_written_clauses() {
    let name = Spanned { inner: 7, span: TextSpan { start: 4, end: 5 } };
    let kind = report_expected_trait_bound(2, name, "typeset");
    assert_eq!(kind.code, Some(DiagnosticCode::ExpectedTraitBound));
    assert_eq!(kind.labels.get(0).unwrap().at.file_id, 2);
    let twice = report_duplicate_assoc_type_binding(2, name);
    assert_eq!(twice.code, Some(DiagnosticCode::DuplicateAssocTypeBinding));
    assert_eq!(twice.labels.get(0).unwrap().at.span, name.span);
    let missing = report_not_an_associated_type(2, name, 9);
    assert_eq!(missing.code, Some(DiagnosticCode::NotATraitMember));
    assert_eq!(missing.message.get(3), Some(&Piece::Name(9)));
}

#[test]
fn poisoned_subject_violates_no_written_bound() {
    let mut interner = Interner::new();
    let names: WellKnown = interner.well_known();
    let mut builder = Builder::new(interner, names, 0);
    let bound = TraitBound {
        trait_index: 5,
        span: TextSpan { start: 3, end: 4 },
        bindings: List::Nil,
    };
    let required = single(bound);
    let origin = BoundOrigin::TraitAssocType { trait_index: 0, name: 7 };
    let found = builder.check_inner(
        origin,
        &List::Nil,
        Subject::new(place(1), ty::ERROR),
        &required,
        ty::ERROR,
        List::Nil,
    );
    assert!(found.is_empty());
    let found = builder.check_inner(
        origin,
        &List::Nil,
        Subject::new(place(1), ty::BOOL),
        &required,
        ty::BOOL,
        List::Nil,
    );
    assert_eq!(found.len(), 1);
}

#[test]
fn union_of_a_bound_with_clauses_is_made_once() {
    let mut arena = BoundArena::new();
    let inner = arena.push(plain(2, 1));
    let first = arena.push(equal(0, 2, 5, ty::I32));
    let second = arena.push(equal(0, 3, 5, ty::BOOL));
    let clause = |bound| ImpliedAssocBinding {
        source: BindingRef { bound, index: 0 },
        kind: ImpliedBindingKind::Equals(BindingRef { bound, index: 0 }),
        required_bounds: RequiredBounds::Traits(single(ImpliedTraitBound {
            trait_index: 2,
            source: inner,
            bindings: List::Nil,
        })),
    };
    let bound = |id| ImpliedTraitBound {
        trait_index: 0,
        source: id,
        bindings: single(clause(id)),
    };
    let start = single(bound(first));
    let (once, conflicts) = union_trait_bound(&arena, start, List::Nil, bound(second), 9);
    assert_eq!(conflicts.len(), 1);
    assert_eq!(
        once.get(0).unwrap().bindings.get(0).unwrap().kind,
        ImpliedBindingKind::Conflicting
    );
    let copy = once.duplicate();
    let (twice, again) = union_trait_bound(&arena, once, conflicts, bound(second), 9);
    assert_eq!(twice, copy);
    assert_eq!(again.len(), 1);
}

#[test]
fn bound_may_be_nested_in_an_earlier_one() {
    let mut arena = BoundArena::new();
    let outer = arena.push(SourceTraitBound {
        trait_index: 0,
        span: place(1),
        bindings: single(SourceAssocBinding {
            assoc_type_index: 5,
            name: spanned(7),
            kind: BindingRequirement::Bound(single(1)),
        }),
    });
    arena.push(plain(1, 2));
    let (implied, _, _) = compute_implied_bounds(&arena, &traits(2), &single(outer), 0);
    let clause = implied.get(0).unwrap().bindings.get(0).unwrap();
    match &clause.required_bounds {
        RequiredBounds::Traits(required) => {
            assert_eq!(required.len(), 1);
            assert_eq!(required.get(0).unwrap().trait_index, 1);
        }
        RequiredBounds::Nothing => panic!("the requirement is lost"),
    }
}
