//! Bounds with clauses: what violates them, and what contradicts a clause.

use vstd::prelude::*;

use crate::diagnostics::Diagnostic;
use crate::list::List;
use crate::rules::bounds::{declared_param, law_type_parameter_is_where_it_is_declared};
use crate::satisfy;
use crate::satisfy::{BoundOrigin, Subject};
use crate::span::{SourceSpan, Symbol, TextSpan};
use crate::state::State;
use crate::tir::{AssocBinding, AssocBindingKind, TraitBound};
use crate::ty;
use crate::types::{Type, TypeIndex, TypeParamOwner};

verus! {

/// A known value of an associated type contradicts a clause exactly where both
/// are known, neither is poisoned, and they are different types.
pub proof fn law_contradiction<'ast>(
    s: State<'ast>,
    expected: TypeIndex,
    actual: Option<TypeIndex>,
)
    ensures
        s.contradicts(expected, actual) <==> {
            &&& actual matches Some(value) && value != expected && value != ty::ERROR
            &&& expected != ty::ERROR
            &&& !(s.ty(expected) is TypeParam)
            &&& !(s.ty(expected) is AssocTypeProjection)
            &&& !(s.ty(expected) is Infer)
        },
{
}

/// Whether a clause pins an associated type to a type.
pub open spec fn pins(clause: AssocBinding, name: Symbol, index: TypeIndex) -> bool {
    clause.name.inner == name && clause.rhs == AssocBindingKind::Equals(index)
}

/// An associated type is pinned to the type of the first clause that says what
/// it equals.
pub proof fn law_pinned_type(clauses: List<AssocBinding>, name: Symbol)
    ensures
        match satisfy::pinned_type(&clauses, name) {
            Some(index) => exists|i: nat|
                {
                    &&& (#[trigger] clauses.at(i)) matches Some(clause) && pins(clause, name, index)
                    &&& forall|j: nat|
                        j < i ==> ((#[trigger] clauses.at(j)) matches Some(earlier)
                            && !(earlier.name.inner == name && earlier.rhs is Equals))
                },
            None => forall|i: nat|
                (#[trigger] clauses.at(i)) matches Some(clause) ==> !(clause.name.inner == name
                    && clause.rhs is Equals),
        },
    decreases clauses,
{
    match clauses {
        List::Nil => {},
        List::Cons(head, rest) => {
            assert(clauses.at(0) == Some(*head));
            assert forall|i: nat| #[trigger] rest.at(i) == clauses.at(i + 1) by {}
            if head.name.inner == name && head.rhs is Equals {
                assert(pins(*head, name, head.rhs->Equals_0));
            } else {
                law_pinned_type(*rest, name);
                match satisfy::pinned_type(&*rest, name) {
                    Some(index) => {
                        let i = choose|i: nat|
                            {
                                &&& (#[trigger] rest.at(i)) matches Some(clause) && pins(
                                    clause,
                                    name,
                                    index,
                                )
                                &&& forall|j: nat|
                                    j < i ==> ((#[trigger] rest.at(j)) matches Some(earlier) && !(
                                    earlier.name.inner == name && earlier.rhs is Equals))
                            };
                        assert(clauses.at(i + 1) == rest.at(i));
                        assert forall|j: nat| j < i + 1 implies ((#[trigger] clauses.at(
                            j,
                        )) matches Some(earlier) && !(earlier.name.inner == name && earlier.rhs
                            is Equals)) by {
                            if j > 0 {
                                assert(rest.at((j - 1) as nat) == clauses.at(j));
                            }
                        }
                    },
                    None => {
                        assert forall|i: nat| (#[trigger] clauses.at(i)) is Some implies !(
                        clauses.at(i)->0.name.inner == name && clauses.at(i)->0.rhs is Equals) by {
                            if i > 0 {
                                assert(rest.at((i - 1) as nat) == clauses.at(i));
                            }
                        }
                    },
                }
            }
        },
    }
}

proof fn one_more(found: List<Diagnostic>, added: Diagnostic)
    ensures
        found.push(added).count() == found.count() + 1,
    decreases found,
{
    match found {
        List::Nil => {},
        List::Cons(_, rest) => {
            one_more(*rest, added);
        },
    }
}

// ---------------------------------------------------------------- written bounds

proof fn written_bounds_keep<'ast>(
    s: State<'ast>,
    origin: BoundOrigin,
    value: Subject,
    traits: List<TraitBound>,
    self_ty: TypeIndex,
    found: List<Diagnostic>,
)
    ensures
        s.check_written_bounds(origin, value, &traits, self_ty, found).1.count() >= found.count(),
    decreases traits, 0int,
{
    match traits {
        List::Nil => {},
        List::Cons(bound, rest) => {
            if s.type_implements_trait(value.ty, bound.trait_index) {
                written_clauses_keep(
                    s,
                    origin,
                    value,
                    bound.trait_index,
                    bound.span,
                    bound.bindings,
                    self_ty,
                    found,
                );
                let (t, more) = s.check_written_bindings(
                    origin,
                    value,
                    bound.trait_index,
                    bound.span,
                    &bound.bindings,
                    self_ty,
                    found,
                );
                written_bounds_keep(t, origin, value, *rest, self_ty, more);
            } else {
                let missing = s.missing_trait(origin, value, bound.trait_index, bound.span);
                one_more(found, missing);
                written_bounds_keep(s, origin, value, *rest, self_ty, found.push(missing));
            }
        },
    }
}

proof fn written_clauses_keep<'ast>(
    s: State<'ast>,
    origin: BoundOrigin,
    value: Subject,
    trait_index: usize,
    bound_span: TextSpan,
    clauses: List<AssocBinding>,
    self_ty: TypeIndex,
    found: List<Diagnostic>,
)
    ensures
        s.check_written_bindings(
            origin,
            value,
            trait_index,
            bound_span,
            &clauses,
            self_ty,
            found,
        ).1.count() >= found.count(),
    decreases clauses, 1int,
{
    match clauses {
        List::Nil => {},
        List::Cons(clause, rest) => {
            let (t, actual) = s.concrete_assoc_type_value(
                value.ty,
                trait_index,
                clause.name.inner,
            );
            let (u, more) = match actual {
                Some(given) => {
                    t.check_written_binding(
                        origin,
                        value,
                        given,
                        bound_span,
                        &*clause,
                        self_ty,
                        found,
                    )
                },
                None => (t, found),
            };
            match actual {
                Some(given) => {
                    written_clause_keeps(
                        t,
                        origin,
                        value,
                        given,
                        bound_span,
                        *clause,
                        self_ty,
                        found,
                    );
                },
                None => {},
            }
            written_clauses_keep(
                u,
                origin,
                value,
                trait_index,
                bound_span,
                *rest,
                self_ty,
                more,
            );
        },
    }
}

proof fn written_clause_keeps<'ast>(
    s: State<'ast>,
    origin: BoundOrigin,
    value: Subject,
    actual: TypeIndex,
    bound_span: TextSpan,
    clause: AssocBinding,
    self_ty: TypeIndex,
    found: List<Diagnostic>,
)
    ensures
        s.check_written_binding(
            origin,
            value,
            actual,
            bound_span,
            &clause,
            self_ty,
            found,
        ).1.count() >= found.count(),
    decreases clause, 0int,
{
    if actual != ty::ERROR {
        match clause.rhs {
            AssocBindingKind::Equals(rhs) => {
                let (t, expected) = s.substituted(
                    rhs,
                    crate::list::single(self_ty),
                    crate::relate::MAX_DEPTH,
                );
                one_more(
                    found,
                    t.equals_mismatch(
                        origin,
                        value,
                        clause.name.inner,
                        expected,
                        actual,
                        bound_span,
                    ),
                );
            },
            AssocBindingKind::Bound(required) => {
                written_bounds_keep(
                    s,
                    origin,
                    value.with_type(actual),
                    required.traits,
                    self_ty,
                    found,
                );
            },
        }
    }
}

/// A value that does not implement the first trait of written bounds violates
/// them.
pub proof fn law_value_without_the_trait<'ast>(
    s: State<'ast>,
    origin: BoundOrigin,
    value: Subject,
    bound: TraitBound,
    rest: List<TraitBound>,
    self_ty: TypeIndex,
    found: List<Diagnostic>,
)
    requires
        !s.type_implements_trait(value.ty, bound.trait_index),
    ensures
        s.check_written_bounds(
            origin,
            value,
            &crate::list::cons(bound, rest),
            self_ty,
            found,
        ).1.count() > found.count(),
{
    let missing = s.missing_trait(origin, value, bound.trait_index, bound.span);
    one_more(found, missing);
    written_bounds_keep(s, origin, value, rest, self_ty, found.push(missing));
}

/// A value of an associated type that is another one than a written clause
/// says violates it, and the same one does not.
pub proof fn law_value_against_a_written_clause<'ast>(
    s: State<'ast>,
    origin: BoundOrigin,
    value: Subject,
    actual: TypeIndex,
    bound_span: TextSpan,
    clause: AssocBinding,
    self_ty: TypeIndex,
    found: List<Diagnostic>,
)
    requires
        clause.rhs is Equals,
        actual != ty::ERROR,
    ensures
        ({
            let expected = s.substituted(
                clause.rhs->Equals_0,
                crate::list::single(self_ty),
                crate::relate::MAX_DEPTH,
            ).1;
            let (_, all) = s.check_written_binding(
                origin,
                value,
                actual,
                bound_span,
                &clause,
                self_ty,
                found,
            );
            &&& expected == actual || expected == ty::ERROR ==> all == found
            &&& expected != actual && expected != ty::ERROR ==> all.count() == found.count() + 1
        }),
{
    let (t, expected) = s.substituted(
        clause.rhs->Equals_0,
        crate::list::single(self_ty),
        crate::relate::MAX_DEPTH,
    );
    one_more(
        found,
        t.equals_mismatch(origin, value, clause.name.inner, expected, actual, bound_span),
    );
}

// ---------------------------------------------------------------- bounds of a site

proof fn declared_bounds_keep<'ast>(
    s: State<'ast>,
    trait_index: usize,
    name: Symbol,
    value: Subject,
    self_ty: TypeIndex,
    found: List<Diagnostic>,
)
    ensures
        s.check_declared_bounds(trait_index, name, value, self_ty, found).1.count()
            >= found.count(),
{
    reveal(State::check_declared_bounds);
    match s.assoc_type_bounds(trait_index, name) {
        Some(bounds) => {
            written_bounds_keep(
                s,
                BoundOrigin::TraitAssocType { trait_index, name },
                value,
                bounds.traits,
                self_ty,
                found,
            );
        },
        None => {},
    }
}

/// What a clause says an associated type is, and what the type is known to
/// be, must not contradict each other: if they do, that is a violation.
pub proof fn law_contradicted_clause<'ast>(
    s: State<'ast>,
    origin: BoundOrigin,
    type_args: List<TypeIndex>,
    subject: Subject,
    trait_index: usize,
    bound_span: TextSpan,
    name: Symbol,
    written: Subject,
    actual: Option<TypeIndex>,
    enclosing_self: TypeIndex,
    found: List<Diagnostic>,
)
    ensures
        ({
            let (u, expected) = s.expected_assoc_value(written.ty, &type_args, enclosing_self);
            let (v, _) = u.check_declared_bounds(
                trait_index,
                name,
                written.with_type(expected),
                subject.ty,
                found,
            );
            let (_, all) = s.check_equality(
                origin,
                &type_args,
                subject,
                trait_index,
                bound_span,
                name,
                written,
                actual,
                enclosing_self,
                found,
            );
            &&& written.ty == ty::ERROR ==> all == found
            &&& written.ty != ty::ERROR && v.contradicts(expected, actual) ==> all.count()
                > found.count()
            &&& all.count() >= found.count()
        }),
{
    reveal(State::check_equality);
    let (u, expected) = s.expected_assoc_value(written.ty, &type_args, enclosing_self);
    declared_bounds_keep(
        u,
        trait_index,
        name,
        written.with_type(expected),
        subject.ty,
        found,
    );
    let (v, more) = u.check_declared_bounds(
        trait_index,
        name,
        written.with_type(expected),
        subject.ty,
        found,
    );
    match actual {
        Some(value) => {
            one_more(
                more,
                v.equals_mismatch(origin, subject, name, expected, value, bound_span),
            );
        },
        None => {},
    }
}

proof fn each_trait_keeps<'ast>(
    s: State<'ast>,
    origin: BoundOrigin,
    type_args: List<TypeIndex>,
    subject: Subject,
    traits: List<TraitBound>,
    enclosing_self: TypeIndex,
    found: List<Diagnostic>,
)
    ensures
        s.check_each_trait(
            origin,
            &type_args,
            subject,
            &traits,
            enclosing_self,
            found,
        ).1.count() >= found.count(),
    decreases traits, 0int,
{
    match traits {
        List::Nil => {},
        List::Cons(bound, rest) => {
            if s.type_implements_trait(subject.ty, bound.trait_index) {
                clauses_keep(
                    s,
                    origin,
                    type_args,
                    subject,
                    bound.trait_index,
                    bound.span,
                    bound.bindings,
                    enclosing_self,
                    found,
                );
                let (t, more) = s.check_bindings(
                    origin,
                    &type_args,
                    subject,
                    bound.trait_index,
                    bound.span,
                    &bound.bindings,
                    enclosing_self,
                    found,
                );
                each_trait_keeps(t, origin, type_args, subject, *rest, enclosing_self, more);
            } else {
                let missing = s.missing_trait(origin, subject, bound.trait_index, bound.span);
                one_more(found, missing);
                each_trait_keeps(
                    s,
                    origin,
                    type_args,
                    subject,
                    *rest,
                    enclosing_self,
                    found.push(missing),
                );
            }
        },
    }
}

proof fn clauses_keep<'ast>(
    s: State<'ast>,
    origin: BoundOrigin,
    type_args: List<TypeIndex>,
    subject: Subject,
    trait_index: usize,
    bound_span: TextSpan,
    clauses: List<AssocBinding>,
    enclosing_self: TypeIndex,
    found: List<Diagnostic>,
)
    ensures
        s.check_bindings(
            origin,
            &type_args,
            subject,
            trait_index,
            bound_span,
            &clauses,
            enclosing_self,
            found,
        ).1.count() >= found.count(),
    decreases clauses, 1int,
{
    match clauses {
        List::Nil => {},
        List::Cons(clause, rest) => {
            let (t, actual) = s.known_assoc_value(subject.ty, trait_index, clause.name.inner);
            clause_keeps(
                t,
                origin,
                type_args,
                subject,
                trait_index,
                bound_span,
                *clause,
                actual,
                enclosing_self,
                found,
            );
            let (u, more) = t.check_binding(
                origin,
                &type_args,
                subject,
                trait_index,
                bound_span,
                &*clause,
                actual,
                enclosing_self,
                found,
            );
            clauses_keep(
                u,
                origin,
                type_args,
                subject,
                trait_index,
                bound_span,
                *rest,
                enclosing_self,
                more,
            );
        },
    }
}

proof fn clause_keeps<'ast>(
    s: State<'ast>,
    origin: BoundOrigin,
    type_args: List<TypeIndex>,
    subject: Subject,
    trait_index: usize,
    bound_span: TextSpan,
    clause: AssocBinding,
    actual: Option<TypeIndex>,
    enclosing_self: TypeIndex,
    found: List<Diagnostic>,
)
    ensures
        s.check_binding(
            origin,
            &type_args,
            subject,
            trait_index,
            bound_span,
            &clause,
            actual,
            enclosing_self,
            found,
        ).1.count() >= found.count(),
    decreases clause, 0int,
{
    match clause.rhs {
        AssocBindingKind::Equals(rhs) => {
            law_contradicted_clause(
                s,
                origin,
                type_args,
                subject,
                trait_index,
                bound_span,
                clause.name.inner,
                Subject::new(SourceSpan::new(clause.file_id, clause.rhs_span), rhs),
                actual,
                enclosing_self,
                found,
            );
        },
        AssocBindingKind::Bound(required) => {
            if !(required.traits is Nil) {
                let (t, value) = match actual {
                    Some(value) => (s, value),
                    None => s.intern(
                        Type::AssocTypeProjection {
                            base: subject.ty,
                            assoc_name: clause.name.inner,
                            trait_index,
                        },
                    ),
                };
                if value != ty::ERROR {
                    each_trait_keeps(
                        t,
                        origin,
                        type_args,
                        subject.with_type(value),
                        required.traits,
                        subject.ty,
                        found,
                    );
                }
            }
        },
    }
}

/// A subject that does not implement the first trait of bounds violates them,
/// whatever comes after it.
pub proof fn law_subject_without_the_trait<'ast>(
    s: State<'ast>,
    origin: BoundOrigin,
    type_args: List<TypeIndex>,
    subject: Subject,
    bound: TraitBound,
    rest: List<TraitBound>,
    enclosing_self: TypeIndex,
    found: List<Diagnostic>,
)
    requires
        subject.ty != ty::ERROR,
        !s.type_implements_trait(subject.ty, bound.trait_index),
    ensures
        s.check_inner(
            origin,
            &type_args,
            subject,
            &crate::list::cons(bound, rest),
            enclosing_self,
            found,
        ).1.count() > found.count(),
{
    let missing = s.missing_trait(origin, subject, bound.trait_index, bound.span);
    one_more(found, missing);
    each_trait_keeps(
        s,
        origin,
        type_args,
        subject,
        rest,
        enclosing_self,
        found.push(missing),
    );
}

/// Bounds without clauses are violated exactly by a subject that does not
/// implement one of the traits; a violation is found for each such trait.
pub proof fn law_plain_bounds_are_violated<'ast>(
    s: State<'ast>,
    origin: BoundOrigin,
    type_args: List<TypeIndex>,
    subject: Subject,
    traits: List<TraitBound>,
    enclosing_self: TypeIndex,
    found: List<Diagnostic>,
)
    requires
        forall|i: nat| (#[trigger] traits.at(i)) matches Some(bound) ==> bound.bindings is Nil,
    ensures
        ({
            let (t, all) = s.check_each_trait(
                origin,
                &type_args,
                subject,
                &traits,
                enclosing_self,
                found,
            );
            let met = forall|i: nat|
                (#[trigger] traits.at(i)) matches Some(bound) ==> s.type_implements_trait(
                    subject.ty,
                    bound.trait_index,
                );
            &&& t == s
            &&& met ==> all == found
            &&& !met ==> all.count() > found.count()
            &&& all.count() >= found.count()
        }),
    decreases traits,
{
    reveal_with_fuel(State::check_each_trait, 2);
    reveal_with_fuel(State::check_bindings, 2);
    match traits {
        List::Nil => {},
        List::Cons(bound, rest) => {
            assert(traits.at(0) == Some(*bound));
            assert(bound.bindings is Nil);
            assert forall|i: nat| #[trigger] rest.at(i) == traits.at(i + 1) by {}
            let missing = s.missing_trait(origin, subject, bound.trait_index, bound.span);
            one_more(found, missing);
            let implements = s.type_implements_trait(subject.ty, bound.trait_index);
            let more = if implements {
                found
            } else {
                found.push(missing)
            };
            law_plain_bounds_are_violated(
                s,
                origin,
                type_args,
                subject,
                *rest,
                enclosing_self,
                more,
            );
            if implements {
                if forall|i: nat|
                    (#[trigger] rest.at(i)) matches Some(other) ==> s.type_implements_trait(
                        subject.ty,
                        other.trait_index,
                    ) {
                    assert forall|i: nat| (#[trigger] traits.at(i)) is Some implies s.type_implements_trait(
                        subject.ty,
                        traits.at(i)->0.trait_index,
                    ) by {
                        if i > 0 {
                            assert(rest.at((i - 1) as nat) == traits.at(i));
                        }
                    }
                } else {
                    let i = choose|i: nat|
                        !((#[trigger] rest.at(i)) matches Some(other) ==> s.type_implements_trait(
                            subject.ty,
                            other.trait_index,
                        ));
                    assert(traits.at(i + 1) == rest.at(i));
                }
            }
        },
    }
}

/// The bounds at issue are those that the declaration has: of the type
/// parameter at the position, or of the associated type of the trait.
pub proof fn law_bounds_of_an_origin<'ast>(s: State<'ast>, owner: TypeParamOwner, index: usize)
    ensures
        s.origin_bounds(BoundOrigin::TypeParam { owner, index }) == (match declared_param(
            s,
            owner,
            index,
        ) {
            Some(declared) => Some(declared.bounds),
            None => None,
        }),
{
    law_type_parameter_is_where_it_is_declared(s, owner, index);
}

} // verus!
