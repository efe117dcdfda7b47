//! `where` clauses: what is written of the parameters and associated types is
//! kept, and a type that does not meet a clause is reported.

use vstd::prelude::*;

use crate::failures::more_is_reported;
use crate::list;
use crate::list::List;
use crate::lookup::{with_binding, with_param_bounds};
use crate::rules::bounds::{
    answers_agree, declared_params, first_bound_and_rest, implements_all, names_trait,
    reports_change_no_answer, reports_change_no_implementation, same_but_reports,
};
use crate::signatures::supertrait_binding_put;
use crate::span::{FileId, SourceSpan, Symbol, TextSpan};
use crate::state::State;
use crate::tir::{
    AccessTarget, AssocBinding, AssocBindingKind, Bounds, SupertraitBinding, TraitBound,
    TypeParamInfo,
};
use crate::types::{TypeIndex, TypeParamOwner};

verus! {

// ---------------------------------------------------------------- declared bounds

proof fn replaced_reads_back<T>(elements: List<T>, index: nat, value: T)
    ensures
        elements.replaced(index, value).count() == elements.count(),
        elements.at(index) is Some ==> elements.replaced(index, value).at(index) == Some(value),
        forall|i: nat|
            i != index ==> #[trigger] elements.replaced(index, value).at(i) == elements.at(i),
    decreases elements,
{
    match elements {
        List::Nil => {},
        List::Cons(_, tail) => {
            if index > 0 {
                replaced_reads_back(*tail, (index - 1) as nat, value);
                assert forall|i: nat| i != index implies #[trigger] elements.replaced(
                    index,
                    value,
                ).at(i) == elements.at(i) by {
                    if i > 0 {
                        assert(elements.replaced(index, value).at(i) == tail.replaced(
                            (index - 1) as nat,
                            value,
                        ).at((i - 1) as nat));
                    }
                }
            }
        },
    }
}

/// Bounds that are set on a type parameter of a list are on that parameter
/// and on no other; its name stays.
pub proof fn law_bounds_on_one_parameter(
    params: List<TypeParamInfo>,
    index: usize,
    bounds: Bounds,
)
    ensures
        ({
            let set = with_param_bounds(params, index, bounds);
            &&& set.count() == params.count()
            &&& params.at(index as nat) matches Some(info) ==> set.at(index as nat) == Some(
                TypeParamInfo { bounds, ..info },
            )
            &&& forall|i: nat| i != index ==> #[trigger] set.at(i) == params.at(i)
        }),
{
    match params.at(index as nat) {
        Some(info) => {
            replaced_reads_back(params, index as nat, TypeParamInfo { bounds, ..info });
        },
        None => {},
    }
}

/// The bounds that are set on a parameter that an owner declares are its
/// bounds afterwards; its other parameters keep theirs.
pub proof fn law_set_bounds_read_back<'ast>(
    s: State<'ast>,
    owner: TypeParamOwner,
    index: usize,
    bounds: Bounds,
)
    ensures
        ({
            let before = declared_params(s, owner);
            let after = declared_params(s.set_own_param_bounds(owner, index, bounds), owner);
            &&& after.count() == before.count()
            &&& before.at(index as nat) matches Some(info) ==> after.at(index as nat) == Some(
                TypeParamInfo { bounds, ..info },
            )
            &&& forall|i: nat| i != index ==> #[trigger] after.at(i) == before.at(i)
        }),
{
    reveal(State::set_inherent_impl_type_params);
    reveal(State::set_function_type_params);
    reveal(State::set_struct_type_params);
    reveal(State::set_trait_self_type_param);
    reveal(State::set_trait_impl_type_params);
    reveal(State::set_type_alias_type_params);
    reveal_with_fuel(List::at, 2);
    law_bounds_on_one_parameter(declared_params(s, owner), index, bounds);
}

// ---------------------------------------------------------------- lists of clauses

/// Whether a list holds a clause.
pub open spec fn holds_clause(bindings: List<AssocBinding>, binding: AssocBinding) -> bool {
    exists|i: nat| #[trigger] bindings.at(i) == Some(binding)
}

/// Whether clauses are ordered by the names of the associated types.
pub open spec fn in_order_of_names(bindings: List<AssocBinding>) -> bool {
    forall|i: nat, j: nat|
        i < j && (#[trigger] bindings.at(i)) is Some && (#[trigger] bindings.at(j)) is Some
            ==> bindings.at(i)->0.name.inner <= bindings.at(j)->0.name.inner
}

/// A clause that is put among others is there with them, and the clauses stay
/// ordered by name.
pub proof fn law_clause_that_is_put(
    bindings: List<AssocBinding>,
    binding: AssocBinding,
    other: AssocBinding,
)
    ensures
        holds_clause(with_binding(bindings, binding), other) <==> other == binding || holds_clause(
            bindings,
            other,
        ),
        with_binding(bindings, binding).count() == bindings.count() + 1,
        in_order_of_names(bindings) ==> in_order_of_names(with_binding(bindings, binding)),
    decreases bindings,
{
    let all = with_binding(bindings, binding);
    match bindings {
        List::Nil => {
            assert(all.at(0) == Some(binding));
            assert forall|i: nat| (#[trigger] all.at(i)) is Some implies i == 0 by {
                reveal_with_fuel(List::at, 2);
            }
        },
        List::Cons(head, rest) => {
            if binding.name.inner < head.name.inner {
                assert(all.at(0) == Some(binding));
                assert forall|i: nat| i > 0 implies #[trigger] all.at(i) == bindings.at(
                    (i - 1) as nat,
                ) by {}
                if holds_clause(bindings, other) {
                    let i = choose|i: nat| #[trigger] bindings.at(i) == Some(other);
                    assert(all.at(i + 1) == bindings.at(i));
                }
                if in_order_of_names(bindings) {
                    assert(bindings.at(0) == Some(*head));
                }
            } else {
                law_clause_that_is_put(*rest, binding, other);
                let put = with_binding(*rest, binding);
                assert(all.at(0) == Some(*head));
                assert(bindings.at(0) == Some(*head));
                assert forall|i: nat| i > 0 implies #[trigger] all.at(i) == put.at(
                    (i - 1) as nat,
                ) by {}
                assert forall|i: nat| i > 0 implies #[trigger] bindings.at(i) == rest.at(
                    (i - 1) as nat,
                ) by {}
                if holds_clause(put, other) {
                    let i = choose|i: nat| #[trigger] put.at(i) == Some(other);
                    assert(all.at(i + 1) == put.at(i));
                }
                if holds_clause(*rest, other) {
                    let i = choose|i: nat| #[trigger] rest.at(i) == Some(other);
                    assert(bindings.at(i + 1) == rest.at(i));
                }
                if in_order_of_names(bindings) {
                    assert forall|i: nat, j: nat|
                        i < j && (#[trigger] rest.at(i)) is Some && (#[trigger] rest.at(
                            j,
                        )) is Some implies rest.at(i)->0.name.inner <= rest.at(
                        j,
                    )->0.name.inner by {
                        assert(bindings.at(i + 1) == rest.at(i));
                        assert(bindings.at(j + 1) == rest.at(j));
                    }
                    assert forall|j: nat| (#[trigger] put.at(j)) is Some implies head.name.inner
                        <= put.at(j)->0.name.inner by {
                        let found = put.at(j)->0;
                        law_clause_that_is_put(*rest, binding, found);
                        assert(holds_clause(put, found));
                        if found != binding {
                            let i = choose|i: nat| #[trigger] rest.at(i) == Some(found);
                            assert(bindings.at(i + 1) == rest.at(i));
                        }
                    }
                    assert forall|i: nat, j: nat|
                        i < j && (#[trigger] all.at(i)) is Some && (#[trigger] all.at(
                            j,
                        )) is Some implies all.at(i)->0.name.inner <= all.at(
                        j,
                    )->0.name.inner by {
                        assert(all.at(j) == put.at((j - 1) as nat));
                        if i > 0 {
                            assert(all.at(i) == put.at((i - 1) as nat));
                        }
                    }
                }
            }
        },
    }
}

/// Whether a value is given to an associated type of a supertrait.
pub open spec fn gives(bindings: List<SupertraitBinding>, binding: SupertraitBinding) -> bool {
    exists|i: nat| #[trigger] bindings.at(i) == Some(binding)
}

/// The value that a trait gives to an associated type of a supertrait is kept;
/// the values of other associated types stay.
pub proof fn law_supertrait_value_that_is_put(
    bindings: List<SupertraitBinding>,
    binding: SupertraitBinding,
    other: SupertraitBinding,
)
    ensures
        gives(supertrait_binding_put(bindings, binding), binding),
        other.trait_index != binding.trait_index || other.name != binding.name ==> (gives(
            supertrait_binding_put(bindings, binding),
            other,
        ) <==> gives(bindings, other)),
    decreases bindings,
{
    let all = supertrait_binding_put(bindings, binding);
    let differs = other.trait_index != binding.trait_index || other.name != binding.name;
    match bindings {
        List::Nil => {
            assert(all.at(0) == Some(binding));
            assert forall|i: nat| (#[trigger] all.at(i)) is Some implies i == 0 by {
                reveal_with_fuel(List::at, 2);
            }
        },
        List::Cons(head, rest) => {
            assert forall|i: nat| i > 0 implies #[trigger] bindings.at(i) == rest.at(
                (i - 1) as nat,
            ) by {}
            assert(bindings.at(0) == Some(*head));
            if head.trait_index == binding.trait_index && head.name == binding.name {
                assert(all.at(0) == Some(binding));
                assert forall|i: nat| i > 0 implies #[trigger] all.at(i) == bindings.at(i) by {}
                if differs && gives(bindings, other) {
                    let i = choose|i: nat| #[trigger] bindings.at(i) == Some(other);
                    assert(all.at(i) == Some(other));
                }
            } else {
                law_supertrait_value_that_is_put(*rest, binding, other);
                let put = supertrait_binding_put(*rest, binding);
                assert(all.at(0) == Some(*head));
                assert forall|i: nat| i > 0 implies #[trigger] all.at(i) == put.at(
                    (i - 1) as nat,
                ) by {}
                let at = choose|i: nat| #[trigger] put.at(i) == Some(binding);
                assert(all.at(at + 1) == put.at(at));
                if differs && gives(bindings, other) {
                    let i = choose|i: nat| #[trigger] bindings.at(i) == Some(other);
                    if i == 0 {
                        assert(all.at(0) == Some(other));
                    } else {
                        assert(rest.at((i - 1) as nat) == Some(other));
                        assert(gives(*rest, other));
                        let j = choose|j: nat| #[trigger] put.at(j) == Some(other);
                        assert(all.at(j + 1) == put.at(j));
                    }
                }
                if differs && gives(all, other) {
                    let i = choose|i: nat| #[trigger] all.at(i) == Some(other);
                    if i == 0 {
                        assert(bindings.at(0) == Some(other));
                    } else {
                        assert(put.at((i - 1) as nat) == Some(other));
                        assert(gives(put, other));
                        let j = choose|j: nat| #[trigger] rest.at(j) == Some(other);
                        assert(bindings.at(j + 1) == rest.at(j));
                    }
                }
            }
        },
    }
}

/// A use of an associated type is recorded where the trait declares it, and
/// nowhere else.
pub proof fn law_use_of_an_associated_type<'ast>(
    s: State<'ast>,
    trait_index: usize,
    name: Symbol,
    span: SourceSpan,
)
    ensures
        ({
            let t = s.record_assoc_type_access(trait_index, name, span);
            let declared = trait_index < s.traits.len() && crate::params::assoc_type_named(
                s.traits[trait_index as int].assoc_types,
                name,
            ) is Some;
            &&& declared ==> t.is_accessed(AccessTarget::TraitAssocType(trait_index, name))
            &&& !declared ==> t == s
        }),
{
    reveal(State::record_assoc_type_access);
    crate::laws::law_use_is_recorded(
        s,
        AccessTarget::TraitAssocType(trait_index, name),
        span,
        AccessTarget::TraitAssocType(trait_index, name),
    );
}

// ---------------------------------------------------------------- clauses of a call

proof fn asked_traits<'ast>(
    s: State<'ast>,
    func_index: usize,
    required: List<TraitBound>,
    concrete: TypeIndex,
    name: Symbol,
    bound_span: TextSpan,
    call: SourceSpan,
)
    ensures
        ({
            let t = s.check_assoc_traits(func_index, &required, concrete, name, bound_span, call);
            &&& same_but_reports(s, t)
            &&& implements_all(s, concrete, required) ==> t == s
            &&& !implements_all(s, concrete, required) ==> more_is_reported(s, t)
            &&& s.diagnostics.len() <= t.diagnostics.len()
        }),
    decreases required,
{
    reveal(State::report);
    match required {
        List::Nil => {
            assert forall|trait_index: usize| names_trait(required, trait_index) implies #[trigger]
                s.type_implements_trait(concrete, trait_index) by {
                crate::rules::bounds::law_bound_is_found(required, trait_index);
            }
        },
        List::Cons(head, tail) => {
            first_bound_and_rest(s, concrete, *head, *tail);
            assert(required == list::cons(*head, *tail));
            let (function_name, function_file, _) = s.function_identity(func_index);
            let between = if !s.type_implements_trait(concrete, head.trait_index) {
                s.report(
                    crate::reports::report_assoc_trait_violation(
                        concrete,
                        s.trait_name(head.trait_index),
                        name,
                        call,
                        SourceSpan::new(function_file, bound_span),
                        function_name,
                    ),
                )
            } else {
                s
            };
            reports_change_no_answer(s, between, concrete);
            asked_traits(between, func_index, *tail, concrete, name, bound_span, call);
            reports_change_no_implementation(s, between, concrete, *tail);
        },
    }
}

/// Whether a type implements the traits and is a member of the typeset that
/// bounds name.
pub open spec fn meets<'ast>(s: State<'ast>, index: TypeIndex, bounds: Bounds) -> bool {
    &&& implements_all(s, index, bounds.traits)
    &&& bounds.typeset matches Some(typeset) ==> s.in_typeset(index, typeset)
}

/// The value of an associated type is reported exactly where it does not meet
/// what a clause asks of it.
pub proof fn law_value_that_a_clause_asks_of<'ast>(
    s: State<'ast>,
    func_index: usize,
    required: Bounds,
    concrete: TypeIndex,
    name: Symbol,
    bound_span: TextSpan,
    call: SourceSpan,
)
    ensures
        ({
            let t = s.check_assoc_bounds(func_index, &required, concrete, name, bound_span, call);
            &&& same_but_reports(s, t)
            &&& meets(s, concrete, required) ==> t == s
            &&& !meets(s, concrete, required) ==> more_is_reported(s, t)
        }),
{
    reveal(State::check_assoc_bounds);
    reveal(State::report);
    asked_traits(s, func_index, required.traits, concrete, name, bound_span, call);
    let between = s.check_assoc_traits(
        func_index,
        &required.traits,
        concrete,
        name,
        bound_span,
        call,
    );
    reports_change_no_answer(s, between, concrete);
}

/// A type argument whose associated type has a value that does not meet the
/// first clause on it is reported; so is one that the later clauses report.
pub proof fn law_clauses_on_an_argument<'ast>(
    s: State<'ast>,
    func_index: usize,
    binding: AssocBinding,
    rest: List<AssocBinding>,
    trait_index: usize,
    bound_span: TextSpan,
    argument: TypeIndex,
    call: SourceSpan,
)
    ensures
        ({
            let t = s.check_bound_bindings(
                func_index,
                &list::cons(binding, rest),
                trait_index,
                bound_span,
                argument,
                call,
            );
            let later = s.check_bound_bindings(
                func_index,
                &rest,
                trait_index,
                bound_span,
                argument,
                call,
            );
            match binding.rhs {
                AssocBindingKind::Bound(required) => {
                    let (s1, value) = s.concrete_assoc_type_value(
                        argument,
                        trait_index,
                        binding.name.inner,
                    );
                    (value matches Some(concrete) && !meets(s1, concrete, required))
                        ==> more_is_reported(s, t)
                },
                AssocBindingKind::Equals(_) => t == later,
            }
        }),
{
    let all = list::cons(binding, rest);
    match binding.rhs {
        AssocBindingKind::Bound(required) => {
            s.adds_concrete_assoc_type_value(argument, trait_index, binding.name.inner);
            let (s1, value) = s.concrete_assoc_type_value(
                argument,
                trait_index,
                binding.name.inner,
            );
            match value {
                Some(concrete) => {
                    law_value_that_a_clause_asks_of(
                        s1,
                        func_index,
                        required,
                        concrete,
                        binding.name.inner,
                        bound_span,
                        call,
                    );
                    let s2 = s1.check_assoc_bounds(
                        func_index,
                        &required,
                        concrete,
                        binding.name.inner,
                        bound_span,
                        call,
                    );
                    s2.adds_check_bound_bindings(
                        func_index,
                        &rest,
                        trait_index,
                        bound_span,
                        argument,
                        call,
                    );
                },
                None => {},
            }
        },
        AssocBindingKind::Equals(_) => {},
    }
    reveal(State::only_adds);
    reveal(State::grows_to);
}

// ---------------------------------------------------------------- values in impls

/// Whether an impl of every trait that bounds name exists for a type.
pub open spec fn has_impls<'ast>(
    s: State<'ast>,
    index: TypeIndex,
    bounds: List<TraitBound>,
) -> bool {
    forall|i: nat|
        (#[trigger] bounds.at(i)) is Some ==> s.trait_impl_for(
            index,
            bounds.at(i)->0.trait_index,
        ) is Some
}

proof fn owed_impls<'ast>(
    s: State<'ast>,
    traits: List<TraitBound>,
    name: Symbol,
    concrete: TypeIndex,
    span: SourceSpan,
)
    ensures
        ({
            let t = s.check_assoc_type_traits(&traits, name, concrete, span);
            &&& same_but_reports(s, t)
            &&& has_impls(s, concrete, traits) ==> t == s
            &&& !has_impls(s, concrete, traits) ==> more_is_reported(s, t)
            &&& s.diagnostics.len() <= t.diagnostics.len()
        }),
    decreases traits,
{
    reveal(State::report);
    match traits {
        List::Nil => {},
        List::Cons(head, tail) => {
            let between = if s.trait_impl_for(concrete, head.trait_index).is_none() {
                s.report(
                    crate::reports::report_assoc_type_must_implement(
                        name,
                        s.trait_name(head.trait_index),
                        concrete,
                        span,
                    ),
                )
            } else {
                s
            };
            owed_impls(between, *tail, name, concrete, span);
            assert(traits.at(0) == Some(*head));
            assert forall|i: nat| i > 0 implies #[trigger] traits.at(i) == tail.at(
                (i - 1) as nat,
            ) by {}
            assert forall|trait_index: usize|
                s.trait_impl_for(concrete, trait_index) == #[trigger] between.trait_impl_for(
                    concrete,
                    trait_index,
                ) by {
                answers_agree(s, between, concrete, trait_index);
            }
            if has_impls(s, concrete, traits) {
                assert forall|i: nat| (#[trigger] tail.at(i)) is Some implies s.trait_impl_for(
                    concrete,
                    tail.at(i)->0.trait_index,
                ) is Some by {
                    assert(traits.at(i + 1) == tail.at(i));
                }
            }
        },
    }
}

/// The value that an impl gives an associated type is reported exactly where
/// it does not meet what the trait declares for it.
pub proof fn law_value_of_a_declared_associated_type<'ast>(
    s: State<'ast>,
    file_id: FileId,
    trait_index: usize,
    name: Symbol,
    concrete: TypeIndex,
    span: TextSpan,
)
    ensures
        ({
            let t = s.check_assoc_type_bounds(file_id, trait_index, name, concrete, span);
            let declared = if trait_index < s.traits.len() {
                crate::params::assoc_type_named(s.traits[trait_index as int].assoc_types, name)
            } else {
                None
            };
            let met = declared matches Some(info) ==> {
                &&& has_impls(s, concrete, info.bounds.traits)
                &&& info.bounds.typeset matches Some(typeset) ==> typeset < s.typesets.len()
                    && crate::rules::bounds::holds_type(
                    s.typesets[typeset as int].members,
                    concrete,
                )
            };
            &&& same_but_reports(s, t)
            &&& met ==> t == s
            &&& !met ==> more_is_reported(s, t)
        }),
{
    reveal(State::check_assoc_type_bounds);
    reveal(State::report);
    match s.assoc_type_bounds(trait_index, name) {
        Some(bounds) => {
            let at = SourceSpan::new(file_id, span);
            owed_impls(s, bounds.traits, name, concrete, at);
            let between = s.check_assoc_type_traits(&bounds.traits, name, concrete, at);
            assert(between.typesets == s.typesets);
            match bounds.typeset {
                Some(typeset) => {
                    if typeset < s.typesets.len() {
                        crate::rules::bounds::law_type_is_found(
                            s.typesets[typeset as int].members,
                            concrete,
                        );
                    }
                },
                None => {},
            }
        },
        None => {},
    }
}

/// A trait that gives an associated type of a supertrait a value which does
/// not meet what the supertrait declares for it is reported, and the value is
/// collected.
pub proof fn law_value_for_a_supertrait<'ast>(
    s: State<'ast>,
    file_id: FileId,
    trait_index: usize,
    binding: AssocBinding,
    rest: List<AssocBinding>,
    span: TextSpan,
    collected: List<SupertraitBinding>,
)
    ensures
        ({
            let all = list::cons(binding, rest);
            let t = s.check_supertrait_bindings(file_id, trait_index, &all, span, collected).0;
            binding.rhs matches AssocBindingKind::Equals(value) ==> (more_is_reported(
                s,
                s.check_assoc_type_bounds(file_id, trait_index, binding.name.inner, value, span),
            ) ==> more_is_reported(s, t))
        }),
        ({
            let only = list::single(binding);
            let kept = s.check_supertrait_bindings(
                file_id,
                trait_index,
                &only,
                span,
                collected,
            ).1;
            match binding.rhs {
                AssocBindingKind::Equals(value) => gives(
                    kept,
                    SupertraitBinding { trait_index, name: binding.name.inner, ty: value },
                ),
                AssocBindingKind::Bound(_) => kept == collected,
            }
        }),
{
    reveal_with_fuel(State::check_supertrait_bindings, 2);
    match binding.rhs {
        AssocBindingKind::Equals(value) => {
            let between = s.check_assoc_type_bounds(
                file_id,
                trait_index,
                binding.name.inner,
                value,
                span,
            );
            let put = SupertraitBinding { trait_index, name: binding.name.inner, ty: value };
            law_supertrait_value_that_is_put(collected, put, put);
            between.adds_check_supertrait_bindings(
                file_id,
                trait_index,
                &rest,
                span,
                supertrait_binding_put(collected, put),
            );
        },
        AssocBindingKind::Bound(_) => {},
    }
    reveal(State::only_adds);
    reveal(State::grows_to);
}

} // verus!
