//! What `satisfy` does to the state only adds to it.

use vstd::prelude::*;

use crate::diagnostics::Diagnostic;
use crate::list::List;
use crate::satisfy::{BoundOrigin, Subject};
use crate::span::{SourceSpan, Symbol, TextSpan};
use crate::state::State;
use crate::tir::{AssocBinding, AssocBindingKind, TraitBound};
use crate::ty;
use crate::types::{Type, TypeIndex, TypeParamOwner};

verus! {

impl<'ast> State<'ast> {
    pub broadcast proof fn adds_owner_self_type(self, owner: TypeParamOwner)
        ensures
            self.only_adds((#[trigger] self.owner_self_type(owner)).0),
    {
        broadcast use crate::growth::group_adding;

        self.adds_nothing();
        reveal(State::owner_self_type);
        match owner {
            TypeParamOwner::Trait(trait_index) => {
                self.adds_trait_self_type(trait_index);
            },
            TypeParamOwner::ImplBlock(block_index) => {},
            TypeParamOwner::TraitImpl(impl_index) => {},
            _ => {},
        }
    }

    pub broadcast proof fn adds_origin_self_ty(self, origin: BoundOrigin)
        ensures
            self.only_adds((#[trigger] self.origin_self_ty(origin)).0),
    {
        broadcast use crate::growth::group_adding;

        self.adds_nothing();
        reveal(State::origin_self_ty);
        match origin {
            BoundOrigin::TypeParam { owner, .. } => {
                match self.param_parent(owner) {
                    Some(parent) => {
                        self.adds_owner_self_type(parent);
                    },
                    None => {
                        self.adds_owner_self_type(owner);
                    },
                }
            },
            BoundOrigin::TraitAssocType { trait_index, .. } => {
                self.adds_trait_self_type(trait_index);
            },
        }
    }

    pub broadcast proof fn adds_known_assoc_value(
        self,
        index: TypeIndex,
        trait_index: usize,
        name: Symbol,
    )
        ensures
            self.only_adds((#[trigger] self.known_assoc_value(index, trait_index, name)).0),
    {
        broadcast use crate::growth::group_adding;

        self.adds_nothing();
        reveal(State::known_assoc_value);
        self.adds_concrete_assoc_type_value(index, trait_index, name);
    }

    pub broadcast proof fn adds_expected_assoc_value(
        self,
        rhs: TypeIndex,
        type_args: &List<TypeIndex>,
        enclosing_self: TypeIndex,
    )
        ensures
            self.only_adds(
                (#[trigger] self.expected_assoc_value(rhs, type_args, enclosing_self)).0,
            ),
    {
        broadcast use crate::growth::group_adding;

        self.adds_nothing();
        reveal(State::expected_assoc_value);
    }

    pub broadcast proof fn adds_check_written_bounds(
        self,
        origin: BoundOrigin,
        value: Subject,
        traits: &List<TraitBound>,
        self_ty: TypeIndex,
        found: List<Diagnostic>,
    )
        ensures
            self.only_adds(
                (#[trigger] self.check_written_bounds(origin, value, traits, self_ty, found)).0,
            ),
        decreases traits, 0int,
    {
        broadcast use crate::growth::group_adding;

        self.adds_nothing();
        match traits {
            List::Nil => {},
            List::Cons(bound, rest) => {
                if self.type_implements_trait(value.ty, bound.trait_index) {
                    self.adds_check_written_bindings(
                        origin,
                        value,
                        bound.trait_index,
                        bound.span,
                        &bound.bindings,
                        self_ty,
                        found,
                    );
                    let (s, found) = self.check_written_bindings(
                        origin,
                        value,
                        bound.trait_index,
                        bound.span,
                        &bound.bindings,
                        self_ty,
                        found,
                    );
                    s.adds_check_written_bounds(origin, value, rest, self_ty, found);
                } else {
                    let missing = self.missing_trait(
                        origin,
                        value,
                        bound.trait_index,
                        bound.span,
                    );
                    self.adds_check_written_bounds(
                        origin,
                        value,
                        rest,
                        self_ty,
                        found.push(missing),
                    );
                }
            },
        }
    }

    pub broadcast proof fn adds_check_written_bindings(
        self,
        origin: BoundOrigin,
        value: Subject,
        trait_index: usize,
        bound_span: TextSpan,
        bindings: &List<AssocBinding>,
        self_ty: TypeIndex,
        found: List<Diagnostic>,
    )
        ensures
            self.only_adds(
                (
                    #[trigger] self.check_written_bindings(
                        origin,
                        value,
                        trait_index,
                        bound_span,
                        bindings,
                        self_ty,
                        found,
                    )
                ).0,
            ),
        decreases bindings, 1int,
    {
        broadcast use crate::growth::group_adding;

        self.adds_nothing();
        match bindings {
            List::Nil => {},
            List::Cons(binding, rest) => {
                self.adds_concrete_assoc_type_value(value.ty, trait_index, binding.name.inner);
                let (s, actual) = self.concrete_assoc_type_value(
                    value.ty,
                    trait_index,
                    binding.name.inner,
                );
                let (s, found) = match actual {
                    Some(actual) => {
                        s.adds_check_written_binding(
                            origin,
                            value,
                            actual,
                            bound_span,
                            binding,
                            self_ty,
                            found,
                        );
                        s.check_written_binding(
                            origin,
                            value,
                            actual,
                            bound_span,
                            binding,
                            self_ty,
                            found,
                        )
                    },
                    None => (s, found),
                };
                s.adds_check_written_bindings(
                    origin,
                    value,
                    trait_index,
                    bound_span,
                    rest,
                    self_ty,
                    found,
                );
            },
        }
    }

    pub broadcast proof fn adds_check_written_binding(
        self,
        origin: BoundOrigin,
        value: Subject,
        actual: TypeIndex,
        bound_span: TextSpan,
        binding: &AssocBinding,
        self_ty: TypeIndex,
        found: List<Diagnostic>,
    )
        ensures
            self.only_adds(
                (
                    #[trigger] self.check_written_binding(
                        origin,
                        value,
                        actual,
                        bound_span,
                        binding,
                        self_ty,
                        found,
                    )
                ).0,
            ),
        decreases binding, 0int,
    {
        broadcast use crate::growth::group_adding;

        self.adds_nothing();
        if actual == ty::ERROR {
        } else {
            match &binding.rhs {
                AssocBindingKind::Equals(rhs) => {},
                AssocBindingKind::Bound(required) => {
                    self.adds_check_written_bounds(
                        origin,
                        value.with_type(actual),
                        &required.traits,
                        self_ty,
                        found,
                    );
                },
            }
        }
    }

    pub broadcast proof fn adds_check_declared_bounds(
        self,
        trait_index: usize,
        name: Symbol,
        value: Subject,
        self_ty: TypeIndex,
        found: List<Diagnostic>,
    )
        ensures
            self.only_adds(
                (
                    #[trigger] self.check_declared_bounds(
                        trait_index,
                        name,
                        value,
                        self_ty,
                        found,
                    )
                ).0,
            ),
    {
        broadcast use crate::growth::group_adding;

        self.adds_nothing();
        reveal(State::check_declared_bounds);
        if value.ty == ty::ERROR {
        } else {
            match self.assoc_type_bounds(trait_index, name) {
                Some(bounds) => {
                    self.adds_check_written_bounds(
                        BoundOrigin::TraitAssocType { trait_index, name },
                        value,
                        &bounds.traits,
                        self_ty,
                        found,
                    );
                },
                None => {},
            }
        }
    }

    pub broadcast proof fn adds_check_each_trait(
        self,
        origin: BoundOrigin,
        type_args: &List<TypeIndex>,
        subject: Subject,
        traits: &List<TraitBound>,
        enclosing_self: TypeIndex,
        found: List<Diagnostic>,
    )
        ensures
            self.only_adds(
                (
                    #[trigger] self.check_each_trait(
                        origin,
                        type_args,
                        subject,
                        traits,
                        enclosing_self,
                        found,
                    )
                ).0,
            ),
        decreases traits, 0int,
    {
        broadcast use crate::growth::group_adding;

        self.adds_nothing();
        match traits {
            List::Nil => {},
            List::Cons(bound, rest) => {
                if self.type_implements_trait(subject.ty, bound.trait_index) {
                    self.adds_check_bindings(
                        origin,
                        type_args,
                        subject,
                        bound.trait_index,
                        bound.span,
                        &bound.bindings,
                        enclosing_self,
                        found,
                    );
                    let (s, found) = self.check_bindings(
                        origin,
                        type_args,
                        subject,
                        bound.trait_index,
                        bound.span,
                        &bound.bindings,
                        enclosing_self,
                        found,
                    );
                    s.adds_check_each_trait(origin, type_args, subject, rest, enclosing_self, found);
                } else {
                    let missing = self.missing_trait(
                        origin,
                        subject,
                        bound.trait_index,
                        bound.span,
                    );
                    self.adds_check_each_trait(
                        origin,
                        type_args,
                        subject,
                        rest,
                        enclosing_self,
                        found.push(missing),
                    );
                }
            },
        }
    }

    pub broadcast proof fn adds_check_bindings(
        self,
        origin: BoundOrigin,
        type_args: &List<TypeIndex>,
        subject: Subject,
        trait_index: usize,
        bound_span: TextSpan,
        bindings: &List<AssocBinding>,
        enclosing_self: TypeIndex,
        found: List<Diagnostic>,
    )
        ensures
            self.only_adds(
                (
                    #[trigger] self.check_bindings(
                        origin,
                        type_args,
                        subject,
                        trait_index,
                        bound_span,
                        bindings,
                        enclosing_self,
                        found,
                    )
                ).0,
            ),
        decreases bindings, 1int,
    {
        broadcast use crate::growth::group_adding;

        self.adds_nothing();
        match bindings {
            List::Nil => {},
            List::Cons(binding, rest) => {
                self.adds_known_assoc_value(subject.ty, trait_index, binding.name.inner);
                let (s, actual) = self.known_assoc_value(
                    subject.ty,
                    trait_index,
                    binding.name.inner,
                );
                s.adds_check_binding(
                    origin,
                    type_args,
                    subject,
                    trait_index,
                    bound_span,
                    binding,
                    actual,
                    enclosing_self,
                    found,
                );
                let (s, found) = s.check_binding(
                    origin,
                    type_args,
                    subject,
                    trait_index,
                    bound_span,
                    binding,
                    actual,
                    enclosing_self,
                    found,
                );
                s.adds_check_bindings(
                    origin,
                    type_args,
                    subject,
                    trait_index,
                    bound_span,
                    rest,
                    enclosing_self,
                    found,
                );
            },
        }
    }

    pub broadcast proof fn adds_check_binding(
        self,
        origin: BoundOrigin,
        type_args: &List<TypeIndex>,
        subject: Subject,
        trait_index: usize,
        bound_span: TextSpan,
        binding: &AssocBinding,
        actual: Option<TypeIndex>,
        enclosing_self: TypeIndex,
        found: List<Diagnostic>,
    )
        ensures
            self.only_adds(
                (
                    #[trigger] self.check_binding(
                        origin,
                        type_args,
                        subject,
                        trait_index,
                        bound_span,
                        binding,
                        actual,
                        enclosing_self,
                        found,
                    )
                ).0,
            ),
        decreases binding, 0int,
    {
        broadcast use crate::growth::group_adding;

        self.adds_nothing();
        match &binding.rhs {
            AssocBindingKind::Equals(rhs) => {
                self.adds_check_equality(
                    origin,
                    type_args,
                    subject,
                    trait_index,
                    bound_span,
                    binding.name.inner,
                    Subject::new(SourceSpan::new(binding.file_id, binding.rhs_span), *rhs),
                    actual,
                    enclosing_self,
                    found,
                );
            },
            AssocBindingKind::Bound(required) => {
                if required.traits.is_empty() {
                } else {
                    let (s, value) = match actual {
                        Some(actual) => (self, actual),
                        None => {
                            self.intern(
                                Type::AssocTypeProjection {
                                    base: subject.ty,
                                    assoc_name: binding.name.inner,
                                    trait_index,
                                },
                            )
                        },
                    };
                    s.adds_check_inner(
                        origin,
                        type_args,
                        subject.with_type(value),
                        &required.traits,
                        subject.ty,
                        found,
                    );
                }
            },
        }
    }

    pub broadcast proof fn adds_check_inner(
        self,
        origin: BoundOrigin,
        type_args: &List<TypeIndex>,
        value: Subject,
        traits: &List<TraitBound>,
        enclosing_self: TypeIndex,
        found: List<Diagnostic>,
    )
        ensures
            self.only_adds(
                (
                    #[trigger] self.check_inner(
                        origin,
                        type_args,
                        value,
                        traits,
                        enclosing_self,
                        found,
                    )
                ).0,
            ),
        decreases traits, 1int,
    {
        broadcast use crate::growth::group_adding;

        self.adds_nothing();
        if value.ty == ty::ERROR {
        } else {
            self.adds_check_each_trait(origin, type_args, value, traits, enclosing_self, found);
        }
    }

    pub broadcast proof fn adds_check_equality(
        self,
        origin: BoundOrigin,
        type_args: &List<TypeIndex>,
        subject: Subject,
        trait_index: usize,
        bound_span: TextSpan,
        name: Symbol,
        written: Subject,
        actual: Option<TypeIndex>,
        enclosing_self: TypeIndex,
        found: List<Diagnostic>,
    )
        ensures
            self.only_adds(
                (
                    #[trigger] self.check_equality(
                        origin,
                        type_args,
                        subject,
                        trait_index,
                        bound_span,
                        name,
                        written,
                        actual,
                        enclosing_self,
                        found,
                    )
                ).0,
            ),
    {
        broadcast use crate::growth::group_adding;

        self.adds_nothing();
        reveal(State::check_equality);
        if written.ty == ty::ERROR {
        } else {
            self.adds_expected_assoc_value(written.ty, type_args, enclosing_self);
            let (s, expected) = self.expected_assoc_value(written.ty, type_args, enclosing_self);
            s.adds_check_declared_bounds(
                trait_index,
                name,
                written.with_type(expected),
                subject.ty,
                found,
            );
        }
    }

    pub broadcast proof fn adds_check_bounds(
        self,
        subject: Subject,
        origin: BoundOrigin,
        type_args: &List<TypeIndex>,
    )
        ensures
            self.only_adds((#[trigger] self.check_bounds(subject, origin, type_args)).0),
    {
        broadcast use crate::growth::group_adding;

        self.adds_nothing();
        reveal(State::check_bounds);
        match self.origin_bounds(origin) {
            Some(required) => {
                self.adds_origin_self_ty(origin);
                let (s, self_type) = self.origin_self_ty(origin);
                let enclosing_self = match self_type {
                    Some(index) => index,
                    None => subject.ty,
                };
                s.adds_check_inner(
                    origin,
                    type_args,
                    subject,
                    &required.traits,
                    enclosing_self,
                    List::Nil,
                );
            },
            None => {},
        }
    }

    pub broadcast proof fn adds_check_assoc_value(
        self,
        trait_index: usize,
        name: Symbol,
        value: Subject,
        self_ty: TypeIndex,
    )
        ensures
            self.only_adds(
                (#[trigger] self.check_assoc_value(trait_index, name, value, self_ty)).0,
            ),
    {
        broadcast use crate::growth::group_adding;

        self.adds_nothing();
        self.adds_check_declared_bounds(trait_index, name, value, self_ty, List::Nil);
    }
}

} // verus!
