//! What `lookup` does to the state only adds to it.

use vstd::prelude::*;

use crate::growth;
use crate::list::List;
use crate::lookup;
use crate::lookup::{entry_member, SharedValue, TypeArgArity};
use crate::members::MemberLookup;
use crate::reports;
use crate::reports::report_assoc_type_must_implement;
use crate::span::{FileId, SourceSpan, Spanned, Symbol, TextSpan};
use crate::state::State;
use crate::substitute;
use crate::tir::{Bounds, EnumVariant, ResolveContext, SymbolKind, TraitBound};
use crate::types::{Type, TypeIndex, TypeParamOwner};

verus! {

impl<'ast> State<'ast> {
    pub broadcast proof fn adds_record_assoc_type_access(
        self,
        trait_index: usize,
        name: Symbol,
        span: SourceSpan,
    )
        ensures
            self.only_adds(#[trigger] self.record_assoc_type_access(trait_index, name, span)),
    {
        broadcast use crate::growth::group_adding;

        self.adds_nothing();
        reveal(State::record_assoc_type_access);
    }

    pub broadcast proof fn adds_resolve_generic_type_application(
        self,
        context: ResolveContext,
        kind: SymbolKind,
        args: &List<TypeIndex>,
        span: TextSpan,
        arity: TypeArgArity,
    )
        ensures
            self.only_adds(
                (
                    #[trigger] self.resolve_generic_type_application(
                        context,
                        kind,
                        args,
                        span,
                        arity,
                    )
                ).0,
            ),
    {
        broadcast use crate::growth::group_adding;

        self.adds_nothing();
        reveal(State::resolve_generic_type_application);
    }

    pub broadcast proof fn adds_register_inherent_member(
        self,
        target_type: TypeIndex,
        name: Symbol,
        block_index: usize,
    )
        ensures
            self.only_adds(
                #[trigger] self.register_inherent_member(target_type, name, block_index),
            ),
    {
        broadcast use crate::growth::group_adding;

        self.adds_nothing();
        reveal(State::register_inherent_member);
    }

    pub broadcast proof fn adds_check_assoc_type_traits(
        self,
        traits: &List<TraitBound>,
        assoc_name: Symbol,
        concrete: TypeIndex,
        span: SourceSpan,
    )
        ensures
            self.only_adds(
                #[trigger] self.check_assoc_type_traits(traits, assoc_name, concrete, span),
            ),
        decreases traits,
    {
        broadcast use crate::growth::group_adding;

        self.adds_nothing();
        match traits {
            List::Nil => {},
            List::Cons(bound, rest) => {
                let s = if self.trait_impl_for(concrete, bound.trait_index).is_none() {
                    self.report(
                        report_assoc_type_must_implement(
                            assoc_name,
                            self.trait_name(bound.trait_index),
                            concrete,
                            span,
                        ),
                    )
                } else {
                    self
                };
                s.adds_check_assoc_type_traits(rest, assoc_name, concrete, span);
            },
        }
    }

    pub broadcast proof fn adds_check_assoc_type_bounds(
        self,
        file_id: FileId,
        trait_index: usize,
        assoc_name: Symbol,
        concrete: TypeIndex,
        error_span: TextSpan,
    )
        ensures
            self.only_adds(
                #[trigger] self.check_assoc_type_bounds(
                    file_id,
                    trait_index,
                    assoc_name,
                    concrete,
                    error_span,
                ),
            ),
    {
        broadcast use crate::growth::group_adding;

        self.adds_nothing();
        reveal(State::check_assoc_type_bounds);
        match self.assoc_type_bounds(trait_index, assoc_name) {
            Some(bounds) => {
                let span = SourceSpan::new(file_id, error_span);
                self.adds_check_assoc_type_traits(&bounds.traits, assoc_name, concrete, span);
            },
            None => {},
        }
    }

    pub broadcast proof fn adds_pointer_type_for_memory(self, memory: TypeIndex)
        ensures
            self.only_adds((#[trigger] self.pointer_type_for_memory(memory)).0),
    {
        broadcast use crate::growth::group_adding;

        self.adds_nothing();
        reveal(State::pointer_type_for_memory);
    }

    pub broadcast proof fn adds_check_struct_fields_for_direct_recursion(
        self,
        struct_index: usize,
        struct_span: SourceSpan,
    )
        ensures
            self.only_adds(
                #[trigger] self.check_struct_fields_for_direct_recursion(
                    struct_index,
                    struct_span,
                ),
            ),
    {
        broadcast use crate::growth::group_adding;

        self.adds_nothing();
        reveal(State::check_struct_fields_for_direct_recursion);
    }

    pub broadcast proof fn adds_report_shared_values(
        self,
        enum_name: SourceSpan,
        shared: List<SharedValue>,
    )
        ensures
            self.only_adds(#[trigger] self.report_shared_values(enum_name, shared)),
        decreases shared,
    {
        broadcast use crate::growth::group_adding;

        self.adds_nothing();
        match shared {
            List::Nil => {},
            List::Cons(first, rest) => {
                self.report(
                    reports::enum_duplicate_value(enum_name, first.value, first.places),
                ).adds_report_shared_values(enum_name, *rest);
            },
        }
    }

    pub broadcast proof fn adds_report_enum_duplicate_values(
        self,
        context: ResolveContext,
        name_span: TextSpan,
        variants: &List<EnumVariant>,
    )
        ensures
            self.only_adds(
                #[trigger] self.report_enum_duplicate_values(context, name_span, variants),
            ),
    {
        self.adds_report_shared_values(
            context.at(name_span),
            lookup::shared_values(context.file_id, variants, &List::Nil),
        );
    }

    pub broadcast proof fn adds_resolve_namespace_member(
        self,
        context: ResolveContext,
        namespace: Spanned<TypeIndex>,
        member: Spanned<Symbol>,
    )
        ensures
            self.only_adds(
                (#[trigger] self.resolve_namespace_member(context, namespace, member)).0,
            ),
    {
        broadcast use crate::growth::group_adding;

        self.adds_nothing();
        reveal(State::resolve_namespace_member);
        self.adds_resolve_impl_member(context, namespace.inner, member.inner, member.span);
        let (s, lookup) = self.resolve_impl_member(
            context,
            namespace.inner,
            member.inner,
            member.span,
        );
        let is_param = match s.ty(namespace.inner) {
            Type::TypeParam { .. } => true,
            _ => false,
        };
        match lookup {
            MemberLookup::Inherent { entry, type_args } => {
                match entry_member(entry, type_args) {
                    Some(found) => {},
                    None => {
                        s.adds_resolve_own_member(context, namespace, member);
                    },
                }
            },
            MemberLookup::Trait { entry, type_args, trait_index } => {
                let s = if is_param {
                    s.adds_record_abstract_dispatch_access(
                        trait_index,
                        member.inner,
                        context.at(member.span),
                    );
                    s.record_abstract_dispatch_access(
                        trait_index,
                        member.inner,
                        context.at(member.span),
                    )
                } else {
                    s
                };
                match entry_member(entry, type_args) {
                    Some(found) => {},
                    None => {
                        s.adds_resolve_own_member(context, namespace, member);
                    },
                }
            },
            MemberLookup::NotFound => {
                s.adds_resolve_own_member(context, namespace, member);
            },
            MemberLookup::Ambiguous => {},
        }
    }

    pub broadcast proof fn adds_resolve_own_member(
        self,
        context: ResolveContext,
        namespace: Spanned<TypeIndex>,
        member: Spanned<Symbol>,
    )
        ensures
            self.only_adds((#[trigger] self.resolve_own_member(context, namespace, member)).0),
    {
        broadcast use crate::growth::group_adding;

        self.adds_nothing();
        reveal(State::resolve_own_member);
    }
}

impl<'ast> State<'ast> {
    pub broadcast proof fn adds_set_own_param_bounds(self, owner: TypeParamOwner, index: usize, bounds: Bounds)
        ensures
            self.only_adds(#[trigger] self.set_own_param_bounds(owner, index, bounds)),
    {
        reveal(State::only_adds);
        reveal(State::grows_to);
        reveal(State::set_inherent_impl_type_params);
        reveal(State::set_function_type_params);
        reveal(State::set_struct_type_params);
        reveal(State::set_trait_self_type_param);
        reveal(State::set_trait_impl_type_params);
        reveal(State::set_type_alias_type_params);
    }
}

impl<'ast> State<'ast> {
    /// A trait keeps having one impl for a target.
    pub broadcast proof fn adds_register_trait_impl(
        self,
        target_type: TypeIndex,
        trait_index: usize,
        impl_index: usize,
    )
        ensures
            self.only_adds(
                #[trigger] self.register_trait_impl(target_type, trait_index, impl_index),
            ),
    {
        reveal(State::only_adds);
        reveal(State::grows_to);
        reveal(State::register_trait_impl);
        reveal(State::report);
        reveal(State::add_trait_dispatch);
        match substitute::impl_target(target_type, self.ty(target_type)) {
            Some(target) => {
                if self.find_dispatched_impl(target, trait_index) is None {
                    growth::dispatched_impl_holds(self.trait_dispatch, target, trait_index, 0);
                }
            },
            None => {},
        }
    }
}

} // verus!
