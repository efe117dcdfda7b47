//! What `members` does to the state only adds to it.

use vstd::prelude::*;

use crate::list::List;
use crate::members::{Candidate, MemberLookup};
use crate::span::{SourceSpan, Spanned, Symbol, TextSpan};
use crate::state::{ImplTarget, State};
use crate::substitute;
use crate::tir::{AccessTarget, ImplEntry, ResolveContext};
use crate::ty;
use crate::types::{Type, TypeIndex};

verus! {

impl<'ast> State<'ast> {
    pub broadcast proof fn adds_resolve_inherent_member(
        self,
        target: ImplTarget,
        target_type: TypeIndex,
        member: Symbol,
        span: SourceSpan,
    )
        ensures
            self.only_adds(
                (#[trigger] self.resolve_inherent_member(target, target_type, member, span)).0,
            ),
    {
        broadcast use crate::growth::group_adding;

        self.adds_nothing();
        reveal(State::resolve_inherent_member);
    }

    pub broadcast proof fn adds_choose_trait_candidate(
        self,
        context: ResolveContext,
        target_type: TypeIndex,
        member: Symbol,
        span: TextSpan,
        candidates: List<Candidate>,
    )
        ensures
            self.only_adds(
                (
                    #[trigger] self.choose_trait_candidate(
                        context,
                        target_type,
                        member,
                        span,
                        candidates,
                    )
                ).0,
            ),
    {
        broadcast use crate::growth::group_adding;

        self.adds_nothing();
        reveal(State::choose_trait_candidate);
    }

    pub broadcast proof fn adds_resolve_impl_member(
        self,
        context: ResolveContext,
        target_type: TypeIndex,
        member: Symbol,
        span: TextSpan,
    )
        ensures
            self.only_adds(
                (#[trigger] self.resolve_impl_member(context, target_type, member, span)).0,
            ),
    {
        broadcast use crate::growth::group_adding;

        self.adds_nothing();
        reveal(State::resolve_impl_member);
        let ty = self.ty(target_type);
        match ty {
            Type::TypeParam { .. } => {
                let bounds = self.param_bounds(target_type);
                let candidates = self.bound_candidates(&bounds.traits, target_type, member);
                self.adds_choose_trait_candidate(context, target_type, member, span, candidates);
            },
            _ => {
                match substitute::impl_target(target_type, ty) {
                    Some(target) => {
                        self.adds_resolve_inherent_member(
                            target,
                            target_type,
                            member,
                            context.at(span),
                        );
                        let (s, inherent) = self.resolve_inherent_member(
                            target,
                            target_type,
                            member,
                            context.at(span),
                        );
                        match inherent {
                            Some(found) => {},
                            None => {
                                let candidates = s.trait_candidates(
                                    target,
                                    target_type,
                                    member,
                                    0,
                                    (s.trait_dispatch.len() as usize),
                                );
                                s.adds_choose_trait_candidate(
                                    context,
                                    target_type,
                                    member,
                                    span,
                                    candidates,
                                );
                            },
                        }
                    },
                    None => {},
                }
            },
        }
    }

    pub broadcast proof fn adds_record_abstract_dispatch_access(
        self,
        trait_index: usize,
        member: Symbol,
        span: SourceSpan,
    )
        ensures
            self.only_adds(
                #[trigger] self.record_abstract_dispatch_access(trait_index, member, span),
            ),
    {
        broadcast use crate::growth::group_adding;

        self.adds_nothing();
        self.adds_record_impl_accesses(
            trait_index,
            member,
            span,
            0,
            (self.trait_impls.len() as usize),
        );
    }

    pub broadcast proof fn adds_record_impl_accesses(
        self,
        trait_index: usize,
        member: Symbol,
        span: SourceSpan,
        from: usize,
        end: usize,
    )
        ensures
            self.only_adds(
                #[trigger] self.record_impl_accesses(trait_index, member, span, from, end),
            ),
        decreases end - from,
    {
        broadcast use crate::growth::group_adding;

        self.adds_nothing();
        if from < end {
            let used = self.impl_member(from, trait_index, member);
            let s = match used {
                Some(ImplEntry::Method(index)) | Some(ImplEntry::AssocFunction(index)) => {
                    self.access(AccessTarget::Function(index), span)
                },
                Some(ImplEntry::AssocConstant(index)) => {
                    self.access(AccessTarget::Const(index), span)
                },
                _ => self,
            };
            s.adds_record_impl_accesses(trait_index, member, span, (from + 1) as usize, end);
        }
    }

    pub broadcast proof fn adds_resolve_method_call(
        self,
        context: ResolveContext,
        receiver: Spanned<TypeIndex>,
        method: Spanned<Symbol>,
    )
        ensures
            self.only_adds((#[trigger] self.resolve_method_call(context, receiver, method)).0),
    {
        broadcast use crate::growth::group_adding;

        self.adds_nothing();
        reveal(State::resolve_method_call);
        let lookup_ty = match self.ty(receiver.inner) {
            Type::Pointer { to, .. } => to,
            _ => receiver.inner,
        };
        if lookup_ty == ty::ERROR {
        } else {
            self.adds_resolve_impl_member(context, lookup_ty, method.inner, method.span);
            let (s, lookup) = self.resolve_impl_member(
                context,
                lookup_ty,
                method.inner,
                method.span,
            );
            let is_param = match s.ty(lookup_ty) {
                Type::TypeParam { .. } => true,
                _ => false,
            };
            match lookup {
                MemberLookup::Inherent { entry, type_args } => {
                    s.adds_method_of_entry(
                        context,
                        receiver,
                        method,
                        lookup_ty,
                        entry,
                        type_args,
                    );
                },
                MemberLookup::Trait { entry, type_args, trait_index } => {
                    let s = if is_param {
                        s.adds_record_abstract_dispatch_access(
                            trait_index,
                            method.inner,
                            context.at(method.span),
                        );
                        s.record_abstract_dispatch_access(
                            trait_index,
                            method.inner,
                            context.at(method.span),
                        )
                    } else {
                        s
                    };
                    s.adds_method_of_entry(
                        context,
                        receiver,
                        method,
                        lookup_ty,
                        entry,
                        type_args,
                    );
                },
                MemberLookup::NotFound => {},
                MemberLookup::Ambiguous => {},
            }
        }
    }

    pub broadcast proof fn adds_method_of_entry(
        self,
        context: ResolveContext,
        receiver: Spanned<TypeIndex>,
        method: Spanned<Symbol>,
        lookup_ty: TypeIndex,
        entry: ImplEntry,
        type_args: List<TypeIndex>,
    )
        ensures
            self.only_adds(
                (
                    #[trigger] self.method_of_entry(
                        context,
                        receiver,
                        method,
                        lookup_ty,
                        entry,
                        type_args,
                    )
                ).0,
            ),
    {
        broadcast use crate::growth::group_adding;

        self.adds_nothing();
        reveal(State::method_of_entry);
    }
}

} // verus!
