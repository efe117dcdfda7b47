//! What `paths` builds, it builds in the scope that it is in.

use vstd::prelude::*;

use crate::ast::PathSegment;
use crate::list::List;
use crate::lookup::{ResolvedMember, TypeArgArity};
use crate::resolve;
use crate::scope::ExprContext;
use crate::shape::spanned;
use crate::span::{DefId, Spanned, TextSpan};
use crate::state::State;
use crate::tir::{AccessContext, AccessTarget, ResolveContext};
use crate::types::{Type, TypeIndex};

verus! {

impl<'ast> State<'ast> {
    pub proof fn keeps_build_function_member(
        self,
        ctx: ExprContext,
        namespace: Spanned<TypeIndex>,
        func_index: usize,
        type_args: List<TypeIndex>,
        segment: &PathSegment,
        span: TextSpan,
        pending: spec_fn(State<'ast>, DefId) -> State<'ast>,
    )
        ensures
            ctx.stays_in_scope(
                self.build_function_member(
                    ctx,
                    namespace,
                    func_index,
                    type_args,
                    segment,
                    span,
                    pending,
                ).1,
            ),
        decreases 5int, List::<usize>::Nil, 0int,
    {
        broadcast use crate::nesting::group_staying;

        ctx.grows_into_itself();
    }

    pub proof fn keeps_build_namespace_member_expression(
        self,
        ctx: ExprContext,
        namespace: Spanned<TypeIndex>,
        segment: &PathSegment,
        span: TextSpan,
        pending: spec_fn(State<'ast>, DefId) -> State<'ast>,
    )
        ensures
            ctx.stays_in_scope(
                self.build_namespace_member_expression(ctx, namespace, segment, span, pending).1,
            ),
        decreases 5int, List::<usize>::Nil, 1int,
    {
        broadcast use crate::nesting::group_staying;

        ctx.grows_into_itself();
        let context: ResolveContext = ctx.resolve_context;
        let s = match self.ty(namespace.inner) {
            Type::Namespace { namespace_idx } => {
                self.access(
                    AccessTarget::Namespace(namespace_idx),
                    context.at(namespace.span),
                )
            },
            _ => self,
        };
        let (s, member) = s.resolve_namespace_member(context, namespace, segment.ident);
        match member {
            Some(member) => {
                match member {
                    ResolvedMember::Function { func_index, type_args } => {
                        s.keeps_build_function_member(
                            ctx,
                            namespace,
                            func_index,
                            type_args,
                            segment,
                            span,
                            pending,
                        );
                    },
                    other => {},
                }
            },
            None => {},
        }
    }

    pub proof fn keeps_walk_expression_path(
        self,
        ctx: ExprContext,
        namespace: Spanned<TypeIndex>,
        path: &List<PathSegment>,
        span: TextSpan,
        pending: spec_fn(State<'ast>, DefId) -> State<'ast>,
    )
        ensures
            ctx.stays_in_scope(self.walk_expression_path(ctx, namespace, path, span, pending).1),
        decreases 6int, path, 0int,
    {
        broadcast use crate::nesting::group_staying;

        ctx.grows_into_itself();
        match path {
            List::Nil => {},
            List::Cons(segment, rest) => {
                if rest.is_empty() {
                    self.keeps_build_namespace_member_expression(
                        ctx,
                        namespace,
                        segment,
                        span,
                        pending,
                    );
                } else {
                    let (s, inner) = self.resolve_namespace_type_member(
                        ctx.resolve_context,
                        ctx.scope,
                        namespace,
                        segment,
                        TypeArgArity::AllowInfer,
                        pending,
                    );
                    match inner {
                        Some(inner) => {
                            s.keeps_walk_expression_path(
                                ctx,
                                spanned(
                                    inner,
                                    resolve::span_between(namespace.span, segment.ident.span),
                                ),
                                rest,
                                span,
                                pending,
                            );
                        },
                        None => {},
                    }
                }
            },
        }
    }

    pub proof fn keeps_build_generic_function_reference(
        self,
        ctx: ExprContext,
        segment: &PathSegment,
        span: TextSpan,
        pending: spec_fn(State<'ast>, DefId) -> State<'ast>,
    )
        ensures
            ctx.stays_in_scope(
                self.build_generic_function_reference(ctx, segment, span, pending).1,
            ),
        decreases 6int, List::<usize>::Nil, 1int,
    {
        broadcast use crate::nesting::group_staying;

        ctx.grows_into_itself();
    }

    pub proof fn keeps_build_path_expression(
        self,
        ctx: ExprContext,
        access: AccessContext,
        path: &List<PathSegment>,
        span: TextSpan,
        pending: spec_fn(State<'ast>, DefId) -> State<'ast>,
    )
        ensures
            ctx.stays_in_scope(self.build_path_expression(ctx, access, path, span, pending).1),
        decreases 7int, List::<usize>::Nil, 0int,
    {
        broadcast use crate::nesting::group_staying;

        ctx.grows_into_itself();
        match path {
            List::Nil => {},
            List::Cons(first, rest) => {
                if !rest.is_empty() {
                    let (s, root) = self.resolve_path_root(
                        ctx.resolve_context,
                        ctx.scope,
                        first,
                        pending,
                    );
                    match root {
                        Some(root) => {
                            s.keeps_walk_expression_path(
                                ctx,
                                spanned(root, first.ident.span),
                                rest,
                                span,
                                pending,
                            );
                        },
                        None => {},
                    }
                } else {
                    if first.type_args.is_empty() {
                        let (s, ctx, expr) = self.build_name_expression(
                            ctx,
                            access,
                            first.ident.inner,
                            span,
                        );
                    } else {
                        self.keeps_build_generic_function_reference(ctx, first, span, pending);
                    }
                }
            },
        }
    }
}

} // verus!
