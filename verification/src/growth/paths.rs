//! What `paths` does to the state only adds to it.

use vstd::prelude::*;

use crate::ast::{PathSegment, TypeExpression};
use crate::growth;
use crate::list::List;
use crate::lookup::{ResolvedMember, TypeArgArity};
use crate::reports::{report_not_generic, report_wrong_type_arg_count};
use crate::resolve;
use crate::scope::{next_index, ExprContext};
use crate::shape::spanned;
use crate::span::{DefId, Spanned, TextSpan};
use crate::state::State;
use crate::tir::{AccessContext, AccessTarget, GenericScope, ResolveContext};
use crate::ty;
use crate::types::{Type, TypeIndex};

verus! {

impl<'ast> State<'ast> {
    pub proof fn adds_fill_type_args(
        self,
        context: ResolveContext,
        scope: Option<GenericScope>,
        args: &List<Spanned<TypeExpression>>,
        slots: List<TypeIndex>,
        start: usize,
        pending: spec_fn(State<'ast>, DefId) -> State<'ast>,
    )
        requires
            growth::resolver_adds(pending),
        ensures
            self.only_adds(self.fill_type_args(context, scope, args, slots, start, pending).0),
        decreases 4int, args, 0int,
    {
        broadcast use crate::growth::group_finishing;

        self.adds_nothing();
        match args {
            List::Nil => {},
            List::Cons(arg, rest) => {
                if start >= slots.len() {
                } else {
                    self.adds_resolve_type(context, scope, arg, pending);
                    let (s, index) = self.resolve_type(context, scope, arg, pending);
                    let slots = slots.set(start, index);
                    s.adds_fill_type_args(
                        context,
                        scope,
                        rest,
                        slots,
                        next_index(start),
                        pending,
                    );
                }
            },
        }
    }

    pub proof fn adds_resolve_annotation(
        self,
        context: ResolveContext,
        scope: Option<GenericScope>,
        annotation: &Option<Spanned<TypeExpression>>,
        pending: spec_fn(State<'ast>, DefId) -> State<'ast>,
    )
        requires
            growth::resolver_adds(pending),
        ensures
            self.only_adds(self.resolve_annotation(context, scope, annotation, pending).0),
        decreases 4int, List::<usize>::Nil, 0int,
    {
        broadcast use crate::growth::group_finishing;

        self.adds_nothing();
        match annotation {
            Some(annotation) => {
                self.adds_resolve_type(context, scope, annotation, pending);
            },
            None => {},
        }
    }

    pub proof fn adds_build_function_member(
        self,
        ctx: ExprContext,
        namespace: Spanned<TypeIndex>,
        func_index: usize,
        type_args: List<TypeIndex>,
        segment: &PathSegment,
        span: TextSpan,
        pending: spec_fn(State<'ast>, DefId) -> State<'ast>,
    )
        requires
            growth::resolver_adds(pending),
        ensures
            self.only_adds(
                self.build_function_member(
                    ctx,
                    namespace,
                    func_index,
                    type_args,
                    segment,
                    span,
                    pending,
                ).0,
            ),
        decreases 5int, List::<usize>::Nil, 0int,
    {
        broadcast use crate::growth::group_finishing;

        self.adds_nothing();
        let (own, inherited) = self.own_type_params(func_index);
        let context: ResolveContext = ctx.resolve_context;
        let s = self.check_type_arg_count(own, segment.type_args.len(), context.at(span));
        let s = s.access(AccessTarget::Function(func_index), context.at(segment.ident.span));
        s.adds_fill_type_args(
            context,
            ctx.scope,
            &segment.type_args,
            type_args,
            inherited,
            pending,
        );
    }

    pub proof fn adds_build_namespace_member_expression(
        self,
        ctx: ExprContext,
        namespace: Spanned<TypeIndex>,
        segment: &PathSegment,
        span: TextSpan,
        pending: spec_fn(State<'ast>, DefId) -> State<'ast>,
    )
        requires
            growth::resolver_adds(pending),
        ensures
            self.only_adds(
                self.build_namespace_member_expression(ctx, namespace, segment, span, pending).0,
            ),
        decreases 5int, List::<usize>::Nil, 1int,
    {
        broadcast use crate::growth::group_finishing;

        self.adds_nothing();
        let context: ResolveContext = ctx.resolve_context;
        let s = match self.ty(namespace.inner) {
            Type::Namespace { namespace_idx } => {
                self.access(
                    AccessTarget::Namespace(namespace_idx),
                    context.at(namespace.span),
                )
            },
            _ => self,
        };
        let (s, member) = s.resolve_namespace_member(context, namespace, segment.ident);
        match member {
            Some(member) => {
                match member {
                    ResolvedMember::Function { func_index, type_args } => {
                        s.adds_build_function_member(
                            ctx,
                            namespace,
                            func_index,
                            type_args,
                            segment,
                            span,
                            pending,
                        );
                    },
                    other => {},
                }
            },
            None => {},
        }
    }

    pub proof fn adds_walk_expression_path(
        self,
        ctx: ExprContext,
        namespace: Spanned<TypeIndex>,
        path: &List<PathSegment>,
        span: TextSpan,
        pending: spec_fn(State<'ast>, DefId) -> State<'ast>,
    )
        requires
            growth::resolver_adds(pending),
        ensures
            self.only_adds(self.walk_expression_path(ctx, namespace, path, span, pending).0),
        decreases 6int, path, 0int,
    {
        broadcast use crate::growth::group_finishing;

        self.adds_nothing();
        match path {
            List::Nil => {},
            List::Cons(segment, rest) => {
                if rest.is_empty() {
                    self.adds_build_namespace_member_expression(
                        ctx,
                        namespace,
                        segment,
                        span,
                        pending,
                    );
                } else {
                    self.adds_resolve_namespace_type_member(
                        ctx.resolve_context,
                        ctx.scope,
                        namespace,
                        segment,
                        TypeArgArity::AllowInfer,
                        pending,
                    );
                    let (s, inner) = self.resolve_namespace_type_member(
                        ctx.resolve_context,
                        ctx.scope,
                        namespace,
                        segment,
                        TypeArgArity::AllowInfer,
                        pending,
                    );
                    match inner {
                        Some(inner) => {
                            s.adds_walk_expression_path(
                                ctx,
                                spanned(
                                    inner,
                                    resolve::span_between(namespace.span, segment.ident.span),
                                ),
                                rest,
                                span,
                                pending,
                            );
                        },
                        None => {},
                    }
                }
            },
        }
    }

    pub proof fn adds_resolve_path_root(
        self,
        context: ResolveContext,
        scope: Option<GenericScope>,
        segment: &PathSegment,
        pending: spec_fn(State<'ast>, DefId) -> State<'ast>,
    )
        requires
            growth::resolver_adds(pending),
        ensures
            self.only_adds(self.resolve_path_root(context, scope, segment, pending).0),
        decreases 6int, List::<usize>::Nil, 0int,
    {
        broadcast use crate::growth::group_finishing;

        self.adds_nothing();
        self.adds_resolve_type_identifier(
            context,
            scope,
            segment.ident,
            TypeArgArity::AllowInfer,
            pending,
        );
        let (s, root) = self.resolve_type_identifier(
            context,
            scope,
            segment.ident,
            TypeArgArity::AllowInfer,
            pending,
        );
        match root {
            Some(root) => {
                if segment.type_args.is_empty() {
                } else {
                    match s.struct_type(root) {
                        Some((struct_index, _)) => {
                            s.adds_resolve_types(context, scope, &segment.type_args, pending);
                        },
                        None => {},
                    }
                }
            },
            None => {},
        }
    }

    pub proof fn adds_build_generic_function_reference(
        self,
        ctx: ExprContext,
        segment: &PathSegment,
        span: TextSpan,
        pending: spec_fn(State<'ast>, DefId) -> State<'ast>,
    )
        requires
            growth::resolver_adds(pending),
        ensures
            self.only_adds(self.build_generic_function_reference(ctx, segment, span, pending).0),
        decreases 6int, List::<usize>::Nil, 1int,
    {
        broadcast use crate::growth::group_finishing;

        self.adds_nothing();
        let context: ResolveContext = ctx.resolve_context;
        match self.visible_function(context.namespace, segment.ident.inner) {
            Some(func_index) => {
                let (own, _) = self.own_type_params(func_index);
                if own == 0 {
                    let s = self.report(report_not_generic(context.at(span)));
                } else {
                    let s = if segment.type_args.len() > own {
                        self.report(
                            report_wrong_type_arg_count(
                                own,
                                segment.type_args.len(),
                                context.at(span),
                            ),
                        )
                    } else {
                        self
                    };
                    s.adds_fill_type_args(
                        context,
                        ctx.scope,
                        &segment.type_args,
                        List::repeat(ty::INFER, own),
                        0,
                        pending,
                    );
                }
            },
            None => {},
        }
    }

    pub proof fn adds_build_path_expression(
        self,
        ctx: ExprContext,
        access: AccessContext,
        path: &List<PathSegment>,
        span: TextSpan,
        pending: spec_fn(State<'ast>, DefId) -> State<'ast>,
    )
        requires
            growth::resolver_adds(pending),
        ensures
            self.only_adds(self.build_path_expression(ctx, access, path, span, pending).0),
        decreases 7int, List::<usize>::Nil, 0int,
    {
        broadcast use crate::growth::group_finishing;

        self.adds_nothing();
        match path {
            List::Nil => {},
            List::Cons(first, rest) => {
                if !rest.is_empty() {
                    self.adds_resolve_path_root(ctx.resolve_context, ctx.scope, first, pending);
                    let (s, root) = self.resolve_path_root(
                        ctx.resolve_context,
                        ctx.scope,
                        first,
                        pending,
                    );
                    match root {
                        Some(root) => {
                            s.adds_walk_expression_path(
                                ctx,
                                spanned(root, first.ident.span),
                                rest,
                                span,
                                pending,
                            );
                        },
                        None => {},
                    }
                } else {
                    if first.type_args.is_empty() {
                        let (s, ctx, expr) = self.build_name_expression(
                            ctx,
                            access,
                            first.ident.inner,
                            span,
                        );
                    } else {
                        self.adds_build_generic_function_reference(ctx, first, span, pending);
                    }
                }
            },
        }
    }
}

} // verus!
