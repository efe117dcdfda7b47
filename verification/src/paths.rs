//! Expressions that are paths: names, functions with type arguments, and
//! members of namespaces.

use vstd::prelude::*;

use crate::ast::{PathSegment, TypeExpression};
use crate::list::List;
use crate::lookup::{ResolvedMember, TypeArgArity};
use crate::names::poisoned;
use crate::reports::{
    report_not_generic, report_type_args_not_supported, report_undeclared_identifier,
    report_wrong_type_arg_count,
};
use crate::resolve;
use crate::resolve::join_spans;
use crate::scope::{next_index, ExprContext};
use crate::shape::spanned;
use crate::signatures;
use crate::span::{DefId, Spanned, TextSpan};
use crate::state::{Builder, State};
use crate::tir::{AccessContext, AccessTarget, ExprKind, Expression, GenericScope, ResolveContext};
use crate::ty;
use crate::types::{Type, TypeIndex};
use crate::typing;
use crate::typing::namespace_expression;

verus! {

impl<'ast> State<'ast> {
    /// Puts written type arguments in the places from a position on, as far as
    /// there are places.
    pub open spec fn fill_type_args(
        self,
        context: ResolveContext,
        scope: Option<GenericScope>,
        args: &List<Spanned<TypeExpression>>,
        slots: List<TypeIndex>,
        start: usize,
        pending: spec_fn(State<'ast>, DefId) -> State<'ast>,
    ) -> (State<'ast>, List<TypeIndex>)
        decreases 4int, args, 0int,
    {
        match args {
            List::Nil => (self, slots),
            List::Cons(arg, rest) => {
                if start >= slots.len() {
                    (self, slots)
                } else {
                    let (s, index) = self.resolve_type(context, scope, arg, pending);
                    let slots = slots.set(start, index);
                    s.fill_type_args(context, scope, rest, slots, next_index(start), pending)
                }
            },
        }
    }

    /// The type of an annotation; one to infer where there is none.
    pub open spec fn resolve_annotation(
        self,
        context: ResolveContext,
        scope: Option<GenericScope>,
        annotation: &Option<Spanned<TypeExpression>>,
        pending: spec_fn(State<'ast>, DefId) -> State<'ast>,
    ) -> (State<'ast>, TypeIndex)
        decreases 4int, List::<usize>::Nil, 0int,
    {
        match annotation {
            Some(annotation) => self.resolve_type(context, scope, annotation, pending),
            None => (self, ty::INFER),
        }
    }

    /// A function of a namespace, with the type arguments that are written after
    /// its name.
    pub open spec fn build_function_member(
        self,
        ctx: ExprContext,
        namespace: Spanned<TypeIndex>,
        func_index: usize,
        type_args: List<TypeIndex>,
        segment: &PathSegment,
        span: TextSpan,
        pending: spec_fn(State<'ast>, DefId) -> State<'ast>,
    ) -> (State<'ast>, ExprContext, Expression)
        decreases 5int, List::<usize>::Nil, 0int,
    {
        let (own, inherited) = self.own_type_params(func_index);
        let context: ResolveContext = ctx.resolve_context;
        let s = self.check_type_arg_count(own, segment.type_args.len(), context.at(span));
        let s = s.access(AccessTarget::Function(func_index), context.at(segment.ident.span));
        let (s, type_args) = s.fill_type_args(
            context,
            ctx.scope,
            &segment.type_args,
            type_args,
            inherited,
            pending,
        );
        let (_, _, id) = s.function_identity(func_index);
        let (s, ty) = s.intern(Type::FunctionItem { id, type_args });
        (
            s,
            ctx,
            typing::namespace_access(
                namespace,
                ExprKind::Function { id },
                ty,
                segment.ident.span,
                span,
            ),
        )
    }

    /// A member of a namespace, with the uses of both recorded.
    pub open spec fn build_namespace_member_expression(
        self,
        ctx: ExprContext,
        namespace: Spanned<TypeIndex>,
        segment: &PathSegment,
        span: TextSpan,
        pending: spec_fn(State<'ast>, DefId) -> State<'ast>,
    ) -> (State<'ast>, ExprContext, Option<Expression>)
        decreases 5int, List::<usize>::Nil, 1int,
    {
        let context: ResolveContext = ctx.resolve_context;
        let s = match self.ty(namespace.inner) {
            Type::Namespace { namespace_idx } => {
                self.access(
                    AccessTarget::Namespace(namespace_idx),
                    context.at(namespace.span),
                )
            },
            _ => self,
        };
        let (s, member) = s.resolve_namespace_member(context, namespace, segment.ident);
        match member {
            Some(member) => {
                match member {
                    ResolvedMember::Function { func_index, type_args } => {
                        let (s, ctx, expr) = s.build_function_member(
                            ctx,
                            namespace,
                            func_index,
                            type_args,
                            segment,
                            span,
                            pending,
                        );
                        (s, ctx, Some(expr))
                    },
                    other => {
                        let (s, r) = s.build_member_value(
                            context,
                            namespace,
                            other,
                            segment.ident.span,
                            span,
                        );
                        (s, ctx, r)
                    },
                }
            },
            None => (s, ctx, None),
        }
    }

    /// The member that the rest of a path leads to from a namespace.
    pub open spec fn walk_expression_path(
        self,
        ctx: ExprContext,
        namespace: Spanned<TypeIndex>,
        path: &List<PathSegment>,
        span: TextSpan,
        pending: spec_fn(State<'ast>, DefId) -> State<'ast>,
    ) -> (State<'ast>, ExprContext, Option<Expression>)
        decreases 6int, path, 0int,
    {
        match path {
            List::Nil => (self, ctx, None),
            List::Cons(segment, rest) => {
                if rest.is_empty() {
                    self.build_namespace_member_expression(ctx, namespace, segment, span, pending)
                } else {
                    let (s, inner) = self.resolve_namespace_type_member(
                        ctx.resolve_context,
                        ctx.scope,
                        namespace,
                        segment,
                        TypeArgArity::AllowInfer,
                        pending,
                    );
                    match inner {
                        Some(inner) => {
                            s.walk_expression_path(
                                ctx,
                                spanned(
                                    inner,
                                    resolve::span_between(namespace.span, segment.ident.span),
                                ),
                                rest,
                                span,
                                pending,
                            )
                        },
                        None => (s, ctx, None),
                    }
                }
            },
        }
    }

    /// The type that the first name of a longer path stands for, applied to the
    /// type arguments written after it.
    pub open spec fn resolve_path_root(
        self,
        context: ResolveContext,
        scope: Option<GenericScope>,
        segment: &PathSegment,
        pending: spec_fn(State<'ast>, DefId) -> State<'ast>,
    ) -> (State<'ast>, Option<TypeIndex>)
        decreases 6int, List::<usize>::Nil, 0int,
    {
        let (s, root) = self.resolve_type_identifier(
            context,
            scope,
            segment.ident,
            TypeArgArity::AllowInfer,
            pending,
        );
        match root {
            Some(root) => {
                if segment.type_args.is_empty() {
                    (s, Some(root))
                } else {
                    match s.struct_type(root) {
                        Some((struct_index, _)) => {
                            let (s, args) = s.resolve_types(
                                context,
                                scope,
                                &segment.type_args,
                                pending,
                            );
                            let (s, ty) = s.intern(Type::Struct { struct_index, args });
                            (s, Some(ty))
                        },
                        None => {
                            let s = s.report(
                                report_type_args_not_supported(context.at(segment.ident.span)),
                            );
                            (s, None)
                        },
                    }
                }
            },
            None => (s, None),
        }
    }

    /// A generic function by its name and type arguments.
    pub open spec fn build_generic_function_reference(
        self,
        ctx: ExprContext,
        segment: &PathSegment,
        span: TextSpan,
        pending: spec_fn(State<'ast>, DefId) -> State<'ast>,
    ) -> (State<'ast>, ExprContext, Expression)
        decreases 6int, List::<usize>::Nil, 1int,
    {
        let context: ResolveContext = ctx.resolve_context;
        match self.visible_function(context.namespace, segment.ident.inner) {
            Some(func_index) => {
                let (own, _) = self.own_type_params(func_index);
                if own == 0 {
                    let s = self.report(report_not_generic(context.at(span)));
                    (s, ctx, poisoned(span))
                } else {
                    let s = if segment.type_args.len() > own {
                        self.report(
                            report_wrong_type_arg_count(
                                own,
                                segment.type_args.len(),
                                context.at(span),
                            ),
                        )
                    } else {
                        self
                    };
                    let (s, type_args) = s.fill_type_args(
                        context,
                        ctx.scope,
                        &segment.type_args,
                        List::repeat(ty::INFER, own),
                        0,
                        pending,
                    );
                    let (s, r) = s.function_reference(
                        func_index,
                        type_args,
                        context.at(segment.ident.span),
                        span,
                    );
                    (s, ctx, r)
                }
            },
            None => {
                let s = self.report(report_undeclared_identifier(context.at(span)));
                (s, ctx, poisoned(span))
            },
        }
    }

    /// The expression that a path stands for: a single name, a generic function
    /// with type arguments, or a member of a namespace.
    pub open spec fn build_path_expression(
        self,
        ctx: ExprContext,
        access: AccessContext,
        path: &List<PathSegment>,
        span: TextSpan,
        pending: spec_fn(State<'ast>, DefId) -> State<'ast>,
    ) -> (State<'ast>, ExprContext, Option<Expression>)
        decreases 7int, List::<usize>::Nil, 0int,
    {
        match path {
            List::Nil => (self, ctx, None),
            List::Cons(first, rest) => {
                if !rest.is_empty() {
                    let (s, root) = self.resolve_path_root(
                        ctx.resolve_context,
                        ctx.scope,
                        first,
                        pending,
                    );
                    match root {
                        Some(root) => {
                            s.walk_expression_path(
                                ctx,
                                spanned(root, first.ident.span),
                                rest,
                                span,
                                pending,
                            )
                        },
                        None => (s, ctx, None),
                    }
                } else {
                    if first.type_args.is_empty() {
                        let (s, ctx, expr) = self.build_name_expression(
                            ctx,
                            access,
                            first.ident.inner,
                            span,
                        );
                        (s, ctx, Some(expr))
                    } else {
                        let (s, ctx, expr) = self.build_generic_function_reference(
                            ctx,
                            first,
                            span,
                            pending,
                        );
                        (s, ctx, Some(expr))
                    }
                }
            },
        }
    }
}

impl<'ast> Builder<'ast> {
    /// Puts written type arguments in the places from a position on, as far as
    /// there are places.
    pub fn fill_type_args(
        &mut self,
        context: ResolveContext,
        scope: Option<GenericScope>,
        args: &List<Spanned<TypeExpression>>,
        slots: List<TypeIndex>,
        start: usize,
        depth: usize,
    ) -> (result: List<TypeIndex>)
        ensures
            (final(self)@, result) == old(self)@.fill_type_args(
                context,
                scope,
                args,
                slots,
                start,
                signatures::resolver(depth),
            ),
        decreases depth, 4int, args, 0int,
    {
        match args {
            List::Nil => slots,
            List::Cons(arg, rest) => {
                if start >= slots.len() {
                    return slots;
                }
                let index: TypeIndex = self.resolve_type(context, scope, arg, depth);
                let slots = slots.set(start, index);
                self.fill_type_args(context, scope, rest, slots, next_index(start), depth)
            },
        }
    }

    /// The type of an annotation; one to infer where there is none.
    pub fn resolve_annotation(
        &mut self,
        context: ResolveContext,
        scope: Option<GenericScope>,
        annotation: &Option<Spanned<TypeExpression>>,
        depth: usize,
    ) -> (result: TypeIndex)
        ensures
            (final(self)@, result) == old(self)@.resolve_annotation(
                context,
                scope,
                annotation,
                signatures::resolver(depth),
            ),
        decreases depth, 4int, List::<usize>::Nil, 0int,
    {
        match annotation {
            Some(annotation) => self.resolve_type(context, scope, annotation, depth),
            None => ty::INFER,
        }
    }

    /// A function of a namespace, with the type arguments that are written after
    /// its name.
    pub fn build_function_member(
        &mut self,
        ctx: &mut ExprContext,
        namespace: Spanned<TypeIndex>,
        func_index: usize,
        type_args: List<TypeIndex>,
        segment: &PathSegment,
        span: TextSpan,
        depth: usize,
    ) -> (result: Expression)
        ensures
            (final(self)@, *final(ctx), result) == old(self)@.build_function_member(
                *old(ctx),
                namespace,
                func_index,
                type_args,
                segment,
                span,
                signatures::resolver(depth),
            ),
        decreases depth, 5int, List::<usize>::Nil, 0int,
    {
        let (own, inherited) = self.own_type_params(func_index);
        let context: ResolveContext = ctx.resolve_context;
        self.check_type_arg_count(own, segment.type_args.len(), context.at(span));
        self.access(AccessTarget::Function(func_index), context.at(segment.ident.span));
        let type_args = self.fill_type_args(
            context,
            ctx.scope,
            &segment.type_args,
            type_args,
            inherited,
            depth,
        );
        let (_, _, id) = self.function_identity(func_index);
        let ty: TypeIndex = self.intern_type(Type::FunctionItem { id, type_args });
        namespace_expression(namespace, ExprKind::Function { id }, ty, segment.ident.span, span)
    }

    /// A member of a namespace, with the uses of both recorded.
    pub fn build_namespace_member_expression(
        &mut self,
        ctx: &mut ExprContext,
        namespace: Spanned<TypeIndex>,
        segment: &PathSegment,
        span: TextSpan,
        depth: usize,
    ) -> (result: Option<Expression>)
        ensures
            (final(self)@, *final(ctx), result) == old(self)@.build_namespace_member_expression(
                *old(ctx),
                namespace,
                segment,
                span,
                signatures::resolver(depth),
            ),
        decreases depth, 5int, List::<usize>::Nil, 1int,
    {
        let context: ResolveContext = ctx.resolve_context;
        match self.ty(namespace.inner) {
            Type::Namespace { namespace_idx } => {
                self.access(AccessTarget::Namespace(namespace_idx), context.at(namespace.span));
            },
            _ => {},
        }
        let member = self.resolve_namespace_member(context, namespace, segment.ident)?;
        match member {
            ResolvedMember::Function { func_index, type_args } => {
                let expr = self.build_function_member(
                    ctx,
                    namespace,
                    func_index,
                    type_args,
                    segment,
                    span,
                    depth,
                );
                Some(expr)
            },
            other => self.build_member_value(context, namespace, other, segment.ident.span, span),
        }
    }

    /// The member that the rest of a path leads to from a namespace.
    pub fn walk_expression_path(
        &mut self,
        ctx: &mut ExprContext,
        namespace: Spanned<TypeIndex>,
        path: &List<PathSegment>,
        span: TextSpan,
        depth: usize,
    ) -> (result: Option<Expression>)
        ensures
            (final(self)@, *final(ctx), result) == old(self)@.walk_expression_path(
                *old(ctx),
                namespace,
                path,
                span,
                signatures::resolver(depth),
            ),
        decreases depth, 6int, path, 0int,
    {
        match path {
            List::Nil => None,
            List::Cons(segment, rest) => {
                if rest.is_empty() {
                    return self.build_namespace_member_expression(
                        ctx,
                        namespace,
                        segment,
                        span,
                        depth,
                    );
                }
                let inner = self.resolve_namespace_type_member(
                    ctx.resolve_context,
                    ctx.scope,
                    namespace,
                    segment,
                    TypeArgArity::AllowInfer,
                    depth,
                )?;
                self.walk_expression_path(
                    ctx,
                    spanned(inner, join_spans(namespace.span, segment.ident.span)),
                    rest,
                    span,
                    depth,
                )
            },
        }
    }

    /// The type that the first name of a longer path stands for, applied to the
    /// type arguments written after it.
    pub fn resolve_path_root(
        &mut self,
        context: ResolveContext,
        scope: Option<GenericScope>,
        segment: &PathSegment,
        depth: usize,
    ) -> (result: Option<TypeIndex>)
        ensures
            (final(self)@, result) == old(self)@.resolve_path_root(
                context,
                scope,
                segment,
                signatures::resolver(depth),
            ),
        decreases depth, 6int, List::<usize>::Nil, 0int,
    {
        let root = self.resolve_type_identifier(
            context,
            scope,
            segment.ident,
            TypeArgArity::AllowInfer,
            depth,
        )?;
        if segment.type_args.is_empty() {
            return Some(root);
        }
        match self.struct_type(root) {
            Some((struct_index, _)) => {
                let args = self.resolve_types(context, scope, &segment.type_args, depth);
                let ty: TypeIndex = self.intern_type(Type::Struct { struct_index, args });
                Some(ty)
            },
            None => {
                self.report(report_type_args_not_supported(context.at(segment.ident.span)));
                None
            },
        }
    }

    /// A generic function by its name and type arguments.
    pub fn build_generic_function_reference(
        &mut self,
        ctx: &mut ExprContext,
        segment: &PathSegment,
        span: TextSpan,
        depth: usize,
    ) -> (result: Expression)
        ensures
            (final(self)@, *final(ctx), result) == old(self)@.build_generic_function_reference(
                *old(ctx),
                segment,
                span,
                signatures::resolver(depth),
            ),
        decreases depth, 6int, List::<usize>::Nil, 1int,
    {
        let context: ResolveContext = ctx.resolve_context;
        match self.visible_function(context.namespace, segment.ident.inner) {
            Some(func_index) => {
                let (own, _) = self.own_type_params(func_index);
                if own == 0 {
                    self.report(report_not_generic(context.at(span)));
                    return poisoned(span);
                }
                if segment.type_args.len() > own {
                    self.report(
                        report_wrong_type_arg_count(
                            own,
                            segment.type_args.len(),
                            context.at(span),
                        ),
                    );
                }
                let type_args = self.fill_type_args(
                    context,
                    ctx.scope,
                    &segment.type_args,
                    List::repeat(ty::INFER, own),
                    0,
                    depth,
                );
                self.function_reference(
                    func_index,
                    type_args,
                    context.at(segment.ident.span),
                    span,
                )
            },
            None => {
                self.report(report_undeclared_identifier(context.at(span)));
                poisoned(span)
            },
        }
    }

    /// The expression that a path stands for: a single name, a generic function
    /// with type arguments, or a member of a namespace.
    pub fn build_path_expression(
        &mut self,
        ctx: &mut ExprContext,
        access: AccessContext,
        path: &List<PathSegment>,
        span: TextSpan,
        depth: usize,
    ) -> (result: Option<Expression>)
        ensures
            (final(self)@, *final(ctx), result) == old(self)@.build_path_expression(
                *old(ctx),
                access,
                path,
                span,
                signatures::resolver(depth),
            ),
        decreases depth, 7int, List::<usize>::Nil, 0int,
    {
        match path {
            List::Nil => None,
            List::Cons(first, rest) => {
                if !rest.is_empty() {
                    let root = self.resolve_path_root(
                        ctx.resolve_context,
                        ctx.scope,
                        first,
                        depth,
                    )?;
                    return self.walk_expression_path(
                        ctx,
                        spanned(root, first.ident.span),
                        rest,
                        span,
                        depth,
                    );
                }
                if first.type_args.is_empty() {
                    let expr = self.build_name_expression(ctx, access, first.ident.inner, span);
                    return Some(expr);
                }
                let expr = self.build_generic_function_reference(ctx, first, span, depth);
                Some(expr)
            },
        }
    }
}

} // verus!
