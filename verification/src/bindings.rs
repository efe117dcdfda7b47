//! The patterns of `local` definitions: which locals they bind, and where in
//! the value each finds its part.

use vstd::prelude::*;

use crate::ast;
use crate::ast::{PathSegment, PatternField};
use crate::list::List;
use crate::lookup::TypeArgArity;
use crate::reports;
use crate::reports::{
    report_duplicate_struct_field_init, report_missing_pattern_fields, report_not_a_struct_type,
    report_struct_pattern_mismatch, report_struct_pattern_other, report_tuple_pattern_arity,
    report_tuple_pattern_mismatch, report_unknown_struct_field,
};
use crate::resolve;
use crate::resolve::last_span;
use crate::scope::{next_index, ExprContext};
use crate::shape::typed;
use crate::signatures;
use crate::span::{DefId, SourceSpan, Spanned, Symbol, TextSpan};
use crate::state::{Builder, State};
use crate::tir::{
    ExprKind, Expression, GenericScope, Local, PathStep, PatternBinding, ResolveContext,
};
use crate::ty;
use crate::types::{Type, TypeIndex};
use crate::typing;
use crate::typing::{first_mention, last_name, FieldAccessKind};

verus! {

/// The way to a part of a value, one step longer.
pub open spec fn longer_route(
    route: &List<PathStep>,
    aggregate_ty: TypeIndex,
    index: usize,
) -> List<PathStep> {
    let steps: List<PathStep> = *route;
    steps.push(PathStep { aggregate_ty, index })
}

/// The way to a part of a value, one step longer.
pub fn extend_route(
    route: &List<PathStep>,
    aggregate_ty: TypeIndex,
    index: usize,
) -> (result: List<PathStep>)
    ensures
        result == longer_route(route, aggregate_ty, index),
{
    let steps: List<PathStep> = route.duplicate();
    steps.push(PathStep { aggregate_ty, index })
}

impl<'ast> State<'ast> {
    /// Binds a name to a part of the value.
    #[verifier::opaque]
    pub open spec fn bind_name(
        self,
        ctx: ExprContext,
        name: Spanned<Symbol>,
        mut_span: Option<TextSpan>,
        ty: TypeIndex,
        route: &List<PathStep>,
        bindings: List<PatternBinding>,
    ) -> (State<'ast>, ExprContext, List<PatternBinding>) {
        let local_index = ctx.next_local();
        let ctx = ctx.with_local(Local { name, ty, mut_span, accesses: List::Nil });
        (
            self,
            ctx,
            bindings.push(
                PatternBinding { scope_index: ctx.scope_index, local_index, path: *route },
            ),
        )
    }

    /// Binds the names of a pattern to the parts of a value of a type. A pattern
    /// that is not of the value's shape is reported, unless the value failed
    /// before, and its names are bound as poisoned.
    pub open spec fn collect_pattern_bindings(
        self,
        ctx: ExprContext,
        pattern: &Spanned<ast::Pattern>,
        ty: TypeIndex,
        route: &List<PathStep>,
        bindings: List<PatternBinding>,
        pending: spec_fn(State<'ast>, DefId) -> State<'ast>,
    ) -> (State<'ast>, ExprContext, List<PatternBinding>)
        decreases 7int, pattern, 3int,
    {
        let span = ctx.resolve_context.at(pattern.span);
        match &pattern.inner {
            ast::Pattern::Wildcard => (self, ctx, bindings),
            ast::Pattern::Binding { mut_span, name } => {
                self.bind_name(ctx, *name, *mut_span, ty, route, bindings)
            },
            ast::Pattern::Tuple { elements } => {
                if ty == ty::UNIT && elements.is_empty() {
                    (self, ctx, bindings)
                } else {
                    match self.ty(ty) {
                        Type::Tuple { elements: types } => {
                            if types.len() == elements.len() {
                                self.bind_tuple_elements(
                                    ctx,
                                    elements,
                                    &types,
                                    ty,
                                    0,
                                    route,
                                    bindings,
                                    pending,
                                )
                            } else {
                                let s = if ty != ty::ERROR {
                                    self.report(
                                        report_tuple_pattern_arity(
                                            elements.len(),
                                            ty,
                                            types.len(),
                                            span,
                                        ),
                                    )
                                } else {
                                    self
                                };
                                s.bind_poisoned_elements(ctx, elements, route, bindings, pending)
                            }
                        },
                        _ => {
                            let s = if ty != ty::ERROR {
                                self.report(report_tuple_pattern_mismatch(ty, span))
                            } else {
                                self
                            };
                            s.bind_poisoned_elements(ctx, elements, route, bindings, pending)
                        },
                    }
                }
            },
            ast::Pattern::Struct { .. } => {
                self.collect_struct_pattern_bindings(ctx, pattern, ty, route, bindings, pending)
            },
        }
    }

    /// Binds the names of the elements of a tuple pattern.
    pub open spec fn bind_tuple_elements(
        self,
        ctx: ExprContext,
        elements: &List<Spanned<ast::Pattern>>,
        types: &List<TypeIndex>,
        ty: TypeIndex,
        index: usize,
        route: &List<PathStep>,
        bindings: List<PatternBinding>,
        pending: spec_fn(State<'ast>, DefId) -> State<'ast>,
    ) -> (State<'ast>, ExprContext, List<PatternBinding>)
        decreases 7int, elements, 1int,
    {
        match (elements, types) {
            (List::Cons(element, elements_rest), List::Cons(element_ty, types_rest)) => {
                let (s, ctx, bindings) = self.collect_pattern_bindings(
                    ctx,
                    element,
                    **element_ty,
                    &longer_route(route, ty, index),
                    bindings,
                    pending,
                );
                s.bind_tuple_elements(
                    ctx,
                    elements_rest,
                    types_rest,
                    ty,
                    next_index(index),
                    route,
                    bindings,
                    pending,
                )
            },
            _ => (self, ctx, bindings),
        }
    }

    /// Binds the names of the elements of a tuple pattern that does not match.
    pub open spec fn bind_poisoned_elements(
        self,
        ctx: ExprContext,
        elements: &List<Spanned<ast::Pattern>>,
        route: &List<PathStep>,
        bindings: List<PatternBinding>,
        pending: spec_fn(State<'ast>, DefId) -> State<'ast>,
    ) -> (State<'ast>, ExprContext, List<PatternBinding>)
        decreases 7int, elements, 1int,
    {
        match elements {
            List::Nil => (self, ctx, bindings),
            List::Cons(element, rest) => {
                let (s, ctx, bindings) = self.collect_pattern_bindings(
                    ctx,
                    element,
                    ty::ERROR,
                    route,
                    bindings,
                    pending,
                );
                s.bind_poisoned_elements(ctx, rest, route, bindings, pending)
            },
        }
    }

    /// Binds the names of a struct pattern. The value decides which struct it is;
    /// the written path must agree with it.
    pub open spec fn collect_struct_pattern_bindings(
        self,
        ctx: ExprContext,
        pattern: &Spanned<ast::Pattern>,
        ty: TypeIndex,
        route: &List<PathStep>,
        bindings: List<PatternBinding>,
        pending: spec_fn(State<'ast>, DefId) -> State<'ast>,
    ) -> (State<'ast>, ExprContext, List<PatternBinding>)
        decreases 7int, pattern, 2int,
    {
        match &pattern.inner {
            ast::Pattern::Struct { path, fields, rest } => {
                let context: ResolveContext = ctx.resolve_context;
                let (s, named) = self.resolve_pattern_struct(
                    context,
                    ctx.scope,
                    path,
                    pattern.span,
                    pending,
                );
                match s.matching_struct(ty, named) {
                    Some((struct_index, args)) => {
                        let (name, count, _) = s.struct_shape(struct_index);
                        let (s, ctx, (mentions, bindings)) = s.bind_pattern_fields(
                            ctx,
                            fields,
                            struct_index,
                            name,
                            &args,
                            ty,
                            route,
                            List::repeat(None, count),
                            bindings,
                            pending,
                        );
                        let s = if rest.is_none() {
                            s.report_missing_pattern_names(
                                struct_index,
                                name,
                                &mentions,
                                context.at(pattern.span),
                            )
                        } else {
                            s
                        };
                        (s, ctx, bindings)
                    },
                    None => {
                        let s = s.report_struct_pattern(ty, context.at(pattern.span));
                        s.bind_poisoned_fields(ctx, fields, route, bindings, pending)
                    },
                }
            },
            _ => (self, ctx, bindings),
        }
    }

    /// The struct that the path of a struct pattern names. What is no struct is
    /// reported.
    pub open spec fn resolve_pattern_struct(
        self,
        context: ResolveContext,
        scope: Option<GenericScope>,
        path: &List<PathSegment>,
        span: TextSpan,
        pending: spec_fn(State<'ast>, DefId) -> State<'ast>,
    ) -> (State<'ast>, Option<usize>)
        decreases 6int, List::<usize>::Nil, 0int,
    {
        let (s, named_ty) = self.resolve_path_type(
            context,
            scope,
            path,
            span,
            TypeArgArity::AllowInfer,
            pending,
        );
        match s.struct_type(named_ty) {
            Some((struct_index, _)) => (s, Some(struct_index)),
            None => {
                let s = if named_ty != ty::ERROR {
                    s.report(
                        report_not_a_struct_type(
                            typing::last_segment_name(path, 0),
                            context.at(resolve::last_segment_span(path, span)),
                        ),
                    )
                } else {
                    s
                };
                (s, None)
            },
        }
    }

    /// The struct that a value's type is, if the named one is not another.
    pub open spec fn matching_struct(
        self,
        ty: TypeIndex,
        named: Option<usize>,
    ) -> Option<(usize, List<TypeIndex>)> {
        match self.struct_type(ty) {
            Some((struct_index, args)) => {
                match named {
                    Some(other) => {
                        if other == struct_index {
                            Some((struct_index, args))
                        } else {
                            None
                        }
                    },
                    None => Some((struct_index, args)),
                }
            },
            None => None,
        }
    }

    /// Reports a struct pattern that does not match the value, unless the value
    /// failed before.
    #[verifier::opaque]
    pub open spec fn report_struct_pattern(self, ty: TypeIndex, span: SourceSpan) -> State<'ast> {
        if ty == ty::ERROR {
            self
        } else {
            if self.struct_type(ty).is_some() {
                self.report(report_struct_pattern_other(ty, span))
            } else {
                self.report(report_struct_pattern_mismatch(ty, span))
            }
        }
    }

    /// Reports the fields that a struct pattern leaves out.
    pub open spec fn report_missing_pattern_names(
        self,
        struct_index: usize,
        name: Symbol,
        mentions: &List<Option<TextSpan>>,
        span: SourceSpan,
    ) -> State<'ast> {
        let missing = self.missing_struct_fields(struct_index, mentions);
        if !missing.is_empty() {
            self.report(reports::missing_pattern_fields(name, missing, span))
        } else {
            self
        }
    }

    /// Binds the fields of a struct pattern, and collects where each field is
    /// mentioned first.
    pub open spec fn bind_pattern_fields(
        self,
        ctx: ExprContext,
        fields: &List<PatternField>,
        struct_index: usize,
        struct_name: Symbol,
        args: &List<TypeIndex>,
        ty: TypeIndex,
        route: &List<PathStep>,
        mentions: List<Option<TextSpan>>,
        bindings: List<PatternBinding>,
        pending: spec_fn(State<'ast>, DefId) -> State<'ast>,
    ) -> (State<'ast>, ExprContext, (List<Option<TextSpan>>, List<PatternBinding>))
        decreases 7int, fields, 1int,
    {
        match fields {
            List::Nil => (self, ctx, (mentions, bindings)),
            List::Cons(field, rest) => {
                let (s, ctx, (mentions, bindings)) = self.bind_pattern_field(
                    ctx,
                    field,
                    struct_index,
                    struct_name,
                    args,
                    ty,
                    route,
                    mentions,
                    bindings,
                    pending,
                );
                s.bind_pattern_fields(
                    ctx,
                    rest,
                    struct_index,
                    struct_name,
                    args,
                    ty,
                    route,
                    mentions,
                    bindings,
                    pending,
                )
            },
        }
    }

    /// Binds one field of a struct pattern. A field that the struct does not
    /// have, or a second mention of one, is reported.
    pub open spec fn bind_pattern_field(
        self,
        ctx: ExprContext,
        field: &PatternField,
        struct_index: usize,
        struct_name: Symbol,
        args: &List<TypeIndex>,
        ty: TypeIndex,
        route: &List<PathStep>,
        mentions: List<Option<TextSpan>>,
        bindings: List<PatternBinding>,
        pending: spec_fn(State<'ast>, DefId) -> State<'ast>,
    ) -> (State<'ast>, ExprContext, (List<Option<TextSpan>>, List<PatternBinding>))
        decreases 7int, field, 2int,
    {
        let context: ResolveContext = ctx.resolve_context;
        let (s, resolved) = self.resolve_struct_field(
            context,
            struct_index,
            args,
            field.name,
            FieldAccessKind::Read,
        );
        match resolved {
            None => {
                let s = s.report(
                    report_unknown_struct_field(
                        struct_name,
                        field.name.inner,
                        context.at(field.name.span),
                    ),
                );
                let (s, ctx, bindings) = s.bind_struct_pattern_field(
                    ctx,
                    field,
                    ty::ERROR,
                    route,
                    bindings,
                    pending,
                );
                (s, ctx, (mentions, bindings))
            },
            Some(resolved) => {
                let (s, mentions) = s.mention_field(
                    context,
                    field.name,
                    resolved.index,
                    mentions,
                );
                let (s, ctx, bindings) = s.bind_struct_pattern_field(
                    ctx,
                    field,
                    resolved.ty,
                    &longer_route(route, ty, resolved.index),
                    bindings,
                    pending,
                );
                (s, ctx, (mentions, bindings))
            },
        }
    }

    /// Notes where a field is mentioned; a second mention is reported.
    #[verifier::opaque]
    pub open spec fn mention_field(
        self,
        context: ResolveContext,
        name: Spanned<Symbol>,
        index: usize,
        mentions: List<Option<TextSpan>>,
    ) -> (State<'ast>, List<Option<TextSpan>>) {
        match typing::mention_at(&mentions, index) {
            Some(first) => {
                let s = self.report(
                    report_duplicate_struct_field_init(
                        name.inner,
                        context.at(first),
                        context.at(name.span),
                    ),
                );
                (s, mentions)
            },
            None => (self, mentions.set(index, Some(name.span))),
        }
    }

    /// Binds the fields of a struct pattern that does not match.
    pub open spec fn bind_poisoned_fields(
        self,
        ctx: ExprContext,
        fields: &List<PatternField>,
        route: &List<PathStep>,
        bindings: List<PatternBinding>,
        pending: spec_fn(State<'ast>, DefId) -> State<'ast>,
    ) -> (State<'ast>, ExprContext, List<PatternBinding>)
        decreases 7int, fields, 1int,
    {
        match fields {
            List::Nil => (self, ctx, bindings),
            List::Cons(field, rest) => {
                let (s, ctx, bindings) = self.bind_struct_pattern_field(
                    ctx,
                    field,
                    ty::ERROR,
                    route,
                    bindings,
                    pending,
                );
                s.bind_poisoned_fields(ctx, rest, route, bindings, pending)
            },
        }
    }

    /// Binds one entry of a struct pattern; the shorthand `{ x }` binds `x`.
    pub open spec fn bind_struct_pattern_field(
        self,
        ctx: ExprContext,
        field: &PatternField,
        field_ty: TypeIndex,
        route: &List<PathStep>,
        bindings: List<PatternBinding>,
        pending: spec_fn(State<'ast>, DefId) -> State<'ast>,
    ) -> (State<'ast>, ExprContext, List<PatternBinding>)
        decreases 7int, field, 1int,
    {
        match &field.pattern {
            Some(pattern) => {
                self.collect_pattern_bindings(ctx, pattern, field_ty, route, bindings, pending)
            },
            None => self.bind_name(ctx, field.name, None, field_ty, route, bindings),
        }
    }

    /// The definition of the locals of a pattern.
    pub open spec fn define_locals(
        self,
        ctx: ExprContext,
        pattern: &Spanned<ast::Pattern>,
        ty: TypeIndex,
        value: Expression,
        span: TextSpan,
        pending: spec_fn(State<'ast>, DefId) -> State<'ast>,
    ) -> (State<'ast>, ExprContext, Expression)
        decreases 7int, pattern, 4int,
    {
        let statement_ty = if ty == ty::NEVER {
            ty::NEVER
        } else {
            ty::UNIT
        };
        match &pattern.inner {
            ast::Pattern::Binding { mut_span, name } => {
                let local_index = ctx.next_local();
                let ctx = ctx.with_local(
                    Local { name: *name, ty, mut_span: *mut_span, accesses: List::Nil },
                );
                (
                    self,
                    ctx,
                    typed(
                        ExprKind::LocalDeclaration {
                            name: *name,
                            scope_index: ctx.scope_index,
                            local_index,
                            value: Box::new(value),
                        },
                        statement_ty,
                        span,
                    ),
                )
            },
            ast::Pattern::Wildcard => {
                (
                    self,
                    ctx,
                    typed(
                        ExprKind::Assign {
                            left: Box::new(typed(ExprKind::Placeholder, ty, pattern.span)),
                            right: Box::new(value),
                        },
                        statement_ty,
                        span,
                    ),
                )
            },
            _ => {
                let (s, ctx, bindings) = self.collect_pattern_bindings(
                    ctx,
                    pattern,
                    ty,
                    &List::Nil,
                    List::Nil,
                    pending,
                );
                (
                    s,
                    ctx,
                    typed(
                        ExprKind::DestructureDeclaration { value: Box::new(value), bindings },
                        statement_ty,
                        span,
                    ),
                )
            },
        }
    }
}

impl<'ast> Builder<'ast> {
    /// Binds a name to a part of the value.
    pub fn bind_name(
        &mut self,
        ctx: &mut ExprContext,
        name: Spanned<Symbol>,
        mut_span: Option<TextSpan>,
        ty: TypeIndex,
        route: &List<PathStep>,
        bindings: List<PatternBinding>,
    ) -> (result: List<PatternBinding>)
        ensures
            (final(self)@, *final(ctx), result) == old(self)@.bind_name(
                *old(ctx),
                name,
                mut_span,
                ty,
                route,
                bindings,
            ),
    {
        proof {
            reveal(State::bind_name);
        }
        let local_index: usize = ctx.push_local(
            Local { name, ty, mut_span, accesses: List::Nil },
        );
        bindings.push(
            PatternBinding { scope_index: ctx.scope_index, local_index, path: route.duplicate() },
        )
    }

    /// Binds the names of a pattern to the parts of a value of a type. A pattern
    /// that is not of the value's shape is reported, unless the value failed
    /// before, and its names are bound as poisoned.
    pub fn collect_pattern_bindings(
        &mut self,
        ctx: &mut ExprContext,
        pattern: &Spanned<ast::Pattern>,
        ty: TypeIndex,
        route: &List<PathStep>,
        bindings: List<PatternBinding>,
        depth: usize,
    ) -> (result: List<PatternBinding>)
        ensures
            (final(self)@, *final(ctx), result) == old(self)@.collect_pattern_bindings(
                *old(ctx),
                pattern,
                ty,
                route,
                bindings,
                signatures::resolver(depth),
            ),
        decreases depth, 7int, pattern, 3int,
    {
        let span = ctx.resolve_context.at(pattern.span);
        match &pattern.inner {
            ast::Pattern::Wildcard => bindings,
            ast::Pattern::Binding { mut_span, name } => {
                self.bind_name(ctx, *name, *mut_span, ty, route, bindings)
            },
            ast::Pattern::Tuple { elements } => {
                if ty == ty::UNIT && elements.is_empty() {
                    return bindings;
                }
                match self.ty(ty) {
                    Type::Tuple { elements: types } => {
                        if types.len() == elements.len() {
                            return self.bind_tuple_elements(
                                ctx,
                                elements,
                                &types,
                                ty,
                                0,
                                route,
                                bindings,
                                depth,
                            );
                        }
                        if ty != ty::ERROR {
                            self.report(
                                report_tuple_pattern_arity(elements.len(), ty, types.len(), span),
                            );
                        }
                        self.bind_poisoned_elements(ctx, elements, route, bindings, depth)
                    },
                    _ => {
                        if ty != ty::ERROR {
                            self.report(report_tuple_pattern_mismatch(ty, span));
                        }
                        self.bind_poisoned_elements(ctx, elements, route, bindings, depth)
                    },
                }
            },
            ast::Pattern::Struct { .. } => {
                self.collect_struct_pattern_bindings(ctx, pattern, ty, route, bindings, depth)
            },
        }
    }

    /// Binds the names of the elements of a tuple pattern.
    pub fn bind_tuple_elements(
        &mut self,
        ctx: &mut ExprContext,
        elements: &List<Spanned<ast::Pattern>>,
        types: &List<TypeIndex>,
        ty: TypeIndex,
        index: usize,
        route: &List<PathStep>,
        bindings: List<PatternBinding>,
        depth: usize,
    ) -> (result: List<PatternBinding>)
        ensures
            (final(self)@, *final(ctx), result) == old(self)@.bind_tuple_elements(
                *old(ctx),
                elements,
                types,
                ty,
                index,
                route,
                bindings,
                signatures::resolver(depth),
            ),
        decreases depth, 7int, elements, 1int,
    {
        match (elements, types) {
            (List::Cons(element, elements_rest), List::Cons(element_ty, types_rest)) => {
                let bindings = self.collect_pattern_bindings(
                    ctx,
                    element,
                    **element_ty,
                    &extend_route(route, ty, index),
                    bindings,
                    depth,
                );
                self.bind_tuple_elements(
                    ctx,
                    elements_rest,
                    types_rest,
                    ty,
                    next_index(index),
                    route,
                    bindings,
                    depth,
                )
            },
            _ => bindings,
        }
    }

    /// Binds the names of the elements of a tuple pattern that does not match.
    pub fn bind_poisoned_elements(
        &mut self,
        ctx: &mut ExprContext,
        elements: &List<Spanned<ast::Pattern>>,
        route: &List<PathStep>,
        bindings: List<PatternBinding>,
        depth: usize,
    ) -> (result: List<PatternBinding>)
        ensures
            (final(self)@, *final(ctx), result) == old(self)@.bind_poisoned_elements(
                *old(ctx),
                elements,
                route,
                bindings,
                signatures::resolver(depth),
            ),
        decreases depth, 7int, elements, 1int,
    {
        match elements {
            List::Nil => bindings,
            List::Cons(element, rest) => {
                let bindings = self.collect_pattern_bindings(
                    ctx,
                    element,
                    ty::ERROR,
                    route,
                    bindings,
                    depth,
                );
                self.bind_poisoned_elements(ctx, rest, route, bindings, depth)
            },
        }
    }

    /// Binds the names of a struct pattern. The value decides which struct it is;
    /// the written path must agree with it.
    pub fn collect_struct_pattern_bindings(
        &mut self,
        ctx: &mut ExprContext,
        pattern: &Spanned<ast::Pattern>,
        ty: TypeIndex,
        route: &List<PathStep>,
        bindings: List<PatternBinding>,
        depth: usize,
    ) -> (result: List<PatternBinding>)
        ensures
            (final(self)@, *final(ctx), result) == old(self)@.collect_struct_pattern_bindings(
                *old(ctx),
                pattern,
                ty,
                route,
                bindings,
                signatures::resolver(depth),
            ),
        decreases depth, 7int, pattern, 2int,
    {
        match &pattern.inner {
            ast::Pattern::Struct { path, fields, rest } => {
                let context: ResolveContext = ctx.resolve_context;
                let named = self.resolve_pattern_struct(
                    context,
                    ctx.scope,
                    path,
                    pattern.span,
                    depth,
                );
                match self.matching_struct(ty, named) {
                    Some((struct_index, args)) => {
                        let (name, count, _) = self.struct_shape(struct_index);
                        let (mentions, bindings) = self.bind_pattern_fields(
                            ctx,
                            fields,
                            struct_index,
                            name,
                            &args,
                            ty,
                            route,
                            List::repeat(None, count),
                            bindings,
                            depth,
                        );
                        if rest.is_none() {
                            self.report_missing_pattern_names(
                                struct_index,
                                name,
                                &mentions,
                                context.at(pattern.span),
                            );
                        }
                        bindings
                    },
                    None => {
                        self.report_struct_pattern(ty, context.at(pattern.span));
                        self.bind_poisoned_fields(ctx, fields, route, bindings, depth)
                    },
                }
            },
            _ => bindings,
        }
    }

    /// The struct that the path of a struct pattern names. What is no struct is
    /// reported.
    pub fn resolve_pattern_struct(
        &mut self,
        context: ResolveContext,
        scope: Option<GenericScope>,
        path: &List<PathSegment>,
        span: TextSpan,
        depth: usize,
    ) -> (result: Option<usize>)
        ensures
            (final(self)@, result) == old(self)@.resolve_pattern_struct(
                context,
                scope,
                path,
                span,
                signatures::resolver(depth),
            ),
        decreases depth, 6int, List::<usize>::Nil, 0int,
    {
        let named_ty: TypeIndex = self.resolve_path_type(
            context,
            scope,
            path,
            span,
            TypeArgArity::AllowInfer,
            depth,
        );
        match self.struct_type(named_ty) {
            Some((struct_index, _)) => Some(struct_index),
            None => {
                if named_ty != ty::ERROR {
                    self.report(
                        report_not_a_struct_type(
                            last_name(path, 0),
                            context.at(last_span(path, span)),
                        ),
                    );
                }
                None
            },
        }
    }

    /// The struct that a value's type is, if the named one is not another.
    pub fn matching_struct(
        &self,
        ty: TypeIndex,
        named: Option<usize>,
    ) -> (result: Option<(usize, List<TypeIndex>)>)
        ensures
            result == self@.matching_struct(ty, named),
    {
        match self.struct_type(ty) {
            Some((struct_index, args)) => match named {
                Some(other) => if other == struct_index {
                    Some((struct_index, args))
                } else {
                    None
                },
                None => Some((struct_index, args)),
            },
            None => None,
        }
    }

    /// Reports a struct pattern that does not match the value, unless the value
    /// failed before.
    pub fn report_struct_pattern(&mut self, ty: TypeIndex, span: SourceSpan)
        ensures
            final(self)@ == old(self)@.report_struct_pattern(ty, span),
    {
        proof {
            reveal(State::report_struct_pattern);
        }
        if ty == ty::ERROR {
            return ;
        }
        if self.struct_type(ty).is_some() {
            self.report(report_struct_pattern_other(ty, span));
        } else {
            self.report(report_struct_pattern_mismatch(ty, span));
        }
    }

    /// Reports the fields that a struct pattern leaves out.
    pub fn report_missing_pattern_names(
        &mut self,
        struct_index: usize,
        name: Symbol,
        mentions: &List<Option<TextSpan>>,
        span: SourceSpan,
    )
        ensures
            final(self)@ == old(self)@.report_missing_pattern_names(
                struct_index,
                name,
                mentions,
                span,
            ),
    {
        let missing = self.missing_struct_fields(struct_index, mentions);
        if !missing.is_empty() {
            self.report(report_missing_pattern_fields(name, &missing, span));
        }
    }

    /// Binds the fields of a struct pattern, and collects where each field is
    /// mentioned first.
    pub fn bind_pattern_fields(
        &mut self,
        ctx: &mut ExprContext,
        fields: &List<PatternField>,
        struct_index: usize,
        struct_name: Symbol,
        args: &List<TypeIndex>,
        ty: TypeIndex,
        route: &List<PathStep>,
        mentions: List<Option<TextSpan>>,
        bindings: List<PatternBinding>,
        depth: usize,
    ) -> (result: (List<Option<TextSpan>>, List<PatternBinding>))
        ensures
            (final(self)@, *final(ctx), result) == old(self)@.bind_pattern_fields(
                *old(ctx),
                fields,
                struct_index,
                struct_name,
                args,
                ty,
                route,
                mentions,
                bindings,
                signatures::resolver(depth),
            ),
        decreases depth, 7int, fields, 1int,
    {
        match fields {
            List::Nil => (mentions, bindings),
            List::Cons(field, rest) => {
                let (mentions, bindings) = self.bind_pattern_field(
                    ctx,
                    field,
                    struct_index,
                    struct_name,
                    args,
                    ty,
                    route,
                    mentions,
                    bindings,
                    depth,
                );
                self.bind_pattern_fields(
                    ctx,
                    rest,
                    struct_index,
                    struct_name,
                    args,
                    ty,
                    route,
                    mentions,
                    bindings,
                    depth,
                )
            },
        }
    }

    /// Binds one field of a struct pattern. A field that the struct does not
    /// have, or a second mention of one, is reported.
    pub fn bind_pattern_field(
        &mut self,
        ctx: &mut ExprContext,
        field: &PatternField,
        struct_index: usize,
        struct_name: Symbol,
        args: &List<TypeIndex>,
        ty: TypeIndex,
        route: &List<PathStep>,
        mentions: List<Option<TextSpan>>,
        bindings: List<PatternBinding>,
        depth: usize,
    ) -> (result: (List<Option<TextSpan>>, List<PatternBinding>))
        ensures
            (final(self)@, *final(ctx), result) == old(self)@.bind_pattern_field(
                *old(ctx),
                field,
                struct_index,
                struct_name,
                args,
                ty,
                route,
                mentions,
                bindings,
                signatures::resolver(depth),
            ),
        decreases depth, 7int, field, 2int,
    {
        let context: ResolveContext = ctx.resolve_context;
        let resolved = self.resolve_struct_field(
            context,
            struct_index,
            args,
            field.name,
            FieldAccessKind::Read,
        );
        match resolved {
            None => {
                self.report(
                    report_unknown_struct_field(
                        struct_name,
                        field.name.inner,
                        context.at(field.name.span),
                    ),
                );
                let bindings = self.bind_struct_pattern_field(
                    ctx,
                    field,
                    ty::ERROR,
                    route,
                    bindings,
                    depth,
                );
                (mentions, bindings)
            },
            Some(resolved) => {
                let mentions = self.mention_field(context, field.name, resolved.index, mentions);
                let bindings = self.bind_struct_pattern_field(
                    ctx,
                    field,
                    resolved.ty,
                    &extend_route(route, ty, resolved.index),
                    bindings,
                    depth,
                );
                (mentions, bindings)
            },
        }
    }

    /// Notes where a field is mentioned; a second mention is reported.
    pub fn mention_field(
        &mut self,
        context: ResolveContext,
        name: Spanned<Symbol>,
        index: usize,
        mentions: List<Option<TextSpan>>,
    ) -> (result: List<Option<TextSpan>>)
        ensures
            (final(self)@, result) == old(self)@.mention_field(context, name, index, mentions),
    {
        proof {
            reveal(State::mention_field);
        }
        match first_mention(&mentions, index) {
            Some(first) => {
                self.report(
                    report_duplicate_struct_field_init(
                        name.inner,
                        context.at(first),
                        context.at(name.span),
                    ),
                );
                mentions
            },
            None => mentions.set(index, Some(name.span)),
        }
    }

    /// Binds the fields of a struct pattern that does not match.
    pub fn bind_poisoned_fields(
        &mut self,
        ctx: &mut ExprContext,
        fields: &List<PatternField>,
        route: &List<PathStep>,
        bindings: List<PatternBinding>,
        depth: usize,
    ) -> (result: List<PatternBinding>)
        ensures
            (final(self)@, *final(ctx), result) == old(self)@.bind_poisoned_fields(
                *old(ctx),
                fields,
                route,
                bindings,
                signatures::resolver(depth),
            ),
        decreases depth, 7int, fields, 1int,
    {
        match fields {
            List::Nil => bindings,
            List::Cons(field, rest) => {
                let bindings = self.bind_struct_pattern_field(
                    ctx,
                    field,
                    ty::ERROR,
                    route,
                    bindings,
                    depth,
                );
                self.bind_poisoned_fields(ctx, rest, route, bindings, depth)
            },
        }
    }

    /// Binds one entry of a struct pattern; the shorthand `{ x }` binds `x`.
    pub fn bind_struct_pattern_field(
        &mut self,
        ctx: &mut ExprContext,
        field: &PatternField,
        field_ty: TypeIndex,
        route: &List<PathStep>,
        bindings: List<PatternBinding>,
        depth: usize,
    ) -> (result: List<PatternBinding>)
        ensures
            (final(self)@, *final(ctx), result) == old(self)@.bind_struct_pattern_field(
                *old(ctx),
                field,
                field_ty,
                route,
                bindings,
                signatures::resolver(depth),
            ),
        decreases depth, 7int, field, 1int,
    {
        match &field.pattern {
            Some(pattern) => {
                self.collect_pattern_bindings(ctx, pattern, field_ty, route, bindings, depth)
            },
            None => self.bind_name(ctx, field.name, None, field_ty, route, bindings),
        }
    }

    /// The definition of the locals of a pattern.
    pub fn define_locals(
        &mut self,
        ctx: &mut ExprContext,
        pattern: &Spanned<ast::Pattern>,
        ty: TypeIndex,
        value: Expression,
        span: TextSpan,
        depth: usize,
    ) -> (result: Expression)
        ensures
            (final(self)@, *final(ctx), result) == old(self)@.define_locals(
                *old(ctx),
                pattern,
                ty,
                value,
                span,
                signatures::resolver(depth),
            ),
        decreases depth, 7int, pattern, 4int,
    {
        let statement_ty: TypeIndex = if ty == ty::NEVER {
            ty::NEVER
        } else {
            ty::UNIT
        };
        match &pattern.inner {
            ast::Pattern::Binding { mut_span, name } => {
                let local_index: usize = ctx.push_local(
                    Local { name: *name, ty, mut_span: *mut_span, accesses: List::Nil },
                );
                typed(
                    ExprKind::LocalDeclaration {
                        name: *name,
                        scope_index: ctx.scope_index,
                        local_index,
                        value: Box::new(value),
                    },
                    statement_ty,
                    span,
                )
            },
            ast::Pattern::Wildcard => typed(
                ExprKind::Assign {
                    left: Box::new(typed(ExprKind::Placeholder, ty, pattern.span)),
                    right: Box::new(value),
                },
                statement_ty,
                span,
            ),
            _ => {
                let bindings = self.collect_pattern_bindings(
                    ctx,
                    pattern,
                    ty,
                    &List::Nil,
                    List::Nil,
                    depth,
                );
                typed(
                    ExprKind::DestructureDeclaration { value: Box::new(value), bindings },
                    statement_ty,
                    span,
                )
            },
        }
    }
}

} // verus!
