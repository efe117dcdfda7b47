//! What `bindings` builds, it builds in the scope that it is in.

use vstd::prelude::*;

use crate::ast;
use crate::ast::PatternField;
use crate::bindings;
use crate::list::List;
use crate::reports::{
    report_tuple_pattern_arity, report_tuple_pattern_mismatch, report_unknown_struct_field,
};
use crate::scope::{next_index, ExprContext};
use crate::span::{DefId, Spanned, Symbol, TextSpan};
use crate::state::State;
use crate::tir::{Expression, PathStep, PatternBinding, ResolveContext};
use crate::ty;
use crate::types::{Type, TypeIndex};
use crate::typing::FieldAccessKind;

verus! {

impl<'ast> State<'ast> {
    pub broadcast proof fn keeps_bind_name(
        self,
        ctx: ExprContext,
        name: Spanned<Symbol>,
        mut_span: Option<TextSpan>,
        ty: TypeIndex,
        route: &List<PathStep>,
        bindings: List<PatternBinding>,
    )
        ensures
            ctx.stays_in_scope(
                (#[trigger] self.bind_name(ctx, name, mut_span, ty, route, bindings)).1,
            ),
    {
        broadcast use crate::nesting::group_nesting;

        ctx.grows_into_itself();
        reveal(State::bind_name);
    }

    pub proof fn keeps_collect_pattern_bindings(
        self,
        ctx: ExprContext,
        pattern: &Spanned<ast::Pattern>,
        ty: TypeIndex,
        route: &List<PathStep>,
        bindings: List<PatternBinding>,
        pending: spec_fn(State<'ast>, DefId) -> State<'ast>,
    )
        ensures
            ctx.stays_in_scope(
                self.collect_pattern_bindings(ctx, pattern, ty, route, bindings, pending).1,
            ),
        decreases 7int, pattern, 3int,
    {
        broadcast use crate::nesting::group_staying;

        ctx.grows_into_itself();
        let span = ctx.resolve_context.at(pattern.span);
        match &pattern.inner {
            ast::Pattern::Wildcard => {},
            ast::Pattern::Binding { mut_span, name } => {},
            ast::Pattern::Tuple { elements } => {
                if ty == ty::UNIT && elements.is_empty() {
                } else {
                    match self.ty(ty) {
                        Type::Tuple { elements: types } => {
                            if types.len() == elements.len() {
                                self.keeps_bind_tuple_elements(
                                    ctx,
                                    elements,
                                    &types,
                                    ty,
                                    0,
                                    route,
                                    bindings,
                                    pending,
                                );
                            } else {
                                let s = if ty != ty::ERROR {
                                    self.report(
                                        report_tuple_pattern_arity(
                                            elements.len(),
                                            ty,
                                            types.len(),
                                            span,
                                        ),
                                    )
                                } else {
                                    self
                                };
                                s.keeps_bind_poisoned_elements(
                                    ctx,
                                    elements,
                                    route,
                                    bindings,
                                    pending,
                                );
                            }
                        },
                        _ => {
                            let s = if ty != ty::ERROR {
                                self.report(report_tuple_pattern_mismatch(ty, span))
                            } else {
                                self
                            };
                            s.keeps_bind_poisoned_elements(
                                ctx,
                                elements,
                                route,
                                bindings,
                                pending,
                            );
                        },
                    }
                }
            },
            ast::Pattern::Struct { .. } => {
                self.keeps_collect_struct_pattern_bindings(
                    ctx,
                    pattern,
                    ty,
                    route,
                    bindings,
                    pending,
                );
            },
        }
    }

    pub proof fn keeps_bind_tuple_elements(
        self,
        ctx: ExprContext,
        elements: &List<Spanned<ast::Pattern>>,
        types: &List<TypeIndex>,
        ty: TypeIndex,
        index: usize,
        route: &List<PathStep>,
        bindings: List<PatternBinding>,
        pending: spec_fn(State<'ast>, DefId) -> State<'ast>,
    )
        ensures
            ctx.stays_in_scope(
                self.bind_tuple_elements(
                    ctx,
                    elements,
                    types,
                    ty,
                    index,
                    route,
                    bindings,
                    pending,
                ).1,
            ),
        decreases 7int, elements, 1int,
    {
        broadcast use crate::nesting::group_staying;

        ctx.grows_into_itself();
        match (elements, types) {
            (List::Cons(element, elements_rest), List::Cons(element_ty, types_rest)) => {
                self.keeps_collect_pattern_bindings(
                    ctx,
                    element,
                    **element_ty,
                    &bindings::longer_route(route, ty, index),
                    bindings,
                    pending,
                );
                let (s, ctx, bindings) = self.collect_pattern_bindings(
                    ctx,
                    element,
                    **element_ty,
                    &bindings::longer_route(route, ty, index),
                    bindings,
                    pending,
                );
                s.keeps_bind_tuple_elements(
                    ctx,
                    elements_rest,
                    types_rest,
                    ty,
                    next_index(index),
                    route,
                    bindings,
                    pending,
                );
            },
            _ => {},
        }
    }

    pub proof fn keeps_bind_poisoned_elements(
        self,
        ctx: ExprContext,
        elements: &List<Spanned<ast::Pattern>>,
        route: &List<PathStep>,
        bindings: List<PatternBinding>,
        pending: spec_fn(State<'ast>, DefId) -> State<'ast>,
    )
        ensures
            ctx.stays_in_scope(
                self.bind_poisoned_elements(ctx, elements, route, bindings, pending).1,
            ),
        decreases 7int, elements, 1int,
    {
        broadcast use crate::nesting::group_staying;

        ctx.grows_into_itself();
        match elements {
            List::Nil => {},
            List::Cons(element, rest) => {
                self.keeps_collect_pattern_bindings(
                    ctx,
                    element,
                    ty::ERROR,
                    route,
                    bindings,
                    pending,
                );
                let (s, ctx, bindings) = self.collect_pattern_bindings(
                    ctx,
                    element,
                    ty::ERROR,
                    route,
                    bindings,
                    pending,
                );
                s.keeps_bind_poisoned_elements(ctx, rest, route, bindings, pending);
            },
        }
    }

    pub proof fn keeps_collect_struct_pattern_bindings(
        self,
        ctx: ExprContext,
        pattern: &Spanned<ast::Pattern>,
        ty: TypeIndex,
        route: &List<PathStep>,
        bindings: List<PatternBinding>,
        pending: spec_fn(State<'ast>, DefId) -> State<'ast>,
    )
        ensures
            ctx.stays_in_scope(
                self.collect_struct_pattern_bindings(
                    ctx,
                    pattern,
                    ty,
                    route,
                    bindings,
                    pending,
                ).1,
            ),
        decreases 7int, pattern, 2int,
    {
        broadcast use crate::nesting::group_staying;

        ctx.grows_into_itself();
        match &pattern.inner {
            ast::Pattern::Struct { path, fields, rest } => {
                let context: ResolveContext = ctx.resolve_context;
                let (s, named) = self.resolve_pattern_struct(
                    context,
                    ctx.scope,
                    path,
                    pattern.span,
                    pending,
                );
                match s.matching_struct(ty, named) {
                    Some((struct_index, args)) => {
                        let (name, count, _) = s.struct_shape(struct_index);
                        s.keeps_bind_pattern_fields(
                            ctx,
                            fields,
                            struct_index,
                            name,
                            &args,
                            ty,
                            route,
                            List::repeat(None, count),
                            bindings,
                            pending,
                        );
                    },
                    None => {
                        let s = s.report_struct_pattern(ty, context.at(pattern.span));
                        s.keeps_bind_poisoned_fields(ctx, fields, route, bindings, pending);
                    },
                }
            },
            _ => {},
        }
    }

    pub proof fn keeps_bind_pattern_fields(
        self,
        ctx: ExprContext,
        fields: &List<PatternField>,
        struct_index: usize,
        struct_name: Symbol,
        args: &List<TypeIndex>,
        ty: TypeIndex,
        route: &List<PathStep>,
        mentions: List<Option<TextSpan>>,
        bindings: List<PatternBinding>,
        pending: spec_fn(State<'ast>, DefId) -> State<'ast>,
    )
        ensures
            ctx.stays_in_scope(
                self.bind_pattern_fields(
                    ctx,
                    fields,
                    struct_index,
                    struct_name,
                    args,
                    ty,
                    route,
                    mentions,
                    bindings,
                    pending,
                ).1,
            ),
        decreases 7int, fields, 1int,
    {
        broadcast use crate::nesting::group_staying;

        ctx.grows_into_itself();
        match fields {
            List::Nil => {},
            List::Cons(field, rest) => {
                self.keeps_bind_pattern_field(
                    ctx,
                    field,
                    struct_index,
                    struct_name,
                    args,
                    ty,
                    route,
                    mentions,
                    bindings,
                    pending,
                );
                let (s, ctx, (mentions, bindings)) = self.bind_pattern_field(
                    ctx,
                    field,
                    struct_index,
                    struct_name,
                    args,
                    ty,
                    route,
                    mentions,
                    bindings,
                    pending,
                );
                s.keeps_bind_pattern_fields(
                    ctx,
                    rest,
                    struct_index,
                    struct_name,
                    args,
                    ty,
                    route,
                    mentions,
                    bindings,
                    pending,
                );
            },
        }
    }

    pub proof fn keeps_bind_pattern_field(
        self,
        ctx: ExprContext,
        field: &PatternField,
        struct_index: usize,
        struct_name: Symbol,
        args: &List<TypeIndex>,
        ty: TypeIndex,
        route: &List<PathStep>,
        mentions: List<Option<TextSpan>>,
        bindings: List<PatternBinding>,
        pending: spec_fn(State<'ast>, DefId) -> State<'ast>,
    )
        ensures
            ctx.stays_in_scope(
                self.bind_pattern_field(
                    ctx,
                    field,
                    struct_index,
                    struct_name,
                    args,
                    ty,
                    route,
                    mentions,
                    bindings,
                    pending,
                ).1,
            ),
        decreases 7int, field, 2int,
    {
        broadcast use crate::nesting::group_staying;

        ctx.grows_into_itself();
        let context: ResolveContext = ctx.resolve_context;
        let (s, resolved) = self.resolve_struct_field(
            context,
            struct_index,
            args,
            field.name,
            FieldAccessKind::Read,
        );
        match resolved {
            None => {
                let s = s.report(
                    report_unknown_struct_field(
                        struct_name,
                        field.name.inner,
                        context.at(field.name.span),
                    ),
                );
                s.keeps_bind_struct_pattern_field(
                    ctx,
                    field,
                    ty::ERROR,
                    route,
                    bindings,
                    pending,
                );
            },
            Some(resolved) => {
                let (s, mentions) = s.mention_field(
                    context,
                    field.name,
                    resolved.index,
                    mentions,
                );
                s.keeps_bind_struct_pattern_field(
                    ctx,
                    field,
                    resolved.ty,
                    &bindings::longer_route(route, ty, resolved.index),
                    bindings,
                    pending,
                );
            },
        }
    }

    pub proof fn keeps_bind_poisoned_fields(
        self,
        ctx: ExprContext,
        fields: &List<PatternField>,
        route: &List<PathStep>,
        bindings: List<PatternBinding>,
        pending: spec_fn(State<'ast>, DefId) -> State<'ast>,
    )
        ensures
            ctx.stays_in_scope(
                self.bind_poisoned_fields(ctx, fields, route, bindings, pending).1,
            ),
        decreases 7int, fields, 1int,
    {
        broadcast use crate::nesting::group_staying;

        ctx.grows_into_itself();
        match fields {
            List::Nil => {},
            List::Cons(field, rest) => {
                self.keeps_bind_struct_pattern_field(
                    ctx,
                    field,
                    ty::ERROR,
                    route,
                    bindings,
                    pending,
                );
                let (s, ctx, bindings) = self.bind_struct_pattern_field(
                    ctx,
                    field,
                    ty::ERROR,
                    route,
                    bindings,
                    pending,
                );
                s.keeps_bind_poisoned_fields(ctx, rest, route, bindings, pending);
            },
        }
    }

    pub proof fn keeps_bind_struct_pattern_field(
        self,
        ctx: ExprContext,
        field: &PatternField,
        field_ty: TypeIndex,
        route: &List<PathStep>,
        bindings: List<PatternBinding>,
        pending: spec_fn(State<'ast>, DefId) -> State<'ast>,
    )
        ensures
            ctx.stays_in_scope(
                self.bind_struct_pattern_field(ctx, field, field_ty, route, bindings, pending).1,
            ),
        decreases 7int, field, 1int,
    {
        broadcast use crate::nesting::group_staying;

        ctx.grows_into_itself();
        match &field.pattern {
            Some(pattern) => {
                self.keeps_collect_pattern_bindings(
                    ctx,
                    pattern,
                    field_ty,
                    route,
                    bindings,
                    pending,
                );
            },
            None => {},
        }
    }

    pub proof fn keeps_define_locals(
        self,
        ctx: ExprContext,
        pattern: &Spanned<ast::Pattern>,
        ty: TypeIndex,
        value: Expression,
        span: TextSpan,
        pending: spec_fn(State<'ast>, DefId) -> State<'ast>,
    )
        ensures
            ctx.stays_in_scope(self.define_locals(ctx, pattern, ty, value, span, pending).1),
        decreases 7int, pattern, 4int,
    {
        broadcast use crate::nesting::group_staying;

        ctx.grows_into_itself();
        let statement_ty = if ty == ty::NEVER {
            ty::NEVER
        } else {
            ty::UNIT
        };
        match &pattern.inner {
            ast::Pattern::Binding { mut_span, name } => {},
            ast::Pattern::Wildcard => {},
            _ => {
                self.keeps_collect_pattern_bindings(
                    ctx,
                    pattern,
                    ty,
                    &List::Nil,
                    List::Nil,
                    pending,
                );
            },
        }
    }
}

} // verus!
