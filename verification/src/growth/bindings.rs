//! What `bindings` does to the state only adds to it.

use vstd::prelude::*;

use crate::ast;
use crate::ast::{PathSegment, PatternField};
use crate::bindings;
use crate::growth;
use crate::list::List;
use crate::lookup::TypeArgArity;
use crate::reports::{
    report_tuple_pattern_arity, report_tuple_pattern_mismatch, report_unknown_struct_field,
};
use crate::scope::{next_index, ExprContext};
use crate::span::{DefId, SourceSpan, Spanned, Symbol, TextSpan};
use crate::state::State;
use crate::tir::{Expression, GenericScope, PathStep, PatternBinding, ResolveContext};
use crate::ty;
use crate::types::{Type, TypeIndex};
use crate::typing::FieldAccessKind;

verus! {

impl<'ast> State<'ast> {
    pub broadcast proof fn adds_bind_name(
        self,
        ctx: ExprContext,
        name: Spanned<Symbol>,
        mut_span: Option<TextSpan>,
        ty: TypeIndex,
        route: &List<PathStep>,
        bindings: List<PatternBinding>,
    )
        ensures
            self.only_adds(
                (#[trigger] self.bind_name(ctx, name, mut_span, ty, route, bindings)).0,
            ),
    {
        broadcast use crate::growth::group_adding;

        self.adds_nothing();
        reveal(State::bind_name);
    }

    pub proof fn adds_collect_pattern_bindings(
        self,
        ctx: ExprContext,
        pattern: &Spanned<ast::Pattern>,
        ty: TypeIndex,
        route: &List<PathStep>,
        bindings: List<PatternBinding>,
        pending: spec_fn(State<'ast>, DefId) -> State<'ast>,
    )
        requires
            growth::resolver_adds(pending),
        ensures
            self.only_adds(
                self.collect_pattern_bindings(ctx, pattern, ty, route, bindings, pending).0,
            ),
        decreases 7int, pattern, 3int,
    {
        broadcast use crate::growth::group_finishing;

        self.adds_nothing();
        let span = ctx.resolve_context.at(pattern.span);
        match &pattern.inner {
            ast::Pattern::Wildcard => {},
            ast::Pattern::Binding { mut_span, name } => {},
            ast::Pattern::Tuple { elements } => {
                if ty == ty::UNIT && elements.is_empty() {
                } else {
                    match self.ty(ty) {
                        Type::Tuple { elements: types } => {
                            if types.len() == elements.len() {
                                self.adds_bind_tuple_elements(
                                    ctx,
                                    elements,
                                    &types,
                                    ty,
                                    0,
                                    route,
                                    bindings,
                                    pending,
                                );
                            } else {
                                let s = if ty != ty::ERROR {
                                    self.report(
                                        report_tuple_pattern_arity(
                                            elements.len(),
                                            ty,
                                            types.len(),
                                            span,
                                        ),
                                    )
                                } else {
                                    self
                                };
                                s.adds_bind_poisoned_elements(
                                    ctx,
                                    elements,
                                    route,
                                    bindings,
                                    pending,
                                );
                            }
                        },
                        _ => {
                            let s = if ty != ty::ERROR {
                                self.report(report_tuple_pattern_mismatch(ty, span))
                            } else {
                                self
                            };
                            s.adds_bind_poisoned_elements(
                                ctx,
                                elements,
                                route,
                                bindings,
                                pending,
                            );
                        },
                    }
                }
            },
            ast::Pattern::Struct { .. } => {
                self.adds_collect_struct_pattern_bindings(
                    ctx,
                    pattern,
                    ty,
                    route,
                    bindings,
                    pending,
                );
            },
        }
    }

    pub proof fn adds_bind_tuple_elements(
        self,
        ctx: ExprContext,
        elements: &List<Spanned<ast::Pattern>>,
        types: &List<TypeIndex>,
        ty: TypeIndex,
        index: usize,
        route: &List<PathStep>,
        bindings: List<PatternBinding>,
        pending: spec_fn(State<'ast>, DefId) -> State<'ast>,
    )
        requires
            growth::resolver_adds(pending),
        ensures
            self.only_adds(
                self.bind_tuple_elements(
                    ctx,
                    elements,
                    types,
                    ty,
                    index,
                    route,
                    bindings,
                    pending,
                ).0,
            ),
        decreases 7int, elements, 1int,
    {
        broadcast use crate::growth::group_finishing;

        self.adds_nothing();
        match (elements, types) {
            (List::Cons(element, elements_rest), List::Cons(element_ty, types_rest)) => {
                self.adds_collect_pattern_bindings(
                    ctx,
                    element,
                    **element_ty,
                    &bindings::longer_route(route, ty, index),
                    bindings,
                    pending,
                );
                let (s, ctx, bindings) = self.collect_pattern_bindings(
                    ctx,
                    element,
                    **element_ty,
                    &bindings::longer_route(route, ty, index),
                    bindings,
                    pending,
                );
                s.adds_bind_tuple_elements(
                    ctx,
                    elements_rest,
                    types_rest,
                    ty,
                    next_index(index),
                    route,
                    bindings,
                    pending,
                );
            },
            _ => {},
        }
    }

    pub proof fn adds_bind_poisoned_elements(
        self,
        ctx: ExprContext,
        elements: &List<Spanned<ast::Pattern>>,
        route: &List<PathStep>,
        bindings: List<PatternBinding>,
        pending: spec_fn(State<'ast>, DefId) -> State<'ast>,
    )
        requires
            growth::resolver_adds(pending),
        ensures
            self.only_adds(
                self.bind_poisoned_elements(ctx, elements, route, bindings, pending).0,
            ),
        decreases 7int, elements, 1int,
    {
        broadcast use crate::growth::group_finishing;

        self.adds_nothing();
        match elements {
            List::Nil => {},
            List::Cons(element, rest) => {
                self.adds_collect_pattern_bindings(
                    ctx,
                    element,
                    ty::ERROR,
                    route,
                    bindings,
                    pending,
                );
                let (s, ctx, bindings) = self.collect_pattern_bindings(
                    ctx,
                    element,
                    ty::ERROR,
                    route,
                    bindings,
                    pending,
                );
                s.adds_bind_poisoned_elements(ctx, rest, route, bindings, pending);
            },
        }
    }

    pub proof fn adds_collect_struct_pattern_bindings(
        self,
        ctx: ExprContext,
        pattern: &Spanned<ast::Pattern>,
        ty: TypeIndex,
        route: &List<PathStep>,
        bindings: List<PatternBinding>,
        pending: spec_fn(State<'ast>, DefId) -> State<'ast>,
    )
        requires
            growth::resolver_adds(pending),
        ensures
            self.only_adds(
                self.collect_struct_pattern_bindings(
                    ctx,
                    pattern,
                    ty,
                    route,
                    bindings,
                    pending,
                ).0,
            ),
        decreases 7int, pattern, 2int,
    {
        broadcast use crate::growth::group_finishing;

        self.adds_nothing();
        match &pattern.inner {
            ast::Pattern::Struct { path, fields, rest } => {
                let context: ResolveContext = ctx.resolve_context;
                self.adds_resolve_pattern_struct(context, ctx.scope, path, pattern.span, pending);
                let (s, named) = self.resolve_pattern_struct(
                    context,
                    ctx.scope,
                    path,
                    pattern.span,
                    pending,
                );
                match s.matching_struct(ty, named) {
                    Some((struct_index, args)) => {
                        let (name, count, _) = s.struct_shape(struct_index);
                        s.adds_bind_pattern_fields(
                            ctx,
                            fields,
                            struct_index,
                            name,
                            &args,
                            ty,
                            route,
                            List::repeat(None, count),
                            bindings,
                            pending,
                        );
                    },
                    None => {
                        let s = s.report_struct_pattern(ty, context.at(pattern.span));
                        s.adds_bind_poisoned_fields(ctx, fields, route, bindings, pending);
                    },
                }
            },
            _ => {},
        }
    }

    pub proof fn adds_resolve_pattern_struct(
        self,
        context: ResolveContext,
        scope: Option<GenericScope>,
        path: &List<PathSegment>,
        span: TextSpan,
        pending: spec_fn(State<'ast>, DefId) -> State<'ast>,
    )
        requires
            growth::resolver_adds(pending),
        ensures
            self.only_adds(self.resolve_pattern_struct(context, scope, path, span, pending).0),
        decreases 6int, List::<usize>::Nil, 0int,
    {
        broadcast use crate::growth::group_finishing;

        self.adds_nothing();
        self.adds_resolve_path_type(
            context,
            scope,
            path,
            span,
            TypeArgArity::AllowInfer,
            pending,
        );
    }

    pub broadcast proof fn adds_report_struct_pattern(self, ty: TypeIndex, span: SourceSpan)
        ensures
            self.only_adds(#[trigger] self.report_struct_pattern(ty, span)),
    {
        broadcast use crate::growth::group_adding;

        self.adds_nothing();
        reveal(State::report_struct_pattern);
    }

    pub broadcast proof fn adds_report_missing_pattern_names(
        self,
        struct_index: usize,
        name: Symbol,
        mentions: &List<Option<TextSpan>>,
        span: SourceSpan,
    )
        ensures
            self.only_adds(
                #[trigger] self.report_missing_pattern_names(struct_index, name, mentions, span),
            ),
    {
        broadcast use crate::growth::group_adding;

        self.adds_nothing();
    }

    pub proof fn adds_bind_pattern_fields(
        self,
        ctx: ExprContext,
        fields: &List<PatternField>,
        struct_index: usize,
        struct_name: Symbol,
        args: &List<TypeIndex>,
        ty: TypeIndex,
        route: &List<PathStep>,
        mentions: List<Option<TextSpan>>,
        bindings: List<PatternBinding>,
        pending: spec_fn(State<'ast>, DefId) -> State<'ast>,
    )
        requires
            growth::resolver_adds(pending),
        ensures
            self.only_adds(
                self.bind_pattern_fields(
                    ctx,
                    fields,
                    struct_index,
                    struct_name,
                    args,
                    ty,
                    route,
                    mentions,
                    bindings,
                    pending,
                ).0,
            ),
        decreases 7int, fields, 1int,
    {
        broadcast use crate::growth::group_finishing;

        self.adds_nothing();
        match fields {
            List::Nil => {},
            List::Cons(field, rest) => {
                self.adds_bind_pattern_field(
                    ctx,
                    field,
                    struct_index,
                    struct_name,
                    args,
                    ty,
                    route,
                    mentions,
                    bindings,
                    pending,
                );
                let (s, ctx, (mentions, bindings)) = self.bind_pattern_field(
                    ctx,
                    field,
                    struct_index,
                    struct_name,
                    args,
                    ty,
                    route,
                    mentions,
                    bindings,
                    pending,
                );
                s.adds_bind_pattern_fields(
                    ctx,
                    rest,
                    struct_index,
                    struct_name,
                    args,
                    ty,
                    route,
                    mentions,
                    bindings,
                    pending,
                );
            },
        }
    }

    pub proof fn adds_bind_pattern_field(
        self,
        ctx: ExprContext,
        field: &PatternField,
        struct_index: usize,
        struct_name: Symbol,
        args: &List<TypeIndex>,
        ty: TypeIndex,
        route: &List<PathStep>,
        mentions: List<Option<TextSpan>>,
        bindings: List<PatternBinding>,
        pending: spec_fn(State<'ast>, DefId) -> State<'ast>,
    )
        requires
            growth::resolver_adds(pending),
        ensures
            self.only_adds(
                self.bind_pattern_field(
                    ctx,
                    field,
                    struct_index,
                    struct_name,
                    args,
                    ty,
                    route,
                    mentions,
                    bindings,
                    pending,
                ).0,
            ),
        decreases 7int, field, 2int,
    {
        broadcast use crate::growth::group_finishing;

        self.adds_nothing();
        let context: ResolveContext = ctx.resolve_context;
        let (s, resolved) = self.resolve_struct_field(
            context,
            struct_index,
            args,
            field.name,
            FieldAccessKind::Read,
        );
        match resolved {
            None => {
                let s = s.report(
                    report_unknown_struct_field(
                        struct_name,
                        field.name.inner,
                        context.at(field.name.span),
                    ),
                );
                s.adds_bind_struct_pattern_field(ctx, field, ty::ERROR, route, bindings, pending);
            },
            Some(resolved) => {
                let (s, mentions) = s.mention_field(
                    context,
                    field.name,
                    resolved.index,
                    mentions,
                );
                s.adds_bind_struct_pattern_field(
                    ctx,
                    field,
                    resolved.ty,
                    &bindings::longer_route(route, ty, resolved.index),
                    bindings,
                    pending,
                );
            },
        }
    }

    pub broadcast proof fn adds_mention_field(
        self,
        context: ResolveContext,
        name: Spanned<Symbol>,
        index: usize,
        mentions: List<Option<TextSpan>>,
    )
        ensures
            self.only_adds((#[trigger] self.mention_field(context, name, index, mentions)).0),
    {
        broadcast use crate::growth::group_adding;

        self.adds_nothing();
        reveal(State::mention_field);
    }

    pub proof fn adds_bind_poisoned_fields(
        self,
        ctx: ExprContext,
        fields: &List<PatternField>,
        route: &List<PathStep>,
        bindings: List<PatternBinding>,
        pending: spec_fn(State<'ast>, DefId) -> State<'ast>,
    )
        requires
            growth::resolver_adds(pending),
        ensures
            self.only_adds(self.bind_poisoned_fields(ctx, fields, route, bindings, pending).0),
        decreases 7int, fields, 1int,
    {
        broadcast use crate::growth::group_finishing;

        self.adds_nothing();
        match fields {
            List::Nil => {},
            List::Cons(field, rest) => {
                self.adds_bind_struct_pattern_field(
                    ctx,
                    field,
                    ty::ERROR,
                    route,
                    bindings,
                    pending,
                );
                let (s, ctx, bindings) = self.bind_struct_pattern_field(
                    ctx,
                    field,
                    ty::ERROR,
                    route,
                    bindings,
                    pending,
                );
                s.adds_bind_poisoned_fields(ctx, rest, route, bindings, pending);
            },
        }
    }

    pub proof fn adds_bind_struct_pattern_field(
        self,
        ctx: ExprContext,
        field: &PatternField,
        field_ty: TypeIndex,
        route: &List<PathStep>,
        bindings: List<PatternBinding>,
        pending: spec_fn(State<'ast>, DefId) -> State<'ast>,
    )
        requires
            growth::resolver_adds(pending),
        ensures
            self.only_adds(
                self.bind_struct_pattern_field(ctx, field, field_ty, route, bindings, pending).0,
            ),
        decreases 7int, field, 1int,
    {
        broadcast use crate::growth::group_finishing;

        self.adds_nothing();
        match &field.pattern {
            Some(pattern) => {
                self.adds_collect_pattern_bindings(
                    ctx,
                    pattern,
                    field_ty,
                    route,
                    bindings,
                    pending,
                );
            },
            None => {},
        }
    }

    pub proof fn adds_define_locals(
        self,
        ctx: ExprContext,
        pattern: &Spanned<ast::Pattern>,
        ty: TypeIndex,
        value: Expression,
        span: TextSpan,
        pending: spec_fn(State<'ast>, DefId) -> State<'ast>,
    )
        requires
            growth::resolver_adds(pending),
        ensures
            self.only_adds(self.define_locals(ctx, pattern, ty, value, span, pending).0),
        decreases 7int, pattern, 4int,
    {
        broadcast use crate::growth::group_finishing;

        self.adds_nothing();
        let statement_ty = if ty == ty::NEVER {
            ty::NEVER
        } else {
            ty::UNIT
        };
        match &pattern.inner {
            ast::Pattern::Binding { mut_span, name } => {},
            ast::Pattern::Wildcard => {},
            _ => {
                self.adds_collect_pattern_bindings(
                    ctx,
                    pattern,
                    ty,
                    &List::Nil,
                    List::Nil,
                    pending,
                );
            },
        }
    }
}

} // verus!
