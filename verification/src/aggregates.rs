//! Struct literals, tuples, arrays, and what reads out of them.

use vstd::prelude::*;

use crate::ast;
use crate::ast::StructInitField;
use crate::list::{cons, List};
use crate::lookup::TypeArgArity;
use crate::reports::{
    report_array_repeat_count_not_const, report_duplicate_struct_field_init,
    report_not_a_struct_type, report_unknown_struct_field,
};
use crate::resolve;
use crate::resolve::last_span;
use crate::scope::{next_index, ExprContext};
use crate::shape::{reading, typed};
use crate::signatures;
use crate::span::{DefId, SourceSpan, Spanned, Symbol, TextSpan};
use crate::state::{Builder, State};
use crate::tir::{AccessContext, ExprKind, Expression, PlaceKind, ResolveContext};
use crate::ty;
use crate::types::{Type, TypeIndex};
use crate::typing;
use crate::typing::{
    array_size, boxed, empty_slots, expected_element, first_mention, last_has_args, last_name,
    load_expression, repeat_count, repeat_size, FieldAccessKind,
};

verus! {

/// The size of an array as a number of elements.
#[verifier::allow_in_spec]
pub fn size_count(size: u32) -> (result: usize)
    returns
        (size as usize),
{
    size as usize
}

impl<'ast> State<'ast> {
    /// A struct literal. Unknown fields, second mentions and missing fields are
    /// reported.
    pub open spec fn build_struct_init_expression(
        self,
        ctx: ExprContext,
        access: AccessContext,
        expr: &Spanned<ast::Expression>,
        pending: spec_fn(State<'ast>, DefId) -> State<'ast>,
    ) -> (State<'ast>, ExprContext, Option<Expression>)
        decreases 8int, expr, 4int,
    {
        match &expr.inner {
            ast::Expression::StructInit { path, fields } => {
                let context: ResolveContext = ctx.resolve_context;
                let (s, struct_ty) = self.resolve_path_type(
                    context,
                    ctx.scope,
                    path,
                    expr.span,
                    TypeArgArity::AllowInfer,
                    pending,
                );
                if struct_ty == ty::ERROR {
                    (s, ctx, None)
                } else {
                    match s.struct_type(struct_ty) {
                        Some((struct_index, _)) => {
                            let (name, count, params) = s.struct_shape(struct_index);
                            let args = s.struct_init_args(
                                struct_ty,
                                typing::last_segment_applied(path),
                                params,
                                struct_index,
                                access.expected_type,
                            );
                            let (s, ctx, (mentions, slots)) = s.build_init_fields(
                                ctx,
                                fields,
                                struct_index,
                                name,
                                &args,
                                List::repeat(None, count),
                                typing::empty_field_slots(count),
                                pending,
                            );
                            let (s, built) = s.finish_struct_init(
                                context,
                                struct_index,
                                name,
                                args,
                                &mentions,
                                slots,
                                expr.span,
                            );
                            (s, ctx, Some(built))
                        },
                        None => {
                            let s = s.report(
                                report_not_a_struct_type(
                                    typing::last_segment_name(path, 0),
                                    context.at(resolve::last_segment_span(path, expr.span)),
                                ),
                            );
                            (s, ctx, None)
                        },
                    }
                }
            },
            _ => (self, ctx, None),
        }
    }

    /// The fields of a struct literal: where each is mentioned first, and the
    /// values of those that were built.
    pub open spec fn build_init_fields(
        self,
        ctx: ExprContext,
        fields: &List<StructInitField>,
        struct_index: usize,
        struct_name: Symbol,
        args: &List<TypeIndex>,
        mentions: List<Option<TextSpan>>,
        slots: List<Option<Expression>>,
        pending: spec_fn(State<'ast>, DefId) -> State<'ast>,
    ) -> (State<'ast>, ExprContext, (List<Option<TextSpan>>, List<Option<Expression>>))
        decreases 8int, fields, 0int,
    {
        match fields {
            List::Nil => (self, ctx, (mentions, slots)),
            List::Cons(field, rest) => {
                let (s, ctx, (mentions, slots)) = self.build_init_field(
                    ctx,
                    field,
                    struct_index,
                    struct_name,
                    args,
                    mentions,
                    slots,
                    pending,
                );
                s.build_init_fields(
                    ctx,
                    rest,
                    struct_index,
                    struct_name,
                    args,
                    mentions,
                    slots,
                    pending,
                )
            },
        }
    }

    /// One field of a struct literal.
    pub open spec fn build_init_field(
        self,
        ctx: ExprContext,
        field: &StructInitField,
        struct_index: usize,
        struct_name: Symbol,
        args: &List<TypeIndex>,
        mentions: List<Option<TextSpan>>,
        slots: List<Option<Expression>>,
        pending: spec_fn(State<'ast>, DefId) -> State<'ast>,
    ) -> (State<'ast>, ExprContext, (List<Option<TextSpan>>, List<Option<Expression>>))
        decreases 8int, field, 2int,
    {
        let context: ResolveContext = ctx.resolve_context;
        let (s, resolved) = self.resolve_struct_field(
            context,
            struct_index,
            args,
            field.name,
            FieldAccessKind::Init,
        );
        match resolved {
            None => {
                let s = s.report(
                    report_unknown_struct_field(
                        struct_name,
                        field.name.inner,
                        context.at(field.name.span),
                    ),
                );
                (s, ctx, (mentions, slots))
            },
            Some(resolved) => {
                match typing::mention_at(&mentions, resolved.index) {
                    Some(first) => {
                        let s = s.report(
                            report_duplicate_struct_field_init(
                                field.name.inner,
                                context.at(first),
                                context.at(field.name.span),
                            ),
                        );
                        (s, ctx, (mentions, slots))
                    },
                    None => {
                        let mentions = mentions.set(resolved.index, Some(field.name.span));
                        let (s, ctx, value) = s.build_field_value(
                            ctx,
                            field,
                            resolved.ty,
                            pending,
                        );
                        match value {
                            Some(value) => {
                                (s, ctx, (mentions, slots.set(resolved.index, Some(value))))
                            },
                            None => (s, ctx, (mentions, slots)),
                        }
                    },
                }
            },
        }
    }

    /// The value of a field: the written one, or the variable of that name in the
    /// shorthand `{ a }`. `None` where it fails or does not fit.
    pub open spec fn build_field_value(
        self,
        ctx: ExprContext,
        field: &StructInitField,
        expected: TypeIndex,
        pending: spec_fn(State<'ast>, DefId) -> State<'ast>,
    ) -> (State<'ast>, ExprContext, Option<Expression>)
        decreases 8int, field, 1int,
    {
        match &field.value {
            Some(value) => {
                let (s, ctx, built) = self.build_expression(
                    ctx,
                    reading(expected),
                    value,
                    pending,
                );
                match built {
                    Some(built) => {
                        s.fit_field_value(ctx, built, expected)
                    },
                    None => (s, ctx, None),
                }
            },
            None => {
                let (s, ctx, built) = self.build_name_expression(
                    ctx,
                    reading(expected),
                    field.name.inner,
                    field.name.span,
                );
                s.fit_field_value(ctx, built, expected)
            },
        }
    }

    /// A tuple; `()` without elements.
    pub open spec fn build_tuple_expression(
        self,
        ctx: ExprContext,
        access: AccessContext,
        elements: &List<Spanned<ast::Expression>>,
        span: TextSpan,
        pending: spec_fn(State<'ast>, DefId) -> State<'ast>,
    ) -> (State<'ast>, ExprContext, Option<Expression>)
        decreases 8int, elements, 1int,
    {
        if elements.is_empty() {
            (self, ctx, Some(typed(ExprKind::TupleInit { elements: List::Nil }, ty::UNIT, span)))
        } else {
            let expected = self.tuple_types(access.expected_type, elements.len());
            let (s, ctx, (built, failed)) = self.build_tuple_elements(
                ctx,
                elements,
                &expected,
                0,
                pending,
            );
            let (s, tuple) = s.finish_tuple(built, failed, span);
            (s, ctx, Some(tuple))
        }
    }

    /// The elements of a tuple that were built, and whether one failed.
    pub open spec fn build_tuple_elements(
        self,
        ctx: ExprContext,
        elements: &List<Spanned<ast::Expression>>,
        types: &Option<List<TypeIndex>>,
        index: usize,
        pending: spec_fn(State<'ast>, DefId) -> State<'ast>,
    ) -> (State<'ast>, ExprContext, (List<Expression>, bool))
        decreases 8int, elements, 0int,
    {
        match elements {
            List::Nil => (self, ctx, (List::Nil, false)),
            List::Cons(element, rest) => {
                let expected: TypeIndex = typing::type_at_or_infer(types, index);
                let (s, ctx, built) = self.build_expression(
                    ctx,
                    reading(expected),
                    element,
                    pending,
                );
                match built {
                    Some(built) => {
                        let (s, ctx, built) = s.settle_element(ctx, built, expected);
                        let (s, ctx, (others, failed)) = s.build_tuple_elements(
                            ctx,
                            rest,
                            types,
                            next_index(index),
                            pending,
                        );
                        (s, ctx, (cons(built, others), failed))
                    },
                    None => {
                        let (s, ctx, (others, _)) = s.build_tuple_elements(
                            ctx,
                            rest,
                            types,
                            next_index(index),
                            pending,
                        );
                        (s, ctx, (others, true))
                    },
                }
            },
        }
    }

    /// The memory that an array literal is in: the expected one, or the only one
    /// of the program.
    pub open spec fn array_memory(
        self,
        expected: Option<TypeIndex>,
        span: SourceSpan,
        pending: spec_fn(State<'ast>, DefId) -> State<'ast>,
    ) -> (State<'ast>, Option<TypeIndex>)
        decreases 5int, List::<usize>::Nil, 0int,
    {
        match expected {
            Some(memory) => (self, Some(memory)),
            None => self.resolve_ambient_memory(span, pending),
        }
    }

    /// An array literal: number literals of one type.
    pub open spec fn build_array_literal_expression(
        self,
        ctx: ExprContext,
        access: AccessContext,
        elements: &List<Spanned<ast::Expression>>,
        span: TextSpan,
        pending: spec_fn(State<'ast>, DefId) -> State<'ast>,
    ) -> (State<'ast>, ExprContext, Option<Expression>)
        decreases 8int, elements, 1int,
    {
        let context: ResolveContext = ctx.resolve_context;
        let expected = self.expected_array(access.expected_type);
        let size: u32 = array_size(elements.len());
        let (s, fits) = self.check_array_size(
            expected.size,
            size,
            elements.len(),
            context.at(span),
        );
        if !fits {
            (s, ctx, None)
        } else {
            let (s, ctx, built) = s.build_array_elements(ctx, elements, expected.of, pending);
            match built {
                Some(built) => {
                    let (s, of) = s.element_type(context, &built, expected.of, span);
                    match of {
                        Some(of) => {
                            let (s, memory) = s.array_memory(
                                expected.memory,
                                context.at(span),
                                pending,
                            );
                            match memory {
                                Some(memory) => {
                                    let (s, ty) = s.intern(
                                        Type::Array {
                                            of,
                                            size,
                                            memory,
                                            mutable: expected.mutable,
                                        },
                                    );
                                    (
                                        s,
                                        ctx,
                                        Some(
                                            typed(
                                                ExprKind::ArrayLiteral {
                                                    elements: built,
                                                    memory,
                                                },
                                                ty,
                                                span,
                                            ),
                                        ),
                                    )
                                },
                                None => (s, ctx, None),
                            }
                        },
                        None => (s, ctx, None),
                    }
                },
                None => (s, ctx, None),
            }
        }
    }

    /// The elements of an array literal, up to the first that fails.
    pub open spec fn build_array_elements(
        self,
        ctx: ExprContext,
        elements: &List<Spanned<ast::Expression>>,
        expected: TypeIndex,
        pending: spec_fn(State<'ast>, DefId) -> State<'ast>,
    ) -> (State<'ast>, ExprContext, Option<List<Expression>>)
        decreases 8int, elements, 0int,
    {
        match elements {
            List::Nil => (self, ctx, Some(List::Nil)),
            List::Cons(element, rest) => {
                let (s, ctx, built) = self.build_expression(
                    ctx,
                    reading(expected),
                    element,
                    pending,
                );
                match built {
                    Some(built) => {
                        let (s, ctx, built) = s.check_array_element(ctx, built, expected);
                        match built {
                            Some(built) => {
                                let (s, ctx, others) = s.build_array_elements(
                                    ctx,
                                    rest,
                                    expected,
                                    pending,
                                );
                                match others {
                                    Some(others) => {
                                        (s, ctx, Some(cons(built, others)))
                                    },
                                    None => (s, ctx, None),
                                }
                            },
                            None => (s, ctx, None),
                        }
                    },
                    None => (s, ctx, None),
                }
            },
        }
    }

    /// `[value; count]`: the count is an integer literal.
    pub open spec fn build_array_repeat_expression(
        self,
        ctx: ExprContext,
        access: AccessContext,
        expr: &Spanned<ast::Expression>,
        pending: spec_fn(State<'ast>, DefId) -> State<'ast>,
    ) -> (State<'ast>, ExprContext, Option<Expression>)
        decreases 8int, expr, 4int,
    {
        match &expr.inner {
            ast::Expression::ArrayRepeat { value, count } => {
                let context: ResolveContext = ctx.resolve_context;
                let expected = self.expected_array(access.expected_type);
                let (s, ctx, built_count) = self.build_expression(
                    ctx,
                    reading(ty::INFER),
                    count,
                    pending,
                );
                match built_count {
                    Some(built_count) => {
                        match typing::literal_count(&built_count) {
                            Some(number) => {
                                let size: u32 = repeat_size(number);
                                let (s, fits) = s.check_array_size(
                                    expected.size,
                                    size,
                                    size_count(size),
                                    context.at(expr.span),
                                );
                                if !fits {
                                    (s, ctx, None)
                                } else {
                                    let (s, ctx, built) = s.build_expression(
                                        ctx,
                                        reading(expected.of),
                                        value,
                                        pending,
                                    );
                                    match built {
                                        Some(built) => {
                                            let (s, ctx, built) = s.check_array_element(
                                                ctx,
                                                built,
                                                expected.of,
                                            );
                                            match built {
                                                Some(built) => {
                                                    let (s, memory) = s.array_memory(
                                                        expected.memory,
                                                        context.at(expr.span),
                                                        pending,
                                                    );
                                                    match memory {
                                                        Some(memory) => {
                                                            let (s, ty) = s.intern(
                                                                Type::Array {
                                                                    of: built.ty,
                                                                    size,
                                                                    memory,
                                                                    mutable: expected.mutable,
                                                                },
                                                            );
                                                            (
                                                                s,
                                                                ctx,
                                                                Some(
                                                                    typed(
                                                                        ExprKind::ArrayRepeat {
                                                                            value: Box::new(
                                                                                built,
                                                                            ),
                                                                            count: size,
                                                                            memory,
                                                                        },
                                                                        ty,
                                                                        expr.span,
                                                                    ),
                                                                ),
                                                            )
                                                        },
                                                        None => (s, ctx, None),
                                                    }
                                                },
                                                None => (s, ctx, None),
                                            }
                                        },
                                        None => (s, ctx, None),
                                    }
                                }
                            },
                            None => {
                                let s = s.report(
                                    report_array_repeat_count_not_const(context.at(count.span)),
                                );
                                (s, ctx, None)
                            },
                        }
                    },
                    None => (s, ctx, None),
                }
            },
            _ => (self, ctx, None),
        }
    }

    /// `object[index]`: a place in the memory of an array or slice.
    pub open spec fn build_index_expression(
        self,
        ctx: ExprContext,
        access: AccessContext,
        expr: &Spanned<ast::Expression>,
        pending: spec_fn(State<'ast>, DefId) -> State<'ast>,
    ) -> (State<'ast>, ExprContext, Option<Expression>)
        decreases 8int, expr, 4int,
    {
        match &expr.inner {
            ast::Expression::Index { object, index } => {
                let context: ResolveContext = ctx.resolve_context;
                let (s, ctx, built) = self.build_expression(
                    ctx,
                    reading(ty::INFER),
                    object,
                    pending,
                );
                match built {
                    Some(built) => {
                        let (s, found) = s.resolve_indexable(built.ty, context.at(built.span));
                        match found {
                            Some((of, memory, mutable)) => {
                                let s = s.check_writable(
                                    access.access_kind,
                                    mutable,
                                    context.at(expr.span),
                                );
                                let (s, index_type) = s.pointer_type_for_memory(memory);
                                let (s, ctx, position) = s.build_expression(
                                    ctx,
                                    reading(index_type),
                                    index,
                                    pending,
                                );
                                match position {
                                    Some(position) => {
                                        let (s, ctx, position) = s.settle_index(
                                            ctx,
                                            position,
                                            index_type,
                                        );
                                        match position {
                                            Some(position) => {
                                                (
                                                    s,
                                                    ctx,
                                                    Some(
                                                        load_expression(
                                                            PlaceKind::Index {
                                                                object: Box::new(built),
                                                                index: Box::new(position),
                                                            },
                                                            of,
                                                            memory,
                                                            mutable,
                                                            expr.span,
                                                        ),
                                                    ),
                                                )
                                            },
                                            None => (s, ctx, None),
                                        }
                                    },
                                    None => (s, ctx, None),
                                }
                            },
                            None => (s, ctx, None),
                        }
                    },
                    None => (s, ctx, None),
                }
            },
            _ => (self, ctx, None),
        }
    }

    /// A bound of a range, if it is written.
    pub open spec fn build_range_bound(
        self,
        ctx: ExprContext,
        bound: &Option<Box<Spanned<ast::Expression>>>,
        index_type: TypeIndex,
        pending: spec_fn(State<'ast>, DefId) -> State<'ast>,
    ) -> (State<'ast>, ExprContext, Option<Option<Expression>>)
        decreases 8int, bound, 0int,
    {
        match bound {
            Some(bound) => {
                let (s, ctx, built) = self.build_expression(
                    ctx,
                    reading(index_type),
                    bound,
                    pending,
                );
                match built {
                    Some(built) => {
                        let (s, ctx, built) = s.settle_range_bound(
                            ctx,
                            built,
                            index_type,
                            bound.span,
                        );
                        match built {
                            Some(built) => {
                                (s, ctx, Some(Some(built)))
                            },
                            None => (s, ctx, None),
                        }
                    },
                    None => (s, ctx, None),
                }
            },
            None => (self, ctx, Some(None)),
        }
    }

    /// `object[start..end]`: a slice of an array or slice.
    pub open spec fn build_slice_range_expression(
        self,
        ctx: ExprContext,
        expr: &Spanned<ast::Expression>,
        pending: spec_fn(State<'ast>, DefId) -> State<'ast>,
    ) -> (State<'ast>, ExprContext, Option<Expression>)
        decreases 8int, expr, 4int,
    {
        match &expr.inner {
            ast::Expression::SliceRange { object, start, end } => {
                let (s, ctx, built) = self.build_expression(
                    ctx,
                    reading(ty::INFER),
                    object,
                    pending,
                );
                match built {
                    Some(built) => {
                        let (s, found) = s.resolve_indexable(
                            built.ty,
                            ctx.resolve_context.at(built.span),
                        );
                        match found {
                            Some((of, memory, mutable)) => {
                                let (s, index_type) = s.pointer_type_for_memory(memory);
                                let (s, ctx, first) = s.build_range_bound(
                                    ctx,
                                    start,
                                    index_type,
                                    pending,
                                );
                                match first {
                                    Some(first) => {
                                        let (s, ctx, last) = s.build_range_bound(
                                            ctx,
                                            end,
                                            index_type,
                                            pending,
                                        );
                                        match last {
                                            Some(last) => {
                                                let (s, ty) = s.intern(
                                                    Type::Slice { of, memory, mutable },
                                                );
                                                (
                                                    s,
                                                    ctx,
                                                    Some(
                                                        typed(
                                                            ExprKind::SliceRange {
                                                                object: Box::new(built),
                                                                start: boxed(first),
                                                                end: boxed(last),
                                                            },
                                                            ty,
                                                            expr.span,
                                                        ),
                                                    ),
                                                )
                                            },
                                            None => (s, ctx, None),
                                        }
                                    },
                                    None => (s, ctx, None),
                                }
                            },
                            None => (s, ctx, None),
                        }
                    },
                    None => (s, ctx, None),
                }
            },
            _ => (self, ctx, None),
        }
    }
}

impl<'ast> Builder<'ast> {
    /// A struct literal. Unknown fields, second mentions and missing fields are
    /// reported.
    pub fn build_struct_init_expression(
        &mut self,
        ctx: &mut ExprContext,
        access: AccessContext,
        expr: &Spanned<ast::Expression>,
        depth: usize,
    ) -> (result: Option<Expression>)
        ensures
            (final(self)@, *final(ctx), result) == old(self)@.build_struct_init_expression(
                *old(ctx),
                access,
                expr,
                signatures::resolver(depth),
            ),
        decreases depth, 8int, expr, 4int,
    {
        match &expr.inner {
            ast::Expression::StructInit { path, fields } => {
                let context: ResolveContext = ctx.resolve_context;
                let struct_ty: TypeIndex = self.resolve_path_type(
                    context,
                    ctx.scope,
                    path,
                    expr.span,
                    TypeArgArity::AllowInfer,
                    depth,
                );
                if struct_ty == ty::ERROR {
                    return None;
                }
                match self.struct_type(struct_ty) {
                    Some((struct_index, _)) => {
                        let (name, count, params) = self.struct_shape(struct_index);
                        let args = self.struct_init_args(
                            struct_ty,
                            last_has_args(path),
                            params,
                            struct_index,
                            access.expected_type,
                        );
                        let (mentions, slots) = self.build_init_fields(
                            ctx,
                            fields,
                            struct_index,
                            name,
                            &args,
                            List::repeat(None, count),
                            empty_slots(count),
                            depth,
                        );
                        let built = self.finish_struct_init(
                            context,
                            struct_index,
                            name,
                            args,
                            &mentions,
                            slots,
                            expr.span,
                        );
                        Some(built)
                    },
                    None => {
                        self.report(
                            report_not_a_struct_type(
                                last_name(path, 0),
                                context.at(last_span(path, expr.span)),
                            ),
                        );
                        None
                    },
                }
            },
            _ => None,
        }
    }

    /// The fields of a struct literal: where each is mentioned first, and the
    /// values of those that were built.
    pub fn build_init_fields(
        &mut self,
        ctx: &mut ExprContext,
        fields: &List<StructInitField>,
        struct_index: usize,
        struct_name: Symbol,
        args: &List<TypeIndex>,
        mentions: List<Option<TextSpan>>,
        slots: List<Option<Expression>>,
        depth: usize,
    ) -> (result: (List<Option<TextSpan>>, List<Option<Expression>>))
        ensures
            (final(self)@, *final(ctx), result) == old(self)@.build_init_fields(
                *old(ctx),
                fields,
                struct_index,
                struct_name,
                args,
                mentions,
                slots,
                signatures::resolver(depth),
            ),
        decreases depth, 8int, fields, 0int,
    {
        match fields {
            List::Nil => (mentions, slots),
            List::Cons(field, rest) => {
                let (mentions, slots) = self.build_init_field(
                    ctx,
                    field,
                    struct_index,
                    struct_name,
                    args,
                    mentions,
                    slots,
                    depth,
                );
                self.build_init_fields(
                    ctx,
                    rest,
                    struct_index,
                    struct_name,
                    args,
                    mentions,
                    slots,
                    depth,
                )
            },
        }
    }

    /// One field of a struct literal.
    pub fn build_init_field(
        &mut self,
        ctx: &mut ExprContext,
        field: &StructInitField,
        struct_index: usize,
        struct_name: Symbol,
        args: &List<TypeIndex>,
        mentions: List<Option<TextSpan>>,
        slots: List<Option<Expression>>,
        depth: usize,
    ) -> (result: (List<Option<TextSpan>>, List<Option<Expression>>))
        ensures
            (final(self)@, *final(ctx), result) == old(self)@.build_init_field(
                *old(ctx),
                field,
                struct_index,
                struct_name,
                args,
                mentions,
                slots,
                signatures::resolver(depth),
            ),
        decreases depth, 8int, field, 2int,
    {
        let context: ResolveContext = ctx.resolve_context;
        let resolved = self.resolve_struct_field(
            context,
            struct_index,
            args,
            field.name,
            FieldAccessKind::Init,
        );
        match resolved {
            None => {
                self.report(
                    report_unknown_struct_field(
                        struct_name,
                        field.name.inner,
                        context.at(field.name.span),
                    ),
                );
                (mentions, slots)
            },
            Some(resolved) => match first_mention(&mentions, resolved.index) {
                Some(first) => {
                    self.report(
                        report_duplicate_struct_field_init(
                            field.name.inner,
                            context.at(first),
                            context.at(field.name.span),
                        ),
                    );
                    (mentions, slots)
                },
                None => {
                    let mentions = mentions.set(resolved.index, Some(field.name.span));
                    let value = self.build_field_value(ctx, field, resolved.ty, depth);
                    match value {
                        Some(value) => (mentions, slots.set(resolved.index, Some(value))),
                        None => (mentions, slots),
                    }
                },
            },
        }
    }

    /// The value of a field: the written one, or the variable of that name in the
    /// shorthand `{ a }`. `None` where it fails or does not fit.
    pub fn build_field_value(
        &mut self,
        ctx: &mut ExprContext,
        field: &StructInitField,
        expected: TypeIndex,
        depth: usize,
    ) -> (result: Option<Expression>)
        ensures
            (final(self)@, *final(ctx), result) == old(self)@.build_field_value(
                *old(ctx),
                field,
                expected,
                signatures::resolver(depth),
            ),
        decreases depth, 8int, field, 1int,
    {
        match &field.value {
            Some(value) => {
                let built = self.build_expression(ctx, reading(expected), value, depth)?;
                self.fit_field_value(ctx, built, expected)
            },
            None => {
                let built = self.build_name_expression(
                    ctx,
                    reading(expected),
                    field.name.inner,
                    field.name.span,
                );
                self.fit_field_value(ctx, built, expected)
            },
        }
    }

    /// A tuple; `()` without elements.
    pub fn build_tuple_expression(
        &mut self,
        ctx: &mut ExprContext,
        access: AccessContext,
        elements: &List<Spanned<ast::Expression>>,
        span: TextSpan,
        depth: usize,
    ) -> (result: Option<Expression>)
        ensures
            (final(self)@, *final(ctx), result) == old(self)@.build_tuple_expression(
                *old(ctx),
                access,
                elements,
                span,
                signatures::resolver(depth),
            ),
        decreases depth, 8int, elements, 1int,
    {
        if elements.is_empty() {
            return Some(typed(ExprKind::TupleInit { elements: List::Nil }, ty::UNIT, span));
        }
        let expected = self.tuple_types(access.expected_type, elements.len());
        let (built, failed) = self.build_tuple_elements(ctx, elements, &expected, 0, depth);
        let tuple = self.finish_tuple(built, failed, span);
        Some(tuple)
    }

    /// The elements of a tuple that were built, and whether one failed.
    pub fn build_tuple_elements(
        &mut self,
        ctx: &mut ExprContext,
        elements: &List<Spanned<ast::Expression>>,
        types: &Option<List<TypeIndex>>,
        index: usize,
        depth: usize,
    ) -> (result: (List<Expression>, bool))
        ensures
            (final(self)@, *final(ctx), result) == old(self)@.build_tuple_elements(
                *old(ctx),
                elements,
                types,
                index,
                signatures::resolver(depth),
            ),
        decreases depth, 8int, elements, 0int,
    {
        match elements {
            List::Nil => (List::Nil, false),
            List::Cons(element, rest) => {
                let expected: TypeIndex = expected_element(types, index);
                let built = self.build_expression(ctx, reading(expected), element, depth);
                match built {
                    Some(built) => {
                        let built = self.settle_element(ctx, built, expected);
                        let (others, failed) = self.build_tuple_elements(
                            ctx,
                            rest,
                            types,
                            next_index(index),
                            depth,
                        );
                        (cons(built, others), failed)
                    },
                    None => {
                        let (others, _) = self.build_tuple_elements(
                            ctx,
                            rest,
                            types,
                            next_index(index),
                            depth,
                        );
                        (others, true)
                    },
                }
            },
        }
    }

    /// The memory that an array literal is in: the expected one, or the only one
    /// of the program.
    pub fn array_memory(
        &mut self,
        expected: Option<TypeIndex>,
        span: SourceSpan,
        depth: usize,
    ) -> (result: Option<TypeIndex>)
        ensures
            (final(self)@, result) == old(self)@.array_memory(
                expected,
                span,
                signatures::resolver(depth),
            ),
        decreases depth, 5int, List::<usize>::Nil, 0int,
    {
        match expected {
            Some(memory) => Some(memory),
            None => self.resolve_ambient_memory(span, depth),
        }
    }

    /// An array literal: number literals of one type.
    pub fn build_array_literal_expression(
        &mut self,
        ctx: &mut ExprContext,
        access: AccessContext,
        elements: &List<Spanned<ast::Expression>>,
        span: TextSpan,
        depth: usize,
    ) -> (result: Option<Expression>)
        ensures
            (final(self)@, *final(ctx), result) == old(self)@.build_array_literal_expression(
                *old(ctx),
                access,
                elements,
                span,
                signatures::resolver(depth),
            ),
        decreases depth, 8int, elements, 1int,
    {
        let context: ResolveContext = ctx.resolve_context;
        let expected = self.expected_array(access.expected_type);
        let size: u32 = array_size(elements.len());
        let fits = self.check_array_size(expected.size, size, elements.len(), context.at(span));
        if !fits {
            return None;
        }
        let built = self.build_array_elements(ctx, elements, expected.of, depth)?;
        let of = self.element_type(context, &built, expected.of, span)?;
        let memory = self.array_memory(expected.memory, context.at(span), depth)?;
        let ty: TypeIndex = self.intern_type(
            Type::Array { of, size, memory, mutable: expected.mutable },
        );
        Some(typed(ExprKind::ArrayLiteral { elements: built, memory }, ty, span))
    }

    /// The elements of an array literal, up to the first that fails.
    pub fn build_array_elements(
        &mut self,
        ctx: &mut ExprContext,
        elements: &List<Spanned<ast::Expression>>,
        expected: TypeIndex,
        depth: usize,
    ) -> (result: Option<List<Expression>>)
        ensures
            (final(self)@, *final(ctx), result) == old(self)@.build_array_elements(
                *old(ctx),
                elements,
                expected,
                signatures::resolver(depth),
            ),
        decreases depth, 8int, elements, 0int,
    {
        match elements {
            List::Nil => Some(List::Nil),
            List::Cons(element, rest) => {
                let built = self.build_expression(ctx, reading(expected), element, depth)?;
                let built = self.check_array_element(ctx, built, expected)?;
                let others = self.build_array_elements(ctx, rest, expected, depth)?;
                Some(cons(built, others))
            },
        }
    }

    /// `[value; count]`: the count is an integer literal.
    pub fn build_array_repeat_expression(
        &mut self,
        ctx: &mut ExprContext,
        access: AccessContext,
        expr: &Spanned<ast::Expression>,
        depth: usize,
    ) -> (result: Option<Expression>)
        ensures
            (final(self)@, *final(ctx), result) == old(self)@.build_array_repeat_expression(
                *old(ctx),
                access,
                expr,
                signatures::resolver(depth),
            ),
        decreases depth, 8int, expr, 4int,
    {
        match &expr.inner {
            ast::Expression::ArrayRepeat { value, count } => {
                let context: ResolveContext = ctx.resolve_context;
                let expected = self.expected_array(access.expected_type);
                let built_count = self.build_expression(ctx, reading(ty::INFER), count, depth)?;
                match repeat_count(&built_count) {
                    Some(number) => {
                        let size: u32 = repeat_size(number);
                        let fits = self.check_array_size(
                            expected.size,
                            size,
                            size_count(size),
                            context.at(expr.span),
                        );
                        if !fits {
                            return None;
                        }
                        let built = self.build_expression(
                            ctx,
                            reading(expected.of),
                            value,
                            depth,
                        )?;
                        let built = self.check_array_element(ctx, built, expected.of)?;
                        let memory = self.array_memory(
                            expected.memory,
                            context.at(expr.span),
                            depth,
                        )?;
                        let ty: TypeIndex = self.intern_type(
                            Type::Array { of: built.ty, size, memory, mutable: expected.mutable },
                        );
                        Some(
                            typed(
                                ExprKind::ArrayRepeat {
                                    value: Box::new(built),
                                    count: size,
                                    memory,
                                },
                                ty,
                                expr.span,
                            ),
                        )
                    },
                    None => {
                        self.report(report_array_repeat_count_not_const(context.at(count.span)));
                        None
                    },
                }
            },
            _ => None,
        }
    }

    /// `object[index]`: a place in the memory of an array or slice.
    pub fn build_index_expression(
        &mut self,
        ctx: &mut ExprContext,
        access: AccessContext,
        expr: &Spanned<ast::Expression>,
        depth: usize,
    ) -> (result: Option<Expression>)
        ensures
            (final(self)@, *final(ctx), result) == old(self)@.build_index_expression(
                *old(ctx),
                access,
                expr,
                signatures::resolver(depth),
            ),
        decreases depth, 8int, expr, 4int,
    {
        match &expr.inner {
            ast::Expression::Index { object, index } => {
                let context: ResolveContext = ctx.resolve_context;
                let built = self.build_expression(ctx, reading(ty::INFER), object, depth)?;
                let (of, memory, mutable) = self.resolve_indexable(
                    built.ty,
                    context.at(built.span),
                )?;
                self.check_writable(access.access_kind, mutable, context.at(expr.span));
                let index_type: TypeIndex = self.pointer_type_for_memory(memory);
                let position = self.build_expression(ctx, reading(index_type), index, depth)?;
                let position = self.settle_index(ctx, position, index_type)?;
                Some(
                    load_expression(
                        PlaceKind::Index { object: Box::new(built), index: Box::new(position) },
                        of,
                        memory,
                        mutable,
                        expr.span,
                    ),
                )
            },
            _ => None,
        }
    }

    /// A bound of a range, if it is written.
    pub fn build_range_bound(
        &mut self,
        ctx: &mut ExprContext,
        bound: &Option<Box<Spanned<ast::Expression>>>,
        index_type: TypeIndex,
        depth: usize,
    ) -> (result: Option<Option<Expression>>)
        ensures
            (final(self)@, *final(ctx), result) == old(self)@.build_range_bound(
                *old(ctx),
                bound,
                index_type,
                signatures::resolver(depth),
            ),
        decreases depth, 8int, bound, 0int,
    {
        match bound {
            Some(bound) => {
                let built = self.build_expression(ctx, reading(index_type), bound, depth)?;
                let built = self.settle_range_bound(ctx, built, index_type, bound.span)?;
                Some(Some(built))
            },
            None => Some(None),
        }
    }

    /// `object[start..end]`: a slice of an array or slice.
    pub fn build_slice_range_expression(
        &mut self,
        ctx: &mut ExprContext,
        expr: &Spanned<ast::Expression>,
        depth: usize,
    ) -> (result: Option<Expression>)
        ensures
            (final(self)@, *final(ctx), result) == old(self)@.build_slice_range_expression(
                *old(ctx),
                expr,
                signatures::resolver(depth),
            ),
        decreases depth, 8int, expr, 4int,
    {
        match &expr.inner {
            ast::Expression::SliceRange { object, start, end } => {
                let built = self.build_expression(ctx, reading(ty::INFER), object, depth)?;
                let (of, memory, mutable) = self.resolve_indexable(
                    built.ty,
                    ctx.resolve_context.at(built.span),
                )?;
                let index_type: TypeIndex = self.pointer_type_for_memory(memory);
                let first = self.build_range_bound(ctx, start, index_type, depth)?;
                let last = self.build_range_bound(ctx, end, index_type, depth)?;
                let ty: TypeIndex = self.intern_type(Type::Slice { of, memory, mutable });
                Some(
                    typed(
                        ExprKind::SliceRange {
                            object: Box::new(built),
                            start: boxed(first),
                            end: boxed(last),
                        },
                        ty,
                        expr.span,
                    ),
                )
            },
            _ => None,
        }
    }
}

} // verus!
