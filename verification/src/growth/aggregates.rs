//! What `aggregates` does to the state only adds to it.

use vstd::prelude::*;

use crate::aggregates::size_count;
use crate::ast;
use crate::ast::StructInitField;
use crate::growth;
use crate::list::List;
use crate::lookup::TypeArgArity;
use crate::scope::{next_index, ExprContext};
use crate::shape::reading;
use crate::span::{DefId, SourceSpan, Spanned, Symbol, TextSpan};
use crate::state::State;
use crate::tir::{AccessContext, Expression, ResolveContext};
use crate::ty;
use crate::types::TypeIndex;
use crate::typing;
use crate::typing::{array_size, repeat_size, FieldAccessKind};

verus! {

impl<'ast> State<'ast> {
    pub proof fn adds_build_struct_init_expression(
        self,
        ctx: ExprContext,
        access: AccessContext,
        expr: &Spanned<ast::Expression>,
        pending: spec_fn(State<'ast>, DefId) -> State<'ast>,
    )
        requires
            growth::resolver_adds(pending),
        ensures
            self.only_adds(self.build_struct_init_expression(ctx, access, expr, pending).0),
        decreases 8int, expr, 4int,
    {
        broadcast use crate::growth::group_finishing;

        self.adds_nothing();
        match &expr.inner {
            ast::Expression::StructInit { path, fields } => {
                let context: ResolveContext = ctx.resolve_context;
                self.adds_resolve_path_type(
                    context,
                    ctx.scope,
                    path,
                    expr.span,
                    TypeArgArity::AllowInfer,
                    pending,
                );
                let (s, struct_ty) = self.resolve_path_type(
                    context,
                    ctx.scope,
                    path,
                    expr.span,
                    TypeArgArity::AllowInfer,
                    pending,
                );
                if struct_ty == ty::ERROR {
                } else {
                    match s.struct_type(struct_ty) {
                        Some((struct_index, _)) => {
                            let (name, count, params) = s.struct_shape(struct_index);
                            let args = s.struct_init_args(
                                struct_ty,
                                typing::last_segment_applied(path),
                                params,
                                struct_index,
                                access.expected_type,
                            );
                            s.adds_build_init_fields(
                                ctx,
                                fields,
                                struct_index,
                                name,
                                &args,
                                List::repeat(None, count),
                                typing::empty_field_slots(count),
                                pending,
                            );
                        },
                        None => {},
                    }
                }
            },
            _ => {},
        }
    }

    pub proof fn adds_build_init_fields(
        self,
        ctx: ExprContext,
        fields: &List<StructInitField>,
        struct_index: usize,
        struct_name: Symbol,
        args: &List<TypeIndex>,
        mentions: List<Option<TextSpan>>,
        slots: List<Option<Expression>>,
        pending: spec_fn(State<'ast>, DefId) -> State<'ast>,
    )
        requires
            growth::resolver_adds(pending),
        ensures
            self.only_adds(
                self.build_init_fields(
                    ctx,
                    fields,
                    struct_index,
                    struct_name,
                    args,
                    mentions,
                    slots,
                    pending,
                ).0,
            ),
        decreases 8int, fields, 0int,
    {
        broadcast use crate::growth::group_finishing;

        self.adds_nothing();
        match fields {
            List::Nil => {},
            List::Cons(field, rest) => {
                self.adds_build_init_field(
                    ctx,
                    field,
                    struct_index,
                    struct_name,
                    args,
                    mentions,
                    slots,
                    pending,
                );
                let (s, ctx, (mentions, slots)) = self.build_init_field(
                    ctx,
                    field,
                    struct_index,
                    struct_name,
                    args,
                    mentions,
                    slots,
                    pending,
                );
                s.adds_build_init_fields(
                    ctx,
                    rest,
                    struct_index,
                    struct_name,
                    args,
                    mentions,
                    slots,
                    pending,
                );
            },
        }
    }

    pub proof fn adds_build_init_field(
        self,
        ctx: ExprContext,
        field: &StructInitField,
        struct_index: usize,
        struct_name: Symbol,
        args: &List<TypeIndex>,
        mentions: List<Option<TextSpan>>,
        slots: List<Option<Expression>>,
        pending: spec_fn(State<'ast>, DefId) -> State<'ast>,
    )
        requires
            growth::resolver_adds(pending),
        ensures
            self.only_adds(
                self.build_init_field(
                    ctx,
                    field,
                    struct_index,
                    struct_name,
                    args,
                    mentions,
                    slots,
                    pending,
                ).0,
            ),
        decreases 8int, field, 2int,
    {
        broadcast use crate::growth::group_finishing;

        self.adds_nothing();
        let context: ResolveContext = ctx.resolve_context;
        let (s, resolved) = self.resolve_struct_field(
            context,
            struct_index,
            args,
            field.name,
            FieldAccessKind::Init,
        );
        match resolved {
            None => {},
            Some(resolved) => {
                match typing::mention_at(&mentions, resolved.index) {
                    Some(first) => {},
                    None => {
                        let mentions = mentions.set(resolved.index, Some(field.name.span));
                        s.adds_build_field_value(ctx, field, resolved.ty, pending);
                    },
                }
            },
        }
    }

    pub proof fn adds_build_field_value(
        self,
        ctx: ExprContext,
        field: &StructInitField,
        expected: TypeIndex,
        pending: spec_fn(State<'ast>, DefId) -> State<'ast>,
    )
        requires
            growth::resolver_adds(pending),
        ensures
            self.only_adds(self.build_field_value(ctx, field, expected, pending).0),
        decreases 8int, field, 1int,
    {
        broadcast use crate::growth::group_finishing;

        self.adds_nothing();
        match &field.value {
            Some(value) => {
                self.adds_build_expression(ctx, reading(expected), value, pending);
                let (s, ctx, built) = self.build_expression(
                    ctx,
                    reading(expected),
                    value,
                    pending,
                );
                match built {
                    Some(built) => {},
                    None => {},
                }
            },
            None => {},
        }
    }

    pub proof fn adds_build_tuple_expression(
        self,
        ctx: ExprContext,
        access: AccessContext,
        elements: &List<Spanned<ast::Expression>>,
        span: TextSpan,
        pending: spec_fn(State<'ast>, DefId) -> State<'ast>,
    )
        requires
            growth::resolver_adds(pending),
        ensures
            self.only_adds(self.build_tuple_expression(ctx, access, elements, span, pending).0),
        decreases 8int, elements, 1int,
    {
        broadcast use crate::growth::group_finishing;

        self.adds_nothing();
        if elements.is_empty() {
        } else {
            let expected = self.tuple_types(access.expected_type, elements.len());
            self.adds_build_tuple_elements(ctx, elements, &expected, 0, pending);
        }
    }

    pub proof fn adds_build_tuple_elements(
        self,
        ctx: ExprContext,
        elements: &List<Spanned<ast::Expression>>,
        types: &Option<List<TypeIndex>>,
        index: usize,
        pending: spec_fn(State<'ast>, DefId) -> State<'ast>,
    )
        requires
            growth::resolver_adds(pending),
        ensures
            self.only_adds(self.build_tuple_elements(ctx, elements, types, index, pending).0),
        decreases 8int, elements, 0int,
    {
        broadcast use crate::growth::group_finishing;

        self.adds_nothing();
        match elements {
            List::Nil => {},
            List::Cons(element, rest) => {
                let expected: TypeIndex = typing::type_at_or_infer(types, index);
                self.adds_build_expression(ctx, reading(expected), element, pending);
                let (s, ctx, built) = self.build_expression(
                    ctx,
                    reading(expected),
                    element,
                    pending,
                );
                match built {
                    Some(built) => {
                        let (s, ctx, built) = s.settle_element(ctx, built, expected);
                        s.adds_build_tuple_elements(ctx, rest, types, next_index(index), pending);
                    },
                    None => {
                        s.adds_build_tuple_elements(ctx, rest, types, next_index(index), pending);
                    },
                }
            },
        }
    }

    pub proof fn adds_array_memory(
        self,
        expected: Option<TypeIndex>,
        span: SourceSpan,
        pending: spec_fn(State<'ast>, DefId) -> State<'ast>,
    )
        requires
            growth::resolver_adds(pending),
        ensures
            self.only_adds(self.array_memory(expected, span, pending).0),
        decreases 5int, List::<usize>::Nil, 0int,
    {
        broadcast use crate::growth::group_finishing;

        self.adds_nothing();
        match expected {
            Some(memory) => {},
            None => {
                self.adds_resolve_ambient_memory(span, pending);
            },
        }
    }

    pub proof fn adds_build_array_literal_expression(
        self,
        ctx: ExprContext,
        access: AccessContext,
        elements: &List<Spanned<ast::Expression>>,
        span: TextSpan,
        pending: spec_fn(State<'ast>, DefId) -> State<'ast>,
    )
        requires
            growth::resolver_adds(pending),
        ensures
            self.only_adds(
                self.build_array_literal_expression(ctx, access, elements, span, pending).0,
            ),
        decreases 8int, elements, 1int,
    {
        broadcast use crate::growth::group_finishing;

        self.adds_nothing();
        let context: ResolveContext = ctx.resolve_context;
        let expected = self.expected_array(access.expected_type);
        let size: u32 = array_size(elements.len());
        let (s, fits) = self.check_array_size(
            expected.size,
            size,
            elements.len(),
            context.at(span),
        );
        if !fits {
        } else {
            s.adds_build_array_elements(ctx, elements, expected.of, pending);
            let (s, ctx, built) = s.build_array_elements(ctx, elements, expected.of, pending);
            match built {
                Some(built) => {
                    let (s, of) = s.element_type(context, &built, expected.of, span);
                    match of {
                        Some(of) => {
                            s.adds_array_memory(expected.memory, context.at(span), pending);
                            let (s, memory) = s.array_memory(
                                expected.memory,
                                context.at(span),
                                pending,
                            );
                            match memory {
                                Some(memory) => {},
                                None => {},
                            }
                        },
                        None => {},
                    }
                },
                None => {},
            }
        }
    }

    pub proof fn adds_build_array_elements(
        self,
        ctx: ExprContext,
        elements: &List<Spanned<ast::Expression>>,
        expected: TypeIndex,
        pending: spec_fn(State<'ast>, DefId) -> State<'ast>,
    )
        requires
            growth::resolver_adds(pending),
        ensures
            self.only_adds(self.build_array_elements(ctx, elements, expected, pending).0),
        decreases 8int, elements, 0int,
    {
        broadcast use crate::growth::group_finishing;

        self.adds_nothing();
        match elements {
            List::Nil => {},
            List::Cons(element, rest) => {
                self.adds_build_expression(ctx, reading(expected), element, pending);
                let (s, ctx, built) = self.build_expression(
                    ctx,
                    reading(expected),
                    element,
                    pending,
                );
                match built {
                    Some(built) => {
                        let (s, ctx, built) = s.check_array_element(ctx, built, expected);
                        match built {
                            Some(built) => {
                                s.adds_build_array_elements(ctx, rest, expected, pending);
                                let (s, ctx, others) = s.build_array_elements(
                                    ctx,
                                    rest,
                                    expected,
                                    pending,
                                );
                                match others {
                                    Some(others) => {},
                                    None => {},
                                }
                            },
                            None => {},
                        }
                    },
                    None => {},
                }
            },
        }
    }

    pub proof fn adds_build_array_repeat_expression(
        self,
        ctx: ExprContext,
        access: AccessContext,
        expr: &Spanned<ast::Expression>,
        pending: spec_fn(State<'ast>, DefId) -> State<'ast>,
    )
        requires
            growth::resolver_adds(pending),
        ensures
            self.only_adds(self.build_array_repeat_expression(ctx, access, expr, pending).0),
        decreases 8int, expr, 4int,
    {
        broadcast use crate::growth::group_finishing;

        self.adds_nothing();
        match &expr.inner {
            ast::Expression::ArrayRepeat { value, count } => {
                let context: ResolveContext = ctx.resolve_context;
                let expected = self.expected_array(access.expected_type);
                self.adds_build_expression(ctx, reading(ty::INFER), count, pending);
                let (s, ctx, built_count) = self.build_expression(
                    ctx,
                    reading(ty::INFER),
                    count,
                    pending,
                );
                match built_count {
                    Some(built_count) => {
                        match typing::literal_count(&built_count) {
                            Some(number) => {
                                let size: u32 = repeat_size(number);
                                let (s, fits) = s.check_array_size(
                                    expected.size,
                                    size,
                                    size_count(size),
                                    context.at(expr.span),
                                );
                                if !fits {
                                } else {
                                    s.adds_build_expression(
                                        ctx,
                                        reading(expected.of),
                                        value,
                                        pending,
                                    );
                                    let (s, ctx, built) = s.build_expression(
                                        ctx,
                                        reading(expected.of),
                                        value,
                                        pending,
                                    );
                                    match built {
                                        Some(built) => {
                                            let (s, ctx, built) = s.check_array_element(
                                                ctx,
                                                built,
                                                expected.of,
                                            );
                                            match built {
                                                Some(built) => {
                                                    s.adds_array_memory(
                                                        expected.memory,
                                                        context.at(expr.span),
                                                        pending,
                                                    );
                                                    let (s, memory) = s.array_memory(
                                                        expected.memory,
                                                        context.at(expr.span),
                                                        pending,
                                                    );
                                                    match memory {
                                                        Some(memory) => {},
                                                        None => {},
                                                    }
                                                },
                                                None => {},
                                            }
                                        },
                                        None => {},
                                    }
                                }
                            },
                            None => {},
                        }
                    },
                    None => {},
                }
            },
            _ => {},
        }
    }

    pub proof fn adds_build_index_expression(
        self,
        ctx: ExprContext,
        access: AccessContext,
        expr: &Spanned<ast::Expression>,
        pending: spec_fn(State<'ast>, DefId) -> State<'ast>,
    )
        requires
            growth::resolver_adds(pending),
        ensures
            self.only_adds(self.build_index_expression(ctx, access, expr, pending).0),
        decreases 8int, expr, 4int,
    {
        broadcast use crate::growth::group_finishing;

        self.adds_nothing();
        match &expr.inner {
            ast::Expression::Index { object, index } => {
                let context: ResolveContext = ctx.resolve_context;
                self.adds_build_expression(ctx, reading(ty::INFER), object, pending);
                let (s, ctx, built) = self.build_expression(
                    ctx,
                    reading(ty::INFER),
                    object,
                    pending,
                );
                match built {
                    Some(built) => {
                        let (s, found) = s.resolve_indexable(built.ty, context.at(built.span));
                        match found {
                            Some((of, memory, mutable)) => {
                                let s = s.check_writable(
                                    access.access_kind,
                                    mutable,
                                    context.at(expr.span),
                                );
                                let (s, index_type) = s.pointer_type_for_memory(memory);
                                s.adds_build_expression(ctx, reading(index_type), index, pending);
                                let (s, ctx, position) = s.build_expression(
                                    ctx,
                                    reading(index_type),
                                    index,
                                    pending,
                                );
                                match position {
                                    Some(position) => {},
                                    None => {},
                                }
                            },
                            None => {},
                        }
                    },
                    None => {},
                }
            },
            _ => {},
        }
    }

    pub proof fn adds_build_range_bound(
        self,
        ctx: ExprContext,
        bound: &Option<Box<Spanned<ast::Expression>>>,
        index_type: TypeIndex,
        pending: spec_fn(State<'ast>, DefId) -> State<'ast>,
    )
        requires
            growth::resolver_adds(pending),
        ensures
            self.only_adds(self.build_range_bound(ctx, bound, index_type, pending).0),
        decreases 8int, bound, 0int,
    {
        broadcast use crate::growth::group_finishing;

        self.adds_nothing();
        match bound {
            Some(bound) => {
                self.adds_build_expression(ctx, reading(index_type), bound, pending);
                let (s, ctx, built) = self.build_expression(
                    ctx,
                    reading(index_type),
                    bound,
                    pending,
                );
                match built {
                    Some(built) => {},
                    None => {},
                }
            },
            None => {},
        }
    }

    pub proof fn adds_build_slice_range_expression(
        self,
        ctx: ExprContext,
        expr: &Spanned<ast::Expression>,
        pending: spec_fn(State<'ast>, DefId) -> State<'ast>,
    )
        requires
            growth::resolver_adds(pending),
        ensures
            self.only_adds(self.build_slice_range_expression(ctx, expr, pending).0),
        decreases 8int, expr, 4int,
    {
        broadcast use crate::growth::group_finishing;

        self.adds_nothing();
        match &expr.inner {
            ast::Expression::SliceRange { object, start, end } => {
                self.adds_build_expression(ctx, reading(ty::INFER), object, pending);
                let (s, ctx, built) = self.build_expression(
                    ctx,
                    reading(ty::INFER),
                    object,
                    pending,
                );
                match built {
                    Some(built) => {
                        let (s, found) = s.resolve_indexable(
                            built.ty,
                            ctx.resolve_context.at(built.span),
                        );
                        match found {
                            Some((of, memory, mutable)) => {
                                let (s, index_type) = s.pointer_type_for_memory(memory);
                                s.adds_build_range_bound(ctx, start, index_type, pending);
                                let (s, ctx, first) = s.build_range_bound(
                                    ctx,
                                    start,
                                    index_type,
                                    pending,
                                );
                                match first {
                                    Some(first) => {
                                        s.adds_build_range_bound(ctx, end, index_type, pending);
                                        let (s, ctx, last) = s.build_range_bound(
                                            ctx,
                                            end,
                                            index_type,
                                            pending,
                                        );
                                        match last {
                                            Some(last) => {},
                                            None => {},
                                        }
                                    },
                                    None => {},
                                }
                            },
                            None => {},
                        }
                    },
                    None => {},
                }
            },
            _ => {},
        }
    }
}

} // verus!
