//! Expressions: what each is typed as, and the operators.

use vstd::prelude::*;

use crate::ast;
use crate::ast::BinaryOp;
use crate::list::List;
use crate::names::poisoned;
use crate::operators::{store_expression, AssignmentTarget};
use crate::reports::{
    report_binary_operator_cannot_be_applied, report_invalid_assignment_target,
    report_type_annotation_required,
};
use crate::scope::ExprContext;
use crate::shape::{accessing, binary_expression, poisoned_as, reading, spanned, typed};
use crate::signatures;
use crate::span::{DefId, SourceSpan, Spanned, Symbol};
use crate::state::{Builder, State};
use crate::tir::{AccessContext, AccessKind, ExprKind, Expression};
use crate::ty;
use crate::types::{Type, TypeIndex};
use crate::typing::or_poisoned;

verus! {

impl<'ast> State<'ast> {
    /// The memory that a string literal is in: that of the expected slice, or the
    /// only one of the program.
    pub open spec fn string_memory(
        self,
        expected: TypeIndex,
        span: SourceSpan,
        pending: spec_fn(State<'ast>, DefId) -> State<'ast>,
    ) -> (State<'ast>, Option<TypeIndex>)
        decreases 5int, List::<usize>::Nil, 0int,
    {
        match self.ty(expected) {
            Type::Slice { of: _, memory, mutable: _ } => (self, Some(memory)),
            _ => self.resolve_ambient_memory(span, pending),
        }
    }

    /// The typed expression for a parsed one. `None` where it fails and nothing
    /// can stand for it; what is wrong is reported then.
    pub open spec fn build_expression(
        self,
        ctx: ExprContext,
        access: AccessContext,
        expr: &Spanned<ast::Expression>,
        pending: spec_fn(State<'ast>, DefId) -> State<'ast>,
    ) -> (State<'ast>, ExprContext, Option<Expression>)
        decreases 8int, expr, 9int,
    {
        match &expr.inner {
            ast::Expression::Int { value } => {
                (self, ctx, Some(typed(ExprKind::Int { value: *value }, ty::INTEGER, expr.span)))
            },
            ast::Expression::Float { bits } => {
                (self, ctx, Some(typed(ExprKind::Float { bits: *bits }, ty::FLOAT, expr.span)))
            },
            ast::Expression::Unreachable => {
                (self, ctx, Some(typed(ExprKind::Unreachable, ty::NEVER, expr.span)))
            },
            ast::Expression::True => {
                (self, ctx, Some(typed(ExprKind::Bool { value: true }, ty::BOOL, expr.span)))
            },
            ast::Expression::False => {
                (self, ctx, Some(typed(ExprKind::Bool { value: false }, ty::BOOL, expr.span)))
            },
            ast::Expression::Placeholder => {
                (
                    self,
                    ctx,
                    Some(
                        typed(
                            ExprKind::Placeholder,
                            ty::infer_or(access.expected_type, ty::ERROR),
                            expr.span,
                        ),
                    ),
                )
            },
            ast::Expression::Error => (self, ctx, Some(poisoned(expr.span))),
            ast::Expression::String { raw } => {
                let (s, symbol) = self.with_literal(raw);
                match symbol {
                    Some(symbol) => {
                        let (s, memory) = s.string_memory(
                            access.expected_type,
                            ctx.resolve_context.at(expr.span),
                            pending,
                        );
                        match memory {
                            Some(memory) => {
                                let (s, ty) = s.intern(
                                    Type::Slice { of: ty::U8, memory, mutable: false },
                                );
                                (s, ctx, Some(typed(ExprKind::String { symbol }, ty, expr.span)))
                            },
                            None => (s, ctx, None),
                        }
                    },
                    None => (s, ctx, None),
                }
            },
            ast::Expression::Char { raw } => {
                let (s, r) = self.build_char_expression(ctx.resolve_context, raw, expr.span);
                (s, ctx, r)
            },
            ast::Expression::Path(path) => {
                self.build_path_expression(ctx, access, path, expr.span, pending)
            },
            ast::Expression::Binary { .. } => {
                self.build_binary_expression(ctx, access, expr, pending)
            },
            ast::Expression::Grouping { value } => {
                self.build_expression(ctx, access, value, pending)
            },
            ast::Expression::Unary { operator, operand } => {
                let (s, ctx, built) = self.build_expression(
                    ctx,
                    reading(access.expected_type),
                    operand,
                    pending,
                );
                match built {
                    Some(built) => {
                        let (s, ctx, unary) = s.finish_unary(ctx, *operator, built, expr.span);
                        (s, ctx, Some(unary))
                    },
                    None => (s, ctx, None),
                }
            },
            ast::Expression::Call { .. } => {
                self.build_call_expression(ctx, access, expr, pending)
            },
            ast::Expression::MethodCall { .. } => {
                self.build_method_call_expression(ctx, access, expr, pending)
            },
            ast::Expression::ObjectAccess { object, member } => {
                let (s, ctx, built) = self.build_expression(ctx, access, object, pending);
                match built {
                    Some(built) => {
                        let (s, r) = s.finish_object_access(
                            ctx.resolve_context,
                            built,
                            *member,
                            expr.span,
                        );
                        (s, ctx, r)
                    },
                    None => (s, ctx, None),
                }
            },
            ast::Expression::Deref { pointer } => {
                let (s, ctx, built) = self.build_expression(
                    ctx,
                    reading(ty::INFER),
                    pointer,
                    pending,
                );
                match built {
                    Some(built) => {
                        let (s, r) = s.finish_deref(
                            ctx.resolve_context,
                            access.access_kind,
                            built,
                            expr.span,
                        );
                        (s, ctx, r)
                    },
                    None => (s, ctx, None),
                }
            },
            ast::Expression::AddressOf { value, mut_span } => {
                let (s, ctx, built) = self.build_expression(
                    ctx,
                    reading(ty::INFER),
                    value,
                    pending,
                );
                match built {
                    Some(built) => {
                        let (s, r) = s.finish_address_of(
                            ctx.resolve_context,
                            built,
                            mut_span.is_some(),
                            expr.span,
                        );
                        (s, ctx, r)
                    },
                    None => (s, ctx, None),
                }
            },
            ast::Expression::Return { .. } => self.build_return_expression(ctx, expr, pending),
            ast::Expression::Block { statements } => {
                self.build_scoped_block(
                    ctx,
                    statements,
                    expr.span,
                    None,
                    access.expected_type,
                    pending,
                )
            },
            ast::Expression::IfElse { .. } => {
                self.build_if_else_expression(ctx, access.expected_type, expr, None, pending)
            },
            ast::Expression::Match { .. } => {
                self.build_match_expression(ctx, access, expr, pending)
            },
            ast::Expression::Loop { .. } => {
                self.build_loop_expression(ctx, access.expected_type, expr, None, pending)
            },
            ast::Expression::Cast { .. } => {
                self.build_cast_expression(ctx, access, expr, pending)
            },
            ast::Expression::Break { .. } => self.build_break_expression(ctx, expr, pending),
            ast::Expression::Continue { label } => {
                let (s, ctx, built) = self.build_continue_expression(ctx, *label, expr.span);
                (s, ctx, Some(built))
            },
            ast::Expression::Label { .. } => {
                self.build_label_expression(ctx, access, expr, pending)
            },
            ast::Expression::StructInit { .. } => {
                self.build_struct_init_expression(ctx, access, expr, pending)
            },
            ast::Expression::Tuple { elements } => {
                self.build_tuple_expression(ctx, access, elements, expr.span, pending)
            },
            ast::Expression::TypeApplication { callee, args: _ } => {
                let (s, ctx, built) = self.build_expression(
                    ctx,
                    reading(ty::INFER),
                    callee,
                    pending,
                );
                match built {
                    Some(built) => {
                        (s, ctx, Some(typed(built.kind, built.ty, expr.span)))
                    },
                    None => (s, ctx, None),
                }
            },
            ast::Expression::ArrayList { elements } => {
                self.build_array_literal_expression(ctx, access, elements, expr.span, pending)
            },
            ast::Expression::ArrayRepeat { .. } => {
                self.build_array_repeat_expression(ctx, access, expr, pending)
            },
            ast::Expression::Index { .. } => {
                self.build_index_expression(ctx, access, expr, pending)
            },
            ast::Expression::SliceRange { .. } => {
                self.build_slice_range_expression(ctx, expr, pending)
            },
        }
    }

    /// A cast. Without a type to go to, the value is built as it is.
    pub open spec fn build_cast_expression(
        self,
        ctx: ExprContext,
        access: AccessContext,
        expr: &Spanned<ast::Expression>,
        pending: spec_fn(State<'ast>, DefId) -> State<'ast>,
    ) -> (State<'ast>, ExprContext, Option<Expression>)
        decreases 8int, expr, 4int,
    {
        match &expr.inner {
            ast::Expression::Cast { value, ty: written } => {
                let (s, cast_type) = self.resolve_type(
                    ctx.resolve_context,
                    ctx.scope,
                    written,
                    pending,
                );
                let (s, target) = s.cast_target(
                    cast_type,
                    access.expected_type,
                    ctx.resolve_context.at(expr.span),
                );
                match target {
                    Some(target) => {
                        let (s, ctx, built) = s.build_expression(
                            ctx,
                            AccessContext {
                                expected_type: target,
                                access_kind: access.access_kind,
                            },
                            value,
                            pending,
                        );
                        match built {
                            Some(built) => {
                                s.finish_cast(ctx, built, target, expr.span)
                            },
                            None => (s, ctx, None),
                        }
                    },
                    None => s.build_expression(ctx, access, value, pending),
                }
            },
            _ => (self, ctx, None),
        }
    }

    /// An expression with an operator between two operands.
    pub open spec fn build_binary_expression(
        self,
        ctx: ExprContext,
        access: AccessContext,
        expr: &Spanned<ast::Expression>,
        pending: spec_fn(State<'ast>, DefId) -> State<'ast>,
    ) -> (State<'ast>, ExprContext, Option<Expression>)
        decreases 8int, expr, 6int,
    {
        match &expr.inner {
            ast::Expression::Binary { operator, .. } => {
                match operator.inner {
                    BinaryOp::Add
                    | BinaryOp::Sub
                    | BinaryOp::Mul
                    | BinaryOp::Div
                    | BinaryOp::Rem => {
                        self.build_arithmetic_expr(ctx, access, expr, pending)
                    },
                    BinaryOp::Assign => self.build_assignment_expr(ctx, expr, pending),
                    BinaryOp::AddAssign
                    | BinaryOp::SubAssign
                    | BinaryOp::MulAssign
                    | BinaryOp::DivAssign
                    | BinaryOp::RemAssign => {
                        self.build_arithmetic_assignment_expr(ctx, expr, pending)
                    },
                    BinaryOp::Eq
                    | BinaryOp::NotEq
                    | BinaryOp::Less
                    | BinaryOp::LessEq
                    | BinaryOp::Greater
                    | BinaryOp::GreaterEq => {
                        self.build_comparison_binary_expr(ctx, expr, pending)
                    },
                    BinaryOp::And | BinaryOp::Or => {
                        self.build_logical_binary_expr(ctx, expr, pending)
                    },
                    BinaryOp::BitAnd
                    | BinaryOp::BitOr
                    | BinaryOp::BitXor
                    | BinaryOp::LeftShift
                    | BinaryOp::RightShift => {
                        self.build_bitwise_binary_expr(ctx, access, expr, pending)
                    },
                }
            },
            _ => (self, ctx, None),
        }
    }

    /// An expression with `+`, `-`, `*`, `/` or `%`.
    pub open spec fn build_arithmetic_expr(
        self,
        ctx: ExprContext,
        access: AccessContext,
        expr: &Spanned<ast::Expression>,
        pending: spec_fn(State<'ast>, DefId) -> State<'ast>,
    ) -> (State<'ast>, ExprContext, Option<Expression>)
        decreases 8int, expr, 5int,
    {
        match &expr.inner {
            ast::Expression::Binary { operator, left, right } => {
                let (s, ctx, left_expr) = self.build_expression(
                    ctx,
                    reading(access.expected_type),
                    left,
                    pending,
                );
                match left_expr {
                    Some(left_expr) => {
                        let (s, ctx, right_expr) = s.build_expression(
                            ctx,
                            reading(s.right_expectation(left_expr.ty, access.expected_type)),
                            right,
                            pending,
                        );
                        match right_expr {
                            Some(right_expr) => {
                                s.finish_arithmetic(
                                    ctx,
                                    access,
                                    *operator,
                                    left_expr,
                                    right_expr,
                                    expr.span,
                                )
                            },
                            None => (s, ctx, None),
                        }
                    },
                    None => (s, ctx, None),
                }
            },
            _ => (self, ctx, None),
        }
    }

    /// An expression with `&`, `|`, `^`, `<<` or `>>`.
    pub open spec fn build_bitwise_binary_expr(
        self,
        ctx: ExprContext,
        access: AccessContext,
        expr: &Spanned<ast::Expression>,
        pending: spec_fn(State<'ast>, DefId) -> State<'ast>,
    ) -> (State<'ast>, ExprContext, Option<Expression>)
        decreases 8int, expr, 5int,
    {
        match &expr.inner {
            ast::Expression::Binary { operator, left, right } => {
                let (s, ctx, left_expr) = self.build_expression(ctx, access, left, pending);
                match left_expr {
                    Some(left_expr) => {
                        let right_access = AccessContext {
                            expected_type: s.right_expectation(
                                left_expr.ty,
                                access.expected_type,
                            ),
                            access_kind: access.access_kind,
                        };
                        let (s, ctx, right_expr) = s.build_expression(
                            ctx,
                            right_access,
                            right,
                            pending,
                        );
                        match right_expr {
                            Some(right_expr) => {
                                s.finish_bitwise(
                                    ctx,
                                    access,
                                    *operator,
                                    left_expr,
                                    right_expr,
                                    expr.span,
                                )
                            },
                            None => (s, ctx, None),
                        }
                    },
                    None => (s, ctx, None),
                }
            },
            _ => (self, ctx, None),
        }
    }

    /// A comparison.
    pub open spec fn build_comparison_binary_expr(
        self,
        ctx: ExprContext,
        expr: &Spanned<ast::Expression>,
        pending: spec_fn(State<'ast>, DefId) -> State<'ast>,
    ) -> (State<'ast>, ExprContext, Option<Expression>)
        decreases 8int, expr, 5int,
    {
        match &expr.inner {
            ast::Expression::Binary { operator, left, right } => {
                let (s, ctx, left_expr) = self.build_expression(
                    ctx,
                    reading(ty::INFER),
                    left,
                    pending,
                );
                match left_expr {
                    Some(left_expr) => {
                        let (s, ctx, right_expr) = s.build_expression(
                            ctx,
                            reading(left_expr.ty),
                            right,
                            pending,
                        );
                        match right_expr {
                            Some(right_expr) => {
                                s.finish_comparison(
                                    ctx,
                                    *operator,
                                    left_expr,
                                    right_expr,
                                    expr.span,
                                )
                            },
                            None => (s, ctx, None),
                        }
                    },
                    None => (s, ctx, None),
                }
            },
            _ => (self, ctx, None),
        }
    }

    /// An expression with `&&` or `||`.
    pub open spec fn build_logical_binary_expr(
        self,
        ctx: ExprContext,
        expr: &Spanned<ast::Expression>,
        pending: spec_fn(State<'ast>, DefId) -> State<'ast>,
    ) -> (State<'ast>, ExprContext, Option<Expression>)
        decreases 8int, expr, 5int,
    {
        match &expr.inner {
            ast::Expression::Binary { operator, left, right } => {
                let (s, ctx, left_expr) = self.build_expression(
                    ctx,
                    reading(ty::BOOL),
                    left,
                    pending,
                );
                match left_expr {
                    Some(left_expr) => {
                        let s = s.check_logical_operand(
                            left_expr.ty,
                            ctx.resolve_context.at(left_expr.span),
                        );
                        let (s, ctx, right_expr) = s.build_expression(
                            ctx,
                            reading(ty::BOOL),
                            right,
                            pending,
                        );
                        match right_expr {
                            Some(right_expr) => {
                                let s = s.check_logical_operand(
                                    right_expr.ty,
                                    ctx.resolve_context.at(right_expr.span),
                                );
                                (
                                    s,
                                    ctx,
                                    Some(
                                        binary_expression(
                                            *operator,
                                            left_expr,
                                            right_expr,
                                            ty::BOOL,
                                            expr.span,
                                        ),
                                    ),
                                )
                            },
                            None => (s, ctx, None),
                        }
                    },
                    None => (s, ctx, None),
                }
            },
            _ => (self, ctx, None),
        }
    }

    /// `left = right`: a write to a variable, a part of one, or a place in
    /// memory; `_` drops the value.
    pub open spec fn build_assignment_expr(
        self,
        ctx: ExprContext,
        expr: &Spanned<ast::Expression>,
        pending: spec_fn(State<'ast>, DefId) -> State<'ast>,
    ) -> (State<'ast>, ExprContext, Option<Expression>)
        decreases 8int, expr, 5int,
    {
        match &expr.inner {
            ast::Expression::Binary { operator, left, right } => {
                let (s, ctx, left_expr) = self.build_expression(
                    ctx,
                    accessing(AccessKind::Write),
                    left,
                    pending,
                );
                match left_expr {
                    Some(left_expr) => {
                        match s.assignment_target(&ctx, &left_expr) {
                            AssignmentTarget::Variable(target) => {
                                let (s, ctx, right_expr) = s.build_expression(
                                    ctx,
                                    reading(target),
                                    right,
                                    pending,
                                );
                                match right_expr {
                                    Some(right_expr) => {
                                        let (s, ctx, right_expr) = s.fit_operand(
                                            ctx,
                                            *operator,
                                            spanned(target, left_expr.span),
                                            right_expr,
                                        );
                                        match right_expr {
                                            Some(right_expr) => {
                                                (
                                                    s,
                                                    ctx,
                                                    Some(
                                                        binary_expression(
                                                            *operator,
                                                            left_expr,
                                                            right_expr,
                                                            ty::UNIT,
                                                            expr.span,
                                                        ),
                                                    ),
                                                )
                                            },
                                            None => (s, ctx, None),
                                        }
                                    },
                                    None => (s, ctx, None),
                                }
                            },
                            AssignmentTarget::Memory(target) => {
                                let (s, ctx, right_expr) = s.build_expression(
                                    ctx,
                                    reading(target),
                                    right,
                                    pending,
                                );
                                match right_expr {
                                    Some(right_expr) => {
                                        let (s, ctx, right_expr) = s.fit_operand(
                                            ctx,
                                            *operator,
                                            spanned(target, left_expr.span),
                                            right_expr,
                                        );
                                        match right_expr {
                                            Some(right_expr) => {
                                                (
                                                    s,
                                                    ctx,
                                                    Some(
                                                        store_expression(
                                                            left_expr,
                                                            right_expr,
                                                            expr.span,
                                                        ),
                                                    ),
                                                )
                                            },
                                            None => (s, ctx, None),
                                        }
                                    },
                                    None => (s, ctx, None),
                                }
                            },
                            AssignmentTarget::Placeholder => {
                                let (s, ctx, right_expr) = s.build_expression(
                                    ctx,
                                    reading(ty::INFER),
                                    right,
                                    pending,
                                );
                                match right_expr {
                                    Some(right_expr) => {
                                        if ty::is_comptime_number(right_expr.ty) {
                                            let s = s.report(
                                                report_type_annotation_required(
                                                    ctx.resolve_context.at(right_expr.span),
                                                ),
                                            );
                                            (s, ctx, None)
                                        } else {
                                            let dropped = typed(
                                                ExprKind::Placeholder,
                                                right_expr.ty,
                                                left_expr.span,
                                            );
                                            (
                                                s,
                                                ctx,
                                                Some(
                                                    binary_expression(
                                                        *operator,
                                                        dropped,
                                                        right_expr,
                                                        ty::UNIT,
                                                        expr.span,
                                                    ),
                                                ),
                                            )
                                        }
                                    },
                                    None => (s, ctx, None),
                                }
                            },
                            AssignmentTarget::Poisoned => {
                                let (s, ctx, built) = s.build_expression(
                                    ctx,
                                    reading(ty::ERROR),
                                    right,
                                    pending,
                                );
                                (
                                    s,
                                    ctx,
                                    Some(
                                        binary_expression(
                                            *operator,
                                            left_expr,
                                            or_poisoned(built, right.span),
                                            ty::UNIT,
                                            expr.span,
                                        ),
                                    ),
                                )
                            },
                            AssignmentTarget::Invalid => {
                                let s = s.report(
                                    report_invalid_assignment_target(
                                        ctx.resolve_context.at(left_expr.span),
                                    ),
                                );
                                (s, ctx, Some(poisoned_as(ty::UNIT, expr.span)))
                            },
                        }
                    },
                    None => (s, ctx, None),
                }
            },
            _ => (self, ctx, None),
        }
    }

    /// `left += right` and the like: a read and a write of a variable, a part of
    /// one, or a place in memory that holds a number.
    pub open spec fn build_arithmetic_assignment_expr(
        self,
        ctx: ExprContext,
        expr: &Spanned<ast::Expression>,
        pending: spec_fn(State<'ast>, DefId) -> State<'ast>,
    ) -> (State<'ast>, ExprContext, Option<Expression>)
        decreases 8int, expr, 5int,
    {
        match &expr.inner {
            ast::Expression::Binary { operator, left, right } => {
                let (s, ctx, left_expr) = self.build_expression(
                    ctx,
                    accessing(AccessKind::ReadWrite),
                    left,
                    pending,
                );
                match left_expr {
                    Some(left_expr) => {
                        match s.assignment_target(&ctx, &left_expr) {
                            AssignmentTarget::Variable(target)
                            | AssignmentTarget::Memory(target) => {
                                if !ty::is_primitive(target) {
                                    let s = s.report(
                                        report_binary_operator_cannot_be_applied(
                                            *operator,
                                            spanned(target, left_expr.span),
                                            ctx.resolve_context.file_id,
                                        ),
                                    );
                                    (s, ctx, None)
                                } else {
                                    let (s, ctx, right_expr) = s.build_expression(
                                        ctx,
                                        reading(target),
                                        right,
                                        pending,
                                    );
                                    match right_expr {
                                        Some(right_expr) => {
                                            let (s, ctx, right_expr) = s.fit_operand(
                                                ctx,
                                                *operator,
                                                spanned(target, left_expr.span),
                                                right_expr,
                                            );
                                            match right_expr {
                                                Some(right_expr) => {
                                                    (
                                                        s,
                                                        ctx,
                                                        Some(
                                                            binary_expression(
                                                                *operator,
                                                                left_expr,
                                                                right_expr,
                                                                ty::UNIT,
                                                                expr.span,
                                                            ),
                                                        ),
                                                    )
                                                },
                                                None => (s, ctx, None),
                                            }
                                        },
                                        None => (s, ctx, None),
                                    }
                                }
                            },
                            _ => {
                                let s = s.report(
                                    report_invalid_assignment_target(
                                        ctx.resolve_context.at(left_expr.span),
                                    ),
                                );
                                (s, ctx, Some(poisoned_as(ty::UNIT, expr.span)))
                            },
                        }
                    },
                    None => (s, ctx, None),
                }
            },
            _ => (self, ctx, None),
        }
    }
}

impl<'ast> Builder<'ast> {
    /// The memory that a string literal is in: that of the expected slice, or the
    /// only one of the program.
    pub fn string_memory(
        &mut self,
        expected: TypeIndex,
        span: SourceSpan,
        depth: usize,
    ) -> (result: Option<TypeIndex>)
        ensures
            (final(self)@, result) == old(self)@.string_memory(
                expected,
                span,
                signatures::resolver(depth),
            ),
        decreases depth, 5int, List::<usize>::Nil, 0int,
    {
        match self.ty(expected) {
            Type::Slice { of: _, memory, mutable: _ } => Some(memory),
            _ => self.resolve_ambient_memory(span, depth),
        }
    }

    /// The typed expression for a parsed one. `None` where it fails and nothing
    /// can stand for it; what is wrong is reported then.
    pub fn build_expression(
        &mut self,
        ctx: &mut ExprContext,
        access: AccessContext,
        expr: &Spanned<ast::Expression>,
        depth: usize,
    ) -> (result: Option<Expression>)
        ensures
            (final(self)@, *final(ctx), result) == old(self)@.build_expression(
                *old(ctx),
                access,
                expr,
                signatures::resolver(depth),
            ),
        decreases depth, 8int, expr, 9int,
    {
        match &expr.inner {
            ast::Expression::Int { value } => {
                Some(typed(ExprKind::Int { value: *value }, ty::INTEGER, expr.span))
            },
            ast::Expression::Float { bits } => {
                Some(typed(ExprKind::Float { bits: *bits }, ty::FLOAT, expr.span))
            },
            ast::Expression::Unreachable => {
                Some(typed(ExprKind::Unreachable, ty::NEVER, expr.span))
            },
            ast::Expression::True => {
                Some(typed(ExprKind::Bool { value: true }, ty::BOOL, expr.span))
            },
            ast::Expression::False => {
                Some(typed(ExprKind::Bool { value: false }, ty::BOOL, expr.span))
            },
            ast::Expression::Placeholder => Some(
                typed(
                    ExprKind::Placeholder,
                    ty::infer_or(access.expected_type, ty::ERROR),
                    expr.span,
                ),
            ),
            ast::Expression::Error => Some(poisoned(expr.span)),
            ast::Expression::String { raw } => {
                let symbol: Symbol = self.intern_literal(raw)?;
                let memory = self.string_memory(
                    access.expected_type,
                    ctx.resolve_context.at(expr.span),
                    depth,
                )?;
                let ty: TypeIndex = self.intern_type(
                    Type::Slice { of: ty::U8, memory, mutable: false },
                );
                Some(typed(ExprKind::String { symbol }, ty, expr.span))
            },
            ast::Expression::Char { raw } => {
                self.build_char_expression(ctx.resolve_context, raw, expr.span)
            },
            ast::Expression::Path(path) => {
                self.build_path_expression(ctx, access, path, expr.span, depth)
            },
            ast::Expression::Binary { .. } => {
                self.build_binary_expression(ctx, access, expr, depth)
            },
            ast::Expression::Grouping { value } => {
                self.build_expression(ctx, access, value, depth)
            },
            ast::Expression::Unary { operator, operand } => {
                let built = self.build_expression(
                    ctx,
                    reading(access.expected_type),
                    operand,
                    depth,
                )?;
                let unary = self.finish_unary(ctx, *operator, built, expr.span);
                Some(unary)
            },
            ast::Expression::Call { .. } => self.build_call_expression(ctx, access, expr, depth),
            ast::Expression::MethodCall { .. } => {
                self.build_method_call_expression(ctx, access, expr, depth)
            },
            ast::Expression::ObjectAccess { object, member } => {
                let built = self.build_expression(ctx, access, object, depth)?;
                self.finish_object_access(ctx.resolve_context, built, *member, expr.span)
            },
            ast::Expression::Deref { pointer } => {
                let built = self.build_expression(ctx, reading(ty::INFER), pointer, depth)?;
                self.finish_deref(ctx.resolve_context, access.access_kind, built, expr.span)
            },
            ast::Expression::AddressOf { value, mut_span } => {
                let built = self.build_expression(ctx, reading(ty::INFER), value, depth)?;
                self.finish_address_of(ctx.resolve_context, built, mut_span.is_some(), expr.span)
            },
            ast::Expression::Return { .. } => self.build_return_expression(ctx, expr, depth),
            ast::Expression::Block { statements } => self.build_scoped_block(
                ctx,
                statements,
                expr.span,
                None,
                access.expected_type,
                depth,
            ),
            ast::Expression::IfElse { .. } => {
                self.build_if_else_expression(ctx, access.expected_type, expr, None, depth)
            },
            ast::Expression::Match { .. } => {
                self.build_match_expression(ctx, access, expr, depth)
            },
            ast::Expression::Loop { .. } => {
                self.build_loop_expression(ctx, access.expected_type, expr, None, depth)
            },
            ast::Expression::Cast { .. } => self.build_cast_expression(ctx, access, expr, depth),
            ast::Expression::Break { .. } => self.build_break_expression(ctx, expr, depth),
            ast::Expression::Continue { label } => {
                let built = self.build_continue_expression(ctx, *label, expr.span);
                Some(built)
            },
            ast::Expression::Label { .. } => {
                self.build_label_expression(ctx, access, expr, depth)
            },
            ast::Expression::StructInit { .. } => {
                self.build_struct_init_expression(ctx, access, expr, depth)
            },
            ast::Expression::Tuple { elements } => {
                self.build_tuple_expression(ctx, access, elements, expr.span, depth)
            },
            ast::Expression::TypeApplication { callee, args: _ } => {
                let built = self.build_expression(ctx, reading(ty::INFER), callee, depth)?;
                Some(typed(built.kind, built.ty, expr.span))
            },
            ast::Expression::ArrayList { elements } => {
                self.build_array_literal_expression(ctx, access, elements, expr.span, depth)
            },
            ast::Expression::ArrayRepeat { .. } => {
                self.build_array_repeat_expression(ctx, access, expr, depth)
            },
            ast::Expression::Index { .. } => {
                self.build_index_expression(ctx, access, expr, depth)
            },
            ast::Expression::SliceRange { .. } => {
                self.build_slice_range_expression(ctx, expr, depth)
            },
        }
    }

    /// A cast. Without a type to go to, the value is built as it is.
    pub fn build_cast_expression(
        &mut self,
        ctx: &mut ExprContext,
        access: AccessContext,
        expr: &Spanned<ast::Expression>,
        depth: usize,
    ) -> (result: Option<Expression>)
        ensures
            (final(self)@, *final(ctx), result) == old(self)@.build_cast_expression(
                *old(ctx),
                access,
                expr,
                signatures::resolver(depth),
            ),
        decreases depth, 8int, expr, 4int,
    {
        match &expr.inner {
            ast::Expression::Cast { value, ty: written } => {
                let cast_type: TypeIndex = self.resolve_type(
                    ctx.resolve_context,
                    ctx.scope,
                    written,
                    depth,
                );
                let target = self.cast_target(
                    cast_type,
                    access.expected_type,
                    ctx.resolve_context.at(expr.span),
                );
                match target {
                    Some(target) => {
                        let built = self.build_expression(
                            ctx,
                            AccessContext {
                                expected_type: target,
                                access_kind: access.access_kind,
                            },
                            value,
                            depth,
                        )?;
                        self.finish_cast(ctx, built, target, expr.span)
                    },
                    None => self.build_expression(ctx, access, value, depth),
                }
            },
            _ => None,
        }
    }

    /// An expression with an operator between two operands.
    pub fn build_binary_expression(
        &mut self,
        ctx: &mut ExprContext,
        access: AccessContext,
        expr: &Spanned<ast::Expression>,
        depth: usize,
    ) -> (result: Option<Expression>)
        ensures
            (final(self)@, *final(ctx), result) == old(self)@.build_binary_expression(
                *old(ctx),
                access,
                expr,
                signatures::resolver(depth),
            ),
        decreases depth, 8int, expr, 6int,
    {
        match &expr.inner {
            ast::Expression::Binary { operator, .. } => match operator.inner {
                BinaryOp::Add
                | BinaryOp::Sub
                | BinaryOp::Mul
                | BinaryOp::Div
                | BinaryOp::Rem => {
                    self.build_arithmetic_expr(ctx, access, expr, depth)
                },
                BinaryOp::Assign => self.build_assignment_expr(ctx, expr, depth),
                BinaryOp::AddAssign
                | BinaryOp::SubAssign
                | BinaryOp::MulAssign
                | BinaryOp::DivAssign
                | BinaryOp::RemAssign => {
                    self.build_arithmetic_assignment_expr(ctx, expr, depth)
                },
                BinaryOp::Eq
                | BinaryOp::NotEq
                | BinaryOp::Less
                | BinaryOp::LessEq
                | BinaryOp::Greater
                | BinaryOp::GreaterEq => {
                    self.build_comparison_binary_expr(ctx, expr, depth)
                },
                BinaryOp::And | BinaryOp::Or => self.build_logical_binary_expr(ctx, expr, depth),
                BinaryOp::BitAnd
                | BinaryOp::BitOr
                | BinaryOp::BitXor
                | BinaryOp::LeftShift
                | BinaryOp::RightShift => {
                    self.build_bitwise_binary_expr(ctx, access, expr, depth)
                },
            },
            _ => None,
        }
    }

    /// An expression with `+`, `-`, `*`, `/` or `%`.
    pub fn build_arithmetic_expr(
        &mut self,
        ctx: &mut ExprContext,
        access: AccessContext,
        expr: &Spanned<ast::Expression>,
        depth: usize,
    ) -> (result: Option<Expression>)
        ensures
            (final(self)@, *final(ctx), result) == old(self)@.build_arithmetic_expr(
                *old(ctx),
                access,
                expr,
                signatures::resolver(depth),
            ),
        decreases depth, 8int, expr, 5int,
    {
        match &expr.inner {
            ast::Expression::Binary { operator, left, right } => {
                let left_expr = self.build_expression(
                    ctx,
                    reading(access.expected_type),
                    left,
                    depth,
                )?;
                let right_expr = self.build_expression(
                    ctx,
                    reading(self.right_expectation(left_expr.ty, access.expected_type)),
                    right,
                    depth,
                )?;
                self.finish_arithmetic(ctx, access, *operator, left_expr, right_expr, expr.span)
            },
            _ => None,
        }
    }

    /// An expression with `&`, `|`, `^`, `<<` or `>>`.
    pub fn build_bitwise_binary_expr(
        &mut self,
        ctx: &mut ExprContext,
        access: AccessContext,
        expr: &Spanned<ast::Expression>,
        depth: usize,
    ) -> (result: Option<Expression>)
        ensures
            (final(self)@, *final(ctx), result) == old(self)@.build_bitwise_binary_expr(
                *old(ctx),
                access,
                expr,
                signatures::resolver(depth),
            ),
        decreases depth, 8int, expr, 5int,
    {
        match &expr.inner {
            ast::Expression::Binary { operator, left, right } => {
                let left_expr = self.build_expression(ctx, access, left, depth)?;
                let right_access = AccessContext {
                    expected_type: self.right_expectation(left_expr.ty, access.expected_type),
                    access_kind: access.access_kind,
                };
                let right_expr = self.build_expression(ctx, right_access, right, depth)?;
                self.finish_bitwise(ctx, access, *operator, left_expr, right_expr, expr.span)
            },
            _ => None,
        }
    }

    /// A comparison.
    pub fn build_comparison_binary_expr(
        &mut self,
        ctx: &mut ExprContext,
        expr: &Spanned<ast::Expression>,
        depth: usize,
    ) -> (result: Option<Expression>)
        ensures
            (final(self)@, *final(ctx), result) == old(self)@.build_comparison_binary_expr(
                *old(ctx),
                expr,
                signatures::resolver(depth),
            ),
        decreases depth, 8int, expr, 5int,
    {
        match &expr.inner {
            ast::Expression::Binary { operator, left, right } => {
                let left_expr = self.build_expression(ctx, reading(ty::INFER), left, depth)?;
                let right_expr = self.build_expression(ctx, reading(left_expr.ty), right, depth)?;
                self.finish_comparison(ctx, *operator, left_expr, right_expr, expr.span)
            },
            _ => None,
        }
    }

    /// An expression with `&&` or `||`.
    pub fn build_logical_binary_expr(
        &mut self,
        ctx: &mut ExprContext,
        expr: &Spanned<ast::Expression>,
        depth: usize,
    ) -> (result: Option<Expression>)
        ensures
            (final(self)@, *final(ctx), result) == old(self)@.build_logical_binary_expr(
                *old(ctx),
                expr,
                signatures::resolver(depth),
            ),
        decreases depth, 8int, expr, 5int,
    {
        match &expr.inner {
            ast::Expression::Binary { operator, left, right } => {
                let left_expr = self.build_expression(ctx, reading(ty::BOOL), left, depth)?;
                self.check_logical_operand(left_expr.ty, ctx.resolve_context.at(left_expr.span));
                let right_expr = self.build_expression(ctx, reading(ty::BOOL), right, depth)?;
                self.check_logical_operand(
                    right_expr.ty,
                    ctx.resolve_context.at(right_expr.span),
                );
                Some(binary_expression(*operator, left_expr, right_expr, ty::BOOL, expr.span))
            },
            _ => None,
        }
    }

    /// `left = right`: a write to a variable, a part of one, or a place in
    /// memory; `_` drops the value.
    pub fn build_assignment_expr(
        &mut self,
        ctx: &mut ExprContext,
        expr: &Spanned<ast::Expression>,
        depth: usize,
    ) -> (result: Option<Expression>)
        ensures
            (final(self)@, *final(ctx), result) == old(self)@.build_assignment_expr(
                *old(ctx),
                expr,
                signatures::resolver(depth),
            ),
        decreases depth, 8int, expr, 5int,
    {
        match &expr.inner {
            ast::Expression::Binary { operator, left, right } => {
                let left_expr = self.build_expression(
                    ctx,
                    accessing(AccessKind::Write),
                    left,
                    depth,
                )?;
                match self.assignment_target(&*ctx, &left_expr) {
                    AssignmentTarget::Variable(target) => {
                        let right_expr = self.build_expression(
                            ctx,
                            reading(target),
                            right,
                            depth,
                        )?;
                        let right_expr = self.fit_operand(
                            ctx,
                            *operator,
                            spanned(target, left_expr.span),
                            right_expr,
                        )?;
                        Some(
                            binary_expression(
                                *operator,
                                left_expr,
                                right_expr,
                                ty::UNIT,
                                expr.span,
                            ),
                        )
                    },
                    AssignmentTarget::Memory(target) => {
                        let right_expr = self.build_expression(
                            ctx,
                            reading(target),
                            right,
                            depth,
                        )?;
                        let right_expr = self.fit_operand(
                            ctx,
                            *operator,
                            spanned(target, left_expr.span),
                            right_expr,
                        )?;
                        Some(store_expression(left_expr, right_expr, expr.span))
                    },
                    AssignmentTarget::Placeholder => {
                        let right_expr = self.build_expression(
                            ctx,
                            reading(ty::INFER),
                            right,
                            depth,
                        )?;
                        if ty::is_comptime_number(right_expr.ty) {
                            self.report(
                                report_type_annotation_required(
                                    ctx.resolve_context.at(right_expr.span),
                                ),
                            );
                            return None;
                        }
                        let dropped = typed(ExprKind::Placeholder, right_expr.ty, left_expr.span);
                        Some(
                            binary_expression(
                                *operator,
                                dropped,
                                right_expr,
                                ty::UNIT,
                                expr.span,
                            ),
                        )
                    },
                    AssignmentTarget::Poisoned => {
                        let built = self.build_expression(ctx, reading(ty::ERROR), right, depth);
                        Some(
                            binary_expression(
                                *operator,
                                left_expr,
                                or_poisoned(built, right.span),
                                ty::UNIT,
                                expr.span,
                            ),
                        )
                    },
                    AssignmentTarget::Invalid => {
                        self.report(
                            report_invalid_assignment_target(
                                ctx.resolve_context.at(left_expr.span),
                            ),
                        );
                        Some(poisoned_as(ty::UNIT, expr.span))
                    },
                }
            },
            _ => None,
        }
    }

    /// `left += right` and the like: a read and a write of a variable, a part of
    /// one, or a place in memory that holds a number.
    pub fn build_arithmetic_assignment_expr(
        &mut self,
        ctx: &mut ExprContext,
        expr: &Spanned<ast::Expression>,
        depth: usize,
    ) -> (result: Option<Expression>)
        ensures
            (final(self)@, *final(ctx), result) == old(self)@.build_arithmetic_assignment_expr(
                *old(ctx),
                expr,
                signatures::resolver(depth),
            ),
        decreases depth, 8int, expr, 5int,
    {
        match &expr.inner {
            ast::Expression::Binary { operator, left, right } => {
                let left_expr = self.build_expression(
                    ctx,
                    accessing(AccessKind::ReadWrite),
                    left,
                    depth,
                )?;
                match self.assignment_target(&*ctx, &left_expr) {
                    AssignmentTarget::Variable(target) | AssignmentTarget::Memory(target) => {
                        if !ty::is_primitive(target) {
                            self.report(
                                report_binary_operator_cannot_be_applied(
                                    *operator,
                                    spanned(target, left_expr.span),
                                    ctx.resolve_context.file_id,
                                ),
                            );
                            return None;
                        }
                        let right_expr = self.build_expression(
                            ctx,
                            reading(target),
                            right,
                            depth,
                        )?;
                        let right_expr = self.fit_operand(
                            ctx,
                            *operator,
                            spanned(target, left_expr.span),
                            right_expr,
                        )?;
                        Some(
                            binary_expression(
                                *operator,
                                left_expr,
                                right_expr,
                                ty::UNIT,
                                expr.span,
                            ),
                        )
                    },
                    _ => {
                        self.report(
                            report_invalid_assignment_target(
                                ctx.resolve_context.at(left_expr.span),
                            ),
                        );
                        Some(poisoned_as(ty::UNIT, expr.span))
                    },
                }
            },
            _ => None,
        }
    }
}

} // verus!
