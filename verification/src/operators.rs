//! The types of operator expressions, once their operands are known.

use vstd::prelude::*;

use crate::ast::{BinaryOp, UnaryOp};
use crate::reports::{
    report_binary_expression_mistmatch, report_binary_operator_cannot_be_applied,
    report_comparison_type_annotation_required, report_type_annotation_required,
    report_type_mistmatch, report_unary_operator_cannot_be_applied, report_unreachable_code,
};
use crate::scope::ExprContext;
use crate::shape::{binary_expression, poisoned_as, spanned, unary_expression};
use crate::span::{FileId, SourceSpan, Spanned, TextSpan};
use crate::state;
use crate::state::{vec_at, Builder, State};
use crate::tir::{AccessContext, ExprKind, Expression, Memory};
use crate::ty;
use crate::types::{Type, TypeIndex};

verus! {

/// What stands on the left of an assignment.
#[derive(Clone, Copy, Debug, PartialEq, Eq, Structural)]
pub enum AssignmentTarget {
    /// A variable or a part of one, of that type.
    Variable(TypeIndex),
    /// A location in a memory, of that type.
    Memory(TypeIndex),
    /// `_`
    Placeholder,
    /// Something that was reported before.
    Poisoned,
    Invalid,
}

/// The expression that stores a value at the location that `left` loads.
#[verifier::allow_in_spec]
pub fn store_expression(left: Expression, value: Expression, span: TextSpan) -> (result: Expression)
    returns
        (match left.kind {
            ExprKind::Load { place } => Expression {
                kind: ExprKind::Store { place, value: Box::new(value) },
                ty: ty::UNIT,
                span,
            },
            _ => poisoned_as(ty::UNIT, span),
        }),
{
    match left.kind {
        ExprKind::Load { place } => Expression {
            kind: ExprKind::Store { place, value: Box::new(value) },
            ty: ty::UNIT,
            span,
        },
        _ => poisoned_as(ty::UNIT, span),
    }
}

impl<'ast> State<'ast> {
    /// What stands on the left of an assignment.
    pub open spec fn assignment_target(
        self,
        ctx: &ExprContext,
        left: &Expression,
    ) -> AssignmentTarget {
        match &left.kind {
            ExprKind::Local { scope_index, local_index } => {
                match ctx.local_at(*scope_index, *local_index) {
                    Some(local) => AssignmentTarget::Variable(local.ty),
                    None => AssignmentTarget::Variable(ty::ERROR),
                }
            },
            ExprKind::Global { id } => {
                match self.global_index(*id) {
                    Some(index) => {
                        match state::seq_ref(self.globals, index) {
                            Some(global) => AssignmentTarget::Variable(global.ty.inner),
                            None => AssignmentTarget::Variable(ty::ERROR),
                        }
                    },
                    None => AssignmentTarget::Variable(ty::ERROR),
                }
            },
            ExprKind::Placeholder => AssignmentTarget::Placeholder,
            ExprKind::Load { place } => AssignmentTarget::Memory(place.ty),
            ExprKind::FieldAccess { object, .. } => {
                match &object.kind {
                    ExprKind::Local { .. } | ExprKind::Global { .. } => {
                        AssignmentTarget::Variable(left.ty)
                    },
                    _ => AssignmentTarget::Invalid,
                }
            },
            ExprKind::Error => AssignmentTarget::Poisoned,
            _ => AssignmentTarget::Invalid,
        }
    }

    /// The type that is expected of the right operand: that of the left one,
    /// unless that says nothing.
    pub open spec fn right_expectation(self, left: TypeIndex, expected: TypeIndex) -> TypeIndex {
        match self.ty(left) {
            Type::Integer | Type::Float | Type::Error | Type::Never | Type::Unit => expected,
            _ => left,
        }
    }

    /// An expression with `+`, `-`, `*`, `/` or `%`: both operands have the same
    /// arithmetic type, which is that of the expression. Of a number literal and
    /// another operand the literal takes the other's type.
    #[verifier::opaque]
    pub open spec fn finish_arithmetic(
        self,
        ctx: ExprContext,
        access: AccessContext,
        operator: Spanned<BinaryOp>,
        left: Expression,
        right: Expression,
        span: TextSpan,
    ) -> (State<'ast>, ExprContext, Option<Expression>) {
        let left_ty: TypeIndex = left.ty;
        let right_ty: TypeIndex = right.ty;
        let file_id: FileId = ctx.resolve_context.file_id;
        if ty::is_comptime_number(left_ty) && ty::is_comptime_number(right_ty) {
            if left_ty != right_ty {
                let s = self.report(
                    report_type_mistmatch(
                        left_ty,
                        right_ty,
                        SourceSpan::new(file_id, right.span),
                    ),
                );
                (s, ctx, Some(binary_expression(operator, left, right, ty::ERROR, span)))
            } else {
                (self, ctx, Some(binary_expression(operator, left, right, left_ty, span)))
            }
        } else {
            if ty::is_comptime_number(left_ty) {
                if !ty::is_primitive(right_ty) {
                    let s = self.report(
                        report_binary_operator_cannot_be_applied(
                            operator,
                            spanned(right_ty, right.span),
                            file_id,
                        ),
                    );
                    (s, ctx, Some(binary_expression(operator, left, right, ty::ERROR, span)))
                } else {
                    let (s, ctx, (left, fits)) = self.coerce_untyped_expr(ctx, left, right_ty);
                    if !fits {
                        (s, ctx, None)
                    } else {
                        (s, ctx, Some(binary_expression(operator, left, right, right_ty, span)))
                    }
                }
            } else {
                if ty::is_comptime_number(right_ty) {
                    let (s, ctx, (right, fits)) = self.coerce_untyped_expr(ctx, right, left_ty);
                    if !fits {
                        (s, ctx, None)
                    } else {
                        (s, ctx, Some(binary_expression(operator, left, right, left_ty, span)))
                    }
                } else {
                    if left_ty == ty::NEVER {
                        let s = self.report(
                            report_unreachable_code(SourceSpan::new(file_id, right.span)),
                        );
                        (s, ctx, Some(left))
                    } else {
                        if right_ty == ty::NEVER {
                            let s = self.report(
                                report_unreachable_code(SourceSpan::new(file_id, operator.span)),
                            );
                            (s, ctx, Some(right))
                        } else {
                            if left_ty == right_ty && self.is_arithmetic(left_ty) {
                                (
                                    self,
                                    ctx,
                                    Some(binary_expression(operator, left, right, left_ty, span)),
                                )
                            } else {
                                let s = self.report(
                                    report_binary_expression_mistmatch(
                                        operator.inner,
                                        spanned(left_ty, left.span),
                                        spanned(right_ty, right.span),
                                        file_id,
                                    ),
                                );
                                if access.expected_type != ty::INFER {
                                    (
                                        s,
                                        ctx,
                                        Some(
                                            binary_expression(
                                                operator,
                                                left,
                                                right,
                                                access.expected_type,
                                                span,
                                            ),
                                        ),
                                    )
                                } else {
                                    (s, ctx, None)
                                }
                            }
                        }
                    }
                }
            }
        }
    }

    /// Reports a bit operation on a type that is neither an integer type nor
    /// `bool`.
    pub open spec fn check_bitwise_operand(
        self,
        operator: Spanned<BinaryOp>,
        operand: Spanned<TypeIndex>,
        file_id: FileId,
    ) -> State<'ast> {
        if !ty::is_integer(operand.inner) && operand.inner != ty::BOOL {
            self.report(
                report_binary_operator_cannot_be_applied(operator, operand, file_id),
            )
        } else {
            self
        }
    }

    /// An expression with `&`, `|`, `^`, `<<` or `>>`: both operands have the
    /// same type, an integer type or `bool`, which is that of the expression. A
    /// number literal takes the other operand's type; two literals take the
    /// expected one.
    #[verifier::opaque]
    pub open spec fn finish_bitwise(
        self,
        ctx: ExprContext,
        access: AccessContext,
        operator: Spanned<BinaryOp>,
        left: Expression,
        right: Expression,
        span: TextSpan,
    ) -> (State<'ast>, ExprContext, Option<Expression>) {
        let left_ty: TypeIndex = left.ty;
        let right_ty: TypeIndex = right.ty;
        let file_id: FileId = ctx.resolve_context.file_id;
        if left_ty == ty::ERROR || right_ty == ty::ERROR {
            (
                self,
                ctx,
                Some(
                    binary_expression(
                        operator,
                        left,
                        right,
                        ty::infer_or(access.expected_type, ty::ERROR),
                        span,
                    ),
                ),
            )
        } else {
            if ty::is_comptime_number(left_ty) && ty::is_comptime_number(right_ty) {
                let expected: TypeIndex = access.expected_type;
                if expected == ty::INFER {
                    let s = self.report(
                        report_type_annotation_required(SourceSpan::new(file_id, span)),
                    );
                    (s, ctx, None)
                } else {
                    let (s, ctx, (left, left_fits)) = self.coerce_untyped_expr(
                        ctx,
                        left,
                        expected,
                    );
                    if !left_fits {
                        (s, ctx, None)
                    } else {
                        let (s, ctx, (right, right_fits)) = s.coerce_untyped_expr(
                            ctx,
                            right,
                            expected,
                        );
                        if !right_fits {
                            (s, ctx, None)
                        } else {
                            let s = s.check_bitwise_operand(
                                operator,
                                spanned(expected, left.span),
                                file_id,
                            );
                            (
                                s,
                                ctx,
                                Some(binary_expression(operator, left, right, expected, span)),
                            )
                        }
                    }
                }
            } else {
                if ty::is_comptime_number(left_ty) {
                    let s = self.check_bitwise_operand(
                        operator,
                        spanned(right_ty, right.span),
                        file_id,
                    );
                    let (s, ctx, (left, fits)) = s.coerce_untyped_expr(ctx, left, right_ty);
                    if !fits {
                        (s, ctx, None)
                    } else {
                        (s, ctx, Some(binary_expression(operator, left, right, right_ty, span)))
                    }
                } else {
                    if ty::is_comptime_number(right_ty) {
                        let s = self.check_bitwise_operand(
                            operator,
                            spanned(left_ty, left.span),
                            file_id,
                        );
                        let (s, ctx, (right, fits)) = s.coerce_untyped_expr(ctx, right, left_ty);
                        if !fits {
                            (s, ctx, None)
                        } else {
                            (
                                s,
                                ctx,
                                Some(binary_expression(operator, left, right, left_ty, span)),
                            )
                        }
                    } else {
                        if left_ty == right_ty
                            && (ty::is_integer(left_ty) || left_ty == ty::BOOL) {
                            (
                                self,
                                ctx,
                                Some(binary_expression(operator, left, right, left_ty, span)),
                            )
                        } else {
                            let s = self.report(
                                report_binary_expression_mistmatch(
                                    operator.inner,
                                    spanned(left_ty, left.span),
                                    spanned(right_ty, right.span),
                                    file_id,
                                ),
                            );
                            (
                                s,
                                ctx,
                                Some(
                                    binary_expression(
                                        operator,
                                        left,
                                        right,
                                        ty::infer_or(access.expected_type, ty::ERROR),
                                        span,
                                    ),
                                ),
                            )
                        }
                    }
                }
            }
        }
    }

    /// Whether values of the two types can be compared with an operator: two of
    /// the same arithmetic type, of `bool` or of one enum, and, for equality
    /// alone, two pointers to the same type in the same memory.
    pub open spec fn is_comparable(
        self,
        operator: BinaryOp,
        left: TypeIndex,
        right: TypeIndex,
    ) -> bool {
        if left == ty::BOOL && right == ty::BOOL {
            true
        } else {
            if left == right && self.is_arithmetic(left) {
                true
            } else {
                match (self.ty(left), self.ty(right)) {
                    (Type::Enum { .. }, _) => left == right,
                    (
                        Type::Pointer { to: left_to, memory: left_memory, mutable: _ },
                        Type::Pointer { to: right_to, memory: right_memory, mutable: _ },
                    ) => {
                        (operator == BinaryOp::Eq || operator == BinaryOp::NotEq)
                            && left_to == right_to
                            && left_memory == right_memory
                    },
                    _ => false,
                }
            }
        }
    }

    /// A comparison: its type is `bool` whatever is wrong with the operands. A
    /// number literal takes the other operand's type; one of the two must have
    /// one.
    #[verifier::opaque]
    pub open spec fn finish_comparison(
        self,
        ctx: ExprContext,
        operator: Spanned<BinaryOp>,
        left: Expression,
        right: Expression,
        span: TextSpan,
    ) -> (State<'ast>, ExprContext, Option<Expression>) {
        let left_ty: TypeIndex = left.ty;
        let right_ty: TypeIndex = right.ty;
        let file_id: FileId = ctx.resolve_context.file_id;
        if left_ty == ty::ERROR || right_ty == ty::ERROR {
            (self, ctx, Some(binary_expression(operator, left, right, ty::BOOL, span)))
        } else {
            if ty::is_comptime_number(left_ty) && ty::is_comptime_number(right_ty) {
                let s = self.report(
                    report_comparison_type_annotation_required(
                        SourceSpan::new(file_id, left.span),
                        SourceSpan::new(file_id, right.span),
                    ),
                );
                (s, ctx, Some(binary_expression(operator, left, right, ty::BOOL, span)))
            } else {
                if ty::is_comptime_number(left_ty) {
                    let (s, ctx, (left, fits)) = self.coerce_untyped_expr(ctx, left, right_ty);
                    if !fits {
                        (s, ctx, None)
                    } else {
                        (s, ctx, Some(binary_expression(operator, left, right, ty::BOOL, span)))
                    }
                } else {
                    if ty::is_comptime_number(right_ty) {
                        let (s, ctx, (right, fits)) = self.coerce_untyped_expr(
                            ctx,
                            right,
                            left_ty,
                        );
                        if !fits {
                            (s, ctx, None)
                        } else {
                            (
                                s,
                                ctx,
                                Some(binary_expression(operator, left, right, ty::BOOL, span)),
                            )
                        }
                    } else {
                        let s = if !self.is_comparable(operator.inner, left_ty, right_ty) {
                            self.report(
                                report_binary_expression_mistmatch(
                                    operator.inner,
                                    spanned(left_ty, left.span),
                                    spanned(right_ty, right.span),
                                    file_id,
                                ),
                            )
                        } else {
                            self
                        };
                        (s, ctx, Some(binary_expression(operator, left, right, ty::BOOL, span)))
                    }
                }
            }
        }
    }

    /// Reports an operand of `&&` or `||`, or a condition, that is not a `bool`.
    #[verifier::opaque]
    pub open spec fn check_logical_operand(
        self,
        operand_ty: TypeIndex,
        span: SourceSpan,
    ) -> State<'ast> {
        if operand_ty == ty::ERROR {
            self
        } else {
            if ty::is_comptime_number(operand_ty) {
                self.report(report_type_annotation_required(span))
            } else {
                if operand_ty != ty::BOOL {
                    self.report(report_type_mistmatch(ty::BOOL, operand_ty, span))
                } else {
                    self
                }
            }
        }
    }

    /// An expression with `-`, `~` or `!`. The first two keep the type of a
    /// number; `!` gives a `bool`.
    #[verifier::opaque]
    pub open spec fn finish_unary(
        self,
        ctx: ExprContext,
        operator: Spanned<UnaryOp>,
        operand: Expression,
        span: TextSpan,
    ) -> (State<'ast>, ExprContext, Expression) {
        let operand_ty: TypeIndex = operand.ty;
        let file_id: FileId = ctx.resolve_context.file_id;
        if operator.inner != UnaryOp::Not {
            if ty::is_primitive(operand_ty) || ty::is_comptime_number(operand_ty) {
                (self, ctx, unary_expression(operator, operand, operand_ty, span))
            } else {
                let s = if operand_ty != ty::ERROR {
                    self.report(
                        report_unary_operator_cannot_be_applied(
                            operator,
                            spanned(operand_ty, operand.span),
                            file_id,
                        ),
                    )
                } else {
                    self
                };
                (s, ctx, unary_expression(operator, operand, ty::ERROR, span))
            }
        } else {
            if operand_ty == ty::BOOL {
                (self, ctx, unary_expression(operator, operand, ty::BOOL, span))
            } else {
                if ty::is_comptime_number(operand_ty) {
                    let (s, ctx, (operand, _)) = self.coerce_untyped_expr(ctx, operand, ty::BOOL);
                    (s, ctx, unary_expression(operator, operand, ty::BOOL, span))
                } else {
                    let s = self.report(
                        report_unary_operator_cannot_be_applied(
                            operator,
                            spanned(operand_ty, operand.span),
                            file_id,
                        ),
                    );
                    (s, ctx, unary_expression(operator, operand, ty::BOOL, span))
                }
            }
        }
    }
}

impl<'ast> Builder<'ast> {
    /// What stands on the left of an assignment.
    pub fn assignment_target(
        &self,
        ctx: &ExprContext,
        left: &Expression,
    ) -> (result: AssignmentTarget)
        ensures
            result == self@.assignment_target(ctx, left),
    {
        match &left.kind {
            ExprKind::Local { scope_index, local_index } => match ctx.local(*scope_index, *local_index) {
                Some(local) => AssignmentTarget::Variable(local.ty),
                None => AssignmentTarget::Variable(ty::ERROR),
            },
            ExprKind::Global { id } => match self.global_index(*id) {
                Some(index) => match vec_at(&self.globals, index) {
                    Some(global) => AssignmentTarget::Variable(global.ty.inner),
                    None => AssignmentTarget::Variable(ty::ERROR),
                },
                None => AssignmentTarget::Variable(ty::ERROR),
            },
            ExprKind::Placeholder => AssignmentTarget::Placeholder,
            ExprKind::Load { place } => AssignmentTarget::Memory(place.ty),
            ExprKind::FieldAccess { object, .. } => match &object.kind {
                ExprKind::Local { .. } | ExprKind::Global { .. } => {
                    AssignmentTarget::Variable(left.ty)
                },
                _ => AssignmentTarget::Invalid,
            },
            ExprKind::Error => AssignmentTarget::Poisoned,
            _ => AssignmentTarget::Invalid,
        }
    }

    /// The type that is expected of the right operand: that of the left one,
    /// unless that says nothing.
    pub fn right_expectation(&self, left: TypeIndex, expected: TypeIndex) -> (result: TypeIndex)
        ensures
            result == self@.right_expectation(left, expected),
    {
        match self.ty(left) {
            Type::Integer | Type::Float | Type::Error | Type::Never | Type::Unit => expected,
            _ => left,
        }
    }

    /// An expression with `+`, `-`, `*`, `/` or `%`: both operands have the same
    /// arithmetic type, which is that of the expression. Of a number literal and
    /// another operand the literal takes the other's type.
    pub fn finish_arithmetic(
        &mut self,
        ctx: &mut ExprContext,
        access: AccessContext,
        operator: Spanned<BinaryOp>,
        left: Expression,
        right: Expression,
        span: TextSpan,
    ) -> (result: Option<Expression>)
        ensures
            (final(self)@, *final(ctx), result) == old(self)@.finish_arithmetic(
                *old(ctx),
                access,
                operator,
                left,
                right,
                span,
            ),
    {
        proof {
            reveal(State::finish_arithmetic);
        }
        let left_ty: TypeIndex = left.ty;
        let right_ty: TypeIndex = right.ty;
        let file_id: FileId = ctx.resolve_context.file_id;
        if ty::is_comptime_number(left_ty) && ty::is_comptime_number(right_ty) {
            if left_ty != right_ty {
                self.report(
                    report_type_mistmatch(
                        left_ty,
                        right_ty,
                        SourceSpan::new(file_id, right.span),
                    ),
                );
                return Some(binary_expression(operator, left, right, ty::ERROR, span));
            }
            return Some(binary_expression(operator, left, right, left_ty, span));
        }
        if ty::is_comptime_number(left_ty) {
            if !ty::is_primitive(right_ty) {
                self.report(
                    report_binary_operator_cannot_be_applied(
                        operator,
                        spanned(right_ty, right.span),
                        file_id,
                    ),
                );
                return Some(binary_expression(operator, left, right, ty::ERROR, span));
            }
            let (left, fits) = self.coerce_untyped_expr(ctx, left, right_ty);
            if !fits {
                return None;
            }
            return Some(binary_expression(operator, left, right, right_ty, span));
        }
        if ty::is_comptime_number(right_ty) {
            let (right, fits) = self.coerce_untyped_expr(ctx, right, left_ty);
            if !fits {
                return None;
            }
            return Some(binary_expression(operator, left, right, left_ty, span));
        }
        if left_ty == ty::NEVER {
            self.report(report_unreachable_code(SourceSpan::new(file_id, right.span)));
            return Some(left);
        }
        if right_ty == ty::NEVER {
            self.report(report_unreachable_code(SourceSpan::new(file_id, operator.span)));
            return Some(right);
        }
        if left_ty == right_ty && self.is_arithmetic_type(left_ty) {
            return Some(binary_expression(operator, left, right, left_ty, span));
        }
        self.report(
            report_binary_expression_mistmatch(
                operator.inner,
                spanned(left_ty, left.span),
                spanned(right_ty, right.span),
                file_id,
            ),
        );
        if access.expected_type != ty::INFER {
            Some(binary_expression(operator, left, right, access.expected_type, span))
        } else {
            None
        }
    }

    /// Reports a bit operation on a type that is neither an integer type nor
    /// `bool`.
    pub fn check_bitwise_operand(
        &mut self,
        operator: Spanned<BinaryOp>,
        operand: Spanned<TypeIndex>,
        file_id: FileId,
    )
        ensures
            final(self)@ == old(self)@.check_bitwise_operand(operator, operand, file_id),
    {
        if !ty::is_integer(operand.inner) && operand.inner != ty::BOOL {
            self.report(report_binary_operator_cannot_be_applied(operator, operand, file_id));
        }
    }

    /// An expression with `&`, `|`, `^`, `<<` or `>>`: both operands have the
    /// same type, an integer type or `bool`, which is that of the expression. A
    /// number literal takes the other operand's type; two literals take the
    /// expected one.
    pub fn finish_bitwise(
        &mut self,
        ctx: &mut ExprContext,
        access: AccessContext,
        operator: Spanned<BinaryOp>,
        left: Expression,
        right: Expression,
        span: TextSpan,
    ) -> (result: Option<Expression>)
        ensures
            (final(self)@, *final(ctx), result) == old(self)@.finish_bitwise(
                *old(ctx),
                access,
                operator,
                left,
                right,
                span,
            ),
    {
        proof {
            reveal(State::finish_bitwise);
        }
        let left_ty: TypeIndex = left.ty;
        let right_ty: TypeIndex = right.ty;
        let file_id: FileId = ctx.resolve_context.file_id;
        if left_ty == ty::ERROR || right_ty == ty::ERROR {
            return Some(
                binary_expression(
                    operator,
                    left,
                    right,
                    ty::infer_or(access.expected_type, ty::ERROR),
                    span,
                ),
            );
        }
        if ty::is_comptime_number(left_ty) && ty::is_comptime_number(right_ty) {
            let expected: TypeIndex = access.expected_type;
            if expected == ty::INFER {
                self.report(report_type_annotation_required(SourceSpan::new(file_id, span)));
                return None;
            }
            let (left, left_fits) = self.coerce_untyped_expr(ctx, left, expected);
            if !left_fits {
                return None;
            }
            let (right, right_fits) = self.coerce_untyped_expr(ctx, right, expected);
            if !right_fits {
                return None;
            }
            self.check_bitwise_operand(operator, spanned(expected, left.span), file_id);
            return Some(binary_expression(operator, left, right, expected, span));
        }
        if ty::is_comptime_number(left_ty) {
            self.check_bitwise_operand(operator, spanned(right_ty, right.span), file_id);
            let (left, fits) = self.coerce_untyped_expr(ctx, left, right_ty);
            if !fits {
                return None;
            }
            return Some(binary_expression(operator, left, right, right_ty, span));
        }
        if ty::is_comptime_number(right_ty) {
            self.check_bitwise_operand(operator, spanned(left_ty, left.span), file_id);
            let (right, fits) = self.coerce_untyped_expr(ctx, right, left_ty);
            if !fits {
                return None;
            }
            return Some(binary_expression(operator, left, right, left_ty, span));
        }
        if left_ty == right_ty && (ty::is_integer(left_ty) || left_ty == ty::BOOL) {
            return Some(binary_expression(operator, left, right, left_ty, span));
        }
        self.report(
            report_binary_expression_mistmatch(
                operator.inner,
                spanned(left_ty, left.span),
                spanned(right_ty, right.span),
                file_id,
            ),
        );
        Some(
            binary_expression(
                operator,
                left,
                right,
                ty::infer_or(access.expected_type, ty::ERROR),
                span,
            ),
        )
    }

    /// Whether values of the two types can be compared with an operator: two of
    /// the same arithmetic type, of `bool` or of one enum, and, for equality
    /// alone, two pointers to the same type in the same memory.
    pub fn is_comparable(
        &self,
        operator: BinaryOp,
        left: TypeIndex,
        right: TypeIndex,
    ) -> (result: bool)
        ensures
            result == self@.is_comparable(operator, left, right),
    {
        if left == ty::BOOL && right == ty::BOOL {
            return true;
        }
        if left == right && self.is_arithmetic_type(left) {
            return true;
        }
        match (self.ty(left), self.ty(right)) {
            (Type::Enum { .. }, _) => left == right,
            (
                Type::Pointer { to: left_to, memory: left_memory, mutable: _ },
                Type::Pointer { to: right_to, memory: right_memory, mutable: _ },
            ) => {
                (operator == BinaryOp::Eq || operator == BinaryOp::NotEq)
                    && left_to == right_to
                    && left_memory == right_memory
            },
            _ => false,
        }
    }

    /// A comparison: its type is `bool` whatever is wrong with the operands. A
    /// number literal takes the other operand's type; one of the two must have
    /// one.
    pub fn finish_comparison(
        &mut self,
        ctx: &mut ExprContext,
        operator: Spanned<BinaryOp>,
        left: Expression,
        right: Expression,
        span: TextSpan,
    ) -> (result: Option<Expression>)
        ensures
            (final(self)@, *final(ctx), result) == old(self)@.finish_comparison(
                *old(ctx),
                operator,
                left,
                right,
                span,
            ),
    {
        proof {
            reveal(State::finish_comparison);
        }
        let left_ty: TypeIndex = left.ty;
        let right_ty: TypeIndex = right.ty;
        let file_id: FileId = ctx.resolve_context.file_id;
        if left_ty == ty::ERROR || right_ty == ty::ERROR {
            return Some(binary_expression(operator, left, right, ty::BOOL, span));
        }
        if ty::is_comptime_number(left_ty) && ty::is_comptime_number(right_ty) {
            self.report(
                report_comparison_type_annotation_required(
                    SourceSpan::new(file_id, left.span),
                    SourceSpan::new(file_id, right.span),
                ),
            );
            return Some(binary_expression(operator, left, right, ty::BOOL, span));
        }
        if ty::is_comptime_number(left_ty) {
            let (left, fits) = self.coerce_untyped_expr(ctx, left, right_ty);
            if !fits {
                return None;
            }
            return Some(binary_expression(operator, left, right, ty::BOOL, span));
        }
        if ty::is_comptime_number(right_ty) {
            let (right, fits) = self.coerce_untyped_expr(ctx, right, left_ty);
            if !fits {
                return None;
            }
            return Some(binary_expression(operator, left, right, ty::BOOL, span));
        }
        if !self.is_comparable(operator.inner, left_ty, right_ty) {
            self.report(
                report_binary_expression_mistmatch(
                    operator.inner,
                    spanned(left_ty, left.span),
                    spanned(right_ty, right.span),
                    file_id,
                ),
            );
        }
        Some(binary_expression(operator, left, right, ty::BOOL, span))
    }

    /// Reports an operand of `&&` or `||`, or a condition, that is not a `bool`.
    pub fn check_logical_operand(&mut self, operand_ty: TypeIndex, span: SourceSpan)
        ensures
            final(self)@ == old(self)@.check_logical_operand(operand_ty, span),
    {
        proof {
            reveal(State::check_logical_operand);
        }
        if operand_ty == ty::ERROR {
            return ;
        }
        if ty::is_comptime_number(operand_ty) {
            self.report(report_type_annotation_required(span));
            return ;
        }
        if operand_ty != ty::BOOL {
            self.report(report_type_mistmatch(ty::BOOL, operand_ty, span));
        }
    }

    /// An expression with `-`, `~` or `!`. The first two keep the type of a
    /// number; `!` gives a `bool`.
    pub fn finish_unary(
        &mut self,
        ctx: &mut ExprContext,
        operator: Spanned<UnaryOp>,
        operand: Expression,
        span: TextSpan,
    ) -> (result: Expression)
        ensures
            (final(self)@, *final(ctx), result) == old(self)@.finish_unary(
                *old(ctx),
                operator,
                operand,
                span,
            ),
    {
        proof {
            reveal(State::finish_unary);
        }
        let operand_ty: TypeIndex = operand.ty;
        let file_id: FileId = ctx.resolve_context.file_id;
        if operator.inner != UnaryOp::Not {
            if ty::is_primitive(operand_ty) || ty::is_comptime_number(operand_ty) {
                return unary_expression(operator, operand, operand_ty, span);
            }
            if operand_ty != ty::ERROR {
                self.report(
                    report_unary_operator_cannot_be_applied(
                        operator,
                        spanned(operand_ty, operand.span),
                        file_id,
                    ),
                );
            }
            return unary_expression(operator, operand, ty::ERROR, span);
        }
        if operand_ty == ty::BOOL {
            return unary_expression(operator, operand, ty::BOOL, span);
        }
        if ty::is_comptime_number(operand_ty) {
            let (operand, _) = self.coerce_untyped_expr(ctx, operand, ty::BOOL);
            return unary_expression(operator, operand, ty::BOOL, span);
        }
        self.report(
            report_unary_operator_cannot_be_applied(
                operator,
                spanned(operand_ty, operand.span),
                file_id,
            ),
        );
        unary_expression(operator, operand, ty::BOOL, span)
    }
}

} // verus!
