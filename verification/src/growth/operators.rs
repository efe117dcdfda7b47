//! What `operators` does to the state only adds to it.

use vstd::prelude::*;

use crate::ast::{BinaryOp, UnaryOp};
use crate::reports::{
    report_binary_operator_cannot_be_applied, report_comparison_type_annotation_required,
    report_type_annotation_required, report_type_mistmatch,
    report_unary_operator_cannot_be_applied,
};
use crate::scope::ExprContext;
use crate::shape::spanned;
use crate::span::{FileId, SourceSpan, Spanned, TextSpan};
use crate::state::State;
use crate::tir::{AccessContext, Expression};
use crate::ty;
use crate::types::TypeIndex;

verus! {

impl<'ast> State<'ast> {
    pub broadcast proof fn adds_finish_arithmetic(
        self,
        ctx: ExprContext,
        access: AccessContext,
        operator: Spanned<BinaryOp>,
        left: Expression,
        right: Expression,
        span: TextSpan,
    )
        ensures
            self.only_adds(
                (#[trigger] self.finish_arithmetic(ctx, access, operator, left, right, span)).0,
            ),
    {
        broadcast use crate::growth::group_adding;

        self.adds_nothing();
        reveal(State::finish_arithmetic);
        let left_ty: TypeIndex = left.ty;
        let right_ty: TypeIndex = right.ty;
        let file_id: FileId = ctx.resolve_context.file_id;
        if ty::is_comptime_number(left_ty) && ty::is_comptime_number(right_ty) {
            if left_ty != right_ty {
                let s = self.report(
                    report_type_mistmatch(
                        left_ty,
                        right_ty,
                        SourceSpan::new(file_id, right.span),
                    ),
                );
            }
        } else {
            if ty::is_comptime_number(left_ty) {
                if !ty::is_primitive(right_ty) {
                    let s = self.report(
                        report_binary_operator_cannot_be_applied(
                            operator,
                            spanned(right_ty, right.span),
                            file_id,
                        ),
                    );
                } else {
                    self.adds_coerce_untyped_expr(ctx, left, right_ty);
                    let (s, ctx, (left, fits)) = self.coerce_untyped_expr(ctx, left, right_ty);
                    if !fits {
                    }
                }
            } else {
                if ty::is_comptime_number(right_ty) {
                    self.adds_coerce_untyped_expr(ctx, right, left_ty);
                    let (s, ctx, (right, fits)) = self.coerce_untyped_expr(ctx, right, left_ty);
                    if !fits {
                    }
                }
            }
        }
    }

    pub broadcast proof fn adds_check_bitwise_operand(
        self,
        operator: Spanned<BinaryOp>,
        operand: Spanned<TypeIndex>,
        file_id: FileId,
    )
        ensures
            self.only_adds(#[trigger] self.check_bitwise_operand(operator, operand, file_id)),
    {
        broadcast use crate::growth::group_adding;

        self.adds_nothing();
    }

    pub broadcast proof fn adds_finish_bitwise(
        self,
        ctx: ExprContext,
        access: AccessContext,
        operator: Spanned<BinaryOp>,
        left: Expression,
        right: Expression,
        span: TextSpan,
    )
        ensures
            self.only_adds(
                (#[trigger] self.finish_bitwise(ctx, access, operator, left, right, span)).0,
            ),
    {
        broadcast use crate::growth::group_adding;

        self.adds_nothing();
        reveal(State::finish_bitwise);
        let left_ty: TypeIndex = left.ty;
        let right_ty: TypeIndex = right.ty;
        let file_id: FileId = ctx.resolve_context.file_id;
        if left_ty == ty::ERROR || right_ty == ty::ERROR {
        } else {
            if ty::is_comptime_number(left_ty) && ty::is_comptime_number(right_ty) {
                let expected: TypeIndex = access.expected_type;
                if expected == ty::INFER {
                    let s = self.report(
                        report_type_annotation_required(SourceSpan::new(file_id, span)),
                    );
                } else {
                    self.adds_coerce_untyped_expr(ctx, left, expected);
                    let (s, ctx, (left, left_fits)) = self.coerce_untyped_expr(
                        ctx,
                        left,
                        expected,
                    );
                    if !left_fits {
                    } else {
                        s.adds_coerce_untyped_expr(ctx, right, expected);
                        let (s, ctx, (right, right_fits)) = s.coerce_untyped_expr(
                            ctx,
                            right,
                            expected,
                        );
                        if !right_fits {
                        } else {
                            s.adds_check_bitwise_operand(
                                operator,
                                spanned(expected, left.span),
                                file_id,
                            );
                            let s = s.check_bitwise_operand(
                                operator,
                                spanned(expected, left.span),
                                file_id,
                            );
                        }
                    }
                }
            } else {
                if ty::is_comptime_number(left_ty) {
                    self.adds_check_bitwise_operand(
                        operator,
                        spanned(right_ty, right.span),
                        file_id,
                    );
                    let s = self.check_bitwise_operand(
                        operator,
                        spanned(right_ty, right.span),
                        file_id,
                    );
                    s.adds_coerce_untyped_expr(ctx, left, right_ty);
                    let (s, ctx, (left, fits)) = s.coerce_untyped_expr(ctx, left, right_ty);
                    if !fits {
                    }
                } else {
                    if ty::is_comptime_number(right_ty) {
                        self.adds_check_bitwise_operand(
                            operator,
                            spanned(left_ty, left.span),
                            file_id,
                        );
                        let s = self.check_bitwise_operand(
                            operator,
                            spanned(left_ty, left.span),
                            file_id,
                        );
                        s.adds_coerce_untyped_expr(ctx, right, left_ty);
                        let (s, ctx, (right, fits)) = s.coerce_untyped_expr(ctx, right, left_ty);
                        if !fits {
                        }
                    }
                }
            }
        }
    }

    pub broadcast proof fn adds_finish_comparison(
        self,
        ctx: ExprContext,
        operator: Spanned<BinaryOp>,
        left: Expression,
        right: Expression,
        span: TextSpan,
    )
        ensures
            self.only_adds(
                (#[trigger] self.finish_comparison(ctx, operator, left, right, span)).0,
            ),
    {
        broadcast use crate::growth::group_adding;

        self.adds_nothing();
        reveal(State::finish_comparison);
        let left_ty: TypeIndex = left.ty;
        let right_ty: TypeIndex = right.ty;
        let file_id: FileId = ctx.resolve_context.file_id;
        if left_ty == ty::ERROR || right_ty == ty::ERROR {
        } else {
            if ty::is_comptime_number(left_ty) && ty::is_comptime_number(right_ty) {
                let s = self.report(
                    report_comparison_type_annotation_required(
                        SourceSpan::new(file_id, left.span),
                        SourceSpan::new(file_id, right.span),
                    ),
                );
            } else {
                if ty::is_comptime_number(left_ty) {
                    self.adds_coerce_untyped_expr(ctx, left, right_ty);
                    let (s, ctx, (left, fits)) = self.coerce_untyped_expr(ctx, left, right_ty);
                    if !fits {
                    }
                } else {
                    if ty::is_comptime_number(right_ty) {
                        self.adds_coerce_untyped_expr(ctx, right, left_ty);
                        let (s, ctx, (right, fits)) = self.coerce_untyped_expr(
                            ctx,
                            right,
                            left_ty,
                        );
                        if !fits {
                        }
                    }
                }
            }
        }
    }

    pub broadcast proof fn adds_check_logical_operand(
        self,
        operand_ty: TypeIndex,
        span: SourceSpan,
    )
        ensures
            self.only_adds(#[trigger] self.check_logical_operand(operand_ty, span)),
    {
        broadcast use crate::growth::group_adding;

        self.adds_nothing();
        reveal(State::check_logical_operand);
    }

    pub broadcast proof fn adds_finish_unary(
        self,
        ctx: ExprContext,
        operator: Spanned<UnaryOp>,
        operand: Expression,
        span: TextSpan,
    )
        ensures
            self.only_adds((#[trigger] self.finish_unary(ctx, operator, operand, span)).0),
    {
        broadcast use crate::growth::group_adding;

        self.adds_nothing();
        reveal(State::finish_unary);
        let operand_ty: TypeIndex = operand.ty;
        let file_id: FileId = ctx.resolve_context.file_id;
        if operator.inner != UnaryOp::Not {
            if ty::is_primitive(operand_ty) || ty::is_comptime_number(operand_ty) {
            } else {
                let s = if operand_ty != ty::ERROR {
                    self.report(
                        report_unary_operator_cannot_be_applied(
                            operator,
                            spanned(operand_ty, operand.span),
                            file_id,
                        ),
                    )
                } else {
                    self
                };
            }
        } else {
            if operand_ty == ty::BOOL {
            } else {
                if ty::is_comptime_number(operand_ty) {
                    self.adds_coerce_untyped_expr(ctx, operand, ty::BOOL);
                    let (s, ctx, (operand, _)) = self.coerce_untyped_expr(ctx, operand, ty::BOOL);
                }
            }
        }
    }
}

} // verus!
