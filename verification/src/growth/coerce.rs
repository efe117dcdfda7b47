//! What `coerce` does to the state only adds to it.

use vstd::prelude::*;

use crate::ast::{BinaryOp, UnaryOp};
use crate::coerce::{is_word, literal_range};
use crate::reports::report_integer_literal_for_float_type;
use crate::scope::ExprContext;
use crate::span::{FileId, SourceSpan, Spanned, TextSpan};
use crate::state::State;
use crate::tir::{ExprKind, Expression};
use crate::ty;
use crate::types::{TypeIndex, WasmScalar};

verus! {

impl<'ast> State<'ast> {
    pub broadcast proof fn adds_check_typeset_range(
        self,
        typeset_index: usize,
        value: i64,
        span: SourceSpan,
    )
        ensures
            self.only_adds((#[trigger] self.check_typeset_range(typeset_index, value, span)).0),
    {
        broadcast use crate::growth::group_adding;

        self.adds_nothing();
        reveal(State::check_typeset_range);
    }

    pub broadcast proof fn adds_check_literal_range(
        self,
        index: TypeIndex,
        value: i64,
        span: SourceSpan,
    )
        ensures
            self.only_adds(#[trigger] self.check_literal_range(index, value, span)),
    {
        broadcast use crate::growth::group_adding;

        self.adds_nothing();
        reveal(State::check_literal_range);
    }

    pub broadcast proof fn adds_coerce_untyped_int_expr(
        self,
        file_id: FileId,
        value: i64,
        literal_span: TextSpan,
        target: TypeIndex,
    )
        ensures
            self.only_adds(
                (#[trigger] self.coerce_untyped_int_expr(file_id, value, literal_span, target)).0,
            ),
    {
        broadcast use crate::growth::group_adding;

        self.adds_nothing();
        reveal(State::coerce_untyped_int_expr);
        let span = SourceSpan::new(file_id, literal_span);
        if literal_range(target).is_some() {
            self.adds_check_literal_range(target, value, span);
            let s = self.check_literal_range(target, value, span);
        } else {
            if target == ty::F32 || target == ty::F64 {
                let s = self.report(report_integer_literal_for_float_type(span));
            } else {
                if self.is_pointer(target) {
                    match self.scalar(target) {
                        Some(WasmScalar::I32) => {
                            self.adds_check_literal_range(ty::U32, value, span);
                        },
                        Some(WasmScalar::I64) => {
                            self.adds_check_literal_range(ty::U64, value, span);
                        },
                        _ => {
                            match self.tagged_typeset(self.names.pointer_size) {
                                Some(typeset_index) => {
                                    self.adds_check_typeset_range(typeset_index, value, span);
                                },
                                None => {},
                            }
                        },
                    }
                } else {
                    match self.typeset_bound(target) {
                        Some(typeset_index) => {
                            self.adds_check_typeset_range(typeset_index, value, span);
                        },
                        None => {},
                    }
                }
            }
        }
    }

    pub broadcast proof fn adds_coerce_untyped_float_expr(
        self,
        file_id: FileId,
        literal_span: TextSpan,
        target: TypeIndex,
    )
        ensures
            self.only_adds(
                (#[trigger] self.coerce_untyped_float_expr(file_id, literal_span, target)).0,
            ),
    {
        broadcast use crate::growth::group_adding;

        self.adds_nothing();
    }

    pub broadcast proof fn adds_check_operator_target(
        self,
        valid: bool,
        target: TypeIndex,
        span: SourceSpan,
    )
        ensures
            self.only_adds((#[trigger] self.check_operator_target(valid, target, span)).0),
    {
        broadcast use crate::growth::group_adding;

        self.adds_nothing();
    }

    pub broadcast proof fn adds_coerce_untyped_expr(
        self,
        ctx: ExprContext,
        expr: Expression,
        target: TypeIndex,
    )
        ensures
            self.only_adds((#[trigger] self.coerce_untyped_expr(ctx, expr, target)).0),
        decreases expr,
    {
        broadcast use crate::growth::group_adding;

        self.adds_nothing();
        let span = expr.span;
        let ty: TypeIndex = expr.ty;
        let file_id: FileId = ctx.resolve_context.file_id;
        match expr.kind {
            ExprKind::Int { value } => {
                self.adds_coerce_untyped_int_expr(file_id, value, span, target);
            },
            ExprKind::Float { bits } => {
                self.adds_coerce_untyped_float_expr(file_id, span, target);
            },
            ExprKind::Unary { operator, operand } => {
                let is_number = operator.inner != UnaryOp::Not;
                self.adds_check_operator_target(
                    is_number && (target == ty::I32 || target == ty::I64),
                    target,
                    SourceSpan::new(file_id, span),
                );
                let (s, valid) = self.check_operator_target(
                    is_number && (target == ty::I32 || target == ty::I64),
                    target,
                    SourceSpan::new(file_id, span),
                );
                if !valid {
                } else {
                    s.adds_coerce_untyped_expr(ctx, *operand, target);
                }
            },
            ExprKind::Binary { operator, left, right } => {
                let is_valid = if operator.inner.is_arithmetic() {
                    ty::is_primitive(target)
                } else {
                    operator.inner.is_bitwise() && is_word(target)
                };
                self.adds_check_operator_target(is_valid, target, SourceSpan::new(file_id, span));
                let (s, valid) = self.check_operator_target(
                    is_valid,
                    target,
                    SourceSpan::new(file_id, span),
                );
                if !valid {
                } else {
                    s.adds_coerce_untyped_expr(ctx, *left, target);
                    let (s, ctx, (left, left_fits)) = s.coerce_untyped_expr(ctx, *left, target);
                    s.adds_coerce_untyped_expr(ctx, *right, target);
                }
            },
            ExprKind::Block { scope_index, expressions, result } => {
                match result {
                    Some(last) => {
                        self.adds_coerce_untyped_expr(ctx, *last, target);
                    },
                    None => {},
                }
            },
            _ => {},
        }
    }

    pub broadcast proof fn adds_fit_operand(
        self,
        ctx: ExprContext,
        operator: Spanned<BinaryOp>,
        target: Spanned<TypeIndex>,
        operand: Expression,
    )
        ensures
            self.only_adds((#[trigger] self.fit_operand(ctx, operator, target, operand)).0),
    {
        broadcast use crate::growth::group_adding;

        self.adds_nothing();
        reveal(State::fit_operand);
        if ty::is_comptime_number(operand.ty) {
            self.adds_coerce_untyped_expr(ctx, operand, target.inner);
            let (s, ctx, (operand, fits)) = self.coerce_untyped_expr(ctx, operand, target.inner);
            if fits {
            }
        }
    }
}

} // verus!
