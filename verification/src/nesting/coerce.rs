//! What `coerce` builds, it builds in the scope that it is in.

use vstd::prelude::*;

use crate::ast::{BinaryOp, UnaryOp};
use crate::coerce::is_word;
use crate::scope::ExprContext;
use crate::span::{FileId, SourceSpan, Spanned};
use crate::state::State;
use crate::tir::{ExprKind, Expression};
use crate::ty;
use crate::types::TypeIndex;

verus! {

impl<'ast> State<'ast> {
    pub broadcast proof fn keeps_coerce_untyped_expr(
        self,
        ctx: ExprContext,
        expr: Expression,
        target: TypeIndex,
    )
        ensures
            ctx.stays_in_scope((#[trigger] self.coerce_untyped_expr(ctx, expr, target)).1),
        decreases expr,
    {
        broadcast use crate::nesting::group_nesting;

        ctx.grows_into_itself();
        let span = expr.span;
        let ty: TypeIndex = expr.ty;
        let file_id: FileId = ctx.resolve_context.file_id;
        match expr.kind {
            ExprKind::Int { value } => {},
            ExprKind::Float { bits } => {},
            ExprKind::Unary { operator, operand } => {
                let is_number = operator.inner != UnaryOp::Not;
                let (s, valid) = self.check_operator_target(
                    is_number && (target == ty::I32 || target == ty::I64),
                    target,
                    SourceSpan::new(file_id, span),
                );
                if !valid {
                } else {
                    s.keeps_coerce_untyped_expr(ctx, *operand, target);
                }
            },
            ExprKind::Binary { operator, left, right } => {
                let is_valid = if operator.inner.is_arithmetic() {
                    ty::is_primitive(target)
                } else {
                    operator.inner.is_bitwise() && is_word(target)
                };
                let (s, valid) = self.check_operator_target(
                    is_valid,
                    target,
                    SourceSpan::new(file_id, span),
                );
                if !valid {
                } else {
                    s.keeps_coerce_untyped_expr(ctx, *left, target);
                    let (s, ctx, (left, left_fits)) = s.coerce_untyped_expr(ctx, *left, target);
                    s.keeps_coerce_untyped_expr(ctx, *right, target);
                }
            },
            ExprKind::Block { scope_index, expressions, result } => {
                match result {
                    Some(last) => {
                        self.keeps_coerce_untyped_expr(ctx, *last, target);
                    },
                    None => {},
                }
            },
            _ => {},
        }
    }

    pub broadcast proof fn keeps_fit_operand(
        self,
        ctx: ExprContext,
        operator: Spanned<BinaryOp>,
        target: Spanned<TypeIndex>,
        operand: Expression,
    )
        ensures
            ctx.stays_in_scope((#[trigger] self.fit_operand(ctx, operator, target, operand)).1),
    {
        broadcast use crate::nesting::group_nesting;

        ctx.grows_into_itself();
        reveal(State::fit_operand);
        if ty::is_comptime_number(operand.ty) {
            self.keeps_coerce_untyped_expr(ctx, operand, target.inner);
            let (s, ctx, (operand, fits)) = self.coerce_untyped_expr(ctx, operand, target.inner);
            if fits {
            }
        }
    }
}

} // verus!
