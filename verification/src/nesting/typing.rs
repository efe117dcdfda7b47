//! What `typing` builds, it builds in the scope that it is in.

use vstd::prelude::*;

use crate::list::List;
use crate::reports::{report_invalid_pattern, report_type_annotation_required};
use crate::scope::ExprContext;
use crate::span::{FileId, Spanned, Symbol, TextSpan};
use crate::state::State;
use crate::tir::{AccessContext, Expression, MatchArm};
use crate::ty;
use crate::types::{Type, TypeIndex};
use crate::typing;

verus! {

impl<'ast> State<'ast> {
    pub broadcast proof fn keeps_resolve_local_type(
        self,
        ctx: ExprContext,
        pattern_span: TextSpan,
        value: Expression,
        expected: TypeIndex,
    )
        ensures
            ctx.stays_in_scope(
                (#[trigger] self.resolve_local_type(ctx, pattern_span, value, expected)).1,
            ),
    {
        broadcast use crate::nesting::group_nesting;

        ctx.grows_into_itself();
        reveal(State::resolve_local_type);
        let span = ctx.resolve_context.at(value.span);
        let value_ty: TypeIndex = value.ty;
        if expected == ty::INFER {
            if self.has_comptime_number(value_ty) || self.has_infer(value_ty) {
                let s = self.report(
                    report_type_annotation_required(ctx.resolve_context.at(pattern_span)),
                );
            }
        } else {
            if value_ty == ty::ERROR {
            } else {
                if ty::is_comptime_number(value_ty) {
                    self.keeps_coerce_untyped_expr(ctx, value, expected);
                    let (s, ctx, (value, fits)) = self.coerce_untyped_expr(ctx, value, expected);
                    if fits {
                    }
                }
            }
        }
    }

    pub broadcast proof fn keeps_settle_literal(
        self,
        ctx: ExprContext,
        value: Expression,
        expected: TypeIndex,
    )
        ensures
            ctx.stays_in_scope((#[trigger] self.settle_literal(ctx, value, expected)).1),
    {
        broadcast use crate::nesting::group_nesting;

        ctx.grows_into_itself();
        reveal(State::settle_literal);
        if !ty::is_comptime_number(value.ty) {
        } else {
            self.keeps_coerce_untyped_expr(ctx, value, expected);
        }
    }

    pub broadcast proof fn keeps_check_array_element(
        self,
        ctx: ExprContext,
        element: Expression,
        expected: TypeIndex,
    )
        ensures
            ctx.stays_in_scope((#[trigger] self.check_array_element(ctx, element, expected)).1),
    {
        broadcast use crate::nesting::group_nesting;

        ctx.grows_into_itself();
        reveal(State::check_array_element);
        let span = ctx.resolve_context.at(element.span);
        if ty::is_comptime_number(element.ty) && expected == ty::INFER {
            let s = self.report(report_type_annotation_required(span));
        } else {
            self.keeps_settle_literal(ctx, element, expected);
            let (s, ctx, element) = self.settle_literal(ctx, element, expected);
            match element {
                Some(element) => {},
                None => {},
            }
        }
    }

    pub broadcast proof fn keeps_pattern_of_expression(
        self,
        ctx: ExprContext,
        built: Expression,
        scrutinee: TypeIndex,
        span: TextSpan,
    )
        ensures
            ctx.stays_in_scope(
                (#[trigger] self.pattern_of_expression(ctx, built, scrutinee, span)).1,
            ),
    {
        broadcast use crate::nesting::group_nesting;

        ctx.grows_into_itself();
        reveal(State::pattern_of_expression);
        let is_enum = match self.ty(scrutinee) {
            Type::Enum { .. } => true,
            _ => false,
        };
        if is_enum {
            let pattern = typing::pattern_of_variant(&built, scrutinee);
            let s = if pattern.is_none() {
                self.report(report_invalid_pattern(ctx.resolve_context.at(span)))
            } else {
                self
            };
        } else {
            self.keeps_settle_literal(ctx, built, scrutinee);
            let (s, ctx, built) = self.settle_literal(ctx, built, scrutinee);
            match built {
                Some(built) => {},
                None => {},
            }
        }
    }

    pub broadcast proof fn keeps_settle_arm(
        self,
        ctx: ExprContext,
        body: Expression,
        target: TypeIndex,
    )
        ensures
            ctx.stays_in_scope((#[trigger] self.settle_arm(ctx, body, target)).1),
    {
        broadcast use crate::nesting::group_nesting;

        ctx.grows_into_itself();
        if ty::is_comptime_number(target) {
        } else {
            self.keeps_settle_literal(ctx, body, target);
        }
    }

    pub broadcast proof fn keeps_unify_arms(
        self,
        ctx: ExprContext,
        arms: List<MatchArm>,
        target: TypeIndex,
        so_far: TypeIndex,
    )
        ensures
            ctx.stays_in_scope((#[trigger] self.unify_arms(ctx, arms, target, so_far)).1),
        decreases arms,
    {
        broadcast use crate::nesting::group_nesting;

        ctx.grows_into_itself();
        match arms {
            List::Nil => {},
            List::Cons(arm, rest) => {
                let arm = *arm;
                let pattern = arm.pattern;
                let pattern_span = arm.pattern_span;
                self.keeps_settle_arm(ctx, arm.body, target);
                let (s, ctx, body) = self.settle_arm(ctx, arm.body, target);
                match body {
                    Some(body) => {
                        let (s, unified) = s.unified(so_far, body.ty);
                        match unified {
                            Some(agreed) => {
                                s.keeps_unify_arms(ctx, *rest, target, agreed);
                            },
                            None => {},
                        }
                    },
                    None => {},
                }
            },
        }
    }

    pub broadcast proof fn keeps_finish_block_result(
        self,
        ctx: ExprContext,
        value: Option<Expression>,
    )
        ensures
            ctx.stays_in_scope((#[trigger] self.finish_block_result(ctx, value)).1),
    {
        broadcast use crate::nesting::group_nesting;

        ctx.grows_into_itself();
        reveal(State::finish_block_result);
        let index: usize = ctx.scope_index;
        match value {
            Some(value) => {
                let (s, inferred) = self.infer_block_type(
                    ctx.inferred(index),
                    ctx.expected(index),
                    value.ty,
                    ctx.resolve_context.at(value.span),
                );
                match inferred {
                    Some(inferred) => {
                        let ctx = ctx.with_inferred(index, inferred);
                        if ty::is_comptime_number(value.ty)
                            && !ty::is_comptime_number(inferred) {
                            s.keeps_coerce_untyped_expr(ctx, value, inferred);
                            let (s, ctx, (value, _)) = s.coerce_untyped_expr(
                                ctx,
                                value,
                                inferred,
                            );
                        }
                    },
                    None => {},
                }
            },
            None => {},
        }
    }

    pub broadcast proof fn keeps_finish_expression_statement(
        self,
        ctx: ExprContext,
        value: Expression,
    )
        ensures
            ctx.stays_in_scope((#[trigger] self.finish_expression_statement(ctx, value)).1),
    {
        broadcast use crate::nesting::group_nesting;

        ctx.grows_into_itself();
        reveal(State::finish_expression_statement);
    }

    pub broadcast proof fn keeps_settle_local(
        self,
        ctx: ExprContext,
        pattern_span: TextSpan,
        value_span: TextSpan,
        built: Option<Expression>,
        expected: TypeIndex,
    )
        ensures
            ctx.stays_in_scope(
                (#[trigger] self.settle_local(ctx, pattern_span, value_span, built, expected)).1,
            ),
    {
        broadcast use crate::nesting::group_nesting;

        ctx.grows_into_itself();
        match built {
            Some(value) => {
                self.keeps_resolve_local_type(ctx, pattern_span, value, expected);
            },
            None => {},
        }
    }

    pub broadcast proof fn keeps_finish_loop(
        self,
        ctx: ExprContext,
        block: Expression,
        span: TextSpan,
    )
        ensures
            ctx.stays_in_scope((#[trigger] self.finish_loop(ctx, block, span)).1),
    {
        broadcast use crate::nesting::group_nesting;

        ctx.grows_into_itself();
        reveal(State::finish_loop);
    }

    pub broadcast proof fn keeps_jump_target(
        self,
        ctx: ExprContext,
        label: Option<Spanned<Symbol>>,
        span: TextSpan,
        leaves: bool,
    )
        ensures
            ctx.stays_in_scope((#[trigger] self.jump_target(ctx, label, span, leaves)).1),
    {
        broadcast use crate::nesting::group_nesting;

        ctx.grows_into_itself();
        reveal(State::jump_target);
    }

    pub broadcast proof fn keeps_build_continue_expression(
        self,
        ctx: ExprContext,
        label: Option<Spanned<Symbol>>,
        span: TextSpan,
    )
        ensures
            ctx.stays_in_scope((#[trigger] self.build_continue_expression(ctx, label, span)).1),
    {
        broadcast use crate::nesting::group_nesting;

        ctx.grows_into_itself();
        reveal(State::build_continue_expression);
        self.keeps_jump_target(ctx, label, span, false);
    }

    pub broadcast proof fn keeps_settle_jump_value(
        self,
        ctx: ExprContext,
        scope_index: usize,
        value: Expression,
    )
        ensures
            ctx.stays_in_scope((#[trigger] self.settle_jump_value(ctx, scope_index, value)).1),
    {
        broadcast use crate::nesting::group_nesting;

        ctx.grows_into_itself();
        reveal(State::settle_jump_value);
        let span = ctx.resolve_context.at(value.span);
        let (s, inferred) = self.infer_block_type(
            ctx.inferred(scope_index),
            ctx.expected(scope_index),
            value.ty,
            span,
        );
        match inferred {
            Some(inferred) => {
                let ctx = ctx.with_inferred(scope_index, inferred);
                if ty::is_comptime_number(value.ty) && ty::is_comptime_number(inferred) {
                    let s = s.report(report_type_annotation_required(span));
                } else {
                    s.keeps_settle_literal(ctx, value, inferred);
                }
            },
            None => {},
        }
    }

    pub broadcast proof fn keeps_finish_plain_break(
        self,
        ctx: ExprContext,
        scope_index: usize,
        span: TextSpan,
    )
        ensures
            ctx.stays_in_scope((#[trigger] self.finish_plain_break(ctx, scope_index, span)).1),
    {
        broadcast use crate::nesting::group_nesting;

        ctx.grows_into_itself();
        reveal(State::finish_plain_break);
    }

    pub broadcast proof fn keeps_finish_return(
        self,
        ctx: ExprContext,
        value: Expression,
        span: TextSpan,
    )
        ensures
            ctx.stays_in_scope((#[trigger] self.finish_return(ctx, value, span)).1),
    {
        broadcast use crate::nesting::group_nesting;

        ctx.grows_into_itself();
        reveal(State::finish_return);
        self.keeps_settle_jump_value(ctx, 0, value);
        let (s, ctx, value) = self.settle_jump_value(ctx, 0, value);
        match value {
            Some(value) => {},
            None => {},
        }
    }

    pub broadcast proof fn keeps_finish_plain_return(self, ctx: ExprContext, span: TextSpan)
        ensures
            ctx.stays_in_scope((#[trigger] self.finish_plain_return(ctx, span)).1),
    {
        broadcast use crate::nesting::group_nesting;

        ctx.grows_into_itself();
        reveal(State::finish_plain_return);
    }

    pub broadcast proof fn keeps_finish_if_else(
        self,
        ctx: ExprContext,
        condition: Expression,
        then_block: Expression,
        else_block: Expression,
        span: TextSpan,
    )
        ensures
            ctx.stays_in_scope(
                (#[trigger] self.finish_if_else(ctx, condition, then_block, else_block, span)).1,
            ),
    {
        broadcast use crate::nesting::group_nesting;

        ctx.grows_into_itself();
        reveal(State::finish_if_else);
        let then_ty: TypeIndex = then_block.ty;
        let else_ty: TypeIndex = else_block.ty;
        self.keeps_settle_arm(ctx, then_block, else_ty);
        let (s, ctx, then_block) = self.settle_arm(ctx, then_block, else_ty);
        match then_block {
            Some(then_block) => {
                s.keeps_settle_arm(ctx, else_block, then_ty);
                let (s, ctx, else_block) = s.settle_arm(ctx, else_block, then_ty);
                match else_block {
                    Some(else_block) => {},
                    None => {},
                }
            },
            None => {},
        }
    }

    pub broadcast proof fn keeps_finish_match(
        self,
        ctx: ExprContext,
        scrutinee: Expression,
        arms: List<MatchArm>,
        span: TextSpan,
    )
        ensures
            ctx.stays_in_scope((#[trigger] self.finish_match(ctx, scrutinee, arms, span)).1),
    {
        broadcast use crate::nesting::group_nesting;

        ctx.grows_into_itself();
        reveal(State::finish_match);
        let file_id: FileId = ctx.resolve_context.file_id;
        let s = self.report_unreachable_arms(file_id, &arms, &List::Nil);
        let target: TypeIndex = typing::first_typed(&arms, typing::first_type(&arms));
        s.keeps_unify_arms(ctx, arms, target, target);
        let (s, ctx, found) = s.unify_arms(ctx, arms, target, target);
        match found {
            Some((arms, ty)) => {},
            None => {},
        }
    }

    pub broadcast proof fn keeps_fit_field_value(
        self,
        ctx: ExprContext,
        value: Expression,
        expected: TypeIndex,
    )
        ensures
            ctx.stays_in_scope((#[trigger] self.fit_field_value(ctx, value, expected)).1),
    {
        broadcast use crate::nesting::group_nesting;

        ctx.grows_into_itself();
        reveal(State::fit_field_value);
        if ty::is_comptime_number(value.ty) {
            self.keeps_settle_literal(ctx, value, expected);
        }
    }

    pub broadcast proof fn keeps_settle_element(
        self,
        ctx: ExprContext,
        element: Expression,
        expected: TypeIndex,
    )
        ensures
            ctx.stays_in_scope((#[trigger] self.settle_element(ctx, element, expected)).1),
    {
        broadcast use crate::nesting::group_nesting;

        ctx.grows_into_itself();
        if ty::is_comptime_number(element.ty) && expected != ty::INFER {
            self.keeps_coerce_untyped_expr(ctx, element, expected);
            let (s, ctx, (element, _)) = self.coerce_untyped_expr(ctx, element, expected);
        }
    }

    pub broadcast proof fn keeps_settle_index(
        self,
        ctx: ExprContext,
        index: Expression,
        index_type: TypeIndex,
    )
        ensures
            ctx.stays_in_scope((#[trigger] self.settle_index(ctx, index, index_type)).1),
    {
        broadcast use crate::nesting::group_nesting;

        ctx.grows_into_itself();
        reveal(State::settle_index);
        if ty::is_comptime_number(index.ty) {
            self.keeps_settle_literal(ctx, index, index_type);
        }
    }

    pub broadcast proof fn keeps_settle_range_bound(
        self,
        ctx: ExprContext,
        bound: Expression,
        index_type: TypeIndex,
        span: TextSpan,
    )
        ensures
            ctx.stays_in_scope(
                (#[trigger] self.settle_range_bound(ctx, bound, index_type, span)).1,
            ),
    {
        broadcast use crate::nesting::group_nesting;

        ctx.grows_into_itself();
        reveal(State::settle_range_bound);
        if ty::is_comptime_number(bound.ty) {
            self.keeps_settle_literal(ctx, bound, index_type);
        }
    }

    pub broadcast proof fn keeps_settle_argument(
        self,
        ctx: ExprContext,
        argument: Expression,
        expected: TypeIndex,
    )
        ensures
            ctx.stays_in_scope((#[trigger] self.settle_argument(ctx, argument, expected)).1),
    {
        broadcast use crate::nesting::group_nesting;

        ctx.grows_into_itself();
        reveal(State::settle_argument);
        let span = ctx.resolve_context.at(argument.span);
        if expected == ty::INFER {
            let s = if ty::is_comptime_number(argument.ty) {
                self.report(report_type_annotation_required(span))
            } else {
                self
            };
        } else {
            if ty::is_comptime_number(argument.ty) {
                self.keeps_coerce_untyped_expr(ctx, argument, expected);
                let (s, ctx, (argument, _)) = self.coerce_untyped_expr(ctx, argument, expected);
            }
        }
    }

    pub broadcast proof fn keeps_finish_cast(
        self,
        ctx: ExprContext,
        value: Expression,
        target: TypeIndex,
        span: TextSpan,
    )
        ensures
            ctx.stays_in_scope((#[trigger] self.finish_cast(ctx, value, target, span)).1),
    {
        broadcast use crate::nesting::group_nesting;

        ctx.grows_into_itself();
        reveal(State::finish_cast);
        if ty::is_comptime_number(value.ty) {
            self.keeps_settle_literal(ctx, value, target);
        }
    }

    pub broadcast proof fn keeps_build_name_expression(
        self,
        ctx: ExprContext,
        access: AccessContext,
        name: Symbol,
        span: TextSpan,
    )
        ensures
            ctx.stays_in_scope(
                (#[trigger] self.build_name_expression(ctx, access, name, span)).1,
            ),
    {
        broadcast use crate::nesting::group_nesting;

        ctx.grows_into_itself();
        reveal(State::build_name_expression);
        match self.resolve_symbol(&ctx, name) {
            Some(resolved) => {
                self.keeps_resolved_symbol_to_expression(ctx, access, resolved, span);
            },
            None => {},
        }
    }
}

} // verus!
