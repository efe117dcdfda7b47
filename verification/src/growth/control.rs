//! What `control` does to the state only adds to it.

use vstd::prelude::*;

use crate::ast;
use crate::growth;
use crate::list::List;
use crate::reports::{
    report_invalid_match_scrutinee_type, report_non_exhaustive_match_no_wildcard,
};
use crate::scope::{new_block, ExprContext};
use crate::shape::reading;
use crate::span::{DefId, Spanned};
use crate::state::State;
use crate::tir::{AccessContext, BlockKind};
use crate::ty;
use crate::types::TypeIndex;
use crate::typing::or_poisoned;

verus! {

impl<'ast> State<'ast> {
    pub proof fn adds_build_label_expression(
        self,
        ctx: ExprContext,
        access: AccessContext,
        expr: &Spanned<ast::Expression>,
        pending: spec_fn(State<'ast>, DefId) -> State<'ast>,
    )
        requires
            growth::resolver_adds(pending),
        ensures
            self.only_adds(self.build_label_expression(ctx, access, expr, pending).0),
        decreases 8int, expr, 5int,
    {
        broadcast use crate::growth::group_finishing;

        self.adds_nothing();
        match &expr.inner {
            ast::Expression::Label { label, block } => {
                let label_index = ctx.next_label();
                let ctx = ctx.with_label(*label);
                match &block.inner {
                    ast::Expression::Block { statements } => {
                        self.adds_build_scoped_block(
                            ctx,
                            statements,
                            block.span,
                            Some(label_index),
                            access.expected_type,
                            pending,
                        );
                    },
                    ast::Expression::IfElse { .. } => {
                        self.adds_build_if_else_expression(
                            ctx,
                            access.expected_type,
                            block,
                            Some(label_index),
                            pending,
                        );
                    },
                    ast::Expression::Loop { .. } => {
                        self.adds_build_loop_expression(
                            ctx,
                            access.expected_type,
                            block,
                            Some(label_index),
                            pending,
                        );
                    },
                    _ => {},
                }
            },
            _ => {},
        }
    }

    pub proof fn adds_build_loop_expression(
        self,
        ctx: ExprContext,
        expected: TypeIndex,
        expr: &Spanned<ast::Expression>,
        label: Option<usize>,
        pending: spec_fn(State<'ast>, DefId) -> State<'ast>,
    )
        requires
            growth::resolver_adds(pending),
        ensures
            self.only_adds(self.build_loop_expression(ctx, expected, expr, label, pending).0),
        decreases 8int, expr, 4int,
    {
        broadcast use crate::growth::group_finishing;

        self.adds_nothing();
        match &expr.inner {
            ast::Expression::Loop { statements, body_span } => {
                let outer = ctx.scope_index;
                let ctx = ctx.entered(
                    new_block(Some(ctx.scope_index), label, BlockKind::Loop, expr.span, expected),
                );
                self.adds_build_block_expression(ctx, statements, *body_span, pending);
            },
            _ => {},
        }
    }

    pub proof fn adds_build_if_else_expression(
        self,
        ctx: ExprContext,
        expected: TypeIndex,
        expr: &Spanned<ast::Expression>,
        label: Option<usize>,
        pending: spec_fn(State<'ast>, DefId) -> State<'ast>,
    )
        requires
            growth::resolver_adds(pending),
        ensures
            self.only_adds(self.build_if_else_expression(ctx, expected, expr, label, pending).0),
        decreases 8int, expr, 4int,
    {
        broadcast use crate::growth::group_finishing;

        self.adds_nothing();
        match &expr.inner {
            ast::Expression::IfElse { condition, then_block, then_span, else_block } => {
                self.adds_build_expression(ctx, reading(ty::BOOL), condition, pending);
                let (s, ctx, built) = self.build_expression(
                    ctx,
                    reading(ty::BOOL),
                    condition,
                    pending,
                );
                let condition_expr = or_poisoned(built, condition.span);
                match else_block {
                    Some(else_block) => {
                        s.adds_build_scoped_block(
                            ctx,
                            then_block,
                            *then_span,
                            label,
                            expected,
                            pending,
                        );
                        let (s, ctx, then_expr) = s.build_scoped_block(
                            ctx,
                            then_block,
                            *then_span,
                            label,
                            expected,
                            pending,
                        );
                        match then_expr {
                            Some(then_expr) => {
                                s.adds_build_scoped_block(
                                    ctx,
                                    &else_block.inner,
                                    else_block.span,
                                    label,
                                    expected,
                                    pending,
                                );
                                let (s, ctx, else_expr) = s.build_scoped_block(
                                    ctx,
                                    &else_block.inner,
                                    else_block.span,
                                    label,
                                    expected,
                                    pending,
                                );
                                match else_expr {
                                    Some(else_expr) => {},
                                    None => {},
                                }
                            },
                            None => {},
                        }
                    },
                    None => {
                        s.adds_build_scoped_block(
                            ctx,
                            then_block,
                            *then_span,
                            label,
                            ty::INFER,
                            pending,
                        );
                        let (s, ctx, then_expr) = s.build_scoped_block(
                            ctx,
                            then_block,
                            *then_span,
                            label,
                            ty::INFER,
                            pending,
                        );
                        match then_expr {
                            Some(then_expr) => {},
                            None => {},
                        }
                    },
                }
            },
            _ => {},
        }
    }

    pub proof fn adds_build_match_expression(
        self,
        ctx: ExprContext,
        access: AccessContext,
        expr: &Spanned<ast::Expression>,
        pending: spec_fn(State<'ast>, DefId) -> State<'ast>,
    )
        requires
            growth::resolver_adds(pending),
        ensures
            self.only_adds(self.build_match_expression(ctx, access, expr, pending).0),
        decreases 8int, expr, 4int,
    {
        broadcast use crate::growth::group_finishing;

        self.adds_nothing();
        match &expr.inner {
            ast::Expression::Match { scrutinee, arms } => {
                self.adds_build_expression(ctx, reading(ty::INFER), scrutinee, pending);
                let (s, ctx, value) = self.build_expression(
                    ctx,
                    reading(ty::INFER),
                    scrutinee,
                    pending,
                );
                match value {
                    Some(value) => {
                        if !s.is_matchable(value.ty) {
                            let s = s.report(
                                report_invalid_match_scrutinee_type(
                                    value.ty,
                                    ctx.resolve_context.at(scrutinee.span),
                                ),
                            );
                        } else {
                            if arms.is_empty() {
                                let s = s.report(
                                    report_non_exhaustive_match_no_wildcard(
                                        ctx.resolve_context.at(expr.span),
                                    ),
                                );
                            } else {
                                s.adds_build_match_arms(
                                    ctx,
                                    value.ty,
                                    arms,
                                    access.expected_type,
                                    pending,
                                );
                                let (s, ctx, built) = s.build_match_arms(
                                    ctx,
                                    value.ty,
                                    arms,
                                    access.expected_type,
                                    pending,
                                );
                                match built {
                                    Some(built) => {},
                                    None => {},
                                }
                            }
                        }
                    },
                    None => {},
                }
            },
            _ => {},
        }
    }

    pub proof fn adds_build_match_arms(
        self,
        ctx: ExprContext,
        scrutinee: TypeIndex,
        arms: &List<ast::MatchArm>,
        expected: TypeIndex,
        pending: spec_fn(State<'ast>, DefId) -> State<'ast>,
    )
        requires
            growth::resolver_adds(pending),
        ensures
            self.only_adds(self.build_match_arms(ctx, scrutinee, arms, expected, pending).0),
        decreases 8int, arms, 0int,
    {
        broadcast use crate::growth::group_finishing;

        self.adds_nothing();
        match arms {
            List::Nil => {},
            List::Cons(arm, rest) => {
                self.adds_build_match_arm(ctx, scrutinee, arm, expected, pending);
                let (s, ctx, built) = self.build_match_arm(
                    ctx,
                    scrutinee,
                    arm,
                    expected,
                    pending,
                );
                match built {
                    Some(built) => {
                        s.adds_build_match_arms(ctx, scrutinee, rest, expected, pending);
                        let (s, ctx, others) = s.build_match_arms(
                            ctx,
                            scrutinee,
                            rest,
                            expected,
                            pending,
                        );
                        match others {
                            Some(others) => {},
                            None => {},
                        }
                    },
                    None => {},
                }
            },
        }
    }

    pub proof fn adds_build_match_arm(
        self,
        ctx: ExprContext,
        scrutinee: TypeIndex,
        arm: &ast::MatchArm,
        expected: TypeIndex,
        pending: spec_fn(State<'ast>, DefId) -> State<'ast>,
    )
        requires
            growth::resolver_adds(pending),
        ensures
            self.only_adds(self.build_match_arm(ctx, scrutinee, arm, expected, pending).0),
        decreases 8int, arm, 0int,
    {
        broadcast use crate::growth::group_finishing;

        self.adds_nothing();
        self.adds_build_pattern(ctx, scrutinee, &arm.pattern, pending);
        let (s, ctx, pattern) = self.build_pattern(ctx, scrutinee, &arm.pattern, pending);
        match pattern {
            Some(pattern) => {
                s.adds_build_scoped_block(ctx, &arm.body, arm.body_span, None, expected, pending);
                let (s, ctx, body) = s.build_scoped_block(
                    ctx,
                    &arm.body,
                    arm.body_span,
                    None,
                    expected,
                    pending,
                );
                match body {
                    Some(body) => {},
                    None => {},
                }
            },
            None => {},
        }
    }

    pub proof fn adds_build_pattern(
        self,
        ctx: ExprContext,
        scrutinee: TypeIndex,
        pattern: &Spanned<ast::Expression>,
        pending: spec_fn(State<'ast>, DefId) -> State<'ast>,
    )
        requires
            growth::resolver_adds(pending),
        ensures
            self.only_adds(self.build_pattern(ctx, scrutinee, pattern, pending).0),
        decreases 8int, pattern, 10int,
    {
        broadcast use crate::growth::group_finishing;

        self.adds_nothing();
        match &pattern.inner {
            ast::Expression::Placeholder => {},
            _ => {
                self.adds_build_expression(ctx, reading(scrutinee), pattern, pending);
                let (s, ctx, built) = self.build_expression(
                    ctx,
                    reading(scrutinee),
                    pattern,
                    pending,
                );
                match built {
                    Some(built) => {},
                    None => {},
                }
            },
        }
    }

    pub proof fn adds_build_break_expression(
        self,
        ctx: ExprContext,
        expr: &Spanned<ast::Expression>,
        pending: spec_fn(State<'ast>, DefId) -> State<'ast>,
    )
        requires
            growth::resolver_adds(pending),
        ensures
            self.only_adds(self.build_break_expression(ctx, expr, pending).0),
        decreases 8int, expr, 4int,
    {
        broadcast use crate::growth::group_finishing;

        self.adds_nothing();
        match &expr.inner {
            ast::Expression::Break { label, value } => {
                let (s, ctx, target) = self.jump_target(ctx, *label, expr.span, true);
                match (target, value) {
                    (None, _) => {},
                    (Some(scope_index), None) => {},
                    (Some(scope_index), Some(value)) => {
                        s.adds_build_expression(
                            ctx,
                            reading(ctx.expected(scope_index)),
                            value,
                            pending,
                        );
                    },
                }
            },
            _ => {},
        }
    }

    pub proof fn adds_build_return_expression(
        self,
        ctx: ExprContext,
        expr: &Spanned<ast::Expression>,
        pending: spec_fn(State<'ast>, DefId) -> State<'ast>,
    )
        requires
            growth::resolver_adds(pending),
        ensures
            self.only_adds(self.build_return_expression(ctx, expr, pending).0),
        decreases 8int, expr, 4int,
    {
        broadcast use crate::growth::group_finishing;

        self.adds_nothing();
        match &expr.inner {
            ast::Expression::Return { value } => {
                match value {
                    None => {},
                    Some(value) => {
                        self.adds_build_expression(ctx, reading(ctx.expected(0)), value, pending);
                    },
                }
            },
            _ => {},
        }
    }
}

} // verus!
