//! Control flow: labels, loops, `if`, `match`, `break` and `return`.

use vstd::prelude::*;

use crate::ast;
use crate::list::{cons, List};
use crate::reports::{
    report_invalid_match_scrutinee_type, report_non_exhaustive_match_no_wildcard,
};
use crate::scope::{new_block, ExprContext};
use crate::shape::{poisoned_as, reading, typed};
use crate::signatures;
use crate::span::{DefId, Spanned};
use crate::state::{Builder, State};
use crate::tir::{AccessContext, BlockKind, ExprKind, Expression, MatchArm, Pattern};
use crate::ty;
use crate::types::TypeIndex;
use crate::typing::or_poisoned;

verus! {

impl<'ast> State<'ast> {
    /// A block, `if` or `loop` with a label.
    pub open spec fn build_label_expression(
        self,
        ctx: ExprContext,
        access: AccessContext,
        expr: &Spanned<ast::Expression>,
        pending: spec_fn(State<'ast>, DefId) -> State<'ast>,
    ) -> (State<'ast>, ExprContext, Option<Expression>)
        decreases 8int, expr, 5int,
    {
        match &expr.inner {
            ast::Expression::Label { label, block } => {
                let label_index = ctx.next_label();
                let ctx = ctx.with_label(*label);
                match &block.inner {
                    ast::Expression::Block { statements } => {
                        self.build_scoped_block(
                            ctx,
                            statements,
                            block.span,
                            Some(label_index),
                            access.expected_type,
                            pending,
                        )
                    },
                    ast::Expression::IfElse { .. } => {
                        self.build_if_else_expression(
                            ctx,
                            access.expected_type,
                            block,
                            Some(label_index),
                            pending,
                        )
                    },
                    ast::Expression::Loop { .. } => {
                        self.build_loop_expression(
                            ctx,
                            access.expected_type,
                            block,
                            Some(label_index),
                            pending,
                        )
                    },
                    _ => (self, ctx, None),
                }
            },
            _ => (self, ctx, None),
        }
    }

    /// `loop`: its type is that of the values it is left with.
    pub open spec fn build_loop_expression(
        self,
        ctx: ExprContext,
        expected: TypeIndex,
        expr: &Spanned<ast::Expression>,
        label: Option<usize>,
        pending: spec_fn(State<'ast>, DefId) -> State<'ast>,
    ) -> (State<'ast>, ExprContext, Option<Expression>)
        decreases 8int, expr, 4int,
    {
        match &expr.inner {
            ast::Expression::Loop { statements, body_span } => {
                let outer = ctx.scope_index;
                let ctx = ctx.entered(
                    new_block(Some(ctx.scope_index), label, BlockKind::Loop, expr.span, expected),
                );
                let (s, ctx, block) = self.build_block_expression(
                    ctx,
                    statements,
                    *body_span,
                    pending,
                );
                match block {
                    Some(block) => {
                        let (s, ctx, built) = s.finish_loop(ctx, block, expr.span);
                        let ctx = ctx.left_to(outer);
                        (s, ctx, built)
                    },
                    None => {
                        let ctx = ctx.left_to(outer);
                        (s, ctx, None)
                    },
                }
            },
            _ => (self, ctx, None),
        }
    }

    /// `if`, with or without `else`.
    pub open spec fn build_if_else_expression(
        self,
        ctx: ExprContext,
        expected: TypeIndex,
        expr: &Spanned<ast::Expression>,
        label: Option<usize>,
        pending: spec_fn(State<'ast>, DefId) -> State<'ast>,
    ) -> (State<'ast>, ExprContext, Option<Expression>)
        decreases 8int, expr, 4int,
    {
        match &expr.inner {
            ast::Expression::IfElse { condition, then_block, then_span, else_block } => {
                let (s, ctx, built) = self.build_expression(
                    ctx,
                    reading(ty::BOOL),
                    condition,
                    pending,
                );
                let condition_expr = or_poisoned(built, condition.span);
                match else_block {
                    Some(else_block) => {
                        let (s, ctx, then_expr) = s.build_scoped_block(
                            ctx,
                            then_block,
                            *then_span,
                            label,
                            expected,
                            pending,
                        );
                        match then_expr {
                            Some(then_expr) => {
                                let (s, ctx, else_expr) = s.build_scoped_block(
                                    ctx,
                                    &else_block.inner,
                                    else_block.span,
                                    label,
                                    expected,
                                    pending,
                                );
                                match else_expr {
                                    Some(else_expr) => {
                                        s.finish_if_else(
                                            ctx,
                                            condition_expr,
                                            then_expr,
                                            else_expr,
                                            expr.span,
                                        )
                                    },
                                    None => (s, ctx, None),
                                }
                            },
                            None => (s, ctx, None),
                        }
                    },
                    None => {
                        let (s, ctx, then_expr) = s.build_scoped_block(
                            ctx,
                            then_block,
                            *then_span,
                            label,
                            ty::INFER,
                            pending,
                        );
                        match then_expr {
                            Some(then_expr) => {
                                let (s, r) = s.finish_if(
                                    ctx.resolve_context,
                                    condition_expr,
                                    then_expr,
                                    expr.span,
                                );
                                (s, ctx, r)
                            },
                            None => (s, ctx, None),
                        }
                    },
                }
            },
            _ => (self, ctx, None),
        }
    }

    /// `match` on an enum, an integer, a `bool` or a `char`.
    pub open spec fn build_match_expression(
        self,
        ctx: ExprContext,
        access: AccessContext,
        expr: &Spanned<ast::Expression>,
        pending: spec_fn(State<'ast>, DefId) -> State<'ast>,
    ) -> (State<'ast>, ExprContext, Option<Expression>)
        decreases 8int, expr, 4int,
    {
        match &expr.inner {
            ast::Expression::Match { scrutinee, arms } => {
                let (s, ctx, value) = self.build_expression(
                    ctx,
                    reading(ty::INFER),
                    scrutinee,
                    pending,
                );
                match value {
                    Some(value) => {
                        if !s.is_matchable(value.ty) {
                            let s = s.report(
                                report_invalid_match_scrutinee_type(
                                    value.ty,
                                    ctx.resolve_context.at(scrutinee.span),
                                ),
                            );
                            (s, ctx, None)
                        } else {
                            if arms.is_empty() {
                                let s = s.report(
                                    report_non_exhaustive_match_no_wildcard(
                                        ctx.resolve_context.at(expr.span),
                                    ),
                                );
                                (s, ctx, None)
                            } else {
                                let (s, ctx, built) = s.build_match_arms(
                                    ctx,
                                    value.ty,
                                    arms,
                                    access.expected_type,
                                    pending,
                                );
                                match built {
                                    Some(built) => {
                                        s.finish_match(ctx, value, built, expr.span)
                                    },
                                    None => (s, ctx, None),
                                }
                            }
                        }
                    },
                    None => (s, ctx, None),
                }
            },
            _ => (self, ctx, None),
        }
    }

    /// The arms of a match.
    pub open spec fn build_match_arms(
        self,
        ctx: ExprContext,
        scrutinee: TypeIndex,
        arms: &List<ast::MatchArm>,
        expected: TypeIndex,
        pending: spec_fn(State<'ast>, DefId) -> State<'ast>,
    ) -> (State<'ast>, ExprContext, Option<List<MatchArm>>)
        decreases 8int, arms, 0int,
    {
        match arms {
            List::Nil => (self, ctx, Some(List::Nil)),
            List::Cons(arm, rest) => {
                let (s, ctx, built) = self.build_match_arm(
                    ctx,
                    scrutinee,
                    arm,
                    expected,
                    pending,
                );
                match built {
                    Some(built) => {
                        let (s, ctx, others) = s.build_match_arms(
                            ctx,
                            scrutinee,
                            rest,
                            expected,
                            pending,
                        );
                        match others {
                            Some(others) => {
                                (s, ctx, Some(cons(built, others)))
                            },
                            None => (s, ctx, None),
                        }
                    },
                    None => (s, ctx, None),
                }
            },
        }
    }

    /// One arm of a match, with a scope of its own for its body.
    pub open spec fn build_match_arm(
        self,
        ctx: ExprContext,
        scrutinee: TypeIndex,
        arm: &ast::MatchArm,
        expected: TypeIndex,
        pending: spec_fn(State<'ast>, DefId) -> State<'ast>,
    ) -> (State<'ast>, ExprContext, Option<MatchArm>)
        decreases 8int, arm, 0int,
    {
        let (s, ctx, pattern) = self.build_pattern(ctx, scrutinee, &arm.pattern, pending);
        match pattern {
            Some(pattern) => {
                let (s, ctx, body) = s.build_scoped_block(
                    ctx,
                    &arm.body,
                    arm.body_span,
                    None,
                    expected,
                    pending,
                );
                match body {
                    Some(body) => {
                        (s, ctx, Some(MatchArm { pattern, pattern_span: arm.pattern.span, body }))
                    },
                    None => (s, ctx, None),
                }
            },
            None => (s, ctx, None),
        }
    }

    /// The pattern on the left of an arm.
    pub open spec fn build_pattern(
        self,
        ctx: ExprContext,
        scrutinee: TypeIndex,
        pattern: &Spanned<ast::Expression>,
        pending: spec_fn(State<'ast>, DefId) -> State<'ast>,
    ) -> (State<'ast>, ExprContext, Option<Pattern>)
        decreases 8int, pattern, 10int,
    {
        match &pattern.inner {
            ast::Expression::Placeholder => (self, ctx, Some(Pattern::Wildcard)),
            _ => {
                let (s, ctx, built) = self.build_expression(
                    ctx,
                    reading(scrutinee),
                    pattern,
                    pending,
                );
                match built {
                    Some(built) => {
                        s.pattern_of_expression(ctx, built, scrutinee, pattern.span)
                    },
                    None => (s, ctx, None),
                }
            },
        }
    }

    /// `break`, with or without a value, out of the labelled scope or the closest
    /// loop.
    pub open spec fn build_break_expression(
        self,
        ctx: ExprContext,
        expr: &Spanned<ast::Expression>,
        pending: spec_fn(State<'ast>, DefId) -> State<'ast>,
    ) -> (State<'ast>, ExprContext, Option<Expression>)
        decreases 8int, expr, 4int,
    {
        match &expr.inner {
            ast::Expression::Break { label, value } => {
                let (s, ctx, target) = self.jump_target(ctx, *label, expr.span, true);
                match (target, value) {
                    (None, _) => (s, ctx, Some(poisoned_as(ty::NEVER, expr.span))),
                    (Some(scope_index), None) => {
                        let (s, ctx, built) = s.finish_plain_break(ctx, scope_index, expr.span);
                        (s, ctx, Some(built))
                    },
                    (Some(scope_index), Some(value)) => {
                        let (s, ctx, built) = s.build_expression(
                            ctx,
                            reading(ctx.expected(scope_index)),
                            value,
                            pending,
                        );
                        match built {
                            None => (s, ctx, Some(poisoned_as(ty::NEVER, expr.span))),
                            Some(built) => {
                                let (s, ctx, settled_value) = s.settle_jump_value(
                                    ctx,
                                    scope_index,
                                    built,
                                );
                                match settled_value {
                                    Some(settled_value) => {
                                        (
                                            s,
                                            ctx,
                                            Some(
                                                typed(
                                                    ExprKind::Break {
                                                        scope_index,
                                                        value: Some(Box::new(settled_value)),
                                                    },
                                                    ty::NEVER,
                                                    expr.span,
                                                ),
                                            ),
                                        )
                                    },
                                    None => (s, ctx, None),
                                }
                            },
                        }
                    },
                }
            },
            _ => (self, ctx, None),
        }
    }

    /// `return`, with or without a value.
    pub open spec fn build_return_expression(
        self,
        ctx: ExprContext,
        expr: &Spanned<ast::Expression>,
        pending: spec_fn(State<'ast>, DefId) -> State<'ast>,
    ) -> (State<'ast>, ExprContext, Option<Expression>)
        decreases 8int, expr, 4int,
    {
        match &expr.inner {
            ast::Expression::Return { value } => {
                match value {
                    None => self.finish_plain_return(ctx, expr.span),
                    Some(value) => {
                        let (s, ctx, built) = self.build_expression(
                            ctx,
                            reading(ctx.expected(0)),
                            value,
                            pending,
                        );
                        match built {
                            None => {
                                (s, ctx, Some(typed(ExprKind::Unreachable, ty::NEVER, expr.span)))
                            },
                            Some(built) => s.finish_return(ctx, built, expr.span),
                        }
                    },
                }
            },
            _ => (self, ctx, None),
        }
    }
}

impl<'ast> Builder<'ast> {
    /// A block, `if` or `loop` with a label.
    pub fn build_label_expression(
        &mut self,
        ctx: &mut ExprContext,
        access: AccessContext,
        expr: &Spanned<ast::Expression>,
        depth: usize,
    ) -> (result: Option<Expression>)
        ensures
            (final(self)@, *final(ctx), result) == old(self)@.build_label_expression(
                *old(ctx),
                access,
                expr,
                signatures::resolver(depth),
            ),
        decreases depth, 8int, expr, 5int,
    {
        match &expr.inner {
            ast::Expression::Label { label, block } => {
                let label_index: usize = ctx.push_label(*label);
                match &block.inner {
                    ast::Expression::Block { statements } => self.build_scoped_block(
                        ctx,
                        statements,
                        block.span,
                        Some(label_index),
                        access.expected_type,
                        depth,
                    ),
                    ast::Expression::IfElse { .. } => self.build_if_else_expression(
                        ctx,
                        access.expected_type,
                        block,
                        Some(label_index),
                        depth,
                    ),
                    ast::Expression::Loop { .. } => self.build_loop_expression(
                        ctx,
                        access.expected_type,
                        block,
                        Some(label_index),
                        depth,
                    ),
                    _ => None,
                }
            },
            _ => None,
        }
    }

    /// `loop`: its type is that of the values it is left with.
    pub fn build_loop_expression(
        &mut self,
        ctx: &mut ExprContext,
        expected: TypeIndex,
        expr: &Spanned<ast::Expression>,
        label: Option<usize>,
        depth: usize,
    ) -> (result: Option<Expression>)
        ensures
            (final(self)@, *final(ctx), result) == old(self)@.build_loop_expression(
                *old(ctx),
                expected,
                expr,
                label,
                signatures::resolver(depth),
            ),
        decreases depth, 8int, expr, 4int,
    {
        match &expr.inner {
            ast::Expression::Loop { statements, body_span } => {
                let outer: usize = ctx.enter_block(
                    new_block(Some(ctx.scope_index), label, BlockKind::Loop, expr.span, expected),
                );
                let block = self.build_block_expression(ctx, statements, *body_span, depth);
                match block {
                    Some(block) => {
                        let built = self.finish_loop(ctx, block, expr.span);
                        ctx.leave_block(outer);
                        built
                    },
                    None => {
                        ctx.leave_block(outer);
                        None
                    },
                }
            },
            _ => None,
        }
    }

    /// `if`, with or without `else`.
    pub fn build_if_else_expression(
        &mut self,
        ctx: &mut ExprContext,
        expected: TypeIndex,
        expr: &Spanned<ast::Expression>,
        label: Option<usize>,
        depth: usize,
    ) -> (result: Option<Expression>)
        ensures
            (final(self)@, *final(ctx), result) == old(self)@.build_if_else_expression(
                *old(ctx),
                expected,
                expr,
                label,
                signatures::resolver(depth),
            ),
        decreases depth, 8int, expr, 4int,
    {
        match &expr.inner {
            ast::Expression::IfElse { condition, then_block, then_span, else_block } => {
                let built = self.build_expression(ctx, reading(ty::BOOL), condition, depth);
                let condition_expr = or_poisoned(built, condition.span);
                match else_block {
                    Some(else_block) => {
                        let then_expr = self.build_scoped_block(
                            ctx,
                            then_block,
                            *then_span,
                            label,
                            expected,
                            depth,
                        )?;
                        let else_expr = self.build_scoped_block(
                            ctx,
                            &else_block.inner,
                            else_block.span,
                            label,
                            expected,
                            depth,
                        )?;
                        self.finish_if_else(ctx, condition_expr, then_expr, else_expr, expr.span)
                    },
                    None => {
                        let then_expr = self.build_scoped_block(
                            ctx,
                            then_block,
                            *then_span,
                            label,
                            ty::INFER,
                            depth,
                        )?;
                        self.finish_if(ctx.resolve_context, condition_expr, then_expr, expr.span)
                    },
                }
            },
            _ => None,
        }
    }

    /// `match` on an enum, an integer, a `bool` or a `char`.
    pub fn build_match_expression(
        &mut self,
        ctx: &mut ExprContext,
        access: AccessContext,
        expr: &Spanned<ast::Expression>,
        depth: usize,
    ) -> (result: Option<Expression>)
        ensures
            (final(self)@, *final(ctx), result) == old(self)@.build_match_expression(
                *old(ctx),
                access,
                expr,
                signatures::resolver(depth),
            ),
        decreases depth, 8int, expr, 4int,
    {
        match &expr.inner {
            ast::Expression::Match { scrutinee, arms } => {
                let value = self.build_expression(ctx, reading(ty::INFER), scrutinee, depth)?;
                if !self.is_matchable(value.ty) {
                    self.report(
                        report_invalid_match_scrutinee_type(
                            value.ty,
                            ctx.resolve_context.at(scrutinee.span),
                        ),
                    );
                    return None;
                }
                if arms.is_empty() {
                    self.report(
                        report_non_exhaustive_match_no_wildcard(
                            ctx.resolve_context.at(expr.span),
                        ),
                    );
                    return None;
                }
                let built = self.build_match_arms(
                    ctx,
                    value.ty,
                    arms,
                    access.expected_type,
                    depth,
                )?;
                self.finish_match(ctx, value, built, expr.span)
            },
            _ => None,
        }
    }

    /// The arms of a match.
    pub fn build_match_arms(
        &mut self,
        ctx: &mut ExprContext,
        scrutinee: TypeIndex,
        arms: &List<ast::MatchArm>,
        expected: TypeIndex,
        depth: usize,
    ) -> (result: Option<List<MatchArm>>)
        ensures
            (final(self)@, *final(ctx), result) == old(self)@.build_match_arms(
                *old(ctx),
                scrutinee,
                arms,
                expected,
                signatures::resolver(depth),
            ),
        decreases depth, 8int, arms, 0int,
    {
        match arms {
            List::Nil => Some(List::Nil),
            List::Cons(arm, rest) => {
                let built = self.build_match_arm(ctx, scrutinee, arm, expected, depth)?;
                let others = self.build_match_arms(ctx, scrutinee, rest, expected, depth)?;
                Some(cons(built, others))
            },
        }
    }

    /// One arm of a match, with a scope of its own for its body.
    pub fn build_match_arm(
        &mut self,
        ctx: &mut ExprContext,
        scrutinee: TypeIndex,
        arm: &ast::MatchArm,
        expected: TypeIndex,
        depth: usize,
    ) -> (result: Option<MatchArm>)
        ensures
            (final(self)@, *final(ctx), result) == old(self)@.build_match_arm(
                *old(ctx),
                scrutinee,
                arm,
                expected,
                signatures::resolver(depth),
            ),
        decreases depth, 8int, arm, 0int,
    {
        let pattern = self.build_pattern(ctx, scrutinee, &arm.pattern, depth)?;
        let body = self.build_scoped_block(ctx, &arm.body, arm.body_span, None, expected, depth)?;
        Some(MatchArm { pattern, pattern_span: arm.pattern.span, body })
    }

    /// The pattern on the left of an arm.
    pub fn build_pattern(
        &mut self,
        ctx: &mut ExprContext,
        scrutinee: TypeIndex,
        pattern: &Spanned<ast::Expression>,
        depth: usize,
    ) -> (result: Option<Pattern>)
        ensures
            (final(self)@, *final(ctx), result) == old(self)@.build_pattern(
                *old(ctx),
                scrutinee,
                pattern,
                signatures::resolver(depth),
            ),
        decreases depth, 8int, pattern, 10int,
    {
        match &pattern.inner {
            ast::Expression::Placeholder => Some(Pattern::Wildcard),
            _ => {
                let built = self.build_expression(ctx, reading(scrutinee), pattern, depth)?;
                self.pattern_of_expression(ctx, built, scrutinee, pattern.span)
            },
        }
    }

    /// `break`, with or without a value, out of the labelled scope or the closest
    /// loop.
    pub fn build_break_expression(
        &mut self,
        ctx: &mut ExprContext,
        expr: &Spanned<ast::Expression>,
        depth: usize,
    ) -> (result: Option<Expression>)
        ensures
            (final(self)@, *final(ctx), result) == old(self)@.build_break_expression(
                *old(ctx),
                expr,
                signatures::resolver(depth),
            ),
        decreases depth, 8int, expr, 4int,
    {
        match &expr.inner {
            ast::Expression::Break { label, value } => {
                let target = self.jump_target(ctx, *label, expr.span, true);
                match (target, value) {
                    (None, _) => Some(poisoned_as(ty::NEVER, expr.span)),
                    (Some(scope_index), None) => {
                        let built = self.finish_plain_break(ctx, scope_index, expr.span);
                        Some(built)
                    },
                    (Some(scope_index), Some(value)) => {
                        let built = self.build_expression(
                            ctx,
                            reading(ctx.expected_type(scope_index)),
                            value,
                            depth,
                        );
                        match built {
                            None => Some(poisoned_as(ty::NEVER, expr.span)),
                            Some(built) => {
                                let settled_value = self.settle_jump_value(
                                    ctx,
                                    scope_index,
                                    built,
                                )?;
                                Some(
                                    typed(
                                        ExprKind::Break {
                                            scope_index,
                                            value: Some(Box::new(settled_value)),
                                        },
                                        ty::NEVER,
                                        expr.span,
                                    ),
                                )
                            },
                        }
                    },
                }
            },
            _ => None,
        }
    }

    /// `return`, with or without a value.
    pub fn build_return_expression(
        &mut self,
        ctx: &mut ExprContext,
        expr: &Spanned<ast::Expression>,
        depth: usize,
    ) -> (result: Option<Expression>)
        ensures
            (final(self)@, *final(ctx), result) == old(self)@.build_return_expression(
                *old(ctx),
                expr,
                signatures::resolver(depth),
            ),
        decreases depth, 8int, expr, 4int,
    {
        match &expr.inner {
            ast::Expression::Return { value } => match value {
                None => self.finish_plain_return(ctx, expr.span),
                Some(value) => {
                    let built = self.build_expression(
                        ctx,
                        reading(ctx.expected_type(0)),
                        value,
                        depth,
                    );
                    match built {
                        None => Some(typed(ExprKind::Unreachable, ty::NEVER, expr.span)),
                        Some(built) => self.finish_return(ctx, built, expr.span),
                    }
                },
            },
            _ => None,
        }
    }
}

} // verus!
