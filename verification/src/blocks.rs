//! Blocks, statements and `local` definitions.

use vstd::prelude::*;

use crate::ast::{Statement, StatementKind};
use crate::list::List;
use crate::scope::{new_block, ExprContext};
use crate::shape::{reading, typed};
use crate::signatures;
use crate::span::{DefId, TextSpan};
use crate::state::{Builder, State};
use crate::tir::{BlockKind, ExprKind, Expression};
use crate::ty;
use crate::types::TypeIndex;
use crate::typing;
use crate::typing::{boxed, is_loop_scope, statement_result};

verus! {

impl<'ast> State<'ast> {
    /// A block in a scope of its own.
    pub open spec fn build_scoped_block(
        self,
        ctx: ExprContext,
        statements: &List<Statement>,
        span: TextSpan,
        label: Option<usize>,
        expected: TypeIndex,
        pending: spec_fn(State<'ast>, DefId) -> State<'ast>,
    ) -> (State<'ast>, ExprContext, Option<Expression>)
        decreases 8int, statements, 4int,
    {
        let outer = ctx.scope_index;
        let ctx = ctx.entered(
            new_block(Some(ctx.scope_index), label, BlockKind::Block, span, expected),
        );
        let (s, ctx, built) = self.build_block_expression(ctx, statements, span, pending);
        let ctx = ctx.left_to(outer);
        (s, ctx, built)
    }

    /// The block of some statements, in the current scope. What follows a
    /// statement that does not finish is reported as unreachable.
    pub open spec fn build_block_expression(
        self,
        ctx: ExprContext,
        statements: &List<Statement>,
        span: TextSpan,
        pending: spec_fn(State<'ast>, DefId) -> State<'ast>,
    ) -> (State<'ast>, ExprContext, Option<Expression>)
        decreases 8int, statements, 3int,
    {
        let (s, ctx, (expressions, exhaustive)) = self.build_block_statements(
            ctx,
            statements,
            List::Nil,
            pending,
        );
        let scope_index: usize = ctx.scope_index;
        if exhaustive {
            let s = s.report_unreachable_statements(
                ctx.resolve_context.file_id,
                statements,
                expressions.len(),
            );
            let inferred: TypeIndex = ty::infer_or(ctx.inferred(scope_index), ty::NEVER);
            let ctx = ctx.with_inferred(scope_index, inferred);
            (
                s,
                ctx,
                Some(
                    typed(
                        ExprKind::Block { scope_index, expressions, result: None },
                        inferred,
                        span,
                    ),
                ),
            )
        } else {
            if typing::loop_scope(&ctx, scope_index) {
                let (s, ctx, value) = s.build_last_value(ctx, statements, ty::UNIT, pending);
                match value {
                    Some(value) => {
                        (
                            s,
                            ctx,
                            Some(
                                typed(
                                    ExprKind::Block {
                                        scope_index,
                                        expressions,
                                        result: boxed(value),
                                    },
                                    ty::infer_or(ctx.inferred(scope_index), ty::NEVER),
                                    span,
                                ),
                            ),
                        )
                    },
                    None => (s, ctx, None),
                }
            } else {
                let (s, ctx, value) = s.build_last_value(
                    ctx,
                    statements,
                    ctx.expected(scope_index),
                    pending,
                );
                match value {
                    Some(value) => {
                        let (s, ctx, value) = s.finish_block_result(ctx, value);
                        match value {
                            Some(value) => {
                                let (s, block_ty) = s.checked_block_type(
                                    ctx.inferred(scope_index),
                                    ctx.expected(scope_index),
                                    ctx.resolve_context.at(span),
                                );
                                (
                                    s,
                                    ctx,
                                    Some(
                                        typed(
                                            ExprKind::Block {
                                                scope_index,
                                                expressions,
                                                result: boxed(value),
                                            },
                                            block_ty,
                                            span,
                                        ),
                                    ),
                                )
                            },
                            None => (s, ctx, None),
                        }
                    },
                    None => (s, ctx, None),
                }
            }
        }
    }

    /// The value of a block, if its last statement is one.
    pub open spec fn build_last_value(
        self,
        ctx: ExprContext,
        statements: &List<Statement>,
        expected: TypeIndex,
        pending: spec_fn(State<'ast>, DefId) -> State<'ast>,
    ) -> (State<'ast>, ExprContext, Option<Option<Expression>>)
        decreases 8int, statements, 1int,
    {
        match statements {
            List::Nil => (self, ctx, Some(None)),
            List::Cons(statement, rest) => {
                if !rest.is_empty() {
                    self.build_last_value(ctx, rest, expected, pending)
                } else {
                    if statement.separated {
                        (self, ctx, Some(None))
                    } else {
                        match &statement.kind {
                            StatementKind::Expression(value) => {
                                let (s, ctx, built) = self.build_expression(
                                    ctx,
                                    reading(expected),
                                    value,
                                    pending,
                                );
                                match built {
                                    Some(built) => {
                                        (s, ctx, Some(Some(built)))
                                    },
                                    None => (s, ctx, None),
                                }
                            },
                            StatementKind::LocalDefinition { .. } => (self, ctx, Some(None)),
                        }
                    }
                }
            },
        }
    }

    /// The statements of a block before its value, up to one that does not
    /// finish; whether there is such a one. Statements that fail are left out.
    pub open spec fn build_block_statements(
        self,
        ctx: ExprContext,
        statements: &List<Statement>,
        built: List<Expression>,
        pending: spec_fn(State<'ast>, DefId) -> State<'ast>,
    ) -> (State<'ast>, ExprContext, (List<Expression>, bool))
        decreases 8int, statements, 1int,
    {
        match statements {
            List::Nil => (self, ctx, (built, false)),
            List::Cons(statement, rest) => {
                if rest.is_empty() && typing::result_of_statement(statement).is_some() {
                    (self, ctx, (built, false))
                } else {
                    let (s, ctx, expr) = self.build_statement(ctx, statement, pending);
                    match expr {
                        Some(expr) => {
                            if expr.ty == ty::NEVER {
                                (s, ctx, (built.push(expr), true))
                            } else {
                                s.build_block_statements(ctx, rest, built.push(expr), pending)
                            }
                        },
                        None => s.build_block_statements(ctx, rest, built, pending),
                    }
                }
            },
        }
    }

    /// One statement: an expression or a `local` definition.
    pub open spec fn build_statement(
        self,
        ctx: ExprContext,
        statement: &Statement,
        pending: spec_fn(State<'ast>, DefId) -> State<'ast>,
    ) -> (State<'ast>, ExprContext, Option<Expression>)
        decreases 8int, statement, 0int,
    {
        match &statement.kind {
            StatementKind::Expression(value) => {
                let (s, ctx, built) = self.build_expression(
                    ctx,
                    reading(ty::INFER),
                    value,
                    pending,
                );
                match built {
                    Some(built) => {
                        s.finish_expression_statement(ctx, built)
                    },
                    None => (s, ctx, None),
                }
            },
            StatementKind::LocalDefinition { pattern, ty, value } => {
                let (s, expected) = self.resolve_annotation(
                    ctx.resolve_context,
                    ctx.scope,
                    ty,
                    pending,
                );
                let (s, ctx, built) = s.build_expression(ctx, reading(expected), value, pending);
                let (s, ctx, (local_ty, local_value)) = s.settle_local(
                    ctx,
                    pattern.span,
                    value.span,
                    built,
                    expected,
                );
                let (s, ctx, definition) = s.define_locals(
                    ctx,
                    pattern,
                    local_ty,
                    local_value,
                    statement.span,
                    pending,
                );
                (s, ctx, Some(definition))
            },
        }
    }
}

impl<'ast> Builder<'ast> {
    /// A block in a scope of its own.
    pub fn build_scoped_block(
        &mut self,
        ctx: &mut ExprContext,
        statements: &List<Statement>,
        span: TextSpan,
        label: Option<usize>,
        expected: TypeIndex,
        depth: usize,
    ) -> (result: Option<Expression>)
        ensures
            (final(self)@, *final(ctx), result) == old(self)@.build_scoped_block(
                *old(ctx),
                statements,
                span,
                label,
                expected,
                signatures::resolver(depth),
            ),
        decreases depth, 8int, statements, 4int,
    {
        let outer: usize = ctx.enter_block(
            new_block(Some(ctx.scope_index), label, BlockKind::Block, span, expected),
        );
        let built = self.build_block_expression(ctx, statements, span, depth);
        ctx.leave_block(outer);
        built
    }

    /// The block of some statements, in the current scope. What follows a
    /// statement that does not finish is reported as unreachable.
    pub fn build_block_expression(
        &mut self,
        ctx: &mut ExprContext,
        statements: &List<Statement>,
        span: TextSpan,
        depth: usize,
    ) -> (result: Option<Expression>)
        ensures
            (final(self)@, *final(ctx), result) == old(self)@.build_block_expression(
                *old(ctx),
                statements,
                span,
                signatures::resolver(depth),
            ),
        decreases depth, 8int, statements, 3int,
    {
        let (expressions, exhaustive) = self.build_block_statements(
            ctx,
            statements,
            List::Nil,
            depth,
        );
        let scope_index: usize = ctx.scope_index;
        if exhaustive {
            self.report_unreachable_statements(
                ctx.resolve_context.file_id,
                statements,
                expressions.len(),
            );
            let inferred: TypeIndex = ty::infer_or(ctx.inferred_type(scope_index), ty::NEVER);
            ctx.set_inferred_type(scope_index, inferred);
            return Some(
                typed(ExprKind::Block { scope_index, expressions, result: None }, inferred, span),
            );
        }
        if is_loop_scope(&*ctx, scope_index) {
            let value = self.build_last_value(ctx, statements, ty::UNIT, depth)?;
            return Some(
                typed(
                    ExprKind::Block { scope_index, expressions, result: boxed(value) },
                    ty::infer_or(ctx.inferred_type(scope_index), ty::NEVER),
                    span,
                ),
            );
        }
        let value = self.build_last_value(
            ctx,
            statements,
            ctx.expected_type(scope_index),
            depth,
        )?;
        let value = self.finish_block_result(ctx, value)?;
        let block_ty: TypeIndex = self.checked_block_type(
            ctx.inferred_type(scope_index),
            ctx.expected_type(scope_index),
            ctx.resolve_context.at(span),
        );
        Some(
            typed(
                ExprKind::Block { scope_index, expressions, result: boxed(value) },
                block_ty,
                span,
            ),
        )
    }

    /// The value of a block, if its last statement is one.
    pub fn build_last_value(
        &mut self,
        ctx: &mut ExprContext,
        statements: &List<Statement>,
        expected: TypeIndex,
        depth: usize,
    ) -> (result: Option<Option<Expression>>)
        ensures
            (final(self)@, *final(ctx), result) == old(self)@.build_last_value(
                *old(ctx),
                statements,
                expected,
                signatures::resolver(depth),
            ),
        decreases depth, 8int, statements, 1int,
    {
        match statements {
            List::Nil => Some(None),
            List::Cons(statement, rest) => {
                if !rest.is_empty() {
                    return self.build_last_value(ctx, rest, expected, depth);
                }
                if statement.separated {
                    return Some(None);
                }
                match &statement.kind {
                    StatementKind::Expression(value) => {
                        let built = self.build_expression(ctx, reading(expected), value, depth)?;
                        Some(Some(built))
                    },
                    StatementKind::LocalDefinition { .. } => Some(None),
                }
            },
        }
    }

    /// The statements of a block before its value, up to one that does not
    /// finish; whether there is such a one. Statements that fail are left out.
    pub fn build_block_statements(
        &mut self,
        ctx: &mut ExprContext,
        statements: &List<Statement>,
        built: List<Expression>,
        depth: usize,
    ) -> (result: (List<Expression>, bool))
        ensures
            (final(self)@, *final(ctx), result) == old(self)@.build_block_statements(
                *old(ctx),
                statements,
                built,
                signatures::resolver(depth),
            ),
        decreases depth, 8int, statements, 1int,
    {
        match statements {
            List::Nil => (built, false),
            List::Cons(statement, rest) => {
                if rest.is_empty() && statement_result(statement).is_some() {
                    return (built, false);
                }
                let expr = self.build_statement(ctx, statement, depth);
                match expr {
                    Some(expr) => {
                        if expr.ty == ty::NEVER {
                            return (built.push(expr), true);
                        }
                        self.build_block_statements(ctx, rest, built.push(expr), depth)
                    },
                    None => self.build_block_statements(ctx, rest, built, depth),
                }
            },
        }
    }

    /// One statement: an expression or a `local` definition.
    pub fn build_statement(
        &mut self,
        ctx: &mut ExprContext,
        statement: &Statement,
        depth: usize,
    ) -> (result: Option<Expression>)
        ensures
            (final(self)@, *final(ctx), result) == old(self)@.build_statement(
                *old(ctx),
                statement,
                signatures::resolver(depth),
            ),
        decreases depth, 8int, statement, 0int,
    {
        match &statement.kind {
            StatementKind::Expression(value) => {
                let built = self.build_expression(ctx, reading(ty::INFER), value, depth)?;
                self.finish_expression_statement(ctx, built)
            },
            StatementKind::LocalDefinition { pattern, ty, value } => {
                let expected: TypeIndex = self.resolve_annotation(
                    ctx.resolve_context,
                    ctx.scope,
                    ty,
                    depth,
                );
                let built = self.build_expression(ctx, reading(expected), value, depth);
                let (local_ty, local_value) = self.settle_local(
                    ctx,
                    pattern.span,
                    value.span,
                    built,
                    expected,
                );
                let definition = self.define_locals(
                    ctx,
                    pattern,
                    local_ty,
                    local_value,
                    statement.span,
                    depth,
                );
                Some(definition)
            },
        }
    }
}

} // verus!
