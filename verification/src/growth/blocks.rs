//! What `blocks` does to the state only adds to it.

use vstd::prelude::*;

use crate::ast::{Statement, StatementKind};
use crate::growth;
use crate::list::List;
use crate::scope::{new_block, ExprContext};
use crate::shape::reading;
use crate::span::{DefId, TextSpan};
use crate::state::State;
use crate::tir::{BlockKind, Expression};
use crate::ty;
use crate::types::TypeIndex;
use crate::typing;

verus! {

impl<'ast> State<'ast> {
    pub proof fn adds_build_scoped_block(
        self,
        ctx: ExprContext,
        statements: &List<Statement>,
        span: TextSpan,
        label: Option<usize>,
        expected: TypeIndex,
        pending: spec_fn(State<'ast>, DefId) -> State<'ast>,
    )
        requires
            growth::resolver_adds(pending),
        ensures
            self.only_adds(
                self.build_scoped_block(ctx, statements, span, label, expected, pending).0,
            ),
        decreases 8int, statements, 4int,
    {
        broadcast use crate::growth::group_finishing;

        self.adds_nothing();
        let outer = ctx.scope_index;
        let ctx = ctx.entered(
            new_block(Some(ctx.scope_index), label, BlockKind::Block, span, expected),
        );
        self.adds_build_block_expression(ctx, statements, span, pending);
    }

    pub proof fn adds_build_block_expression(
        self,
        ctx: ExprContext,
        statements: &List<Statement>,
        span: TextSpan,
        pending: spec_fn(State<'ast>, DefId) -> State<'ast>,
    )
        requires
            growth::resolver_adds(pending),
        ensures
            self.only_adds(self.build_block_expression(ctx, statements, span, pending).0),
        decreases 8int, statements, 3int,
    {
        broadcast use crate::growth::group_finishing;

        self.adds_nothing();
        self.adds_build_block_statements(ctx, statements, List::Nil, pending);
        let (s, ctx, (expressions, exhaustive)) = self.build_block_statements(
            ctx,
            statements,
            List::Nil,
            pending,
        );
        let scope_index: usize = ctx.scope_index;
        if exhaustive {
            let s = s.report_unreachable_statements(
                ctx.resolve_context.file_id,
                statements,
                expressions.len(),
            );
            let inferred: TypeIndex = ty::infer_or(ctx.inferred(scope_index), ty::NEVER);
            let ctx = ctx.with_inferred(scope_index, inferred);
        } else {
            if typing::loop_scope(&ctx, scope_index) {
                s.adds_build_last_value(ctx, statements, ty::UNIT, pending);
                let (s, ctx, value) = s.build_last_value(ctx, statements, ty::UNIT, pending);
                match value {
                    Some(value) => {},
                    None => {},
                }
            } else {
                s.adds_build_last_value(ctx, statements, ctx.expected(scope_index), pending);
                let (s, ctx, value) = s.build_last_value(
                    ctx,
                    statements,
                    ctx.expected(scope_index),
                    pending,
                );
                match value {
                    Some(value) => {},
                    None => {},
                }
            }
        }
    }

    pub proof fn adds_build_last_value(
        self,
        ctx: ExprContext,
        statements: &List<Statement>,
        expected: TypeIndex,
        pending: spec_fn(State<'ast>, DefId) -> State<'ast>,
    )
        requires
            growth::resolver_adds(pending),
        ensures
            self.only_adds(self.build_last_value(ctx, statements, expected, pending).0),
        decreases 8int, statements, 1int,
    {
        broadcast use crate::growth::group_finishing;

        self.adds_nothing();
        match statements {
            List::Nil => {},
            List::Cons(statement, rest) => {
                if !rest.is_empty() {
                    self.adds_build_last_value(ctx, rest, expected, pending);
                } else {
                    if statement.separated {
                    } else {
                        match &statement.kind {
                            StatementKind::Expression(value) => {
                                self.adds_build_expression(
                                    ctx,
                                    reading(expected),
                                    value,
                                    pending,
                                );
                                let (s, ctx, built) = self.build_expression(
                                    ctx,
                                    reading(expected),
                                    value,
                                    pending,
                                );
                                match built {
                                    Some(built) => {},
                                    None => {},
                                }
                            },
                            StatementKind::LocalDefinition { .. } => {},
                        }
                    }
                }
            },
        }
    }

    pub proof fn adds_build_block_statements(
        self,
        ctx: ExprContext,
        statements: &List<Statement>,
        built: List<Expression>,
        pending: spec_fn(State<'ast>, DefId) -> State<'ast>,
    )
        requires
            growth::resolver_adds(pending),
        ensures
            self.only_adds(self.build_block_statements(ctx, statements, built, pending).0),
        decreases 8int, statements, 1int,
    {
        broadcast use crate::growth::group_finishing;

        self.adds_nothing();
        match statements {
            List::Nil => {},
            List::Cons(statement, rest) => {
                if rest.is_empty() && typing::result_of_statement(statement).is_some() {
                } else {
                    self.adds_build_statement(ctx, statement, pending);
                    let (s, ctx, expr) = self.build_statement(ctx, statement, pending);
                    match expr {
                        Some(expr) => {
                            if expr.ty == ty::NEVER {
                            } else {
                                s.adds_build_block_statements(
                                    ctx,
                                    rest,
                                    built.push(expr),
                                    pending,
                                );
                            }
                        },
                        None => {
                            s.adds_build_block_statements(ctx, rest, built, pending);
                        },
                    }
                }
            },
        }
    }

    pub proof fn adds_build_statement(
        self,
        ctx: ExprContext,
        statement: &Statement,
        pending: spec_fn(State<'ast>, DefId) -> State<'ast>,
    )
        requires
            growth::resolver_adds(pending),
        ensures
            self.only_adds(self.build_statement(ctx, statement, pending).0),
        decreases 8int, statement, 0int,
    {
        broadcast use crate::growth::group_finishing;

        self.adds_nothing();
        match &statement.kind {
            StatementKind::Expression(value) => {
                self.adds_build_expression(ctx, reading(ty::INFER), value, pending);
                let (s, ctx, built) = self.build_expression(
                    ctx,
                    reading(ty::INFER),
                    value,
                    pending,
                );
                match built {
                    Some(built) => {},
                    None => {},
                }
            },
            StatementKind::LocalDefinition { pattern, ty, value } => {
                self.adds_resolve_annotation(ctx.resolve_context, ctx.scope, ty, pending);
                let (s, expected) = self.resolve_annotation(
                    ctx.resolve_context,
                    ctx.scope,
                    ty,
                    pending,
                );
                s.adds_build_expression(ctx, reading(expected), value, pending);
                let (s, ctx, built) = s.build_expression(ctx, reading(expected), value, pending);
                let (s, ctx, (local_ty, local_value)) = s.settle_local(
                    ctx,
                    pattern.span,
                    value.span,
                    built,
                    expected,
                );
                s.adds_define_locals(
                    ctx,
                    pattern,
                    local_ty,
                    local_value,
                    statement.span,
                    pending,
                );
            },
        }
    }
}

} // verus!
