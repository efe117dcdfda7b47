//! Branches, loops, labels, casts and returns as they are written: their
//! parts are built in order, in scopes of their own.

use vstd::prelude::*;

use crate::ast;
use crate::ast::Statement;
use crate::failures::more_is_reported;
use crate::list::List;
use crate::rules::coercion::{law_cast, law_target_of_a_cast};
use crate::rules::expressions::{law_declared_label, law_entered_scope};
use crate::rules::flow::{
    law_if_with_else, law_if_without_else, law_returned_value_fits_or_is_reported,
};
use crate::rules::operators::is_a_literal;
use crate::scope::{carries_label, new_block, ExprContext};
use crate::shape::reading;
use crate::span::{DefId, Spanned, Symbol, TextSpan};
use crate::state::State;
use crate::tir::{AccessContext, BlockKind, ExprKind, Expression};
use crate::ty;
use crate::types::TypeIndex;

verus! {

// ---------------------------------------------------------------- scopes

/// A block is built in a scope of its own inside the present one, and leads
/// back to it.
pub proof fn law_block_in_its_scope<'ast>(
    s: State<'ast>,
    ctx: ExprContext,
    statements: List<Statement>,
    span: TextSpan,
    label: Option<usize>,
    expected: TypeIndex,
    pending: spec_fn(State<'ast>, DefId) -> State<'ast>,
)
    requires
        ctx.stack.scopes.count() <= usize::MAX,
    ensures
        ({
            let inside = ctx.entered(
                new_block(Some(ctx.scope_index), label, BlockKind::Block, span, expected),
            );
            let (t, later, built) = s.build_scoped_block(
                ctx,
                &statements,
                span,
                label,
                expected,
                pending,
            );
            &&& inside.scope_at(inside.scope_index) matches Some(block) && block.parent == Some(
                ctx.scope_index,
            ) && block.label == label && block.expected_type == expected && block.locals is Nil
                && block.kind == BlockKind::Block
            &&& inside.scope_index == ctx.stack.scopes.count()
            &&& built == s.build_block_expression(inside, &statements, span, pending).2
            &&& later.scope_index == ctx.scope_index
        }),
{
    law_entered_scope(
        ctx,
        new_block(Some(ctx.scope_index), label, BlockKind::Block, span, expected),
        ctx.scope_index,
    );
}

/// Inside a labelled block its label is found by its name, whatever labels
/// there are outside.
pub proof fn law_label_inside_its_block(
    ctx: ExprContext,
    name: Spanned<Symbol>,
    kind: BlockKind,
    span: TextSpan,
    expected: TypeIndex,
)
    requires
        ctx.stack.scopes.count() < usize::MAX,
        ctx.stack.labels.count() <= usize::MAX,
    ensures
        ({
            let inside = ctx.with_label(name).entered(
                new_block(
                    Some(ctx.scope_index),
                    Some(ctx.next_label()),
                    kind,
                    span,
                    expected,
                ),
            );
            inside.label_named(name.inner) == Some((inside.scope_index, ctx.next_label()))
        }),
{
    let labelled = ctx.with_label(name);
    let block = new_block(Some(ctx.scope_index), Some(ctx.next_label()), kind, span, expected);
    let inside = labelled.entered(block);
    law_declared_label(ctx, name);
    law_entered_scope(labelled, block, ctx.scope_index);
    assert(carries_label(inside.stack, inside.scope_index, name.inner));
    one_more(labelled.stack.scopes, block);
    assert(inside.stack.scopes.len() > 0);
}

proof fn one_more<T>(elements: List<T>, last: T)
    ensures
        elements.snoc(last).count() == elements.count() + 1,
    decreases elements,
{
    match elements {
        List::Nil => {
            reveal_with_fuel(List::count, 2);
        },
        List::Cons(_, rest) => one_more(*rest, last),
    }
}

/// Inside a loop, the closest loop is that loop.
pub proof fn law_closest_loop_inside_a_loop(
    ctx: ExprContext,
    label: Option<usize>,
    span: TextSpan,
    expected: TypeIndex,
)
    requires
        ctx.stack.scopes.count() < usize::MAX,
    ensures
        ({
            let inside = ctx.entered(
                new_block(Some(ctx.scope_index), label, BlockKind::Loop, span, expected),
            );
            inside.closest_loop() == Some(inside.scope_index)
        }),
{
    let block = new_block(Some(ctx.scope_index), label, BlockKind::Loop, span, expected);
    law_entered_scope(ctx, block, ctx.scope_index);
    one_more(ctx.stack.scopes, block);
}

// ---------------------------------------------------------------- branches

/// `if` with `else` keeps its condition, which is expected to be a `bool`, its
/// first and its second block, built in that order. Blocks whose types do not
/// agree are reported.
#[verifier::rlimit(60)]
pub proof fn law_if_else_expression<'ast>(
    s: State<'ast>,
    ctx: ExprContext,
    expected: TypeIndex,
    expr: Spanned<ast::Expression>,
    label: Option<usize>,
    condition: Box<Spanned<ast::Expression>>,
    then_block: List<Statement>,
    then_span: TextSpan,
    else_block: Spanned<List<Statement>>,
    pending: spec_fn(State<'ast>, DefId) -> State<'ast>,
)
    requires
        expr.inner == (ast::Expression::IfElse {
            condition,
            then_block,
            then_span,
            else_block: Some(else_block),
        }),
    ensures
        ({
            let (s1, ctx1, tested) = s.build_expression(
                ctx,
                reading(ty::BOOL),
                &*condition,
                pending,
            );
            let (s2, ctx2, first) = s1.build_scoped_block(
                ctx1,
                &then_block,
                then_span,
                label,
                expected,
                pending,
            );
            let (t, later, built) = s.build_if_else_expression(ctx, expected, &expr, label, pending);
            match first {
                Some(b) => {
                    let (s3, ctx3, second) = s2.build_scoped_block(
                        ctx2,
                        &else_block.inner,
                        else_block.span,
                        label,
                        expected,
                        pending,
                    );
                    match second {
                        Some(e) => !is_a_literal(b.ty) && !is_a_literal(e.ty) ==> match s3.unified(
                            b.ty,
                            e.ty,
                        ).1 {
                            Some(agreed) => built matches Some(whole) && whole.ty == agreed && (
                            whole.kind matches ExprKind::IfElse {
                                condition: c,
                                then_block: kept,
                                else_block: other,
                            } && (tested matches Some(found) ==> *c == found) && *kept == b
                                && other == Some(Box::new(e))),
                            None => built is None && more_is_reported(s3, t),
                        },
                        None => built is None,
                    }
                },
                None => built is None,
            }
        }),
{
    let (s1, ctx1, tested) = s.build_expression(ctx, reading(ty::BOOL), &*condition, pending);
    let (s2, ctx2, first) = s1.build_scoped_block(
        ctx1,
        &then_block,
        then_span,
        label,
        expected,
        pending,
    );
    match first {
        Some(b) => {
            let (s3, ctx3, second) = s2.build_scoped_block(
                ctx2,
                &else_block.inner,
                else_block.span,
                label,
                expected,
                pending,
            );
            match second {
                Some(e) => {
                    if !is_a_literal(b.ty) && !is_a_literal(e.ty) {
                        law_if_with_else(
                            s3,
                            ctx3,
                            crate::typing::or_poisoned(tested, condition.span),
                            b,
                            e,
                            expr.span,
                        );
                    }
                },
                None => {},
            }
        },
        None => {},
    }
}

/// `if` without `else` has no value; a block with a value is reported.
pub proof fn law_plain_if_expression<'ast>(
    s: State<'ast>,
    ctx: ExprContext,
    expected: TypeIndex,
    expr: Spanned<ast::Expression>,
    label: Option<usize>,
    condition: Box<Spanned<ast::Expression>>,
    then_block: List<Statement>,
    then_span: TextSpan,
    pending: spec_fn(State<'ast>, DefId) -> State<'ast>,
)
    requires
        expr.inner == (ast::Expression::IfElse {
            condition,
            then_block,
            then_span,
            else_block: None,
        }),
    ensures
        ({
            let (s1, ctx1, tested) = s.build_expression(
                ctx,
                reading(ty::BOOL),
                &*condition,
                pending,
            );
            let (s2, ctx2, first) = s1.build_scoped_block(
                ctx1,
                &then_block,
                then_span,
                label,
                ty::INFER,
                pending,
            );
            let (t, later, built) = s.build_if_else_expression(ctx, expected, &expr, label, pending);
            match first {
                Some(b) => if b.ty == ty::UNIT || b.ty == ty::NEVER {
                    t == s2 && (built matches Some(whole) && whole.ty == ty::UNIT)
                } else {
                    built is None && more_is_reported(s2, t)
                },
                None => built is None,
            }
        }),
{
    let (s1, ctx1, tested) = s.build_expression(ctx, reading(ty::BOOL), &*condition, pending);
    let (s2, ctx2, first) = s1.build_scoped_block(
        ctx1,
        &then_block,
        then_span,
        label,
        ty::INFER,
        pending,
    );
    match first {
        Some(b) => {
            law_if_without_else(
                s2,
                ctx2.resolve_context,
                crate::typing::or_poisoned(tested, condition.span),
                b,
                expr.span,
            );
            reveal(State::finish_if);
        },
        None => {},
    }
}

/// The arms of a match are built in order, each with its own pattern and body.
pub proof fn law_arms_of_a_match<'ast>(
    s: State<'ast>,
    ctx: ExprContext,
    scrutinee: TypeIndex,
    arms: List<ast::MatchArm>,
    expected: TypeIndex,
    pending: spec_fn(State<'ast>, DefId) -> State<'ast>,
)
    ensures
        s.build_match_arms(ctx, scrutinee, &arms, expected, pending).2 matches Some(built) ==> {
            &&& built.count() == arms.count()
            &&& forall|i: nat|
                (#[trigger] built.at(i)) matches Some(arm) ==> (arms.at(i) matches Some(written)
                    && arm.pattern_span == written.pattern.span)
        },
    decreases arms,
{
    match arms {
        List::Nil => {},
        List::Cons(arm, rest) => {
            let (s1, ctx1, first) = s.build_match_arm(ctx, scrutinee, &*arm, expected, pending);
            law_arms_of_a_match(s1, ctx1, scrutinee, *rest, expected, pending);
            match s.build_match_arms(ctx, scrutinee, &arms, expected, pending).2 {
                Some(built) => {
                    let others = s1.build_match_arms(
                        ctx1,
                        scrutinee,
                        &*rest,
                        expected,
                        pending,
                    ).2->0;
                    assert forall|i: nat| (#[trigger] built.at(i)) is Some implies (arms.at(
                        i,
                    ) matches Some(written) && built.at(i)->0.pattern_span
                        == written.pattern.span) by {
                        if i > 0 {
                            assert(built.at(i) == others.at((i - 1) as nat));
                            assert(arms.at(i) == rest.at((i - 1) as nat));
                        }
                    }
                },
                None => {},
            }
        },
    }
}

// ---------------------------------------------------------------- loops

/// A loop is built in a scope of its own that is a loop, and leads back to the
/// scope around it. The whole names that scope.
pub proof fn law_loop_expression<'ast>(
    s: State<'ast>,
    ctx: ExprContext,
    expected: TypeIndex,
    expr: Spanned<ast::Expression>,
    label: Option<usize>,
    statements: List<Statement>,
    body_span: TextSpan,
    pending: spec_fn(State<'ast>, DefId) -> State<'ast>,
)
    requires
        expr.inner == (ast::Expression::Loop { statements, body_span }),
        ctx.stack.scopes.count() <= usize::MAX,
    ensures
        ({
            let inside = ctx.entered(
                new_block(Some(ctx.scope_index), label, BlockKind::Loop, expr.span, expected),
            );
            let (s1, ctx1, body) = s.build_block_expression(
                inside,
                &statements,
                body_span,
                pending,
            );
            let (t, later, built) = s.build_loop_expression(ctx, expected, &expr, label, pending);
            &&& later.scope_index == ctx.scope_index
            &&& body is None ==> built is None
            &&& built matches Some(whole) ==> (whole.kind matches ExprKind::Loop {
                scope_index,
                block,
            } && scope_index == ctx.stack.scopes.count() && Some(*block) == body)
        }),
{
    let inside = ctx.entered(
        new_block(Some(ctx.scope_index), label, BlockKind::Loop, expr.span, expected),
    );
    s.keeps_build_block_expression(inside, &statements, body_span, pending);
    reveal(State::finish_loop);
}

/// What a `return` hands back is expected to be what the function returns; a
/// value of another type, other than a number literal, is reported.
pub proof fn law_return_expression<'ast>(
    s: State<'ast>,
    ctx: ExprContext,
    expr: Spanned<ast::Expression>,
    value: Box<Spanned<ast::Expression>>,
    pending: spec_fn(State<'ast>, DefId) -> State<'ast>,
)
    requires
        expr.inner == (ast::Expression::Return { value: Some(value) }),
    ensures
        ({
            let (s1, ctx1, given) = s.build_expression(
                ctx,
                reading(ctx.expected(0)),
                &*value,
                pending,
            );
            let (t, later, built) = s.build_return_expression(ctx, &expr, pending);
            (given matches Some(handed) && ctx1.scope_at(0) is Some && ctx1.inferred(0) == ty::INFER
                && ctx1.expected(0) != ty::INFER && !is_a_literal(handed.ty) && !s1.coercible(
                handed.ty,
                ctx1.expected(0),
            ).1) ==> built is None && more_is_reported(s1, t)
        }),
{
    let (s1, ctx1, given) = s.build_expression(ctx, reading(ctx.expected(0)), &*value, pending);
    match given {
        Some(handed) => {
            if ctx1.scope_at(0) is Some && ctx1.inferred(0) == ty::INFER && ctx1.expected(0)
                != ty::INFER && !is_a_literal(handed.ty) {
                law_returned_value_fits_or_is_reported(s1, ctx1, handed, expr.span);
            }
        },
        None => {},
    }
}

// ---------------------------------------------------------------- casts

/// A cast builds the value as the written type asks and gives it that type
/// where both are held the same way; otherwise it is reported.
pub proof fn law_cast_expression<'ast>(
    s: State<'ast>,
    ctx: ExprContext,
    access: AccessContext,
    expr: Spanned<ast::Expression>,
    pending: spec_fn(State<'ast>, DefId) -> State<'ast>,
)
    requires
        expr.inner is Cast,
    ensures
        ({
            let (s1, written) = s.resolve_type(
                ctx.resolve_context,
                ctx.scope,
                &expr.inner->Cast_ty,
                pending,
            );
            let (t, later, built) = s.build_cast_expression(ctx, access, &expr, pending);
            let wanted = AccessContext {
                expected_type: written,
                access_kind: access.access_kind,
            };
            let (s2, ctx2, value) = s1.build_expression(
                ctx,
                wanted,
                &expr.inner->Cast_value,
                pending,
            );
            written != ty::ERROR && written != ty::INFER ==> match value {
                Some(given) => !is_a_literal(given.ty) ==> if s2.scalar_compatible(
                    given.ty,
                    written,
                ) {
                    t == s2 && built == Some(
                        Expression { kind: given.kind, ty: written, span: given.span },
                    )
                } else {
                    more_is_reported(s2, t) && built == Some(given)
                },
                None => built is None,
            }
        }),
{
    let (s1, written) = s.resolve_type(
        ctx.resolve_context,
        ctx.scope,
        &expr.inner->Cast_ty,
        pending,
    );
    law_target_of_a_cast(s1, written, access.expected_type, ctx.resolve_context.at(expr.span));
    let wanted = AccessContext { expected_type: written, access_kind: access.access_kind };
    let (s2, ctx2, value) = s1.build_expression(ctx, wanted, &expr.inner->Cast_value, pending);
    match value {
        Some(given) => law_cast(s2, ctx2, given, written, expr.span),
        None => {},
    }
}

} // verus!
