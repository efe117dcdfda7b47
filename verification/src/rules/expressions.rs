//! Expressions as they are written: their parts are built in order, and the
//! whole keeps them.

use vstd::prelude::*;

use crate::ast;
use crate::ast::{BinaryOp, Statement, StatementKind};
use crate::failures::more_is_reported;
use crate::growth;
use crate::list::List;
use crate::operators::AssignmentTarget;
use crate::rules::flow::{
    law_annotated_local, law_unreachable_statements_are_reported, law_where_jumps_go,
};
use crate::rules::operators::{
    are_comparable, is_a_literal, is_a_scalar, is_an_integer, is_operation,
    law_arithmetic_on_one_type, law_bit_operation_on_one_type, law_comparison_of_operands,
    law_condition_is_a_bool, law_operand_fits_or_is_reported,
};
use crate::scope::{new_block, ExprContext};
use crate::shape::{accessing, reading};
use crate::span::{DefId, Spanned, Symbol, TextSpan};
use crate::state::State;
use crate::tir::{
    AccessContext, AccessKind, BlockKind, BlockScope, ExprKind, Expression, LabelInfo, Pattern,
};
use crate::ty;
use crate::types::TypeIndex;

verus! {

// ---------------------------------------------------------------- operators

/// `left op right` with an arithmetic operator builds the left operand first
/// and the right one after it. Where both have one scalar type, the whole is
/// the operator on the two in that order and has their type.
pub proof fn law_arithmetic_expression<'ast>(
    s: State<'ast>,
    ctx: ExprContext,
    access: AccessContext,
    expr: Spanned<ast::Expression>,
    operator: Spanned<BinaryOp>,
    left: Box<Spanned<ast::Expression>>,
    right: Box<Spanned<ast::Expression>>,
    pending: spec_fn(State<'ast>, DefId) -> State<'ast>,
)
    requires
        expr.inner == (ast::Expression::Binary { operator, left, right }),
        operator.inner.is_arithmetic(),
    ensures
        ({
            let (s1, ctx1, first) = s.build_expression(
                ctx,
                reading(access.expected_type),
                &*left,
                pending,
            );
            let (t, later, built) = s.build_binary_expression(ctx, access, &expr, pending);
            match first {
                Some(l) => {
                    let (s2, ctx2, second) = s1.build_expression(
                        ctx1,
                        reading(s1.right_expectation(l.ty, access.expected_type)),
                        &*right,
                        pending,
                    );
                    match second {
                        Some(r) => l.ty == r.ty && is_a_scalar(l.ty) ==> t == s2 && later == ctx2
                            && (built matches Some(whole) && whole.ty == l.ty && is_operation(
                            whole,
                            operator,
                            l,
                            r,
                        )),
                        None => built is None && t == s2,
                    }
                },
                None => built is None && t == s1,
            }
        }),
{
    let (s1, ctx1, first) = s.build_expression(
        ctx,
        reading(access.expected_type),
        &*left,
        pending,
    );
    match first {
        Some(l) => {
            let (s2, ctx2, second) = s1.build_expression(
                ctx1,
                reading(s1.right_expectation(l.ty, access.expected_type)),
                &*right,
                pending,
            );
            match second {
                Some(r) => {
                    if l.ty == r.ty && is_a_scalar(l.ty) {
                        law_arithmetic_on_one_type(s2, ctx2, access, operator, l, r, expr.span);
                    }
                },
                None => {},
            }
        },
        None => {},
    }
}

/// A bit operation builds its operands in order, and is the operator on the
/// two where both have one integer type or are `bool`.
pub proof fn law_bit_expression<'ast>(
    s: State<'ast>,
    ctx: ExprContext,
    access: AccessContext,
    expr: Spanned<ast::Expression>,
    operator: Spanned<BinaryOp>,
    left: Box<Spanned<ast::Expression>>,
    right: Box<Spanned<ast::Expression>>,
    pending: spec_fn(State<'ast>, DefId) -> State<'ast>,
)
    requires
        expr.inner == (ast::Expression::Binary { operator, left, right }),
        operator.inner.is_bitwise(),
    ensures
        ({
            let (s1, ctx1, first) = s.build_expression(ctx, access, &*left, pending);
            let (t, later, built) = s.build_binary_expression(ctx, access, &expr, pending);
            match first {
                Some(l) => {
                    let wanted = AccessContext {
                        expected_type: s1.right_expectation(l.ty, access.expected_type),
                        access_kind: access.access_kind,
                    };
                    let (s2, ctx2, second) = s1.build_expression(ctx1, wanted, &*right, pending);
                    match second {
                        Some(r) => l.ty == r.ty && (is_an_integer(l.ty) || l.ty == ty::BOOL) ==> t
                            == s2 && later == ctx2 && (built matches Some(whole) && whole.ty == l.ty
                            && is_operation(whole, operator, l, r)),
                        None => built is None,
                    }
                },
                None => built is None,
            }
        }),
{
    let (s1, ctx1, first) = s.build_expression(ctx, access, &*left, pending);
    match first {
        Some(l) => {
            let wanted = AccessContext {
                expected_type: s1.right_expectation(l.ty, access.expected_type),
                access_kind: access.access_kind,
            };
            let (s2, ctx2, second) = s1.build_expression(ctx1, wanted, &*right, pending);
            match second {
                Some(r) => {
                    if l.ty == r.ty && (is_an_integer(l.ty) || l.ty == ty::BOOL) {
                        law_bit_operation_on_one_type(
                            s2,
                            ctx2,
                            access,
                            operator,
                            l,
                            r,
                            expr.span,
                        );
                    }
                },
                None => {},
            }
        },
        None => {},
    }
}

/// A comparison builds its operands in order and is a `bool`; operands that
/// cannot be compared are reported.
pub proof fn law_comparison_expression<'ast>(
    s: State<'ast>,
    ctx: ExprContext,
    access: AccessContext,
    expr: Spanned<ast::Expression>,
    operator: Spanned<BinaryOp>,
    left: Box<Spanned<ast::Expression>>,
    right: Box<Spanned<ast::Expression>>,
    pending: spec_fn(State<'ast>, DefId) -> State<'ast>,
)
    requires
        expr.inner == (ast::Expression::Binary { operator, left, right }),
        operator.inner == BinaryOp::Eq || operator.inner == BinaryOp::NotEq || operator.inner
            == BinaryOp::Less || operator.inner == BinaryOp::LessEq || operator.inner
            == BinaryOp::Greater || operator.inner == BinaryOp::GreaterEq,
    ensures
        ({
            let (s1, ctx1, first) = s.build_expression(ctx, reading(ty::INFER), &*left, pending);
            let (t, later, built) = s.build_binary_expression(ctx, access, &expr, pending);
            match first {
                Some(l) => {
                    let (s2, ctx2, second) = s1.build_expression(
                        ctx1,
                        reading(l.ty),
                        &*right,
                        pending,
                    );
                    match second {
                        Some(r) => !is_a_literal(l.ty) && !is_a_literal(r.ty) && l.ty != ty::ERROR
                            && r.ty != ty::ERROR ==> {
                            &&& built matches Some(whole) && whole.ty == ty::BOOL && is_operation(
                                whole,
                                operator,
                                l,
                                r,
                            )
                            &&& are_comparable(s2, operator.inner, l.ty, r.ty) ==> t == s2
                            &&& !are_comparable(s2, operator.inner, l.ty, r.ty)
                                ==> more_is_reported(s2, t)
                        },
                        None => built is None,
                    }
                },
                None => built is None,
            }
        }),
{
    let (s1, ctx1, first) = s.build_expression(ctx, reading(ty::INFER), &*left, pending);
    match first {
        Some(l) => {
            let (s2, ctx2, second) = s1.build_expression(ctx1, reading(l.ty), &*right, pending);
            match second {
                Some(r) => {
                    if !is_a_literal(l.ty) && !is_a_literal(r.ty) && l.ty != ty::ERROR && r.ty
                        != ty::ERROR {
                        law_comparison_of_operands(s2, ctx2, operator, l, r, expr.span);
                    }
                },
                None => {},
            }
        },
        None => {},
    }
}

/// `&&` and `||` ask both operands to be `bool`, keep them in order and are a
/// `bool`; an operand of another type is reported.
pub proof fn law_logical_expression<'ast>(
    s: State<'ast>,
    ctx: ExprContext,
    access: AccessContext,
    expr: Spanned<ast::Expression>,
    operator: Spanned<BinaryOp>,
    left: Box<Spanned<ast::Expression>>,
    right: Box<Spanned<ast::Expression>>,
    pending: spec_fn(State<'ast>, DefId) -> State<'ast>,
)
    requires
        growth::resolver_adds(pending),
        expr.inner == (ast::Expression::Binary { operator, left, right }),
        operator.inner == BinaryOp::And || operator.inner == BinaryOp::Or,
    ensures
        ({
            let (s1, ctx1, first) = s.build_expression(ctx, reading(ty::BOOL), &*left, pending);
            let (t, later, built) = s.build_binary_expression(ctx, access, &expr, pending);
            match first {
                Some(l) => {
                    let s2 = s1.check_logical_operand(l.ty, ctx1.resolve_context.at(l.span));
                    let (s3, _, second) = s2.build_expression(
                        ctx1,
                        reading(ty::BOOL),
                        &*right,
                        pending,
                    );
                    &&& l.ty != ty::BOOL && l.ty != ty::ERROR ==> more_is_reported(s, t)
                    &&& match second {
                        Some(r) => {
                            &&& built matches Some(whole) && whole.ty == ty::BOOL && is_operation(
                                whole,
                                operator,
                                l,
                                r,
                            )
                            &&& r.ty != ty::BOOL && r.ty != ty::ERROR ==> more_is_reported(s, t)
                        },
                        None => built is None,
                    }
                },
                None => built is None,
            }
        }),
{
    broadcast use growth::group_finishing;

    s.adds_build_expression(ctx, reading(ty::BOOL), &*left, pending);
    let (s1, ctx1, first) = s.build_expression(ctx, reading(ty::BOOL), &*left, pending);
    match first {
        Some(l) => {
            law_condition_is_a_bool(s1, l.ty, ctx1.resolve_context.at(l.span));
            let s2 = s1.check_logical_operand(l.ty, ctx1.resolve_context.at(l.span));
            s2.adds_build_expression(ctx1, reading(ty::BOOL), &*right, pending);
            let (s3, ctx3, second) = s2.build_expression(
                ctx1,
                reading(ty::BOOL),
                &*right,
                pending,
            );
            match second {
                Some(r) => {
                    law_condition_is_a_bool(s3, r.ty, ctx3.resolve_context.at(r.span));
                    s3.adds_check_logical_operand(r.ty, ctx3.resolve_context.at(r.span));
                },
                None => {},
            }
        },
        None => {},
    }
    reveal(State::only_adds);
    reveal(State::grows_to);
}

// ---------------------------------------------------------------- assignments

/// An assignment keeps the place on its left and has no value. What cannot be
/// assigned to is reported; so is a value, other than a number literal, that
/// cannot be used as the type of the variable.
#[verifier::rlimit(60)]
pub proof fn law_assignment<'ast>(
    s: State<'ast>,
    ctx: ExprContext,
    expr: Spanned<ast::Expression>,
    operator: Spanned<BinaryOp>,
    left: Box<Spanned<ast::Expression>>,
    right: Box<Spanned<ast::Expression>>,
    pending: spec_fn(State<'ast>, DefId) -> State<'ast>,
)
    requires
        growth::resolver_adds(pending),
        expr.inner == (ast::Expression::Binary { operator, left, right }),
    ensures
        ({
            let (s1, ctx1, first) = s.build_expression(
                ctx,
                accessing(AccessKind::Write),
                &*left,
                pending,
            );
            let (t, later, built) = s.build_assignment_expr(ctx, &expr, pending);
            match first {
                Some(l) => match s1.assignment_target(&ctx1, &l) {
                    AssignmentTarget::Variable(target) => {
                        let (s2, ctx2, second) = s1.build_expression(
                            ctx1,
                            reading(target),
                            &*right,
                            pending,
                        );
                        match second {
                            Some(r) => !is_a_literal(r.ty) ==> {
                                &&& built matches Some(whole) && whole.ty == ty::UNIT
                                    && is_operation(whole, operator, l, r)
                                &&& s2.coercible(r.ty, target).1 ==> t.diagnostics == s2.diagnostics
                                &&& !s2.coercible(r.ty, target).1 ==> more_is_reported(s, t)
                            },
                            None => built is None,
                        }
                    },
                    AssignmentTarget::Invalid => more_is_reported(s, t) && (
                    built matches Some(whole) && whole.ty == ty::UNIT && whole.kind is Error),
                    _ => true,
                },
                None => built is None,
            }
        }),
{
    broadcast use growth::group_finishing;

    s.adds_build_expression(ctx, accessing(AccessKind::Write), &*left, pending);
    let (s1, ctx1, first) = s.build_expression(
        ctx,
        accessing(AccessKind::Write),
        &*left,
        pending,
    );
    match first {
        Some(l) => {
            match s1.assignment_target(&ctx1, &l) {
                AssignmentTarget::Variable(target) => {
                    s1.adds_build_expression(ctx1, reading(target), &*right, pending);
                    let (s2, ctx2, second) = s1.build_expression(
                        ctx1,
                        reading(target),
                        &*right,
                        pending,
                    );
                    match second {
                        Some(r) => {
                            law_operand_fits_or_is_reported(
                                s2,
                                ctx2,
                                operator,
                                crate::shape::spanned(target, l.span),
                                r,
                            );
                        },
                        None => {},
                    }
                },
                _ => {},
            }
        },
        None => {},
    }
    reveal(State::report);
    reveal(State::only_adds);
    reveal(State::grows_to);
}

/// `+=` and the like apply to a variable or place of a scalar type alone; on
/// another type, or on what cannot be assigned to, they are reported.
#[verifier::rlimit(60)]
pub proof fn law_arithmetic_assignment<'ast>(
    s: State<'ast>,
    ctx: ExprContext,
    expr: Spanned<ast::Expression>,
    operator: Spanned<BinaryOp>,
    left: Box<Spanned<ast::Expression>>,
    right: Box<Spanned<ast::Expression>>,
    pending: spec_fn(State<'ast>, DefId) -> State<'ast>,
)
    requires
        growth::resolver_adds(pending),
        expr.inner == (ast::Expression::Binary { operator, left, right }),
    ensures
        ({
            let (s1, ctx1, first) = s.build_expression(
                ctx,
                accessing(AccessKind::ReadWrite),
                &*left,
                pending,
            );
            let (t, later, built) = s.build_arithmetic_assignment_expr(ctx, &expr, pending);
            match first {
                Some(l) => {
                    let target = match s1.assignment_target(&ctx1, &l) {
                        AssignmentTarget::Variable(target) => Some(target),
                        AssignmentTarget::Memory(target) => Some(target),
                        _ => None,
                    };
                    match target {
                        Some(of) => {
                            &&& !is_a_scalar(of) ==> built is None && more_is_reported(s, t)
                            &&& is_a_scalar(of) ==> {
                                let (s2, ctx2, second) = s1.build_expression(
                                    ctx1,
                                    reading(of),
                                    &*right,
                                    pending,
                                );
                                match second {
                                    Some(r) => !is_a_literal(r.ty) ==> {
                                        &&& built matches Some(whole) && whole.ty == ty::UNIT
                                            && is_operation(whole, operator, l, r)
                                        &&& !s2.coercible(r.ty, of).1 ==> more_is_reported(s, t)
                                    },
                                    None => built is None,
                                }
                            }
                        },
                        None => more_is_reported(s, t),
                    }
                },
                None => built is None,
            }
        }),
{
    broadcast use growth::group_finishing;

    s.adds_build_expression(ctx, accessing(AccessKind::ReadWrite), &*left, pending);
    let (s1, ctx1, first) = s.build_expression(
        ctx,
        accessing(AccessKind::ReadWrite),
        &*left,
        pending,
    );
    match first {
        Some(l) => {
            match s1.assignment_target(&ctx1, &l) {
                AssignmentTarget::Variable(target) | AssignmentTarget::Memory(target) => {
                    s1.adds_build_expression(ctx1, reading(target), &*right, pending);
                    let (s2, ctx2, second) = s1.build_expression(
                        ctx1,
                        reading(target),
                        &*right,
                        pending,
                    );
                    match second {
                        Some(r) => {
                            law_operand_fits_or_is_reported(
                                s2,
                                ctx2,
                                operator,
                                crate::shape::spanned(target, l.span),
                                r,
                            );
                        },
                        None => {},
                    }
                },
                _ => {},
            }
        },
        None => {},
    }
    reveal(State::report);
    reveal(State::only_adds);
    reveal(State::grows_to);
}

// ---------------------------------------------------------------- matches and jumps

/// A match on a value that cannot be matched on, and one without arms, are
/// reported.
pub proof fn law_match_needs_a_value_and_arms<'ast>(
    s: State<'ast>,
    ctx: ExprContext,
    access: AccessContext,
    expr: Spanned<ast::Expression>,
    scrutinee: Box<Spanned<ast::Expression>>,
    arms: List<ast::MatchArm>,
    pending: spec_fn(State<'ast>, DefId) -> State<'ast>,
)
    requires
        expr.inner == (ast::Expression::Match { scrutinee, arms }),
    ensures
        ({
            let (s1, ctx1, value) = s.build_expression(
                ctx,
                reading(ty::INFER),
                &*scrutinee,
                pending,
            );
            let (t, later, built) = s.build_match_expression(ctx, access, &expr, pending);
            match value {
                Some(on) => {
                    &&& !s1.is_matchable(on.ty) || arms is Nil ==> built is None
                        && more_is_reported(s1, t)
                    &&& built matches Some(whole) ==> (whole.kind matches ExprKind::Match {
                        scrutinee: kept,
                        arms: _,
                    } && *kept == on)
                },
                None => built is None,
            }
        }),
{
    reveal(State::report);
    reveal(State::finish_match);
}

/// `_` on the left of an arm matches everything.
pub proof fn law_wildcard_arm<'ast>(
    s: State<'ast>,
    ctx: ExprContext,
    scrutinee: TypeIndex,
    pattern: Spanned<ast::Expression>,
    pending: spec_fn(State<'ast>, DefId) -> State<'ast>,
)
    requires
        pattern.inner is Placeholder,
    ensures
        s.build_pattern(ctx, scrutinee, &pattern, pending) == (s, ctx, Some(Pattern::Wildcard)),
{
}

/// `break` leaves the scope that a jump goes to; where there is none it is
/// reported. What comes after it is never reached.
pub proof fn law_break_expression<'ast>(
    s: State<'ast>,
    ctx: ExprContext,
    expr: Spanned<ast::Expression>,
    label: Option<Spanned<Symbol>>,
    value: Option<Box<Spanned<ast::Expression>>>,
    pending: spec_fn(State<'ast>, DefId) -> State<'ast>,
)
    requires
        expr.inner == (ast::Expression::Break { label, value }),
    ensures
        ({
            let (s1, ctx1, target) = s.jump_target(ctx, label, expr.span, true);
            let (t, later, built) = s.build_break_expression(ctx, &expr, pending);
            &&& built matches Some(whole) ==> whole.ty == ty::NEVER
            &&& target is None ==> more_is_reported(s, t) && built is Some
            &&& built matches Some(whole) ==> (whole.kind matches ExprKind::Break {
                scope_index,
                value: given,
            } ==> Some(scope_index) == target && (given is Some <==> value is Some))
            &&& target is Some && value is None ==> (built matches Some(whole) && whole.kind
                is Break)
        }),
{
    law_where_jumps_go(s, ctx, label, expr.span, true);
    reveal(State::finish_plain_break);
}

// ---------------------------------------------------------------- scopes

/// A scope that is entered is the innermost one, and is found at its index;
/// the scopes around it stay. Leaving it goes back to the outer one.
pub proof fn law_entered_scope(ctx: ExprContext, block: BlockScope, outer: usize)
    requires
        ctx.stack.scopes.count() <= usize::MAX,
    ensures
        ({
            let inside = ctx.entered(block);
            &&& inside.scope_at(inside.scope_index) == Some(block)
            &&& forall|i: usize|
                i < ctx.stack.scopes.count() ==> #[trigger] inside.scope_at(i) == ctx.scope_at(i)
            &&& inside.stack.labels == ctx.stack.labels
            &&& inside.left_to(outer).scope_index == outer
            &&& inside.left_to(outer).stack == inside.stack
        }),
{
    appended(ctx.stack.scopes, block);
}

proof fn appended<T>(list: List<T>, last: T)
    ensures
        list.snoc(last).at(list.count()) == Some(last),
        forall|i: nat| i < list.count() ==> #[trigger] list.snoc(last).at(i) == list.at(i),
    decreases list,
{
    match list {
        List::Nil => {},
        List::Cons(_, rest) => {
            appended(*rest, last);
            assert forall|i: nat| i < list.count() implies #[trigger] list.snoc(last).at(i)
                == list.at(i) by {
                if i > 0 {
                    assert(list.snoc(last).at(i) == rest.snoc(last).at((i - 1) as nat));
                }
            }
        },
    }
}

/// A label that is declared is found at its index, and has no uses yet.
pub proof fn law_declared_label(ctx: ExprContext, name: Spanned<Symbol>)
    requires
        ctx.stack.labels.count() <= usize::MAX,
    ensures
        ctx.with_label(name).stack.labels.at(ctx.next_label() as nat) == Some(
            LabelInfo { name, accesses: List::Nil },
        ),
        ctx.with_label(name).stack.scopes == ctx.stack.scopes,
{
    appended(ctx.stack.labels, LabelInfo { name, accesses: List::Nil });
}

/// A new scope has no locals, nothing is settled of it, and it lies in the
/// scope around it.
pub proof fn law_new_scope(
    parent: Option<usize>,
    label: Option<usize>,
    kind: BlockKind,
    span: TextSpan,
    expected: TypeIndex,
)
    ensures
        ({
            let block = new_block(parent, label, kind, span, expected);
            &&& block.parent == parent && block.label == label && block.kind == kind
            &&& block.locals is Nil
            &&& block.inferred_type == ty::INFER
            &&& block.expected_type == expected
        }),
{
}

// ---------------------------------------------------------------- statements

/// What follows a statement that never ends is reported.
pub proof fn law_code_after_a_jump_is_reported<'ast>(
    s: State<'ast>,
    ctx: ExprContext,
    statements: List<Statement>,
    span: TextSpan,
    pending: spec_fn(State<'ast>, DefId) -> State<'ast>,
)
    requires
        growth::resolver_adds(pending),
        ({
            let (expressions, stops) = s.build_block_statements(
                ctx,
                &statements,
                List::Nil,
                pending,
            ).2;
            stops && expressions.len() < statements.count()
        }),
    ensures
        more_is_reported(s, s.build_block_expression(ctx, &statements, span, pending).0),
{
    s.adds_build_block_statements(ctx, &statements, List::Nil, pending);
    let (t, later, (expressions, stops)) = s.build_block_statements(
        ctx,
        &statements,
        List::Nil,
        pending,
    );
    law_unreachable_statements_are_reported(
        t,
        later.resolve_context.file_id,
        statements,
        expressions.len(),
    );
    reveal(State::only_adds);
    reveal(State::grows_to);
}

/// `local` with an annotation reports a value, other than a number literal,
/// that cannot be used as the annotated type.
pub proof fn law_annotated_definition<'ast>(
    s: State<'ast>,
    ctx: ExprContext,
    statement: Statement,
    pending: spec_fn(State<'ast>, DefId) -> State<'ast>,
)
    requires
        growth::resolver_adds(pending),
        statement.kind is LocalDefinition,
    ensures
        ({
            let written = statement.kind->LocalDefinition_ty;
            let value = statement.kind->LocalDefinition_value;
            let (s1, expected) = s.resolve_annotation(
                ctx.resolve_context,
                ctx.scope,
                &written,
                pending,
            );
            let (s2, _, built) = s1.build_expression(ctx, reading(expected), &value, pending);
            (built matches Some(given) && expected != ty::INFER && !s2.has_infer(expected)
                && !is_a_literal(given.ty) && !s2.coercible(given.ty, expected).1)
                ==> more_is_reported(s, s.build_statement(ctx, &statement, pending).0)
        }),
{
    broadcast use growth::group_finishing;

    match statement.kind {
        StatementKind::LocalDefinition { pattern, ty: written, value } => {
            s.adds_resolve_annotation(ctx.resolve_context, ctx.scope, &written, pending);
            let (s1, expected) = s.resolve_annotation(
                ctx.resolve_context,
                ctx.scope,
                &written,
                pending,
            );
            s1.adds_build_expression(ctx, reading(expected), &value, pending);
            let (s2, ctx2, built) = s1.build_expression(ctx, reading(expected), &value, pending);
            match built {
                Some(given) => {
                    if expected != ty::INFER && !s2.has_infer(expected) && !is_a_literal(given.ty) {
                        law_annotated_local(s2, ctx2, pattern.span, given, expected);
                        let (s3, ctx3, (local_ty, local_value)) = s2.settle_local(
                            ctx2,
                            pattern.span,
                            value.span,
                            built,
                            expected,
                        );
                        s3.adds_define_locals(
                            ctx3,
                            &pattern,
                            local_ty,
                            local_value,
                            statement.span,
                            pending,
                        );
                    }
                },
                None => {},
            }
        },
        _ => {},
    }
    reveal(State::only_adds);
    reveal(State::grows_to);
}

} // verus!
