//! Blocks, branches, loops and jumps: which type each has, and what is
//! reported of them.

use vstd::prelude::*;

use crate::ast::Statement;
use crate::failures::more_is_reported;
use crate::interner;
use crate::list::List;
use crate::pool;
use crate::pool::differs_in_types_alone;
use crate::rules::bounds::same_but_reports;
use crate::rules::coercion::law_misfit_is_reported;
use crate::rules::operators::is_a_literal;
use crate::scope::ExprContext;
use crate::span::{FileId, SourceSpan, Spanned, Symbol, TextSpan};
use crate::state::State;
use crate::tir::{
    AccessKind, BlockScope, ConstValue, ExprKind, Expression, LabelInfo, Local, LocalAccess,
    MatchArm, Pattern, ResolveContext, StackFrame,
};
use crate::ty;
use crate::types::{Type, TypeIndex};
use crate::typing;

verus! {

// ---------------------------------------------------------------- branches

/// An `if` without `else` keeps its condition and its block; one whose block
/// has a value is reported.
pub proof fn law_if_without_else<'ast>(
    s: State<'ast>,
    context: ResolveContext,
    condition: Expression,
    then_block: Expression,
    span: TextSpan,
)
    ensures
        ({
            let (t, built) = s.finish_if(context, condition, then_block, span);
            &&& then_block.ty != ty::UNIT && then_block.ty != ty::NEVER ==> built is None
                && more_is_reported(s, t)
            &&& built matches Some(expr) ==> expr.span == span && (
            expr.kind matches ExprKind::IfElse { condition: c, then_block: b, else_block: e } && *c
                == condition && *b == then_block && e is None)
        }),
{
    reveal(State::finish_if);
    reveal(State::report);
}

/// The two blocks of an `if` agree on a type, which the `if` has then; if they
/// do not agree, that is reported.
pub proof fn law_if_with_else<'ast>(
    s: State<'ast>,
    ctx: ExprContext,
    condition: Expression,
    then_block: Expression,
    else_block: Expression,
    span: TextSpan,
)
    requires
        !is_a_literal(then_block.ty),
        !is_a_literal(else_block.ty),
    ensures
        ({
            let (t, later, built) = s.finish_if_else(
                ctx,
                condition,
                then_block,
                else_block,
                span,
            );
            match s.unified(then_block.ty, else_block.ty).1 {
                Some(agreed) => {
                    &&& t.diagnostics == s.diagnostics
                    &&& built matches Some(expr) && expr.ty == agreed && expr.span == span && (
                    expr.kind matches ExprKind::IfElse { condition: c, then_block: b, else_block: e }
                        && *c == condition && *b == then_block && e == Some(Box::new(else_block)))
                },
                None => built is None && more_is_reported(s, t),
            }
        }),
{
    reveal(State::finish_if_else);
    reveal(State::settle_literal);
    reveal(State::report);
    comparing_reports_nothing(s, then_block.ty, else_block.ty);
}

proof fn comparing_reports_nothing<'ast>(s: State<'ast>, a: TypeIndex, b: TypeIndex)
    ensures
        differs_in_types_alone(s, s.unified(a, b).0),
{
    match (s.ty(a), s.ty(b)) {
        (
            Type::FunctionItem { id: a_id, type_args: a_args },
            Type::FunctionItem { id: b_id, type_args: b_args },
        ) => {
            let depth = crate::relate::MAX_DEPTH;
            pool::law_substitution_changes_types_alone(s, s.signature_of(a_id), a_args, depth);
            let (t, _) = s.substituted(s.signature_of(a_id), a_args, depth);
            pool::law_substitution_changes_types_alone(t, s.signature_of(b_id), b_args, depth);
        },
        _ => {},
    }
}

/// A number literal in one block takes the type of the other block, which the
/// `if` has then.
pub proof fn law_literal_in_a_branch<'ast>(
    s: State<'ast>,
    ctx: ExprContext,
    condition: Expression,
    then_block: Expression,
    else_block: Expression,
    span: TextSpan,
)
    requires
        is_a_literal(then_block.ty) != is_a_literal(else_block.ty),
    ensures
        ({
            let (t, later, built) = s.finish_if_else(
                ctx,
                condition,
                then_block,
                else_block,
                span,
            );
            let (literal, other) = if is_a_literal(then_block.ty) {
                (then_block, else_block)
            } else {
                (else_block, then_block)
            };
            &&& built is Some <==> s.coerce_untyped_expr(ctx, literal, other.ty).2.1
            &&& built matches Some(expr) ==> expr.ty == other.ty && (
            expr.kind matches ExprKind::IfElse { condition: c, then_block: b, else_block: e } && *c
                == condition && b.ty == other.ty && (e matches Some(last) && last.ty == other.ty))
        }),
{
    reveal(State::finish_if_else);
    reveal(State::settle_literal);
    super::law_literal_takes_the_type(s, ctx, then_block, else_block.ty);
    super::law_literal_takes_the_type(s, ctx, else_block, then_block.ty);
}

// ---------------------------------------------------------------- matches

/// Whether an arm before a position has a pattern.
pub open spec fn matched_before(arms: List<MatchArm>, position: nat, pattern: Pattern) -> bool {
    exists|j: nat|
        j < position && ((#[trigger] arms.at(j)) matches Some(arm) && arm.pattern == pattern)
}

/// Whether some arm has a pattern.
pub open spec fn some_arm_has(arms: List<MatchArm>, pattern: Pattern) -> bool {
    exists|j: nat| (#[trigger] arms.at(j)) matches Some(arm) && arm.pattern == pattern
}

/// A pattern is covered exactly where some arm has it.
pub proof fn law_covered_pattern(arms: List<MatchArm>, pattern: Pattern)
    ensures
        typing::arms_cover(&arms, pattern) <==> some_arm_has(arms, pattern),
    decreases arms,
{
    match arms {
        List::Nil => {},
        List::Cons(head, rest) => {
            law_covered_pattern(*rest, pattern);
            assert(arms.at(0) == Some(*head));
            if some_arm_has(*rest, pattern) {
                let j = choose|j: nat|
                    (#[trigger] rest.at(j)) matches Some(arm) && arm.pattern == pattern;
                assert(arms.at(j + 1) == rest.at(j));
            }
            if some_arm_has(arms, pattern) && head.pattern != pattern {
                let j = choose|j: nat|
                    (#[trigger] arms.at(j)) matches Some(arm) && arm.pattern == pattern;
                assert(rest.at((j - 1) as nat) == arms.at(j));
            }
        },
    }
}

/// The match of an enum covers every value exactly where an arm is a wildcard
/// or every variant has an arm; any other match exactly where an arm is a
/// wildcard. What it does not cover is reported.
pub proof fn law_match_covers_every_value<'ast>(
    s: State<'ast>,
    file_id: FileId,
    scrutinee: TypeIndex,
    arms: List<MatchArm>,
    span: TextSpan,
)
    ensures
        ({
            let (t, covers) = s.check_match_exhaustiveness(file_id, scrutinee, &arms, span);
            let wildcard = some_arm_has(arms, Pattern::Wildcard);
            &&& covers ==> t == s
            &&& !covers ==> more_is_reported(s, t)
            &&& wildcard ==> covers
            &&& !wildcard ==> match s.ty(scrutinee) {
                Type::Enum { enum_index } => enum_index < s.enums.len() && s.enums[
                    enum_index as int
                ].variants.count() <= usize::MAX ==> {
                    let variants = s.enums[enum_index as int].variants;
                    covers <==> (forall|i: nat|
                        i < variants.count() ==> some_arm_has(
                            arms,
                            Pattern::EnumVariant { enum_index, variant_index: #[trigger] as_index(i) },
                        ))
                },
                _ => !covers,
            }
        }),
{
    reveal(State::check_match_exhaustiveness);
    reveal(State::report);
    law_covered_pattern(arms, Pattern::Wildcard);
    match s.ty(scrutinee) {
        Type::Enum { enum_index } => {
            if enum_index < s.enums.len() {
                let variants = s.enums[enum_index as int].variants;
                if variants.count() <= usize::MAX {
                    variants_without_an_arm(variants, arms, enum_index, 0);
                }
            }
        },
        _ => {},
    }
}

/// A position as an index.
pub open spec fn as_index(position: nat) -> usize {
    position as usize
}

proof fn variants_without_an_arm(
    variants: List<crate::tir::EnumVariant>,
    arms: List<MatchArm>,
    enum_index: usize,
    from: usize,
)
    requires
        from + variants.count() <= usize::MAX,
    ensures
        typing::uncovered_variants(&variants, &arms, enum_index, from) is Nil <==> (forall|i: nat|
            from <= i < from + variants.count() ==> some_arm_has(
                arms,
                Pattern::EnumVariant { enum_index, variant_index: #[trigger] as_index(i) },
            )),
    decreases variants,
{
    match variants {
        List::Nil => {},
        List::Cons(head, rest) => {
            let next = crate::scope::next_index(from);
            variants_without_an_arm(*rest, arms, enum_index, next);
            let pattern = Pattern::EnumVariant { enum_index, variant_index: from };
            law_covered_pattern(arms, pattern);
            assert(as_index(from as nat) == from);
            let left = typing::uncovered_variants(&variants, &arms, enum_index, from);
            let left_rest = typing::uncovered_variants(&*rest, &arms, enum_index, next);
            if left is Nil {
                assert(left_rest is Nil);
                assert forall|i: nat| from <= i < from + variants.count() implies some_arm_has(
                    arms,
                    Pattern::EnumVariant { enum_index, variant_index: #[trigger] as_index(i) },
                ) by {
                    if i == from {
                    } else {
                        assert(next <= i < next + rest.count());
                    }
                }
            }
        },
    }
}

/// An arm is reported as unreachable exactly where an earlier arm is a
/// wildcard or has its pattern.
pub proof fn law_unreachable_arms_are_reported<'ast>(
    s: State<'ast>,
    file_id: FileId,
    arms: List<MatchArm>,
)
    ensures
        ({
            let t = s.report_unreachable_arms(file_id, &arms, &List::Nil);
            let unreachable = exists|i: nat|
                (#[trigger] arms.at(i)) matches Some(arm) && (matched_before(
                    arms,
                    i,
                    Pattern::Wildcard,
                ) || matched_before(arms, i, arm.pattern));
            &&& unreachable ==> more_is_reported(s, t)
            &&& !unreachable ==> t == s
            &&& same_but_reports(s, t)
        }),
{
    arms_after_others(s, file_id, arms, List::Nil);
    assert forall|i: nat, pattern: Pattern|
        matched_before(arms, i, pattern) == #[trigger] matched_after(
            List::Nil,
            arms,
            i,
            pattern,
        ) by {}
    if exists|i: nat|
        (#[trigger] arms.at(i)) matches Some(arm) && (matched_before(arms, i, Pattern::Wildcard)
            || matched_before(arms, i, arm.pattern)) {
        let i = choose|i: nat|
            (#[trigger] arms.at(i)) matches Some(arm) && (matched_before(
                arms,
                i,
                Pattern::Wildcard,
            ) || matched_before(arms, i, arm.pattern));
        assert(matched_after(List::Nil, arms, i, Pattern::Wildcard) == matched_before(
            arms,
            i,
            Pattern::Wildcard,
        ));
        assert(matched_after(List::Nil, arms, i, arms.at(i)->0.pattern) == matched_before(
            arms,
            i,
            arms.at(i)->0.pattern,
        ));
    } else {
        assert forall|i: nat| (#[trigger] arms.at(i)) is Some implies !matched_after(
            List::Nil,
            arms,
            i,
            Pattern::Wildcard,
        ) && !matched_after(List::Nil, arms, i, arms.at(i)->0.pattern) by {
            assert(!matched_before(arms, i, Pattern::Wildcard));
            assert(!matched_before(arms, i, arms.at(i)->0.pattern));
        }
    }
}

/// Whether a pattern was seen, or an arm before a position has it.
spec fn matched_after(
    seen: List<Pattern>,
    arms: List<MatchArm>,
    position: nat,
    pattern: Pattern,
) -> bool {
    typing::lists_pattern(&seen, pattern) || matched_before(arms, position, pattern)
}

proof fn arms_after_others<'ast>(
    s: State<'ast>,
    file_id: FileId,
    arms: List<MatchArm>,
    seen: List<Pattern>,
)
    ensures
        ({
            let t = s.report_unreachable_arms(file_id, &arms, &seen);
            let unreachable = exists|i: nat|
                (#[trigger] arms.at(i)) matches Some(arm) && (matched_after(
                    seen,
                    arms,
                    i,
                    Pattern::Wildcard,
                ) || matched_after(seen, arms, i, arm.pattern));
            &&& unreachable ==> more_is_reported(s, t)
            &&& !unreachable ==> t == s
            &&& same_but_reports(s, t)
            &&& s.diagnostics.len() <= t.diagnostics.len()
        }),
    decreases arms,
{
    reveal(State::report);
    match arms {
        List::Nil => {},
        List::Cons(head, rest) => {
            let extended = crate::list::cons(head.pattern, seen);
            let reached = !(typing::lists_pattern(&seen, Pattern::Wildcard)
                || typing::lists_pattern(&seen, head.pattern));
            let t = if reached {
                s
            } else {
                s.report(
                    crate::reports::report_unreachable_match_arm(
                        SourceSpan::new(file_id, head.pattern_span),
                    ),
                )
            };
            arms_after_others(t, file_id, *rest, extended);
            assert(arms.at(0) == Some(*head));
            assert forall|i: nat| #[trigger] rest.at(i) == arms.at(i + 1) by {}
            assert forall|i: nat, pattern: Pattern|
                #[trigger] matched_after(extended, *rest, i, pattern) == matched_after(
                    seen,
                    arms,
                    i + 1,
                    pattern,
                ) by {
                if matched_before(*rest, i, pattern) {
                    let j = choose|j: nat|
                        j < i && ((#[trigger] rest.at(j)) matches Some(arm) && arm.pattern
                            == pattern);
                    assert(arms.at(j + 1) == rest.at(j));
                }
                if matched_before(arms, i + 1, pattern) {
                    let j = choose|j: nat|
                        j < i + 1 && ((#[trigger] arms.at(j)) matches Some(arm) && arm.pattern
                            == pattern);
                    if j > 0 {
                        assert(rest.at((j - 1) as nat) == arms.at(j));
                    }
                }
                if head.pattern == pattern {
                    assert(arms.at(0) matches Some(arm) && arm.pattern == pattern);
                }
            }
            assert(!matched_before(arms, 0, Pattern::Wildcard));
            assert(!matched_before(arms, 0, head.pattern));
            if exists|i: nat|
                (#[trigger] arms.at(i)) matches Some(arm) && (matched_after(
                    seen,
                    arms,
                    i,
                    Pattern::Wildcard,
                ) || matched_after(seen, arms, i, arm.pattern)) {
                let i = choose|i: nat|
                    (#[trigger] arms.at(i)) matches Some(arm) && (matched_after(
                        seen,
                        arms,
                        i,
                        Pattern::Wildcard,
                    ) || matched_after(seen, arms, i, arm.pattern));
                if i > 0 {
                    let k = (i - 1) as nat;
                    assert(rest.at(k) == arms.at(i));
                    assert(matched_after(extended, *rest, k, Pattern::Wildcard) == matched_after(
                        seen,
                        arms,
                        i,
                        Pattern::Wildcard,
                    ));
                    assert(matched_after(extended, *rest, k, arms.at(i)->0.pattern)
                        == matched_after(seen, arms, i, arms.at(i)->0.pattern));
                } else {
                    assert(!reached);
                }
            } else {
                assert(!matched_after(seen, arms, 0, head.pattern) && !matched_after(
                    seen,
                    arms,
                    0,
                    Pattern::Wildcard,
                ));
                assert forall|k: nat| (#[trigger] rest.at(k)) is Some implies !matched_after(
                    extended,
                    *rest,
                    k,
                    Pattern::Wildcard,
                ) && !matched_after(extended, *rest, k, rest.at(k)->0.pattern) by {
                    assert(arms.at(k + 1) == rest.at(k));
                }
            }
        },
    }
}

/// The pattern of a constant is the constant, for a value of its type: an
/// integer for an integer type, a `bool` for `bool` and a character for
/// `char`. Nothing else is a pattern.
pub proof fn law_pattern_of_a_constant(value: Option<ConstValue>, scrutinee: TypeIndex)
    ensures
        typing::pattern_of_constant(value, scrutinee) matches Some(pattern) ==> match pattern {
            Pattern::Int(v) => value == Some(ConstValue::Int(v)) && ty::is_integer(scrutinee),
            Pattern::Bool(v) => value == Some(ConstValue::Bool(v)) && scrutinee == ty::BOOL,
            Pattern::Char(v) => value == Some(ConstValue::Char(v)) && scrutinee == ty::CHAR,
            _ => false,
        },
        value matches Some(ConstValue::Int(v)) ==> (ty::is_integer(scrutinee)
            ==> typing::pattern_of_constant(value, scrutinee) == Some(Pattern::Int(v))),
        value matches Some(ConstValue::Bool(v)) ==> (scrutinee == ty::BOOL
            ==> typing::pattern_of_constant(value, scrutinee) == Some(Pattern::Bool(v))),
        value matches Some(ConstValue::Char(v)) ==> (scrutinee == ty::CHAR
            ==> typing::pattern_of_constant(value, scrutinee) == Some(Pattern::Char(v))),
{
}

/// The pattern of a match on an enum is a variant of that enum, and one of
/// anything else is reported.
pub proof fn law_pattern_of_a_variant<'ast>(
    s: State<'ast>,
    ctx: ExprContext,
    built: Expression,
    scrutinee: TypeIndex,
    span: TextSpan,
)
    requires
        s.ty(scrutinee) is Enum,
    ensures
        ({
            let (t, later, pattern) = s.pattern_of_expression(ctx, built, scrutinee, span);
            &&& pattern is None ==> more_is_reported(s, t)
            &&& pattern is Some ==> t == s
            &&& pattern matches Some(found) ==> built.ty == scrutinee && (
            found matches Pattern::EnumVariant { enum_index: e, variant_index: v } && (
            built.kind matches ExprKind::NamespaceAccess { namespace: _, member } && member.kind
                == (ExprKind::EnumVariant { enum_index: e, variant_index: v })))
            &&& built.ty == scrutinee && (built.kind matches ExprKind::NamespaceAccess {
                namespace: _,
                member,
            } && member.kind is EnumVariant) ==> pattern is Some
        }),
{
    reveal(State::pattern_of_expression);
    reveal(State::report);
}

/// The types that can be matched on.
pub proof fn law_what_can_be_matched_on<'ast>(s: State<'ast>, index: TypeIndex)
    ensures
        s.is_matchable(index) <==> s.ty(index) is Enum || index == ty::BOOL || index == ty::CHAR
            || ty::is_integer(index),
{
}

/// The arms of a match keep their patterns, in order, and those that are no
/// number literals their values.
pub proof fn law_arms_stay_in_order<'ast>(
    s: State<'ast>,
    ctx: ExprContext,
    arms: List<MatchArm>,
    target: TypeIndex,
    so_far: TypeIndex,
)
    ensures
        s.unify_arms(ctx, arms, target, so_far).2 matches Some((unified, _)) ==> {
            &&& unified.count() == arms.count()
            &&& forall|i: nat|
                (#[trigger] unified.at(i)) matches Some(arm) ==> (arms.at(i) matches Some(before)
                    && arm.pattern == before.pattern && arm.pattern_span == before.pattern_span && (
                !is_a_literal(before.body.ty) ==> arm.body == before.body) && (is_a_literal(
                    before.body.ty,
                ) && !is_a_literal(target) ==> arm.body.ty == target))
        },
    decreases arms,
{
    reveal(State::settle_literal);
    match arms {
        List::Nil => {},
        List::Cons(arm, rest) => {
            super::law_literal_takes_the_type(s, ctx, arm.body, target);
            let (t, later, body) = s.settle_arm(ctx, arm.body, target);
            match body {
                Some(body) => {
                    let (u, unified) = t.unified(so_far, body.ty);
                    match unified {
                        Some(agreed) => {
                            law_arms_stay_in_order(u, later, *rest, target, agreed);
                            let (_, _, all) = s.unify_arms(ctx, arms, target, so_far);
                            let (_, _, others) = u.unify_arms(later, *rest, target, agreed);
                            match (all, others) {
                                (Some((list, _)), Some((tail, _))) => {
                                    assert forall|i: nat| i > 0 implies #[trigger] list.at(i)
                                        == tail.at((i - 1) as nat) && arms.at(i) == rest.at(
                                        (i - 1) as nat,
                                    ) by {}
                                    assert(list.at(0) is Some && arms.at(0) == Some(*arm));
                                },
                                _ => {},
                            }
                        },
                        None => {},
                    }
                },
                None => {},
            }
        },
    }
}

/// The arms of a match agree where all have one type, and an arm that agrees
/// with none is reported.
pub proof fn law_arms_agree_or_are_reported<'ast>(
    s: State<'ast>,
    ctx: ExprContext,
    arms: List<MatchArm>,
    target: TypeIndex,
    so_far: TypeIndex,
)
    requires
        !is_a_literal(target),
        forall|i: nat| (#[trigger] arms.at(i)) matches Some(arm) ==> !is_a_literal(arm.body.ty),
    ensures
        ({
            let (t, later, found) = s.unify_arms(ctx, arms, target, so_far);
            &&& found is Some ==> t.diagnostics == s.diagnostics
            &&& found is None ==> more_is_reported(s, t)
            &&& (forall|i: nat|
                (#[trigger] arms.at(i)) matches Some(arm) ==> arm.body.ty == so_far) ==> (
            found matches Some((_, agreed)) && agreed == so_far)
        }),
    decreases arms,
{
    reveal(State::settle_literal);
    reveal(State::report);
    match arms {
        List::Nil => {},
        List::Cons(arm, rest) => {
            assert(arms.at(0) == Some(*arm));
            assert forall|i: nat| #[trigger] rest.at(i) == arms.at(i + 1) by {}
            comparing_reports_nothing(s, so_far, arm.body.ty);
            let (t, unified) = s.unified(so_far, arm.body.ty);
            match unified {
                Some(agreed) => {
                    law_arms_agree_or_are_reported(t, ctx, *rest, target, agreed);
                },
                None => {},
            }
        },
    }
}

// ---------------------------------------------------------------- blocks

/// A value that leaves a block is reported exactly where it does not fit what
/// the block's values have settled or, before any has, what is expected of the
/// block.
pub proof fn law_value_of_a_block<'ast>(
    s: State<'ast>,
    inferred: TypeIndex,
    expected: TypeIndex,
    value: TypeIndex,
    span: SourceSpan,
)
    requires
        !is_a_literal(value),
    ensures
        ({
            let (t, found) = s.infer_block_type(inferred, expected, value, span);
            let asked = if inferred != ty::INFER {
                inferred
            } else {
                expected
            };
            let fits = asked == ty::INFER || s.coercible(value, asked).1;
            &&& fits ==> t.diagnostics == s.diagnostics
            &&& !fits ==> more_is_reported(s, t)
            &&& inferred != ty::INFER ==> found == Some(inferred)
            &&& inferred == ty::INFER && fits ==> found == Some(value)
            &&& inferred == ty::INFER && !fits ==> found is None
        }),
{
    reveal(State::infer_block_type);
    if inferred != ty::INFER {
        law_misfit_is_reported(s, value, inferred, span);
    } else {
        law_misfit_is_reported(s, value, expected, span);
    }
}

/// A number literal that leaves a block takes what the block's values have
/// settled, otherwise what is expected of the block, otherwise stays open.
pub proof fn law_literal_as_a_block_value<'ast>(
    s: State<'ast>,
    inferred: TypeIndex,
    expected: TypeIndex,
    value: TypeIndex,
    span: SourceSpan,
)
    requires
        is_a_literal(value),
    ensures
        ({
            let (t, found) = s.infer_block_type(inferred, expected, value, span);
            &&& t == s
            &&& inferred != ty::INFER ==> found == Some(inferred)
            &&& inferred == ty::INFER && expected != ty::INFER ==> found == Some(expected)
            &&& inferred == ty::INFER && expected == ty::INFER ==> found == Some(value)
        }),
{
    reveal(State::infer_block_type);
}

/// A statement whose value nothing uses is reported, and no other is.
pub proof fn law_unused_value_is_reported<'ast>(
    s: State<'ast>,
    ctx: ExprContext,
    value: Expression,
)
    ensures
        ({
            let (t, later, built) = s.finish_expression_statement(ctx, value);
            let usable = value.ty == ty::UNIT || value.ty == ty::ERROR || value.ty == ty::NEVER;
            &&& usable ==> t == s && built == Some(value)
            &&& !usable ==> more_is_reported(s, t)
            &&& is_a_literal(value.ty) ==> built is None
            &&& !is_a_literal(value.ty) ==> built == Some(value)
            &&& value.ty != ty::NEVER ==> later == ctx
        }),
{
    reveal(State::finish_expression_statement);
    reveal(State::report);
}

/// After a statement that never ends, a block that has no value yet has none.
pub proof fn law_block_after_a_jump_never_ends<'ast>(
    s: State<'ast>,
    ctx: ExprContext,
    value: Expression,
)
    requires
        value.ty == ty::NEVER,
        ctx.scope_at(ctx.scope_index) is Some,
    ensures
        ({
            let (_, later, _) = s.finish_expression_statement(ctx, value);
            &&& ctx.inferred(ctx.scope_index) == ty::INFER ==> later.inferred(ctx.scope_index)
                == ty::NEVER
            &&& ctx.inferred(ctx.scope_index) != ty::INFER ==> later == ctx
        }),
{
    reveal(State::finish_expression_statement);
    law_settled_type_is_kept(ctx, ctx.scope_index, ty::NEVER, ctx.scope_index);
}

/// What is settled of a scope is read back, and nothing else of the scopes
/// changes with it.
pub proof fn law_settled_type_is_kept(
    ctx: ExprContext,
    index: usize,
    settled: TypeIndex,
    other: usize,
)
    ensures
        ({
            let later = ctx.with_inferred(index, settled);
            &&& ctx.scope_at(index) is Some ==> later.inferred(index) == settled
            &&& other != index ==> later.scope_at(other) == ctx.scope_at(other)
            &&& later.expected(other) == ctx.expected(other)
            &&& later.scope_index == ctx.scope_index
            &&& later.resolve_context == ctx.resolve_context
            &&& later.stack.labels == ctx.stack.labels
        }),
{
    match ctx.scope_at(index) {
        Some(scope) => {
            let changed = BlockScope { inferred_type: settled, ..scope };
            replaced_at(ctx.stack.scopes, index as nat, changed, other as nat);
            replaced_at(ctx.stack.scopes, index as nat, changed, index as nat);
        },
        None => {},
    }
}

proof fn replaced_at<T>(list: List<T>, index: nat, value: T, slot: nat)
    ensures
        list.at(index) is Some ==> list.replaced(index, value).at(index) == Some(value),
        slot != index ==> list.replaced(index, value).at(slot) == list.at(slot),
    decreases list,
{
    match list {
        List::Nil => {},
        List::Cons(head, rest) => {
            if index > 0 {
                replaced_at(*rest, (index - 1) as nat, value, if slot > 0 {
                    (slot - 1) as nat
                } else {
                    index
                });
            }
        },
    }
}

/// A block without a value is a `()`, unless a jump out of it settled its type
/// before.
pub proof fn law_block_without_a_value<'ast>(s: State<'ast>, ctx: ExprContext)
    requires
        ctx.scope_at(ctx.scope_index) is Some,
    ensures
        ({
            let (t, later, built) = s.finish_block_result(ctx, None);
            &&& t == s
            &&& built == Some(None::<Expression>)
            &&& later.inferred(ctx.scope_index) == (if ctx.inferred(ctx.scope_index) == ty::INFER {
                ty::UNIT
            } else {
                ctx.inferred(ctx.scope_index)
            })
        }),
{
    reveal(State::finish_block_result);
    let settled = if ctx.inferred(ctx.scope_index) == ty::INFER {
        ty::UNIT
    } else {
        ctx.inferred(ctx.scope_index)
    };
    law_settled_type_is_kept(ctx, ctx.scope_index, settled, ctx.scope_index);
}

/// A block whose value is no literal keeps the value and has, where no jump
/// settled its type before, the value's type.
pub proof fn law_block_with_a_value<'ast>(s: State<'ast>, ctx: ExprContext, value: Expression)
    requires
        ctx.scope_at(ctx.scope_index) is Some,
        !is_a_literal(value.ty),
    ensures
        ({
            let index = ctx.scope_index;
            let (t, later, built) = s.finish_block_result(ctx, Some(value));
            let asked = if ctx.inferred(index) != ty::INFER {
                ctx.inferred(index)
            } else {
                ctx.expected(index)
            };
            let fits = asked == ty::INFER || s.coercible(value.ty, asked).1;
            &&& fits ==> t.diagnostics == s.diagnostics && built == Some(Some(value))
            &&& !fits ==> more_is_reported(s, t)
            &&& ctx.inferred(index) == ty::INFER && fits ==> later.inferred(index) == value.ty
            &&& ctx.inferred(index) != ty::INFER ==> later.inferred(index) == ctx.inferred(index)
        }),
{
    reveal(State::finish_block_result);
    let index = ctx.scope_index;
    let span = ctx.resolve_context.at(value.span);
    law_value_of_a_block(s, ctx.inferred(index), ctx.expected(index), value.ty, span);
    law_settled_type_is_kept(ctx, index, value.ty, index);
    law_settled_type_is_kept(ctx, index, ctx.inferred(index), index);
}

/// Statements after one that never ends are reported exactly where there are
/// any.
pub proof fn law_unreachable_statements_are_reported<'ast>(
    s: State<'ast>,
    file_id: FileId,
    statements: List<Statement>,
    built: usize,
)
    ensures
        built < statements.count() ==> more_is_reported(
            s,
            s.report_unreachable_statements(file_id, &statements, built),
        ),
        built >= statements.count() ==> s.report_unreachable_statements(file_id, &statements, built)
            == s,
{
    reveal(State::report_unreachable_statements);
    reveal(State::report);
    statement_has_a_place(statements, built);
    last_statement_has_a_place(statements);
}

proof fn statement_has_a_place(statements: List<Statement>, number: usize)
    ensures
        typing::span_of_statement(&statements, number) is Some <==> number < statements.count(),
    decreases statements,
{
    match statements {
        List::Nil => {},
        List::Cons(_, rest) => {
            if number > 0 {
                statement_has_a_place(*rest, (number - 1) as usize);
            }
        },
    }
}

proof fn last_statement_has_a_place(statements: List<Statement>)
    ensures
        typing::span_of_last_statement(&statements) is Some <==> statements.count() > 0,
    decreases statements,
{
    match statements {
        List::Nil => {},
        List::Cons(_, rest) => {
            last_statement_has_a_place(*rest);
        },
    }
}

// ---------------------------------------------------------------- locals

/// A local with an annotation has the annotated type. A value that is no
/// number literal and does not fit it is reported, and no other is.
pub proof fn law_annotated_local<'ast>(
    s: State<'ast>,
    ctx: ExprContext,
    pattern_span: TextSpan,
    value: Expression,
    expected: TypeIndex,
)
    requires
        expected != ty::INFER,
        !s.has_infer(expected),
        !is_a_literal(value.ty),
    ensures
        ({
            let (t, later, (found, kept)) = s.resolve_local_type(
                ctx,
                pattern_span,
                value,
                expected,
            );
            &&& found == expected
            &&& kept == value
            &&& s.coercible(value.ty, expected).1 ==> t.diagnostics == s.diagnostics
            &&& !s.coercible(value.ty, expected).1 ==> more_is_reported(s, t)
        }),
{
    reveal(State::resolve_local_type);
    law_misfit_is_reported(s, value.ty, expected, ctx.resolve_context.at(value.span));
}

/// A local without an annotation has the type of its value, which must be
/// known; where it is not, an annotation is asked for.
pub proof fn law_local_without_annotation<'ast>(
    s: State<'ast>,
    ctx: ExprContext,
    pattern_span: TextSpan,
    value: Expression,
)
    ensures
        ({
            let (t, later, (found, kept)) = s.resolve_local_type(
                ctx,
                pattern_span,
                value,
                ty::INFER,
            );
            let open = s.has_comptime_number(value.ty) || s.has_infer(value.ty);
            &&& kept == value
            &&& !open ==> t == s && found == value.ty
            &&& open ==> more_is_reported(s, t) && found == ty::ERROR
        }),
{
    reveal(State::resolve_local_type);
    reveal(State::report);
}

/// A number literal takes the annotated type, and the local is poisoned where
/// it does not fit. Where the annotation is open in a part, the local has the
/// value's type, or the value is reported.
pub proof fn law_local_of_a_literal_or_open_type<'ast>(
    s: State<'ast>,
    ctx: ExprContext,
    pattern_span: TextSpan,
    value: Expression,
    expected: TypeIndex,
)
    requires
        expected != ty::INFER,
    ensures
        ({
            let (t, later, (found, kept)) = s.resolve_local_type(
                ctx,
                pattern_span,
                value,
                expected,
            );
            &&& is_a_literal(value.ty) ==> {
                let fits = s.coerce_untyped_expr(ctx, value, expected).2.1;
                &&& fits ==> found == expected && kept.ty == expected
                &&& !fits ==> found == ty::ERROR
            }
            &&& value.ty == ty::ERROR ==> t == s && found == expected
            &&& !is_a_literal(value.ty) && value.ty != ty::ERROR && s.has_infer(expected) ==> {
                &&& s.satisfies(value.ty, expected) ==> t == s && found == value.ty
                &&& !s.satisfies(value.ty, expected) ==> more_is_reported(s, t)
            }
        }),
{
    reveal(State::resolve_local_type);
    reveal(State::report);
    super::law_literal_takes_the_type(s, ctx, value, expected);
}

/// A local whose value failed keeps the annotated type, and is poisoned where
/// there is none.
pub proof fn law_local_of_a_failed_value<'ast>(
    s: State<'ast>,
    ctx: ExprContext,
    pattern_span: TextSpan,
    value_span: TextSpan,
    expected: TypeIndex,
)
    ensures
        ({
            let (t, later, (found, value)) = s.settle_local(
                ctx,
                pattern_span,
                value_span,
                None,
                expected,
            );
            &&& t == s && later == ctx
            &&& expected != ty::INFER ==> found == expected
            &&& expected == ty::INFER ==> found == ty::ERROR
            &&& value.ty == ty::ERROR
        }),
{
}

// ---------------------------------------------------------------- loops and jumps

/// A loop has the type of the values that it is left with, if that fits where
/// a type is expected; if it does not, that is reported.
pub proof fn law_loop_has_the_type_of_its_values<'ast>(
    s: State<'ast>,
    ctx: ExprContext,
    block: Expression,
    span: TextSpan,
)
    requires
        ctx.inferred(ctx.scope_index) != ty::INFER,
    ensures
        ({
            let settled = ctx.inferred(ctx.scope_index);
            let expected = ctx.expected(ctx.scope_index);
            let (t, later, built) = s.finish_loop(ctx, block, span);
            let fits = expected == ty::INFER || s.coercible(settled, expected).1;
            &&& fits ==> t.diagnostics == s.diagnostics && (built matches Some(expr) && expr.ty
                == settled && (expr.kind matches ExprKind::Loop { scope_index, block: b }
                && scope_index == ctx.scope_index && *b == block))
            &&& !fits ==> built is None && more_is_reported(s, t)
        }),
{
    reveal(State::finish_loop);
    law_misfit_is_reported(
        s,
        ctx.inferred(ctx.scope_index),
        ctx.expected(ctx.scope_index),
        ctx.resolve_context.at(span),
    );
}

/// A jump with a label goes to the scope that carries the label, one without
/// to the closest loop. Where there is none, that is reported.
pub proof fn law_where_jumps_go<'ast>(
    s: State<'ast>,
    ctx: ExprContext,
    label: Option<Spanned<Symbol>>,
    span: TextSpan,
    leaves: bool,
)
    ensures
        ({
            let (t, later, target) = s.jump_target(ctx, label, span, leaves);
            let place = match label {
                Some(name) => match ctx.label_named(name.inner) {
                    Some((scope_index, _)) => Some(scope_index),
                    None => None,
                },
                None => ctx.closest_loop(),
            };
            &&& target == place
            &&& target is Some ==> t == s
            &&& target is None ==> more_is_reported(s, t)
        }),
{
    reveal(State::jump_target);
    reveal(State::report);
}

/// `continue` goes where a jump goes; where there is no such place it is
/// poisoned.
pub proof fn law_continue_goes_to_its_loop<'ast>(
    s: State<'ast>,
    ctx: ExprContext,
    label: Option<Spanned<Symbol>>,
    span: TextSpan,
)
    ensures
        ({
            let (t, _, target) = s.jump_target(ctx, label, span, false);
            let (u, _, built) = s.build_continue_expression(ctx, label, span);
            &&& u == t
            &&& target matches Some(place) ==> built.kind == (ExprKind::Continue {
                scope_index: place,
            })
            &&& target is None ==> built.kind is Error
        }),
{
    reveal(State::build_continue_expression);
}

/// `break` without a value leaves its scope with a `()`: reported exactly
/// where the scope's other values are of a type that `()` does not fit.
pub proof fn law_break_without_a_value<'ast>(
    s: State<'ast>,
    ctx: ExprContext,
    scope_index: usize,
    span: TextSpan,
)
    requires
        ctx.scope_at(scope_index) is Some,
    ensures
        ({
            let settled = ctx.inferred(scope_index);
            let (t, later, built) = s.finish_plain_break(ctx, scope_index, span);
            &&& built.kind matches ExprKind::Break { scope_index: place, value } && place
                == scope_index && value is None
            &&& settled == ty::INFER ==> t == s && later.inferred(scope_index) == ty::UNIT
            &&& settled != ty::INFER ==> later == ctx
            &&& settled != ty::INFER && s.coercible(ty::UNIT, settled).1 ==> t.diagnostics
                == s.diagnostics
            &&& settled != ty::INFER && !s.coercible(ty::UNIT, settled).1 ==> more_is_reported(s, t)
        }),
{
    reveal(State::finish_plain_break);
    law_misfit_is_reported(
        s,
        ty::UNIT,
        ctx.inferred(scope_index),
        ctx.resolve_context.at(span),
    );
    law_settled_type_is_kept(ctx, scope_index, ty::UNIT, scope_index);
}

/// A value that a scope is left with settles the scope's type, where nothing
/// settled it before, and is reported where it does not fit.
pub proof fn law_value_of_a_jump<'ast>(
    s: State<'ast>,
    ctx: ExprContext,
    scope_index: usize,
    value: Expression,
)
    requires
        ctx.scope_at(scope_index) is Some,
        !is_a_literal(value.ty),
    ensures
        ({
            let (t, later, settled) = s.settle_jump_value(ctx, scope_index, value);
            let asked = if ctx.inferred(scope_index) != ty::INFER {
                ctx.inferred(scope_index)
            } else {
                ctx.expected(scope_index)
            };
            let fits = asked == ty::INFER || s.coercible(value.ty, asked).1;
            &&& fits ==> t.diagnostics == s.diagnostics && settled == Some(value)
            &&& !fits ==> more_is_reported(s, t)
            &&& ctx.inferred(scope_index) == ty::INFER && fits ==> later.inferred(scope_index)
                == value.ty
            &&& ctx.inferred(scope_index) == ty::INFER && !fits ==> settled is None
        }),
{
    reveal(State::settle_jump_value);
    reveal(State::settle_literal);
    law_value_of_a_block(
        s,
        ctx.inferred(scope_index),
        ctx.expected(scope_index),
        value.ty,
        ctx.resolve_context.at(value.span),
    );
    law_settled_type_is_kept(ctx, scope_index, value.ty, scope_index);
    law_settled_type_is_kept(ctx, scope_index, ctx.inferred(scope_index), scope_index);
}

/// A value that is returned, and is no number literal, fits what the function
/// gives back, or something is reported. The `return` keeps it.
pub proof fn law_returned_value_fits_or_is_reported<'ast>(
    s: State<'ast>,
    ctx: ExprContext,
    value: Expression,
    span: TextSpan,
)
    requires
        ctx.scope_at(0) is Some,
        ctx.inferred(0) == ty::INFER,
        ctx.expected(0) != ty::INFER,
        !is_a_literal(value.ty),
    ensures
        ({
            let (t, later, built) = s.finish_return(ctx, value, span);
            &&& !s.coercible(value.ty, ctx.expected(0)).1 ==> built is None && more_is_reported(s, t)
            &&& built matches Some(expr) ==> (expr.kind matches ExprKind::Return { value: v } && v
                == Some(Box::new(value)))
        }),
{
    reveal(State::finish_return);
    law_value_of_a_jump(s, ctx, 0, value);
    let (t, later, settled) = s.settle_jump_value(ctx, 0, value);
    law_misfit_is_reported(
        t,
        later.inferred(0),
        later.expected(0),
        later.resolve_context.at(value.span),
    );
}

// ---------------------------------------------------------------- warnings

/// Whether a local is written to: one of its uses is no plain read.
pub open spec fn some_use_writes(accesses: List<LocalAccess>) -> bool {
    exists|i: nat| (#[trigger] accesses.at(i)) matches Some(used) && used.kind != AccessKind::Read
}

/// A local was written to exactly where one of its uses writes.
pub proof fn law_written_local(accesses: List<LocalAccess>)
    ensures
        typing::was_written(&accesses) <==> some_use_writes(accesses),
    decreases accesses,
{
    match accesses {
        List::Nil => {},
        List::Cons(head, rest) => {
            law_written_local(*rest);
            assert(accesses.at(0) == Some(*head));
            if some_use_writes(*rest) {
                let i = choose|i: nat|
                    (#[trigger] rest.at(i)) matches Some(used) && used.kind != AccessKind::Read;
                assert(accesses.at(i + 1) == rest.at(i));
            }
            if some_use_writes(accesses) && head.kind == AccessKind::Read {
                let i = choose|i: nat|
                    (#[trigger] accesses.at(i)) matches Some(used) && used.kind != AccessKind::Read;
                assert(rest.at((i - 1) as nat) == accesses.at(i));
            }
        },
    }
}

/// Whether a local is there for nothing: it is never used, and neither
/// poisoned nor the receiver nor named with a `_` in front, or it is mutable
/// and never written to.
pub open spec fn is_for_nothing<'ast>(s: State<'ast>, local: Local) -> bool {
    ||| local.accesses is Nil && local.ty != ty::ERROR && local.name.inner != s.names.self_value
        && !interner::is_underscored(s.texts, local.name.inner)
    ||| local.mut_span is Some && !some_use_writes(local.accesses)
}

/// The locals of a scope are reported exactly where one is there for nothing.
pub proof fn law_unused_locals_are_reported<'ast>(
    s: State<'ast>,
    file_id: FileId,
    locals: List<Local>,
)
    ensures
        ({
            let t = s.report_unused_locals(file_id, &locals);
            let idle = exists|i: nat|
                (#[trigger] locals.at(i)) matches Some(local) && is_for_nothing(s, local);
            &&& idle ==> more_is_reported(s, t)
            &&& !idle ==> t == s
            &&& same_but_reports(s, t)
            &&& s.diagnostics.len() <= t.diagnostics.len()
        }),
    decreases locals,
{
    reveal(State::report);
    match locals {
        List::Nil => {},
        List::Cons(local, rest) => {
            law_written_local(local.accesses);
            assert(locals.at(0) == Some(*local));
            assert forall|i: nat| #[trigger] rest.at(i) == locals.at(i + 1) by {}
            let used = if local.accesses is Nil && local.ty != ty::ERROR
                && !interner::is_underscored(s.texts, local.name.inner) && local.name.inner
                != s.names.self_value {
                s.report(
                    crate::reports::report_unused_variable(
                        SourceSpan::new(file_id, local.name.span),
                    ),
                )
            } else {
                s
            };
            let t = match local.mut_span {
                Some(mut_span) => if !typing::was_written(&local.accesses) {
                    used.report(
                        crate::reports::report_unnecessary_mutability(
                            SourceSpan::new(file_id, mut_span),
                        ),
                    )
                } else {
                    used
                },
                None => used,
            };
            law_unused_locals_are_reported(t, file_id, *rest);
            assert forall|other: Local| is_for_nothing(t, other) == #[trigger] is_for_nothing(
                s,
                other,
            ) by {}
            if exists|i: nat|
                (#[trigger] locals.at(i)) matches Some(other) && is_for_nothing(s, other) {
                let i = choose|i: nat|
                    (#[trigger] locals.at(i)) matches Some(other) && is_for_nothing(s, other);
                if i > 0 {
                    assert(rest.at((i - 1) as nat) == locals.at(i));
                    assert(is_for_nothing(t, locals.at(i)->0));
                }
            } else {
                assert(!is_for_nothing(s, *local));
                assert forall|i: nat| (#[trigger] rest.at(i)) is Some implies !is_for_nothing(
                    t,
                    rest.at(i)->0,
                ) by {
                    assert(rest.at(i) == locals.at(i + 1));
                    assert(!is_for_nothing(s, rest.at(i)->0));
                }
            }
        },
    }
}

/// The labels of a body are reported exactly where one is never used.
pub proof fn law_unused_labels_are_reported<'ast>(
    s: State<'ast>,
    file_id: FileId,
    labels: List<LabelInfo>,
)
    ensures
        ({
            let t = s.report_unused_labels(file_id, &labels);
            let idle = exists|i: nat|
                (#[trigger] labels.at(i)) matches Some(label) && label.accesses is Nil;
            &&& idle ==> more_is_reported(s, t)
            &&& !idle ==> t == s
            &&& same_but_reports(s, t)
            &&& s.diagnostics.len() <= t.diagnostics.len()
        }),
    decreases labels,
{
    reveal(State::report);
    match labels {
        List::Nil => {},
        List::Cons(label, rest) => {
            assert(labels.at(0) == Some(*label));
            assert forall|i: nat| #[trigger] rest.at(i) == labels.at(i + 1) by {}
            let t = if label.accesses is Nil {
                s.report(
                    crate::reports::report_unused_label(SourceSpan::new(file_id, label.name.span)),
                )
            } else {
                s
            };
            law_unused_labels_are_reported(t, file_id, *rest);
            if exists|i: nat|
                (#[trigger] labels.at(i)) matches Some(other) && other.accesses is Nil {
                let i = choose|i: nat|
                    (#[trigger] labels.at(i)) matches Some(other) && other.accesses is Nil;
                if i > 0 {
                    assert(rest.at((i - 1) as nat) == labels.at(i));
                }
            } else {
                assert forall|i: nat| (#[trigger] rest.at(i)) is Some implies !(rest.at(
                    i,
                )->0.accesses is Nil) by {
                    assert(rest.at(i) == labels.at(i + 1));
                }
            }
        },
    }
}

/// A body with a label that is never used is reported, and so is one with a
/// local that is there for nothing, in whichever scope.
pub proof fn law_body_warnings<'ast>(
    s: State<'ast>,
    file_id: FileId,
    stack: StackFrame,
    scope: nat,
    local: nat,
)
    requires
        stack.scopes.at(scope) matches Some(block) && (block.locals.at(local) matches Some(idle)
            && is_for_nothing(s, idle)),
    ensures
        more_is_reported(s, s.report_stack_warnings(file_id, &stack)),
{
    law_unused_labels_are_reported(s, file_id, stack.labels);
    let t = s.report_unused_labels(file_id, &stack.labels);
    assert(is_for_nothing(t, stack.scopes.at(scope)->0.locals.at(local)->0));
    scopes_report_idle_locals(t, file_id, stack.scopes, scope, local);
}

proof fn scopes_report_idle_locals<'ast>(
    s: State<'ast>,
    file_id: FileId,
    scopes: List<BlockScope>,
    scope: nat,
    local: nat,
)
    requires
        scopes.at(scope) matches Some(block) && (block.locals.at(local) matches Some(idle)
            && is_for_nothing(s, idle)),
    ensures
        more_is_reported(s, s.report_scope_warnings(file_id, &scopes)),
    decreases scopes,
{
    match scopes {
        List::Nil => {},
        List::Cons(head, rest) => {
            law_unused_locals_are_reported(s, file_id, head.locals);
            let t = s.report_unused_locals(file_id, &head.locals);
            if scope > 0 {
                assert(rest.at((scope - 1) as nat) == scopes.at(scope));
                assert(is_for_nothing(t, scopes.at(scope)->0.locals.at(local)->0));
                scopes_report_idle_locals(t, file_id, *rest, (scope - 1) as nat, local);
            } else {
                assert(scopes.at(0) == Some(*head));
                assert(head.locals.at(local) is Some);
                scopes_only_report(t, file_id, *rest);
            }
        },
    }
}

proof fn scopes_only_report<'ast>(s: State<'ast>, file_id: FileId, scopes: List<BlockScope>)
    ensures
        s.diagnostics.len() <= s.report_scope_warnings(file_id, &scopes).diagnostics.len(),
    decreases scopes,
{
    match scopes {
        List::Nil => {},
        List::Cons(head, rest) => {
            law_unused_locals_are_reported(s, file_id, head.locals);
            scopes_only_report(s.report_unused_locals(file_id, &head.locals), file_id, *rest);
        },
    }
}

} // verus!
