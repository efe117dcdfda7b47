//! The types that expressions have: what the rules for the single forms come
//! to.

use vstd::prelude::*;

use crate::ast::{BinaryOp, UnaryOp};
use crate::failures;
use crate::laws;
use crate::list::List;
use crate::scope::ExprContext;
use crate::span::{SourceSpan, Spanned, Symbol, TextSpan};
use crate::state::State;
use crate::tir::{AccessContext, AccessKind, ExprKind, Expression, PlaceKind, ResolveContext};
use crate::ty;
use crate::types::{Type, TypeIndex};
use crate::typing;

pub mod aggregates;
pub mod bounds;
pub mod calls;
pub mod clauses;
pub mod coercion;
pub mod constants;
pub mod control;
pub mod definitions;
pub mod expressions;
pub mod flow;
pub mod items;
pub mod members;
pub mod names;
pub mod patterns;
pub mod operators;
pub mod satisfaction;
pub mod scanning;
pub mod tables;
pub mod types;
pub mod values;

verus! {

/// A comparison is a `bool`, whatever is wrong with its operands.
pub proof fn law_comparison_is_a_bool<'ast>(
    s: State<'ast>,
    ctx: ExprContext,
    operator: Spanned<BinaryOp>,
    left: Expression,
    right: Expression,
    span: TextSpan,
)
    ensures
        s.finish_comparison(ctx, operator, left, right, span).2 matches Some(built) ==> built.ty
            == ty::BOOL,
{
    reveal(State::finish_comparison);
}

/// Arithmetic on two operands of one arithmetic type has that type, and
/// nothing is reported.
pub proof fn law_arithmetic_keeps_the_type<'ast>(
    s: State<'ast>,
    ctx: ExprContext,
    access: AccessContext,
    operator: Spanned<BinaryOp>,
    left: Expression,
    right: Expression,
    span: TextSpan,
)
    requires
        left.ty == right.ty,
        s.is_arithmetic(left.ty),
        !ty::is_comptime_number(left.ty),
        left.ty != ty::NEVER,
    ensures
        ({
            let (t, later, built) = s.finish_arithmetic(ctx, access, operator, left, right, span);
            t == s && later == ctx && built is Some && built->0.ty == left.ty
        }),
{
    reveal(State::finish_arithmetic);
}

/// `!` gives a `bool`; `-` and `~` keep the type of a number.
pub proof fn law_unary_types<'ast>(
    s: State<'ast>,
    ctx: ExprContext,
    operator: Spanned<UnaryOp>,
    operand: Expression,
    span: TextSpan,
)
    ensures
        ({
            let (t, later, built) = s.finish_unary(ctx, operator, operand, span);
            &&& operator.inner == UnaryOp::Not ==> built.ty == ty::BOOL
            &&& operator.inner != UnaryOp::Not && (ty::is_primitive(operand.ty)
                || ty::is_comptime_number(operand.ty)) ==> {
                &&& built.ty == operand.ty
                &&& t == s
                &&& later == ctx
            }
        }),
{
    reveal(State::finish_unary);
}

/// What comes after `continue`, `break` or `return` is never reached.
pub proof fn law_jumps_never_end<'ast>(
    s: State<'ast>,
    ctx: ExprContext,
    label: Option<Spanned<Symbol>>,
    scope_index: usize,
    value: Expression,
    span: TextSpan,
)
    ensures
        s.build_continue_expression(ctx, label, span).2.ty == ty::NEVER,
        s.finish_plain_break(ctx, scope_index, span).2.ty == ty::NEVER,
        s.finish_return(ctx, value, span).2 matches Some(built) ==> built.ty == ty::NEVER,
        s.finish_plain_return(ctx, span).2 matches Some(built) ==> built.ty == ty::NEVER,
{
    reveal(State::build_continue_expression);
    reveal(State::finish_plain_break);
    reveal(State::finish_return);
    reveal(State::finish_plain_return);
}

/// An `if` without `else` has no value.
pub proof fn law_if_without_else_has_no_value<'ast>(
    s: State<'ast>,
    context: ResolveContext,
    condition: Expression,
    then_block: Expression,
    span: TextSpan,
)
    ensures
        ({
            let (t, built) = s.finish_if(context, condition, then_block, span);
            &&& built is Some <==> then_block.ty == ty::UNIT || then_block.ty == ty::NEVER
            &&& built is Some ==> t == s && built->0.ty == ty::UNIT
        }),
{
    reveal(State::finish_if);
}

/// A loop that no `break` leaves never ends.
pub proof fn law_loop_without_break_never_ends<'ast>(
    s: State<'ast>,
    ctx: ExprContext,
    block: Expression,
    span: TextSpan,
)
    requires
        ctx.inferred(ctx.scope_index) == ty::INFER,
    ensures
        ({
            let (t, later, built) = s.finish_loop(ctx, block, span);
            t == s && later == ctx && built is Some && built->0.ty == ty::NEVER
        }),
{
    reveal(State::finish_loop);
}

/// A block fits where a type is expected, or it is reported and poisoned.
pub proof fn law_block_fits_or_is_reported<'ast>(
    s: State<'ast>,
    inferred: TypeIndex,
    expected: TypeIndex,
    span: SourceSpan,
)
    ensures
        ({
            let (t, found) = s.checked_block_type(inferred, expected, span);
            &&& expected == ty::INFER ==> t == s && found == inferred
            &&& expected != ty::INFER && s.coercible(inferred, expected).1 ==> {
                &&& found == inferred
                &&& t == s.coercible(inferred, expected).0
            }
            &&& expected != ty::INFER && !s.coercible(inferred, expected).1 ==> {
                &&& found == ty::ERROR
                &&& failures::more_is_reported(s, t)
            }
        }),
{
    reveal(State::checked_block_type);
    reveal(State::check_coercible);
    reveal(State::report);
    s.adds_coercible(inferred, expected);
    reveal(State::only_adds);
    reveal(State::grows_to);
}

/// An expression of number literals takes the type that it fits, and keeps
/// its own where it does not fit.
pub proof fn law_literal_takes_the_type<'ast>(
    s: State<'ast>,
    ctx: ExprContext,
    expr: Expression,
    target: TypeIndex,
)
    ensures
        ({
            let (_, _, (typed, fits)) = s.coerce_untyped_expr(ctx, expr, target);
            &&& fits ==> typed.ty == target
            &&& !fits ==> typed.ty == expr.ty
            &&& typed.span == expr.span
        }),
{
}

/// A tuple has the types of its elements.
pub proof fn law_tuple_has_the_types_of_its_elements<'ast>(
    s: State<'ast>,
    elements: List<Expression>,
    failed: bool,
    span: TextSpan,
)
    requires
        s.types.len() < usize::MAX,
    ensures
        ({
            let (t, built) = s.finish_tuple(elements, failed, span);
            t.ty(built.ty) == (Type::Tuple { elements: typing::types_of_expressions(&elements) })
        }),
{
    reveal(State::finish_tuple);
    laws::law_interned_type_reads_back(
        s,
        Type::Tuple { elements: typing::types_of_expressions(&elements) },
    );
}

/// What the address of a place points at is the place: of the same type, in
/// the same memory, and writable if the address says so.
pub proof fn law_dereference_undoes_address<'ast>(
    s: State<'ast>,
    context: ResolveContext,
    operand: Expression,
    mutable: bool,
    span: TextSpan,
    outer: TextSpan,
)
    requires
        s.types.len() < usize::MAX,
        operand.kind is Load,
    ensures
        ({
            let place = operand.kind->Load_place;
            let (t, pointer) = s.finish_address_of(context, operand, mutable, span);
            &&& pointer is Some
            &&& {
                let (u, read) = t.finish_deref(context, AccessKind::Read, pointer->0, outer);
                &&& u == t
                &&& read is Some
                &&& read->0.ty == place.ty
                &&& read->0.kind matches ExprKind::Load { place: reached } && {
                    &&& reached.kind == (PlaceKind::Deref { pointer: Box::new(pointer->0) })
                    &&& reached.ty == place.ty
                    &&& reached.memory == place.memory
                    &&& reached.mutable == mutable
                }
            }
        }),
{
    reveal(State::finish_address_of);
    reveal(State::finish_deref);
    reveal(State::report);
    let place = operand.kind->Load_place;
    let (t, pointer) = s.finish_address_of(context, operand, mutable, span);
    let pointed = Type::Pointer { to: place.ty, memory: place.memory, mutable };
    let reported = if mutable && !place.mutable {
        s.report(
            crate::reports::report_cannot_take_mutable_address_of_immutable(context.at(span)),
        )
    } else {
        s
    };
    laws::law_interned_type_reads_back(reported, pointed);
    assert(t.ty(pointer->0.ty) == pointed);
}

} // verus!
