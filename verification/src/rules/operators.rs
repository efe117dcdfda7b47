//! Operators: the type that an expression with an operator has, the operands
//! it has, and when something is reported.

use vstd::prelude::*;

use crate::ast;
use crate::ast::{BinaryOp, UnaryOp};
use crate::failures::more_is_reported;
use crate::operators::{store_expression, AssignmentTarget};
use crate::params;
use crate::pool;
use crate::scope::ExprContext;
use crate::span::{DefId, SourceSpan, Spanned, TextSpan};
use crate::state::State;
use crate::tir::{AccessContext, ExprKind, Expression};
use crate::ty;
use crate::types::{Type, TypeIndex};

verus! {

/// Whether an expression is an operator on two operands, in that order.
pub open spec fn is_operation(
    built: Expression,
    operator: Spanned<BinaryOp>,
    left: Expression,
    right: Expression,
) -> bool {
    built.kind == (ExprKind::Binary { operator, left: Box::new(left), right: Box::new(right) })
}

/// Whether a type is one of the integer types.
pub open spec fn is_an_integer(index: TypeIndex) -> bool {
    ||| index == ty::U8
    ||| index == ty::I8
    ||| index == ty::U16
    ||| index == ty::I16
    ||| index == ty::U32
    ||| index == ty::I32
    ||| index == ty::U64
    ||| index == ty::I64
}

/// Whether a type is one of those that are built in and have values that can
/// be computed with.
pub open spec fn is_a_scalar(index: TypeIndex) -> bool {
    ||| is_an_integer(index)
    ||| index == ty::F32
    ||| index == ty::F64
    ||| index == ty::BOOL
    ||| index == ty::CHAR
}

/// Whether a type is that of a number literal.
pub open spec fn is_a_literal(index: TypeIndex) -> bool {
    index == ty::INTEGER || index == ty::FLOAT
}

/// Whether a type is declared as an associated type that is one of a typeset.
pub open spec fn is_of_a_typeset<'ast>(s: State<'ast>, index: TypeIndex) -> bool {
    s.ty(index) matches Type::AssocTypeProjection { base: _, assoc_name, trait_index } && {
        &&& trait_index < s.traits.len()
        &&& params::assoc_type_named(
            s.traits[trait_index as int].assoc_types,
            assoc_name,
        ) matches Some(declared) && declared.bounds.typeset is Some
    }
}

/// Which indices are built-in types of which sort.
pub proof fn law_built_in_types(index: TypeIndex)
    ensures
        ty::is_integer(index) <==> is_an_integer(index),
        ty::is_numeric(index) <==> is_an_integer(index) || index == ty::F32 || index == ty::F64,
        ty::is_primitive(index) <==> is_a_scalar(index),
        ty::is_comptime_number(index) <==> is_a_literal(index),
{
}

/// Arithmetic applies to the built-in scalars and to the associated types that
/// are one of a typeset, and to nothing else.
pub proof fn law_arithmetic_types<'ast>(s: State<'ast>, index: TypeIndex)
    ensures
        s.is_arithmetic(index) <==> is_a_scalar(index) || is_of_a_typeset(s, index),
{
}

// ---------------------------------------------------------------- arithmetic

/// Arithmetic on two operands of one arithmetic type is the operator on those
/// operands, of their type. Nothing is reported.
pub proof fn law_arithmetic_on_one_type<'ast>(
    s: State<'ast>,
    ctx: ExprContext,
    access: AccessContext,
    operator: Spanned<BinaryOp>,
    left: Expression,
    right: Expression,
    span: TextSpan,
)
    requires
        left.ty == right.ty,
        is_a_scalar(left.ty) || is_of_a_typeset(s, left.ty),
        left.ty > ty::FLOAT,
    ensures
        ({
            let (t, later, built) = s.finish_arithmetic(ctx, access, operator, left, right, span);
            &&& t == s && later == ctx
            &&& built matches Some(whole) && whole.ty == left.ty && whole.span == span
                && is_operation(whole, operator, left, right)
        }),
{
    reveal(State::finish_arithmetic);
    law_arithmetic_types(s, left.ty);
}

/// Arithmetic on two operands that are no literals and do finish is reported
/// where they differ in type or have no arithmetic type.
pub proof fn law_arithmetic_on_other_types_is_reported<'ast>(
    s: State<'ast>,
    ctx: ExprContext,
    access: AccessContext,
    operator: Spanned<BinaryOp>,
    left: Expression,
    right: Expression,
    span: TextSpan,
)
    requires
        !is_a_literal(left.ty) && !is_a_literal(right.ty),
        left.ty != ty::NEVER && right.ty != ty::NEVER,
        left.ty != right.ty || !(is_a_scalar(left.ty) || is_of_a_typeset(s, left.ty)),
    ensures
        more_is_reported(s, s.finish_arithmetic(ctx, access, operator, left, right, span).0),
{
    reveal(State::finish_arithmetic);
    reveal(State::report);
    law_arithmetic_types(s, left.ty);
}

/// Arithmetic with an operand that does not finish is reported as unreachable
/// and does not finish.
pub proof fn law_arithmetic_that_does_not_finish<'ast>(
    s: State<'ast>,
    ctx: ExprContext,
    access: AccessContext,
    operator: Spanned<BinaryOp>,
    left: Expression,
    right: Expression,
    span: TextSpan,
)
    requires
        !is_a_literal(left.ty) && !is_a_literal(right.ty),
        left.ty == ty::NEVER || right.ty == ty::NEVER,
    ensures
        ({
            let (t, later, built) = s.finish_arithmetic(ctx, access, operator, left, right, span);
            &&& more_is_reported(s, t)
            &&& built matches Some(whole) && whole.ty == ty::NEVER
        }),
{
    reveal(State::finish_arithmetic);
    reveal(State::report);
}

/// Of two literals of one sort arithmetic is a literal of that sort; of two of
/// different sorts it is reported and poisoned.
pub proof fn law_arithmetic_on_literals<'ast>(
    s: State<'ast>,
    ctx: ExprContext,
    access: AccessContext,
    operator: Spanned<BinaryOp>,
    left: Expression,
    right: Expression,
    span: TextSpan,
)
    requires
        is_a_literal(left.ty) && is_a_literal(right.ty),
    ensures
        ({
            let (t, later, built) = s.finish_arithmetic(ctx, access, operator, left, right, span);
            &&& later == ctx
            &&& built matches Some(whole) && is_operation(whole, operator, left, right)
            &&& left.ty == right.ty ==> t == s && built->0.ty == left.ty
            &&& left.ty != right.ty ==> more_is_reported(s, t) && built->0.ty == ty::ERROR
        }),
{
    reveal(State::finish_arithmetic);
    reveal(State::report);
}

/// A literal beside an operand of a type takes that type, and so does the
/// arithmetic; the other operand stays as it is.
pub proof fn law_literal_beside_an_operand<'ast>(
    s: State<'ast>,
    ctx: ExprContext,
    access: AccessContext,
    operator: Spanned<BinaryOp>,
    left: Expression,
    right: Expression,
    span: TextSpan,
)
    ensures
        ({
            let built = s.finish_arithmetic(ctx, access, operator, left, right, span).2;
            &&& is_a_literal(left.ty) && is_a_scalar(right.ty) ==> (built matches Some(whole) ==> {
                &&& whole.ty == right.ty
                &&& whole.kind matches ExprKind::Binary { operator: op, left: l, right: r } && op
                    == operator && l.ty == right.ty && *r == right
            })
            &&& !is_a_literal(left.ty) && is_a_literal(right.ty) ==> (built matches Some(whole)
                ==> {
                &&& whole.ty == left.ty
                &&& whole.kind matches ExprKind::Binary { operator: op, left: l, right: r } && op
                    == operator && r.ty == left.ty && *l == left
            })
        }),
        is_a_literal(left.ty) && !is_a_literal(right.ty) && !is_a_scalar(right.ty)
            ==> more_is_reported(
            s,
            s.finish_arithmetic(ctx, access, operator, left, right, span).0,
        ),
{
    reveal(State::finish_arithmetic);
    reveal(State::report);
    super::law_literal_takes_the_type(s, ctx, left, right.ty);
    super::law_literal_takes_the_type(s, ctx, right, left.ty);
}

// ---------------------------------------------------------------- bit operations

/// A bit operation on two operands of one integer type, or two of type `bool`,
/// is the operator on those operands, of their type. Nothing is reported.
pub proof fn law_bit_operation_on_one_type<'ast>(
    s: State<'ast>,
    ctx: ExprContext,
    access: AccessContext,
    operator: Spanned<BinaryOp>,
    left: Expression,
    right: Expression,
    span: TextSpan,
)
    requires
        left.ty == right.ty,
        is_an_integer(left.ty) || left.ty == ty::BOOL,
    ensures
        ({
            let (t, later, built) = s.finish_bitwise(ctx, access, operator, left, right, span);
            &&& t == s && later == ctx
            &&& built matches Some(whole) && whole.ty == left.ty && whole.span == span
                && is_operation(whole, operator, left, right)
        }),
{
    reveal(State::finish_bitwise);
}

/// A bit operation on two operands that are no literals and not poisoned is
/// reported where they differ in type or have a type without bits.
pub proof fn law_bit_operation_on_other_types_is_reported<'ast>(
    s: State<'ast>,
    ctx: ExprContext,
    access: AccessContext,
    operator: Spanned<BinaryOp>,
    left: Expression,
    right: Expression,
    span: TextSpan,
)
    requires
        !is_a_literal(left.ty) && !is_a_literal(right.ty),
        left.ty != ty::ERROR && right.ty != ty::ERROR,
        left.ty != right.ty || !(is_an_integer(left.ty) || left.ty == ty::BOOL),
    ensures
        more_is_reported(s, s.finish_bitwise(ctx, access, operator, left, right, span).0),
{
    reveal(State::finish_bitwise);
    reveal(State::report);
}

/// A poisoned operand of a bit operation is not reported again.
pub proof fn law_poisoned_bit_operation_is_silent<'ast>(
    s: State<'ast>,
    ctx: ExprContext,
    access: AccessContext,
    operator: Spanned<BinaryOp>,
    left: Expression,
    right: Expression,
    span: TextSpan,
)
    requires
        left.ty == ty::ERROR || right.ty == ty::ERROR,
    ensures
        ({
            let (t, later, built) = s.finish_bitwise(ctx, access, operator, left, right, span);
            &&& t == s && later == ctx
            &&& built matches Some(whole) && is_operation(whole, operator, left, right)
        }),
{
    reveal(State::finish_bitwise);
}

/// A literal in a bit operation takes the type of the other operand, or, where
/// that is a literal too, the expected one; and so does the operation. A type
/// without bits is reported, and so are two literals where none is expected.
pub proof fn law_bit_operation_on_literals<'ast>(
    s: State<'ast>,
    ctx: ExprContext,
    access: AccessContext,
    operator: Spanned<BinaryOp>,
    left: Expression,
    right: Expression,
    span: TextSpan,
)
    requires
        left.ty != ty::ERROR && right.ty != ty::ERROR,
        is_a_literal(left.ty) || is_a_literal(right.ty),
    ensures
        ({
            let (t, later, built) = s.finish_bitwise(ctx, access, operator, left, right, span);
            let target = if !is_a_literal(right.ty) {
                right.ty
            } else if !is_a_literal(left.ty) {
                left.ty
            } else {
                access.expected_type
            };
            &&& is_a_literal(left.ty) && is_a_literal(right.ty) && access.expected_type == ty::INFER
                ==> built is None && more_is_reported(s, t)
            &&& built matches Some(whole) ==> {
                &&& whole.ty == target
                &&& whole.kind matches ExprKind::Binary { operator: op, left: l, right: r } && op
                    == operator && l.ty == target && r.ty == target
                &&& !is_an_integer(target) && target != ty::BOOL ==> more_is_reported(s, t)
            }
        }),
{
    reveal(State::finish_bitwise);
    reveal(State::report);
    broadcast use crate::growth::group_adding;

    let expected = access.expected_type;
    super::law_literal_takes_the_type(s, ctx, left, expected);
    let (first, first_ctx, _) = s.coerce_untyped_expr(ctx, left, expected);
    super::law_literal_takes_the_type(first, first_ctx, right, expected);
    let (second, _, _) = first.coerce_untyped_expr(first_ctx, right, expected);
    let file_id = ctx.resolve_context.file_id;
    let on_right = s.check_bitwise_operand(
        operator,
        crate::shape::spanned(right.ty, right.span),
        file_id,
    );
    super::law_literal_takes_the_type(on_right, ctx, left, right.ty);
    on_right.adds_coerce_untyped_expr(ctx, left, right.ty);
    let on_left = s.check_bitwise_operand(
        operator,
        crate::shape::spanned(left.ty, left.span),
        file_id,
    );
    super::law_literal_takes_the_type(on_left, ctx, right, left.ty);
    on_left.adds_coerce_untyped_expr(ctx, right, left.ty);
    s.adds_coerce_untyped_expr(ctx, left, expected);
    first.adds_coerce_untyped_expr(first_ctx, right, expected);
    reveal(State::only_adds);
    reveal(State::grows_to);
}

// ---------------------------------------------------------------- comparisons

/// Whether values of two types can be compared.
pub open spec fn are_comparable<'ast>(
    s: State<'ast>,
    operator: BinaryOp,
    left: TypeIndex,
    right: TypeIndex,
) -> bool {
    ||| left == right && (is_a_scalar(left) || is_of_a_typeset(s, left) || s.ty(left) is Enum)
    ||| {
        &&& operator == BinaryOp::Eq || operator == BinaryOp::NotEq
        &&& s.ty(left) matches Type::Pointer { to, memory, mutable: _ } && s.ty(
            right,
        ) matches Type::Pointer { to: other_to, memory: other_memory, mutable: _ } && to == other_to
            && memory == other_memory
    }
}

/// A comparison of two operands that are no literals and not poisoned is the
/// operator on them, a `bool`. It is reported exactly where their values
/// cannot be compared.
pub proof fn law_comparison_of_operands<'ast>(
    s: State<'ast>,
    ctx: ExprContext,
    operator: Spanned<BinaryOp>,
    left: Expression,
    right: Expression,
    span: TextSpan,
)
    requires
        !is_a_literal(left.ty) && !is_a_literal(right.ty),
        left.ty != ty::ERROR && right.ty != ty::ERROR,
    ensures
        ({
            let (t, later, built) = s.finish_comparison(ctx, operator, left, right, span);
            &&& later == ctx
            &&& built matches Some(whole) && whole.ty == ty::BOOL && whole.span == span
                && is_operation(whole, operator, left, right)
            &&& are_comparable(s, operator.inner, left.ty, right.ty) ==> t == s
            &&& !are_comparable(s, operator.inner, left.ty, right.ty) ==> more_is_reported(s, t)
        }),
{
    reveal(State::finish_comparison);
    reveal(State::report);
    law_arithmetic_types(s, left.ty);
}

/// A literal in a comparison takes the type of the other operand; two literals
/// are reported; a poisoned operand is not reported again.
pub proof fn law_comparison_with_literals<'ast>(
    s: State<'ast>,
    ctx: ExprContext,
    operator: Spanned<BinaryOp>,
    left: Expression,
    right: Expression,
    span: TextSpan,
)
    ensures
        ({
            let (t, later, built) = s.finish_comparison(ctx, operator, left, right, span);
            &&& left.ty == ty::ERROR || right.ty == ty::ERROR ==> t == s && later == ctx && (
            built matches Some(whole) && is_operation(whole, operator, left, right))
            &&& is_a_literal(left.ty) && is_a_literal(right.ty) ==> more_is_reported(s, t)
            &&& is_a_literal(left.ty) && !is_a_literal(right.ty) && right.ty != ty::ERROR ==> (
            built matches Some(whole) ==> (whole.kind matches ExprKind::Binary {
                operator: op,
                left: l,
                right: r,
            } && op == operator && l.ty == right.ty && *r == right))
            &&& !is_a_literal(left.ty) && left.ty != ty::ERROR && is_a_literal(right.ty) ==> (
            built matches Some(whole) ==> (whole.kind matches ExprKind::Binary {
                operator: op,
                left: l,
                right: r,
            } && op == operator && r.ty == left.ty && *l == left))
        }),
{
    reveal(State::finish_comparison);
    reveal(State::report);
    super::law_literal_takes_the_type(s, ctx, left, right.ty);
    super::law_literal_takes_the_type(s, ctx, right, left.ty);
}

// ---------------------------------------------------------------- logic and negation

/// An operand of `&&` or `||`, or a condition, is reported exactly where it is
/// neither a `bool` nor poisoned.
pub proof fn law_condition_is_a_bool<'ast>(s: State<'ast>, operand: TypeIndex, span: SourceSpan)
    ensures
        operand == ty::BOOL || operand == ty::ERROR ==> s.check_logical_operand(operand, span) == s,
        operand != ty::BOOL && operand != ty::ERROR ==> more_is_reported(
            s,
            s.check_logical_operand(operand, span),
        ),
{
    reveal(State::check_logical_operand);
    reveal(State::report);
}

/// `-` and `~` apply to numbers alone, and `!` to a `bool` alone; what they
/// apply to they keep, and on anything else they are reported.
pub proof fn law_unary_operators<'ast>(
    s: State<'ast>,
    ctx: ExprContext,
    operator: Spanned<UnaryOp>,
    operand: Expression,
    span: TextSpan,
)
    ensures
        ({
            let (t, later, built) = s.finish_unary(ctx, operator, operand, span);
            let whole = ExprKind::Unary { operator, operand: Box::new(operand) };
            &&& operator.inner != UnaryOp::Not && (is_a_scalar(operand.ty) || is_a_literal(
                operand.ty,
            )) ==> t == s && built == (Expression { kind: whole, ty: operand.ty, span })
            &&& operator.inner != UnaryOp::Not && !is_a_scalar(operand.ty) && !is_a_literal(
                operand.ty,
            ) ==> {
                &&& built == (Expression { kind: whole, ty: ty::ERROR, span })
                &&& operand.ty == ty::ERROR ==> t == s
                &&& operand.ty != ty::ERROR ==> more_is_reported(s, t)
            }
            &&& operator.inner == UnaryOp::Not && operand.ty == ty::BOOL ==> t == s && built == (
            Expression { kind: whole, ty: ty::BOOL, span })
            &&& operator.inner == UnaryOp::Not && operand.ty != ty::BOOL && !is_a_literal(
                operand.ty,
            ) ==> more_is_reported(s, t)
        }),
{
    reveal(State::finish_unary);
    reveal(State::report);
}

// ---------------------------------------------------------------- assignments

/// What can be assigned to: a local of its type, a global of its type, a field
/// of one of them, a place in memory, and `_`. Nothing else can.
pub proof fn law_what_can_be_assigned_to<'ast>(
    s: State<'ast>,
    ctx: ExprContext,
    left: Expression,
)
    ensures
        match left.kind {
            ExprKind::Local { scope_index, local_index } => ctx.local_at(
                scope_index,
                local_index,
            ) matches Some(local) ==> s.assignment_target(&ctx, &left)
                == AssignmentTarget::Variable(local.ty),
            ExprKind::Global { id } => s.global_index(id) matches Some(index) ==> index
                < s.globals.len() ==> s.assignment_target(&ctx, &left)
                == AssignmentTarget::Variable(s.globals[index as int].ty.inner),
            ExprKind::Placeholder => s.assignment_target(&ctx, &left)
                == AssignmentTarget::Placeholder,
            ExprKind::Load { place } => s.assignment_target(&ctx, &left)
                == AssignmentTarget::Memory(place.ty),
            ExprKind::Error => s.assignment_target(&ctx, &left) == AssignmentTarget::Poisoned,
            ExprKind::FieldAccess { object, .. } => s.assignment_target(&ctx, &left) == if (
            object.kind is Local || object.kind is Global) {
                AssignmentTarget::Variable(left.ty)
            } else {
                AssignmentTarget::Invalid
            },
            _ => s.assignment_target(&ctx, &left) == AssignmentTarget::Invalid,
        },
{
}

/// A store into memory keeps the place and the value, and has no value itself.
pub proof fn law_store_keeps_place_and_value(left: Expression, value: Expression, span: TextSpan)
    requires
        left.kind is Load,
    ensures
        store_expression(left, value, span) == (Expression {
            kind: ExprKind::Store { place: left.kind->Load_place, value: Box::new(value) },
            ty: ty::UNIT,
            span,
        }),
{
}

/// An operand that is no literal stays as it is where it has to fit a type,
/// and is reported exactly where it does not go there; a literal that fits
/// takes the type.
pub proof fn law_operand_fits_or_is_reported<'ast>(
    s: State<'ast>,
    ctx: ExprContext,
    operator: Spanned<BinaryOp>,
    target: Spanned<TypeIndex>,
    operand: Expression,
)
    ensures
        ({
            let (t, later, fitted) = s.fit_operand(ctx, operator, target, operand);
            &&& !is_a_literal(operand.ty) ==> {
                &&& later == ctx && fitted == Some(operand)
                &&& s.coercible(operand.ty, target.inner).1 ==> t.diagnostics == s.diagnostics
                &&& !s.coercible(operand.ty, target.inner).1 ==> more_is_reported(s, t)
            }
            &&& is_a_literal(operand.ty) ==> (fitted matches Some(typed) ==> typed.ty
                == target.inner && typed.span == operand.span)
        }),
{
    reveal(State::fit_operand);
    reveal(State::report);
    pool::law_comparing_changes_types_alone(s, operand.ty, target.inner);
    super::law_literal_takes_the_type(s, ctx, operand, target.inner);
}

/// The right operand is expected to be what the left one is, unless that says
/// nothing: then what the whole is expected to be.
pub proof fn law_right_operand_follows_the_left<'ast>(
    s: State<'ast>,
    left: TypeIndex,
    expected: TypeIndex,
)
    ensures
        s.ty(left) is Integer || s.ty(left) is Float || s.ty(left) is Error || s.ty(left) is Never
            || s.ty(left) is Unit ==> s.right_expectation(left, expected) == expected,
        !(s.ty(left) is Integer || s.ty(left) is Float || s.ty(left) is Error || s.ty(
            left,
        ) is Never || s.ty(left) is Unit) ==> s.right_expectation(left, expected) == left,
{
}

/// Comparisons and `&&` and `||` are `bool`s, assignments have no value, and
/// an expression with an operator is that operator.
pub proof fn law_types_of_binary_expressions<'ast>(
    s: State<'ast>,
    ctx: ExprContext,
    access: AccessContext,
    expr: &Spanned<ast::Expression>,
    pending: spec_fn(State<'ast>, DefId) -> State<'ast>,
)
    requires
        expr.inner is Binary,
    ensures
        ({
            let operator = expr.inner->Binary_operator;
            let built = s.build_binary_expression(ctx, access, expr, pending).2;
            built matches Some(whole) ==> match operator.inner {
                BinaryOp::Eq
                | BinaryOp::NotEq
                | BinaryOp::Less
                | BinaryOp::LessEq
                | BinaryOp::Greater
                | BinaryOp::GreaterEq
                | BinaryOp::And
                | BinaryOp::Or => whole.ty == ty::BOOL && (
                whole.kind matches ExprKind::Binary { operator: op, .. } && op == operator)
                    && whole.span == expr.span,
                BinaryOp::Assign
                | BinaryOp::AddAssign
                | BinaryOp::SubAssign
                | BinaryOp::MulAssign
                | BinaryOp::DivAssign
                | BinaryOp::RemAssign => {
                    &&& whole.ty == ty::UNIT
                    &&& whole.span == expr.span
                    &&& whole.kind matches ExprKind::Binary { operator: op, .. } ==> op == operator
                },
                _ => true,
            }
        }),
{
    reveal(State::finish_comparison);
}

} // verus!
