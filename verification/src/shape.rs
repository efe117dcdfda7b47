//! Expressions and contexts put together from their parts.

use vstd::prelude::*;

use crate::ast::{BinaryOp, UnaryOp};
use crate::span::{Spanned, TextSpan};
use crate::tir::{AccessContext, AccessKind, ExprKind, Expression};
use crate::ty;
use crate::types::TypeIndex;

verus! {

/// The expression of two operands.
#[verifier::allow_in_spec]
pub fn binary_expression(
    operator: Spanned<BinaryOp>,
    left: Expression,
    right: Expression,
    ty: TypeIndex,
    span: TextSpan,
) -> (result: Expression)
    returns
        (Expression {
            kind: ExprKind::Binary { operator, left: Box::new(left), right: Box::new(right) },
            ty,
            span,
        }),
{
    Expression {
        kind: ExprKind::Binary { operator, left: Box::new(left), right: Box::new(right) },
        ty,
        span,
    }
}

/// The expression of one operand.
#[verifier::allow_in_spec]
pub fn unary_expression(
    operator: Spanned<UnaryOp>,
    operand: Expression,
    ty: TypeIndex,
    span: TextSpan,
) -> (result: Expression)
    returns
        (Expression { kind: ExprKind::Unary { operator, operand: Box::new(operand) }, ty, span }),
{
    Expression { kind: ExprKind::Unary { operator, operand: Box::new(operand) }, ty, span }
}

/// The expression with a reported error in the place of a value of a type
/// that is known nevertheless.
#[verifier::allow_in_spec]
pub fn poisoned_as(ty: TypeIndex, span: TextSpan) -> (result: Expression)
    returns
        (Expression { kind: ExprKind::Error, ty, span }),
{
    Expression { kind: ExprKind::Error, ty, span }
}

/// The expression of a kind that has a type.
#[verifier::allow_in_spec]
pub fn typed(kind: ExprKind, ty: TypeIndex, span: TextSpan) -> (result: Expression)
    returns
        (Expression { kind, ty, span }),
{
    Expression { kind, ty, span }
}

/// The expression that takes the target's type where it fits it, and keeps
/// its own where it does not.
#[verifier::allow_in_spec]
pub fn settled(
    kind: ExprKind,
    fits: bool,
    target: TypeIndex,
    ty: TypeIndex,
    span: TextSpan,
) -> (result: (Expression, bool))
    returns
        (
            Expression {
                kind,
                ty: if fits {
                    target
                } else {
                    ty
                },
                span,
            },
            fits,
        ),
{
    (
        Expression {
            kind,
            ty: if fits {
                target
            } else {
                ty
            },
            span,
        },
        fits,
    )
}

/// A place in the source with what stands there.
#[verifier::allow_in_spec]
pub fn spanned(inner: TypeIndex, span: TextSpan) -> (result: Spanned<TypeIndex>)
    returns
        (Spanned { inner, span }),
{
    Spanned { inner, span }
}

/// An expression that is read, of the expected type.
#[verifier::allow_in_spec]
pub fn reading(expected_type: TypeIndex) -> (result: AccessContext)
    returns
        (AccessContext { expected_type, access_kind: AccessKind::Read }),
{
    AccessContext { expected_type, access_kind: AccessKind::Read }
}

/// An expression of any type that is accessed in the given way.
#[verifier::allow_in_spec]
pub fn accessing(access_kind: AccessKind) -> (result: AccessContext)
    returns
        (AccessContext { expected_type: ty::INFER, access_kind }),
{
    AccessContext { expected_type: ty::INFER, access_kind }
}

} // verus!
