//! What constants are worth: the value of an expression from the values of its
//! parts.

use vstd::prelude::*;

use crate::ast::{BinaryOp, UnaryOp};
use crate::state::State;
use crate::tir::{ConstValue, ExprKind, Expression, ItemIndex};

verus! {

/// Whether an expression has an integer as its value.
pub open spec fn evaluates_to<'ast>(s: State<'ast>, expr: Expression, value: i64) -> bool {
    s.eval_const_expr(&expr) == Some(ConstValue::Int(value))
}

/// Whether a number is another one cut off to 64 bits: the two differ by a
/// multiple of two to the power of 64.
pub open spec fn is_cut_off(value: i64, of: int) -> bool {
    (of - value) % 0x1_0000_0000_0000_0000 == 0
}

/// Whether two numbers are what a division that rounds towards zero gives: the
/// divisor times the first and the second make up the dividend, and the second
/// is smaller than the divisor and has the sign of the dividend.
pub open spec fn divides(left: int, right: int, quotient: int, remainder: int) -> bool {
    &&& quotient * right + remainder == left
    &&& remainder < (if right < 0 {
        -right
    } else {
        right
    })
    &&& -remainder < (if right < 0 {
        -right
    } else {
        right
    })
    &&& left >= 0 ==> remainder >= 0
    &&& left <= 0 ==> remainder <= 0
}

/// A literal is worth what it says.
pub proof fn law_value_of_a_literal<'ast>(s: State<'ast>, expr: Expression)
    ensures
        match expr.kind {
            ExprKind::Int { value } => evaluates_to(s, expr, value),
            ExprKind::Float { bits } => s.eval_const_expr(&expr) == Some(ConstValue::Float(bits)),
            ExprKind::Bool { value } => s.eval_const_expr(&expr) == Some(ConstValue::Bool(value)),
            ExprKind::Char { value } => s.eval_const_expr(&expr) == Some(ConstValue::Char(value)),
            _ => true,
        },
{
}

/// Sums, differences and products are those of the values of the operands, cut
/// off to 64 bits.
pub proof fn law_value_of_a_sum<'ast>(s: State<'ast>, expr: Expression, l: i64, r: i64)
    requires
        expr.kind matches ExprKind::Binary { operator, left, right } && evaluates_to(s, *left, l)
            && evaluates_to(s, *right, r),
    ensures
        ({
            let operator = expr.kind->Binary_operator.inner;
            &&& operator == BinaryOp::Add ==> evaluates_to(s, expr, l.wrapping_add(r))
            &&& operator == BinaryOp::Sub ==> evaluates_to(s, expr, l.wrapping_sub(r))
            &&& operator == BinaryOp::Mul ==> evaluates_to(s, expr, l.wrapping_mul(r))
        }),
        is_cut_off(l.wrapping_add(r), l + r),
        is_cut_off(l.wrapping_sub(r), l - r),
{
}

/// The difference of two operands is that of the left one less the right one.
pub proof fn law_value_of_a_difference<'ast>(s: State<'ast>, expr: Expression, l: i64, r: i64)
    requires
        expr.kind matches ExprKind::Binary { operator, left, right } && operator.inner
            == BinaryOp::Sub && evaluates_to(s, *left, l) && evaluates_to(s, *right, r),
    ensures
        evaluates_to(s, expr, l.wrapping_sub(r)),
        i64::MIN <= l - r <= i64::MAX ==> evaluates_to(s, expr, (l - r) as i64),
{
}

/// A quotient and a remainder are those of the left operand by the right one,
/// rounded towards zero. There is none for a division by zero. The one
/// quotient that 64 bits do not hold is the smallest number.
pub proof fn law_value_of_a_division<'ast>(s: State<'ast>, expr: Expression, l: i64, r: i64)
    requires
        expr.kind matches ExprKind::Binary { operator, left, right } && evaluates_to(s, *left, l)
            && evaluates_to(s, *right, r),
    ensures
        ({
            let operator = expr.kind->Binary_operator.inner;
            let value = s.eval_const_expr(&expr);
            &&& operator == BinaryOp::Div && r != 0 && !(l == i64::MIN && r == -1) ==> exists|
                q: i64,
                m: i64,
            | #[trigger]
                divides(l as int, r as int, q as int, m as int) && value == Some(
                    ConstValue::Int(q),
                )
            &&& operator == BinaryOp::Div && l == i64::MIN && r == -1 ==> value == Some(
                ConstValue::Int(i64::MIN),
            )
            &&& operator == BinaryOp::Rem && r != 0 ==> exists|q: int, m: i64| #[trigger]
                divides(l as int, r as int, q, m as int) && value == Some(ConstValue::Int(m))
            &&& (operator == BinaryOp::Div || operator == BinaryOp::Rem) && r == 0 ==> value
                is None
        }),
{
    let operator = expr.kind->Binary_operator.inner;
    if r != 0 {
        let (a, b) = (l as int, r as int);
        let (x, d) = (if a < 0 {
            -a
        } else {
            a
        }, if b < 0 {
            -b
        } else {
            b
        });
        let q = x / d;
        let m = x % d;
        assert(q * d + m == x && 0 <= m < d && 0 <= q <= x) by (nonlinear_arith)
            requires
                x >= 0,
                d > 0,
                q == x / d,
                m == x % d,
        ;
        let signed_q = if (a < 0) != (b < 0) {
            -q
        } else {
            q
        };
        let signed_m = if a < 0 {
            -m
        } else {
            m
        };
        assert(signed_q * b + signed_m == a) by (nonlinear_arith)
            requires
                q * d + m == x,
                x == (if a < 0 {
                    -a
                } else {
                    a
                }),
                d == (if b < 0 {
                    -b
                } else {
                    b
                }),
                signed_q == (if (a < 0) != (b < 0) {
                    -q
                } else {
                    q
                }),
                signed_m == (if a < 0 {
                    -m
                } else {
                    m
                }),
        ;
        if a == 0 {
            assert(m == 0 && q == 0) by (nonlinear_arith)
                requires
                    q * d + m == 0,
                    0 <= m,
                    0 <= q,
                    d > 0,
            ;
        }
        assert(divides(a, b, signed_q, signed_m));
        if l == i64::MIN && r == -1 {
            assert(q == x && m == 0) by (nonlinear_arith)
                requires
                    d == 1,
                    q == x / d,
                    m == x % d,
            ;
        } else {
            assert(signed_q <= i64::MAX) by (nonlinear_arith)
                requires
                    q * d + m == x,
                    0 <= m,
                    0 <= q <= x,
                    x <= 0x8000_0000_0000_0000,
                    d >= 1,
                    d > 1 || signed_q <= x && (x <= i64::MAX || signed_q < 0),
                    signed_q == q || signed_q == -q,
            ;
        }
        let quotient = signed_q as i64;
        let remainder = signed_m as i64;
        if i64::MIN <= signed_q <= i64::MAX {
            assert(divides(a, b, quotient as int, remainder as int));
        }
        assert(divides(a, b, signed_q, remainder as int));
    }
}

/// No other operator has a value, and no operator has one unless both operands
/// are integers.
pub proof fn law_what_has_no_value<'ast>(s: State<'ast>, expr: Expression)
    requires
        expr.kind is Binary,
    ensures
        ({
            let operator = expr.kind->Binary_operator.inner;
            let (left, right) = (*expr.kind->Binary_left, *expr.kind->Binary_right);
            &&& s.eval_const_expr(&expr) is Some ==> operator.is_arithmetic()
            &&& s.eval_const_expr(&expr) is Some ==> (exists|l: i64, r: i64| #[trigger]
                evaluates_to(s, left, l) && #[trigger] evaluates_to(s, right, r))
        }),
{
    let (left, right) = (*expr.kind->Binary_left, *expr.kind->Binary_right);
    match (s.eval_const_expr(&left), s.eval_const_expr(&right)) {
        (Some(ConstValue::Int(l)), Some(ConstValue::Int(r))) => {
            assert(evaluates_to(s, left, l) && evaluates_to(s, right, r));
        },
        _ => {},
    }
}

/// A sign turns the value of an integer round, and inverting its bits turns it
/// round and takes one off. Nothing else with one operand has a value.
pub proof fn law_value_of_one_operand<'ast>(s: State<'ast>, expr: Expression)
    requires
        expr.kind is Unary,
    ensures
        ({
            let operator = expr.kind->Unary_operator.inner;
            let operand = *expr.kind->Unary_operand;
            let value = s.eval_const_expr(&expr);
            match s.eval_const_expr(&operand) {
                Some(ConstValue::Int(v)) => {
                    &&& operator == UnaryOp::InvertSign ==> (value matches Some(
                        ConstValue::Int(n),
                    ) && is_cut_off(n, -v))
                    &&& operator == UnaryOp::BitNot ==> value == Some(
                        ConstValue::Int((-v - 1) as i64),
                    )
                    &&& operator == UnaryOp::Not ==> value is None
                },
                _ => value is None,
            }
        }),
{
    let operand = *expr.kind->Unary_operand;
    match s.eval_const_expr(&operand) {
        Some(ConstValue::Int(v)) => {
            assert(!v == (-v - 1) as i64) by (bit_vector);
        },
        _ => {},
    }
}

/// A name of a constant is worth what the constant is.
pub proof fn law_value_of_a_name<'ast>(s: State<'ast>, expr: Expression, index: usize)
    requires
        expr.kind matches ExprKind::Const { id } && s.item(id) == Some(ItemIndex::Const(index)),
        index < s.constants.len(),
    ensures
        s.eval_const_expr(&expr) == s.constants[index as int].const_value,
{
}

/// A member of a namespace is worth what it is without the namespace.
pub proof fn law_value_of_a_member<'ast>(s: State<'ast>, expr: Expression)
    requires
        expr.kind is NamespaceAccess,
    ensures
        s.eval_const_expr(&expr) == s.eval_const_expr(&*expr.kind->NamespaceAccess_member),
{
}

/// What runs only when the program does has no value.
pub proof fn law_only_constants_have_values<'ast>(s: State<'ast>, expr: Expression)
    ensures
        s.eval_const_expr(&expr) is Some ==> expr.kind is Int || expr.kind is Float || expr.kind
            is Bool || expr.kind is Char || expr.kind is Unary || expr.kind is Binary || expr.kind
            is Const || expr.kind is NamespaceAccess,
{
}

} // verus!
