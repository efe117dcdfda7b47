//! What goes where: which types can be used as which others, which types
//! number literals take, and what casts are possible.

use vstd::prelude::*;

use crate::ast::UnaryOp;
use crate::failures::more_is_reported;
use crate::list::List;
use crate::pool;
use crate::relate::MAX_DEPTH;
use crate::rules::bounds::same_but_reports;
use crate::rules::operators::{is_a_literal, is_a_scalar, is_an_integer};
use crate::scope::ExprContext;
use crate::span::{FileId, SourceSpan, TextSpan};
use crate::state::State;
use crate::tir::{ExprKind, Expression};
use crate::ty;
use crate::types::{Type, TypeIndex, WasmScalar};

verus! {

// ---------------------------------------------------------------- coercion

/// Whether a type is another one without the right to write.
pub open spec fn loses_the_right_to_write(from: Type, to: Type) -> bool {
    match from {
        Type::Pointer { to: a, memory: m, mutable: true } => to == (Type::Pointer {
            to: a,
            memory: m,
            mutable: false,
        }),
        Type::Slice { of, memory, mutable: true } => to == (Type::Slice {
            of,
            memory,
            mutable: false,
        }),
        Type::Array { of, size, memory, mutable: true } => to == (Type::Array {
            of,
            size,
            memory,
            mutable: false,
        }),
        _ => false,
    }
}

/// Whether a type is a named function whose function type is another type.
pub open spec fn is_a_function_of<'ast>(s: State<'ast>, from: TypeIndex, to: TypeIndex) -> bool {
    &&& s.ty(to) is Function
    &&& s.ty(from) matches Type::FunctionItem { id, type_args } && s.substituted(
        s.signature_of(id),
        type_args,
        MAX_DEPTH,
    ).1 == to
}

/// A value of one type can be used as one of another exactly where the types
/// are the same, the value never comes about, one of the types is poisoned,
/// the right to write is lost, or a named function becomes a value of its
/// function type.
pub proof fn law_what_can_be_used_as_what<'ast>(s: State<'ast>, a: TypeIndex, b: TypeIndex)
    ensures
        s.coercible(a, b).1 <==> {
            ||| a == b
            ||| a == ty::NEVER
            ||| a == ty::ERROR
            ||| b == ty::ERROR
            ||| loses_the_right_to_write(s.ty(a), s.ty(b))
            ||| is_a_function_of(s, a, b)
        },
{
}

/// A type that does not go where another is expected is reported, and one that
/// does is not.
pub proof fn law_misfit_is_reported<'ast>(
    s: State<'ast>,
    actual: TypeIndex,
    expected: TypeIndex,
    span: SourceSpan,
)
    ensures
        ({
            let (t, fits) = s.check_coercible(actual, expected, span);
            &&& fits == s.coercible(actual, expected).1
            &&& fits ==> t.diagnostics == s.diagnostics
            &&& !fits ==> more_is_reported(s, t)
        }),
{
    reveal(State::report);
    pool::law_comparing_changes_types_alone(s, actual, expected);
}

/// Both branches can be used as the type that they agree on, which is that of
/// one of them, the poison type, or, for two named functions, the function
/// type that both have.
pub proof fn law_agreed_type<'ast>(s: State<'ast>, a: TypeIndex, b: TypeIndex)
    ensures
        ({
            let (t, found) = s.unified(a, b);
            &&& found == Some(a) || found == Some(b) || found == Some(ty::ERROR) || found is None || (
            s.ty(a) is FunctionItem && s.ty(b) is FunctionItem)
            &&& a == b || b == ty::NEVER ==> found == Some(a)
            &&& a == ty::NEVER ==> found == Some(b)
            &&& a != b && a != ty::NEVER && b != ty::NEVER ==> {
                &&& a == ty::ERROR || b == ty::ERROR ==> found == Some(ty::ERROR)
                &&& a != ty::ERROR && b != ty::ERROR && !(s.ty(a) is FunctionItem && s.ty(
                    b,
                ) is FunctionItem) ==> found is None
                &&& a != ty::ERROR && b != ty::ERROR ==> (s.ty(a) matches Type::FunctionItem {
                    id: a_id,
                    type_args: a_args,
                } ==> (s.ty(b) matches Type::FunctionItem { id: b_id, type_args: b_args } ==> {
                    let (u, of_a) = s.substituted(s.signature_of(a_id), a_args, MAX_DEPTH);
                    let (_, of_b) = u.substituted(s.signature_of(b_id), b_args, MAX_DEPTH);
                    found == if of_a == of_b {
                        Some(of_a)
                    } else {
                        None
                    }
                }))
            }
        }),
{
}

/// What is expected of an argument is the parameter's type with the type
/// arguments in it; a parameter that is still a type parameter, a literal or
/// poisoned says nothing.
pub proof fn law_expectation_of_an_argument<'ast>(
    s: State<'ast>,
    param: TypeIndex,
    type_args: List<TypeIndex>,
)
    ensures
        ({
            let (t, concrete) = s.substituted(param, type_args, MAX_DEPTH);
            let (later, expected) = s.expected(param, type_args);
            &&& later == t
            &&& t.ty(concrete) is TypeParam || t.ty(concrete) is Integer || t.ty(concrete) is Float
                || t.ty(concrete) is Error ==> expected == ty::INFER
            &&& !(t.ty(concrete) is TypeParam || t.ty(concrete) is Integer || t.ty(
                concrete,
            ) is Float || t.ty(concrete) is Error) ==> expected == concrete
        }),
{
}

/// A type holds a literal's type exactly where it is one, or it is a struct or
/// a tuple and one of its parts holds one.
pub proof fn law_literal_inside_a_type<'ast>(s: State<'ast>, index: TypeIndex, depth: usize)
    ensures
        s.has_comptime_number(index) == s.has_comptime_number_within(index, MAX_DEPTH),
        s.has_comptime_number_within(index, depth) <==> {
            ||| is_a_literal(index)
            ||| s.ty(index) matches Type::Struct { struct_index: _, args } && depth > 0 && exists|
                i: nat,
            |
                (#[trigger] args.at(i)) matches Some(part) && s.has_comptime_number_within(
                    part,
                    (depth - 1) as usize,
                )
            ||| s.ty(index) matches Type::Tuple { elements } && depth > 0 && exists|i: nat|
                (#[trigger] elements.at(i)) matches Some(part) && s.has_comptime_number_within(
                    part,
                    (depth - 1) as usize,
                )
        },
{
    match s.ty(index) {
        Type::Struct { struct_index: _, args } => {
            literal_in_a_list(s, args, depth);
        },
        Type::Tuple { elements } => {
            literal_in_a_list(s, elements, depth);
        },
        _ => {},
    }
}

proof fn literal_in_a_list<'ast>(s: State<'ast>, types: List<TypeIndex>, depth: usize)
    ensures
        s.any_comptime_number(types, depth) <==> depth > 0 && exists|i: nat|
            (#[trigger] types.at(i)) matches Some(part) && s.has_comptime_number_within(
                part,
                (depth - 1) as usize,
            ),
    decreases types,
{
    match types {
        List::Nil => {},
        List::Cons(head, tail) => {
            literal_in_a_list(s, *tail, depth);
            let inner = (depth - 1) as usize;
            if depth > 0 && s.has_comptime_number_within(*head, inner) {
                assert(types.at(0) == Some(*head));
            }
            if s.any_comptime_number(*tail, depth) {
                let i = choose|i: nat|
                    (#[trigger] tail.at(i)) matches Some(part) && s.has_comptime_number_within(
                        part,
                        inner,
                    );
                assert(types.at(i + 1) == tail.at(i));
            }
            if depth > 0 && exists|i: nat|
                (#[trigger] types.at(i)) matches Some(part) && s.has_comptime_number_within(
                    part,
                    inner,
                ) {
                let i = choose|i: nat|
                    (#[trigger] types.at(i)) matches Some(part) && s.has_comptime_number_within(
                        part,
                        inner,
                    );
                if i > 0 {
                    assert(tail.at((i - 1) as nat) == types.at(i));
                }
            }
        },
    }
}

// ---------------------------------------------------------------- literals

/// The smallest value of an integer type or of `char`.
pub open spec fn least(index: TypeIndex) -> int {
    if index == ty::I8 {
        -0x80
    } else if index == ty::I16 {
        -0x8000
    } else if index == ty::I32 {
        -0x8000_0000
    } else if index == ty::I64 {
        -0x8000_0000_0000_0000
    } else {
        0
    }
}

/// The largest value that an integer literal of an integer type or of `char`
/// can have.
pub open spec fn greatest(index: TypeIndex) -> int {
    if index == ty::U8 {
        0xff
    } else if index == ty::I8 {
        0x7f
    } else if index == ty::U16 {
        0xffff
    } else if index == ty::I16 {
        0x7fff
    } else if index == ty::U32 || index == ty::CHAR {
        0xffff_ffff
    } else if index == ty::I32 {
        0x7fff_ffff
    } else if index == ty::U64 {
        0xffff_ffff_ffff_ffff
    } else {
        0x7fff_ffff_ffff_ffff
    }
}

/// An integer literal takes every integer type and `char`, and is reported
/// exactly where the type has no such value. It takes no float type and no
/// other type that is not bound to a typeset, which is reported.
pub proof fn law_integer_literal<'ast>(
    s: State<'ast>,
    file_id: FileId,
    value: i64,
    span: TextSpan,
    target: TypeIndex,
)
    ensures
        ({
            let (t, fits) = s.coerce_untyped_int_expr(file_id, value, span, target);
            &&& same_but_reports(s, t)
            &&& is_an_integer(target) || target == ty::CHAR ==> {
                &&& fits
                &&& least(target) <= value <= greatest(target) ==> t == s
                &&& !(least(target) <= value <= greatest(target)) ==> more_is_reported(s, t)
            }
            &&& target == ty::F32 || target == ty::F64 ==> !fits && more_is_reported(s, t)
            &&& !is_an_integer(target) && target != ty::CHAR && target != ty::F32 && target
                != ty::F64 && !(s.ty(target) is Pointer) ==> match s.typeset_bound(target) {
                Some(typeset) => typeset < s.typesets.len() ==> {
                    let range = s.typesets[typeset as int].intersection_range;
                    &&& fits <==> range.min <= value <= range.max
                    &&& fits ==> t == s
                    &&& !fits ==> more_is_reported(s, t)
                },
                None => !fits && more_is_reported(s, t),
            }
            &&& s.ty(target) is Pointer && target > ty::CHAR ==> {
                &&& s.scalar(target) == Some(WasmScalar::I32) ==> fits && (t == s <==> least(ty::U32)
                    <= value <= greatest(ty::U32))
                &&& s.scalar(target) == Some(WasmScalar::I64) ==> fits && (t == s <==> least(ty::U64)
                    <= value <= greatest(ty::U64))
            }
        }),
{
    reveal(State::coerce_untyped_int_expr);
    reveal(State::check_literal_range);
    reveal(State::check_typeset_range);
    reveal(State::report);
}

/// A float literal takes the two float types, and is reported anywhere else.
pub proof fn law_float_literal<'ast>(
    s: State<'ast>,
    file_id: FileId,
    span: TextSpan,
    target: TypeIndex,
)
    ensures
        ({
            let (t, fits) = s.coerce_untyped_float_expr(file_id, span, target);
            &&& fits <==> target == ty::F32 || target == ty::F64
            &&& fits ==> t == s
            &&& !fits ==> more_is_reported(s, t)
            &&& same_but_reports(s, t)
        }),
{
    reveal(State::report);
}

/// An expression of literals keeps its value, its operators and the order of
/// its operands when it takes a type; each operand takes the type with it.
pub proof fn law_literal_keeps_its_value<'ast>(
    s: State<'ast>,
    ctx: ExprContext,
    expr: Expression,
    target: TypeIndex,
)
    ensures
        ({
            let (t, later, (typed, fits)) = s.coerce_untyped_expr(ctx, expr, target);
            match expr.kind {
                ExprKind::Int { value } => {
                    &&& typed.kind == expr.kind
                    &&& (t, fits) == s.coerce_untyped_int_expr(
                        ctx.resolve_context.file_id,
                        value,
                        expr.span,
                        target,
                    )
                },
                ExprKind::Float { bits } => {
                    &&& typed.kind == expr.kind
                    &&& (t, fits) == s.coerce_untyped_float_expr(
                        ctx.resolve_context.file_id,
                        expr.span,
                        target,
                    )
                },
                ExprKind::Unary { operator, operand } => {
                    &&& typed.kind matches ExprKind::Unary { operator: op, operand: inner } && op
                        == operator && (fits ==> inner.ty == target)
                    &&& operator.inner == UnaryOp::Not || (target != ty::I32 && target != ty::I64)
                        ==> !fits && more_is_reported(s, t)
                    &&& fits <==> operator.inner != UnaryOp::Not && (target == ty::I32 || target
                        == ty::I64) && s.coerce_untyped_expr(ctx, *operand, target).2.1
                },
                ExprKind::Binary { operator, left, right } => {
                    &&& typed.kind matches ExprKind::Binary { operator: op, left: l, right: r }
                        && op == operator && (fits ==> l.ty == target && r.ty == target)
                        && l.span == left.span && r.span == right.span
                    &&& fits ==> (operator.inner.is_arithmetic() && is_a_scalar(target)) || (
                    operator.inner.is_bitwise() && (target == ty::I32 || target == ty::U32 || target
                        == ty::I64 || target == ty::U64))
                    &&& !operator.inner.is_arithmetic() && !operator.inner.is_bitwise() ==> !fits
                        && more_is_reported(s, t)
                },
                ExprKind::Block { scope_index, expressions, result } => {
                    &&& typed.kind matches ExprKind::Block {
                        scope_index: scope,
                        expressions: statements,
                        result: last,
                    } && scope == scope_index && statements == expressions && (fits ==> (
                    last matches Some(value) && value.ty == target))
                    &&& fits <==> (result matches Some(value) && s.coerce_untyped_expr(
                        ctx,
                        *value,
                        target,
                    ).2.1)
                },
                _ => !fits && typed == expr && t == s && later == ctx,
            }
        }),
    decreases expr,
{
    reveal(State::report);
    match expr.kind {
        ExprKind::Unary { operator, operand } => {
            super::law_literal_takes_the_type(s, ctx, *operand, target);
        },
        ExprKind::Binary { operator, left, right } => {
            super::law_literal_takes_the_type(s, ctx, *left, target);
            let (t, later, _) = s.coerce_untyped_expr(ctx, *left, target);
            super::law_literal_takes_the_type(t, later, *right, target);
        },
        ExprKind::Block { scope_index, expressions, result } => {
            match result {
                Some(last) => {
                    super::law_literal_takes_the_type(s, ctx, *last, target);
                },
                None => {},
            }
        },
        _ => {},
    }
}

/// Giving an expression of literals a type only reports.
pub proof fn law_literals_only_report<'ast>(
    s: State<'ast>,
    ctx: ExprContext,
    expr: Expression,
    target: TypeIndex,
)
    ensures
        same_but_reports(s, s.coerce_untyped_expr(ctx, expr, target).0),
    decreases expr,
{
    reveal(State::report);
    let file_id = ctx.resolve_context.file_id;
    match expr.kind {
        ExprKind::Int { value } => {
            reveal(State::coerce_untyped_int_expr);
            reveal(State::check_literal_range);
            reveal(State::check_typeset_range);
        },
        ExprKind::Unary { operator, operand } => {
            law_literals_only_report(s, ctx, *operand, target);
        },
        ExprKind::Binary { operator, left, right } => {
            law_literals_only_report(s, ctx, *left, target);
            let (t, later, _) = s.coerce_untyped_expr(ctx, *left, target);
            law_literals_only_report(t, later, *right, target);
        },
        ExprKind::Block { scope_index, expressions, result } => {
            match result {
                Some(last) => {
                    law_literals_only_report(s, ctx, *last, target);
                },
                None => {},
            }
        },
        _ => {},
    }
}

/// A literal is settled with the type that is expected of it, and lost exactly
/// where it does not fit; any other value stays.
pub proof fn law_settled_literal<'ast>(
    s: State<'ast>,
    ctx: ExprContext,
    value: Expression,
    expected: TypeIndex,
)
    ensures
        ({
            let (t, later, settled) = s.settle_literal(ctx, value, expected);
            &&& !is_a_literal(value.ty) ==> t == s && later == ctx && settled == Some(value)
            &&& is_a_literal(value.ty) ==> {
                &&& settled is Some <==> s.coerce_untyped_expr(ctx, value, expected).2.1
                &&& settled matches Some(typed) ==> typed.ty == expected && typed.span == value.span
            }
        }),
{
    reveal(State::settle_literal);
    super::law_literal_takes_the_type(s, ctx, value, expected);
}

// ---------------------------------------------------------------- casts

/// How WebAssembly holds the built-in types.
pub proof fn law_scalars_of_types<'ast>(s: State<'ast>, index: TypeIndex)
    ensures
        match s.ty(index) {
            Type::Bool | Type::U8 | Type::I8 | Type::U16 | Type::I16 | Type::I32 | Type::U32
            | Type::Char | Type::Function { .. } => s.scalar(index) == Some(WasmScalar::I32),
            Type::U64 | Type::I64 => s.scalar(index) == Some(WasmScalar::I64),
            Type::F32 => s.scalar(index) == Some(WasmScalar::F32),
            Type::F64 => s.scalar(index) == Some(WasmScalar::F64),
            Type::Enum { enum_index } => enum_index < s.enums.len() ==> s.scalar(index)
                == s.scalar_within(
                s.enums[enum_index as int].repr_type,
                (MAX_DEPTH - 1) as usize,
            ),
            Type::Pointer { .. } => true,
            _ => s.scalar(index) is None,
        },
{
}

/// A cast changes the type of a value that is held the same way, and nothing
/// else of it; another cast is reported, and the value kept. A literal takes
/// the type.
pub proof fn law_cast<'ast>(
    s: State<'ast>,
    ctx: ExprContext,
    value: Expression,
    target: TypeIndex,
    span: TextSpan,
)
    ensures
        ({
            let (t, later, cast) = s.finish_cast(ctx, value, target, span);
            &&& !is_a_literal(value.ty) && s.scalar_compatible(value.ty, target) ==> t == s && cast
                == Some(Expression { kind: value.kind, ty: target, span: value.span })
            &&& !is_a_literal(value.ty) && !s.scalar_compatible(value.ty, target)
                ==> more_is_reported(s, t) && cast == Some(value)
            &&& is_a_literal(value.ty) ==> (t, later, cast) == s.settle_literal(ctx, value, target)
        }),
{
    reveal(State::finish_cast);
    reveal(State::report);
}

/// Two types outside of pointers, slices, arrays and associated types are held
/// the same way exactly where they are the same or WebAssembly holds both in
/// the same kind of value.
pub proof fn law_same_representation<'ast>(s: State<'ast>, a: TypeIndex, b: TypeIndex)
    ensures
        match (s.ty(a), s.ty(b)) {
            (
                Type::Pointer { to: _, memory: m, mutable: _ },
                Type::Pointer { to: _, memory: n, mutable: _ },
            ) => s.scalar_compatible(a, b) <==> a == b || m == n,
            (
                Type::Slice { of: _, memory: m, mutable: _ },
                Type::Slice { of: _, memory: n, mutable: _ },
            ) => s.scalar_compatible(a, b) <==> a == b || m == n,
            (
                Type::Array { of: _, size: _, memory: m, mutable: _ },
                Type::Array { of: _, size: _, memory: n, mutable: _ },
            ) => s.scalar_compatible(a, b) <==> a == b || m == n,
            (Type::AssocTypeProjection { .. }, _) | (_, Type::AssocTypeProjection { .. }) => true,
            _ => s.scalar_compatible(a, b) <==> a == b || (s.scalar(a) is Some && s.scalar(a)
                == s.scalar(b)),
        },
{
}

/// The address type of a memory is held like a pointer into it.
pub proof fn law_address_is_held_like_a_pointer<'ast>(
    s: State<'ast>,
    address: TypeIndex,
    pointer: TypeIndex,
)
    requires
        s.ty(address) is AssocTypeProjection,
        s.ty(pointer) is Pointer,
    ensures
        s.scalar_compatible(address, pointer) <==> {
            &&& s.ty(address)->AssocTypeProjection_base == s.ty(pointer)->Pointer_memory
            &&& s.ty(address)->AssocTypeProjection_assoc_name == s.names.size
        },
{
}

/// A cast goes to the written type, for `_` to the expected one; where there
/// is none that is reported.
pub proof fn law_target_of_a_cast<'ast>(
    s: State<'ast>,
    written: TypeIndex,
    expected: TypeIndex,
    span: SourceSpan,
)
    ensures
        ({
            let (t, target) = s.cast_target(written, expected, span);
            &&& written == ty::ERROR ==> t == s && target is None
            &&& written != ty::ERROR && written != ty::INFER ==> t == s && target == Some(written)
            &&& written == ty::INFER && expected != ty::INFER ==> t == s && target == Some(expected)
            &&& written == ty::INFER && expected == ty::INFER ==> more_is_reported(s, t) && target
                is None
        }),
{
    reveal(State::cast_target);
    reveal(State::report);
}

} // verus!
