//! Array, struct and tuple literals as they are written: the whole has the
//! parts that are written, in order, and what does not fit is reported.

use vstd::prelude::*;

use crate::ast;
use crate::ast::StructInitField;
use crate::failures::more_is_reported;
use crate::growth;
use crate::laws;
use crate::list;
use crate::list::List;
use crate::lookup::TypeArgArity;
use crate::rules::operators::is_a_literal;
use crate::rules::values::{law_size_of_an_array, law_value_of_a_field};
use crate::scope::ExprContext;
use crate::shape::reading;
use crate::span::{DefId, Spanned, Symbol, TextSpan};
use crate::state::State;
use crate::tir::{AccessContext, ExprKind, Expression};
use crate::ty;
use crate::types::{Type, TypeIndex};
use crate::typing;
use crate::typing::FieldAccessKind;

verus! {

// ---------------------------------------------------------------- arrays

/// `[value; count]` is an array of that many values where the count is an
/// integer literal; another count is reported, and so is a size other than the
/// expected one.
#[verifier::rlimit(60)]
pub proof fn law_repeated_element<'ast>(
    s: State<'ast>,
    ctx: ExprContext,
    access: AccessContext,
    expr: Spanned<ast::Expression>,
    value: Box<Spanned<ast::Expression>>,
    count: Box<Spanned<ast::Expression>>,
    pending: spec_fn(State<'ast>, DefId) -> State<'ast>,
)
    requires
        expr.inner == (ast::Expression::ArrayRepeat { value, count }),
    ensures
        ({
            let (s1, ctx1, counted) = s.build_expression(ctx, reading(ty::INFER), &*count, pending);
            let (t, later, built) = s.build_array_repeat_expression(ctx, access, &expr, pending);
            let expected = s.expected_array(access.expected_type);
            match counted {
                Some(number) => match number.kind {
                    ExprKind::Int { value: times } => {
                        let size = #[verifier::truncate]
                        (times as u32);
                        &&& (expected.size matches Some(asked) && asked != size) ==> built is None
                            && more_is_reported(s1, t)
                        &&& built matches Some(whole) ==> (whole.kind matches ExprKind::ArrayRepeat {
                            value: kept,
                            count: repeated,
                            memory,
                        } && repeated == size && whole.span == expr.span && (t.types.len()
                            < usize::MAX ==> t.ty(whole.ty) == (Type::Array {
                            of: kept.ty,
                            size,
                            memory,
                            mutable: expected.mutable,
                        })))
                    },
                    _ => built is None && more_is_reported(s1, t),
                },
                None => built is None,
            }
        }),
{
    broadcast use growth::group_finishing;

    reveal(State::report);
    let expected = s.expected_array(access.expected_type);
    let context = ctx.resolve_context;
    let (s1, ctx1, counted) = s.build_expression(ctx, reading(ty::INFER), &*count, pending);
    match counted {
        Some(number) => match number.kind {
            ExprKind::Int { value: times } => {
                let size = typing::repeat_size(times);
                law_size_of_an_array(s1, expected.size, size, size as usize, context.at(expr.span));
            },
            _ => {},
        },
        None => {},
    }
    assert forall|state: State<'ast>, ty: Type| (#[trigger] state.intern(ty)).0.types.len()
        < usize::MAX implies state.intern(ty).0.ty(state.intern(ty).1) == ty by {
        reveal(State::intern);
        laws::law_interned_type_reads_back(state, ty);
    }
}

proof fn as_many_elements<'ast>(
    s: State<'ast>,
    ctx: ExprContext,
    elements: List<Spanned<ast::Expression>>,
    expected: TypeIndex,
    pending: spec_fn(State<'ast>, DefId) -> State<'ast>,
)
    ensures
        s.build_array_elements(ctx, &elements, expected, pending).2 matches Some(built)
            ==> built.count() == elements.count(),
    decreases elements,
{
    match elements {
        List::Nil => {},
        List::Cons(element, rest) => {
            let (s1, ctx1, built) = s.build_expression(ctx, reading(expected), &*element, pending);
            match built {
                Some(value) => {
                    let (s2, ctx2, fitted) = s1.check_array_element(ctx1, value, expected);
                    as_many_elements(s2, ctx2, *rest, expected, pending);
                },
                None => {},
            }
        },
    }
}

/// An array literal is an array of as many elements as are written; a number
/// other than the expected one is reported.
pub proof fn law_array_literal<'ast>(
    s: State<'ast>,
    ctx: ExprContext,
    access: AccessContext,
    elements: List<Spanned<ast::Expression>>,
    span: TextSpan,
    pending: spec_fn(State<'ast>, DefId) -> State<'ast>,
)
    requires
        elements.count() <= u32::MAX,
    ensures
        ({
            let expected = s.expected_array(access.expected_type);
            let (t, later, built) = s.build_array_literal_expression(
                ctx,
                access,
                &elements,
                span,
                pending,
            );
            &&& (expected.size matches Some(asked) && asked != elements.count()) ==> built is None
                && more_is_reported(s, t)
            &&& built matches Some(whole) ==> (whole.kind matches ExprKind::ArrayLiteral {
                elements: kept,
                memory,
            } && kept.count() == elements.count() && (t.types.len() < usize::MAX ==> (t.ty(
                whole.ty,
            ) matches Type::Array { of: _, size, memory: held, mutable } && size
                == elements.count() && held == memory && mutable == expected.mutable)))
        }),
{
    let expected = s.expected_array(access.expected_type);
    law_size_of_an_array(
        s,
        expected.size,
        typing::array_size(elements.len()),
        elements.len(),
        ctx.resolve_context.at(span),
    );
    let size = typing::array_size(elements.len());
    assert(elements.len() == elements.count());
    let count: usize = elements.len();
    assert(count <= u32::MAX ==> count as u32 == count);
    as_many_elements(s, ctx, elements, expected.of, pending);
    assert forall|state: State<'ast>, ty: Type| (#[trigger] state.intern(ty)).0.types.len()
        < usize::MAX implies state.intern(ty).0.ty(state.intern(ty).1) == ty by {
        reveal(State::intern);
        laws::law_interned_type_reads_back(state, ty);
    }
}

// ---------------------------------------------------------------- structs

/// The value of a field is the written one, in the shorthand the variable of
/// the field's name. One that is no number literal and cannot be used as the
/// field's type is reported.
pub proof fn law_written_field_value<'ast>(
    s: State<'ast>,
    ctx: ExprContext,
    field: StructInitField,
    expected: TypeIndex,
    pending: spec_fn(State<'ast>, DefId) -> State<'ast>,
)
    ensures
        ({
            let (s1, ctx1, value) = match field.value {
                Some(written) => s.build_expression(ctx, reading(expected), &written, pending),
                None => {
                    let (s1, ctx1, named) = s.build_name_expression(
                        ctx,
                        reading(expected),
                        field.name.inner,
                        field.name.span,
                    );
                    (s1, ctx1, Some(named))
                },
            };
            let (t, later, kept) = s.build_field_value(ctx, &field, expected, pending);
            match value {
                Some(given) => !is_a_literal(given.ty) ==> {
                    &&& s1.coercible(given.ty, expected).1 ==> kept == Some(given) && t.diagnostics
                        == s1.diagnostics
                    &&& !s1.coercible(given.ty, expected).1 ==> kept is None && more_is_reported(
                        s1,
                        t,
                    )
                },
                None => kept is None,
            }
        }),
{
    match field.value {
        Some(written) => {
            let (s1, ctx1, value) = s.build_expression(ctx, reading(expected), &written, pending);
            match value {
                Some(given) => law_value_of_a_field(s1, ctx1, given, expected),
                None => {},
            }
        },
        None => {
            let (s1, ctx1, named) = s.build_name_expression(
                ctx,
                reading(expected),
                field.name.inner,
                field.name.span,
            );
            law_value_of_a_field(s1, ctx1, named, expected);
        },
    }
}

/// A field that the struct does not have is reported, and so is a field that
/// was mentioned before; neither changes the values.
pub proof fn law_fields_that_are_not_taken<'ast>(
    s: State<'ast>,
    ctx: ExprContext,
    field: StructInitField,
    struct_index: usize,
    struct_name: Symbol,
    args: List<TypeIndex>,
    mentions: List<Option<TextSpan>>,
    slots: List<Option<Expression>>,
    pending: spec_fn(State<'ast>, DefId) -> State<'ast>,
)
    ensures
        ({
            let (s1, resolved) = s.resolve_struct_field(
                ctx.resolve_context,
                struct_index,
                &args,
                field.name,
                FieldAccessKind::Init,
            );
            let (t, later, (noted, values)) = s.build_init_field(
                ctx,
                &field,
                struct_index,
                struct_name,
                &args,
                mentions,
                slots,
                pending,
            );
            let taken = resolved matches Some(found) && !(mentions.at(
                found.index as nat,
            ) matches Some(mention) && mention is Some);
            &&& !taken ==> more_is_reported(s1, t) && noted == mentions && values == slots
            &&& taken ==> noted == mentions.replaced(
                resolved->0.index as nat,
                Some(field.name.span),
            )
            &&& taken ==> match s1.build_field_value(ctx, &field, resolved->0.ty, pending).2 {
                Some(value) => values == slots.replaced(resolved->0.index as nat, Some(value)),
                None => values == slots,
            }
        }),
{
    reveal(State::report);
}

/// A struct literal of a type that is no struct is reported.
pub proof fn law_literal_of_another_type<'ast>(
    s: State<'ast>,
    ctx: ExprContext,
    access: AccessContext,
    expr: Spanned<ast::Expression>,
    pending: spec_fn(State<'ast>, DefId) -> State<'ast>,
)
    requires
        expr.inner is StructInit,
    ensures
        ({
            let (s1, of) = s.resolve_path_type(
                ctx.resolve_context,
                ctx.scope,
                &expr.inner->StructInit_path,
                expr.span,
                TypeArgArity::AllowInfer,
                pending,
            );
            let (t, later, built) = s.build_struct_init_expression(ctx, access, &expr, pending);
            &&& of == ty::ERROR ==> built is None && t == s1
            &&& of != ty::ERROR && !(s1.ty(of) is Struct) ==> built is None && more_is_reported(
                s1,
                t,
            )
            &&& of != ty::ERROR && s1.ty(of) is Struct ==> (built matches Some(whole) && whole.span
                == expr.span && (whole.kind matches ExprKind::StructInit {
                struct_index,
                fields: _,
            } && struct_index == s1.ty(of)->Struct_struct_index))
        }),
{
    reveal(State::report);
    reveal(State::finish_struct_init);
}

// ---------------------------------------------------------------- tuples

/// The elements of a tuple that are built stay in order; none is left out
/// unless one failed.
pub proof fn law_elements_of_a_tuple<'ast>(
    s: State<'ast>,
    ctx: ExprContext,
    elements: List<Spanned<ast::Expression>>,
    types: Option<List<TypeIndex>>,
    index: usize,
    pending: spec_fn(State<'ast>, DefId) -> State<'ast>,
)
    ensures
        ({
            let (built, failed) = s.build_tuple_elements(ctx, &elements, &types, index, pending).2;
            &&& !failed ==> built.count() == elements.count()
            &&& failed ==> built.count() < elements.count()
        }),
    decreases elements,
{
    match elements {
        List::Nil => {},
        List::Cons(element, rest) => {
            let expected = typing::type_at_or_infer(&types, index);
            let (s1, ctx1, built) = s.build_expression(ctx, reading(expected), &*element, pending);
            match built {
                Some(value) => {
                    let (s2, ctx2, _) = s1.settle_element(ctx1, value, expected);
                    law_elements_of_a_tuple(
                        s2,
                        ctx2,
                        *rest,
                        types,
                        crate::scope::next_index(index),
                        pending,
                    );
                },
                None => {
                    law_elements_of_a_tuple(
                        s1,
                        ctx1,
                        *rest,
                        types,
                        crate::scope::next_index(index),
                        pending,
                    );
                },
            }
        },
    }
}

/// The first element is built as the first expected type asks.
pub proof fn law_first_element_of_a_tuple<'ast>(
    s: State<'ast>,
    ctx: ExprContext,
    element: Spanned<ast::Expression>,
    rest: List<Spanned<ast::Expression>>,
    types: Option<List<TypeIndex>>,
    index: usize,
    pending: spec_fn(State<'ast>, DefId) -> State<'ast>,
)
    ensures
        ({
            let expected = match types {
                Some(known) => match known.at(index as nat) {
                    Some(found) => found,
                    None => ty::INFER,
                },
                None => ty::INFER,
            };
            let (s1, ctx1, value) = s.build_expression(ctx, reading(expected), &element, pending);
            let (built, failed) = s.build_tuple_elements(
                ctx,
                &list::cons(element, rest),
                &types,
                index,
                pending,
            ).2;
            match value {
                Some(given) => !is_a_literal(given.ty) ==> built.at(0) == Some(given),
                None => failed,
            }
        }),
{
}

} // verus!
