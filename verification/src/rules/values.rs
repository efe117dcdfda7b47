//! Fields, structs, tuples, arrays and places in memory: the types they have,
//! the parts they keep, and what is reported of them.

use vstd::prelude::*;

use crate::ast;
use crate::failures::more_is_reported;
use crate::growth;
use crate::laws;
use crate::list::List;
use crate::lookup;
use crate::rules::bounds::same_but_reports;
use crate::rules::coercion::law_misfit_is_reported;
use crate::rules::operators::{is_a_literal, is_an_integer};
use crate::scope::{next_index, ExprContext};
use crate::shape::reading;
use crate::span::{DefId, FileId, SourceSpan, Spanned, Symbol, TextSpan};
use crate::state::State;
use crate::tir::{
    AccessContext, AccessKind, ExprKind, Expression, PlaceKind, ResolveContext, StructField,
};
use crate::ty;
use crate::types::{Type, TypeIndex};
use crate::typing;
use crate::typing::{ExpectedArray, ResolvedField};

verus! {

// ---------------------------------------------------------------- fields

/// Whether the first field of a name is at a position.
pub open spec fn field_is_at(fields: List<StructField>, name: Symbol, position: nat) -> bool {
    &&& fields.at(position) matches Some(field) && field.name.inner == name
    &&& forall|j: nat|
        j < position ==> ((#[trigger] fields.at(j)) matches Some(field) && field.name.inner != name)
}

proof fn position_of_a_field(fields: List<StructField>, name: Symbol, from: usize)
    requires
        from + fields.count() <= usize::MAX,
    ensures
        match lookup::field_position(&fields, name, from) {
            Some(found) => from <= found && field_is_at(fields, name, (found - from) as nat),
            None => forall|i: nat|
                (#[trigger] fields.at(i)) matches Some(field) ==> field.name.inner != name,
        },
    decreases fields,
{
    match fields {
        List::Nil => {},
        List::Cons(head, rest) => {
            assert(fields.at(0) == Some(*head));
            if head.name.inner != name {
                position_of_a_field(*rest, name, next_index(from));
                assert forall|i: nat| i > 0 implies #[trigger] fields.at(i) == rest.at(
                    (i - 1) as nat,
                ) by {}
                match lookup::field_position(&*rest, name, next_index(from)) {
                    Some(found) => {
                        let position = (found - from) as nat;
                        assert(fields.at(position) == rest.at((position - 1) as nat));
                        assert forall|j: nat| j < position implies ((#[trigger] fields.at(
                            j,
                        )) matches Some(field) && field.name.inner != name) by {
                            if j > 0 {
                                assert(rest.at((j - 1) as nat) == fields.at(j));
                            }
                        }
                    },
                    None => {},
                }
            }
        },
    }
}

/// A field is found by its name, with the type that it is declared with.
pub proof fn law_field_is_found_by_its_name<'ast>(
    s: State<'ast>,
    struct_index: usize,
    name: Symbol,
)
    requires
        struct_index < s.structs.len(),
        s.structs[struct_index as int].fields.count() <= usize::MAX,
    ensures
        ({
            let fields = s.structs[struct_index as int].fields;
            match s.declared_field(struct_index, name) {
                Some((position, declared)) => field_is_at(fields, name, position as nat)
                    && fields.at(position as nat)->0.ty.inner == declared,
                None => forall|i: nat|
                    (#[trigger] fields.at(i)) matches Some(field) ==> field.name.inner != name,
            }
        }),
{
    position_of_a_field(s.structs[struct_index as int].fields, name, 0);
}

/// A field of a value in memory is a place in the same memory that can be
/// written where the value can be; a field of another value is read from it.
pub proof fn law_field_of_a_value(object: Expression, field: ResolvedField, span: TextSpan)
    ensures
        ({
            let built = typing::field_expression(object, field, span);
            &&& built.ty == field.ty
            &&& built.span == span
            &&& match object.kind {
                ExprKind::Load { place } => built.kind matches ExprKind::Load { place: part }
                    && part.kind == (PlaceKind::Field { object: place, field_index: field.index })
                    && part.ty == field.ty && part.memory == place.memory && part.mutable
                    == place.mutable,
                _ => built.kind matches ExprKind::FieldAccess { object: whole, field_index }
                    && *whole == object && field_index == field.index,
            }
        }),
{
}

/// Reading a field of a struct that is not generic has the field's declared
/// type, and is reported exactly where the field is not accessible.
pub proof fn law_field_access<'ast>(
    s: State<'ast>,
    context: ResolveContext,
    object: Expression,
    member: Spanned<Symbol>,
    span: TextSpan,
    struct_index: usize,
    position: usize,
    declared: TypeIndex,
)
    requires
        s.ty(object.ty) == (Type::Struct { struct_index, args: List::Nil }),
        s.declared_field(struct_index, member.inner) == Some((position, declared)),
        struct_index < s.structs.len(),
    ensures
        ({
            let item = s.structs[struct_index as int];
            let field = item.fields.at(position as nat);
            let accessible = field matches Some(found) && (found.pub_span is Some || s.is_within(
                context.namespace,
                item.namespace,
            ));
            let (t, built) = s.finish_object_access(context, object, member, span);
            &&& built == Some(
                typing::field_expression(
                    object,
                    ResolvedField { index: position, ty: declared },
                    span,
                ),
            )
            &&& accessible ==> t.diagnostics == s.diagnostics
            &&& !accessible ==> more_is_reported(s, t)
        }),
{
    reveal(State::finish_object_access);
    reveal(State::resolve_struct_field);
    reveal(State::check_field_access);
    reveal(State::report);
    reveal(State::access);
    let t = s.access(
        crate::tir::AccessTarget::FieldRead(struct_index, position),
        context.at(member.span),
    );
    seen_from_everywhere(s, t, context.namespace, s.structs[struct_index as int].namespace, s.namespaces.len());
}

proof fn seen_from_everywhere<'ast>(
    s: State<'ast>,
    t: State<'ast>,
    inner: Option<usize>,
    outer: Option<usize>,
    steps: nat,
)
    requires
        s.namespaces == t.namespaces,
    ensures
        s.is_within_steps(inner, outer, steps) == t.is_within_steps(inner, outer, steps),
    decreases steps,
{
    match inner {
        Some(index) => {
            if steps > 0 {
                seen_from_everywhere(
                    s,
                    t,
                    s.namespace_around(index),
                    outer,
                    (steps - 1) as nat,
                );
            }
        },
        None => {},
    }
}

// ---------------------------------------------------------------- structs

/// A field has no mention exactly where one of the places for mentions is
/// empty.
pub proof fn law_missing_fields(fields: List<StructField>, mentions: List<Option<TextSpan>>)
    requires
        fields.count() == mentions.count(),
    ensures
        typing::unmentioned_fields(&fields, &mentions) is Nil <==> (forall|i: nat|
            (#[trigger] mentions.at(i)) matches Some(mention) ==> mention is Some),
    decreases fields,
{
    match (fields, mentions) {
        (List::Cons(_, fields_rest), List::Cons(mention, rest)) => {
            law_missing_fields(*fields_rest, *rest);
            assert(mentions.at(0) == Some(*mention));
            assert forall|i: nat| #[trigger] rest.at(i) == mentions.at(i + 1) by {}
            if typing::unmentioned_fields(&fields, &mentions) is Nil {
                assert forall|i: nat| (#[trigger] mentions.at(i)) is Some implies mentions.at(i)->0
                    is Some by {
                    if i > 0 {
                        assert(rest.at((i - 1) as nat) == mentions.at(i));
                    }
                }
            }
        },
        _ => {},
    }
}

/// The values of all fields are there in order where each has one, and none at
/// all otherwise.
pub proof fn law_field_values_stay_in_order(slots: List<Option<Expression>>)
    ensures
        ({
            let full = forall|i: nat|
                (#[trigger] slots.at(i)) matches Some(slot) ==> slot is Some;
            &&& full ==> (forall|i: nat|
                (#[trigger] slots.at(i)) matches Some(slot) ==> typing::all_field_values(slots).at(i)
                    == slot) && typing::all_field_values(slots).count() == slots.count()
            &&& !full ==> typing::all_field_values(slots) is Nil
        }),
{
    slots_are_filled_in_order(slots);
}

proof fn slots_are_filled_in_order(slots: List<Option<Expression>>)
    ensures
        match typing::filled_field_slots(slots) {
            Some(values) => {
                &&& forall|i: nat|
                    (#[trigger] slots.at(i)) matches Some(slot) ==> slot is Some && values.at(i)
                        == slot
                &&& values.count() == slots.count()
            },
            None => !(forall|i: nat| (#[trigger] slots.at(i)) matches Some(slot) ==> slot is Some),
        },
    decreases slots,
{
    match slots {
        List::Nil => {},
        List::Cons(head, rest) => {
            slots_are_filled_in_order(*rest);
            assert(slots.at(0) == Some(*head));
            assert forall|i: nat| #[trigger] rest.at(i) == slots.at(i + 1) by {}
            match typing::filled_field_slots(slots) {
                Some(values) => {
                    assert forall|i: nat| (#[trigger] slots.at(i)) is Some implies slots.at(i)->0
                        is Some && values.at(i) == slots.at(i)->0 by {
                        if i > 0 {
                            assert(rest.at((i - 1) as nat) == slots.at(i));
                        }
                    }
                },
                None => {
                    if *head is Some {
                        let i = choose|i: nat|
                            !((#[trigger] rest.at(i)) matches Some(slot) ==> slot is Some);
                        assert(slots.at(i + 1) == rest.at(i));
                    }
                },
            }
        },
    }
}

/// A struct literal has the struct as its type, with the type arguments, and
/// reports exactly where a field has no mention.
pub proof fn law_struct_literal<'ast>(
    s: State<'ast>,
    context: ResolveContext,
    struct_index: usize,
    name: Symbol,
    args: List<TypeIndex>,
    mentions: List<Option<TextSpan>>,
    slots: List<Option<Expression>>,
    span: TextSpan,
)
    requires
        struct_index < s.structs.len(),
        s.structs[struct_index as int].fields.count() == mentions.count(),
        s.types.len() < usize::MAX,
    ensures
        ({
            let (t, built) = s.finish_struct_init(
                context,
                struct_index,
                name,
                args,
                &mentions,
                slots,
                span,
            );
            let complete = forall|i: nat|
                (#[trigger] mentions.at(i)) matches Some(mention) ==> mention is Some;
            &&& t.ty(built.ty) == (Type::Struct { struct_index, args })
            &&& built.kind matches ExprKind::StructInit { struct_index: of, fields } && of
                == struct_index && fields == typing::all_field_values(slots)
            &&& complete ==> t.diagnostics == s.diagnostics
            &&& !complete ==> more_is_reported(s, t)
        }),
{
    reveal(State::finish_struct_init);
    reveal(State::report);
    law_missing_fields(s.structs[struct_index as int].fields, mentions);
    let missing = s.missing_struct_fields(struct_index, &mentions);
    let reported = if !(missing is Nil) {
        s.report(crate::reports::missing_struct_fields(name, missing, context.at(span)))
    } else {
        s
    };
    laws::law_interned_type_reads_back(reported, Type::Struct { struct_index, args });
    reveal(State::intern);
}

/// The value of a field that is no number literal goes into the field exactly
/// where it can be used as the field's type; otherwise it is reported.
pub proof fn law_value_of_a_field<'ast>(
    s: State<'ast>,
    ctx: ExprContext,
    value: Expression,
    expected: TypeIndex,
)
    ensures
        ({
            let (t, later, found) = s.fit_field_value(ctx, value, expected);
            &&& !is_a_literal(value.ty) && s.coercible(value.ty, expected).1 ==> found == Some(value)
                && t.diagnostics == s.diagnostics
            &&& !is_a_literal(value.ty) && !s.coercible(value.ty, expected).1 ==> found is None
                && more_is_reported(s, t)
            &&& is_a_literal(value.ty) ==> (found is Some <==> s.coerce_untyped_expr(
                ctx,
                value,
                expected,
            ).2.1) && (found matches Some(typed) ==> typed.ty == expected)
        }),
{
    reveal(State::fit_field_value);
    reveal(State::settle_literal);
    law_misfit_is_reported(s, value.ty, expected, ctx.resolve_context.at(value.span));
    super::law_literal_takes_the_type(s, ctx, value, expected);
}

/// The type arguments of a struct literal are those of its path where it tells
/// any, otherwise those of the expected type where that is the same struct.
pub proof fn law_arguments_of_a_struct_literal<'ast>(
    s: State<'ast>,
    struct_ty: TypeIndex,
    struct_index: usize,
    params: usize,
    expected: TypeIndex,
)
    requires
        s.ty(struct_ty) is Struct,
    ensures
        ({
            let own = s.ty(struct_ty)->Struct_args;
            let implied = s.struct_init_args(struct_ty, false, params, struct_index, expected);
            &&& s.struct_init_args(struct_ty, true, params, struct_index, expected) == own
            &&& params == 0 ==> implied is Nil
            &&& params > 0 && own.len() == params && (exists|i: nat|
                (#[trigger] own.at(i)) matches Some(index) && index != ty::INFER) ==> implied == own
            &&& params > 0 && !(exists|i: nat|
                (#[trigger] own.at(i)) matches Some(index) && index != ty::INFER) ==> match s.ty(
                expected,
            ) {
                Type::Struct { struct_index: other, args } => if other == struct_index && args.len()
                    == params {
                    implied == args
                } else {
                    implied is Nil
                },
                _ => implied is Nil,
            }
        }),
{
    known_among(s.ty(struct_ty)->Struct_args);
}

proof fn known_among(types: List<TypeIndex>)
    ensures
        typing::has_known(&types) <==> (exists|i: nat|
            (#[trigger] types.at(i)) matches Some(index) && index != ty::INFER),
    decreases types,
{
    match types {
        List::Nil => {},
        List::Cons(head, rest) => {
            known_among(*rest);
            assert(types.at(0) == Some(*head));
            if typing::has_known(&*rest) {
                let i = choose|i: nat|
                    (#[trigger] rest.at(i)) matches Some(index) && index != ty::INFER;
                assert(types.at(i + 1) == rest.at(i));
            }
            if *head == ty::INFER && exists|i: nat|
                (#[trigger] types.at(i)) matches Some(index) && index != ty::INFER {
                let i = choose|i: nat|
                    (#[trigger] types.at(i)) matches Some(index) && index != ty::INFER;
                assert(rest.at((i - 1) as nat) == types.at(i));
            }
        },
    }
}

// ---------------------------------------------------------------- tuples

/// A tuple keeps its elements, unless one failed.
pub proof fn law_tuple_keeps_its_elements<'ast>(
    s: State<'ast>,
    elements: List<Expression>,
    span: TextSpan,
)
    ensures
        ({
            let (t, built) = s.finish_tuple(elements, false, span);
            &&& built.kind == (ExprKind::TupleInit { elements })
            &&& t.diagnostics == s.diagnostics
        }),
        forall|i: nat|
            (#[trigger] elements.at(i)) matches Some(element) ==> typing::types_of_expressions(
                &elements,
            ).at(i) == Some(element.ty),
        typing::types_of_expressions(&elements).count() == elements.count(),
{
    reveal(State::finish_tuple);
    reveal(State::intern);
    types_in_order(elements);
}

proof fn types_in_order(elements: List<Expression>)
    ensures
        forall|i: nat|
            (#[trigger] elements.at(i)) matches Some(element) ==> typing::types_of_expressions(
                &elements,
            ).at(i) == Some(element.ty),
        typing::types_of_expressions(&elements).count() == elements.count(),
    decreases elements,
{
    match elements {
        List::Nil => {},
        List::Cons(head, rest) => {
            types_in_order(*rest);
            assert forall|i: nat| (#[trigger] elements.at(i)) is Some implies typing::types_of_expressions(
                &elements,
            ).at(i) == Some(elements.at(i)->0.ty) by {
                if i > 0 {
                    assert(rest.at((i - 1) as nat) == elements.at(i));
                }
            }
        },
    }
}

/// The elements of a tuple are expected to have the types of an expected tuple
/// of the same size, and nothing is expected of them otherwise.
pub proof fn law_expected_tuple<'ast>(s: State<'ast>, expected: TypeIndex, count: usize)
    ensures
        match s.ty(expected) {
            Type::Tuple { elements } => s.tuple_types(expected, count) == (if elements.len()
                == count {
                Some(elements)
            } else {
                None
            }),
            _ => s.tuple_types(expected, count) is None,
        },
{
}

/// A number literal in a tuple takes the type that is expected of it; any
/// other element stays.
pub proof fn law_element_of_a_tuple<'ast>(
    s: State<'ast>,
    ctx: ExprContext,
    element: Expression,
    expected: TypeIndex,
)
    ensures
        ({
            let (t, later, settled) = s.settle_element(ctx, element, expected);
            &&& !is_a_literal(element.ty) || expected == ty::INFER ==> t == s && later == ctx
                && settled == element
            &&& is_a_literal(element.ty) && expected != ty::INFER && s.coerce_untyped_expr(
                ctx,
                element,
                expected,
            ).2.1 ==> settled.ty == expected
        }),
{
    super::law_literal_takes_the_type(s, ctx, element, expected);
}

// ---------------------------------------------------------------- arrays

/// An array of another size than the expected one is reported, and no other.
pub proof fn law_size_of_an_array<'ast>(
    s: State<'ast>,
    expected: Option<u32>,
    size: u32,
    count: usize,
    span: SourceSpan,
)
    ensures
        ({
            let (t, fits) = s.check_array_size(expected, size, count, span);
            &&& fits <==> (expected matches Some(asked) ==> asked == size)
            &&& fits ==> t == s
            &&& !fits ==> more_is_reported(s, t)
        }),
{
    reveal(State::check_array_size);
    reveal(State::report);
}

/// What is expected of an array literal is what an expected array says.
pub proof fn law_expected_array<'ast>(s: State<'ast>, expected: TypeIndex)
    ensures
        match s.ty(expected) {
            Type::Array { of, size, memory, mutable } => s.expected_array(expected) == (
            ExpectedArray { of, size: Some(size), memory: Some(memory), mutable }),
            _ => s.expected_array(expected).of == ty::INFER && s.expected_array(expected).size
                is None && s.expected_array(expected).memory is None,
        },
{
}

/// An element of an array literal is a number literal of a number type; any
/// other is reported. It has the expected type where there is one.
pub proof fn law_element_of_an_array<'ast>(
    s: State<'ast>,
    ctx: ExprContext,
    element: Expression,
    expected: TypeIndex,
)
    ensures
        ({
            let (t, later, found) = s.check_array_element(ctx, element, expected);
            &&& found matches Some(value) ==> {
                &&& value.kind is Int || value.kind is Float
                &&& is_an_integer(value.ty) || value.ty == ty::F32 || value.ty == ty::F64
                &&& is_a_literal(element.ty) ==> value.ty == expected
                &&& !is_a_literal(element.ty) ==> value == element && t == s
            }
            &&& !is_a_literal(element.ty) && found is None ==> more_is_reported(s, t)
            &&& is_a_literal(element.ty) && expected == ty::INFER ==> found is None
                && more_is_reported(s, t)
            &&& !is_a_literal(element.ty) && (element.kind is Int || element.kind is Float) && (
            is_an_integer(element.ty) || element.ty == ty::F32 || element.ty == ty::F64) ==> found
                is Some
        }),
{
    reveal(State::check_array_element);
    reveal(State::settle_literal);
    reveal(State::report);
    super::law_literal_takes_the_type(s, ctx, element, expected);
}

/// The elements of an array literal have one type; one of another type is
/// reported.
pub proof fn law_elements_have_one_type<'ast>(
    s: State<'ast>,
    file_id: FileId,
    elements: List<Expression>,
    expected: TypeIndex,
)
    ensures
        ({
            let (t, same) = s.check_same_type(file_id, &elements, expected);
            &&& same <==> (forall|i: nat|
                (#[trigger] elements.at(i)) matches Some(element) ==> element.ty == expected)
            &&& same ==> t == s
            &&& !same ==> more_is_reported(s, t)
            &&& same_but_reports(s, t)
        }),
    decreases elements,
{
    reveal(State::report);
    match elements {
        List::Nil => {},
        List::Cons(head, rest) => {
            assert(elements.at(0) == Some(*head));
            assert forall|i: nat| #[trigger] rest.at(i) == elements.at(i + 1) by {}
            if head.ty == expected {
                law_elements_have_one_type(s, file_id, *rest, expected);
                let (_, same) = s.check_same_type(file_id, &*rest, expected);
                if same {
                    assert forall|i: nat| (#[trigger] elements.at(i)) is Some implies elements.at(
                        i,
                    )->0.ty == expected by {
                        if i > 0 {
                            assert(rest.at((i - 1) as nat) == elements.at(i));
                        }
                    }
                }
            }
        },
    }
}

/// The type of the elements is that of the first, which all have; without
/// elements it is the expected one, which is asked for where there is none.
pub proof fn law_type_of_the_elements<'ast>(
    s: State<'ast>,
    context: ResolveContext,
    elements: List<Expression>,
    expected: TypeIndex,
    span: TextSpan,
)
    ensures
        ({
            let (t, found) = s.element_type(context, &elements, expected, span);
            &&& found is Some ==> t == s
            &&& found is None ==> more_is_reported(s, t)
            &&& found matches Some(of) ==> (forall|i: nat|
                (#[trigger] elements.at(i)) matches Some(element) ==> element.ty == of)
            &&& elements is Nil ==> (found is Some <==> expected != ty::INFER)
            &&& elements is Nil && found is Some ==> found == Some(expected)
            &&& (elements.at(0) matches Some(first) && (forall|i: nat|
                (#[trigger] elements.at(i)) matches Some(element) ==> element.ty == first.ty))
                ==> found == Some(elements.at(0)->0.ty)
        }),
{
    reveal(State::element_type);
    reveal(State::report);
    match elements {
        List::Nil => {},
        List::Cons(head, rest) => {
            law_elements_have_one_type(s, context.file_id, *rest, head.ty);
            assert(elements.at(0) == Some(*head));
            assert forall|i: nat| #[trigger] rest.at(i) == elements.at(i + 1) by {}
            let (t, found) = s.element_type(context, &elements, expected, span);
            if found is Some {
                assert forall|i: nat| (#[trigger] elements.at(i)) is Some implies elements.at(
                    i,
                )->0.ty == head.ty by {
                    if i > 0 {
                        assert(rest.at((i - 1) as nat) == elements.at(i));
                    }
                }
            }
        },
    }
}

// ---------------------------------------------------------------- indexing

/// Arrays and slices can be indexed: an element has their element type and
/// stands in their memory. Anything else is reported, unless it is poisoned.
pub proof fn law_what_can_be_indexed<'ast>(s: State<'ast>, object: TypeIndex, span: SourceSpan)
    ensures
        ({
            let (t, found) = s.resolve_indexable(object, span);
            match s.ty(object) {
                Type::Array { of, size: _, memory, mutable } => t == s && found == Some(
                    (of, memory, mutable),
                ),
                Type::Slice { of, memory, mutable } => t == s && found == Some(
                    (of, memory, mutable),
                ),
                Type::Error => t == s && found is None,
                _ => found is None && more_is_reported(s, t),
            }
        }),
{
    reveal(State::resolve_indexable);
    reveal(State::report);
}

/// An index has the type of the memory's addresses; one of another type is
/// reported.
pub proof fn law_type_of_an_index<'ast>(
    s: State<'ast>,
    ctx: ExprContext,
    index: Expression,
    index_type: TypeIndex,
    span: TextSpan,
)
    requires
        !is_a_literal(index.ty),
    ensures
        ({
            let (t, later, found) = s.settle_index(ctx, index, index_type);
            &&& found == Some(index)
            &&& index.ty == index_type ==> t == s
            &&& index.ty != index_type ==> more_is_reported(s, t)
        }),
        ({
            let (t, later, found) = s.settle_range_bound(ctx, index, index_type, span);
            &&& index.ty == index_type ==> t == s && found == Some(index)
            &&& index.ty != index_type ==> more_is_reported(s, t) && found is None
        }),
{
    reveal(State::settle_index);
    reveal(State::settle_range_bound);
    reveal(State::report);
}

/// An element of an array or a slice has the element type, stands in the same
/// memory, and can be written where the array or slice can be.
pub proof fn law_indexed_element<'ast>(
    s: State<'ast>,
    ctx: ExprContext,
    access: AccessContext,
    expr: Spanned<ast::Expression>,
    object: Box<Spanned<ast::Expression>>,
    index: Box<Spanned<ast::Expression>>,
    pending: spec_fn(State<'ast>, DefId) -> State<'ast>,
)
    requires
        growth::resolver_adds(pending),
        expr.inner == (ast::Expression::Index { object, index }),
        s.build_expression(ctx, reading(ty::INFER), &*object, pending).2 is Some,
    ensures
        ({
            let (before, _, value) = s.build_expression(ctx, reading(ty::INFER), &*object, pending);
            let (after, _, built) = s.build_index_expression(ctx, access, &expr, pending);
            let indexed = match before.ty(value->0.ty) {
                Type::Array { of, size: _, memory, mutable } => Some((of, memory, mutable)),
                Type::Slice { of, memory, mutable } => Some((of, memory, mutable)),
                _ => None,
            };
            match indexed {
                Some((of, memory, mutable)) => {
                    &&& built matches Some(element) ==> element.ty == of && (
                    element.kind matches ExprKind::Load { place } && place.ty == of && place.memory
                        == memory && place.mutable == mutable && (
                    place.kind matches PlaceKind::Index { object: whole, index: _ } && *whole
                        == value->0))
                    &&& access.access_kind != AccessKind::Read && !mutable ==> more_is_reported(
                        s,
                        after,
                    )
                },
                None => built is None && (!(before.ty(value->0.ty) is Error) ==> more_is_reported(
                    s,
                    after,
                )),
            }
        }),
{
    broadcast use growth::group_finishing;

    s.adds_build_expression(ctx, reading(ty::INFER), &*object, pending);
    let (before, ctx_before, value) = s.build_expression(
        ctx,
        reading(ty::INFER),
        &*object,
        pending,
    );
    let context = ctx.resolve_context;
    law_what_can_be_indexed(before, value->0.ty, context.at(value->0.span));
    let (found_in, found) = before.resolve_indexable(value->0.ty, context.at(value->0.span));
    match found {
        Some((of, memory, mutable)) => {
            let checked = found_in.check_writable(
                access.access_kind,
                mutable,
                context.at(expr.span),
            );
            let (typed, index_type) = checked.pointer_type_for_memory(memory);
            typed.adds_build_expression(ctx_before, reading(index_type), &*index, pending);
            checked.adds_pointer_type_for_memory(memory);
        },
        None => {},
    }
    reveal(State::report);
    reveal(State::only_adds);
    reveal(State::grows_to);
}

/// A range of an array or a slice is a slice of the same elements, in the same
/// memory and with the same right to write.
pub proof fn law_range_is_a_slice<'ast>(
    s: State<'ast>,
    ctx: ExprContext,
    expr: Spanned<ast::Expression>,
    object: Box<Spanned<ast::Expression>>,
    start: Option<Box<Spanned<ast::Expression>>>,
    end: Option<Box<Spanned<ast::Expression>>>,
    pending: spec_fn(State<'ast>, DefId) -> State<'ast>,
)
    requires
        expr.inner == (ast::Expression::SliceRange { object, start, end }),
    ensures
        ({
            let (before, _, value) = s.build_expression(ctx, reading(ty::INFER), &*object, pending);
            let (after, _, built) = s.build_slice_range_expression(ctx, &expr, pending);
            built matches Some(slice) ==> {
                &&& value is Some
                &&& slice.kind matches ExprKind::SliceRange { object: whole, start: first, end: last }
                    && *whole == value->0 && (first is Some <==> start is Some) && (last is Some
                    <==> end is Some)
                &&& after.types.len() < usize::MAX ==> match before.ty(value->0.ty) {
                    Type::Array { of, size: _, memory, mutable } => after.ty(slice.ty)
                        == (Type::Slice { of, memory, mutable }),
                    Type::Slice { of, memory, mutable } => after.ty(slice.ty) == (Type::Slice {
                        of,
                        memory,
                        mutable,
                    }),
                    _ => false,
                }
            }
        }),
{
    reveal(State::resolve_indexable);
    let (before, ctx_before, value) = s.build_expression(
        ctx,
        reading(ty::INFER),
        &*object,
        pending,
    );
    match value {
        Some(value) => {
            let (s1, found) = before.resolve_indexable(
                value.ty,
                ctx_before.resolve_context.at(value.span),
            );
            match found {
                Some((of, memory, mutable)) => {
                    let (s2, index_type) = s1.pointer_type_for_memory(memory);
                    let (s3, ctx3, first) = s2.build_range_bound(
                        ctx_before,
                        &start,
                        index_type,
                        pending,
                    );
                    let (s4, _, last) = s3.build_range_bound(ctx3, &end, index_type, pending);
                    let sliced = Type::Slice { of, memory, mutable };
                    reveal(State::intern);
                    if s4.types.len() < usize::MAX {
                        laws::law_interned_type_reads_back(s4, sliced);
                    }
                },
                None => {},
            }
        },
        None => {},
    }
}

// ---------------------------------------------------------------- pointers

/// A write through something that gives no right to write is reported, and
/// nothing else is.
pub proof fn law_writes_need_the_right<'ast>(
    s: State<'ast>,
    access_kind: AccessKind,
    mutable: bool,
    span: SourceSpan,
)
    ensures
        access_kind == AccessKind::Read || mutable ==> s.check_writable(access_kind, mutable, span)
            == s,
        access_kind != AccessKind::Read && !mutable ==> more_is_reported(
            s,
            s.check_writable(access_kind, mutable, span),
        ),
{
    reveal(State::report);
}

/// What a pointer points at has the pointed type and stands in the pointer's
/// memory. What is no pointer points at nothing, which is reported.
pub proof fn law_pointed_value<'ast>(
    s: State<'ast>,
    context: ResolveContext,
    access_kind: AccessKind,
    pointer: Expression,
    span: TextSpan,
)
    ensures
        ({
            let (t, built) = s.finish_deref(context, access_kind, pointer, span);
            match s.ty(pointer.ty) {
                Type::Pointer { to, memory, mutable } => {
                    &&& built matches Some(value) && value.ty == to && (
                    value.kind matches ExprKind::Load { place } && place.ty == to && place.memory
                        == memory && place.mutable == mutable && place.kind == (PlaceKind::Deref {
                        pointer: Box::new(pointer),
                    }))
                    &&& access_kind == AccessKind::Read || mutable ==> t == s
                    &&& access_kind != AccessKind::Read && !mutable ==> more_is_reported(s, t)
                },
                _ => built is None && more_is_reported(s, t),
            }
        }),
{
    reveal(State::finish_deref);
    reveal(State::report);
}

/// A place in memory has an address; what is in no memory has none, which is
/// reported. An address that gives the right to write where the place does not
/// is reported too.
pub proof fn law_address_of_a_place<'ast>(
    s: State<'ast>,
    context: ResolveContext,
    operand: Expression,
    mutable: bool,
    span: TextSpan,
)
    ensures
        ({
            let (t, built) = s.finish_address_of(context, operand, mutable, span);
            match operand.kind {
                ExprKind::Load { place } => {
                    &&& built matches Some(address) && address.kind == (ExprKind::AddressOf {
                        place,
                        mutable,
                    })
                    &&& s.types.len() < usize::MAX ==> t.ty(built->0.ty) == (Type::Pointer {
                        to: place.ty,
                        memory: place.memory,
                        mutable,
                    })
                    &&& mutable && !place.mutable ==> more_is_reported(s, t)
                    &&& !mutable || place.mutable ==> t.diagnostics == s.diagnostics
                },
                _ => built is None && more_is_reported(s, t),
            }
        }),
{
    reveal(State::finish_address_of);
    reveal(State::report);
    match operand.kind {
        ExprKind::Load { place } => {
            let pointed = Type::Pointer { to: place.ty, memory: place.memory, mutable };
            let reported = s.report(
                crate::reports::report_cannot_take_mutable_address_of_immutable(context.at(span)),
            );
            if s.types.len() < usize::MAX {
                laws::law_interned_type_reads_back(s, pointed);
                laws::law_interned_type_reads_back(reported, pointed);
            }
            reveal(State::intern);
        },
        _ => {},
    }
}

// ---------------------------------------------------------------- literals

/// A literal in the source is what it says, with the type of its sort.
pub proof fn law_literals_in_the_source<'ast>(
    s: State<'ast>,
    ctx: ExprContext,
    access: AccessContext,
    expr: Spanned<ast::Expression>,
    pending: spec_fn(State<'ast>, DefId) -> State<'ast>,
)
    ensures
        ({
            let (t, later, built) = s.build_expression(ctx, access, &expr, pending);
            match expr.inner {
                ast::Expression::Int { value } => t == s && later == ctx && (
                built matches Some(found) && found.kind == (ExprKind::Int { value }) && found.ty
                    == ty::INTEGER),
                ast::Expression::Float { bits } => t == s && later == ctx && (
                built matches Some(found) && found.kind == (ExprKind::Float { bits }) && found.ty
                    == ty::FLOAT),
                ast::Expression::True => t == s && (built matches Some(found) && found.kind == (
                ExprKind::Bool { value: true }) && found.ty == ty::BOOL),
                ast::Expression::False => t == s && (built matches Some(found) && found.kind == (
                ExprKind::Bool { value: false }) && found.ty == ty::BOOL),
                ast::Expression::Unreachable => t == s && (built matches Some(found) && found.ty
                    == ty::NEVER),
                ast::Expression::Error => t == s && (built matches Some(found) && found.ty
                    == ty::ERROR),
                ast::Expression::Grouping { value } => (t, later, built) == s.build_expression(
                    ctx,
                    access,
                    &*value,
                    pending,
                ),
                ast::Expression::Tuple { elements: List::Nil } => t == s && (
                built matches Some(found) && found.ty == ty::UNIT),
                ast::Expression::Char { raw } => match crate::literal::char_literal_value(raw@) {
                    Ok(value) => t == s && (built matches Some(found) && found.kind == (
                    ExprKind::Char { value }) && found.ty == ty::CHAR),
                    Err(_) => built is None && more_is_reported(s, t),
                },
                _ => true,
            }
        }),
{
    reveal_with_fuel(State::build_expression, 2);
    reveal_with_fuel(State::build_tuple_expression, 2);
    reveal(State::build_char_expression);
    reveal(State::report);
}

} // verus!
