//! Definitions: constants, enums, typesets, memories and the bodies of
//! functions and globals.

use vstd::prelude::*;

use crate::ast;
use crate::bodies;
use crate::failures::more_is_reported;
use crate::growth;
use crate::list::List;
use crate::relate;
use crate::rules::coercion::{greatest, law_misfit_is_reported, least};
use crate::rules::members::{gives, lacks, law_member_is_the_first_of_its_name};
use crate::rules::operators::{is_a_literal, is_an_integer};
use crate::signatures;
use crate::signatures::AssocValue;
use crate::span::{DefId, SourceSpan, Spanned, Symbol, TextSpan};
use crate::state::State;
use crate::tir::{
    ConstValue, EnumVariant, Expression, FunctionParam, GenericScope, ImplEntry, IntegerRange,
    ItemAttribute, Local, Member, ResolveContext, StructField,
};
use crate::ty;
use crate::types::TypeIndex;

verus! {

// ---------------------------------------------------------------- constants

/// The value of a constant is what its expression evaluates to; one that has
/// no value when the program is compiled is reported.
pub proof fn law_value_of_a_constant<'ast>(s: State<'ast>, value: Expression, span: SourceSpan)
    ensures
        ({
            let (t, known) = s.checked_const_value(&value, span);
            &&& known == s.eval_const_expr(&value)
            &&& known is Some ==> t == s
            &&& known is None ==> more_is_reported(s, t)
        }),
{
    reveal(State::checked_const_value);
    reveal(State::report);
}

/// A constant's value has the constant's type: one that cannot be used as that
/// type is reported, and so is a number literal that took no type.
pub proof fn law_type_of_a_constant<'ast>(
    s: State<'ast>,
    context: ResolveContext,
    value: Expression,
    expected: TypeIndex,
    span: TextSpan,
)
    ensures
        ({
            let (t, found) = s.check_const_type(context, value, expected, span);
            let fits = !is_a_literal(value.ty) && (expected == ty::ERROR || s.coercible(
                value.ty,
                expected,
            ).1);
            &&& fits ==> found == Some(value) && t.diagnostics == s.diagnostics
            &&& !fits ==> found is None && more_is_reported(s, t)
        }),
{
    reveal(State::check_const_type);
    reveal(State::report);
    law_misfit_is_reported(s, value.ty, expected, context.at(span));
}

/// A constant whose value is built has that value, and what it evaluates to.
pub proof fn law_finished_constant<'ast>(
    s: State<'ast>,
    context: ResolveContext,
    id: DefId,
    name: Symbol,
    const_index: usize,
    value: Expression,
    span: TextSpan,
)
    requires
        const_index < s.constants.len(),
    ensures
        ({
            let t = s.finish_constant(context, id, name, const_index, Some(value), span);
            &&& t.constants.len() == s.constants.len()
            &&& t.constants[const_index as int].value == Some(value)
            &&& t.constants[const_index as int].const_value == s.eval_const_expr(&value)
            &&& t.constants[const_index as int].ty == s.constants[const_index as int].ty
            &&& t.constants[const_index as int].name == s.constants[const_index as int].name
        }),
        s.finish_constant(context, id, name, const_index, None, span) == s,
{
    reveal(State::finish_constant);
    reveal(State::checked_const_value);
    reveal(State::set_constant_value);
    reveal(State::set_constant_const_value);
    reveal(State::report);
    reveal(State::with_symbol);
}

// ---------------------------------------------------------------- enums

/// The values of an enum have an integer type; any other type is reported.
pub proof fn law_type_of_an_enum<'ast>(s: State<'ast>, resolved: TypeIndex, span: SourceSpan)
    ensures
        ({
            let (t, found) = s.checked_repr(resolved, span);
            &&& is_an_integer(resolved) ==> t == s && found == resolved
            &&& !is_an_integer(resolved) ==> found == ty::ERROR
            &&& !is_an_integer(resolved) && resolved != ty::ERROR ==> more_is_reported(s, t)
            &&& resolved == ty::ERROR ==> t == s
        }),
{
    reveal(State::checked_repr);
    reveal(State::report);
}

/// A variant without a written value has the next number, and the one after it
/// counts on from there. A number that the enum's type does not have is
/// reported.
pub proof fn law_counted_variant<'ast>(
    s: State<'ast>,
    context: ResolveContext,
    variant: ast::EnumVariant,
    repr: TypeIndex,
    next_value: i64,
    pending: spec_fn(State<'ast>, DefId) -> State<'ast>,
)
    requires
        variant.value is None,
    ensures
        ({
            let (t, (value, known)) = s.build_variant_value(
                context,
                &variant,
                repr,
                next_value,
                pending,
            );
            &&& value is None
            &&& known == Some(next_value)
            &&& is_an_integer(repr) && !(least(repr) <= next_value <= greatest(repr))
                ==> more_is_reported(s, t)
            &&& is_an_integer(repr) && least(repr) <= next_value <= greatest(repr) ==> t == s
            &&& !is_an_integer(repr) ==> t == s
        }),
        forall|value: i64, next: i64|
            value < i64::MAX ==> #[trigger] signatures::counted_after(Some(value), next) == value
                + 1,
        forall|next: i64|
            next < i64::MAX ==> #[trigger] signatures::counted_after(None, next) == next + 1,
{
    reveal(State::check_counted_value);
    reveal(State::report);
}

/// A written value of a variant is the integer that its expression evaluates
/// to; one that evaluates to nothing is reported.
pub proof fn law_written_variant<'ast>(s: State<'ast>, value: Expression, span: SourceSpan)
    ensures
        ({
            let (t, (kept, known)) = s.finish_variant_value(Some(value), span);
            &&& kept == Some(value)
            &&& s.eval_const_expr(&value) is None ==> more_is_reported(s, t) && known is None
            &&& s.eval_const_expr(&value) is Some ==> t == s
            &&& s.eval_const_expr(&value) matches Some(ConstValue::Int(number)) ==> known == Some(
                number,
            )
        }),
        s.finish_variant_value(None, span) == (s, (None::<Expression>, None::<i64>)),
{
    reveal(State::finish_variant_value);
    reveal(State::checked_const_value);
    reveal(State::report);
}

proof fn named_variant(variants: List<EnumVariant>, name: Symbol)
    ensures
        signatures::span_of_variant(&variants, name) is Some <==> (exists|i: nat|
            (#[trigger] variants.at(i)) matches Some(variant) && variant.name.inner == name),
    decreases variants,
{
    match variants {
        List::Nil => {},
        List::Cons(head, rest) => {
            named_variant(*rest, name);
            assert(variants.at(0) == Some(*head));
            if signatures::span_of_variant(&*rest, name) is Some {
                let i = choose|i: nat|
                    (#[trigger] rest.at(i)) matches Some(variant) && variant.name.inner == name;
                assert(variants.at(i + 1) == rest.at(i));
            }
            if head.name.inner != name && exists|i: nat|
                (#[trigger] variants.at(i)) matches Some(variant) && variant.name.inner == name {
                let i = choose|i: nat|
                    (#[trigger] variants.at(i)) matches Some(variant) && variant.name.inner == name;
                assert(rest.at((i - 1) as nat) == variants.at(i));
            }
        },
    }
}

/// A variant that has the name of an earlier one is reported and left out.
pub proof fn law_second_variant_of_a_name<'ast>(
    s: State<'ast>,
    context: ResolveContext,
    variant: ast::EnumVariant,
    rest: List<ast::EnumVariant>,
    repr: TypeIndex,
    next_value: i64,
    built: List<EnumVariant>,
    pending: spec_fn(State<'ast>, DefId) -> State<'ast>,
)
    requires
        growth::resolver_adds(pending),
        exists|i: nat|
            (#[trigger] built.at(i)) matches Some(earlier) && earlier.name.inner
                == variant.name.inner,
    ensures
        ({
            let (t, all) = s.build_variants(
                context,
                &crate::list::cons(variant, rest),
                repr,
                next_value,
                built,
                pending,
            );
            &&& more_is_reported(s, t)
            &&& exists|u: State<'ast>|
                all == (#[trigger] u.build_variants(
                    context,
                    &rest,
                    repr,
                    next_value,
                    built,
                    pending,
                )).1
        }),
{
    named_variant(built, variant.name.inner);
    let first = signatures::span_of_variant(&built, variant.name.inner)->0;
    let t = s.report(
        crate::reports::report_duplicate_definition(
            variant.name.inner,
            crate::tir::SymbolNamespace::Value,
            context.at(first),
            context.at(variant.name.span),
        ),
    );
    t.adds_build_variants(context, &rest, repr, next_value, built, pending);
    reveal_with_fuel(State::build_variants, 2);
    reveal(State::report);
    reveal(State::only_adds);
    reveal(State::grows_to);
}

// ---------------------------------------------------------------- structs

proof fn named_field(fields: List<StructField>, name: Symbol)
    ensures
        signatures::span_of_field(&fields, name) is Some <==> (exists|i: nat|
            (#[trigger] fields.at(i)) matches Some(field) && field.name.inner == name),
    decreases fields,
{
    match fields {
        List::Nil => {},
        List::Cons(head, rest) => {
            named_field(*rest, name);
            assert(fields.at(0) == Some(*head));
            if signatures::span_of_field(&*rest, name) is Some {
                let i = choose|i: nat|
                    (#[trigger] rest.at(i)) matches Some(field) && field.name.inner == name;
                assert(fields.at(i + 1) == rest.at(i));
            }
            if head.name.inner != name && exists|i: nat|
                (#[trigger] fields.at(i)) matches Some(field) && field.name.inner == name {
                let i = choose|i: nat|
                    (#[trigger] fields.at(i)) matches Some(field) && field.name.inner == name;
                assert(rest.at((i - 1) as nat) == fields.at(i));
            }
        },
    }
}

/// A field that has the name of an earlier one is reported and left out.
pub proof fn law_second_field_of_a_name<'ast>(
    s: State<'ast>,
    context: ResolveContext,
    scope: Option<GenericScope>,
    field: ast::StructField,
    rest: List<ast::StructField>,
    resolved: List<StructField>,
    pending: spec_fn(State<'ast>, DefId) -> State<'ast>,
)
    requires
        growth::resolver_adds(pending),
        exists|i: nat|
            (#[trigger] resolved.at(i)) matches Some(earlier) && earlier.name.inner
                == field.name.inner,
    ensures
        ({
            let (t, all) = s.resolve_struct_fields(
                context,
                scope,
                &crate::list::cons(field, rest),
                resolved,
                pending,
            );
            &&& more_is_reported(s, t)
            &&& exists|u: State<'ast>|
                all == (#[trigger] u.resolve_struct_fields(
                    context,
                    scope,
                    &rest,
                    resolved,
                    pending,
                )).1
        }),
{
    named_field(resolved, field.name.inner);
    let first = signatures::span_of_field(&resolved, field.name.inner)->0;
    let t = s.report(
        crate::reports::report_duplicate_struct_field(
            field.name.inner,
            context.at(first),
            context.at(field.name.span),
        ),
    );
    t.adds_resolve_struct_fields(context, scope, &rest, resolved, pending);
    reveal_with_fuel(State::resolve_struct_fields, 2);
    reveal(State::report);
    reveal(State::only_adds);
    reveal(State::grows_to);
}

// ---------------------------------------------------------------- typesets

/// The values of the integer types.
pub proof fn law_values_of_integer_types(index: TypeIndex)
    ensures
        is_an_integer(index) <==> IntegerRange::for_integer_type(index) is Some,
        IntegerRange::for_integer_type(index) matches Some(range) ==> range.min == least(index)
            && range.max == greatest(index),
{
}

/// A value lies in a range exactly where it is between its ends.
pub proof fn law_value_in_a_range(range: IntegerRange, value: i64)
    ensures
        range.contains(value) <==> range.min <= value <= range.max,
{
}

/// The values that all types of a typeset have are those that each of them
/// has.
pub proof fn law_common_values(members: List<TypeIndex>, range: IntegerRange, value: i64)
    ensures
        signatures::range_of_members(&members, range).contains(value) <==> range.contains(value) && (
        forall|i: nat|
            (#[trigger] members.at(i)) matches Some(member) ==> (is_an_integer(member) ==> least(
                member,
            ) <= value <= greatest(member))),
    decreases members,
{
    match members {
        List::Nil => {},
        List::Cons(head, rest) => {
            assert(members.at(0) == Some(*head));
            assert forall|i: nat| #[trigger] rest.at(i) == members.at(i + 1) by {}
            let next = match IntegerRange::for_integer_type(*head) {
                Some(own) => range.intersect(own),
                None => range,
            };
            law_common_values(*rest, next, value);
            if (forall|i: nat|
                (#[trigger] rest.at(i)) matches Some(member) ==> (is_an_integer(member) ==> least(
                    member,
                ) <= value <= greatest(member))) && (is_an_integer(*head) ==> least(*head) <= value
                <= greatest(*head)) {
                assert forall|i: nat| (#[trigger] members.at(i)) is Some implies (is_an_integer(
                    members.at(i)->0,
                ) ==> least(members.at(i)->0) <= value <= greatest(members.at(i)->0)) by {
                    if i > 0 {
                        assert(rest.at((i - 1) as nat) == members.at(i));
                    }
                }
            }
        },
    }
}

// ---------------------------------------------------------------- memories

/// The addresses of a memory are `u32` or `u64`, whichever its `Size` is; with
/// another `Size` or none a memory has no addresses.
pub proof fn law_addresses_of_a_memory<'ast>(s: State<'ast>, values: List<AssocValue>)
    ensures
        match signatures::assoc_value_of(&values, s.names.size) {
            Some(given) => if given == ty::U32 || given == ty::U64 {
                s.address_type(&values) == Some(given)
            } else {
                s.address_type(&values) is None
            },
            None => s.address_type(&values) is None,
        },
{
}

/// What a memory has for an associated type of its trait is the value that is
/// given for it; a constant is its own copy, and functions stay.
pub proof fn law_member_of_a_memory<'ast>(
    s: State<'ast>,
    member: Member,
    memory_type: TypeIndex,
    values: List<AssocValue>,
)
    ensures
        ({
            let (t, seeded) = s.seed_member(member, memory_type, &values);
            &&& seeded.name == member.name
            &&& match member.entry {
                ImplEntry::AssocType { ty: declared } => t == s && seeded.entry
                    == (ImplEntry::AssocType {
                    ty: match signatures::assoc_value_of(&values, member.name) {
                        Some(given) => given,
                        None => declared,
                    },
                }),
                ImplEntry::Method(index) => t == s && (seeded.entry == ImplEntry::Method(index)
                    || seeded.entry == ImplEntry::AssocFunction(index)),
                ImplEntry::AssocFunction(index) => t == s && seeded.entry
                    == ImplEntry::AssocFunction(index),
                ImplEntry::AssocConstant(_) => seeded.entry is AssocConstant,
            }
        }),
{
    reveal(State::seed_member);
}

// ---------------------------------------------------------------- members

/// A member that is put among others is found under its name, and the members
/// of other names stay what they are.
pub proof fn law_member_that_is_put(members: List<Member>, member: Member, other: Symbol)
    ensures
        gives(signatures::member_put(members, member), member.name, member.entry),
        other != member.name ==> {
            &&& lacks(signatures::member_put(members, member), other) <==> lacks(members, other)
            &&& forall|entry: ImplEntry|
                gives(signatures::member_put(members, member), other, entry) <==> #[trigger] gives(
                    members,
                    other,
                    entry,
                )
        },
{
    let all = signatures::member_put(members, member);
    put_is_found(members, member, other);
    law_member_is_the_first_of_its_name(all, member.name);
    law_member_is_the_first_of_its_name(all, other);
    law_member_is_the_first_of_its_name(members, other);
    assert(gives(all, member.name, member.entry));
    if other != member.name {
        assert forall|entry: ImplEntry| gives(all, other, entry) <==> #[trigger] gives(
            members,
            other,
            entry,
        ) by {
            assert(gives(all, other, entry) <==> crate::substitute::member_entry(all, other)
                == Some(entry));
        }
    }
}

proof fn put_is_found(members: List<Member>, member: Member, other: Symbol)
    ensures
        crate::substitute::member_entry(
            signatures::member_put(members, member),
            member.name,
        ) == Some(member.entry),
        other != member.name ==> crate::substitute::member_entry(
            signatures::member_put(members, member),
            other,
        ) == crate::substitute::member_entry(members, other),
    decreases members,
{
    reveal_with_fuel(crate::substitute::member_entry, 3);
    match members {
        List::Nil => {},
        List::Cons(head, rest) => {
            put_is_found(*rest, member, other);
        },
    }
}

/// A function is a method exactly where its first parameter is `self`.
pub proof fn law_what_is_a_method<'ast>(
    s: State<'ast>,
    func_index: usize,
    signature: ast::FunctionSignature,
)
    ensures
        s.function_entry(func_index, &signature) == (if (signature.params.at(0) matches Some(first)
            && first.name.inner == s.names.self_value) {
            ImplEntry::Method(func_index)
        } else {
            ImplEntry::AssocFunction(func_index)
        }),
{
}

/// A function of an impl block that has the name of an earlier one is
/// reported, and one with a name of its own is not.
pub proof fn law_second_function_of_a_name<'ast>(
    s: State<'ast>,
    context: ResolveContext,
    block_index: usize,
    name: Spanned<Symbol>,
)
    requires
        block_index < s.inherent_impls.len(),
    ensures
        ({
            let members = s.inherent_impls[block_index as int].members;
            let t = s.check_duplicate_method(context, block_index, name);
            &&& lacks(members, name.inner) ==> t == s
            &&& forall|index: usize|
                #[trigger] gives(members, name.inner, ImplEntry::Method(index))
                    ==> more_is_reported(s, t)
            &&& forall|index: usize|
                #[trigger] gives(members, name.inner, ImplEntry::AssocFunction(index))
                    ==> more_is_reported(s, t)
        }),
{
    reveal(State::check_duplicate_method);
    reveal(State::report);
    law_member_is_the_first_of_its_name(s.inherent_impls[block_index as int].members, name.inner);
}

// ---------------------------------------------------------------- bodies

/// The parameters of a function are the first locals of its body, in order.
pub proof fn law_parameters_are_locals(params: List<FunctionParam>)
    ensures
        bodies::locals_of_params(params).count() == params.count(),
        forall|i: nat|
            (#[trigger] params.at(i)) matches Some(param) ==> bodies::locals_of_params(params).at(i)
                == Some(
                Local {
                    name: param.name,
                    ty: param.ty.inner,
                    mut_span: param.mut_span,
                    accesses: List::Nil,
                },
            ),
    decreases params,
{
    match params {
        List::Nil => {},
        List::Cons(head, rest) => {
            law_parameters_are_locals(*rest);
            assert forall|i: nat| (#[trigger] params.at(i)) is Some implies bodies::locals_of_params(
                params,
            ).at(i) == Some(
                Local {
                    name: params.at(i)->0.name,
                    ty: params.at(i)->0.ty.inner,
                    mut_span: params.at(i)->0.mut_span,
                    accesses: List::Nil,
                },
            ) by {
                if i > 0 {
                    assert(rest.at((i - 1) as nat) == params.at(i));
                    assert(bodies::locals_of_params(params).at(i) == bodies::locals_of_params(
                        *rest,
                    ).at((i - 1) as nat));
                }
            }
        },
    }
}

/// The body of a function starts in one scope that has the parameters and is
/// expected to give the function's result, which is `()` where none is
/// written.
pub proof fn law_start_of_a_body<'ast>(
    s: State<'ast>,
    context: ResolveContext,
    scope: GenericScope,
    span: TextSpan,
    func_index: usize,
)
    requires
        func_index < s.functions.len(),
    ensures
        ({
            let function = s.functions[func_index as int];
            let ctx = s.function_context(context, scope, span, func_index);
            &&& ctx.scope_index == 0
            &&& ctx.inferred(0) == ty::INFER
            &&& ctx.expected(0) == (match function.result {
                Some(written) => written.inner,
                None => ty::UNIT,
            })
            &&& forall|i: usize|
                (#[trigger] function.params.at(i as nat)) matches Some(param) ==> (ctx.local_at(
                    0,
                    i,
                ) matches Some(local) && local.name == param.name && local.ty == param.ty.inner)
        }),
{
    let function = s.functions[func_index as int];
    law_parameters_are_locals(function.params);
    reveal_with_fuel(List::at, 2);
}

/// A function without a body is reported unless the compiler provides it.
pub proof fn law_missing_body<'ast>(s: State<'ast>, func_index: usize, span: SourceSpan)
    requires
        func_index < s.functions.len(),
    ensures
        ({
            let attributes = s.functions[func_index as int].attributes;
            let provided = exists|i: nat|
                #[trigger] attributes.at(i) == Some(ItemAttribute::Intrinsic);
            let t = s.check_missing_body(func_index, span);
            &&& provided ==> t == s
            &&& !provided ==> more_is_reported(s, t)
        }),
{
    reveal(State::check_missing_body);
    reveal(State::report);
    law_provided_by_the_compiler(s.functions[func_index as int].attributes);
}

/// A function is provided by the compiler exactly where one of its attributes
/// says so.
pub proof fn law_provided_by_the_compiler(attributes: List<ItemAttribute>)
    ensures
        bodies::lists_intrinsic(&attributes) <==> (exists|i: nat|
            #[trigger] attributes.at(i) == Some(ItemAttribute::Intrinsic)),
    decreases attributes,
{
    match attributes {
        List::Nil => {},
        List::Cons(head, rest) => {
            law_provided_by_the_compiler(*rest);
            assert(attributes.at(0) == Some(*head));
            if bodies::lists_intrinsic(&*rest) {
                let i = choose|i: nat| #[trigger] rest.at(i) == Some(ItemAttribute::Intrinsic);
                assert(attributes.at(i + 1) == rest.at(i));
            }
            if *head != ItemAttribute::Intrinsic && exists|i: nat|
                #[trigger] attributes.at(i) == Some(ItemAttribute::Intrinsic) {
                let i = choose|i: nat|
                    #[trigger] attributes.at(i) == Some(ItemAttribute::Intrinsic);
                assert(rest.at((i - 1) as nat) == attributes.at(i));
            }
        },
    }
}

/// The value of a global can be used as the global's type, and that of one
/// that cannot be written to is a number literal; anything else is reported.
pub proof fn law_value_of_a_global<'ast>(
    s: State<'ast>,
    context: ResolveContext,
    value: Expression,
    global_ty: TypeIndex,
    constant: bool,
    span: TextSpan,
)
    ensures
        ({
            let t = s.check_global_value(context, &value, global_ty, constant, span);
            let right = !is_a_literal(value.ty) && s.coercible(value.ty, global_ty).1 && (constant
                ==> value.kind is Int || value.kind is Float);
            &&& right ==> t.diagnostics == s.diagnostics
            &&& !right ==> more_is_reported(s, t)
        }),
{
    reveal(State::check_global_value);
    reveal(State::report);
    law_misfit_is_reported(s, value.ty, global_ty, context.at(span));
}

/// The type of a function's result is the written one, or `()`.
pub proof fn law_result_of_a_function<'ast>(s: State<'ast>, func_index: usize)
    requires
        func_index < s.functions.len(),
    ensures
        s.function_result_type(func_index) == (match s.functions[func_index as int].result {
            Some(written) => written.inner,
            None => ty::UNIT,
        }),
        forall|i: nat|
            (#[trigger] s.functions[func_index as int].params.at(i)) matches Some(param)
                ==> s.function_param_types(func_index).at(i) == Some(param.ty.inner),
{
    types_of_parameters(s.functions[func_index as int].params);
}

proof fn types_of_parameters(params: List<FunctionParam>)
    ensures
        forall|i: nat|
            (#[trigger] params.at(i)) matches Some(param) ==> relate::param_types(params).at(i)
                == Some(param.ty.inner),
    decreases params,
{
    match params {
        List::Nil => {},
        List::Cons(head, rest) => {
            types_of_parameters(*rest);
            assert forall|i: nat| (#[trigger] params.at(i)) is Some implies relate::param_types(
                params,
            ).at(i) == Some(params.at(i)->0.ty.inner) by {
                if i > 0 {
                    assert(rest.at((i - 1) as nat) == params.at(i));
                }
            }
        },
    }
}

/// A definition that is resolved, or being resolved, is not resolved again.
pub proof fn law_resolved_once<'ast>(
    s: State<'ast>,
    id: DefId,
    pending: spec_fn(State<'ast>, DefId) -> State<'ast>,
)
    requires
        !(s.signature_state(id) is Some && s.signature_state(id)->0 is Pending),
    ensures
        s.ensure_with(id, pending) == s,
{
}

} // verus!
