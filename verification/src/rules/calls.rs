//! Calls: what is wrong with the arguments of a call is reported, and a call
//! has the type of the function's result.

use vstd::prelude::*;

use crate::ast;
use crate::ast::TypeExpression;
use crate::failures::more_is_reported;
use crate::growth;
use crate::list::List;
use crate::pool;
use crate::relate::MAX_DEPTH;
use crate::rules::bounds::{
    all_meet_bounds, declared_param, law_parameter_implements_its_bounds,
    law_unmet_bounds_of_a_call_are_reported, meets_declared_bounds, names_trait, same_declarations,
};
use crate::rules::coercion::{law_literals_only_report, law_misfit_is_reported};
use crate::rules::operators::is_a_literal;
use crate::scope::{next_index, ExprContext};
use crate::shape::reading;
use crate::span::{DefId, SourceSpan, Spanned, TextSpan};
use crate::state::State;
use crate::tir::{AccessContext, ExprKind, Expression, ResolveContext};
use crate::ty;
use crate::types::{Type, TypeIndex, TypeParamOwner};
use crate::typing::or_poisoned;

verus! {

// ---------------------------------------------------------------- one argument

/// An argument that is no number literal and has a type that cannot be used as
/// the parameter's type is reported; one that can be is not. The argument stays
/// what it is.
pub proof fn law_argument_fits_or_is_reported<'ast>(
    s: State<'ast>,
    ctx: ExprContext,
    argument: Expression,
    expected: TypeIndex,
)
    requires
        expected != ty::INFER,
        !is_a_literal(argument.ty),
    ensures
        ({
            let (t, later, settled) = s.settle_argument(ctx, argument, expected);
            &&& s.coercible(argument.ty, expected).1 ==> t.diagnostics == s.diagnostics
            &&& !s.coercible(argument.ty, expected).1 ==> more_is_reported(s, t)
            &&& settled == argument
            &&& later == ctx
            &&& same_declarations(s, t)
        }),
{
    reveal(State::settle_argument);
    reveal(State::report);
    law_misfit_is_reported(s, argument.ty, expected, ctx.resolve_context.at(argument.span));
    pool::law_comparing_changes_types_alone(s, argument.ty, expected);
}

/// A number literal takes the parameter's type where it fits. Where the type
/// of the parameter is not known, a literal is reported and nothing else is.
pub proof fn law_literal_as_an_argument<'ast>(
    s: State<'ast>,
    ctx: ExprContext,
    argument: Expression,
    expected: TypeIndex,
)
    ensures
        ({
            let (t, later, settled) = s.settle_argument(ctx, argument, expected);
            let (u, _, (typed, fits)) = s.coerce_untyped_expr(ctx, argument, expected);
            &&& expected == ty::INFER && !is_a_literal(argument.ty) ==> t == s && settled
                == argument
            &&& expected == ty::INFER && is_a_literal(argument.ty) ==> more_is_reported(s, t)
                && settled == argument
            &&& expected != ty::INFER && is_a_literal(argument.ty) ==> t == u && settled == typed
            &&& expected != ty::INFER && is_a_literal(argument.ty) && fits ==> settled.ty
                == expected && settled.span == argument.span
        }),
{
    reveal(State::settle_argument);
    reveal(State::report);
    super::law_literal_takes_the_type(s, ctx, argument, expected);
}

/// The first argument of a call is checked against the first parameter: if it
/// does not fit, the call reports something.
pub proof fn law_first_argument_is_checked<'ast>(
    s: State<'ast>,
    ctx: ExprContext,
    argument: Spanned<ast::Expression>,
    arguments: List<Spanned<ast::Expression>>,
    param: TypeIndex,
    params: List<TypeIndex>,
    pending: spec_fn(State<'ast>, DefId) -> State<'ast>,
)
    requires
        growth::resolver_adds(pending),
    ensures
        ({
            let (before, expected) = s.expected(param, List::Nil);
            let (between, _, built) = before.build_expression(
                ctx,
                reading(expected),
                &argument,
                pending,
            );
            let (after, _, all) = s.build_call_arguments(
                ctx,
                &crate::list::cons(argument, arguments),
                &crate::list::cons(param, params),
                pending,
            );
            &&& all.count() == 1 + arguments.count()
            &&& (built matches Some(value) && expected != ty::INFER && !is_a_literal(value.ty)
                && !between.coercible(value.ty, expected).1) ==> more_is_reported(s, after)
            &&& built matches Some(value) ==> (!is_a_literal(value.ty) ==> all.at(0) == Some(
                value,
            ))
        }),
{
    broadcast use growth::group_finishing;

    let (before, expected) = s.expected(param, List::Nil);
    s.adds_param_expectation(Some(param));
    before.adds_build_expression(ctx, reading(expected), &argument, pending);
    let (between, ctx_between, built) = before.build_expression(
        ctx,
        reading(expected),
        &argument,
        pending,
    );
    match built {
        Some(value) => {
            let (settled, ctx_settled, _) = between.settle_argument(ctx_between, value, expected);
            settled.adds_build_call_arguments(ctx_settled, &arguments, &params, pending);
            every_argument_is_kept(settled, ctx_settled, arguments, params, pending);
            if expected != ty::INFER && !is_a_literal(value.ty) {
                law_argument_fits_or_is_reported(between, ctx_between, value, expected);
            } else {
                law_literal_as_an_argument(between, ctx_between, value, expected);
            }
        },
        None => {
            every_argument_is_kept(between, ctx_between, arguments, params, pending);
        },
    }
    reveal(State::only_adds);
    reveal(State::grows_to);
}

proof fn every_argument_is_kept<'ast>(
    s: State<'ast>,
    ctx: ExprContext,
    arguments: List<Spanned<ast::Expression>>,
    params: List<TypeIndex>,
    pending: spec_fn(State<'ast>, DefId) -> State<'ast>,
)
    ensures
        s.build_call_arguments(ctx, &arguments, &params, pending).2.count() == arguments.count(),
    decreases arguments,
{
    match arguments {
        List::Nil => {},
        List::Cons(argument, rest) => {
            let (t, expected) = s.param_expectation(crate::typing::first_of_types(&params));
            let (t, ctx, built) = t.build_expression(ctx, reading(expected), &*argument, pending);
            match built {
                Some(value) => {
                    let (t, ctx, _) = t.settle_argument(ctx, value, expected);
                    every_argument_is_kept(
                        t,
                        ctx,
                        *rest,
                        crate::typing::rest_of_types(&params),
                        pending,
                    );
                },
                None => {
                    every_argument_is_kept(
                        t,
                        ctx,
                        *rest,
                        crate::typing::rest_of_types(&params),
                        pending,
                    );
                },
            }
        },
    }
}

// ---------------------------------------------------------------- the call

/// What a call calls: the built callee, or a poisoned one.
pub open spec fn built_callee<'ast>(
    s: State<'ast>,
    ctx: ExprContext,
    callee: Spanned<ast::Expression>,
    pending: spec_fn(State<'ast>, DefId) -> State<'ast>,
) -> (State<'ast>, Expression) {
    let (t, _, built) = s.build_expression(ctx, reading(ty::INFER), &callee, pending);
    (t, or_poisoned(built, callee.span))
}

/// A call of a function that is not generic has the type of the function's
/// result, calls what is written and has all the arguments. One with too many
/// or too few arguments reports something.
pub proof fn law_call_has_the_result_type<'ast>(
    s: State<'ast>,
    ctx: ExprContext,
    access: AccessContext,
    expr: Spanned<ast::Expression>,
    callee: Box<Spanned<ast::Expression>>,
    arguments: List<Spanned<ast::Expression>>,
    pending: spec_fn(State<'ast>, DefId) -> State<'ast>,
)
    requires
        growth::resolver_adds(pending),
        expr.inner == (ast::Expression::Call { callee, arguments }),
    ensures
        ({
            let (before, function) = built_callee(s, ctx, *callee, pending);
            let (after, _, call) = s.build_call_expression(ctx, access, &expr, pending);
            match before.callee_signature(function.ty) {
                Some(signature) => {
                    &&& before.generic_callee(&function) is None ==> (call matches Some(built)
                        && built.ty == signature.result && built.span == expr.span && (
                    built.kind matches ExprKind::Call { callee: called, arguments: given }
                        && *called == function && given.count() == arguments.count()))
                    &&& arguments.len() != signature.params.len() ==> more_is_reported(s, after)
                },
                None => {
                    &&& call matches Some(built) && built.ty == ty::ERROR
                    &&& function.ty != ty::ERROR ==> more_is_reported(s, after)
                },
            }
        }),
{
    broadcast use growth::group_finishing;

    s.adds_build_expression(ctx, reading(ty::INFER), &*callee, pending);
    let (before, ctx_before, built) = s.build_expression(
        ctx,
        reading(ty::INFER),
        &*callee,
        pending,
    );
    let function = or_poisoned(built, callee.span);
    match before.callee_signature(function.ty) {
        None => {
            before.adds_build_unchecked_arguments(ctx_before, &arguments, pending);
            reveal(State::report_invalid_callee);
        },
        Some(signature) => {
            let counted = if arguments.len() != signature.params.len() {
                before.report(
                    crate::reports::argument_count_mismatch(
                        arguments.len(),
                        signature.params,
                        ctx.resolve_context.at(function.span),
                        false,
                    ),
                )
            } else {
                before
            };
            reveal(State::report);
            assert(counted.generic_callee(&function) == before.generic_callee(&function));
            match counted.generic_callee(&function) {
                Some((func_index, id, type_args)) => {
                    let type_args = counted.infer_from_expected(
                        type_args,
                        counted.function_result_type(func_index),
                        access.expected_type,
                    );
                    let params = counted.function_param_types(func_index);
                    counted.adds_build_generic_arguments(
                        ctx_before,
                        &arguments,
                        &params,
                        type_args,
                        pending,
                    );
                },
                None => {
                    counted.adds_build_call_arguments(
                        ctx_before,
                        &arguments,
                        &signature.params,
                        pending,
                    );
                    every_argument_is_kept(
                        counted,
                        ctx_before,
                        arguments,
                        signature.params,
                        pending,
                    );
                },
            }
        },
    }
    reveal(State::report);
    reveal(State::only_adds);
    reveal(State::grows_to);
}

/// What is no function cannot be called, which is reported unless what is
/// called is poisoned.
pub proof fn law_callee_is_a_function<'ast>(
    s: State<'ast>,
    callee: TypeIndex,
    block_like: bool,
    span: SourceSpan,
)
    ensures
        callee == ty::ERROR ==> s.report_invalid_callee(callee, block_like, span) == s,
        callee != ty::ERROR ==> more_is_reported(
            s,
            s.report_invalid_callee(callee, block_like, span),
        ),
        s.callee_signature(callee) is Some ==> s.ty(callee) is Function || s.ty(callee)
            is FunctionItem,
        s.ty(callee) matches Type::Function { signature } ==> s.callee_signature(callee) == Some(
            signature,
        ),
        s.ty(callee) matches Type::FunctionItem { id, type_args: _ } ==> (s.ty(
            s.signature_of(id),
        ) matches Type::Function { signature } ==> s.callee_signature(callee) == Some(signature)),
{
    reveal(State::report_invalid_callee);
    reveal(State::report);
}

/// Type arguments may be left out, but not given in another number than there
/// are type parameters: that is reported.
pub proof fn law_number_of_type_arguments<'ast>(
    s: State<'ast>,
    expected: usize,
    found: usize,
    span: SourceSpan,
)
    ensures
        found == 0 || found == expected ==> s.check_type_arg_count(expected, found, span) == s,
        found != 0 && found != expected ==> more_is_reported(
            s,
            s.check_type_arg_count(expected, found, span),
        ),
{
    reveal(State::check_type_arg_count);
    reveal(State::report);
}

/// A method that is not generic takes no type arguments, and a receiver that
/// can be used as its first parameter. What does not is reported, and nothing
/// else is.
pub proof fn law_plain_method_is_checked<'ast>(
    s: State<'ast>,
    context: ResolveContext,
    receiver: Spanned<TypeIndex>,
    params: List<TypeIndex>,
    written: List<Spanned<TypeExpression>>,
)
    ensures
        ({
            let t = s.check_plain_method(context, receiver, &params, &written);
            &&& written is Cons ==> more_is_reported(s, t)
            &&& (params.at(0) matches Some(first) && !s.coercible(receiver.inner, first).1)
                ==> more_is_reported(s, t)
            &&& written is Nil && (params.at(0) matches Some(first) ==> s.coercible(
                receiver.inner,
                first,
            ).1) ==> t.diagnostics == s.diagnostics
        }),
{
    reveal(State::check_plain_method);
    reveal(State::report);
    match params {
        List::Nil => {},
        List::Cons(first, rest) => {
            match written {
                List::Nil => {
                    law_misfit_is_reported(
                        s,
                        receiver.inner,
                        *first,
                        context.at(receiver.span),
                    );
                },
                List::Cons(written_first, _) => {
                    let reported = s.report(
                        crate::reports::report_no_generic_arguments(
                            written.len(),
                            context.at(
                                crate::resolve::span_between(
                                    written_first.span,
                                    crate::calls::span_of_last_type(&written, written_first.span),
                                ),
                            ),
                        ),
                    );
                    law_misfit_is_reported(
                        reported,
                        receiver.inner,
                        *first,
                        context.at(receiver.span),
                    );
                },
            }
        },
    }
}

// ---------------------------------------------------------------- generic calls

/// An argument of a generic call that is no number literal is reported exactly
/// where its type cannot be used as what the parameter's type becomes with the
/// type arguments, if that is known.
pub proof fn law_generic_argument_fits_or_is_reported<'ast>(
    s: State<'ast>,
    ctx: ExprContext,
    param: TypeIndex,
    type_args: List<TypeIndex>,
    argument: Expression,
)
    requires
        !is_a_literal(argument.ty),
    ensures
        ({
            let (u, expected) = s.expected(param, type_args);
            let (t, _, (settled, fits)) = s.fit_generic_argument(ctx, param, &type_args, argument);
            &&& settled == argument
            &&& !u.has_infer(expected) ==> fits == u.coercible(argument.ty, expected).1
            &&& u.has_infer(expected) ==> fits == u.satisfies(argument.ty, expected)
            &&& fits ==> t.diagnostics == s.diagnostics
            &&& !fits ==> more_is_reported(s, t)
        }),
{
    reveal(State::fit_generic_argument);
    reveal(State::report);
    pool::law_substitution_changes_types_alone(s, param, type_args, MAX_DEPTH);
    let (u, expected) = s.expected(param, type_args);
    pool::law_comparing_changes_types_alone(u, argument.ty, expected);
}

proof fn fitting_declares_nothing<'ast>(
    s: State<'ast>,
    ctx: ExprContext,
    params: List<TypeIndex>,
    type_args: List<TypeIndex>,
    arguments: List<Expression>,
)
    ensures
        same_declarations(s, s.fit_generic_arguments(ctx, &params, &type_args, arguments).0),
    decreases params,
{
    match params {
        List::Nil => {},
        List::Cons(param, params_rest) => match arguments {
            List::Nil => {},
            List::Cons(argument, rest) => {
                let (t, ctx, _) = s.fit_generic_argument(ctx, *param, &type_args, *argument);
                fitting_in_any_context(s, *param, type_args, *argument);
                fitting_declares_nothing(t, ctx, *params_rest, type_args, *rest);
            },
        },
    }
}

proof fn fitting_in_any_context<'ast>(
    s: State<'ast>,
    param: TypeIndex,
    type_args: List<TypeIndex>,
    argument: Expression,
)
    ensures
        forall|ctx: ExprContext|
            same_declarations(
                s,
                (#[trigger] s.fit_generic_argument(ctx, param, &type_args, argument)).0,
            ),
{
    assert forall|ctx: ExprContext|
        same_declarations(
            s,
            (#[trigger] s.fit_generic_argument(ctx, param, &type_args, argument)).0,
        ) by {
        fitting_one_declares_nothing(s, ctx, param, type_args, argument);
    }
}

proof fn fitting_one_declares_nothing<'ast>(
    s: State<'ast>,
    ctx: ExprContext,
    param: TypeIndex,
    type_args: List<TypeIndex>,
    argument: Expression,
)
    ensures
        same_declarations(s, s.fit_generic_argument(ctx, param, &type_args, argument).0),
{
    reveal(State::fit_generic_argument);
    reveal(State::report);
    pool::law_substitution_changes_types_alone(s, param, type_args, MAX_DEPTH);
    let (u, expected) = s.expected(param, type_args);
    pool::law_comparing_changes_types_alone(u, argument.ty, expected);
    law_literals_only_report(u, ctx, argument, expected);
}

/// Each type parameter that a call leaves open is reported, and nothing where
/// none is open.
pub proof fn law_open_type_parameters_are_reported<'ast>(
    s: State<'ast>,
    id: DefId,
    type_args: List<TypeIndex>,
    index: usize,
    span: SourceSpan,
)
    ensures
        ({
            let t = s.report_open_type_params(id, &type_args, index, span);
            &&& (exists|i: nat| #[trigger] type_args.at(i) == Some(ty::INFER))
                ==> more_is_reported(s, t)
            &&& !(exists|i: nat| #[trigger] type_args.at(i) == Some(ty::INFER)) ==> t == s
            &&& s.diagnostics.len() <= t.diagnostics.len()
            &&& same_declarations(s, t)
        }),
    decreases type_args,
{
    reveal(State::report);
    match type_args {
        List::Nil => {},
        List::Cons(head, rest) => {
            assert(type_args.at(0) == Some(*head));
            assert forall|i: nat| #[trigger] rest.at(i) == type_args.at(i + 1) by {}
            let t = if *head == ty::INFER {
                s.report(
                    crate::reports::report_cannot_infer_type_param(
                        s.function_type_param_name(id, index),
                        span,
                    ),
                )
            } else {
                s
            };
            law_open_type_parameters_are_reported(t, id, *rest, next_index(index), span);
            if exists|i: nat| #[trigger] type_args.at(i) == Some(ty::INFER) {
                let i = choose|i: nat| #[trigger] type_args.at(i) == Some(ty::INFER);
                if i > 0 {
                    assert(rest.at((i - 1) as nat) == type_args.at(i));
                }
            } else {
                assert forall|i: nat| #[trigger] rest.at(i) != Some(ty::INFER) by {
                    assert(rest.at(i) == type_args.at(i + 1));
                }
            }
        },
    }
}

proof fn unmet_bound_among_all<'ast>(
    s: State<'ast>,
    func_index: usize,
    type_args: List<TypeIndex>,
    from: usize,
    position: nat,
)
    requires
        from + position <= usize::MAX,
        type_args.at(position) matches Some(argument) && argument != ty::ERROR
            && !meets_declared_bounds(s, func_index, (from + position) as usize, argument),
    ensures
        !all_meet_bounds(s, func_index, type_args, from),
    decreases type_args,
{
    match type_args {
        List::Nil => {},
        List::Cons(head, rest) => {
            if position > 0 {
                assert(rest.at((position - 1) as nat) == type_args.at(position));
                unmet_bound_among_all(
                    s,
                    func_index,
                    *rest,
                    next_index(from),
                    (position - 1) as nat,
                );
            }
        },
    }
}

/// The type arguments that a generic call is left with before those still open
/// are closed: the written ones, what the expected type tells, and what the
/// arguments tell.
pub open spec fn known_type_args<'ast>(
    s: State<'ast>,
    func_index: usize,
    arguments: List<Expression>,
    type_args: List<TypeIndex>,
    expected_result: TypeIndex,
) -> List<TypeIndex> {
    s.infer_from_arguments(
        s.infer_from_expected(type_args, s.function_result_type(func_index), expected_result),
        &s.function_param_types(func_index),
        &arguments,
    )
}

/// A call that gives a type parameter to a function's type parameter that asks
/// for a trait reports something, unless a declared bound of the given one
/// names the trait.
pub proof fn law_call_with_an_unbound_parameter_is_reported<'ast>(
    s: State<'ast>,
    ctx: ExprContext,
    func_index: usize,
    arguments: List<Expression>,
    type_args: List<TypeIndex>,
    expected_result: TypeIndex,
    call_span: TextSpan,
    position: usize,
    given: TypeIndex,
    required: usize,
)
    requires
        func_index < s.functions.len(),
        ({
            let known = known_type_args(s, func_index, arguments, type_args, expected_result);
            let (u, result) = s.substituted(
                s.function_result_type(func_index),
                known,
                MAX_DEPTH,
            );
            &&& !u.has_infer(result)
            &&& known.at(position as nat) == Some(given)
        }),
        given != ty::ERROR && given != ty::INFER && given < s.types.len(),
        s.ty(given) is TypeParam,
        declared_param(
            s,
            s.ty(given)->TypeParam_owner,
            s.ty(given)->TypeParam_param_index,
        ) matches Some(declared) && !names_trait(declared.bounds.traits, required),
        declared_param(
            s,
            TypeParamOwner::Function(s.functions[func_index as int].id),
            position,
        ) matches Some(asked) && names_trait(asked.bounds.traits, required),
    ensures
        more_is_reported(
            s,
            s.build_generic_call_arguments(
                ctx,
                func_index,
                arguments,
                type_args,
                expected_result,
                call_span,
            ).0,
        ),
{
    broadcast use growth::group_finishing;

    reveal(State::build_generic_call_arguments);
    let call = ctx.resolve_context.at(call_span);
    let params = s.function_param_types(func_index);
    let (_, _, id) = s.function_identity(func_index);
    let known = known_type_args(s, func_index, arguments, type_args, expected_result);
    let result = s.function_result_type(func_index);
    let (u, concrete) = s.substituted(result, known, MAX_DEPTH);
    pool::law_substitution_changes_types_alone(s, result, known, MAX_DEPTH);
    let (v, _, (fitted, fits)) = u.fit_generic_arguments(ctx, &params, &known, arguments);
    fitting_declares_nothing(u, ctx, params, known, arguments);
    law_open_type_parameters_are_reported(v, id, known, 0, call);
    let w = if fits {
        v.report_open_type_params(id, &known, 0, call)
    } else {
        v
    };
    assert(same_declarations(s, w));
    assert(s.only_adds(u) && u.only_adds(v) && v.only_adds(w)) by {
        v.adds_nothing();
    }
    assert(w.ty(given) == s.ty(given) && s.diagnostics.len() <= w.diagnostics.len()) by {
        reveal(State::only_adds);
        reveal(State::grows_to);
    }
    let closed = crate::generics::closed_types(&known);
    closed_keeps_what_is_known(known, position as nat, given);
    law_parameter_implements_its_bounds(w, given, required);
    assert(!meets_declared_bounds(w, func_index, position, given));
    unmet_bound_among_all(w, func_index, closed, 0, position as nat);
    law_unmet_bounds_of_a_call_are_reported(w, func_index, closed, 0, params, fitted, call);
    let x = w.check_type_arg_bounds(func_index, &closed, 0, &params, &fitted, call);
    x.adds_check_type_arg_clauses(func_index, &closed, 0, call);
    reveal(State::only_adds);
    reveal(State::grows_to);
}

proof fn closed_keeps_what_is_known(types: List<TypeIndex>, position: nat, index: TypeIndex)
    requires
        types.at(position) == Some(index),
        index != ty::INFER,
    ensures
        crate::generics::closed_types(&types).at(position) == Some(index),
    decreases types,
{
    match types {
        List::Nil => {},
        List::Cons(head, rest) => {
            if position > 0 {
                closed_keeps_what_is_known(*rest, (position - 1) as nat, index);
            }
        },
    }
}

/// The type of an argument fills the open slot of the type parameter that is
/// the parameter's type, and no other slot; a literal and a poisoned argument
/// fill none.
pub proof fn law_argument_fills_its_slot<'ast>(
    s: State<'ast>,
    type_args: List<TypeIndex>,
    param: TypeIndex,
    actual: TypeIndex,
    slot: nat,
)
    requires
        s.ty(param) is TypeParam,
    ensures
        ({
            let own = s.ty(param)->TypeParam_param_index as nat;
            let later = s.inferred(type_args, param, actual);
            &&& slot != own ==> later.at(slot) == type_args.at(slot)
            &&& type_args.at(own) == Some(ty::INFER) && actual != ty::ERROR && !is_a_literal(actual)
                ==> later.at(own) == Some(actual)
            &&& type_args.at(own) != Some(ty::INFER) || actual == ty::ERROR || is_a_literal(actual)
                ==> later == type_args
        }),
{
    let own = s.ty(param)->TypeParam_param_index as nat;
    replaced_at(type_args, own, actual, slot);
}

proof fn replaced_at(types: List<TypeIndex>, index: nat, value: TypeIndex, slot: nat)
    ensures
        types.at(index) is Some ==> types.replaced(index, value).at(index) == Some(value),
        slot != index ==> types.replaced(index, value).at(slot) == types.at(slot),
    decreases types,
{
    match types {
        List::Nil => {},
        List::Cons(head, rest) => {
            if index > 0 {
                replaced_at(*rest, (index - 1) as nat, value, if slot > 0 {
                    (slot - 1) as nat
                } else {
                    index
                });
            }
        },
    }
}

} // verus!
