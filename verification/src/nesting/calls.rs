//! What `calls` builds, it builds in the scope that it is in.

use vstd::prelude::*;

use crate::ast;
use crate::list::List;
use crate::reports;
use crate::scope::ExprContext;
use crate::shape::{reading, spanned};
use crate::span::{DefId, Spanned};
use crate::state::State;
use crate::tir::{AccessContext, AccessTarget, ResolveContext};
use crate::ty;
use crate::types::TypeIndex;
use crate::typing;
use crate::typing::or_poisoned;

verus! {

impl<'ast> State<'ast> {
    pub proof fn keeps_build_call_expression(
        self,
        ctx: ExprContext,
        access: AccessContext,
        expr: &Spanned<ast::Expression>,
        pending: spec_fn(State<'ast>, DefId) -> State<'ast>,
    )
        ensures
            ctx.stays_in_scope(self.build_call_expression(ctx, access, expr, pending).1),
        decreases 8int, expr, 4int,
    {
        broadcast use crate::nesting::group_staying;

        ctx.grows_into_itself();
        match &expr.inner {
            ast::Expression::Call { callee, arguments } => {
                let context: ResolveContext = ctx.resolve_context;
                self.keeps_build_expression(ctx, reading(ty::INFER), callee, pending);
                let (s, ctx, built) = self.build_expression(
                    ctx,
                    reading(ty::INFER),
                    callee,
                    pending,
                );
                let function = or_poisoned(built, callee.span);
                match s.callee_signature(function.ty) {
                    None => {
                        s.keeps_build_unchecked_arguments(ctx, arguments, pending);
                    },
                    Some(signature) => {
                        let s = if arguments.len() != signature.params.len() {
                            s.report(
                                reports::argument_count_mismatch(
                                    arguments.len(),
                                    signature.params,
                                    context.at(function.span),
                                    false,
                                ),
                            )
                        } else {
                            s
                        };
                        match s.generic_callee(&function) {
                            Some((func_index, id, type_args)) => {
                                let type_args = s.infer_from_expected(
                                    type_args,
                                    s.function_result_type(func_index),
                                    access.expected_type,
                                );
                                let params = s.function_param_types(func_index);
                                s.keeps_build_generic_arguments(
                                    ctx,
                                    arguments,
                                    &params,
                                    type_args,
                                    pending,
                                );
                                let (s, ctx, found) = s.build_generic_arguments(
                                    ctx,
                                    arguments,
                                    &params,
                                    type_args,
                                    pending,
                                );
                                match found {
                                    Some((built_arguments, type_args)) => {},
                                    None => {},
                                }
                            },
                            None => {
                                s.keeps_build_call_arguments(
                                    ctx,
                                    arguments,
                                    &signature.params,
                                    pending,
                                );
                            },
                        }
                    },
                }
            },
            _ => {},
        }
    }

    pub proof fn keeps_build_unchecked_arguments(
        self,
        ctx: ExprContext,
        arguments: &List<Spanned<ast::Expression>>,
        pending: spec_fn(State<'ast>, DefId) -> State<'ast>,
    )
        ensures
            ctx.stays_in_scope(self.build_unchecked_arguments(ctx, arguments, pending).1),
        decreases 8int, arguments, 0int,
    {
        broadcast use crate::nesting::group_staying;

        ctx.grows_into_itself();
        match arguments {
            List::Nil => {},
            List::Cons(argument, rest) => {
                self.keeps_build_expression(ctx, reading(ty::ERROR), argument, pending);
                let (s, ctx, built) = self.build_expression(
                    ctx,
                    reading(ty::ERROR),
                    argument,
                    pending,
                );
                s.keeps_build_unchecked_arguments(ctx, rest, pending);
            },
        }
    }

    pub proof fn keeps_build_call_arguments(
        self,
        ctx: ExprContext,
        arguments: &List<Spanned<ast::Expression>>,
        params: &List<TypeIndex>,
        pending: spec_fn(State<'ast>, DefId) -> State<'ast>,
    )
        ensures
            ctx.stays_in_scope(self.build_call_arguments(ctx, arguments, params, pending).1),
        decreases 8int, arguments, 0int,
    {
        broadcast use crate::nesting::group_staying;

        ctx.grows_into_itself();
        match arguments {
            List::Nil => {},
            List::Cons(argument, rest) => {
                let (s, expected) = self.param_expectation(typing::first_of_types(params));
                s.keeps_build_expression(ctx, reading(expected), argument, pending);
                let (s, ctx, built) = s.build_expression(
                    ctx,
                    reading(expected),
                    argument,
                    pending,
                );
                match built {
                    Some(built) => {
                        let (s, ctx, built) = s.settle_argument(ctx, built, expected);
                        s.keeps_build_call_arguments(
                            ctx,
                            rest,
                            &typing::rest_of_types(params),
                            pending,
                        );
                    },
                    None => {
                        s.keeps_build_call_arguments(
                            ctx,
                            rest,
                            &typing::rest_of_types(params),
                            pending,
                        );
                    },
                }
            },
        }
    }

    pub proof fn keeps_build_generic_arguments(
        self,
        ctx: ExprContext,
        arguments: &List<Spanned<ast::Expression>>,
        params: &List<TypeIndex>,
        type_args: List<TypeIndex>,
        pending: spec_fn(State<'ast>, DefId) -> State<'ast>,
    )
        ensures
            ctx.stays_in_scope(
                self.build_generic_arguments(ctx, arguments, params, type_args, pending).1,
            ),
        decreases 8int, arguments, 0int,
    {
        broadcast use crate::nesting::group_staying;

        ctx.grows_into_itself();
        match arguments {
            List::Nil => {},
            List::Cons(argument, rest) => {
                let param = typing::first_of_types(params);
                let (s, expected) = self.argument_expectation(param, &type_args);
                s.keeps_build_expression(ctx, reading(expected), argument, pending);
                let (s, ctx, built) = s.build_expression(
                    ctx,
                    reading(expected),
                    argument,
                    pending,
                );
                match built {
                    Some(built) => {
                        let type_args = s.infer_from_argument(type_args, param, built.ty);
                        s.keeps_build_generic_arguments(
                            ctx,
                            rest,
                            &typing::rest_of_types(params),
                            type_args,
                            pending,
                        );
                        let (s, ctx, found) = s.build_generic_arguments(
                            ctx,
                            rest,
                            &typing::rest_of_types(params),
                            type_args,
                            pending,
                        );
                        match found {
                            Some((others, type_args)) => {},
                            None => {},
                        }
                    },
                    None => {},
                }
            },
        }
    }

    pub proof fn keeps_build_method_call_expression(
        self,
        ctx: ExprContext,
        access: AccessContext,
        expr: &Spanned<ast::Expression>,
        pending: spec_fn(State<'ast>, DefId) -> State<'ast>,
    )
        ensures
            ctx.stays_in_scope(self.build_method_call_expression(ctx, access, expr, pending).1),
        decreases 8int, expr, 4int,
    {
        broadcast use crate::nesting::group_staying;

        ctx.grows_into_itself();
        match &expr.inner {
            ast::Expression::MethodCall { object, method, type_args: written, arguments } => {
                let context: ResolveContext = ctx.resolve_context;
                self.keeps_build_expression(ctx, reading(ty::INFER), object, pending);
                let (s, ctx, receiver) = self.build_expression(
                    ctx,
                    reading(ty::INFER),
                    object,
                    pending,
                );
                match receiver {
                    Some(receiver) => {
                        let (s, resolved) = s.resolve_method_call(
                            context,
                            spanned(receiver.ty, receiver.span),
                            *method,
                        );
                        match resolved {
                            None => {
                                s.keeps_build_unchecked_arguments(ctx, arguments, pending);
                            },
                            Some((func_index, type_args)) => {
                                let s = s.access(
                                    AccessTarget::Function(func_index),
                                    context.at(method.span),
                                );
                                let (_, _, id) = s.function_identity(func_index);
                                let signature = s.method_signature(func_index);
                                let params = typing::rest_of_types(&signature.params);
                                let s = if arguments.len() != params.len() {
                                    s.report(
                                        reports::argument_count_mismatch(
                                            arguments.len(),
                                            params,
                                            context.at(receiver.span),
                                            true,
                                        ),
                                    )
                                } else {
                                    s
                                };
                                if type_args.is_empty() {
                                    let s = s.check_plain_method(
                                        context,
                                        spanned(receiver.ty, receiver.span),
                                        &signature.params,
                                        written,
                                    );
                                    s.keeps_build_call_arguments(
                                        ctx,
                                        arguments,
                                        &params,
                                        pending,
                                    );
                                    let (s, ctx, built_arguments) = s.build_call_arguments(
                                        ctx,
                                        arguments,
                                        &params,
                                        pending,
                                    );
                                } else {
                                    let (own, inherited) = s.own_type_params(func_index);
                                    let s = s.check_type_arg_count(
                                        own,
                                        written.len(),
                                        context.at(expr.span),
                                    );
                                    let (s, type_args) = s.fill_type_args(
                                        context,
                                        ctx.scope,
                                        written,
                                        type_args,
                                        inherited,
                                        pending,
                                    );
                                    let type_args = s.infer_from_expected(
                                        type_args,
                                        signature.result,
                                        access.expected_type,
                                    );
                                    s.keeps_build_generic_arguments(
                                        ctx,
                                        arguments,
                                        &params,
                                        type_args,
                                        pending,
                                    );
                                    let (s, ctx, found) = s.build_generic_arguments(
                                        ctx,
                                        arguments,
                                        &params,
                                        type_args,
                                        pending,
                                    );
                                    match found {
                                        Some((built_arguments, type_args)) => {},
                                        None => {},
                                    }
                                }
                            },
                        }
                    },
                    None => {},
                }
            },
            _ => {},
        }
    }
}

} // verus!
