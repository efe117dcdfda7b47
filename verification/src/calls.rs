//! Calls of functions and methods.

use vstd::prelude::*;

use crate::ast;
use crate::ast::TypeExpression;
use crate::list::{cons, List};
use crate::names::poisoned;
use crate::relate::MAX_DEPTH;
use crate::reports;
use crate::reports::{report_argument_count_mismatch, report_no_generic_arguments};
use crate::resolve;
use crate::resolve::join_spans;
use crate::scope::ExprContext;
use crate::shape::{reading, spanned, typed};
use crate::signatures;
use crate::span::{DefId, Spanned, TextSpan};
use crate::state;
use crate::state::{vec_at, Builder, State};
use crate::tir::{AccessContext, AccessTarget, ExprKind, Expression, ResolveContext};
use crate::ty;
use crate::types::{FunctionSignature, Type, TypeIndex};
use crate::typing;
use crate::typing::{first_param, is_block_like, or_poisoned, other_params};

verus! {

/// The place of the last type of a list.
pub open spec fn span_of_last_type(
    types: &List<Spanned<TypeExpression>>,
    span: TextSpan,
) -> TextSpan
    decreases types,
{
    match types {
        List::Nil => span,
        List::Cons(head, rest) => span_of_last_type(rest, head.span),
    }
}

/// The place of the last type of a list.
pub fn last_type_span(types: &List<Spanned<TypeExpression>>, span: TextSpan) -> (result: TextSpan)
    ensures
        result == span_of_last_type(types, span),
    decreases types,
{
    match types {
        List::Nil => span,
        List::Cons(head, rest) => last_type_span(rest, head.span),
    }
}

impl<'ast> State<'ast> {
    /// A call. The callee is a function; a generic one has its type arguments
    /// inferred from the arguments and the expected type.
    pub open spec fn build_call_expression(
        self,
        ctx: ExprContext,
        access: AccessContext,
        expr: &Spanned<ast::Expression>,
        pending: spec_fn(State<'ast>, DefId) -> State<'ast>,
    ) -> (State<'ast>, ExprContext, Option<Expression>)
        decreases 8int, expr, 4int,
    {
        match &expr.inner {
            ast::Expression::Call { callee, arguments } => {
                let context: ResolveContext = ctx.resolve_context;
                let (s, ctx, built) = self.build_expression(
                    ctx,
                    reading(ty::INFER),
                    callee,
                    pending,
                );
                let function = or_poisoned(built, callee.span);
                match s.callee_signature(function.ty) {
                    None => {
                        let (s, ctx, built_arguments) = s.build_unchecked_arguments(
                            ctx,
                            arguments,
                            pending,
                        );
                        let s = s.report_invalid_callee(
                            function.ty,
                            typing::ends_in_block(&callee.inner),
                            context.at(callee.span),
                        );
                        (
                            s,
                            ctx,
                            Some(
                                typed(
                                    ExprKind::Call {
                                        callee: Box::new(function),
                                        arguments: built_arguments,
                                    },
                                    ty::ERROR,
                                    expr.span,
                                ),
                            ),
                        )
                    },
                    Some(signature) => {
                        let s = if arguments.len() != signature.params.len() {
                            s.report(
                                reports::argument_count_mismatch(
                                    arguments.len(),
                                    signature.params,
                                    context.at(function.span),
                                    false,
                                ),
                            )
                        } else {
                            s
                        };
                        match s.generic_callee(&function) {
                            Some((func_index, id, type_args)) => {
                                let type_args = s.infer_from_expected(
                                    type_args,
                                    s.function_result_type(func_index),
                                    access.expected_type,
                                );
                                let params = s.function_param_types(func_index);
                                let (s, ctx, found) = s.build_generic_arguments(
                                    ctx,
                                    arguments,
                                    &params,
                                    type_args,
                                    pending,
                                );
                                match found {
                                    Some((built_arguments, type_args)) => {
                                        let (s, ctx, (type_args, built_arguments)) = s.build_generic_call_arguments(
                                            ctx,
                                            func_index,
                                            built_arguments,
                                            type_args,
                                            access.expected_type,
                                            expr.span,
                                        );
                                        let (s, ty) = s.substituted(
                                            signature.result,
                                            type_args,
                                            MAX_DEPTH,
                                        );
                                        (
                                            s,
                                            ctx,
                                            Some(
                                                typed(
                                                    ExprKind::GenericCall {
                                                        id,
                                                        type_args,
                                                        arguments: built_arguments,
                                                    },
                                                    ty,
                                                    expr.span,
                                                ),
                                            ),
                                        )
                                    },
                                    None => (s, ctx, None),
                                }
                            },
                            None => {
                                let (s, ctx, built_arguments) = s.build_call_arguments(
                                    ctx,
                                    arguments,
                                    &signature.params,
                                    pending,
                                );
                                (
                                    s,
                                    ctx,
                                    Some(
                                        typed(
                                            ExprKind::Call {
                                                callee: Box::new(function),
                                                arguments: built_arguments,
                                            },
                                            signature.result,
                                            expr.span,
                                        ),
                                    ),
                                )
                            },
                        }
                    },
                }
            },
            _ => (self, ctx, None),
        }
    }

    /// The arguments of a call whose parameters are not known, so that what is
    /// wrong inside them is reported all the same.
    pub open spec fn build_unchecked_arguments(
        self,
        ctx: ExprContext,
        arguments: &List<Spanned<ast::Expression>>,
        pending: spec_fn(State<'ast>, DefId) -> State<'ast>,
    ) -> (State<'ast>, ExprContext, List<Expression>)
        decreases 8int, arguments, 0int,
    {
        match arguments {
            List::Nil => (self, ctx, List::Nil),
            List::Cons(argument, rest) => {
                let (s, ctx, built) = self.build_expression(
                    ctx,
                    reading(ty::ERROR),
                    argument,
                    pending,
                );
                let (s, ctx, others) = s.build_unchecked_arguments(ctx, rest, pending);
                (s, ctx, cons(or_poisoned(built, argument.span), others))
            },
        }
    }

    /// The arguments of a call, each checked against its parameter's type.
    pub open spec fn build_call_arguments(
        self,
        ctx: ExprContext,
        arguments: &List<Spanned<ast::Expression>>,
        params: &List<TypeIndex>,
        pending: spec_fn(State<'ast>, DefId) -> State<'ast>,
    ) -> (State<'ast>, ExprContext, List<Expression>)
        decreases 8int, arguments, 0int,
    {
        match arguments {
            List::Nil => (self, ctx, List::Nil),
            List::Cons(argument, rest) => {
                let (s, expected) = self.param_expectation(typing::first_of_types(params));
                let (s, ctx, built) = s.build_expression(
                    ctx,
                    reading(expected),
                    argument,
                    pending,
                );
                match built {
                    Some(built) => {
                        let (s, ctx, built) = s.settle_argument(ctx, built, expected);
                        let (s, ctx, others) = s.build_call_arguments(
                            ctx,
                            rest,
                            &typing::rest_of_types(params),
                            pending,
                        );
                        (s, ctx, cons(built, others))
                    },
                    None => {
                        let (s, ctx, others) = s.build_call_arguments(
                            ctx,
                            rest,
                            &typing::rest_of_types(params),
                            pending,
                        );
                        (s, ctx, cons(poisoned(argument.span), others))
                    },
                }
            },
        }
    }

    /// The type that is expected of an argument for a parameter of a function
    /// that is not generic.
    pub open spec fn param_expectation(self, param: Option<TypeIndex>) -> (State<'ast>, TypeIndex) {
        match param {
            Some(param) => self.expected(param, List::Nil),
            None => (self, ty::INFER),
        }
    }

    /// The arguments of a generic call, up to the first that fails, and the type
    /// arguments as far as they tell them. Each argument is built with what the
    /// ones before it told.
    pub open spec fn build_generic_arguments(
        self,
        ctx: ExprContext,
        arguments: &List<Spanned<ast::Expression>>,
        params: &List<TypeIndex>,
        type_args: List<TypeIndex>,
        pending: spec_fn(State<'ast>, DefId) -> State<'ast>,
    ) -> (State<'ast>, ExprContext, Option<(List<Expression>, List<TypeIndex>)>)
        decreases 8int, arguments, 0int,
    {
        match arguments {
            List::Nil => (self, ctx, Some((List::Nil, type_args))),
            List::Cons(argument, rest) => {
                let param = typing::first_of_types(params);
                let (s, expected) = self.argument_expectation(param, &type_args);
                let (s, ctx, built) = s.build_expression(
                    ctx,
                    reading(expected),
                    argument,
                    pending,
                );
                match built {
                    Some(built) => {
                        let type_args = s.infer_from_argument(type_args, param, built.ty);
                        let (s, ctx, found) = s.build_generic_arguments(
                            ctx,
                            rest,
                            &typing::rest_of_types(params),
                            type_args,
                            pending,
                        );
                        match found {
                            Some((others, type_args)) => {
                                (s, ctx, Some((cons(built, others), type_args)))
                            },
                            None => (s, ctx, None),
                        }
                    },
                    None => (s, ctx, None),
                }
            },
        }
    }

    /// A call of a method on an object.
    pub open spec fn build_method_call_expression(
        self,
        ctx: ExprContext,
        access: AccessContext,
        expr: &Spanned<ast::Expression>,
        pending: spec_fn(State<'ast>, DefId) -> State<'ast>,
    ) -> (State<'ast>, ExprContext, Option<Expression>)
        decreases 8int, expr, 4int,
    {
        match &expr.inner {
            ast::Expression::MethodCall { object, method, type_args: written, arguments } => {
                let context: ResolveContext = ctx.resolve_context;
                let (s, ctx, receiver) = self.build_expression(
                    ctx,
                    reading(ty::INFER),
                    object,
                    pending,
                );
                match receiver {
                    Some(receiver) => {
                        let (s, resolved) = s.resolve_method_call(
                            context,
                            spanned(receiver.ty, receiver.span),
                            *method,
                        );
                        match resolved {
                            None => {
                                let (s, ctx, _unused) = s.build_unchecked_arguments(
                                    ctx,
                                    arguments,
                                    pending,
                                );
                                (s, ctx, None)
                            },
                            Some((func_index, type_args)) => {
                                let s = s.access(
                                    AccessTarget::Function(func_index),
                                    context.at(method.span),
                                );
                                let (_, _, id) = s.function_identity(func_index);
                                let signature = s.method_signature(func_index);
                                let params = typing::rest_of_types(&signature.params);
                                let s = if arguments.len() != params.len() {
                                    s.report(
                                        reports::argument_count_mismatch(
                                            arguments.len(),
                                            params,
                                            context.at(receiver.span),
                                            true,
                                        ),
                                    )
                                } else {
                                    s
                                };
                                if type_args.is_empty() {
                                    let s = s.check_plain_method(
                                        context,
                                        spanned(receiver.ty, receiver.span),
                                        &signature.params,
                                        written,
                                    );
                                    let (s, ctx, built_arguments) = s.build_call_arguments(
                                        ctx,
                                        arguments,
                                        &params,
                                        pending,
                                    );
                                    (
                                        s,
                                        ctx,
                                        Some(
                                            typed(
                                                ExprKind::MethodCall {
                                                    id,
                                                    arguments: cons(receiver, built_arguments),
                                                },
                                                signature.result,
                                                expr.span,
                                            ),
                                        ),
                                    )
                                } else {
                                    let (own, inherited) = s.own_type_params(func_index);
                                    let s = s.check_type_arg_count(
                                        own,
                                        written.len(),
                                        context.at(expr.span),
                                    );
                                    let (s, type_args) = s.fill_type_args(
                                        context,
                                        ctx.scope,
                                        written,
                                        type_args,
                                        inherited,
                                        pending,
                                    );
                                    let type_args = s.infer_from_expected(
                                        type_args,
                                        signature.result,
                                        access.expected_type,
                                    );
                                    let (s, ctx, found) = s.build_generic_arguments(
                                        ctx,
                                        arguments,
                                        &params,
                                        type_args,
                                        pending,
                                    );
                                    match found {
                                        Some((built_arguments, type_args)) => {
                                            let (s, ctx, (type_args, built_arguments)) = s.build_generic_call_arguments(
                                                ctx,
                                                func_index,
                                                cons(receiver, built_arguments),
                                                type_args,
                                                access.expected_type,
                                                expr.span,
                                            );
                                            let (s, ty) = s.substituted(
                                                signature.result,
                                                type_args,
                                                MAX_DEPTH,
                                            );
                                            (
                                                s,
                                                ctx,
                                                Some(
                                                    typed(
                                                        ExprKind::GenericMethodCall {
                                                            id,
                                                            type_args,
                                                            arguments: built_arguments,
                                                        },
                                                        ty,
                                                        expr.span,
                                                    ),
                                                ),
                                            )
                                        },
                                        None => (s, ctx, None),
                                    }
                                }
                            },
                        }
                    },
                    None => (s, ctx, None),
                }
            },
            _ => (self, ctx, None),
        }
    }

    /// The parameters and the result of a function, by its index.
    pub open spec fn method_signature(self, func_index: usize) -> FunctionSignature {
        let index = match state::seq_ref(self.functions, func_index) {
            Some(function) => function.signature_index,
            None => ty::ERROR,
        };
        match self.ty(index) {
            Type::Function { signature } => signature,
            _ => FunctionSignature { params: List::Nil, result: ty::ERROR },
        }
    }

    /// Checks a call of a method that is not generic: type arguments and a
    /// receiver of another type are reported.
    #[verifier::opaque]
    pub open spec fn check_plain_method(
        self,
        context: ResolveContext,
        receiver: Spanned<TypeIndex>,
        params: &List<TypeIndex>,
        written: &List<Spanned<TypeExpression>>,
    ) -> State<'ast> {
        let s = match written {
            List::Cons(first, _) => {
                self.report(
                    report_no_generic_arguments(
                        written.len(),
                        context.at(
                            resolve::span_between(
                                first.span,
                                span_of_last_type(written, first.span),
                            ),
                        ),
                    ),
                )
            },
            List::Nil => self,
        };
        match typing::first_of_types(params) {
            Some(self_ty) => {
                let (s, _fits) = s.check_coercible(
                    receiver.inner,
                    self_ty,
                    context.at(receiver.span),
                );
                s
            },
            None => s,
        }
    }
}

impl<'ast> Builder<'ast> {
    /// A call. The callee is a function; a generic one has its type arguments
    /// inferred from the arguments and the expected type.
    pub fn build_call_expression(
        &mut self,
        ctx: &mut ExprContext,
        access: AccessContext,
        expr: &Spanned<ast::Expression>,
        depth: usize,
    ) -> (result: Option<Expression>)
        ensures
            (final(self)@, *final(ctx), result) == old(self)@.build_call_expression(
                *old(ctx),
                access,
                expr,
                signatures::resolver(depth),
            ),
        decreases depth, 8int, expr, 4int,
    {
        match &expr.inner {
            ast::Expression::Call { callee, arguments } => {
                let context: ResolveContext = ctx.resolve_context;
                let built = self.build_expression(ctx, reading(ty::INFER), callee, depth);
                let function = or_poisoned(built, callee.span);
                match self.callee_signature(function.ty) {
                    None => {
                        let built_arguments = self.build_unchecked_arguments(
                            ctx,
                            arguments,
                            depth,
                        );
                        self.report_invalid_callee(
                            function.ty,
                            is_block_like(&callee.inner),
                            context.at(callee.span),
                        );
                        Some(
                            typed(
                                ExprKind::Call {
                                    callee: Box::new(function),
                                    arguments: built_arguments,
                                },
                                ty::ERROR,
                                expr.span,
                            ),
                        )
                    },
                    Some(signature) => {
                        if arguments.len() != signature.params.len() {
                            self.report(
                                report_argument_count_mismatch(
                                    arguments.len(),
                                    &signature.params,
                                    context.at(function.span),
                                    false,
                                ),
                            );
                        }
                        match self.generic_callee(&function) {
                            Some((func_index, id, type_args)) => {
                                let type_args = self.infer_from_expected(
                                    type_args,
                                    self.function_result_type(func_index),
                                    access.expected_type,
                                );
                                let params = self.function_param_types(func_index);
                                let (built_arguments, type_args) = self.build_generic_arguments(
                                    ctx,
                                    arguments,
                                    &params,
                                    type_args,
                                    depth,
                                )?;
                                let (type_args, built_arguments) = self.build_generic_call_arguments(
                                    ctx,
                                    func_index,
                                    built_arguments,
                                    type_args,
                                    access.expected_type,
                                    expr.span,
                                );
                                let ty: TypeIndex = self.substitute_type(
                                    signature.result,
                                    &type_args,
                                    MAX_DEPTH,
                                );
                                Some(
                                    typed(
                                        ExprKind::GenericCall {
                                            id,
                                            type_args,
                                            arguments: built_arguments,
                                        },
                                        ty,
                                        expr.span,
                                    ),
                                )
                            },
                            None => {
                                let built_arguments = self.build_call_arguments(
                                    ctx,
                                    arguments,
                                    &signature.params,
                                    depth,
                                );
                                Some(
                                    typed(
                                        ExprKind::Call {
                                            callee: Box::new(function),
                                            arguments: built_arguments,
                                        },
                                        signature.result,
                                        expr.span,
                                    ),
                                )
                            },
                        }
                    },
                }
            },
            _ => None,
        }
    }

    /// The arguments of a call whose parameters are not known, so that what is
    /// wrong inside them is reported all the same.
    pub fn build_unchecked_arguments(
        &mut self,
        ctx: &mut ExprContext,
        arguments: &List<Spanned<ast::Expression>>,
        depth: usize,
    ) -> (result: List<Expression>)
        ensures
            (final(self)@, *final(ctx), result) == old(self)@.build_unchecked_arguments(
                *old(ctx),
                arguments,
                signatures::resolver(depth),
            ),
        decreases depth, 8int, arguments, 0int,
    {
        match arguments {
            List::Nil => List::Nil,
            List::Cons(argument, rest) => {
                let built = self.build_expression(ctx, reading(ty::ERROR), argument, depth);
                let others = self.build_unchecked_arguments(ctx, rest, depth);
                cons(or_poisoned(built, argument.span), others)
            },
        }
    }

    /// The arguments of a call, each checked against its parameter's type.
    pub fn build_call_arguments(
        &mut self,
        ctx: &mut ExprContext,
        arguments: &List<Spanned<ast::Expression>>,
        params: &List<TypeIndex>,
        depth: usize,
    ) -> (result: List<Expression>)
        ensures
            (final(self)@, *final(ctx), result) == old(self)@.build_call_arguments(
                *old(ctx),
                arguments,
                params,
                signatures::resolver(depth),
            ),
        decreases depth, 8int, arguments, 0int,
    {
        match arguments {
            List::Nil => List::Nil,
            List::Cons(argument, rest) => {
                let expected: TypeIndex = self.param_expectation(first_param(params));
                let built = self.build_expression(ctx, reading(expected), argument, depth);
                match built {
                    Some(built) => {
                        let built = self.settle_argument(ctx, built, expected);
                        let others = self.build_call_arguments(
                            ctx,
                            rest,
                            &other_params(params),
                            depth,
                        );
                        cons(built, others)
                    },
                    None => {
                        let others = self.build_call_arguments(
                            ctx,
                            rest,
                            &other_params(params),
                            depth,
                        );
                        cons(poisoned(argument.span), others)
                    },
                }
            },
        }
    }

    /// The type that is expected of an argument for a parameter of a function
    /// that is not generic.
    pub fn param_expectation(&mut self, param: Option<TypeIndex>) -> (result: TypeIndex)
        ensures
            (final(self)@, result) == old(self)@.param_expectation(param),
    {
        match param {
            Some(param) => self.substitute_expected_type(param, &List::Nil),
            None => ty::INFER,
        }
    }

    /// The arguments of a generic call, up to the first that fails, and the type
    /// arguments as far as they tell them. Each argument is built with what the
    /// ones before it told.
    pub fn build_generic_arguments(
        &mut self,
        ctx: &mut ExprContext,
        arguments: &List<Spanned<ast::Expression>>,
        params: &List<TypeIndex>,
        type_args: List<TypeIndex>,
        depth: usize,
    ) -> (result: Option<(List<Expression>, List<TypeIndex>)>)
        ensures
            (final(self)@, *final(ctx), result) == old(self)@.build_generic_arguments(
                *old(ctx),
                arguments,
                params,
                type_args,
                signatures::resolver(depth),
            ),
        decreases depth, 8int, arguments, 0int,
    {
        match arguments {
            List::Nil => Some((List::Nil, type_args)),
            List::Cons(argument, rest) => {
                let param = first_param(params);
                let expected: TypeIndex = self.argument_expectation(param, &type_args);
                let built = self.build_expression(ctx, reading(expected), argument, depth)?;
                let type_args = self.infer_from_argument(type_args, param, built.ty);
                let (others, type_args) = self.build_generic_arguments(
                    ctx,
                    rest,
                    &other_params(params),
                    type_args,
                    depth,
                )?;
                Some((cons(built, others), type_args))
            },
        }
    }

    /// A call of a method on an object.
    pub fn build_method_call_expression(
        &mut self,
        ctx: &mut ExprContext,
        access: AccessContext,
        expr: &Spanned<ast::Expression>,
        depth: usize,
    ) -> (result: Option<Expression>)
        ensures
            (final(self)@, *final(ctx), result) == old(self)@.build_method_call_expression(
                *old(ctx),
                access,
                expr,
                signatures::resolver(depth),
            ),
        decreases depth, 8int, expr, 4int,
    {
        match &expr.inner {
            ast::Expression::MethodCall { object, method, type_args: written, arguments } => {
                let context: ResolveContext = ctx.resolve_context;
                let receiver = self.build_expression(ctx, reading(ty::INFER), object, depth)?;
                let resolved = self.resolve_method_call(
                    context,
                    spanned(receiver.ty, receiver.span),
                    *method,
                );
                match resolved {
                    None => {
                        let _unused = self.build_unchecked_arguments(ctx, arguments, depth);
                        None
                    },
                    Some((func_index, type_args)) => {
                        self.access(AccessTarget::Function(func_index), context.at(method.span));
                        let (_, _, id) = self.function_identity(func_index);
                        let signature = self.method_signature(func_index);
                        let params = other_params(&signature.params);
                        if arguments.len() != params.len() {
                            self.report(
                                report_argument_count_mismatch(
                                    arguments.len(),
                                    &params,
                                    context.at(receiver.span),
                                    true,
                                ),
                            );
                        }
                        if type_args.is_empty() {
                            self.check_plain_method(
                                context,
                                spanned(receiver.ty, receiver.span),
                                &signature.params,
                                written,
                            );
                            let built_arguments = self.build_call_arguments(
                                ctx,
                                arguments,
                                &params,
                                depth,
                            );
                            return Some(
                                typed(
                                    ExprKind::MethodCall {
                                        id,
                                        arguments: cons(receiver, built_arguments),
                                    },
                                    signature.result,
                                    expr.span,
                                ),
                            );
                        }
                        let (own, inherited) = self.own_type_params(func_index);
                        self.check_type_arg_count(own, written.len(), context.at(expr.span));
                        let type_args = self.fill_type_args(
                            context,
                            ctx.scope,
                            written,
                            type_args,
                            inherited,
                            depth,
                        );
                        let type_args = self.infer_from_expected(
                            type_args,
                            signature.result,
                            access.expected_type,
                        );
                        let (built_arguments, type_args) = self.build_generic_arguments(
                            ctx,
                            arguments,
                            &params,
                            type_args,
                            depth,
                        )?;
                        let (type_args, built_arguments) = self.build_generic_call_arguments(
                            ctx,
                            func_index,
                            cons(receiver, built_arguments),
                            type_args,
                            access.expected_type,
                            expr.span,
                        );
                        let ty: TypeIndex = self.substitute_type(
                            signature.result,
                            &type_args,
                            MAX_DEPTH,
                        );
                        Some(
                            typed(
                                ExprKind::GenericMethodCall {
                                    id,
                                    type_args,
                                    arguments: built_arguments,
                                },
                                ty,
                                expr.span,
                            ),
                        )
                    },
                }
            },
            _ => None,
        }
    }

    /// The parameters and the result of a function, by its index.
    pub fn method_signature(&self, func_index: usize) -> (result: FunctionSignature)
        ensures
            result == self@.method_signature(func_index),
    {
        let index: TypeIndex = match vec_at(&self.functions, func_index) {
            Some(function) => function.signature_index,
            None => ty::ERROR,
        };
        match self.ty(index) {
            Type::Function { signature } => signature,
            _ => FunctionSignature { params: List::Nil, result: ty::ERROR },
        }
    }

    /// Checks a call of a method that is not generic: type arguments and a
    /// receiver of another type are reported.
    pub fn check_plain_method(
        &mut self,
        context: ResolveContext,
        receiver: Spanned<TypeIndex>,
        params: &List<TypeIndex>,
        written: &List<Spanned<TypeExpression>>,
    )
        ensures
            final(self)@ == old(self)@.check_plain_method(context, receiver, params, written),
    {
        proof {
            reveal(State::check_plain_method);
        }
        match written {
            List::Cons(first, _) => {
                self.report(
                    report_no_generic_arguments(
                        written.len(),
                        context.at(join_spans(first.span, last_type_span(written, first.span))),
                    ),
                );
            },
            List::Nil => {},
        }
        match first_param(params) {
            Some(self_ty) => {
                let _fits = self.check_coercible(
                    receiver.inner,
                    self_ty,
                    context.at(receiver.span),
                );
            },
            None => {},
        }
    }
}

} // verus!
