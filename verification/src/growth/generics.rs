//! What `generics` does to the state only adds to it.

use vstd::prelude::*;

use crate::generics;
use crate::list::List;
use crate::relate::MAX_DEPTH;
use crate::reports::{
    report_assoc_trait_violation, report_cannot_infer_type_param, report_trait_bound_violation,
    report_type_annotation_required, report_type_mistmatch,
};
use crate::scope::{next_index, ExprContext};
use crate::span::{DefId, SourceSpan, Symbol, TextSpan};
use crate::state::State;
use crate::tir::{AssocBinding, AssocBindingKind, Bounds, Expression, TraitBound};
use crate::ty;
use crate::types::TypeIndex;

verus! {

impl<'ast> State<'ast> {
    pub broadcast proof fn adds_concrete_assoc_type_value(
        self,
        index: TypeIndex,
        trait_index: usize,
        assoc_name: Symbol,
    )
        ensures
            self.only_adds(
                (#[trigger] self.concrete_assoc_type_value(index, trait_index, assoc_name)).0,
            ),
    {
        broadcast use crate::growth::group_adding;

        self.adds_nothing();
        reveal(State::concrete_assoc_type_value);
    }

    pub broadcast proof fn adds_report_open_type_params(
        self,
        id: DefId,
        type_args: &List<TypeIndex>,
        index: usize,
        span: SourceSpan,
    )
        ensures
            self.only_adds(#[trigger] self.report_open_type_params(id, type_args, index, span)),
        decreases type_args,
    {
        broadcast use crate::growth::group_adding;

        self.adds_nothing();
        match type_args {
            List::Nil => {},
            List::Cons(slot, rest) => {
                let s = if **slot == ty::INFER {
                    self.report(
                        report_cannot_infer_type_param(
                            self.function_type_param_name(id, index),
                            span,
                        ),
                    )
                } else {
                    self
                };
                s.adds_report_open_type_params(id, rest, next_index(index), span);
            },
        }
    }

    pub broadcast proof fn adds_fit_generic_argument(
        self,
        ctx: ExprContext,
        param: TypeIndex,
        type_args: &List<TypeIndex>,
        argument: Expression,
    )
        ensures
            self.only_adds(
                (#[trigger] self.fit_generic_argument(ctx, param, type_args, argument)).0,
            ),
    {
        broadcast use crate::growth::group_adding;

        self.adds_nothing();
        reveal(State::fit_generic_argument);
        let (s, expected) = self.expected(param, *type_args);
        let span = ctx.resolve_context.at(argument.span);
        if s.has_infer(expected) {
            if !s.satisfies(argument.ty, expected) {
                let s = s.report(report_type_mistmatch(expected, argument.ty, span));
            } else {
                if ty::is_comptime_number(argument.ty) {
                    let s = s.report(report_type_annotation_required(span));
                }
            }
        } else {
            if ty::is_comptime_number(argument.ty) {
                s.adds_coerce_untyped_expr(ctx, argument, expected);
                let (s, ctx, (argument, fits)) = s.coerce_untyped_expr(ctx, argument, expected);
            }
        }
    }

    pub broadcast proof fn adds_fit_generic_arguments(
        self,
        ctx: ExprContext,
        params: &List<TypeIndex>,
        type_args: &List<TypeIndex>,
        arguments: List<Expression>,
    )
        ensures
            self.only_adds(
                (#[trigger] self.fit_generic_arguments(ctx, params, type_args, arguments)).0,
            ),
        decreases params,
    {
        broadcast use crate::growth::group_adding;

        self.adds_nothing();
        match params {
            List::Nil => {},
            List::Cons(param, params_rest) => {
                match arguments {
                    List::Nil => {},
                    List::Cons(argument, arguments_rest) => {
                        self.adds_fit_generic_argument(ctx, **param, type_args, *argument);
                        let (s, ctx, (first, first_fits)) = self.fit_generic_argument(
                            ctx,
                            **param,
                            type_args,
                            *argument,
                        );
                        s.adds_fit_generic_arguments(
                            ctx,
                            params_rest,
                            type_args,
                            *arguments_rest,
                        );
                    },
                }
            },
        }
    }

    pub broadcast proof fn adds_check_trait_bounds(
        self,
        func_index: usize,
        traits: &List<TraitBound>,
        argument: TypeIndex,
        at: SourceSpan,
    )
        ensures
            self.only_adds(#[trigger] self.check_trait_bounds(func_index, traits, argument, at)),
        decreases traits,
    {
        broadcast use crate::growth::group_adding;

        self.adds_nothing();
        match traits {
            List::Nil => {},
            List::Cons(bound, rest) => {
                let s = if !self.type_implements_trait(argument, bound.trait_index) {
                    let (function_name, function_file, _) = self.function_identity(func_index);
                    self.report(
                        report_trait_bound_violation(
                            argument,
                            self.trait_name(bound.trait_index),
                            at,
                            SourceSpan::new(function_file, bound.span),
                            function_name,
                        ),
                    )
                } else {
                    self
                };
                s.adds_check_trait_bounds(func_index, rest, argument, at);
            },
        }
    }

    pub broadcast proof fn adds_check_typeset_bound(
        self,
        typeset: Option<usize>,
        param_name: Symbol,
        argument: TypeIndex,
        at: SourceSpan,
    )
        ensures
            self.only_adds(
                #[trigger] self.check_typeset_bound(typeset, param_name, argument, at),
            ),
    {
        broadcast use crate::growth::group_adding;

        self.adds_nothing();
        reveal(State::check_typeset_bound);
    }

    pub broadcast proof fn adds_check_type_arg_bounds(
        self,
        func_index: usize,
        type_args: &List<TypeIndex>,
        index: usize,
        params: &List<TypeIndex>,
        arguments: &List<Expression>,
        call: SourceSpan,
    )
        ensures
            self.only_adds(
                #[trigger] self.check_type_arg_bounds(
                    func_index,
                    type_args,
                    index,
                    params,
                    arguments,
                    call,
                ),
            ),
        decreases type_args,
    {
        broadcast use crate::growth::group_adding;

        self.adds_nothing();
        match type_args {
            List::Nil => {},
            List::Cons(argument, rest) => {
                let s = if **argument != ty::ERROR {
                    let (_, _, id) = self.function_identity(func_index);
                    let (bounds, name) = self.function_type_param_bounds(id, index);
                    let span = self.argument_span_for(params, arguments, index, call.span);
                    self.adds_check_trait_bounds(
                        func_index,
                        &bounds.traits,
                        **argument,
                        SourceSpan::new(call.file_id, span),
                    );
                    let s = self.check_trait_bounds(
                        func_index,
                        &bounds.traits,
                        **argument,
                        SourceSpan::new(call.file_id, span),
                    );
                    s.adds_check_typeset_bound(bounds.typeset, name, **argument, call);
                    s.check_typeset_bound(bounds.typeset, name, **argument, call)
                } else {
                    self
                };
                s.adds_check_type_arg_bounds(
                    func_index,
                    rest,
                    next_index(index),
                    params,
                    arguments,
                    call,
                );
            },
        }
    }

    pub broadcast proof fn adds_check_assoc_traits(
        self,
        func_index: usize,
        required: &List<TraitBound>,
        concrete: TypeIndex,
        assoc_name: Symbol,
        bound_span: TextSpan,
        call: SourceSpan,
    )
        ensures
            self.only_adds(
                #[trigger] self.check_assoc_traits(
                    func_index,
                    required,
                    concrete,
                    assoc_name,
                    bound_span,
                    call,
                ),
            ),
        decreases required,
    {
        broadcast use crate::growth::group_adding;

        self.adds_nothing();
        match required {
            List::Nil => {},
            List::Cons(bound, rest) => {
                let s = if !self.type_implements_trait(concrete, bound.trait_index) {
                    let (function_name, function_file, _) = self.function_identity(func_index);
                    self.report(
                        report_assoc_trait_violation(
                            concrete,
                            self.trait_name(bound.trait_index),
                            assoc_name,
                            call,
                            SourceSpan::new(function_file, bound_span),
                            function_name,
                        ),
                    )
                } else {
                    self
                };
                s.adds_check_assoc_traits(
                    func_index,
                    rest,
                    concrete,
                    assoc_name,
                    bound_span,
                    call,
                );
            },
        }
    }

    pub broadcast proof fn adds_check_assoc_bounds(
        self,
        func_index: usize,
        required: &Bounds,
        concrete: TypeIndex,
        assoc_name: Symbol,
        bound_span: TextSpan,
        call: SourceSpan,
    )
        ensures
            self.only_adds(
                #[trigger] self.check_assoc_bounds(
                    func_index,
                    required,
                    concrete,
                    assoc_name,
                    bound_span,
                    call,
                ),
            ),
    {
        broadcast use crate::growth::group_adding;

        self.adds_nothing();
        reveal(State::check_assoc_bounds);
        self.adds_check_assoc_traits(
            func_index,
            &required.traits,
            concrete,
            assoc_name,
            bound_span,
            call,
        );
    }

    pub broadcast proof fn adds_check_bound_bindings(
        self,
        func_index: usize,
        bindings: &List<AssocBinding>,
        trait_index: usize,
        bound_span: TextSpan,
        argument: TypeIndex,
        call: SourceSpan,
    )
        ensures
            self.only_adds(
                #[trigger] self.check_bound_bindings(
                    func_index,
                    bindings,
                    trait_index,
                    bound_span,
                    argument,
                    call,
                ),
            ),
        decreases bindings,
    {
        broadcast use crate::growth::group_adding;

        self.adds_nothing();
        match bindings {
            List::Nil => {},
            List::Cons(binding, rest) => {
                let s = match &binding.rhs {
                    AssocBindingKind::Bound(required) => {
                        self.adds_concrete_assoc_type_value(
                            argument,
                            trait_index,
                            binding.name.inner,
                        );
                        let (s, value) = self.concrete_assoc_type_value(
                            argument,
                            trait_index,
                            binding.name.inner,
                        );
                        match value {
                            Some(concrete) => {
                                s.adds_check_assoc_bounds(
                                    func_index,
                                    required,
                                    concrete,
                                    binding.name.inner,
                                    bound_span,
                                    call,
                                );
                                s.check_assoc_bounds(
                                    func_index,
                                    required,
                                    concrete,
                                    binding.name.inner,
                                    bound_span,
                                    call,
                                )
                            },
                            None => s,
                        }
                    },
                    AssocBindingKind::Equals(_) => self,
                };
                s.adds_check_bound_bindings(
                    func_index,
                    rest,
                    trait_index,
                    bound_span,
                    argument,
                    call,
                );
            },
        }
    }

    pub broadcast proof fn adds_check_where_clauses(
        self,
        func_index: usize,
        traits: &List<TraitBound>,
        argument: TypeIndex,
        call: SourceSpan,
    )
        ensures
            self.only_adds(
                #[trigger] self.check_where_clauses(func_index, traits, argument, call),
            ),
        decreases traits,
    {
        broadcast use crate::growth::group_adding;

        self.adds_nothing();
        match traits {
            List::Nil => {},
            List::Cons(bound, rest) => {
                let s = if self.type_implements_trait(argument, bound.trait_index) {
                    self.adds_check_bound_bindings(
                        func_index,
                        &bound.bindings,
                        bound.trait_index,
                        bound.span,
                        argument,
                        call,
                    );
                    self.check_bound_bindings(
                        func_index,
                        &bound.bindings,
                        bound.trait_index,
                        bound.span,
                        argument,
                        call,
                    )
                } else {
                    self
                };
                s.adds_check_where_clauses(func_index, rest, argument, call);
            },
        }
    }

    pub broadcast proof fn adds_check_type_arg_clauses(
        self,
        func_index: usize,
        type_args: &List<TypeIndex>,
        index: usize,
        call: SourceSpan,
    )
        ensures
            self.only_adds(
                #[trigger] self.check_type_arg_clauses(func_index, type_args, index, call),
            ),
        decreases type_args,
    {
        broadcast use crate::growth::group_adding;

        self.adds_nothing();
        match type_args {
            List::Nil => {},
            List::Cons(argument, rest) => {
                let s = if **argument != ty::ERROR {
                    let (_, _, id) = self.function_identity(func_index);
                    let (bounds, _) = self.function_type_param_bounds(id, index);
                    self.adds_check_where_clauses(func_index, &bounds.traits, **argument, call);
                    self.check_where_clauses(
                        func_index,
                        &bounds.traits,
                        **argument,
                        call,
                    )
                } else {
                    self
                };
                s.adds_check_type_arg_clauses(func_index, rest, next_index(index), call);
            },
        }
    }

    pub broadcast proof fn adds_check_typeset_bounds_on_type_args(
        self,
        func_index: usize,
        type_args: &List<TypeIndex>,
        index: usize,
        call: SourceSpan,
    )
        ensures
            self.only_adds(
                #[trigger] self.check_typeset_bounds_on_type_args(
                    func_index,
                    type_args,
                    index,
                    call,
                ),
            ),
        decreases type_args,
    {
        broadcast use crate::growth::group_adding;

        self.adds_nothing();
        match type_args {
            List::Nil => {},
            List::Cons(argument, rest) => {
                let s = if **argument != ty::ERROR {
                    let (_, _, id) = self.function_identity(func_index);
                    let (bounds, name) = self.function_type_param_bounds(id, index);
                    self.adds_check_typeset_bound(bounds.typeset, name, **argument, call);
                    self.check_typeset_bound(bounds.typeset, name, **argument, call)
                } else {
                    self
                };
                s.adds_check_typeset_bounds_on_type_args(
                    func_index,
                    rest,
                    next_index(index),
                    call,
                );
            },
        }
    }

    pub broadcast proof fn adds_build_generic_call_arguments(
        self,
        ctx: ExprContext,
        func_index: usize,
        arguments: List<Expression>,
        type_args: List<TypeIndex>,
        expected_result: TypeIndex,
        call_span: TextSpan,
    )
        ensures
            self.only_adds(
                (
                    #[trigger] self.build_generic_call_arguments(
                        ctx,
                        func_index,
                        arguments,
                        type_args,
                        expected_result,
                        call_span,
                    )
                ).0,
            ),
    {
        broadcast use crate::growth::group_adding;

        self.adds_nothing();
        reveal(State::build_generic_call_arguments);
        let call = ctx.resolve_context.at(call_span);
        let params = self.function_param_types(func_index);
        let result: TypeIndex = self.function_result_type(func_index);
        let (_, _, id) = self.function_identity(func_index);
        let seeded = if expected_result != ty::INFER {
            self.inferred(type_args, result, expected_result)
        } else {
            type_args
        };
        let fixed = self.infer_from_arguments(seeded, &params, &arguments);
        let (s, concrete_result) = self.substituted(result, fixed, MAX_DEPTH);
        if s.has_infer(concrete_result) {
            let s = if expected_result != ty::ERROR {
                s.adds_report_open_type_params(id, &fixed, 0, call);
                s.report_open_type_params(id, &fixed, 0, call)
            } else {
                s
            };
        } else {
            s.adds_fit_generic_arguments(ctx, &params, &fixed, arguments);
            let (s, ctx, (fitted, fits)) = s.fit_generic_arguments(
                ctx,
                &params,
                &fixed,
                arguments,
            );
            let s = if fits {
                s.adds_report_open_type_params(id, &fixed, 0, call);
                s.report_open_type_params(id, &fixed, 0, call)
            } else {
                s
            };
            let closed = generics::closed_types(&fixed);
            s.adds_check_type_arg_bounds(func_index, &closed, 0, &params, &fitted, call);
            let s = s.check_type_arg_bounds(func_index, &closed, 0, &params, &fitted, call);
            s.adds_check_type_arg_clauses(func_index, &closed, 0, call);
        }
    }
}

} // verus!
