//! What `generics` builds, it builds in the scope that it is in.

use vstd::prelude::*;

use crate::list::List;
use crate::relate::MAX_DEPTH;
use crate::reports::{report_type_annotation_required, report_type_mistmatch};
use crate::scope::ExprContext;
use crate::span::TextSpan;
use crate::state::State;
use crate::tir::Expression;
use crate::ty;
use crate::types::TypeIndex;

verus! {

impl<'ast> State<'ast> {
    pub broadcast proof fn keeps_fit_generic_argument(
        self,
        ctx: ExprContext,
        param: TypeIndex,
        type_args: &List<TypeIndex>,
        argument: Expression,
    )
        ensures
            ctx.stays_in_scope(
                (#[trigger] self.fit_generic_argument(ctx, param, type_args, argument)).1,
            ),
    {
        broadcast use crate::nesting::group_nesting;

        ctx.grows_into_itself();
        reveal(State::fit_generic_argument);
        let (s, expected) = self.expected(param, *type_args);
        let span = ctx.resolve_context.at(argument.span);
        if s.has_infer(expected) {
            if !s.satisfies(argument.ty, expected) {
                let s = s.report(report_type_mistmatch(expected, argument.ty, span));
            } else {
                if ty::is_comptime_number(argument.ty) {
                    let s = s.report(report_type_annotation_required(span));
                }
            }
        } else {
            if ty::is_comptime_number(argument.ty) {
                s.keeps_coerce_untyped_expr(ctx, argument, expected);
                let (s, ctx, (argument, fits)) = s.coerce_untyped_expr(ctx, argument, expected);
            }
        }
    }

    pub broadcast proof fn keeps_fit_generic_arguments(
        self,
        ctx: ExprContext,
        params: &List<TypeIndex>,
        type_args: &List<TypeIndex>,
        arguments: List<Expression>,
    )
        ensures
            ctx.stays_in_scope(
                (#[trigger] self.fit_generic_arguments(ctx, params, type_args, arguments)).1,
            ),
        decreases params,
    {
        broadcast use crate::nesting::group_nesting;

        ctx.grows_into_itself();
        match params {
            List::Nil => {},
            List::Cons(param, params_rest) => {
                match arguments {
                    List::Nil => {},
                    List::Cons(argument, arguments_rest) => {
                        self.keeps_fit_generic_argument(ctx, **param, type_args, *argument);
                        let (s, ctx, (first, first_fits)) = self.fit_generic_argument(
                            ctx,
                            **param,
                            type_args,
                            *argument,
                        );
                        s.keeps_fit_generic_arguments(
                            ctx,
                            params_rest,
                            type_args,
                            *arguments_rest,
                        );
                    },
                }
            },
        }
    }

    pub broadcast proof fn keeps_build_generic_call_arguments(
        self,
        ctx: ExprContext,
        func_index: usize,
        arguments: List<Expression>,
        type_args: List<TypeIndex>,
        expected_result: TypeIndex,
        call_span: TextSpan,
    )
        ensures
            ctx.stays_in_scope(
                (
                    #[trigger] self.build_generic_call_arguments(
                        ctx,
                        func_index,
                        arguments,
                        type_args,
                        expected_result,
                        call_span,
                    )
                ).1,
            ),
    {
        broadcast use crate::nesting::group_nesting;

        ctx.grows_into_itself();
        reveal(State::build_generic_call_arguments);
        let call = ctx.resolve_context.at(call_span);
        let params = self.function_param_types(func_index);
        let result: TypeIndex = self.function_result_type(func_index);
        let (_, _, id) = self.function_identity(func_index);
        let seeded = if expected_result != ty::INFER {
            self.inferred(type_args, result, expected_result)
        } else {
            type_args
        };
        let fixed = self.infer_from_arguments(seeded, &params, &arguments);
        let (s, concrete_result) = self.substituted(result, fixed, MAX_DEPTH);
        if s.has_infer(concrete_result) {
            let s = if expected_result != ty::ERROR {
                s.report_open_type_params(id, &fixed, 0, call)
            } else {
                s
            };
        } else {
            s.keeps_fit_generic_arguments(ctx, &params, &fixed, arguments);
        }
    }
}

} // verus!
