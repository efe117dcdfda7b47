//! The arguments of generic calls: which types the parameters stand for, and
//! whether those types meet the bounds.

use vstd::prelude::*;

use crate::list::{cons, List};
use crate::members;
use crate::members::is_bound_by;
use crate::relate;
use crate::relate::{result_type, types_of_params, MAX_DEPTH};
use crate::reports::{
    report_assoc_trait_violation, report_assoc_typeset_violation, report_cannot_infer_type_param,
    report_not_in_typeset, report_trait_bound_violation, report_type_annotation_required,
    report_type_mistmatch,
};
use crate::scope::{next_index, ExprContext};
use crate::span::{DefId, FileId, SourceSpan, Symbol, TextSpan};
use crate::state;
use crate::state::{vec_at, Builder, State};
use crate::tir::{AssocBinding, AssocBindingKind, Bounds, Expression, TraitBound};
use crate::ty;
use crate::types::{Type, TypeIndex, TypeParamOwner};

verus! {

/// The list with the poison type in the place of each type that is still to
/// be inferred.
pub open spec fn closed_types(types: &List<TypeIndex>) -> List<TypeIndex>
    decreases types,
{
    match types {
        List::Nil => List::Nil,
        List::Cons(head, rest) => cons(ty::infer_or(**head, ty::ERROR), closed_types(rest)),
    }
}

/// The list with the poison type in the place of each type that is still to
/// be inferred.
pub fn close_types(types: &List<TypeIndex>) -> (result: List<TypeIndex>)
    ensures
        result == closed_types(types),
    decreases types,
{
    match types {
        List::Nil => List::Nil,
        List::Cons(head, rest) => cons(ty::infer_or(**head, ty::ERROR), close_types(rest)),
    }
}

impl<'ast> State<'ast> {
    /// Whether a type implements a trait: a type parameter or an associated type
    /// by its bounds, any other type by an impl.
    pub open spec fn type_implements_trait(self, index: TypeIndex, trait_index: usize) -> bool {
        match self.ty(index) {
            Type::TypeParam { .. } => {
                let bounds = self.param_bounds(index);
                members::bound_by(&bounds.traits, trait_index)
            },
            Type::AssocTypeProjection { base: _, assoc_name, trait_index: declaring } => {
                match self.assoc_type_bounds(declaring, assoc_name) {
                    Some(bounds) => members::bound_by(&bounds.traits, trait_index),
                    None => false,
                }
            },
            _ => self.trait_impl_for(index, trait_index).is_some(),
        }
    }

    /// The type that the impl of a trait for a type gives an associated type.
    #[verifier::opaque]
    pub open spec fn concrete_assoc_type_value(
        self,
        index: TypeIndex,
        trait_index: usize,
        assoc_name: Symbol,
    ) -> (State<'ast>, Option<TypeIndex>) {
        match self.trait_impl_for(index, trait_index) {
            Some((impl_index, args)) => {
                match self.impl_assoc_type(impl_index, assoc_name) {
                    Some(value) => {
                        let (s, concrete) = self.substituted(value, args, MAX_DEPTH);
                        (s, Some(concrete))
                    },
                    None => (self, None),
                }
            },
            None => (self, None),
        }
    }

    /// The name of a typeset.
    pub open spec fn typeset_name(self, typeset_index: usize) -> Symbol {
        match state::seq_ref(self.typesets, typeset_index) {
            Some(typeset) => typeset.name.inner,
            None => 0,
        }
    }

    /// The types of a function's parameters.
    pub open spec fn function_param_types(self, func_index: usize) -> List<TypeIndex> {
        match state::seq_ref(self.functions, func_index) {
            Some(function) => relate::param_types(function.params),
            None => List::Nil,
        }
    }

    /// The type of a function's result.
    pub open spec fn function_result_type(self, func_index: usize) -> TypeIndex {
        match state::seq_ref(self.functions, func_index) {
            Some(function) => result_type(function.result),
            None => ty::ERROR,
        }
    }

    /// The name of a function, with the file and the definition it comes from.
    pub open spec fn function_identity(self, func_index: usize) -> (Symbol, FileId, DefId) {
        match state::seq_ref(self.functions, func_index) {
            Some(function) => (function.name.inner, function.file_id, function.id),
            None => (0, 0, 0),
        }
    }

    /// The name of the type parameter at a position of a function's whole list.
    pub open spec fn function_type_param_name(self, id: DefId, index: usize) -> Symbol {
        match self.type_param(TypeParamOwner::Function(id), index) {
            Some(info) => info.name.inner,
            None => 0,
        }
    }

    /// The arguments for type parameters that the types of a call's arguments
    /// fix.
    pub open spec fn infer_from_arguments(
        self,
        type_args: List<TypeIndex>,
        params: &List<TypeIndex>,
        arguments: &List<Expression>,
    ) -> List<TypeIndex>
        decreases params,
    {
        match (params, arguments) {
            (List::Cons(param, params_rest), List::Cons(argument, arguments_rest)) => {
                let fixed = self.inferred(type_args, **param, argument.ty);
                self.infer_from_arguments(fixed, params_rest, arguments_rest)
            },
            _ => type_args,
        }
    }

    /// Reports each type parameter that is still to be inferred.
    pub open spec fn report_open_type_params(
        self,
        id: DefId,
        type_args: &List<TypeIndex>,
        index: usize,
        span: SourceSpan,
    ) -> State<'ast>
        decreases type_args,
    {
        match type_args {
            List::Nil => self,
            List::Cons(slot, rest) => {
                let s = if **slot == ty::INFER {
                    self.report(
                        report_cannot_infer_type_param(
                            self.function_type_param_name(id, index),
                            span,
                        ),
                    )
                } else {
                    self
                };
                s.report_open_type_params(id, rest, next_index(index), span)
            },
        }
    }

    /// Makes an argument fit the type of its parameter. A number literal takes
    /// it. Where the parameter's type is still open in a part, only an argument
    /// that fits no filling of it is wrong. The second result is false where
    /// something was reported.
    #[verifier::opaque]
    pub open spec fn fit_generic_argument(
        self,
        ctx: ExprContext,
        param: TypeIndex,
        type_args: &List<TypeIndex>,
        argument: Expression,
    ) -> (State<'ast>, ExprContext, (Expression, bool)) {
        let (s, expected) = self.expected(param, *type_args);
        let span = ctx.resolve_context.at(argument.span);
        if s.has_infer(expected) {
            if !s.satisfies(argument.ty, expected) {
                let s = s.report(report_type_mistmatch(expected, argument.ty, span));
                (s, ctx, (argument, false))
            } else {
                if ty::is_comptime_number(argument.ty) {
                    let s = s.report(report_type_annotation_required(span));
                    (s, ctx, (argument, false))
                } else {
                    (s, ctx, (argument, true))
                }
            }
        } else {
            if ty::is_comptime_number(argument.ty) {
                let (s, ctx, (argument, fits)) = s.coerce_untyped_expr(ctx, argument, expected);
                (s, ctx, (argument, fits))
            } else {
                let (s, fits) = s.coercible(argument.ty, expected);
                let s = if !fits {
                    s.report(report_type_mistmatch(expected, argument.ty, span))
                } else {
                    s
                };
                (s, ctx, (argument, fits))
            }
        }
    }

    /// Makes each argument fit the type of its parameter; arguments beyond the
    /// last parameter stay as they are.
    pub open spec fn fit_generic_arguments(
        self,
        ctx: ExprContext,
        params: &List<TypeIndex>,
        type_args: &List<TypeIndex>,
        arguments: List<Expression>,
    ) -> (State<'ast>, ExprContext, (List<Expression>, bool))
        decreases params,
    {
        match params {
            List::Nil => (self, ctx, (arguments, true)),
            List::Cons(param, params_rest) => {
                match arguments {
                    List::Nil => (self, ctx, (List::Nil, true)),
                    List::Cons(argument, arguments_rest) => {
                        let (s, ctx, (first, first_fits)) = self.fit_generic_argument(
                            ctx,
                            **param,
                            type_args,
                            *argument,
                        );
                        let (s, ctx, (others, others_fit)) = s.fit_generic_arguments(
                            ctx,
                            params_rest,
                            type_args,
                            *arguments_rest,
                        );
                        (s, ctx, (cons(first, others), first_fits && others_fit))
                    },
                }
            },
        }
    }

    /// Where the argument stands whose parameter has exactly the type parameter
    /// at a position as its type; the whole call where there is none.
    pub open spec fn argument_span_for(
        self,
        params: &List<TypeIndex>,
        arguments: &List<Expression>,
        index: usize,
        call_span: TextSpan,
    ) -> TextSpan
        decreases params,
    {
        match (params, arguments) {
            (List::Cons(param, params_rest), List::Cons(argument, arguments_rest)) => {
                let meant = match self.ty(**param) {
                    Type::TypeParam { owner: _, param_index } => param_index == index,
                    _ => false,
                };
                if meant {
                    argument.span
                } else {
                    self.argument_span_for(params_rest, arguments_rest, index, call_span)
                }
            },
            _ => call_span,
        }
    }

    /// Reports each trait of a bound that a type argument does not implement.
    pub open spec fn check_trait_bounds(
        self,
        func_index: usize,
        traits: &List<TraitBound>,
        argument: TypeIndex,
        at: SourceSpan,
    ) -> State<'ast>
        decreases traits,
    {
        match traits {
            List::Nil => self,
            List::Cons(bound, rest) => {
                let s = if !self.type_implements_trait(argument, bound.trait_index) {
                    let (function_name, function_file, _) = self.function_identity(func_index);
                    self.report(
                        report_trait_bound_violation(
                            argument,
                            self.trait_name(bound.trait_index),
                            at,
                            SourceSpan::new(function_file, bound.span),
                            function_name,
                        ),
                    )
                } else {
                    self
                };
                s.check_trait_bounds(func_index, rest, argument, at)
            },
        }
    }

    /// Reports a type argument that is no member of the typeset its parameter is
    /// bound to.
    #[verifier::opaque]
    pub open spec fn check_typeset_bound(
        self,
        typeset: Option<usize>,
        param_name: Symbol,
        argument: TypeIndex,
        at: SourceSpan,
    ) -> State<'ast> {
        match typeset {
            Some(typeset_index) => {
                if !self.in_typeset(argument, typeset_index) {
                    self.report(
                        report_not_in_typeset(
                            argument,
                            self.typeset_name(typeset_index),
                            param_name,
                            at,
                        ),
                    )
                } else {
                    self
                }
            },
            None => self,
        }
    }

    /// Checks each type argument against the bounds of its parameter. A poisoned
    /// argument meets every bound.
    pub open spec fn check_type_arg_bounds(
        self,
        func_index: usize,
        type_args: &List<TypeIndex>,
        index: usize,
        params: &List<TypeIndex>,
        arguments: &List<Expression>,
        call: SourceSpan,
    ) -> State<'ast>
        decreases type_args,
    {
        match type_args {
            List::Nil => self,
            List::Cons(argument, rest) => {
                let s = if **argument != ty::ERROR {
                    let (_, _, id) = self.function_identity(func_index);
                    let (bounds, name) = self.function_type_param_bounds(id, index);
                    let span = self.argument_span_for(params, arguments, index, call.span);
                    let s = self.check_trait_bounds(
                        func_index,
                        &bounds.traits,
                        **argument,
                        SourceSpan::new(call.file_id, span),
                    );
                    s.check_typeset_bound(bounds.typeset, name, **argument, call)
                } else {
                    self
                };
                s.check_type_arg_bounds(
                    func_index,
                    rest,
                    next_index(index),
                    params,
                    arguments,
                    call,
                )
            },
        }
    }

    /// The bounds and the name of the type parameter at a position of a
    /// function's whole list.
    pub open spec fn function_type_param_bounds(self, id: DefId, index: usize) -> (Bounds, Symbol) {
        match self.type_param(TypeParamOwner::Function(id), index) {
            Some(info) => (info.bounds, info.name.inner),
            None => (Bounds::none(), 0),
        }
    }

    /// Reports each trait that the value of an associated type does not
    /// implement, though a `where` clause demands it.
    pub open spec fn check_assoc_traits(
        self,
        func_index: usize,
        required: &List<TraitBound>,
        concrete: TypeIndex,
        assoc_name: Symbol,
        bound_span: TextSpan,
        call: SourceSpan,
    ) -> State<'ast>
        decreases required,
    {
        match required {
            List::Nil => self,
            List::Cons(bound, rest) => {
                let s = if !self.type_implements_trait(concrete, bound.trait_index) {
                    let (function_name, function_file, _) = self.function_identity(func_index);
                    self.report(
                        report_assoc_trait_violation(
                            concrete,
                            self.trait_name(bound.trait_index),
                            assoc_name,
                            call,
                            SourceSpan::new(function_file, bound_span),
                            function_name,
                        ),
                    )
                } else {
                    self
                };
                s.check_assoc_traits(
                    func_index,
                    rest,
                    concrete,
                    assoc_name,
                    bound_span,
                    call,
                )
            },
        }
    }

    /// Checks the value of an associated type against what a `where` clause
    /// demands of it.
    #[verifier::opaque]
    pub open spec fn check_assoc_bounds(
        self,
        func_index: usize,
        required: &Bounds,
        concrete: TypeIndex,
        assoc_name: Symbol,
        bound_span: TextSpan,
        call: SourceSpan,
    ) -> State<'ast> {
        let s = self.check_assoc_traits(
            func_index,
            &required.traits,
            concrete,
            assoc_name,
            bound_span,
            call,
        );
        match required.typeset {
            Some(typeset_index) => {
                if !s.in_typeset(concrete, typeset_index) {
                    let (function_name, function_file, _) = s.function_identity(func_index);
                    s.report(
                        report_assoc_typeset_violation(
                            concrete,
                            s.typeset_name(typeset_index),
                            assoc_name,
                            call,
                            SourceSpan::new(function_file, bound_span),
                            function_name,
                        ),
                    )
                } else {
                    s
                }
            },
            None => s,
        }
    }

    /// Checks the associated types of a type argument against the `where`
    /// clauses of a bound.
    pub open spec fn check_bound_bindings(
        self,
        func_index: usize,
        bindings: &List<AssocBinding>,
        trait_index: usize,
        bound_span: TextSpan,
        argument: TypeIndex,
        call: SourceSpan,
    ) -> State<'ast>
        decreases bindings,
    {
        match bindings {
            List::Nil => self,
            List::Cons(binding, rest) => {
                let s = match &binding.rhs {
                    AssocBindingKind::Bound(required) => {
                        let (s, value) = self.concrete_assoc_type_value(
                            argument,
                            trait_index,
                            binding.name.inner,
                        );
                        match value {
                            Some(concrete) => {
                                s.check_assoc_bounds(
                                    func_index,
                                    required,
                                    concrete,
                                    binding.name.inner,
                                    bound_span,
                                    call,
                                )
                            },
                            None => s,
                        }
                    },
                    AssocBindingKind::Equals(_) => self,
                };
                s.check_bound_bindings(
                    func_index,
                    rest,
                    trait_index,
                    bound_span,
                    argument,
                    call,
                )
            },
        }
    }

    /// Checks the associated types of a type argument against the `where`
    /// clauses of those bounds that it meets.
    pub open spec fn check_where_clauses(
        self,
        func_index: usize,
        traits: &List<TraitBound>,
        argument: TypeIndex,
        call: SourceSpan,
    ) -> State<'ast>
        decreases traits,
    {
        match traits {
            List::Nil => self,
            List::Cons(bound, rest) => {
                let s = if self.type_implements_trait(argument, bound.trait_index) {
                    self.check_bound_bindings(
                        func_index,
                        &bound.bindings,
                        bound.trait_index,
                        bound.span,
                        argument,
                        call,
                    )
                } else {
                    self
                };
                s.check_where_clauses(func_index, rest, argument, call)
            },
        }
    }

    /// Checks the associated types of each type argument against the `where`
    /// clauses on its parameter.
    pub open spec fn check_type_arg_clauses(
        self,
        func_index: usize,
        type_args: &List<TypeIndex>,
        index: usize,
        call: SourceSpan,
    ) -> State<'ast>
        decreases type_args,
    {
        match type_args {
            List::Nil => self,
            List::Cons(argument, rest) => {
                let s = if **argument != ty::ERROR {
                    let (_, _, id) = self.function_identity(func_index);
                    let (bounds, _) = self.function_type_param_bounds(id, index);
                    self.check_where_clauses(
                        func_index,
                        &bounds.traits,
                        **argument,
                        call,
                    )
                } else {
                    self
                };
                s.check_type_arg_clauses(func_index, rest, next_index(index), call)
            },
        }
    }

    /// Checks the typeset bound of each type parameter of a function against the
    /// argument for it.
    pub open spec fn check_typeset_bounds_on_type_args(
        self,
        func_index: usize,
        type_args: &List<TypeIndex>,
        index: usize,
        call: SourceSpan,
    ) -> State<'ast>
        decreases type_args,
    {
        match type_args {
            List::Nil => self,
            List::Cons(argument, rest) => {
                let s = if **argument != ty::ERROR {
                    let (_, _, id) = self.function_identity(func_index);
                    let (bounds, name) = self.function_type_param_bounds(id, index);
                    self.check_typeset_bound(bounds.typeset, name, **argument, call)
                } else {
                    self
                };
                s.check_typeset_bounds_on_type_args(
                    func_index,
                    rest,
                    next_index(index),
                    call,
                )
            },
        }
    }

    /// Settles a generic call: the types that its type parameters stand for, and
    /// the arguments made to fit them. Types come from the expected result first,
    /// from the arguments after that. Whatever is wrong is reported, and the call
    /// still gets a type for each parameter, the poison type where none is known.
    #[verifier::opaque]
    pub open spec fn build_generic_call_arguments(
        self,
        ctx: ExprContext,
        func_index: usize,
        arguments: List<Expression>,
        type_args: List<TypeIndex>,
        expected_result: TypeIndex,
        call_span: TextSpan,
    ) -> (State<'ast>, ExprContext, (List<TypeIndex>, List<Expression>)) {
        let call = ctx.resolve_context.at(call_span);
        let params = self.function_param_types(func_index);
        let result: TypeIndex = self.function_result_type(func_index);
        let (_, _, id) = self.function_identity(func_index);
        let seeded = if expected_result != ty::INFER {
            self.inferred(type_args, result, expected_result)
        } else {
            type_args
        };
        let fixed = self.infer_from_arguments(seeded, &params, &arguments);
        let (s, concrete_result) = self.substituted(result, fixed, MAX_DEPTH);
        if s.has_infer(concrete_result) {
            let s = if expected_result != ty::ERROR {
                s.report_open_type_params(id, &fixed, 0, call)
            } else {
                s
            };
            (s, ctx, (closed_types(&fixed), arguments))
        } else {
            let (s, ctx, (fitted, fits)) = s.fit_generic_arguments(
                ctx,
                &params,
                &fixed,
                arguments,
            );
            let s = if fits {
                s.report_open_type_params(id, &fixed, 0, call)
            } else {
                s
            };
            let closed = closed_types(&fixed);
            let s = s.check_type_arg_bounds(func_index, &closed, 0, &params, &fitted, call);
            let s = s.check_type_arg_clauses(func_index, &closed, 0, call);
            (s, ctx, (closed, fitted))
        }
    }
}

impl<'ast> Builder<'ast> {
    /// Whether a type implements a trait: a type parameter or an associated type
    /// by its bounds, any other type by an impl.
    pub fn type_implements_trait(&self, index: TypeIndex, trait_index: usize) -> (result: bool)
        ensures
            result == self@.type_implements_trait(index, trait_index),
    {
        match self.ty(index) {
            Type::TypeParam { .. } => {
                let bounds = self.type_param_bounds(index);
                is_bound_by(&bounds.traits, trait_index)
            },
            Type::AssocTypeProjection { base: _, assoc_name, trait_index: declaring } => {
                match self.trait_assoc_type_bounds(declaring, assoc_name) {
                    Some(bounds) => is_bound_by(&bounds.traits, trait_index),
                    None => false,
                }
            },
            _ => self.find_trait_impl(index, trait_index).is_some(),
        }
    }

    /// The type that the impl of a trait for a type gives an associated type.
    pub fn concrete_assoc_type_value(
        &mut self,
        index: TypeIndex,
        trait_index: usize,
        assoc_name: Symbol,
    ) -> (result: Option<TypeIndex>)
        ensures
            (final(self)@, result) == old(self)@.concrete_assoc_type_value(
                index,
                trait_index,
                assoc_name,
            ),
    {
        proof {
            reveal(State::concrete_assoc_type_value);
        }
        let (impl_index, args) = self.find_trait_impl(index, trait_index)?;
        let value: TypeIndex = self.assoc_type_of_impl(impl_index, assoc_name)?;
        let concrete: TypeIndex = self.substitute_type(value, &args, MAX_DEPTH);
        Some(concrete)
    }

    /// The name of a typeset.
    pub fn typeset_name(&self, typeset_index: usize) -> (result: Symbol)
        ensures
            result == self@.typeset_name(typeset_index),
    {
        match vec_at(&self.typesets, typeset_index) {
            Some(typeset) => typeset.name.inner,
            None => 0,
        }
    }

    /// The types of a function's parameters.
    pub fn function_param_types(&self, func_index: usize) -> (result: List<TypeIndex>)
        ensures
            result == self@.function_param_types(func_index),
    {
        match vec_at(&self.functions, func_index) {
            Some(function) => types_of_params(&function.params),
            None => List::Nil,
        }
    }

    /// The type of a function's result.
    pub fn function_result_type(&self, func_index: usize) -> (result: TypeIndex)
        ensures
            result == self@.function_result_type(func_index),
    {
        match vec_at(&self.functions, func_index) {
            Some(function) => result_type(function.result),
            None => ty::ERROR,
        }
    }

    /// The name of a function, with the file and the definition it comes from.
    pub fn function_identity(&self, func_index: usize) -> (result: (Symbol, FileId, DefId))
        ensures
            result == self@.function_identity(func_index),
    {
        match vec_at(&self.functions, func_index) {
            Some(function) => (function.name.inner, function.file_id, function.id),
            None => (0, 0, 0),
        }
    }

    /// The name of the type parameter at a position of a function's whole list.
    pub fn function_type_param_name(&self, id: DefId, index: usize) -> (result: Symbol)
        ensures
            result == self@.function_type_param_name(id, index),
    {
        match self.type_param_info(TypeParamOwner::Function(id), index) {
            Some(info) => info.name.inner,
            None => 0,
        }
    }

    /// The arguments for type parameters that the types of a call's arguments
    /// fix.
    pub fn infer_from_arguments(
        &self,
        type_args: List<TypeIndex>,
        params: &List<TypeIndex>,
        arguments: &List<Expression>,
    ) -> (result: List<TypeIndex>)
        ensures
            result == self@.infer_from_arguments(type_args, params, arguments),
        decreases params,
    {
        match (params, arguments) {
            (List::Cons(param, params_rest), List::Cons(argument, arguments_rest)) => {
                let fixed = self.infer_type_args(type_args, **param, argument.ty);
                self.infer_from_arguments(fixed, params_rest, arguments_rest)
            },
            _ => type_args,
        }
    }

    /// Reports each type parameter that is still to be inferred.
    pub fn report_open_type_params(
        &mut self,
        id: DefId,
        type_args: &List<TypeIndex>,
        index: usize,
        span: SourceSpan,
    )
        ensures
            final(self)@ == old(self)@.report_open_type_params(id, type_args, index, span),
        decreases type_args,
    {
        match type_args {
            List::Nil => {},
            List::Cons(slot, rest) => {
                if **slot == ty::INFER {
                    self.report(
                        report_cannot_infer_type_param(
                            self.function_type_param_name(id, index),
                            span,
                        ),
                    );
                }
                self.report_open_type_params(id, rest, next_index(index), span);
            },
        }
    }

    /// Makes an argument fit the type of its parameter. A number literal takes
    /// it. Where the parameter's type is still open in a part, only an argument
    /// that fits no filling of it is wrong. The second result is false where
    /// something was reported.
    pub fn fit_generic_argument(
        &mut self,
        ctx: &mut ExprContext,
        param: TypeIndex,
        type_args: &List<TypeIndex>,
        argument: Expression,
    ) -> (result: (Expression, bool))
        ensures
            (final(self)@, *final(ctx), result) == old(self)@.fit_generic_argument(
                *old(ctx),
                param,
                type_args,
                argument,
            ),
    {
        proof {
            reveal(State::fit_generic_argument);
        }
        let expected: TypeIndex = self.substitute_expected_type(param, type_args);
        let span = ctx.resolve_context.at(argument.span);
        if self.contains_infer(expected) {
            if !self.type_satisfies_annotation(argument.ty, expected) {
                self.report(report_type_mistmatch(expected, argument.ty, span));
                return (argument, false);
            }
            if ty::is_comptime_number(argument.ty) {
                self.report(report_type_annotation_required(span));
                return (argument, false);
            }
            return (argument, true);
        }
        if ty::is_comptime_number(argument.ty) {
            let (argument, fits) = self.coerce_untyped_expr(ctx, argument, expected);
            return (argument, fits);
        }
        let fits = self.coercible_to(argument.ty, expected);
        if !fits {
            self.report(report_type_mistmatch(expected, argument.ty, span));
        }
        (argument, fits)
    }

    /// Makes each argument fit the type of its parameter; arguments beyond the
    /// last parameter stay as they are.
    pub fn fit_generic_arguments(
        &mut self,
        ctx: &mut ExprContext,
        params: &List<TypeIndex>,
        type_args: &List<TypeIndex>,
        arguments: List<Expression>,
    ) -> (result: (List<Expression>, bool))
        ensures
            (final(self)@, *final(ctx), result) == old(self)@.fit_generic_arguments(
                *old(ctx),
                params,
                type_args,
                arguments,
            ),
        decreases params,
    {
        match params {
            List::Nil => (arguments, true),
            List::Cons(param, params_rest) => match arguments {
                List::Nil => (List::Nil, true),
                List::Cons(argument, arguments_rest) => {
                    let (first, first_fits) = self.fit_generic_argument(
                        ctx,
                        **param,
                        type_args,
                        *argument,
                    );
                    let (others, others_fit) = self.fit_generic_arguments(
                        ctx,
                        params_rest,
                        type_args,
                        *arguments_rest,
                    );
                    (cons(first, others), first_fits && others_fit)
                },
            },
        }
    }

    /// Where the argument stands whose parameter has exactly the type parameter
    /// at a position as its type; the whole call where there is none.
    pub fn argument_span_for(
        &self,
        params: &List<TypeIndex>,
        arguments: &List<Expression>,
        index: usize,
        call_span: TextSpan,
    ) -> (result: TextSpan)
        ensures
            result == self@.argument_span_for(params, arguments, index, call_span),
        decreases params,
    {
        match (params, arguments) {
            (List::Cons(param, params_rest), List::Cons(argument, arguments_rest)) => {
                let meant = match self.ty(**param) {
                    Type::TypeParam { owner: _, param_index } => param_index == index,
                    _ => false,
                };
                if meant {
                    argument.span
                } else {
                    self.argument_span_for(params_rest, arguments_rest, index, call_span)
                }
            },
            _ => call_span,
        }
    }

    /// Reports each trait of a bound that a type argument does not implement.
    pub fn check_trait_bounds(
        &mut self,
        func_index: usize,
        traits: &List<TraitBound>,
        argument: TypeIndex,
        at: SourceSpan,
    )
        ensures
            final(self)@ == old(self)@.check_trait_bounds(func_index, traits, argument, at),
        decreases traits,
    {
        match traits {
            List::Nil => {},
            List::Cons(bound, rest) => {
                if !self.type_implements_trait(argument, bound.trait_index) {
                    let (function_name, function_file, _) = self.function_identity(func_index);
                    self.report(
                        report_trait_bound_violation(
                            argument,
                            self.trait_name(bound.trait_index),
                            at,
                            SourceSpan::new(function_file, bound.span),
                            function_name,
                        ),
                    );
                }
                self.check_trait_bounds(func_index, rest, argument, at);
            },
        }
    }

    /// Reports a type argument that is no member of the typeset its parameter is
    /// bound to.
    pub fn check_typeset_bound(
        &mut self,
        typeset: Option<usize>,
        param_name: Symbol,
        argument: TypeIndex,
        at: SourceSpan,
    )
        ensures
            final(self)@ == old(self)@.check_typeset_bound(typeset, param_name, argument, at),
    {
        proof {
            reveal(State::check_typeset_bound);
        }
        match typeset {
            Some(typeset_index) => {
                if !self.type_in_typeset(argument, typeset_index) {
                    self.report(
                        report_not_in_typeset(
                            argument,
                            self.typeset_name(typeset_index),
                            param_name,
                            at,
                        ),
                    );
                }
            },
            None => {},
        }
    }

    /// Checks each type argument against the bounds of its parameter. A poisoned
    /// argument meets every bound.
    pub fn check_type_arg_bounds(
        &mut self,
        func_index: usize,
        type_args: &List<TypeIndex>,
        index: usize,
        params: &List<TypeIndex>,
        arguments: &List<Expression>,
        call: SourceSpan,
    )
        ensures
            final(self)@ == old(self)@.check_type_arg_bounds(
                func_index,
                type_args,
                index,
                params,
                arguments,
                call,
            ),
        decreases type_args,
    {
        match type_args {
            List::Nil => {},
            List::Cons(argument, rest) => {
                if **argument != ty::ERROR {
                    let (_, _, id) = self.function_identity(func_index);
                    let (bounds, name) = self.function_type_param_bounds(id, index);
                    let span = self.argument_span_for(params, arguments, index, call.span);
                    self.check_trait_bounds(
                        func_index,
                        &bounds.traits,
                        **argument,
                        SourceSpan::new(call.file_id, span),
                    );
                    self.check_typeset_bound(bounds.typeset, name, **argument, call);
                }
                self.check_type_arg_bounds(
                    func_index,
                    rest,
                    next_index(index),
                    params,
                    arguments,
                    call,
                );
            },
        }
    }

    /// The bounds and the name of the type parameter at a position of a
    /// function's whole list.
    pub fn function_type_param_bounds(
        &self,
        id: DefId,
        index: usize,
    ) -> (result: (Bounds, Symbol))
        ensures
            result == self@.function_type_param_bounds(id, index),
    {
        match self.type_param_info(TypeParamOwner::Function(id), index) {
            Some(info) => (info.bounds.duplicate(), info.name.inner),
            None => (Bounds::none(), 0),
        }
    }

    /// Reports each trait that the value of an associated type does not
    /// implement, though a `where` clause demands it.
    pub fn check_assoc_traits(
        &mut self,
        func_index: usize,
        required: &List<TraitBound>,
        concrete: TypeIndex,
        assoc_name: Symbol,
        bound_span: TextSpan,
        call: SourceSpan,
    )
        ensures
            final(self)@ == old(self)@.check_assoc_traits(
                func_index,
                required,
                concrete,
                assoc_name,
                bound_span,
                call,
            ),
        decreases required,
    {
        match required {
            List::Nil => {},
            List::Cons(bound, rest) => {
                if !self.type_implements_trait(concrete, bound.trait_index) {
                    let (function_name, function_file, _) = self.function_identity(func_index);
                    self.report(
                        report_assoc_trait_violation(
                            concrete,
                            self.trait_name(bound.trait_index),
                            assoc_name,
                            call,
                            SourceSpan::new(function_file, bound_span),
                            function_name,
                        ),
                    );
                }
                self.check_assoc_traits(func_index, rest, concrete, assoc_name, bound_span, call);
            },
        }
    }

    /// Checks the value of an associated type against what a `where` clause
    /// demands of it.
    pub fn check_assoc_bounds(
        &mut self,
        func_index: usize,
        required: &Bounds,
        concrete: TypeIndex,
        assoc_name: Symbol,
        bound_span: TextSpan,
        call: SourceSpan,
    )
        ensures
            final(self)@ == old(self)@.check_assoc_bounds(
                func_index,
                required,
                concrete,
                assoc_name,
                bound_span,
                call,
            ),
    {
        proof {
            reveal(State::check_assoc_bounds);
        }
        self.check_assoc_traits(
            func_index,
            &required.traits,
            concrete,
            assoc_name,
            bound_span,
            call,
        );
        match required.typeset {
            Some(typeset_index) => {
                if !self.type_in_typeset(concrete, typeset_index) {
                    let (function_name, function_file, _) = self.function_identity(func_index);
                    self.report(
                        report_assoc_typeset_violation(
                            concrete,
                            self.typeset_name(typeset_index),
                            assoc_name,
                            call,
                            SourceSpan::new(function_file, bound_span),
                            function_name,
                        ),
                    );
                }
            },
            None => {},
        }
    }

    /// Checks the associated types of a type argument against the `where`
    /// clauses of a bound.
    pub fn check_bound_bindings(
        &mut self,
        func_index: usize,
        bindings: &List<AssocBinding>,
        trait_index: usize,
        bound_span: TextSpan,
        argument: TypeIndex,
        call: SourceSpan,
    )
        ensures
            final(self)@ == old(self)@.check_bound_bindings(
                func_index,
                bindings,
                trait_index,
                bound_span,
                argument,
                call,
            ),
        decreases bindings,
    {
        match bindings {
            List::Nil => {},
            List::Cons(binding, rest) => {
                match &binding.rhs {
                    AssocBindingKind::Bound(required) => {
                        let value = self.concrete_assoc_type_value(
                            argument,
                            trait_index,
                            binding.name.inner,
                        );
                        match value {
                            Some(concrete) => {
                                self.check_assoc_bounds(
                                    func_index,
                                    required,
                                    concrete,
                                    binding.name.inner,
                                    bound_span,
                                    call,
                                );
                            },
                            None => {},
                        }
                    },
                    AssocBindingKind::Equals(_) => {},
                }
                self.check_bound_bindings(
                    func_index,
                    rest,
                    trait_index,
                    bound_span,
                    argument,
                    call,
                );
            },
        }
    }

    /// Checks the associated types of a type argument against the `where`
    /// clauses of those bounds that it meets.
    pub fn check_where_clauses(
        &mut self,
        func_index: usize,
        traits: &List<TraitBound>,
        argument: TypeIndex,
        call: SourceSpan,
    )
        ensures
            final(self)@ == old(self)@.check_where_clauses(func_index, traits, argument, call),
        decreases traits,
    {
        match traits {
            List::Nil => {},
            List::Cons(bound, rest) => {
                if self.type_implements_trait(argument, bound.trait_index) {
                    self.check_bound_bindings(
                        func_index,
                        &bound.bindings,
                        bound.trait_index,
                        bound.span,
                        argument,
                        call,
                    );
                }
                self.check_where_clauses(func_index, rest, argument, call);
            },
        }
    }

    /// Checks the associated types of each type argument against the `where`
    /// clauses on its parameter.
    pub fn check_type_arg_clauses(
        &mut self,
        func_index: usize,
        type_args: &List<TypeIndex>,
        index: usize,
        call: SourceSpan,
    )
        ensures
            final(self)@ == old(self)@.check_type_arg_clauses(func_index, type_args, index, call),
        decreases type_args,
    {
        match type_args {
            List::Nil => {},
            List::Cons(argument, rest) => {
                if **argument != ty::ERROR {
                    let (_, _, id) = self.function_identity(func_index);
                    let (bounds, _) = self.function_type_param_bounds(id, index);
                    self.check_where_clauses(func_index, &bounds.traits, **argument, call);
                }
                self.check_type_arg_clauses(func_index, rest, next_index(index), call);
            },
        }
    }

    /// Checks the typeset bound of each type parameter of a function against the
    /// argument for it.
    pub fn check_typeset_bounds_on_type_args(
        &mut self,
        func_index: usize,
        type_args: &List<TypeIndex>,
        index: usize,
        call: SourceSpan,
    )
        ensures
            final(self)@ == old(self)@.check_typeset_bounds_on_type_args(
                func_index,
                type_args,
                index,
                call,
            ),
        decreases type_args,
    {
        match type_args {
            List::Nil => {},
            List::Cons(argument, rest) => {
                if **argument != ty::ERROR {
                    let (_, _, id) = self.function_identity(func_index);
                    let (bounds, name) = self.function_type_param_bounds(id, index);
                    self.check_typeset_bound(bounds.typeset, name, **argument, call);
                }
                self.check_typeset_bounds_on_type_args(func_index, rest, next_index(index), call);
            },
        }
    }

    /// Settles a generic call: the types that its type parameters stand for, and
    /// the arguments made to fit them. Types come from the expected result first,
    /// from the arguments after that. Whatever is wrong is reported, and the call
    /// still gets a type for each parameter, the poison type where none is known.
    pub fn build_generic_call_arguments(
        &mut self,
        ctx: &mut ExprContext,
        func_index: usize,
        arguments: List<Expression>,
        type_args: List<TypeIndex>,
        expected_result: TypeIndex,
        call_span: TextSpan,
    ) -> (result: (List<TypeIndex>, List<Expression>))
        ensures
            (final(self)@, *final(ctx), result) == old(self)@.build_generic_call_arguments(
                *old(ctx),
                func_index,
                arguments,
                type_args,
                expected_result,
                call_span,
            ),
    {
        proof {
            reveal(State::build_generic_call_arguments);
        }
        let call = ctx.resolve_context.at(call_span);
        let params = self.function_param_types(func_index);
        let result: TypeIndex = self.function_result_type(func_index);
        let (_, _, id) = self.function_identity(func_index);
        let seeded = if expected_result != ty::INFER {
            self.infer_type_args(type_args, result, expected_result)
        } else {
            type_args
        };
        let fixed = self.infer_from_arguments(seeded, &params, &arguments);
        let concrete_result: TypeIndex = self.substitute_type(result, &fixed, MAX_DEPTH);
        if self.contains_infer(concrete_result) {
            if expected_result != ty::ERROR {
                self.report_open_type_params(id, &fixed, 0, call);
            }
            return (close_types(&fixed), arguments);
        }
        let (fitted, fits) = self.fit_generic_arguments(ctx, &params, &fixed, arguments);
        if fits {
            self.report_open_type_params(id, &fixed, 0, call);
        }
        let closed = close_types(&fixed);
        self.check_type_arg_bounds(func_index, &closed, 0, &params, &fitted, call);
        self.check_type_arg_clauses(func_index, &closed, 0, call);
        (closed, fitted)
    }
}

} // verus!
