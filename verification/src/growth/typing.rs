//! What `typing` does to the state only adds to it.

use vstd::prelude::*;

use crate::ast::Statement;
use crate::interner;
use crate::list::{cons, List};
use crate::lookup::ResolvedMember;
use crate::reports::{
    report_invalid_pattern, report_type_annotation_required, report_type_mistmatch,
    report_unnecessary_mutability, report_unreachable_match_arm, report_unused_label,
    report_unused_variable,
};
use crate::scope::ExprContext;
use crate::span::{FileId, SourceSpan, Spanned, Symbol, TextSpan};
use crate::state::State;
use crate::tir::{
    AccessContext, AccessKind, AccessTarget, BlockScope, Expression, LabelInfo, Local, MatchArm,
    Pattern, ResolveContext, StackFrame,
};
use crate::ty;
use crate::types::{Type, TypeIndex};
use crate::typing;
use crate::typing::FieldAccessKind;

verus! {

impl<'ast> State<'ast> {
    pub broadcast proof fn adds_report_unreachable_statements(
        self,
        file_id: FileId,
        statements: &List<Statement>,
        built: usize,
    )
        ensures
            self.only_adds(
                #[trigger] self.report_unreachable_statements(file_id, statements, built),
            ),
    {
        broadcast use crate::growth::group_adding;

        self.adds_nothing();
        reveal(State::report_unreachable_statements);
    }

    pub broadcast proof fn adds_check_coercible(
        self,
        actual: TypeIndex,
        expected: TypeIndex,
        span: SourceSpan,
    )
        ensures
            self.only_adds((#[trigger] self.check_coercible(actual, expected, span)).0),
    {
        broadcast use crate::growth::group_adding;

        self.adds_nothing();
    }

    pub broadcast proof fn adds_infer_block_type(
        self,
        inferred: TypeIndex,
        expected: TypeIndex,
        value: TypeIndex,
        span: SourceSpan,
    )
        ensures
            self.only_adds((#[trigger] self.infer_block_type(inferred, expected, value, span)).0),
    {
        broadcast use crate::growth::group_adding;

        self.adds_nothing();
        reveal(State::infer_block_type);
        if ty::is_comptime_number(value) {
            let target: TypeIndex = ty::infer_or(inferred, expected);
        } else {
            if inferred != ty::INFER {
                self.adds_check_coercible(value, inferred, span);
                let (s, _fits) = self.check_coercible(value, inferred, span);
            } else {
                if expected != ty::INFER {
                    self.adds_check_coercible(value, expected, span);
                    let (s, fits) = self.check_coercible(value, expected, span);
                    if !fits {
                    }
                }
            }
        }
    }

    pub broadcast proof fn adds_resolve_local_type(
        self,
        ctx: ExprContext,
        pattern_span: TextSpan,
        value: Expression,
        expected: TypeIndex,
    )
        ensures
            self.only_adds(
                (#[trigger] self.resolve_local_type(ctx, pattern_span, value, expected)).0,
            ),
    {
        broadcast use crate::growth::group_adding;

        self.adds_nothing();
        reveal(State::resolve_local_type);
        let span = ctx.resolve_context.at(value.span);
        let value_ty: TypeIndex = value.ty;
        if expected == ty::INFER {
            if self.has_comptime_number(value_ty) || self.has_infer(value_ty) {
                let s = self.report(
                    report_type_annotation_required(ctx.resolve_context.at(pattern_span)),
                );
            }
        } else {
            if value_ty == ty::ERROR {
            } else {
                if ty::is_comptime_number(value_ty) {
                    self.adds_coerce_untyped_expr(ctx, value, expected);
                    let (s, ctx, (value, fits)) = self.coerce_untyped_expr(ctx, value, expected);
                    if fits {
                    }
                } else {
                    if self.has_infer(expected) {
                        if self.satisfies(value_ty, expected) {
                        } else {
                            let s = self.report(report_type_mistmatch(expected, value_ty, span));
                        }
                    } else {
                        self.adds_check_coercible(value_ty, expected, span);
                    }
                }
            }
        }
    }

    pub broadcast proof fn adds_check_field_access(
        self,
        context: ResolveContext,
        struct_index: usize,
        index: usize,
        span: TextSpan,
    )
        ensures
            self.only_adds(
                #[trigger] self.check_field_access(context, struct_index, index, span),
            ),
    {
        broadcast use crate::growth::group_adding;

        self.adds_nothing();
        reveal(State::check_field_access);
    }

    pub broadcast proof fn adds_resolve_struct_field(
        self,
        context: ResolveContext,
        struct_index: usize,
        args: &List<TypeIndex>,
        name: Spanned<Symbol>,
        kind: FieldAccessKind,
    )
        ensures
            self.only_adds(
                (#[trigger] self.resolve_struct_field(context, struct_index, args, name, kind)).0,
            ),
    {
        broadcast use crate::growth::group_adding;

        self.adds_nothing();
        reveal(State::resolve_struct_field);
        match self.declared_field(struct_index, name.inner) {
            Some((index, _)) => {
                let target = match kind {
                    FieldAccessKind::Read => AccessTarget::FieldRead(struct_index, index),
                    FieldAccessKind::Init => AccessTarget::FieldInit(struct_index, index),
                };
                self.access(target, context.at(name.span)).adds_check_field_access(
                    context,
                    struct_index,
                    index,
                    name.span,
                );
            },
            None => {},
        }
    }

    pub broadcast proof fn adds_settle_literal(
        self,
        ctx: ExprContext,
        value: Expression,
        expected: TypeIndex,
    )
        ensures
            self.only_adds((#[trigger] self.settle_literal(ctx, value, expected)).0),
    {
        broadcast use crate::growth::group_adding;

        self.adds_nothing();
        reveal(State::settle_literal);
        if !ty::is_comptime_number(value.ty) {
        } else {
            self.adds_coerce_untyped_expr(ctx, value, expected);
        }
    }

    pub broadcast proof fn adds_check_array_element(
        self,
        ctx: ExprContext,
        element: Expression,
        expected: TypeIndex,
    )
        ensures
            self.only_adds((#[trigger] self.check_array_element(ctx, element, expected)).0),
    {
        broadcast use crate::growth::group_adding;

        self.adds_nothing();
        reveal(State::check_array_element);
        let span = ctx.resolve_context.at(element.span);
        if ty::is_comptime_number(element.ty) && expected == ty::INFER {
            let s = self.report(report_type_annotation_required(span));
        } else {
            self.adds_settle_literal(ctx, element, expected);
            let (s, ctx, element) = self.settle_literal(ctx, element, expected);
            match element {
                Some(element) => {},
                None => {},
            }
        }
    }

    pub broadcast proof fn adds_check_same_type(
        self,
        file_id: FileId,
        elements: &List<Expression>,
        expected: TypeIndex,
    )
        ensures
            self.only_adds((#[trigger] self.check_same_type(file_id, elements, expected)).0),
        decreases elements,
    {
        broadcast use crate::growth::group_adding;

        self.adds_nothing();
        match elements {
            List::Nil => {},
            List::Cons(element, rest) => {
                if element.ty != expected {
                    let s = self.report(
                        report_type_mistmatch(
                            expected,
                            element.ty,
                            SourceSpan::new(file_id, element.span),
                        ),
                    );
                } else {
                    self.adds_check_same_type(file_id, rest, expected);
                }
            },
        }
    }

    pub broadcast proof fn adds_resolve_indexable(self, object: TypeIndex, span: SourceSpan)
        ensures
            self.only_adds((#[trigger] self.resolve_indexable(object, span)).0),
    {
        broadcast use crate::growth::group_adding;

        self.adds_nothing();
        reveal(State::resolve_indexable);
    }

    pub broadcast proof fn adds_check_writable(
        self,
        access_kind: AccessKind,
        mutable: bool,
        span: SourceSpan,
    )
        ensures
            self.only_adds(#[trigger] self.check_writable(access_kind, mutable, span)),
    {
        broadcast use crate::growth::group_adding;

        self.adds_nothing();
    }

    pub broadcast proof fn adds_pattern_of_expression(
        self,
        ctx: ExprContext,
        built: Expression,
        scrutinee: TypeIndex,
        span: TextSpan,
    )
        ensures
            self.only_adds(
                (#[trigger] self.pattern_of_expression(ctx, built, scrutinee, span)).0,
            ),
    {
        broadcast use crate::growth::group_adding;

        self.adds_nothing();
        reveal(State::pattern_of_expression);
        let is_enum = match self.ty(scrutinee) {
            Type::Enum { .. } => true,
            _ => false,
        };
        if is_enum {
            let pattern = typing::pattern_of_variant(&built, scrutinee);
            let s = if pattern.is_none() {
                self.report(report_invalid_pattern(ctx.resolve_context.at(span)))
            } else {
                self
            };
        } else {
            self.adds_settle_literal(ctx, built, scrutinee);
            let (s, ctx, built) = self.settle_literal(ctx, built, scrutinee);
            match built {
                Some(built) => {},
                None => {},
            }
        }
    }

    pub broadcast proof fn adds_report_unreachable_arms(
        self,
        file_id: FileId,
        arms: &List<MatchArm>,
        seen: &List<Pattern>,
    )
        ensures
            self.only_adds(#[trigger] self.report_unreachable_arms(file_id, arms, seen)),
        decreases arms,
    {
        broadcast use crate::growth::group_adding;

        self.adds_nothing();
        match arms {
            List::Nil => {},
            List::Cons(arm, rest) => {
                let s = if typing::lists_pattern(seen, Pattern::Wildcard)
                    || typing::lists_pattern(seen, arm.pattern) {
                    self.report(
                        report_unreachable_match_arm(SourceSpan::new(file_id, arm.pattern_span)),
                    )
                } else {
                    self
                };
                s.adds_report_unreachable_arms(file_id, rest, &cons(arm.pattern, *seen));
            },
        }
    }

    pub broadcast proof fn adds_settle_arm(
        self,
        ctx: ExprContext,
        body: Expression,
        target: TypeIndex,
    )
        ensures
            self.only_adds((#[trigger] self.settle_arm(ctx, body, target)).0),
    {
        broadcast use crate::growth::group_adding;

        self.adds_nothing();
        if ty::is_comptime_number(target) {
        } else {
            self.adds_settle_literal(ctx, body, target);
        }
    }

    pub broadcast proof fn adds_unify_arms(
        self,
        ctx: ExprContext,
        arms: List<MatchArm>,
        target: TypeIndex,
        so_far: TypeIndex,
    )
        ensures
            self.only_adds((#[trigger] self.unify_arms(ctx, arms, target, so_far)).0),
        decreases arms,
    {
        broadcast use crate::growth::group_adding;

        self.adds_nothing();
        match arms {
            List::Nil => {},
            List::Cons(arm, rest) => {
                let arm = *arm;
                let pattern = arm.pattern;
                let pattern_span = arm.pattern_span;
                self.adds_settle_arm(ctx, arm.body, target);
                let (s, ctx, body) = self.settle_arm(ctx, arm.body, target);
                match body {
                    Some(body) => {
                        let (s, unified) = s.unified(so_far, body.ty);
                        match unified {
                            Some(agreed) => {
                                s.adds_unify_arms(ctx, *rest, target, agreed);
                            },
                            None => {},
                        }
                    },
                    None => {},
                }
            },
        }
    }

    pub broadcast proof fn adds_check_match_exhaustiveness(
        self,
        file_id: FileId,
        scrutinee: TypeIndex,
        arms: &List<MatchArm>,
        match_span: TextSpan,
    )
        ensures
            self.only_adds(
                (
                    #[trigger] self.check_match_exhaustiveness(
                        file_id,
                        scrutinee,
                        arms,
                        match_span,
                    )
                ).0,
            ),
    {
        broadcast use crate::growth::group_adding;

        self.adds_nothing();
        reveal(State::check_match_exhaustiveness);
    }

    pub broadcast proof fn adds_build_member_value(
        self,
        context: ResolveContext,
        namespace: Spanned<TypeIndex>,
        member: ResolvedMember,
        member_span: TextSpan,
        span: TextSpan,
    )
        ensures
            self.only_adds(
                (
                    #[trigger] self.build_member_value(
                        context,
                        namespace,
                        member,
                        member_span,
                        span,
                    )
                ).0,
            ),
    {
        broadcast use crate::growth::group_adding;

        self.adds_nothing();
        reveal(State::build_member_value);
    }

    pub broadcast proof fn adds_finish_object_access(
        self,
        context: ResolveContext,
        object: Expression,
        member: Spanned<Symbol>,
        span: TextSpan,
    )
        ensures
            self.only_adds(
                (#[trigger] self.finish_object_access(context, object, member, span)).0,
            ),
    {
        broadcast use crate::growth::group_adding;

        self.adds_nothing();
        reveal(State::finish_object_access);
        let object_ty: TypeIndex = object.ty;
        let (s, field) = match self.ty(object_ty) {
            Type::Struct { struct_index, args } => {
                self.adds_resolve_struct_field(
                    context,
                    struct_index,
                    &args,
                    member,
                    FieldAccessKind::Read,
                );
                self.resolve_struct_field(
                    context,
                    struct_index,
                    &args,
                    member,
                    FieldAccessKind::Read,
                )
            },
            _ => (self, None),
        };
        match field {
            Some(field) => {},
            None => {
                s.adds_resolve_impl_member(context, object_ty, member.inner, member.span);
            },
        }
    }

    pub broadcast proof fn adds_report_unused_locals(self, file_id: FileId, locals: &List<Local>)
        ensures
            self.only_adds(#[trigger] self.report_unused_locals(file_id, locals)),
        decreases locals,
    {
        broadcast use crate::growth::group_adding;

        self.adds_nothing();
        match locals {
            List::Nil => {},
            List::Cons(local, rest) => {
                let s = if local.accesses.is_empty()
                    && local.ty != ty::ERROR
                    && !interner::is_underscored(self.texts, local.name.inner)
                    && local.name.inner != self.names.self_value {
                    self.report(
                        report_unused_variable(SourceSpan::new(file_id, local.name.span)),
                    )
                } else {
                    self
                };
                let s = match local.mut_span {
                    Some(mut_span) => {
                        if !typing::was_written(&local.accesses) {
                            s.report(
                                report_unnecessary_mutability(SourceSpan::new(file_id, mut_span)),
                            )
                        } else {
                            s
                        }
                    },
                    None => s,
                };
                s.adds_report_unused_locals(file_id, rest);
            },
        }
    }

    pub broadcast proof fn adds_report_scope_warnings(
        self,
        file_id: FileId,
        scopes: &List<BlockScope>,
    )
        ensures
            self.only_adds(#[trigger] self.report_scope_warnings(file_id, scopes)),
        decreases scopes,
    {
        broadcast use crate::growth::group_adding;

        self.adds_nothing();
        match scopes {
            List::Nil => {},
            List::Cons(scope, rest) => {
                self.adds_report_unused_locals(file_id, &scope.locals);
                let s = self.report_unused_locals(file_id, &scope.locals);
                s.adds_report_scope_warnings(file_id, rest);
            },
        }
    }

    pub broadcast proof fn adds_report_unused_labels(
        self,
        file_id: FileId,
        labels: &List<LabelInfo>,
    )
        ensures
            self.only_adds(#[trigger] self.report_unused_labels(file_id, labels)),
        decreases labels,
    {
        broadcast use crate::growth::group_adding;

        self.adds_nothing();
        match labels {
            List::Nil => {},
            List::Cons(label, rest) => {
                let s = if label.accesses.is_empty() {
                    self.report(
                        report_unused_label(SourceSpan::new(file_id, label.name.span)),
                    )
                } else {
                    self
                };
                s.adds_report_unused_labels(file_id, rest);
            },
        }
    }

    pub broadcast proof fn adds_report_stack_warnings(self, file_id: FileId, stack: &StackFrame)
        ensures
            self.only_adds(#[trigger] self.report_stack_warnings(file_id, stack)),
    {
        broadcast use crate::growth::group_adding;

        self.adds_nothing();
        self.adds_report_unused_labels(file_id, &stack.labels);
        let s = self.report_unused_labels(file_id, &stack.labels);
        s.adds_report_scope_warnings(file_id, &stack.scopes);
    }

    pub broadcast proof fn adds_checked_block_type(
        self,
        inferred: TypeIndex,
        expected: TypeIndex,
        span: SourceSpan,
    )
        ensures
            self.only_adds((#[trigger] self.checked_block_type(inferred, expected, span)).0),
    {
        broadcast use crate::growth::group_adding;

        self.adds_nothing();
        if expected == ty::INFER {
        } else {
            self.adds_check_coercible(inferred, expected, span);
        }
    }

    pub broadcast proof fn adds_finish_block_result(
        self,
        ctx: ExprContext,
        value: Option<Expression>,
    )
        ensures
            self.only_adds((#[trigger] self.finish_block_result(ctx, value)).0),
    {
        broadcast use crate::growth::group_adding;

        self.adds_nothing();
        reveal(State::finish_block_result);
        let index: usize = ctx.scope_index;
        match value {
            Some(value) => {
                self.adds_infer_block_type(
                    ctx.inferred(index),
                    ctx.expected(index),
                    value.ty,
                    ctx.resolve_context.at(value.span),
                );
                let (s, inferred) = self.infer_block_type(
                    ctx.inferred(index),
                    ctx.expected(index),
                    value.ty,
                    ctx.resolve_context.at(value.span),
                );
                match inferred {
                    Some(inferred) => {
                        let ctx = ctx.with_inferred(index, inferred);
                        if ty::is_comptime_number(value.ty)
                            && !ty::is_comptime_number(inferred) {
                            s.adds_coerce_untyped_expr(ctx, value, inferred);
                            let (s, ctx, (value, _)) = s.coerce_untyped_expr(
                                ctx,
                                value,
                                inferred,
                            );
                        }
                    },
                    None => {},
                }
            },
            None => {},
        }
    }

    pub broadcast proof fn adds_finish_expression_statement(
        self,
        ctx: ExprContext,
        value: Expression,
    )
        ensures
            self.only_adds((#[trigger] self.finish_expression_statement(ctx, value)).0),
    {
        broadcast use crate::growth::group_adding;

        self.adds_nothing();
        reveal(State::finish_expression_statement);
    }

    pub broadcast proof fn adds_settle_local(
        self,
        ctx: ExprContext,
        pattern_span: TextSpan,
        value_span: TextSpan,
        built: Option<Expression>,
        expected: TypeIndex,
    )
        ensures
            self.only_adds(
                (#[trigger] self.settle_local(ctx, pattern_span, value_span, built, expected)).0,
            ),
    {
        broadcast use crate::growth::group_adding;

        self.adds_nothing();
        match built {
            Some(value) => {
                self.adds_resolve_local_type(ctx, pattern_span, value, expected);
            },
            None => {},
        }
    }

    pub broadcast proof fn adds_finish_loop(
        self,
        ctx: ExprContext,
        block: Expression,
        span: TextSpan,
    )
        ensures
            self.only_adds((#[trigger] self.finish_loop(ctx, block, span)).0),
    {
        broadcast use crate::growth::group_adding;

        self.adds_nothing();
        reveal(State::finish_loop);
        let index: usize = ctx.scope_index;
        let inferred: TypeIndex = ctx.inferred(index);
        let expected: TypeIndex = ctx.expected(index);
        if expected != ty::INFER && inferred != ty::INFER {
            self.adds_check_coercible(inferred, expected, ctx.resolve_context.at(span));
            let (s, fits) = self.check_coercible(
                inferred,
                expected,
                ctx.resolve_context.at(span),
            );
            if !fits {
            }
        }
    }

    pub broadcast proof fn adds_jump_target(
        self,
        ctx: ExprContext,
        label: Option<Spanned<Symbol>>,
        span: TextSpan,
        leaves: bool,
    )
        ensures
            self.only_adds((#[trigger] self.jump_target(ctx, label, span, leaves)).0),
    {
        broadcast use crate::growth::group_adding;

        self.adds_nothing();
        reveal(State::jump_target);
    }

    pub broadcast proof fn adds_build_continue_expression(
        self,
        ctx: ExprContext,
        label: Option<Spanned<Symbol>>,
        span: TextSpan,
    )
        ensures
            self.only_adds((#[trigger] self.build_continue_expression(ctx, label, span)).0),
    {
        broadcast use crate::growth::group_adding;

        self.adds_nothing();
        reveal(State::build_continue_expression);
        self.adds_jump_target(ctx, label, span, false);
    }

    pub broadcast proof fn adds_settle_jump_value(
        self,
        ctx: ExprContext,
        scope_index: usize,
        value: Expression,
    )
        ensures
            self.only_adds((#[trigger] self.settle_jump_value(ctx, scope_index, value)).0),
    {
        broadcast use crate::growth::group_adding;

        self.adds_nothing();
        reveal(State::settle_jump_value);
        let span = ctx.resolve_context.at(value.span);
        self.adds_infer_block_type(
            ctx.inferred(scope_index),
            ctx.expected(scope_index),
            value.ty,
            span,
        );
        let (s, inferred) = self.infer_block_type(
            ctx.inferred(scope_index),
            ctx.expected(scope_index),
            value.ty,
            span,
        );
        match inferred {
            Some(inferred) => {
                let ctx = ctx.with_inferred(scope_index, inferred);
                if ty::is_comptime_number(value.ty) && ty::is_comptime_number(inferred) {
                    let s = s.report(report_type_annotation_required(span));
                } else {
                    s.adds_settle_literal(ctx, value, inferred);
                }
            },
            None => {},
        }
    }

    pub broadcast proof fn adds_finish_plain_break(
        self,
        ctx: ExprContext,
        scope_index: usize,
        span: TextSpan,
    )
        ensures
            self.only_adds((#[trigger] self.finish_plain_break(ctx, scope_index, span)).0),
    {
        broadcast use crate::growth::group_adding;

        self.adds_nothing();
        reveal(State::finish_plain_break);
        let inferred: TypeIndex = ctx.inferred(scope_index);
        let (s, ctx) = if inferred != ty::INFER {
            self.adds_check_coercible(ty::UNIT, inferred, ctx.resolve_context.at(span));
            let (s, _fits) = self.check_coercible(
                ty::UNIT,
                inferred,
                ctx.resolve_context.at(span),
            );
            (s, ctx)
        } else {
            let ctx = ctx.with_inferred(scope_index, ty::UNIT);
            (self, ctx)
        };
    }

    pub broadcast proof fn adds_finish_return(
        self,
        ctx: ExprContext,
        value: Expression,
        span: TextSpan,
    )
        ensures
            self.only_adds((#[trigger] self.finish_return(ctx, value, span)).0),
    {
        broadcast use crate::growth::group_adding;

        self.adds_nothing();
        reveal(State::finish_return);
        self.adds_settle_jump_value(ctx, 0, value);
        let (s, ctx, value) = self.settle_jump_value(ctx, 0, value);
        match value {
            Some(value) => {
                let expected: TypeIndex = ctx.expected(0);
                if expected != ty::INFER {
                    s.adds_check_coercible(
                        ctx.inferred(0),
                        expected,
                        ctx.resolve_context.at(value.span),
                    );
                    let (s, fits) = s.check_coercible(
                        ctx.inferred(0),
                        expected,
                        ctx.resolve_context.at(value.span),
                    );
                    if !fits {
                    }
                }
            },
            None => {},
        }
    }

    pub broadcast proof fn adds_finish_plain_return(self, ctx: ExprContext, span: TextSpan)
        ensures
            self.only_adds((#[trigger] self.finish_plain_return(ctx, span)).0),
    {
        broadcast use crate::growth::group_adding;

        self.adds_nothing();
        reveal(State::finish_plain_return);
    }

    pub broadcast proof fn adds_finish_if(
        self,
        context: ResolveContext,
        condition: Expression,
        then_block: Expression,
        span: TextSpan,
    )
        ensures
            self.only_adds((#[trigger] self.finish_if(context, condition, then_block, span)).0),
    {
        broadcast use crate::growth::group_adding;

        self.adds_nothing();
        reveal(State::finish_if);
    }

    pub broadcast proof fn adds_finish_if_else(
        self,
        ctx: ExprContext,
        condition: Expression,
        then_block: Expression,
        else_block: Expression,
        span: TextSpan,
    )
        ensures
            self.only_adds(
                (#[trigger] self.finish_if_else(ctx, condition, then_block, else_block, span)).0,
            ),
    {
        broadcast use crate::growth::group_adding;

        self.adds_nothing();
        reveal(State::finish_if_else);
        let then_ty: TypeIndex = then_block.ty;
        let else_ty: TypeIndex = else_block.ty;
        self.adds_settle_arm(ctx, then_block, else_ty);
        let (s, ctx, then_block) = self.settle_arm(ctx, then_block, else_ty);
        match then_block {
            Some(then_block) => {
                s.adds_settle_arm(ctx, else_block, then_ty);
                let (s, ctx, else_block) = s.settle_arm(ctx, else_block, then_ty);
                match else_block {
                    Some(else_block) => {},
                    None => {},
                }
            },
            None => {},
        }
    }

    pub broadcast proof fn adds_finish_match(
        self,
        ctx: ExprContext,
        scrutinee: Expression,
        arms: List<MatchArm>,
        span: TextSpan,
    )
        ensures
            self.only_adds((#[trigger] self.finish_match(ctx, scrutinee, arms, span)).0),
    {
        broadcast use crate::growth::group_adding;

        self.adds_nothing();
        reveal(State::finish_match);
        let file_id: FileId = ctx.resolve_context.file_id;
        self.adds_report_unreachable_arms(file_id, &arms, &List::Nil);
        let s = self.report_unreachable_arms(file_id, &arms, &List::Nil);
        let target: TypeIndex = typing::first_typed(&arms, typing::first_type(&arms));
        s.adds_unify_arms(ctx, arms, target, target);
        let (s, ctx, found) = s.unify_arms(ctx, arms, target, target);
        match found {
            Some((arms, ty)) => {
                s.adds_check_match_exhaustiveness(file_id, scrutinee.ty, &arms, span);
            },
            None => {},
        }
    }

    pub broadcast proof fn adds_fit_field_value(
        self,
        ctx: ExprContext,
        value: Expression,
        expected: TypeIndex,
    )
        ensures
            self.only_adds((#[trigger] self.fit_field_value(ctx, value, expected)).0),
    {
        broadcast use crate::growth::group_adding;

        self.adds_nothing();
        reveal(State::fit_field_value);
        if ty::is_comptime_number(value.ty) {
            self.adds_settle_literal(ctx, value, expected);
        } else {
            self.adds_check_coercible(value.ty, expected, ctx.resolve_context.at(value.span));
        }
    }

    pub broadcast proof fn adds_finish_struct_init(
        self,
        context: ResolveContext,
        struct_index: usize,
        name: Symbol,
        args: List<TypeIndex>,
        mentions: &List<Option<TextSpan>>,
        slots: List<Option<Expression>>,
        span: TextSpan,
    )
        ensures
            self.only_adds(
                (
                    #[trigger] self.finish_struct_init(
                        context,
                        struct_index,
                        name,
                        args,
                        mentions,
                        slots,
                        span,
                    )
                ).0,
            ),
    {
        broadcast use crate::growth::group_adding;

        self.adds_nothing();
        reveal(State::finish_struct_init);
    }

    pub broadcast proof fn adds_settle_element(
        self,
        ctx: ExprContext,
        element: Expression,
        expected: TypeIndex,
    )
        ensures
            self.only_adds((#[trigger] self.settle_element(ctx, element, expected)).0),
    {
        broadcast use crate::growth::group_adding;

        self.adds_nothing();
        if ty::is_comptime_number(element.ty) && expected != ty::INFER {
            self.adds_coerce_untyped_expr(ctx, element, expected);
            let (s, ctx, (element, _)) = self.coerce_untyped_expr(ctx, element, expected);
        }
    }

    pub broadcast proof fn adds_finish_tuple(
        self,
        elements: List<Expression>,
        failed: bool,
        span: TextSpan,
    )
        ensures
            self.only_adds((#[trigger] self.finish_tuple(elements, failed, span)).0),
    {
        broadcast use crate::growth::group_adding;

        self.adds_nothing();
        reveal(State::finish_tuple);
    }

    pub broadcast proof fn adds_check_array_size(
        self,
        expected: Option<u32>,
        size: u32,
        count: usize,
        span: SourceSpan,
    )
        ensures
            self.only_adds((#[trigger] self.check_array_size(expected, size, count, span)).0),
    {
        broadcast use crate::growth::group_adding;

        self.adds_nothing();
        reveal(State::check_array_size);
    }

    pub broadcast proof fn adds_element_type(
        self,
        context: ResolveContext,
        elements: &List<Expression>,
        expected: TypeIndex,
        span: TextSpan,
    )
        ensures
            self.only_adds((#[trigger] self.element_type(context, elements, expected, span)).0),
    {
        broadcast use crate::growth::group_adding;

        self.adds_nothing();
        reveal(State::element_type);
        match elements {
            List::Cons(first, rest) => {
                self.adds_check_same_type(context.file_id, rest, first.ty);
            },
            List::Nil => {},
        }
    }

    pub broadcast proof fn adds_settle_index(
        self,
        ctx: ExprContext,
        index: Expression,
        index_type: TypeIndex,
    )
        ensures
            self.only_adds((#[trigger] self.settle_index(ctx, index, index_type)).0),
    {
        broadcast use crate::growth::group_adding;

        self.adds_nothing();
        reveal(State::settle_index);
        if ty::is_comptime_number(index.ty) {
            self.adds_settle_literal(ctx, index, index_type);
        }
    }

    pub broadcast proof fn adds_settle_range_bound(
        self,
        ctx: ExprContext,
        bound: Expression,
        index_type: TypeIndex,
        span: TextSpan,
    )
        ensures
            self.only_adds((#[trigger] self.settle_range_bound(ctx, bound, index_type, span)).0),
    {
        broadcast use crate::growth::group_adding;

        self.adds_nothing();
        reveal(State::settle_range_bound);
        if ty::is_comptime_number(bound.ty) {
            self.adds_settle_literal(ctx, bound, index_type);
        }
    }

    pub broadcast proof fn adds_settle_argument(
        self,
        ctx: ExprContext,
        argument: Expression,
        expected: TypeIndex,
    )
        ensures
            self.only_adds((#[trigger] self.settle_argument(ctx, argument, expected)).0),
    {
        broadcast use crate::growth::group_adding;

        self.adds_nothing();
        reveal(State::settle_argument);
        let span = ctx.resolve_context.at(argument.span);
        if expected == ty::INFER {
            let s = if ty::is_comptime_number(argument.ty) {
                self.report(report_type_annotation_required(span))
            } else {
                self
            };
        } else {
            if ty::is_comptime_number(argument.ty) {
                self.adds_coerce_untyped_expr(ctx, argument, expected);
                let (s, ctx, (argument, _)) = self.coerce_untyped_expr(ctx, argument, expected);
            } else {
                self.adds_check_coercible(argument.ty, expected, span);
            }
        }
    }

    pub broadcast proof fn adds_argument_expectation(
        self,
        param: Option<TypeIndex>,
        type_args: &List<TypeIndex>,
    )
        ensures
            self.only_adds((#[trigger] self.argument_expectation(param, type_args)).0),
    {
        broadcast use crate::growth::group_adding;

        self.adds_nothing();
        reveal(State::argument_expectation);
    }

    pub broadcast proof fn adds_report_invalid_callee(
        self,
        callee: TypeIndex,
        block_like: bool,
        span: SourceSpan,
    )
        ensures
            self.only_adds(#[trigger] self.report_invalid_callee(callee, block_like, span)),
    {
        broadcast use crate::growth::group_adding;

        self.adds_nothing();
        reveal(State::report_invalid_callee);
    }

    pub broadcast proof fn adds_finish_cast(
        self,
        ctx: ExprContext,
        value: Expression,
        target: TypeIndex,
        span: TextSpan,
    )
        ensures
            self.only_adds((#[trigger] self.finish_cast(ctx, value, target, span)).0),
    {
        broadcast use crate::growth::group_adding;

        self.adds_nothing();
        reveal(State::finish_cast);
        if ty::is_comptime_number(value.ty) {
            self.adds_settle_literal(ctx, value, target);
        }
    }

    pub broadcast proof fn adds_cast_target(
        self,
        written: TypeIndex,
        expected: TypeIndex,
        span: SourceSpan,
    )
        ensures
            self.only_adds((#[trigger] self.cast_target(written, expected, span)).0),
    {
        broadcast use crate::growth::group_adding;

        self.adds_nothing();
        reveal(State::cast_target);
    }

    pub broadcast proof fn adds_finish_deref(
        self,
        context: ResolveContext,
        access_kind: AccessKind,
        pointer: Expression,
        span: TextSpan,
    )
        ensures
            self.only_adds((#[trigger] self.finish_deref(context, access_kind, pointer, span)).0),
    {
        broadcast use crate::growth::group_adding;

        self.adds_nothing();
        reveal(State::finish_deref);
        match self.ty(pointer.ty) {
            Type::Pointer { to, memory, mutable } => {
                self.adds_check_writable(access_kind, mutable, context.at(span));
            },
            _ => {},
        }
    }

    pub broadcast proof fn adds_finish_address_of(
        self,
        context: ResolveContext,
        operand: Expression,
        mutable: bool,
        span: TextSpan,
    )
        ensures
            self.only_adds(
                (#[trigger] self.finish_address_of(context, operand, mutable, span)).0,
            ),
    {
        broadcast use crate::growth::group_adding;

        self.adds_nothing();
        reveal(State::finish_address_of);
    }

    pub broadcast proof fn adds_build_name_expression(
        self,
        ctx: ExprContext,
        access: AccessContext,
        name: Symbol,
        span: TextSpan,
    )
        ensures
            self.only_adds((#[trigger] self.build_name_expression(ctx, access, name, span)).0),
    {
        broadcast use crate::growth::group_adding;

        self.adds_nothing();
        reveal(State::build_name_expression);
        match self.resolve_symbol(&ctx, name) {
            Some(resolved) => {
                self.adds_resolved_symbol_to_expression(ctx, access, resolved, span);
            },
            None => {},
        }
    }

    pub broadcast proof fn adds_build_char_expression(
        self,
        context: ResolveContext,
        raw: &String,
        span: TextSpan,
    )
        ensures
            self.only_adds((#[trigger] self.build_char_expression(context, raw, span)).0),
    {
        broadcast use crate::growth::group_adding;

        self.adds_nothing();
        reveal(State::build_char_expression);
    }

    pub broadcast proof fn adds_function_reference(
        self,
        func_index: usize,
        type_args: List<TypeIndex>,
        used_at: SourceSpan,
        span: TextSpan,
    )
        ensures
            self.only_adds(
                (#[trigger] self.function_reference(func_index, type_args, used_at, span)).0,
            ),
    {
        broadcast use crate::growth::group_adding;

        self.adds_nothing();
        reveal(State::function_reference);
    }

    pub broadcast proof fn adds_check_type_arg_count(
        self,
        expected: usize,
        found: usize,
        span: SourceSpan,
    )
        ensures
            self.only_adds(#[trigger] self.check_type_arg_count(expected, found, span)),
    {
        broadcast use crate::growth::group_adding;

        self.adds_nothing();
    }
}

} // verus!
