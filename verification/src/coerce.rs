//! Number literals take the type of their place.

use vstd::prelude::*;

use crate::ast::{BinaryOp, UnaryOp};
use crate::reports::{
    report_binary_expression_mistmatch, report_integer_literal_for_float_type,
    report_integer_literal_out_of_range, report_integer_literal_out_of_typeset_range,
    report_unable_to_coerce,
};
use crate::scope::ExprContext;
use crate::shape::{settled, spanned};
use crate::span::{DefId, FileId, SourceSpan, Spanned, Symbol, TextSpan};
use crate::state;
use crate::state::{vec_at, Builder, State};
use crate::tir::{ExprKind, Expression, IntegerRange, ItemIndex};
use crate::ty;
use crate::types::{TypeIndex, WasmScalar};

verus! {

/// The values that a literal of a scalar type can have; none where the type
/// takes no integer literal as such.
#[verifier::allow_in_spec]
pub fn literal_range(index: TypeIndex) -> (result: Option<IntegerRange>)
    returns
        (if index == ty::CHAR {
            Some(IntegerRange { min: 0, max: 0xffff_ffff })
        } else {
            IntegerRange::for_integer_type(index)
        }),
{
    if index == ty::CHAR {
        Some(IntegerRange { min: 0, max: 0xffff_ffff })
    } else {
        IntegerRange::for_integer_type(index)
    }
}

/// The integer types that bit operations on literals take.
#[verifier::allow_in_spec]
pub fn is_word(index: TypeIndex) -> (result: bool)
    returns
        index == ty::I32 || index == ty::I64 || index == ty::U32 || index == ty::U64,
{
    index == ty::I32 || index == ty::I64 || index == ty::U32 || index == ty::U64
}

impl<'ast> State<'ast> {
    /// The definition that carries a tag; the last one where several do. The
    /// search looks at the first `end` tagged items.
    pub open spec fn tagged_item(self, key: Symbol, end: usize) -> Option<DefId>
        decreases end,
    {
        if end == 0 {
            None
        } else {
            match state::seq_ref(self.tagged_items, (end - 1) as usize) {
                Some(item) => {
                    if item.key == key {
                        Some(item.id)
                    } else {
                        self.tagged_item(key, (end - 1) as usize)
                    }
                },
                None => self.tagged_item(key, (end - 1) as usize),
            }
        }
    }

    /// The typeset that carries a tag.
    pub open spec fn tagged_typeset(self, key: Symbol) -> Option<usize> {
        match self.tagged_item(key, (self.tagged_items.len() as usize)) {
            Some(id) => {
                match self.item(id) {
                    Some(ItemIndex::TypeSet(index)) => Some(index),
                    _ => None,
                }
            },
            None => None,
        }
    }

    /// Whether an integer literal lies in the range that all members of a
    /// typeset share; where it does not, that is reported.
    #[verifier::opaque]
    pub open spec fn check_typeset_range(
        self,
        typeset_index: usize,
        value: i64,
        span: SourceSpan,
    ) -> (State<'ast>, bool) {
        match state::seq_ref(self.typesets, typeset_index) {
            Some(typeset) => {
                let (name, range) = (typeset.name.inner, typeset.intersection_range);
                if !range.contains(value) {
                    let s = self.report(
                        report_integer_literal_out_of_typeset_range(value, name, range, span),
                    );
                    (s, false)
                } else {
                    (self, true)
                }
            },
            None => (self, true),
        }
    }

    /// Reports an integer literal that is no value of its type.
    #[verifier::opaque]
    pub open spec fn check_literal_range(
        self,
        index: TypeIndex,
        value: i64,
        span: SourceSpan,
    ) -> State<'ast> {
        match literal_range(index) {
            Some(range) => {
                if !range.contains(value) {
                    self.report(report_integer_literal_out_of_range(index, value, span))
                } else {
                    self
                }
            },
            None => self,
        }
    }

    /// Whether an integer literal takes a type. A value that an integer type or
    /// `char` does not have is reported, and the literal takes the type
    /// nevertheless. The address of a pointer is a literal of its memory's
    /// address type, or, for a memory that is not known, of all address types.
    #[verifier::opaque]
    pub open spec fn coerce_untyped_int_expr(
        self,
        file_id: FileId,
        value: i64,
        literal_span: TextSpan,
        target: TypeIndex,
    ) -> (State<'ast>, bool) {
        let span = SourceSpan::new(file_id, literal_span);
        if literal_range(target).is_some() {
            let s = self.check_literal_range(target, value, span);
            (s, true)
        } else {
            if target == ty::F32 || target == ty::F64 {
                let s = self.report(report_integer_literal_for_float_type(span));
                (s, false)
            } else {
                if self.is_pointer(target) {
                    match self.scalar(target) {
                        Some(WasmScalar::I32) => {
                            let s = self.check_literal_range(ty::U32, value, span);
                            (s, true)
                        },
                        Some(WasmScalar::I64) => {
                            let s = self.check_literal_range(ty::U64, value, span);
                            (s, true)
                        },
                        _ => {
                            match self.tagged_typeset(self.names.pointer_size) {
                                Some(typeset_index) => {
                                    self.check_typeset_range(typeset_index, value, span)
                                },
                                None => (self, true),
                            }
                        },
                    }
                } else {
                    match self.typeset_bound(target) {
                        Some(typeset_index) => {
                            self.check_typeset_range(typeset_index, value, span)
                        },
                        None => {
                            let s = self.report(report_unable_to_coerce(target, span));
                            (s, false)
                        },
                    }
                }
            }
        }
    }

    /// Whether a float literal takes a type.
    pub open spec fn coerce_untyped_float_expr(
        self,
        file_id: FileId,
        literal_span: TextSpan,
        target: TypeIndex,
    ) -> (State<'ast>, bool) {
        if target == ty::F32 || target == ty::F64 {
            (self, true)
        } else {
            let s = self.report(
                report_unable_to_coerce(target, SourceSpan::new(file_id, literal_span)),
            );
            (s, false)
        }
    }

    /// Whether a literal expression with an operator can take a type as a whole;
    /// where it cannot, that is reported.
    pub open spec fn check_operator_target(
        self,
        valid: bool,
        target: TypeIndex,
        span: SourceSpan,
    ) -> (State<'ast>, bool) {
        let s = if !valid {
            self.report(report_unable_to_coerce(target, span))
        } else {
            self
        };
        (s, valid)
    }

    /// Gives an expression of number literals a type: each literal in it takes
    /// the type, and so does the whole. The second result is false where it does
    /// not fit; that is reported then, or the expression was reported before.
    pub open spec fn coerce_untyped_expr(
        self,
        ctx: ExprContext,
        expr: Expression,
        target: TypeIndex,
    ) -> (State<'ast>, ExprContext, (Expression, bool))
        decreases expr,
    {
        let span = expr.span;
        let ty: TypeIndex = expr.ty;
        let file_id: FileId = ctx.resolve_context.file_id;
        match expr.kind {
            ExprKind::Int { value } => {
                let (s, fits) = self.coerce_untyped_int_expr(file_id, value, span, target);
                (s, ctx, settled(ExprKind::Int { value }, fits, target, ty, span))
            },
            ExprKind::Float { bits } => {
                let (s, fits) = self.coerce_untyped_float_expr(file_id, span, target);
                (s, ctx, settled(ExprKind::Float { bits }, fits, target, ty, span))
            },
            ExprKind::Unary { operator, operand } => {
                let is_number = operator.inner != UnaryOp::Not;
                let (s, valid) = self.check_operator_target(
                    is_number && (target == ty::I32 || target == ty::I64),
                    target,
                    SourceSpan::new(file_id, span),
                );
                if !valid {
                    (
                        s,
                        ctx,
                        (
                            Expression { kind: ExprKind::Unary { operator, operand }, ty, span },
                            false,
                        ),
                    )
                } else {
                    let (s, ctx, (operand, fits)) = s.coerce_untyped_expr(ctx, *operand, target);
                    (
                        s,
                        ctx,
                        settled(
                            ExprKind::Unary { operator, operand: Box::new(operand) },
                            fits,
                            target,
                            ty,
                            span,
                        ),
                    )
                }
            },
            ExprKind::Binary { operator, left, right } => {
                let is_valid = if operator.inner.is_arithmetic() {
                    ty::is_primitive(target)
                } else {
                    operator.inner.is_bitwise() && is_word(target)
                };
                let (s, valid) = self.check_operator_target(
                    is_valid,
                    target,
                    SourceSpan::new(file_id, span),
                );
                if !valid {
                    (
                        s,
                        ctx,
                        (
                            Expression {
                                kind: ExprKind::Binary { operator, left, right },
                                ty,
                                span,
                            },
                            false,
                        ),
                    )
                } else {
                    let (s, ctx, (left, left_fits)) = s.coerce_untyped_expr(ctx, *left, target);
                    let (s, ctx, (right, right_fits)) = s.coerce_untyped_expr(
                        ctx,
                        *right,
                        target,
                    );
                    (
                        s,
                        ctx,
                        settled(
                            ExprKind::Binary {
                                operator,
                                left: Box::new(left),
                                right: Box::new(right),
                            },
                            left_fits && right_fits,
                            target,
                            ty,
                            span,
                        ),
                    )
                }
            },
            ExprKind::Block { scope_index, expressions, result } => {
                match result {
                    Some(last) => {
                        let (s, ctx, (last, fits)) = self.coerce_untyped_expr(ctx, *last, target);
                        let ctx = if fits {
                            ctx.with_inferred(scope_index, target)
                        } else {
                            ctx
                        };
                        (
                            s,
                            ctx,
                            settled(
                                ExprKind::Block {
                                    scope_index,
                                    expressions,
                                    result: Some(Box::new(last)),
                                },
                                fits,
                                target,
                                ty,
                                span,
                            ),
                        )
                    },
                    None => {
                        (
                            self,
                            ctx,
                            (
                                Expression {
                                    kind: ExprKind::Block {
                                        scope_index,
                                        expressions,
                                        result: None,
                                    },
                                    ty,
                                    span,
                                },
                                false,
                            ),
                        )
                    },
                }
            },
            _ => (self, ctx, (expr, false)),
        }
    }

    /// Makes an operand fit a type: a number literal takes it, and for any other
    /// operand a type that does not go there is reported as a mismatch of the
    /// two sides. `None` where a literal does not fit.
    #[verifier::opaque]
    pub open spec fn fit_operand(
        self,
        ctx: ExprContext,
        operator: Spanned<BinaryOp>,
        target: Spanned<TypeIndex>,
        operand: Expression,
    ) -> (State<'ast>, ExprContext, Option<Expression>) {
        if ty::is_comptime_number(operand.ty) {
            let (s, ctx, (operand, fits)) = self.coerce_untyped_expr(ctx, operand, target.inner);
            if fits {
                (s, ctx, Some(operand))
            } else {
                (s, ctx, None)
            }
        } else {
            let (s, fits) = self.coercible(operand.ty, target.inner);
            let s = if !fits {
                s.report(
                    report_binary_expression_mistmatch(
                        operator.inner,
                        target,
                        spanned(operand.ty, operand.span),
                        ctx.resolve_context.file_id,
                    ),
                )
            } else {
                s
            };
            (s, ctx, Some(operand))
        }
    }
}

impl<'ast> Builder<'ast> {
    /// The definition that carries a tag; the last one where several do. The
    /// search looks at the first `end` tagged items.
    pub fn tagged_item(&self, key: Symbol, end: usize) -> (result: Option<DefId>)
        ensures
            result == self@.tagged_item(key, end),
        decreases end,
    {
        if end == 0 {
            return None;
        }
        match vec_at(&self.tagged_items, end - 1) {
            Some(item) => if item.key == key {
                Some(item.id)
            } else {
                self.tagged_item(key, end - 1)
            },
            None => self.tagged_item(key, end - 1),
        }
    }

    /// The typeset that carries a tag.
    pub fn tagged_typeset(&self, key: Symbol) -> (result: Option<usize>)
        ensures
            result == self@.tagged_typeset(key),
    {
        match self.tagged_item(key, self.tagged_items.len()) {
            Some(id) => match self.item(id) {
                Some(ItemIndex::TypeSet(index)) => Some(index),
                _ => None,
            },
            None => None,
        }
    }

    /// Whether an integer literal lies in the range that all members of a
    /// typeset share; where it does not, that is reported.
    pub fn check_typeset_range(
        &mut self,
        typeset_index: usize,
        value: i64,
        span: SourceSpan,
    ) -> (result: bool)
        ensures
            (final(self)@, result) == old(self)@.check_typeset_range(typeset_index, value, span),
    {
        proof {
            reveal(State::check_typeset_range);
        }
        let (name, range) = match vec_at(&self.typesets, typeset_index) {
            Some(typeset) => (typeset.name.inner, typeset.intersection_range),
            None => {
                return true;
            },
        };
        if !range.contains(value) {
            self.report(report_integer_literal_out_of_typeset_range(value, name, range, span));
            return false;
        }
        true
    }

    /// Reports an integer literal that is no value of its type.
    pub fn check_literal_range(&mut self, index: TypeIndex, value: i64, span: SourceSpan)
        ensures
            final(self)@ == old(self)@.check_literal_range(index, value, span),
    {
        proof {
            reveal(State::check_literal_range);
        }
        match literal_range(index) {
            Some(range) => {
                if !range.contains(value) {
                    self.report(report_integer_literal_out_of_range(index, value, span));
                }
            },
            None => {},
        }
    }

    /// Whether an integer literal takes a type. A value that an integer type or
    /// `char` does not have is reported, and the literal takes the type
    /// nevertheless. The address of a pointer is a literal of its memory's
    /// address type, or, for a memory that is not known, of all address types.
    pub fn coerce_untyped_int_expr(
        &mut self,
        file_id: FileId,
        value: i64,
        literal_span: TextSpan,
        target: TypeIndex,
    ) -> (result: bool)
        ensures
            (final(self)@, result) == old(self)@.coerce_untyped_int_expr(
                file_id,
                value,
                literal_span,
                target,
            ),
    {
        proof {
            reveal(State::coerce_untyped_int_expr);
        }
        let span = SourceSpan::new(file_id, literal_span);
        if literal_range(target).is_some() {
            self.check_literal_range(target, value, span);
            return true;
        }
        if target == ty::F32 || target == ty::F64 {
            self.report(report_integer_literal_for_float_type(span));
            return false;
        }
        if self.is_pointer(target) {
            match self.type_scalar(target) {
                Some(WasmScalar::I32) => {
                    self.check_literal_range(ty::U32, value, span);
                    true
                },
                Some(WasmScalar::I64) => {
                    self.check_literal_range(ty::U64, value, span);
                    true
                },
                _ => match self.tagged_typeset(self.names.pointer_size) {
                    Some(typeset_index) => self.check_typeset_range(typeset_index, value, span),
                    None => true,
                },
            }
        } else {
            match self.typeset_bound_for(target) {
                Some(typeset_index) => self.check_typeset_range(typeset_index, value, span),
                None => {
                    self.report(report_unable_to_coerce(target, span));
                    false
                },
            }
        }
    }

    /// Whether a float literal takes a type.
    pub fn coerce_untyped_float_expr(
        &mut self,
        file_id: FileId,
        literal_span: TextSpan,
        target: TypeIndex,
    ) -> (result: bool)
        ensures
            (final(self)@, result) == old(self)@.coerce_untyped_float_expr(
                file_id,
                literal_span,
                target,
            ),
    {
        if target == ty::F32 || target == ty::F64 {
            true
        } else {
            self.report(report_unable_to_coerce(target, SourceSpan::new(file_id, literal_span)));
            false
        }
    }

    /// Whether a literal expression with an operator can take a type as a whole;
    /// where it cannot, that is reported.
    pub fn check_operator_target(
        &mut self,
        valid: bool,
        target: TypeIndex,
        span: SourceSpan,
    ) -> (result: bool)
        ensures
            (final(self)@, result) == old(self)@.check_operator_target(valid, target, span),
    {
        if !valid {
            self.report(report_unable_to_coerce(target, span));
        }
        valid
    }

    /// Gives an expression of number literals a type: each literal in it takes
    /// the type, and so does the whole. The second result is false where it does
    /// not fit; that is reported then, or the expression was reported before.
    pub fn coerce_untyped_expr(
        &mut self,
        ctx: &mut ExprContext,
        expr: Expression,
        target: TypeIndex,
    ) -> (result: (Expression, bool))
        ensures
            (final(self)@, *final(ctx), result) == old(self)@.coerce_untyped_expr(
                *old(ctx),
                expr,
                target,
            ),
        decreases expr,
    {
        let span = expr.span;
        let ty: TypeIndex = expr.ty;
        let file_id: FileId = ctx.resolve_context.file_id;
        match expr.kind {
            ExprKind::Int { value } => {
                let fits = self.coerce_untyped_int_expr(file_id, value, span, target);
                settled(ExprKind::Int { value }, fits, target, ty, span)
            },
            ExprKind::Float { bits } => {
                let fits = self.coerce_untyped_float_expr(file_id, span, target);
                settled(ExprKind::Float { bits }, fits, target, ty, span)
            },
            ExprKind::Unary { operator, operand } => {
                let is_number = operator.inner != UnaryOp::Not;
                let valid = self.check_operator_target(
                    is_number && (target == ty::I32 || target == ty::I64),
                    target,
                    SourceSpan::new(file_id, span),
                );
                if !valid {
                    return (
                        Expression { kind: ExprKind::Unary { operator, operand }, ty, span },
                        false,
                    );
                }
                let (operand, fits) = self.coerce_untyped_expr(ctx, *operand, target);
                settled(
                    ExprKind::Unary { operator, operand: Box::new(operand) },
                    fits,
                    target,
                    ty,
                    span,
                )
            },
            ExprKind::Binary { operator, left, right } => {
                let is_valid = if operator.inner.is_arithmetic() {
                    ty::is_primitive(target)
                } else {
                    operator.inner.is_bitwise() && is_word(target)
                };
                let valid = self.check_operator_target(
                    is_valid,
                    target,
                    SourceSpan::new(file_id, span),
                );
                if !valid {
                    return (
                        Expression { kind: ExprKind::Binary { operator, left, right }, ty, span },
                        false,
                    );
                }
                let (left, left_fits) = self.coerce_untyped_expr(ctx, *left, target);
                let (right, right_fits) = self.coerce_untyped_expr(ctx, *right, target);
                settled(
                    ExprKind::Binary { operator, left: Box::new(left), right: Box::new(right) },
                    left_fits && right_fits,
                    target,
                    ty,
                    span,
                )
            },
            ExprKind::Block { scope_index, expressions, result } => match result {
                Some(last) => {
                    let (last, fits) = self.coerce_untyped_expr(ctx, *last, target);
                    if fits {
                        ctx.set_inferred_type(scope_index, target);
                    }
                    settled(
                        ExprKind::Block {
                            scope_index,
                            expressions,
                            result: Some(Box::new(last)),
                        },
                        fits,
                        target,
                        ty,
                        span,
                    )
                },
                None => (
                    Expression {
                        kind: ExprKind::Block { scope_index, expressions, result: None },
                        ty,
                        span,
                    },
                    false,
                ),
            },
            _ => (expr, false),
        }
    }

    /// Makes an operand fit a type: a number literal takes it, and for any other
    /// operand a type that does not go there is reported as a mismatch of the
    /// two sides. `None` where a literal does not fit.
    pub fn fit_operand(
        &mut self,
        ctx: &mut ExprContext,
        operator: Spanned<BinaryOp>,
        target: Spanned<TypeIndex>,
        operand: Expression,
    ) -> (result: Option<Expression>)
        ensures
            (final(self)@, *final(ctx), result) == old(self)@.fit_operand(
                *old(ctx),
                operator,
                target,
                operand,
            ),
    {
        proof {
            reveal(State::fit_operand);
        }
        if ty::is_comptime_number(operand.ty) {
            let (operand, fits) = self.coerce_untyped_expr(ctx, operand, target.inner);
            if fits {
                return Some(operand);
            }
            return None;
        }
        let fits = self.coercible_to(operand.ty, target.inner);
        if !fits {
            self.report(
                report_binary_expression_mistmatch(
                    operator.inner,
                    target,
                    spanned(operand.ty, operand.span),
                    ctx.resolve_context.file_id,
                ),
            );
        }
        Some(operand)
    }
}

} // verus!
