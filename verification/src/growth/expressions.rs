//! What `expressions` does to the state only adds to it.

use vstd::prelude::*;

use crate::ast;
use crate::ast::BinaryOp;
use crate::growth;
use crate::list::List;
use crate::operators::AssignmentTarget;
use crate::reports::report_binary_operator_cannot_be_applied;
use crate::scope::ExprContext;
use crate::shape::{accessing, reading, spanned};
use crate::span::{DefId, SourceSpan, Spanned};
use crate::state::State;
use crate::tir::{AccessContext, AccessKind};
use crate::ty;
use crate::types::{Type, TypeIndex};

verus! {

impl<'ast> State<'ast> {
    pub proof fn adds_string_memory(
        self,
        expected: TypeIndex,
        span: SourceSpan,
        pending: spec_fn(State<'ast>, DefId) -> State<'ast>,
    )
        requires
            growth::resolver_adds(pending),
        ensures
            self.only_adds(self.string_memory(expected, span, pending).0),
        decreases 5int, List::<usize>::Nil, 0int,
    {
        broadcast use crate::growth::group_finishing;

        self.adds_nothing();
        match self.ty(expected) {
            Type::Slice { of: _, memory, mutable: _ } => {},
            _ => {
                self.adds_resolve_ambient_memory(span, pending);
            },
        }
    }

    pub proof fn adds_build_expression(
        self,
        ctx: ExprContext,
        access: AccessContext,
        expr: &Spanned<ast::Expression>,
        pending: spec_fn(State<'ast>, DefId) -> State<'ast>,
    )
        requires
            growth::resolver_adds(pending),
        ensures
            self.only_adds(self.build_expression(ctx, access, expr, pending).0),
        decreases 8int, expr, 9int,
    {
        broadcast use crate::growth::group_finishing;

        self.adds_nothing();
        match &expr.inner {
            ast::Expression::Int { value } => {},
            ast::Expression::Float { bits } => {},
            ast::Expression::Unreachable => {},
            ast::Expression::True => {},
            ast::Expression::False => {},
            ast::Expression::Placeholder => {},
            ast::Expression::Error => {},
            ast::Expression::String { raw } => {
                let (s, symbol) = self.with_literal(raw);
                match symbol {
                    Some(symbol) => {
                        s.adds_string_memory(
                            access.expected_type,
                            ctx.resolve_context.at(expr.span),
                            pending,
                        );
                        let (s, memory) = s.string_memory(
                            access.expected_type,
                            ctx.resolve_context.at(expr.span),
                            pending,
                        );
                        match memory {
                            Some(memory) => {},
                            None => {},
                        }
                    },
                    None => {},
                }
            },
            ast::Expression::Char { raw } => {},
            ast::Expression::Path(path) => {
                self.adds_build_path_expression(ctx, access, path, expr.span, pending);
            },
            ast::Expression::Binary { .. } => {
                self.adds_build_binary_expression(ctx, access, expr, pending);
            },
            ast::Expression::Grouping { value } => {
                self.adds_build_expression(ctx, access, value, pending);
            },
            ast::Expression::Unary { operator, operand } => {
                self.adds_build_expression(ctx, reading(access.expected_type), operand, pending);
                let (s, ctx, built) = self.build_expression(
                    ctx,
                    reading(access.expected_type),
                    operand,
                    pending,
                );
                match built {
                    Some(built) => {},
                    None => {},
                }
            },
            ast::Expression::Call { .. } => {
                self.adds_build_call_expression(ctx, access, expr, pending);
            },
            ast::Expression::MethodCall { .. } => {
                self.adds_build_method_call_expression(ctx, access, expr, pending);
            },
            ast::Expression::ObjectAccess { object, member } => {
                self.adds_build_expression(ctx, access, object, pending);
                let (s, ctx, built) = self.build_expression(ctx, access, object, pending);
                match built {
                    Some(built) => {},
                    None => {},
                }
            },
            ast::Expression::Deref { pointer } => {
                self.adds_build_expression(ctx, reading(ty::INFER), pointer, pending);
                let (s, ctx, built) = self.build_expression(
                    ctx,
                    reading(ty::INFER),
                    pointer,
                    pending,
                );
                match built {
                    Some(built) => {},
                    None => {},
                }
            },
            ast::Expression::AddressOf { value, mut_span } => {
                self.adds_build_expression(ctx, reading(ty::INFER), value, pending);
                let (s, ctx, built) = self.build_expression(
                    ctx,
                    reading(ty::INFER),
                    value,
                    pending,
                );
                match built {
                    Some(built) => {},
                    None => {},
                }
            },
            ast::Expression::Return { .. } => {
                self.adds_build_return_expression(ctx, expr, pending);
            },
            ast::Expression::Block { statements } => {
                self.adds_build_scoped_block(
                    ctx,
                    statements,
                    expr.span,
                    None,
                    access.expected_type,
                    pending,
                );
            },
            ast::Expression::IfElse { .. } => {
                self.adds_build_if_else_expression(
                    ctx,
                    access.expected_type,
                    expr,
                    None,
                    pending,
                );
            },
            ast::Expression::Match { .. } => {
                self.adds_build_match_expression(ctx, access, expr, pending);
            },
            ast::Expression::Loop { .. } => {
                self.adds_build_loop_expression(ctx, access.expected_type, expr, None, pending);
            },
            ast::Expression::Cast { .. } => {
                self.adds_build_cast_expression(ctx, access, expr, pending);
            },
            ast::Expression::Break { .. } => {
                self.adds_build_break_expression(ctx, expr, pending);
            },
            ast::Expression::Continue { label } => {},
            ast::Expression::Label { .. } => {
                self.adds_build_label_expression(ctx, access, expr, pending);
            },
            ast::Expression::StructInit { .. } => {
                self.adds_build_struct_init_expression(ctx, access, expr, pending);
            },
            ast::Expression::Tuple { elements } => {
                self.adds_build_tuple_expression(ctx, access, elements, expr.span, pending);
            },
            ast::Expression::TypeApplication { callee, args: _ } => {
                self.adds_build_expression(ctx, reading(ty::INFER), callee, pending);
                let (s, ctx, built) = self.build_expression(
                    ctx,
                    reading(ty::INFER),
                    callee,
                    pending,
                );
                match built {
                    Some(built) => {},
                    None => {},
                }
            },
            ast::Expression::ArrayList { elements } => {
                self.adds_build_array_literal_expression(
                    ctx,
                    access,
                    elements,
                    expr.span,
                    pending,
                );
            },
            ast::Expression::ArrayRepeat { .. } => {
                self.adds_build_array_repeat_expression(ctx, access, expr, pending);
            },
            ast::Expression::Index { .. } => {
                self.adds_build_index_expression(ctx, access, expr, pending);
            },
            ast::Expression::SliceRange { .. } => {
                self.adds_build_slice_range_expression(ctx, expr, pending);
            },
        }
    }

    pub proof fn adds_build_cast_expression(
        self,
        ctx: ExprContext,
        access: AccessContext,
        expr: &Spanned<ast::Expression>,
        pending: spec_fn(State<'ast>, DefId) -> State<'ast>,
    )
        requires
            growth::resolver_adds(pending),
        ensures
            self.only_adds(self.build_cast_expression(ctx, access, expr, pending).0),
        decreases 8int, expr, 4int,
    {
        broadcast use crate::growth::group_finishing;

        self.adds_nothing();
        match &expr.inner {
            ast::Expression::Cast { value, ty: written } => {
                self.adds_resolve_type(ctx.resolve_context, ctx.scope, written, pending);
                let (s, cast_type) = self.resolve_type(
                    ctx.resolve_context,
                    ctx.scope,
                    written,
                    pending,
                );
                let (s, target) = s.cast_target(
                    cast_type,
                    access.expected_type,
                    ctx.resolve_context.at(expr.span),
                );
                match target {
                    Some(target) => {
                        s.adds_build_expression(
                            ctx,
                            AccessContext {
                                expected_type: target,
                                access_kind: access.access_kind,
                            },
                            value,
                            pending,
                        );
                        let (s, ctx, built) = s.build_expression(
                            ctx,
                            AccessContext {
                                expected_type: target,
                                access_kind: access.access_kind,
                            },
                            value,
                            pending,
                        );
                        match built {
                            Some(built) => {},
                            None => {},
                        }
                    },
                    None => {
                        s.adds_build_expression(ctx, access, value, pending);
                    },
                }
            },
            _ => {},
        }
    }

    pub proof fn adds_build_binary_expression(
        self,
        ctx: ExprContext,
        access: AccessContext,
        expr: &Spanned<ast::Expression>,
        pending: spec_fn(State<'ast>, DefId) -> State<'ast>,
    )
        requires
            growth::resolver_adds(pending),
        ensures
            self.only_adds(self.build_binary_expression(ctx, access, expr, pending).0),
        decreases 8int, expr, 6int,
    {
        broadcast use crate::growth::group_finishing;

        self.adds_nothing();
        match &expr.inner {
            ast::Expression::Binary { operator, .. } => {
                match operator.inner {
                    BinaryOp::Add
                    | BinaryOp::Sub
                    | BinaryOp::Mul
                    | BinaryOp::Div
                    | BinaryOp::Rem => {
                        self.adds_build_arithmetic_expr(ctx, access, expr, pending);
                    },
                    BinaryOp::Assign => {
                        self.adds_build_assignment_expr(ctx, expr, pending);
                    },
                    BinaryOp::AddAssign
                    | BinaryOp::SubAssign
                    | BinaryOp::MulAssign
                    | BinaryOp::DivAssign
                    | BinaryOp::RemAssign => {
                        self.adds_build_arithmetic_assignment_expr(ctx, expr, pending);
                    },
                    BinaryOp::Eq
                    | BinaryOp::NotEq
                    | BinaryOp::Less
                    | BinaryOp::LessEq
                    | BinaryOp::Greater
                    | BinaryOp::GreaterEq => {
                        self.adds_build_comparison_binary_expr(ctx, expr, pending);
                    },
                    BinaryOp::And | BinaryOp::Or => {
                        self.adds_build_logical_binary_expr(ctx, expr, pending);
                    },
                    BinaryOp::BitAnd
                    | BinaryOp::BitOr
                    | BinaryOp::BitXor
                    | BinaryOp::LeftShift
                    | BinaryOp::RightShift => {
                        self.adds_build_bitwise_binary_expr(ctx, access, expr, pending);
                    },
                }
            },
            _ => {},
        }
    }

    pub proof fn adds_build_arithmetic_expr(
        self,
        ctx: ExprContext,
        access: AccessContext,
        expr: &Spanned<ast::Expression>,
        pending: spec_fn(State<'ast>, DefId) -> State<'ast>,
    )
        requires
            growth::resolver_adds(pending),
        ensures
            self.only_adds(self.build_arithmetic_expr(ctx, access, expr, pending).0),
        decreases 8int, expr, 5int,
    {
        broadcast use crate::growth::group_finishing;

        self.adds_nothing();
        match &expr.inner {
            ast::Expression::Binary { operator, left, right } => {
                self.adds_build_expression(ctx, reading(access.expected_type), left, pending);
                let (s, ctx, left_expr) = self.build_expression(
                    ctx,
                    reading(access.expected_type),
                    left,
                    pending,
                );
                match left_expr {
                    Some(left_expr) => {
                        s.adds_build_expression(
                            ctx,
                            reading(s.right_expectation(left_expr.ty, access.expected_type)),
                            right,
                            pending,
                        );
                        let (s, ctx, right_expr) = s.build_expression(
                            ctx,
                            reading(s.right_expectation(left_expr.ty, access.expected_type)),
                            right,
                            pending,
                        );
                        match right_expr {
                            Some(right_expr) => {},
                            None => {},
                        }
                    },
                    None => {},
                }
            },
            _ => {},
        }
    }

    pub proof fn adds_build_bitwise_binary_expr(
        self,
        ctx: ExprContext,
        access: AccessContext,
        expr: &Spanned<ast::Expression>,
        pending: spec_fn(State<'ast>, DefId) -> State<'ast>,
    )
        requires
            growth::resolver_adds(pending),
        ensures
            self.only_adds(self.build_bitwise_binary_expr(ctx, access, expr, pending).0),
        decreases 8int, expr, 5int,
    {
        broadcast use crate::growth::group_finishing;

        self.adds_nothing();
        match &expr.inner {
            ast::Expression::Binary { operator, left, right } => {
                self.adds_build_expression(ctx, access, left, pending);
                let (s, ctx, left_expr) = self.build_expression(ctx, access, left, pending);
                match left_expr {
                    Some(left_expr) => {
                        let right_access = AccessContext {
                            expected_type: s.right_expectation(
                                left_expr.ty,
                                access.expected_type,
                            ),
                            access_kind: access.access_kind,
                        };
                        s.adds_build_expression(ctx, right_access, right, pending);
                        let (s, ctx, right_expr) = s.build_expression(
                            ctx,
                            right_access,
                            right,
                            pending,
                        );
                        match right_expr {
                            Some(right_expr) => {},
                            None => {},
                        }
                    },
                    None => {},
                }
            },
            _ => {},
        }
    }

    pub proof fn adds_build_comparison_binary_expr(
        self,
        ctx: ExprContext,
        expr: &Spanned<ast::Expression>,
        pending: spec_fn(State<'ast>, DefId) -> State<'ast>,
    )
        requires
            growth::resolver_adds(pending),
        ensures
            self.only_adds(self.build_comparison_binary_expr(ctx, expr, pending).0),
        decreases 8int, expr, 5int,
    {
        broadcast use crate::growth::group_finishing;

        self.adds_nothing();
        match &expr.inner {
            ast::Expression::Binary { operator, left, right } => {
                self.adds_build_expression(ctx, reading(ty::INFER), left, pending);
                let (s, ctx, left_expr) = self.build_expression(
                    ctx,
                    reading(ty::INFER),
                    left,
                    pending,
                );
                match left_expr {
                    Some(left_expr) => {
                        s.adds_build_expression(ctx, reading(left_expr.ty), right, pending);
                        let (s, ctx, right_expr) = s.build_expression(
                            ctx,
                            reading(left_expr.ty),
                            right,
                            pending,
                        );
                        match right_expr {
                            Some(right_expr) => {},
                            None => {},
                        }
                    },
                    None => {},
                }
            },
            _ => {},
        }
    }

    pub proof fn adds_build_logical_binary_expr(
        self,
        ctx: ExprContext,
        expr: &Spanned<ast::Expression>,
        pending: spec_fn(State<'ast>, DefId) -> State<'ast>,
    )
        requires
            growth::resolver_adds(pending),
        ensures
            self.only_adds(self.build_logical_binary_expr(ctx, expr, pending).0),
        decreases 8int, expr, 5int,
    {
        broadcast use crate::growth::group_finishing;

        self.adds_nothing();
        match &expr.inner {
            ast::Expression::Binary { operator, left, right } => {
                self.adds_build_expression(ctx, reading(ty::BOOL), left, pending);
                let (s, ctx, left_expr) = self.build_expression(
                    ctx,
                    reading(ty::BOOL),
                    left,
                    pending,
                );
                match left_expr {
                    Some(left_expr) => {
                        let s = s.check_logical_operand(
                            left_expr.ty,
                            ctx.resolve_context.at(left_expr.span),
                        );
                        s.adds_build_expression(ctx, reading(ty::BOOL), right, pending);
                        let (s, ctx, right_expr) = s.build_expression(
                            ctx,
                            reading(ty::BOOL),
                            right,
                            pending,
                        );
                        match right_expr {
                            Some(right_expr) => {},
                            None => {},
                        }
                    },
                    None => {},
                }
            },
            _ => {},
        }
    }

    pub proof fn adds_build_assignment_expr(
        self,
        ctx: ExprContext,
        expr: &Spanned<ast::Expression>,
        pending: spec_fn(State<'ast>, DefId) -> State<'ast>,
    )
        requires
            growth::resolver_adds(pending),
        ensures
            self.only_adds(self.build_assignment_expr(ctx, expr, pending).0),
        decreases 8int, expr, 5int,
    {
        broadcast use crate::growth::group_finishing;

        self.adds_nothing();
        match &expr.inner {
            ast::Expression::Binary { operator, left, right } => {
                self.adds_build_expression(ctx, accessing(AccessKind::Write), left, pending);
                let (s, ctx, left_expr) = self.build_expression(
                    ctx,
                    accessing(AccessKind::Write),
                    left,
                    pending,
                );
                match left_expr {
                    Some(left_expr) => {
                        match s.assignment_target(&ctx, &left_expr) {
                            AssignmentTarget::Variable(target) => {
                                s.adds_build_expression(ctx, reading(target), right, pending);
                                let (s, ctx, right_expr) = s.build_expression(
                                    ctx,
                                    reading(target),
                                    right,
                                    pending,
                                );
                                match right_expr {
                                    Some(right_expr) => {},
                                    None => {},
                                }
                            },
                            AssignmentTarget::Memory(target) => {
                                s.adds_build_expression(ctx, reading(target), right, pending);
                                let (s, ctx, right_expr) = s.build_expression(
                                    ctx,
                                    reading(target),
                                    right,
                                    pending,
                                );
                                match right_expr {
                                    Some(right_expr) => {},
                                    None => {},
                                }
                            },
                            AssignmentTarget::Placeholder => {
                                s.adds_build_expression(ctx, reading(ty::INFER), right, pending);
                                let (s, ctx, right_expr) = s.build_expression(
                                    ctx,
                                    reading(ty::INFER),
                                    right,
                                    pending,
                                );
                                match right_expr {
                                    Some(right_expr) => {},
                                    None => {},
                                }
                            },
                            AssignmentTarget::Poisoned => {
                                s.adds_build_expression(ctx, reading(ty::ERROR), right, pending);
                            },
                            AssignmentTarget::Invalid => {},
                        }
                    },
                    None => {},
                }
            },
            _ => {},
        }
    }

    pub proof fn adds_build_arithmetic_assignment_expr(
        self,
        ctx: ExprContext,
        expr: &Spanned<ast::Expression>,
        pending: spec_fn(State<'ast>, DefId) -> State<'ast>,
    )
        requires
            growth::resolver_adds(pending),
        ensures
            self.only_adds(self.build_arithmetic_assignment_expr(ctx, expr, pending).0),
        decreases 8int, expr, 5int,
    {
        broadcast use crate::growth::group_finishing;

        self.adds_nothing();
        match &expr.inner {
            ast::Expression::Binary { operator, left, right } => {
                self.adds_build_expression(ctx, accessing(AccessKind::ReadWrite), left, pending);
                let (s, ctx, left_expr) = self.build_expression(
                    ctx,
                    accessing(AccessKind::ReadWrite),
                    left,
                    pending,
                );
                match left_expr {
                    Some(left_expr) => {
                        match s.assignment_target(&ctx, &left_expr) {
                            AssignmentTarget::Variable(target)
                            | AssignmentTarget::Memory(target) => {
                                if !ty::is_primitive(target) {
                                    let s = s.report(
                                        report_binary_operator_cannot_be_applied(
                                            *operator,
                                            spanned(target, left_expr.span),
                                            ctx.resolve_context.file_id,
                                        ),
                                    );
                                } else {
                                    s.adds_build_expression(ctx, reading(target), right, pending);
                                    let (s, ctx, right_expr) = s.build_expression(
                                        ctx,
                                        reading(target),
                                        right,
                                        pending,
                                    );
                                    match right_expr {
                                        Some(right_expr) => {},
                                        None => {},
                                    }
                                }
                            },
                            _ => {},
                        }
                    },
                    None => {},
                }
            },
            _ => {},
        }
    }
}

} // verus!
