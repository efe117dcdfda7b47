//! Scopes: what a name, a label and `continue` lead to.

use wx_tir::list::{cons, single, List};
use wx_tir::scope::{new_block, ExprContext};
use wx_tir::span::{Spanned, Symbol, TextSpan};
use wx_tir::tir::{BlockKind, Local, ResolveContext};
use wx_tir::ty;

fn span() -> TextSpan {
    TextSpan { start: 0, end: 1 }
}

fn named(name: Symbol) -> Local {
    Local {
        name: Spanned { inner: name, span: span() },
        ty: ty::I32,
        mut_span: None,
        accesses: List::Nil,
    }
}

fn context() -> ExprContext {
    ExprContext::standalone(ResolveContext::new(0, None), span(), ty::UNIT)
}

fn enter(ctx: &mut ExprContext, label: Option<usize>, kind: BlockKind) -> usize {
    let parent = Some(ctx.scope_index);
    ctx.enter_block(new_block(parent, label, kind, span(), ty::UNIT))
}

#[test]
fn closest_loop_is_the_innermost() {
    let mut ctx = context();
    assert_eq!(ctx.get_closest_loop_block(), None);
    enter(&mut ctx, None, BlockKind::Loop);
    enter(&mut ctx, None, BlockKind::Block);
    assert_eq!(ctx.get_closest_loop_block(), Some(1));
    let outer = enter(&mut ctx, None, BlockKind::Loop);
    enter(&mut ctx, None, BlockKind::Block);
    assert_eq!(ctx.get_closest_loop_block(), Some(3));
    ctx.leave_block(outer);
    assert_eq!(ctx.get_closest_loop_block(), Some(1));
}

#[test]
fn label_leads_to_the_innermost_scope_that_carries_it() {
    let mut ctx = context();
    let name = Spanned { inner: 5, span: span() };
    let first = ctx.push_label(name);
    enter(&mut ctx, Some(first), BlockKind::Loop);
    assert_eq!(ctx.resolve_label(5), Some((1, first)));
    let second = ctx.push_label(name);
    let outer = enter(&mut ctx, Some(second), BlockKind::Block);
    assert_eq!(ctx.resolve_label(5), Some((2, second)));
    assert_eq!(ctx.resolve_label(6), None);
    ctx.leave_block(outer);
    assert_eq!(ctx.resolve_label(5), Some((1, first)));
}

#[test]
fn name_stands_for_the_innermost_local() {
    let mut ctx = context();
    assert_eq!(ctx.push_local(named(3)), 0);
    assert_eq!(ctx.push_local(named(3)), 1);
    assert_eq!(ctx.resolve_local(3), Some((0, 1)));
    let outer = enter(&mut ctx, None, BlockKind::Block);
    assert_eq!(ctx.resolve_local(3), Some((0, 1)));
    assert_eq!(ctx.push_local(named(3)), 0);
    assert_eq!(ctx.resolve_local(3), Some((1, 0)));
    ctx.leave_block(outer);
    assert_eq!(ctx.resolve_local(3), Some((0, 1)));
    assert_eq!(ctx.resolve_local(4), None);
}

/// Scope 0 lies in scope 1, which is a loop with the label 5 and the local 3.
fn scope_inside_a_later_one() -> ExprContext {
    let mut ctx = context();
    let label = ctx.push_label(Spanned { inner: 5, span: span() });
    let inner = new_block(Some(1), None, BlockKind::Block, span(), ty::UNIT);
    let mut outer = new_block(None, Some(label), BlockKind::Loop, span(), ty::UNIT);
    outer.locals = single(named(3));
    ctx.stack.scopes = cons(inner, single(outer));
    ctx.scope_index = 0;
    ctx
}

#[test]
fn scope_may_lie_in_a_later_one() {
    let ctx = scope_inside_a_later_one();
    assert_eq!(ctx.resolve_local(3), Some((1, 0)));
    assert_eq!(ctx.resolve_local(4), None);
    assert_eq!(ctx.resolve_label(5), Some((1, 0)));
    assert_eq!(ctx.resolve_label(6), None);
    assert_eq!(ctx.get_closest_loop_block(), Some(1));
}
