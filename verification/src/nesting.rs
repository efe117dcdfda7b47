//! What building an expression does to the context it is built in: it stays
//! in its scope, and no scope, local or label is lost.

use vstd::prelude::*;

use crate::list::List;
use crate::scope::{lemma_at_replaced, lemma_at_snoc, lemma_at_within, ExprContext};
use crate::span::{Spanned, Symbol, TextSpan};
use crate::state::State;
use crate::tir::{BlockScope, LabelInfo, Local, LocalAccess};
use crate::types::TypeIndex;

pub mod aggregates;
pub mod bindings;
pub mod blocks;
pub mod calls;
pub mod coerce;
pub mod control;
pub mod expressions;
pub mod generics;
pub mod operators;
pub mod paths;
pub mod resolve;
pub mod typing;

verus! {

/// Whether each local keeps its place, its name, its type and its right to be
/// written.
pub open spec fn locals_kept(earlier: List<Local>, later: List<Local>) -> bool {
    forall|i: nat|
        match #[trigger] earlier.at(i) {
            Some(local) => match later.at(i) {
                Some(kept) => kept.name == local.name && kept.ty == local.ty && kept.mut_span
                    == local.mut_span,
                None => false,
            },
            None => true,
        }
}

/// Whether a scope is still the same block with the same locals.
pub open spec fn scope_kept(earlier: BlockScope, later: BlockScope) -> bool {
    &&& later.parent == earlier.parent
    &&& later.label == earlier.label
    &&& later.kind == earlier.kind
    &&& later.span == earlier.span
    &&& later.expected_type == earlier.expected_type
    &&& locals_kept(earlier.locals, later.locals)
}

/// Whether each scope keeps its place.
pub open spec fn scopes_kept(earlier: List<BlockScope>, later: List<BlockScope>) -> bool {
    forall|i: nat|
        match #[trigger] earlier.at(i) {
            Some(scope) => match later.at(i) {
                Some(kept) => scope_kept(scope, kept),
                None => false,
            },
            None => true,
        }
}

/// Whether each label keeps its place and its name.
pub open spec fn labels_kept(earlier: List<LabelInfo>, later: List<LabelInfo>) -> bool {
    forall|i: nat|
        match #[trigger] earlier.at(i) {
            Some(label) => match later.at(i) {
                Some(kept) => kept.name == label.name,
                None => false,
            },
            None => true,
        }
}

/// Whether every scope comes after the one around it.
pub open spec fn scopes_nested(scopes: List<BlockScope>) -> bool {
    forall|i: nat|
        (#[trigger] scopes.at(i)) matches Some(scope) ==> (scope.parent matches Some(parent)
            ==> parent < i)
}

impl ExprContext {
    /// Whether the innermost scope is one of those that there are, and every
    /// scope comes after the one around it.
    pub open spec fn is_nested(self) -> bool {
        self.scope_index < self.stack.scopes.count() && scopes_nested(self.stack.scopes)
    }

    /// Whether a later context is of the same function and has everything that
    /// this one has, with its scopes nested where they were.
    #[verifier::opaque]
    pub open spec fn grows_into(self, later: ExprContext) -> bool {
        &&& later.resolve_context == self.resolve_context
        &&& later.scope == self.scope
        &&& scopes_kept(self.stack.scopes, later.stack.scopes)
        &&& labels_kept(self.stack.labels, later.stack.labels)
        &&& self.stack.scopes.count() <= later.stack.scopes.count()
        &&& self.is_nested() && later.stack.scopes.count() <= usize::MAX ==> later.is_nested()
    }

    /// Whether a later context is, besides, in the same scope.
    pub open spec fn stays_in_scope(self, later: ExprContext) -> bool {
        later.scope_index == self.scope_index && self.grows_into(later)
    }

    /// A context has everything that it has itself.
    pub proof fn grows_into_itself(self)
        ensures
            self.grows_into(self),
    {
        reveal(ExprContext::grows_into);
    }

    pub broadcast proof fn keeps_with_inferred(self, index: usize, ty: TypeIndex)
        ensures
            self.stays_in_scope(#[trigger] self.with_inferred(index, ty)),
    {
        reveal(ExprContext::grows_into);
        match self.scope_at(index) {
            Some(scope) => {
                replaced_scope_is_kept(
                    self.stack.scopes,
                    index as nat,
                    BlockScope { inferred_type: ty, ..scope },
                );
            },
            None => {},
        }
    }

    pub broadcast proof fn keeps_with_local(self, local: Local)
        ensures
            self.stays_in_scope(#[trigger] self.with_local(local)),
    {
        reveal(ExprContext::grows_into);
        match self.scope_at(self.scope_index) {
            Some(scope) => {
                assert forall|i: nat| #[trigger] scope.locals.at(i) is Some implies scope.locals.snoc(
                    local,
                ).at(i) == scope.locals.at(i) by {
                    lemma_at_snoc(scope.locals, local, i);
                    lemma_at_within(scope.locals, i);
                }
                replaced_scope_is_kept(
                    self.stack.scopes,
                    self.scope_index as nat,
                    BlockScope { locals: scope.locals.snoc(local), ..scope },
                );
            },
            None => {},
        }
    }

    pub broadcast proof fn keeps_with_local_access(
        self,
        scope_index: usize,
        local_index: usize,
        access: LocalAccess,
    )
        ensures
            self.stays_in_scope(
                #[trigger] self.with_local_access(scope_index, local_index, access),
            ),
    {
        reveal(ExprContext::grows_into);
        match self.scope_at(scope_index) {
            Some(scope) => match scope.locals.at(local_index as nat) {
                Some(local) => {
                    let used = Local { accesses: local.accesses.snoc(access), ..local };
                    let locals = scope.locals.replaced(local_index as nat, used);
                    assert forall|i: nat| #[trigger] scope.locals.at(i) is Some implies locals.at(i)
                        == if i == local_index {
                        Some(used)
                    } else {
                        scope.locals.at(i)
                    } by {
                        lemma_at_replaced(scope.locals, local_index as nat, used, i);
                    }
                    replaced_scope_is_kept(
                        self.stack.scopes,
                        scope_index as nat,
                        BlockScope { locals, ..scope },
                    );
                },
                None => {},
            },
            None => {},
        }
    }

    pub broadcast proof fn keeps_with_label(self, name: Spanned<Symbol>)
        ensures
            self.stays_in_scope(#[trigger] self.with_label(name)),
    {
        reveal(ExprContext::grows_into);
        let last = LabelInfo { name, accesses: List::Nil };
        assert forall|i: nat| #[trigger] self.stack.labels.at(i) is Some implies self.stack.labels.snoc(
            last,
        ).at(i) == self.stack.labels.at(i) by {
            lemma_at_snoc(self.stack.labels, last, i);
            lemma_at_within(self.stack.labels, i);
        }
    }

    pub broadcast proof fn keeps_with_label_access(self, index: usize, span: TextSpan)
        ensures
            self.stays_in_scope(#[trigger] self.with_label_access(index, span)),
    {
        reveal(ExprContext::grows_into);
        match self.stack.labels.at(index as nat) {
            Some(label) => {
                let used = LabelInfo { accesses: label.accesses.snoc(span), ..label };
                assert forall|i: nat| #[trigger] self.stack.labels.at(i) is Some implies
                    self.stack.labels.replaced(index as nat, used).at(i) == if i == index {
                    Some(used)
                } else {
                    self.stack.labels.at(i)
                } by {
                    lemma_at_replaced(self.stack.labels, index as nat, used, i);
                }
            },
            None => {},
        }
    }

    /// Inside a new scope everything that was there is still there.
    pub broadcast proof fn grows_into_entered(self, block: BlockScope)
        requires
            block.parent == Some(self.scope_index),
        ensures
            self.grows_into(#[trigger] self.entered(block)),
    {
        reveal(ExprContext::grows_into);
        let scopes = self.stack.scopes;
        lemma_at_snoc(scopes, block, 0);
        assert forall|i: nat| #[trigger] scopes.at(i) is Some implies scopes.snoc(block).at(i)
            == scopes.at(i) by {
            lemma_at_snoc(scopes, block, i);
            lemma_at_within(scopes, i);
        }
        assert(self.is_nested() ==> scopes_nested(scopes.snoc(block))) by {
            if self.is_nested() {
                assert forall|i: nat| (#[trigger] scopes.snoc(block).at(i)) matches Some(
                    scope,
                ) implies (scopes.snoc(block).at(i)->0.parent matches Some(parent) ==> parent < i) by {
                    lemma_at_snoc(scopes, block, i);
                    if i != scopes.count() {
                        assert(scopes.at(i) is Some);
                    }
                }
            }
        }
    }
}

/// Leaving a scope for the one that the context was in loses nothing.
pub broadcast proof fn law_leaving_keeps_everything(
    first: ExprContext,
    second: ExprContext,
    outer: usize,
)
    requires
        #[trigger] first.grows_into(second),
        outer == first.scope_index,
    ensures
        first.grows_into(#[trigger] second.left_to(outer)),
{
    reveal(ExprContext::grows_into);
}

proof fn replaced_scope_is_kept(scopes: List<BlockScope>, index: nat, scope: BlockScope)
    requires
        scopes.at(index) matches Some(earlier) && scope_kept(earlier, scope),
    ensures
        scopes_kept(scopes, scopes.replaced(index, scope)),
        scopes.replaced(index, scope).count() == scopes.count(),
        scopes_nested(scopes) ==> scopes_nested(scopes.replaced(index, scope)),
{
    lemma_at_replaced(scopes, index, scope, index);
    assert forall|i: nat| #[trigger] scopes.at(i) is Some implies scopes.replaced(index, scope).at(i)
        == if i == index {
        Some(scope)
    } else {
        scopes.at(i)
    } by {
        lemma_at_replaced(scopes, index, scope, i);
    }
    assert forall|i: nat|
        scopes_nested(scopes) && (#[trigger] scopes.replaced(index, scope).at(i)) is Some implies (
    scopes.replaced(index, scope).at(i)->0.parent matches Some(parent) ==> parent < i) by {
        lemma_at_replaced(scopes, index, scope, i);
        assert(scopes.at(i) is Some);
    }
}

/// What a context grows into in two steps it grows into.
pub broadcast proof fn law_growing_chains(
    first: ExprContext,
    second: ExprContext,
    third: ExprContext,
)
    requires
        #[trigger] first.grows_into(second),
        #[trigger] second.grows_into(third),
    ensures
        first.grows_into(third),
{
    reveal(ExprContext::grows_into);
    assert forall|i: nat| #[trigger] first.stack.scopes.at(i) is Some implies (
    third.stack.scopes.at(i) is Some && scope_kept(
        first.stack.scopes.at(i)->0,
        third.stack.scopes.at(i)->0,
    )) by {
        let earlier = first.stack.scopes.at(i)->0;
        let between = second.stack.scopes.at(i)->0;
        let later = third.stack.scopes.at(i)->0;
        assert(scope_kept(earlier, between));
        assert(scope_kept(between, later));
        assert forall|j: nat| #[trigger] earlier.locals.at(j) is Some implies (later.locals.at(
            j,
        ) is Some && later.locals.at(j)->0.name == earlier.locals.at(j)->0.name
            && later.locals.at(j)->0.ty == earlier.locals.at(j)->0.ty
            && later.locals.at(j)->0.mut_span == earlier.locals.at(j)->0.mut_span) by {
            assert(between.locals.at(j) is Some);
        }
    }
    assert forall|i: nat| #[trigger] first.stack.labels.at(i) is Some implies (
    third.stack.labels.at(i) is Some && third.stack.labels.at(i)->0.name
        == first.stack.labels.at(i)->0.name) by {
        assert(second.stack.labels.at(i) is Some);
    }
}

/// What the elementary operations keep.
pub broadcast group group_nesting {
    law_growing_chains,
    ExprContext::keeps_with_inferred,
    ExprContext::keeps_with_local,
    ExprContext::keeps_with_local_access,
    ExprContext::keeps_with_label,
    ExprContext::keeps_with_label_access,
    ExprContext::grows_into_entered,
    law_leaving_keeps_everything,
}

/// What the functions that need no other definition keep.
pub broadcast group group_staying {
    group_nesting,
    State::keeps_coerce_untyped_expr,
    State::keeps_fit_operand,
    State::keeps_finish_arithmetic,
    State::keeps_finish_bitwise,
    State::keeps_finish_comparison,
    State::keeps_finish_unary,
    State::keeps_fit_generic_argument,
    State::keeps_fit_generic_arguments,
    State::keeps_build_generic_call_arguments,
    State::keeps_resolved_symbol_to_expression,
    State::keeps_resolve_local_type,
    State::keeps_settle_literal,
    State::keeps_check_array_element,
    State::keeps_pattern_of_expression,
    State::keeps_settle_arm,
    State::keeps_unify_arms,
    State::keeps_finish_block_result,
    State::keeps_finish_expression_statement,
    State::keeps_settle_local,
    State::keeps_finish_loop,
    State::keeps_jump_target,
    State::keeps_build_continue_expression,
    State::keeps_settle_jump_value,
    State::keeps_finish_plain_break,
    State::keeps_finish_return,
    State::keeps_finish_plain_return,
    State::keeps_finish_if_else,
    State::keeps_finish_match,
    State::keeps_fit_field_value,
    State::keeps_settle_element,
    State::keeps_settle_index,
    State::keeps_settle_range_bound,
    State::keeps_settle_argument,
    State::keeps_finish_cast,
    State::keeps_build_name_expression,
    State::keeps_bind_name,
}

} // verus!
