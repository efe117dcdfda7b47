//! Block scopes of a function body: locals, labels and loops.

use vstd::prelude::*;

use crate::chains;
use crate::list;
use crate::list::{single, List};
use crate::span::{Spanned, Symbol, TextSpan};
use crate::tir::{
    BlockKind, BlockScope, GenericScope, LabelInfo, Local, LocalAccess, ResolveContext,
    StackFrame,
};
use crate::types::TypeIndex;

verus! {

/// Where in a function body an expression is built.
pub struct ExprContext {
    pub stack: StackFrame,
    /// The innermost scope.
    pub scope_index: usize,
    pub resolve_context: ResolveContext,
    pub scope: Option<GenericScope>,
}

/// The position of the last local of that name; a later definition shadows an
/// earlier one. Positions count from `from`.
pub open spec fn last_local_named(locals: List<Local>, name: Symbol, from: usize) -> Option<usize>
    decreases locals,
{
    match locals {
        List::Nil => None,
        List::Cons(head, tail) => match last_local_named(*tail, name, next_index(from)) {
            Some(later) => Some(later),
            None => if head.name.inner == name {
                Some(from)
            } else {
                None
            },
        },
    }
}

/// The index after `index`, as far as indices go.
#[verifier::allow_in_spec]
pub fn next_index(index: usize) -> (result: usize)
    returns
        (if index < usize::MAX {
            (index + 1) as usize
        } else {
            index
        }),
{
    if index < usize::MAX {
        index + 1
    } else {
        index
    }
}

fn find_last_local(locals: &List<Local>, name: Symbol, from: usize) -> (result: Option<usize>)
    ensures
        result == last_local_named(*locals, name, from),
    decreases locals,
{
    match locals {
        List::Nil => None,
        List::Cons(head, tail) => match find_last_local(tail, name, next_index(from)) {
            Some(later) => Some(later),
            None => if head.name.inner == name {
                Some(from)
            } else {
                None
            },
        },
    }
}

/// The local that a name stands for in a scope: the last one of that name
/// there, otherwise what it stands for in the enclosing scope. At most `steps`
/// scopes are looked at; a chain of enclosing scopes that ends has no more
/// than there are scopes.
pub open spec fn local_from(
    scopes: List<BlockScope>,
    index: usize,
    name: Symbol,
    steps: usize,
) -> Option<(usize, usize)>
    decreases steps,
{
    if steps == 0 {
        None
    } else {
        match scopes.at(index as nat) {
            Some(scope) => match last_local_named(scope.locals, name, 0) {
                Some(local) => Some((index, local)),
                None => match scope.parent {
                    Some(parent) => local_from(scopes, parent, name, (steps - 1) as usize),
                    None => None,
                },
            },
            None => None,
        }
    }
}

fn find_local(scopes: &List<BlockScope>, index: usize, name: Symbol, steps: usize) -> (result:
    Option<(usize, usize)>)
    ensures
        result == local_from(*scopes, index, name, steps),
    decreases steps,
{
    if steps == 0 {
        return None;
    }
    match scopes.get(index) {
        Some(scope) => match find_last_local(&scope.locals, name, 0) {
            Some(local) => Some((index, local)),
            None => match scope.parent {
                Some(parent) => find_local(scopes, parent, name, steps - 1),
                None => None,
            },
        },
        None => None,
    }
}

/// Whether the scope at an index carries a label of that name.
pub open spec fn carries_label(stack: StackFrame, index: usize, name: Symbol) -> bool {
    match stack.scopes.at(index as nat) {
        Some(scope) => match scope.label {
            Some(label) => match stack.labels.at(label as nat) {
                Some(info) => info.name.inner == name,
                None => false,
            },
            None => false,
        },
        None => false,
    }
}

/// The innermost scope that carries a label of that name, with the label. At
/// most `steps` scopes are looked at.
pub open spec fn label_from(stack: StackFrame, index: usize, name: Symbol, steps: usize) -> Option<
    (usize, usize),
>
    decreases steps,
{
    if steps == 0 {
        None
    } else {
        match stack.scopes.at(index as nat) {
            Some(scope) => if carries_label(stack, index, name) {
                Some((index, scope.label->0))
            } else {
                match scope.parent {
                    Some(parent) => label_from(stack, parent, name, (steps - 1) as usize),
                    None => None,
                }
            },
            None => None,
        }
    }
}

fn find_label(stack: &StackFrame, index: usize, name: Symbol, steps: usize) -> (result: Option<
    (usize, usize),
>)
    ensures
        result == label_from(*stack, index, name, steps),
    decreases steps,
{
    if steps == 0 {
        return None;
    }
    match stack.scopes.get(index) {
        Some(scope) => {
            match scope.label {
                Some(label) => match stack.labels.get(label) {
                    Some(info) => if info.name.inner == name {
                        return Some((index, label));
                    },
                    None => {},
                },
                None => {},
            }
            match scope.parent {
                Some(parent) => find_label(stack, parent, name, steps - 1),
                None => None,
            }
        },
        None => None,
    }
}

/// The innermost scope, from `index` outwards, that is a loop. At most `steps`
/// scopes are looked at.
pub open spec fn loop_from(scopes: List<BlockScope>, index: usize, steps: usize) -> Option<usize>
    decreases steps,
{
    if steps == 0 {
        None
    } else {
        match scopes.at(index as nat) {
            Some(scope) => if scope.kind == BlockKind::Loop {
                Some(index)
            } else {
                match scope.parent {
                    Some(parent) => loop_from(scopes, parent, (steps - 1) as usize),
                    None => None,
                }
            },
            None => None,
        }
    }
}

fn find_loop(scopes: &List<BlockScope>, index: usize, steps: usize) -> (result: Option<usize>)
    ensures
        result == loop_from(*scopes, index, steps),
    decreases steps,
{
    if steps == 0 {
        return None;
    }
    match scopes.get(index) {
        Some(scope) => if scope.kind == BlockKind::Loop {
            Some(index)
        } else {
            match scope.parent {
                Some(parent) => find_loop(scopes, parent, steps - 1),
                None => None,
            }
        },
        None => None,
    }
}

/// A scope that nothing has been inferred of yet.
#[verifier::allow_in_spec]
pub fn new_block(
    parent: Option<usize>,
    label: Option<usize>,
    kind: BlockKind,
    span: TextSpan,
    expected_type: TypeIndex,
) -> (result: BlockScope)
    returns
        (BlockScope {
            parent,
            label,
            kind,
            span,
            locals: List::Nil,
            inferred_type: crate::ty::INFER,
            expected_type,
        }),
{
    BlockScope {
        parent,
        label,
        kind,
        span,
        locals: List::Nil,
        inferred_type: crate::ty::INFER,
        expected_type,
    }
}

impl ExprContext {
    /// The context of an expression outside of any function.
    #[verifier::allow_in_spec]
    pub fn standalone(
        resolve_context: ResolveContext,
        span: TextSpan,
        expected_type: TypeIndex,
    ) -> (result: ExprContext)
        returns
            (ExprContext {
                stack: StackFrame {
                    scopes: single(new_block(None, None, BlockKind::Block, span, expected_type)),
                    labels: List::Nil,
                },
                scope_index: 0,
                resolve_context,
                scope: None,
            }),
    {
        ExprContext {
            stack: StackFrame {
                scopes: single(new_block(None, None, BlockKind::Block, span, expected_type)),
                labels: List::Nil,
            },
            scope_index: 0,
            resolve_context,
            scope: None,
        }
    }

    /// The scope at an index.
    pub open spec fn scope_at(self, index: usize) -> Option<BlockScope> {
        self.stack.scopes.at(index as nat)
    }

    /// The type inferred so far for a scope.
    pub open spec fn inferred(self, index: usize) -> TypeIndex {
        match self.scope_at(index) {
            Some(scope) => scope.inferred_type,
            None => crate::ty::ERROR,
        }
    }

    /// The type expected of a scope.
    pub open spec fn expected(self, index: usize) -> TypeIndex {
        match self.scope_at(index) {
            Some(scope) => scope.expected_type,
            None => crate::ty::ERROR,
        }
    }

    /// The context with another inferred type for a scope.
    pub open spec fn with_inferred(self, index: usize, ty: TypeIndex) -> ExprContext {
        match self.scope_at(index) {
            Some(scope) => ExprContext {
                stack: StackFrame {
                    scopes: self.stack.scopes.replaced(
                        index as nat,
                        BlockScope { inferred_type: ty, ..scope },
                    ),
                    ..self.stack
                },
                ..self
            },
            None => self,
        }
    }

    /// The context after a local is defined in the innermost scope.
    pub open spec fn with_local(self, local: Local) -> ExprContext {
        match self.scope_at(self.scope_index) {
            Some(scope) => ExprContext {
                stack: StackFrame {
                    scopes: self.stack.scopes.replaced(
                        self.scope_index as nat,
                        BlockScope { locals: scope.locals.snoc(local), ..scope },
                    ),
                    ..self.stack
                },
                ..self
            },
            None => self,
        }
    }

    /// The index that the next local of the innermost scope gets.
    pub open spec fn next_local(self) -> usize {
        match self.scope_at(self.scope_index) {
            Some(scope) => list::clamp(scope.locals.count()),
            None => 0,
        }
    }

    /// The local at a position of a scope.
    pub open spec fn local_at(self, scope_index: usize, local_index: usize) -> Option<Local> {
        match self.scope_at(scope_index) {
            Some(scope) => scope.locals.at(local_index as nat),
            None => None,
        }
    }

    /// The scope and the index there of the local that a name stands for.
    pub open spec fn local_named(self, symbol: Symbol) -> Option<(usize, usize)> {
        local_from(self.stack.scopes, self.scope_index, symbol, self.stack.scopes.len())
    }

    /// The innermost scope that carries a label of that name, with the label.
    pub open spec fn label_named(self, symbol: Symbol) -> Option<(usize, usize)> {
        label_from(self.stack, self.scope_index, symbol, self.stack.scopes.len())
    }

    /// The innermost scope that is a loop.
    pub open spec fn closest_loop(self) -> Option<usize> {
        loop_from(self.stack.scopes, self.scope_index, self.stack.scopes.len())
    }

    /// The context after a use of a local.
    pub open spec fn with_local_access(
        self,
        scope_index: usize,
        local_index: usize,
        access: LocalAccess,
    ) -> ExprContext {
        match self.scope_at(scope_index) {
            Some(scope) => match scope.locals.at(local_index as nat) {
                Some(local) => ExprContext {
                    stack: StackFrame {
                        scopes: self.stack.scopes.replaced(
                            scope_index as nat,
                            BlockScope {
                                locals: scope.locals.replaced(
                                    local_index as nat,
                                    Local { accesses: local.accesses.snoc(access), ..local },
                                ),
                                ..scope
                            },
                        ),
                        ..self.stack
                    },
                    ..self
                },
                None => self,
            },
            None => self,
        }
    }

    /// The context inside a new innermost scope.
    pub open spec fn entered(self, block: BlockScope) -> ExprContext {
        ExprContext {
            scope_index: list::clamp(self.stack.scopes.count()),
            stack: StackFrame { scopes: self.stack.scopes.snoc(block), ..self.stack },
            ..self
        }
    }

    /// The context after the innermost scope is left for `outer`.
    pub open spec fn left_to(self, outer: usize) -> ExprContext {
        ExprContext { scope_index: outer, ..self }
    }

    /// The context after a label is declared.
    pub open spec fn with_label(self, name: Spanned<Symbol>) -> ExprContext {
        ExprContext {
            stack: StackFrame {
                labels: self.stack.labels.snoc(LabelInfo { name, accesses: List::Nil }),
                ..self.stack
            },
            ..self
        }
    }

    /// The index that the next label gets.
    pub open spec fn next_label(self) -> usize {
        list::clamp(self.stack.labels.count())
    }

    /// The context after a use of a label.
    pub open spec fn with_label_access(self, index: usize, span: TextSpan) -> ExprContext {
        match self.stack.labels.at(index as nat) {
            Some(label) => ExprContext {
                stack: StackFrame {
                    labels: self.stack.labels.replaced(
                        index as nat,
                        LabelInfo { accesses: label.accesses.snoc(span), ..label },
                    ),
                    ..self.stack
                },
                ..self
            },
            None => self,
        }
    }

    /// Defines a local in the innermost scope and gives its index there.
    pub fn push_local(&mut self, local: Local) -> (result: usize)
        ensures
            *final(self) == old(self).with_local(local),
            result == old(self).next_local(),
    {
        let index: usize = self.scope_index;
        match self.stack.scopes.get_mut(index) {
            Some(scope) => {
                let result: usize = scope.locals.len();
                scope.locals.append(local);
                result
            },
            None => 0,
        }
    }

    /// The scope and the index there of the local that a name stands for.
    pub fn resolve_local(&self, symbol: Symbol) -> (result: Option<(usize, usize)>)
        ensures
            result == self.local_named(symbol),
    {
        find_local(&self.stack.scopes, self.scope_index, symbol, self.stack.scopes.len())
    }

    /// Enters a new innermost scope and gives the scope to return to.
    pub fn enter_block(&mut self, block: BlockScope) -> (outer: usize)
        ensures
            *final(self) == old(self).entered(block),
            outer == old(self).scope_index,
    {
        let outer: usize = self.scope_index;
        self.scope_index = self.stack.scopes.len();
        self.stack.scopes.append(block);
        outer
    }

    /// Leaves the innermost scope for `outer`.
    pub fn leave_block(&mut self, outer: usize)
        ensures
            *final(self) == old(self).left_to(outer),
    {
        self.scope_index = outer;
    }

    /// The innermost scope that carries a label of that name, with the label.
    pub fn resolve_label(&self, symbol: Symbol) -> (result: Option<(usize, usize)>)
        ensures
            result == self.label_named(symbol),
    {
        find_label(&self.stack, self.scope_index, symbol, self.stack.scopes.len())
    }

    /// The innermost scope that is a loop.
    pub fn get_closest_loop_block(&self) -> (result: Option<usize>)
        ensures
            result == self.closest_loop(),
    {
        find_loop(&self.stack.scopes, self.scope_index, self.stack.scopes.len())
    }

    pub fn inferred_type(&self, index: usize) -> (result: TypeIndex)
        ensures
            result == self.inferred(index),
    {
        match self.stack.scopes.get(index) {
            Some(scope) => scope.inferred_type,
            None => crate::ty::ERROR,
        }
    }

    pub fn expected_type(&self, index: usize) -> (result: TypeIndex)
        ensures
            result == self.expected(index),
    {
        match self.stack.scopes.get(index) {
            Some(scope) => scope.expected_type,
            None => crate::ty::ERROR,
        }
    }

    pub fn set_inferred_type(&mut self, index: usize, ty: TypeIndex)
        ensures
            *final(self) == old(self).with_inferred(index, ty),
    {
        match self.stack.scopes.get_mut(index) {
            Some(scope) => {
                scope.inferred_type = ty;
            },
            None => {},
        }
    }

    /// The type and the mutability of a local.
    pub fn local(&self, scope_index: usize, local_index: usize) -> (result: Option<&Local>)
        ensures
            match result {
                Some(local) => self.local_at(scope_index, local_index) == Some(*local),
                None => self.local_at(scope_index, local_index) is None,
            },
    {
        match self.stack.scopes.get(scope_index) {
            Some(scope) => scope.locals.get(local_index),
            None => None,
        }
    }

    pub fn record_local_access(
        &mut self,
        scope_index: usize,
        local_index: usize,
        access: LocalAccess,
    )
        ensures
            *final(self) == old(self).with_local_access(scope_index, local_index, access),
    {
        match self.stack.scopes.get_mut(scope_index) {
            Some(scope) => match scope.locals.get_mut(local_index) {
                Some(local) => {
                    local.accesses.append(access);
                },
                None => {
                    proof {
                        lemma_replaced_same(old(self).stack.scopes, scope_index as nat);
                    }
                },
            },
            None => {},
        }
    }

    /// Declares a label and gives its index.
    pub fn push_label(&mut self, name: Spanned<Symbol>) -> (result: usize)
        ensures
            *final(self) == old(self).with_label(name),
            result == old(self).next_label(),
    {
        let index: usize = self.stack.labels.len();
        self.stack.labels.append(LabelInfo { name, accesses: List::Nil });
        index
    }

    pub fn record_label_access(&mut self, index: usize, span: TextSpan)
        ensures
            *final(self) == old(self).with_label_access(index, span),
    {
        match self.stack.labels.get_mut(index) {
            Some(label) => {
                label.accesses.append(span);
            },
            None => {},
        }
    }
}

/// Putting back an element that is there changes nothing.
pub proof fn lemma_replaced_same<T>(list: List<T>, index: nat)
    requires
        list.at(index) is Some,
    ensures
        list.replaced(index, list.at(index)->0) == list,
    decreases list,
{
    match list {
        List::Nil => {},
        List::Cons(_, tail) => if index > 0 {
            lemma_replaced_same(*tail, (index - 1) as nat);
        },
    }
}

/// The elements of a list after one is appended.
pub proof fn lemma_at_snoc<T>(list: List<T>, last: T, index: nat)
    ensures
        list.snoc(last).at(index) == if index == list.count() {
            Some(last)
        } else {
            list.at(index)
        },
        list.snoc(last).count() == list.count() + 1,
    decreases list,
{
    match list {
        List::Nil => {
            reveal_with_fuel(List::at, 2);
            reveal_with_fuel(List::count, 2);
        },
        List::Cons(_, tail) => {
            lemma_at_snoc(*tail, last, (index - 1) as nat);
            if index == 0 {
                lemma_at_snoc(*tail, last, 0);
            }
        },
    }
}

/// The elements of a list after one is replaced.
pub proof fn lemma_at_replaced<T>(list: List<T>, place: nat, value: T, index: nat)
    ensures
        list.replaced(place, value).at(index) == if index == place && list.at(place) is Some {
            Some(value)
        } else {
            list.at(index)
        },
        list.replaced(place, value).count() == list.count(),
    decreases list,
{
    match list {
        List::Nil => {},
        List::Cons(_, tail) => {
            if place > 0 {
                lemma_at_replaced(*tail, (place - 1) as nat, value, (index - 1) as nat);
                if index == 0 {
                    lemma_at_replaced(*tail, (place - 1) as nat, value, 0);
                }
            }
        },
    }
}

/// A list has an element at each position below its length.
pub proof fn lemma_at_within<T>(list: List<T>, index: nat)
    ensures
        (list.at(index) is Some) == (index < list.count()),
    decreases list,
{
    match list {
        List::Nil => {},
        List::Cons(_, tail) => if index > 0 {
            lemma_at_within(*tail, (index - 1) as nat);
        },
    }
}

proof fn lemma_last_local_snoc(locals: List<Local>, local: Local, from: usize)
    requires
        from + locals.count() <= usize::MAX,
    ensures
        last_local_named(locals.snoc(local), local.name.inner, from) == Some(
            (from + locals.count()) as usize,
        ),
    decreases locals,
{
    match locals {
        List::Nil => {
            reveal_with_fuel(last_local_named, 2);
        },
        List::Cons(_, tail) => {
            lemma_last_local_snoc(*tail, local, next_index(from));
        },
    }
}

/// A local that was just defined is what its name stands for, whatever the
/// name stood for before.
pub proof fn law_new_local_shadows(ctx: ExprContext, local: Local)
    requires
        ctx.scope_at(ctx.scope_index) is Some,
        ctx.scope_at(ctx.scope_index)->0.locals.count() <= usize::MAX,
    ensures
        ctx.with_local(local).local_named(local.name.inner) == Some(
            (ctx.scope_index, ctx.next_local()),
        ),
        ctx.with_local(local).local_at(ctx.scope_index, ctx.next_local()) == Some(local),
{
    let scope = ctx.scope_at(ctx.scope_index)->0;
    lemma_at_replaced(
        ctx.stack.scopes,
        ctx.scope_index as nat,
        BlockScope { locals: scope.locals.snoc(local), ..scope },
        ctx.scope_index as nat,
    );
    lemma_at_within(ctx.stack.scopes, ctx.scope_index as nat);
    lemma_last_local_snoc(scope.locals, local, 0);
    lemma_at_snoc(scope.locals, local, scope.locals.count());
}

/// A new scope finds the locals of the scope it is entered from.
pub proof fn law_inner_scope_sees_outer_locals(ctx: ExprContext, block: BlockScope, name: Symbol)
    requires
        block.parent == Some(ctx.scope_index),
        block.locals == List::<Local>::Nil,
        parents_in_range(ctx.stack.scopes),
        ctx.scope_at(ctx.scope_index) is Some,
        ctx.stack.scopes.count() < usize::MAX,
    ensures
        ctx.entered(block).local_named(name) == ctx.local_named(name),
{
    let count = ctx.stack.scopes.count();
    lemma_at_within(ctx.stack.scopes, ctx.scope_index as nat);
    lemma_at_snoc(ctx.stack.scopes, block, count);
    assert(last_local_named(block.locals, name, 0) is None);
    lemma_local_from_snoc(ctx.stack.scopes, block, ctx.scope_index, name, count as usize);
}

/// Whether the parent of every scope is a scope.
pub open spec fn parents_in_range(scopes: List<BlockScope>) -> bool {
    forall|index: nat|
        (#[trigger] scopes.at(index)) matches Some(scope) ==> (scope.parent matches Some(parent)
            ==> parent < scopes.count())
}

proof fn lemma_local_from_snoc(
    scopes: List<BlockScope>,
    block: BlockScope,
    index: usize,
    name: Symbol,
    steps: usize,
)
    requires
        index < scopes.count(),
        parents_in_range(scopes),
    ensures
        local_from(scopes.snoc(block), index, name, steps) == local_from(
            scopes,
            index,
            name,
            steps,
        ),
    decreases steps,
{
    lemma_at_snoc(scopes, block, index as nat);
    if steps > 0 {
        match scopes.at(index as nat) {
            Some(scope) => match scope.parent {
                Some(parent) => {
                    lemma_local_from_snoc(scopes, block, parent, name, (steps - 1) as usize);
                },
                None => {},
            },
            None => {},
        }
    }
}

/// Leaving a scope that was entered leads back to where it was entered, with
/// the outer scopes as they were.
pub proof fn law_leaving_restores_scope(ctx: ExprContext, block: BlockScope, index: usize)
    requires
        index < ctx.stack.scopes.count(),
    ensures
        ctx.entered(block).left_to(ctx.scope_index).scope_index == ctx.scope_index,
        ctx.entered(block).left_to(ctx.scope_index).scope_at(index) == ctx.scope_at(index),
{
    lemma_at_snoc(ctx.stack.scopes, block, index as nat);
}

/// The scope around each scope.
pub open spec fn scope_parents(scopes: List<BlockScope>) -> spec_fn(usize) -> Option<usize> {
    |index: usize| match scopes.at(index as nat) {
        Some(scope) => scope.parent,
        None => None,
    }
}

/// Whether the scopes around a scope come to an end, all of them there.
pub open spec fn scopes_end(scopes: List<BlockScope>, index: usize) -> bool {
    chains::chain_ends(scope_parents(scopes), scopes.count(), index)
}

/// Whether a scope is the innermost one that meets a test, of a scope and
/// those around it.
pub open spec fn is_innermost(
    scopes: List<BlockScope>,
    index: usize,
    test: spec_fn(usize) -> bool,
    found: usize,
) -> bool {
    chains::is_first_where(scope_parents(scopes), scopes.count(), index, test, found)
}

/// Whether neither a scope nor one around it meets a test.
pub open spec fn is_nowhere(
    scopes: List<BlockScope>,
    index: usize,
    test: spec_fn(usize) -> bool,
) -> bool {
    chains::none_where(scope_parents(scopes), scopes.count(), index, test)
}

/// Whether the scope at an index is a loop.
pub open spec fn is_loop(scopes: List<BlockScope>, index: usize) -> bool {
    match scopes.at(index as nat) {
        Some(scope) => scope.kind == BlockKind::Loop,
        None => false,
    }
}

proof fn loop_search_is_a_search(scopes: List<BlockScope>, index: usize, steps: usize)
    ensures
        loop_from(scopes, index, steps) == chains::first_where(
            scope_parents(scopes),
            scopes.count(),
            index,
            steps as nat,
            |scope: usize| is_loop(scopes, scope),
        ),
    decreases steps,
{
    lemma_at_within(scopes, index as nat);
    if steps > 0 {
        match scopes.at(index as nat) {
            Some(scope) => match scope.parent {
                Some(parent) => {
                    loop_search_is_a_search(scopes, parent, (steps - 1) as usize);
                },
                None => {},
            },
            None => {},
        }
    }
}

/// The loop that `continue` leads to is the innermost one around the code;
/// there is none exactly where no scope around the code is a loop.
pub proof fn law_closest_loop_is_innermost(ctx: ExprContext)
    requires
        ctx.stack.scopes.count() <= usize::MAX,
        scopes_end(ctx.stack.scopes, ctx.scope_index),
    ensures
        ({
            let scopes = ctx.stack.scopes;
            let test = |scope: usize| is_loop(scopes, scope);
            match ctx.closest_loop() {
                Some(found) => is_innermost(scopes, ctx.scope_index, test, found),
                None => is_nowhere(scopes, ctx.scope_index, test),
            }
        }),
{
    let scopes = ctx.stack.scopes;
    let test = |scope: usize| is_loop(scopes, scope);
    loop_search_is_a_search(scopes, ctx.scope_index, scopes.len());
    chains::law_search_finds_the_first(
        scope_parents(scopes),
        scopes.count(),
        ctx.scope_index,
        scopes.len() as nat,
        test,
    );
}

proof fn label_search_is_a_search(
    stack: StackFrame,
    index: usize,
    name: Symbol,
    steps: usize,
)
    ensures
        ({
            let found = chains::first_where(
                scope_parents(stack.scopes),
                stack.scopes.count(),
                index,
                steps as nat,
                |scope: usize| carries_label(stack, scope, name),
            );
            label_from(stack, index, name, steps) == match found {
                Some(scope) => Some((scope, stack.scopes.at(scope as nat)->0.label->0)),
                None => None,
            }
        }),
    decreases steps,
{
    lemma_at_within(stack.scopes, index as nat);
    if steps > 0 {
        match stack.scopes.at(index as nat) {
            Some(scope) => match scope.parent {
                Some(parent) => {
                    label_search_is_a_search(stack, parent, name, (steps - 1) as usize);
                },
                None => {},
            },
            None => {},
        }
    }
}

/// The scope that a label leads to is the innermost one around the code that
/// carries a label of that name; there is none exactly where no scope around
/// the code does.
pub proof fn law_label_is_innermost(ctx: ExprContext, name: Symbol)
    requires
        ctx.stack.scopes.count() <= usize::MAX,
        scopes_end(ctx.stack.scopes, ctx.scope_index),
    ensures
        ({
            let stack = ctx.stack;
            let test = |scope: usize| carries_label(stack, scope, name);
            match ctx.label_named(name) {
                Some((found, label)) => {
                    &&& is_innermost(stack.scopes, ctx.scope_index, test, found)
                    &&& stack.scopes.at(found as nat) matches Some(scope) && scope.label == Some(
                        label,
                    )
                },
                None => is_nowhere(stack.scopes, ctx.scope_index, test),
            }
        }),
{
    let stack = ctx.stack;
    let test = |scope: usize| carries_label(stack, scope, name);
    label_search_is_a_search(stack, ctx.scope_index, name, stack.scopes.len());
    chains::law_search_finds_the_first(
        scope_parents(stack.scopes),
        stack.scopes.count(),
        ctx.scope_index,
        stack.scopes.len() as nat,
        test,
    );
    match ctx.label_named(name) {
        Some((found, _)) => {
            assert(carries_label(stack, found, name));
        },
        None => {},
    }
}

/// Whether the local at a position has that name.
pub open spec fn has_name(locals: List<Local>, index: nat, name: Symbol) -> bool {
    match locals.at(index) {
        Some(local) => local.name.inner == name,
        None => false,
    }
}

/// Whether the scope at an index has a local of that name.
pub open spec fn binds(scopes: List<BlockScope>, index: usize, name: Symbol) -> bool {
    match scopes.at(index as nat) {
        Some(scope) => exists|local: nat| #[trigger] has_name(scope.locals, local, name),
        None => false,
    }
}

/// Whether a local is the last one of its name in its scope.
pub open spec fn is_last_named(
    scopes: List<BlockScope>,
    index: usize,
    local: usize,
    name: Symbol,
) -> bool {
    match scopes.at(index as nat) {
        Some(scope) => {
            &&& has_name(scope.locals, local as nat, name)
            &&& forall|other: nat| #[trigger] has_name(scope.locals, other, name) ==> other <= local
        },
        None => false,
    }
}

/// Whether no scope holds more locals than can be counted.
pub open spec fn locals_are_counted(scopes: List<BlockScope>) -> bool {
    forall|index: nat|
        (#[trigger] scopes.at(index)) matches Some(scope) ==> scope.locals.count() <= usize::MAX
}

proof fn lemma_last_local_is_last(locals: List<Local>, name: Symbol, from: usize, other: nat)
    requires
        from + locals.count() <= usize::MAX,
    ensures
        match last_local_named(locals, name, from) {
            Some(found) => found >= from && has_name(locals, (found - from) as nat, name),
            None => true,
        },
        has_name(locals, other, name) ==> match last_local_named(locals, name, from) {
            Some(found) => from + other <= found,
            None => false,
        },
    decreases locals,
{
    match locals {
        List::Nil => {},
        List::Cons(_, tail) => {
            lemma_last_local_is_last(
                *tail,
                name,
                next_index(from),
                if other > 0 {
                    (other - 1) as nat
                } else {
                    0
                },
            );
        },
    }
}

proof fn last_local_binds(scopes: List<BlockScope>, index: usize, name: Symbol)
    requires
        locals_are_counted(scopes),
    ensures
        match scopes.at(index as nat) {
            Some(scope) => match last_local_named(scope.locals, name, 0) {
                Some(local) => binds(scopes, index, name) && is_last_named(
                    scopes,
                    index,
                    local,
                    name,
                ),
                None => !binds(scopes, index, name),
            },
            None => !binds(scopes, index, name),
        },
{
    match scopes.at(index as nat) {
        Some(scope) => {
            lemma_last_local_is_last(scope.locals, name, 0, 0);
            assert forall|other: nat| #[trigger]
                has_name(scope.locals, other, name) implies match last_local_named(
                scope.locals,
                name,
                0,
            ) {
                Some(found) => other <= found,
                None => false,
            } by {
                lemma_last_local_is_last(scope.locals, name, 0, other);
            }
        },
        None => {},
    }
}

proof fn local_search_is_a_search(
    scopes: List<BlockScope>,
    index: usize,
    name: Symbol,
    steps: usize,
)
    requires
        locals_are_counted(scopes),
    ensures
        ({
            let found = chains::first_where(
                scope_parents(scopes),
                scopes.count(),
                index,
                steps as nat,
                |scope: usize| binds(scopes, scope, name),
            );
            match local_from(scopes, index, name, steps) {
                Some((scope, local)) => found == Some(scope) && is_last_named(
                    scopes,
                    scope,
                    local,
                    name,
                ),
                None => found is None,
            }
        }),
    decreases steps,
{
    lemma_at_within(scopes, index as nat);
    last_local_binds(scopes, index, name);
    if steps > 0 {
        match scopes.at(index as nat) {
            Some(scope) => match scope.parent {
                Some(parent) => {
                    local_search_is_a_search(scopes, parent, name, (steps - 1) as usize);
                },
                None => {},
            },
            None => {},
        }
    }
}

/// The local that a name stands for is the last one of that name in the
/// innermost scope around the code that has one; there is none exactly where
/// no scope around the code has one.
pub proof fn law_local_is_innermost(ctx: ExprContext, name: Symbol)
    requires
        ctx.stack.scopes.count() <= usize::MAX,
        locals_are_counted(ctx.stack.scopes),
        scopes_end(ctx.stack.scopes, ctx.scope_index),
    ensures
        ({
            let scopes = ctx.stack.scopes;
            let test = |scope: usize| binds(scopes, scope, name);
            match ctx.local_named(name) {
                Some((found, local)) => {
                    &&& is_innermost(scopes, ctx.scope_index, test, found)
                    &&& is_last_named(scopes, found, local, name)
                },
                None => is_nowhere(scopes, ctx.scope_index, test),
            }
        }),
{
    let scopes = ctx.stack.scopes;
    let test = |scope: usize| binds(scopes, scope, name);
    local_search_is_a_search(scopes, ctx.scope_index, name, scopes.len());
    chains::law_search_finds_the_first(
        scope_parents(scopes),
        scopes.count(),
        ctx.scope_index,
        scopes.len() as nat,
        test,
    );
}

} // verus!
