//! Namespaces lie in each other, and so do scopes: what a name means is looked
//! for outwards, and in a built program every namespace and every scope comes
//! after the one around it.

use vstd::prelude::*;

use crate::ast;
use crate::ast::Statement;
use crate::chains;
use crate::growth;
use crate::growth::program::{law_finishing_only_adds, law_resolving_only_adds};
use crate::list::{single, List};
use crate::nesting::scopes_nested;
use crate::program;
use crate::program::Program;
use crate::scope::{lemma_at_within, new_block, scope_parents, scopes_end, ExprContext};
use crate::shape::reading;
use crate::span::{DefId, Spanned, Symbol};
use crate::state::{State, WellKnown};
use crate::tir::{BlockKind, BlockScope, GenericScope, ResolveContext, SymbolNamespace};
use crate::types::TypeIndex;

verus! {

impl<'ast> State<'ast> {
    /// The namespace around each namespace.
    pub open spec fn namespace_parents(self) -> spec_fn(usize) -> Option<usize> {
        |index: usize| self.namespace_around(index)
    }

    /// Whether what is around a namespace is the root or one of the namespaces
    /// that there are.
    pub open spec fn parents_exist(self) -> bool {
        forall|index: usize| self.has_namespace(#[trigger] self.namespace_around(index))
    }

    /// Whether the way outwards from a namespace ends in the root.
    pub open spec fn reaches_root(self, namespace: Option<usize>) -> bool {
        namespace matches Some(index) ==> chains::chain_ends(
            self.namespace_parents(),
            self.namespaces.len(),
            index,
        )
    }

    /// Whether a namespace is another one or the way outwards from it leads
    /// there.
    pub open spec fn lies_in(self, inner: Option<usize>, outer: Option<usize>) -> bool {
        match (inner, outer) {
            (_, None) => true,
            (None, Some(_)) => false,
            (Some(from), Some(to)) => from == to || exists|position: nat|
                #[trigger]
                chains::ancestor(
                    self.namespace_parents(),
                    self.namespaces.len(),
                    from,
                    position,
                ) == Some(to),
        }
    }

    /// Whether a name has a meaning in a namespace itself.
    pub open spec fn gives_meaning(self, space: SymbolNamespace, name: Symbol) -> spec_fn(
        usize,
    ) -> bool {
        |index: usize| self.symbol_in(index, space, name) is Some
    }
}

proof fn steps_to_another<'ast>(s: State<'ast>, from: usize, to: usize, steps: nat)
    requires
        s.parents_exist(),
    ensures
        s.is_within_steps(Some(from), Some(to), steps) <==> from == to || exists|position: nat|
            position <= steps + 1 && #[trigger] chains::ancestor(
                s.namespace_parents(),
                s.namespaces.len(),
                from,
                position,
            ) == Some(to),
    decreases steps,
{
    let parents = s.namespace_parents();
    let count = s.namespaces.len();
    assert(parents(from) == s.namespace_around(from));
    match s.namespace_around(from) {
        Some(parent) => {
            assert(s.has_namespace(s.namespace_around(from)));
            assert(chains::ancestor(parents, count, parent, 0) == Some(parent));
            assert(chains::ancestor(parents, count, from, 1) == chains::ancestor(
                parents,
                count,
                parent,
                0,
            ));
            if steps > 0 {
                let rest = (steps - 1) as nat;
                steps_to_another(s, parent, to, rest);
                if from != to && parent != to && s.is_within_steps(Some(parent), Some(to), rest) {
                    let position = choose|position: nat|
                        position <= rest + 1 && #[trigger] chains::ancestor(
                            parents,
                            count,
                            parent,
                            position,
                        ) == Some(to);
                    assert(chains::ancestor(parents, count, from, position + 1) == Some(to));
                }
            }
            if from != to && exists|position: nat|
                position <= steps + 1 && #[trigger] chains::ancestor(
                    parents,
                    count,
                    from,
                    position,
                ) == Some(to) {
                let position = choose|position: nat|
                    position <= steps + 1 && #[trigger] chains::ancestor(
                        parents,
                        count,
                        from,
                        position,
                    ) == Some(to);
                assert(position > 0);
                assert(chains::ancestor(parents, count, parent, (position - 1) as nat) == Some(to));
            }
        },
        None => {
            if steps > 0 {
                assert(!s.is_within_steps(None, Some(to), (steps - 1) as nat));
            }
        },
    }
}

proof fn steps_to_the_root<'ast>(s: State<'ast>, from: usize, steps: nat)
    requires
        s.parents_exist(),
        chains::ancestor(s.namespace_parents(), s.namespaces.len(), from, steps + 1) is None,
    ensures
        s.is_within_steps(Some(from), None, steps),
    decreases steps,
{
    let parents = s.namespace_parents();
    let count = s.namespaces.len();
    assert(parents(from) == s.namespace_around(from));
    match s.namespace_around(from) {
        Some(parent) => {
            assert(s.has_namespace(s.namespace_around(from)));
            assert(chains::ancestor(parents, count, from, steps + 1) == chains::ancestor(
                parents,
                count,
                parent,
                steps,
            ));
            if steps > 0 {
                steps_to_the_root(s, parent, (steps - 1) as nat);
            }
        },
        None => {},
    }
}

/// A namespace lies within exactly those that the way outwards from it leads
/// to, and within the root.
pub proof fn law_within_means_enclosed<'ast>(
    s: State<'ast>,
    inner: Option<usize>,
    outer: Option<usize>,
)
    requires
        s.parents_exist(),
        s.reaches_root(inner),
    ensures
        s.is_within(inner, outer) <==> s.lies_in(inner, outer),
{
    let parents = s.namespace_parents();
    let count = s.namespaces.len();
    match (inner, outer) {
        (Some(from), Some(to)) => {
            steps_to_another(s, from, to, count);
            assert forall|position: nat| #[trigger]
                chains::ancestor(parents, count, from, position) == Some(to) implies position
                <= count + 1 by {
                if position > count + 1 {
                    chains::law_chain_that_ends_is_short(parents, count, from, position);
                }
            }
        },
        (Some(from), None) => {
            chains::law_chain_that_ends_is_short(parents, count, from, count + 1);
            steps_to_the_root(s, from, count);
        },
        _ => {},
    }
}

/// A namespace lies within itself, within the root, and within every
/// namespace around one that it lies within.
pub proof fn law_namespaces_nest<'ast>(
    s: State<'ast>,
    inner: Option<usize>,
    middle: Option<usize>,
    outer: Option<usize>,
)
    requires
        s.parents_exist(),
        s.reaches_root(inner),
        s.reaches_root(middle),
    ensures
        s.is_within(inner, inner),
        s.is_within(inner, None),
        s.is_within(inner, middle) && s.is_within(middle, outer) ==> s.is_within(inner, outer),
{
    let parents = s.namespace_parents();
    let count = s.namespaces.len();
    law_within_means_enclosed(s, inner, inner);
    law_within_means_enclosed(s, inner, None);
    law_within_means_enclosed(s, inner, middle);
    law_within_means_enclosed(s, middle, outer);
    law_within_means_enclosed(s, inner, outer);
    if s.lies_in(inner, middle) && s.lies_in(middle, outer) {
        match (inner, middle, outer) {
            (Some(from), Some(between), Some(to)) => {
                if from != between && between != to {
                    let first = choose|position: nat| #[trigger]
                        chains::ancestor(parents, count, from, position) == Some(between);
                    let second = choose|position: nat| #[trigger]
                        chains::ancestor(parents, count, between, position) == Some(to);
                    chains::chain_goes_on(parents, count, from, first, second);
                    assert(chains::ancestor(parents, count, from, first + second) == Some(to));
                }
            },
            _ => {},
        }
    }
}

proof fn meaning_in_steps<'ast>(
    s: State<'ast>,
    from: usize,
    space: SymbolNamespace,
    name: Symbol,
    steps: nat,
)
    requires
        s.parents_exist(),
        from < s.namespaces.len(),
    ensures
        ({
            let parents = s.namespace_parents();
            let count = s.namespaces.len();
            let test = s.gives_meaning(space, name);
            s.visible_in_steps(Some(from), space, name, steps) == match chains::first_where(
                parents,
                count,
                from,
                steps + 1,
                test,
            ) {
                Some(found) => s.symbol_in(found, space, name),
                None => if chains::ancestor(parents, count, from, steps + 1) is None {
                    s.root_symbol(space, name)
                } else {
                    None
                },
            }
        }),
    decreases steps,
{
    let parents = s.namespace_parents();
    let count = s.namespaces.len();
    let test = s.gives_meaning(space, name);
    assert(parents(from) == s.namespace_around(from));
    assert(test(from) == (s.symbol_in(from, space, name) is Some));
    match s.namespace_around(from) {
        Some(parent) => {
            assert(s.has_namespace(s.namespace_around(from)));
            assert(chains::ancestor(parents, count, from, steps + 1) == chains::ancestor(
                parents,
                count,
                parent,
                steps,
            ));
            assert(!test(from) ==> chains::first_where(parents, count, from, steps + 1, test)
                == chains::first_where(parents, count, parent, steps, test));
            if steps > 0 {
                meaning_in_steps(s, parent, space, name, (steps - 1) as nat);
            }
        },
        None => {},
    }
}

/// The meaning of a name is the one that it has in the first namespace on the
/// way outwards that gives it one, and in the root where none does.
pub proof fn law_name_is_found_outwards<'ast>(
    s: State<'ast>,
    from: usize,
    space: SymbolNamespace,
    name: Symbol,
)
    requires
        s.parents_exist(),
        from < s.namespaces.len(),
        s.reaches_root(Some(from)),
    ensures
        ({
            let parents = s.namespace_parents();
            let count = s.namespaces.len();
            let test = s.gives_meaning(space, name);
            let meaning = s.visible_symbol(Some(from), space, name);
            ||| exists|found: usize|
                {
                    &&& #[trigger] chains::is_first_where(parents, count, from, test, found)
                    &&& meaning == s.symbol_in(found, space, name)
                }
            ||| {
                &&& chains::none_where(parents, count, from, test)
                &&& meaning == s.root_symbol(space, name)
            }
        }),
{
    let parents = s.namespace_parents();
    let count = s.namespaces.len();
    let test = s.gives_meaning(space, name);
    meaning_in_steps(s, from, space, name, count);
    chains::law_chain_that_ends_is_short(parents, count, from, count + 1);
    chains::law_search_finds_the_first(parents, count, from, count + 1, test);
}

/// Where every namespace comes after the one around it, the way outwards from
/// each ends in the root.
pub proof fn law_order_leads_to_the_root<'ast>(s: State<'ast>, namespace: Option<usize>)
    requires
        s.in_order(),
        s.namespaces.len() <= usize::MAX,
    ensures
        s.parents_exist(),
        s.reaches_root(namespace),
{
    let parents = s.namespace_parents();
    let count = s.namespaces.len();
    assert forall|index: usize| s.has_namespace(#[trigger] s.namespace_around(index)) by {
        if index < count {
            assert(s.namespaces[index as int].parent matches Some(parent) ==> parent < index);
        }
    }
    assert(chains::parents_come_first(parents, count)) by {
        assert forall|index: usize| index < count implies ((#[trigger] parents(index)) matches Some(
            parent,
        ) ==> parent < index) by {
            assert(s.namespaces[index as int].parent matches Some(parent) ==> parent < index);
        }
    }
    match namespace {
        Some(index) => {
            chains::law_chain_of_smaller_parents_ends(parents, count, index);
        },
        None => {},
    }
}

/// In a built program every namespace comes after the one around it, every
/// name of a module leads to a namespace, and the way outwards from every
/// namespace ends in the root.
pub proof fn law_built_namespaces_are_in_order<'ast>(
    texts: Seq<Seq<char>>,
    names: WellKnown,
    program: &'ast Program,
    namespace: Option<usize>,
)
    requires
        program::empty_state(texts, names, program.next_id).scanned(program).namespaces.len()
            <= usize::MAX,
    ensures
        ({
            let scanned = program::empty_state(texts, names, program.next_id).scanned(program);
            let resolved = scanned.resolved();
            let built = resolved.finished(program);
            &&& scanned.in_order() && scanned.reaches_root(namespace)
            &&& resolved.in_order() && resolved.reaches_root(namespace)
            &&& built.in_order() && built.reaches_root(namespace)
            &&& built.namespaces.len() == scanned.namespaces.len()
        }),
{
    broadcast use growth::group_growing;

    let start = program::empty_state(texts, names, program.next_id);
    assert(start.in_order());
    start.adds_enter_crates(&program.crates);
    let (s, bases) = start.enter_crates(&program.crates);
    s.adds_scan_crates(&program.crates, &bases);
    let entered = s.scan_crates(&program.crates, &bases);
    let scanned = start.scanned(program);
    assert(scanned.namespaces == entered.namespaces && scanned.symbols == entered.symbols);
    assert(scanned.in_order()) by {
        assert(entered.in_order());
        assert forall|i: int| 0 <= i < scanned.symbols.len() implies scanned.module_exists(
            (#[trigger] scanned.symbols[i]).kind,
        ) by {
            assert(entered.module_exists(entered.symbols[i].kind));
        }
    }
    law_resolving_only_adds(scanned);
    let resolved = scanned.resolved();
    law_finishing_only_adds(resolved, program);
    law_order_leads_to_the_root(scanned, namespace);
    law_order_leads_to_the_root(resolved, namespace);
    law_order_leads_to_the_root(resolved.finished(program), namespace);
}

// ---------------------------------------------------------------- scopes

/// Where every scope comes after the one around it, the way outwards from each
/// ends.
pub proof fn law_nested_scopes_end(scopes: List<BlockScope>, index: usize)
    requires
        scopes_nested(scopes),
    ensures
        chains::parents_come_first(scope_parents(scopes), scopes.count()),
        scopes_end(scopes, index),
{
    let parents = scope_parents(scopes);
    assert forall|place: usize| place < scopes.count() implies ((#[trigger] parents(
        place,
    )) matches Some(parent) ==> parent < place) by {
        lemma_at_within(scopes, place as nat);
        assert(scopes.at(place as nat) is Some);
    }
    chains::law_chain_of_smaller_parents_ends(parents, scopes.count(), index);
}

proof fn one_scope_is_nested(ctx: ExprContext, scope: BlockScope)
    requires
        ctx.scope_index == 0,
        ctx.stack.scopes == single(scope),
        scope.parent is None,
    ensures
        ctx.is_nested(),
{
    let scopes = ctx.stack.scopes;
    reveal_with_fuel(List::count, 3);
    assert forall|i: nat| (#[trigger] scopes.at(i)) is Some implies (scopes.at(
        i,
    )->0.parent matches Some(parent) ==> parent < i) by {
        lemma_at_within(scopes, i);
        assert(i == 0);
    }
}

/// The scopes of a function's body come each after the one around it, so that
/// the way outwards from each ends.
pub proof fn law_built_body_has_nested_scopes<'ast>(
    s: State<'ast>,
    context: ResolveContext,
    scope: GenericScope,
    block: &Spanned<List<Statement>>,
    func_index: usize,
    pending: spec_fn(State<'ast>, DefId) -> State<'ast>,
    index: usize,
)
    requires
        s.build_function_body(context, scope, block, func_index, pending).1 matches Some(body)
            ==> body.stack.scopes.count() <= usize::MAX,
    ensures
        s.function_context(context, scope, block.span, func_index).is_nested(),
        s.build_function_body(context, scope, block, func_index, pending).1 matches Some(body)
            ==> scopes_nested(body.stack.scopes) && scopes_end(body.stack.scopes, index),
{
    let ctx = s.function_context(context, scope, block.span, func_index);
    let first = ctx.stack.scopes.at(0)->0;
    assert(ctx.stack.scopes == single(first));
    one_scope_is_nested(ctx, first);
    s.keeps_build_block_expression(ctx, &block.inner, block.span, pending);
    reveal(ExprContext::grows_into);
    match s.build_function_body(context, scope, block, func_index, pending).1 {
        Some(body) => {
            law_nested_scopes_end(body.stack.scopes, index);
        },
        None => {},
    }
}

/// The scopes of an expression outside of any function come each after the
/// one around it, so that the way outwards from each ends.
pub proof fn law_standalone_expression_has_nested_scopes<'ast>(
    s: State<'ast>,
    context: ResolveContext,
    expr: &Spanned<ast::Expression>,
    expected: TypeIndex,
    pending: spec_fn(State<'ast>, DefId) -> State<'ast>,
    index: usize,
)
    requires
        s.build_standalone_expression(context, expr, expected, pending).1.1.stack.scopes.count()
            <= usize::MAX,
    ensures
        ExprContext::standalone(context, expr.span, expected).is_nested(),
        ({
            let (built, later) = s.build_standalone_expression(context, expr, expected, pending).1;
            later.is_nested() && scopes_end(later.stack.scopes, index)
        }),
{
    let ctx = ExprContext::standalone(context, expr.span, expected);
    one_scope_is_nested(
        ctx,
        new_block(None, None, BlockKind::Block, expr.span, expected),
    );
    s.keeps_build_expression(ctx, reading(expected), expr, pending);
    reveal(ExprContext::grows_into);
    let (_, later) = s.build_standalone_expression(context, expr, expected, pending).1;
    law_nested_scopes_end(later.stack.scopes, index);
}

} // verus!
