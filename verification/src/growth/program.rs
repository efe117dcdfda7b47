//! What the phases of a whole build keep.

use vstd::prelude::*;

use crate::definitions;
use crate::growth;
use crate::growth::signatures::every_resolver_adds;
use crate::list::List;
use crate::program;
use crate::program::{Program, SourceCrate, SourceModule};
use crate::relate::MAX_DEPTH;
use crate::signatures;
use crate::span::DefId;
use crate::state;
use crate::state::{AstEntry, State, WellKnown};
use crate::tir::{
    ComputeState, ModuleDeclarationKind, ModuleNamespace, ResolveContext, SymbolKind,
    SymbolNamespace,
};

verus! {

impl<'ast> State<'ast> {
    pub proof fn adds_enter_crate(self, source: &SourceCrate)
        ensures
            ({
                let (later, base) = self.enter_crate(source);
                &&& self.grows_to(later)
                &&& self.in_order() && later.namespaces.len() <= usize::MAX ==> later.in_order()
                    && later.has_namespace(base)
            }),
    {
        broadcast use crate::growth::group_growing;

        self.adds_nothing();
        match source.name {
            Some(name) => {
                let item = ModuleNamespace {
                    name,
                    parent: None,
                    declaration: ModuleDeclarationKind::Crate(source.root_file),
                    wildcard_imports: List::Nil,
                };
                self.adds_add_namespace(item);
                let (s, namespace_idx) = self.add_namespace(item);
                growth::symbol_is_added(
                    s,
                    None,
                    SymbolNamespace::Type,
                    name,
                    SymbolKind::Module { namespace_idx },
                );
            },
            None => {},
        }
    }

    pub proof fn adds_enter_crates(self, crates: &List<SourceCrate>)
        ensures
            ({
                let (later, bases) = self.enter_crates(crates);
                &&& self.grows_to(later)
                &&& self.in_order() && later.namespaces.len() <= usize::MAX ==> later.in_order()
                    && later.has_namespaces(bases)
            }),
        decreases crates,
    {
        broadcast use crate::growth::group_growing;

        self.adds_nothing();
        match crates {
            List::Nil => {},
            List::Cons(first, rest) => {
                self.adds_enter_crate(first);
                self.enter_crate(first).0.adds_enter_crates(rest);
            },
        }
    }

    /// Whether each namespace is the root or one of those that there are.
    pub open spec fn has_namespaces(self, namespaces: List<Option<usize>>) -> bool
        decreases namespaces,
    {
        match namespaces {
            List::Nil => true,
            List::Cons(first, rest) => self.has_namespace(*first) && self.has_namespaces(*rest),
        }
    }

    proof fn namespaces_stay(self, later: State<'ast>, namespaces: List<Option<usize>>)
        requires
            self.has_namespaces(namespaces),
            self.namespaces.len() <= later.namespaces.len(),
        ensures
            later.has_namespaces(namespaces),
        decreases namespaces,
    {
        match namespaces {
            List::Nil => {},
            List::Cons(_, rest) => {
                self.namespaces_stay(later, *rest);
            },
        }
    }

    pub proof fn adds_scan_modules(self, base: Option<usize>, modules: &'ast List<SourceModule>)
        ensures
            ({
                let later = self.scan_modules(base, modules);
                &&& self.grows_to(later)
                &&& self.in_order() && self.has_namespace(base) && later.namespaces.len()
                    <= usize::MAX ==> later.in_order()
            }),
        decreases modules,
    {
        broadcast use crate::growth::group_growing;

        self.adds_nothing();
        match modules {
            List::Nil => {},
            List::Cons(first, rest) => {
                self.adds_module_path_ensured(first.file_id, base, first.path);
                let (s, namespace) = self.module_path_ensured(first.file_id, base, first.path);
                s.adds_pre_scan_items(first.file_id, namespace, &first.items);
                self.scan_module(base, first).adds_scan_modules(base, rest);
            },
        }
    }

    pub proof fn adds_scan_crates(
        self,
        crates: &'ast List<SourceCrate>,
        bases: &List<Option<usize>>,
    )
        ensures
            ({
                let later = self.scan_crates(crates, bases);
                &&& self.grows_to(later)
                &&& self.in_order() && self.has_namespaces(*bases) && later.namespaces.len()
                    <= usize::MAX ==> later.in_order()
            }),
        decreases crates,
    {
        broadcast use crate::growth::group_growing;

        self.adds_nothing();
        match (crates, bases) {
            (List::Cons(first, crates_rest), List::Cons(base, bases_rest)) => {
                self.adds_scan_modules(**base, &first.modules);
                let s = self.scan_modules(**base, &first.modules);
                s.adds_scan_crates(crates_rest, bases_rest);
                if self.has_namespaces(*bases) {
                    self.namespaces_stay(s, **bases_rest);
                }
            },
            _ => {},
        }
    }

    pub proof fn adds_ensure_signatures_from(self, from: int, end: int)
        ensures
            self.only_adds(self.ensure_signatures_from(from, end)),
        decreases end - from,
    {
        broadcast use crate::growth::law_adding_chains;

        self.adds_nothing();
        if from < end {
            match state::seq_at(self.nodes, from as usize) {
                Some(entry) => {
                    self.adds_ensure_signature(entry.def_id, MAX_DEPTH);
                    self.ensure_signature(entry.def_id, MAX_DEPTH).adds_ensure_signatures_from(
                        from + 1,
                        end,
                    );
                },
                None => {
                    self.adds_ensure_signatures_from(from + 1, end);
                },
            }
        }
    }

    pub proof fn adds_ensure_bodies_from(self, from: int, end: int)
        ensures
            self.only_adds(self.ensure_bodies_from(from, end)),
        decreases end - from,
    {
        broadcast use crate::growth::law_adding_chains;

        self.adds_nothing();
        if from < end {
            every_resolver_adds(MAX_DEPTH);
            let pending = signatures::resolver(MAX_DEPTH);
            match state::seq_at(self.nodes, from as usize) {
                Some(entry) => {
                    self.adds_ensure_body(entry.def_id, pending);
                    self.ensure_body(entry.def_id, pending).adds_ensure_bodies_from(from + 1, end);
                },
                None => {
                    self.adds_ensure_bodies_from(from + 1, end);
                },
            }
        }
    }

    pub proof fn adds_export_modules(self, modules: &List<SourceModule>)
        ensures
            self.only_adds(self.export_modules(modules)),
        decreases modules,
    {
        broadcast use crate::growth::law_adding_chains;

        self.adds_nothing();
        match modules {
            List::Nil => {},
            List::Cons(first, rest) => {
                self.adds_export_items(first.file_id, &first.items);
                self.export_items(first.file_id, &first.items).adds_export_modules(rest);
            },
        }
    }

    pub proof fn adds_export_crates(self, crates: &List<SourceCrate>)
        ensures
            self.only_adds(self.export_crates(crates)),
        decreases crates,
    {
        broadcast use crate::growth::law_adding_chains;

        self.adds_nothing();
        match crates {
            List::Nil => {},
            List::Cons(first, rest) => {
                self.adds_export_modules(&first.modules);
                self.export_modules(&first.modules).adds_export_crates(rest);
            },
        }
    }
}

/// Resolving every signature and building every body only adds to what the
/// first phase entered.
pub proof fn law_resolving_only_adds<'ast>(s: State<'ast>)
    ensures
        s.only_adds(s.resolved()),
{
    broadcast use crate::growth::law_adding_chains;

    s.adds_ensure_signatures_from(0, s.nodes.len() as int);
    let t = s.ensure_signatures_from(0, s.nodes.len() as int);
    t.adds_ensure_bodies_from(0, t.nodes.len() as int);
}

/// The last checks only add to what the bodies were built with.
pub proof fn law_finishing_only_adds<'ast>(s: State<'ast>, program: &Program)
    ensures
        s.only_adds(s.finished(program)),
{
    broadcast use crate::growth::law_adding_chains;

    s.adds_check_trait_conformance_from(0, s.trait_impls.len() as int);
    let t = s.check_trait_conformance_from(0, s.trait_impls.len() as int);
    t.adds_export_crates(&program.crates);
    t.export_crates(&program.crates).adds_report_unused_items();
}

/// In a built program every built-in type is where it was at the start, no
/// type is in the pool twice, no name has two meanings in a namespace, no
/// definition has two places, and no trait has two impls for one target.
pub proof fn law_built_tables_are_consistent<'ast>(
    texts: Seq<Seq<char>>,
    names: WellKnown,
    program: &'ast Program,
)
    ensures
        ({
            let built = program::empty_state(texts, names, program.next_id).scanned(
                program,
            ).resolved().finished(program);
            &&& growth::extends(program::primitive_types(), built.types)
            &&& growth::distinct_types(built.types)
            &&& growth::distinct_symbols(built.symbols)
            &&& growth::distinct_items(built.items)
            &&& growth::distinct_impls(built.trait_dispatch)
            &&& growth::distinct_exports(built.exports)
            &&& growth::extends(texts, built.texts)
        }),
{
    broadcast use crate::growth::law_adding_chains;
    broadcast use crate::growth::law_growing_chains;

    let start = program::empty_state(texts, names, program.next_id);
    start.adds_enter_crates(&program.crates);
    let (s, bases) = start.enter_crates(&program.crates);
    s.adds_scan_crates(&program.crates, &bases);
    let entered = s.scan_crates(&program.crates, &bases);
    let scanned = entered.signatures_pending();
    law_resolving_only_adds(scanned);
    law_finishing_only_adds(scanned.resolved(), program);
    let built = scanned.resolved().finished(program);
    assert(start.grows_to(entered));
    assert(scanned.only_adds(built));
    reveal(State::only_adds);
    reveal(State::grows_to);
    assert(growth::distinct_types(start.types));
    assert forall|i: int| 0 <= i < program::primitive_types().len() implies
        program::primitive_types()[i] == #[trigger] built.types[i] by {
        assert(start.types[i] == entered.types[i]);
        assert(scanned.types[i] == built.types[i]);
    }
    assert forall|i: int| 0 <= i < texts.len() implies texts[i] == #[trigger] built.texts[i] by {
        assert(start.texts[i] == entered.texts[i]);
        assert(scanned.texts[i] == built.texts[i]);
    }
}

/// Where a definition is the only one of its id, that is where it is found.
proof fn node_position_is<'ast>(nodes: Seq<AstEntry<'ast>>, index: int, from: int)
    requires
        0 <= from <= index < nodes.len(),
        forall|i: int|
            from <= i < index ==> (#[trigger] nodes[i]).def_id != nodes[index].def_id,
    ensures
        state::node_position(nodes, nodes[index].def_id, from) == index,
    decreases index - from,
{
    if from < index {
        node_position_is(nodes, index, from + 1);
    }
}

/// A definition that is found stays where it is found when more are added.
proof fn node_position_stays<'ast>(
    earlier: Seq<AstEntry<'ast>>,
    later: Seq<AstEntry<'ast>>,
    id: DefId,
    from: int,
)
    requires
        growth::extends(earlier, later),
        0 <= from,
        state::node_position(earlier, id, from) < earlier.len(),
    ensures
        state::node_position(later, id, from) == state::node_position(earlier, id, from),
        from <= state::node_position(later, id, from),
    decreases earlier.len() - from,
{
    if from < earlier.len() {
        assert(earlier[from] == later[from]);
        if earlier[from].def_id != id {
            node_position_stays(earlier, later, id, from + 1);
        }
    }
}

/// After the resolution of a signature was asked for, it has begun.
proof fn signature_is_begun<'ast>(s: State<'ast>, id: DefId, depth: usize)
    requires
        s.sig_states.len() <= usize::MAX,
        0 <= state::node_position(s.nodes, id, 0) < s.nodes.len(),
        state::node_position(s.nodes, id, 0) < s.sig_states.len(),
    ensures
        ({
            let t = s.ensure_signature(id, depth);
            &&& t.sig_states[s.node_index(id) as int] != ComputeState::Pending
            &&& t.node_index(id) == s.node_index(id)
            &&& t.sig_states.len() == s.sig_states.len()
            &&& growth::extends(s.nodes, t.nodes)
        }),
{
    broadcast use crate::growth::law_adding_chains;

    s.adds_ensure_signature(id, depth);
    let t = s.ensure_signature(id, depth);
    assert(growth::extends(s.nodes, t.nodes) && t.sig_states.len() == s.sig_states.len()) by {
        reveal(State::only_adds);
        reveal(State::grows_to);
    }
    node_position_stays(s.nodes, t.nodes, id, 0);
    if s.is_pending(id) {
        let pending = signatures::resolver(depth);
        every_resolver_adds(depth);
        let node: usize = s.node_index(id);
        let begun = s.set_sig_state(node, ComputeState::InProgress);
        assert(begun.sig_states[node as int] == ComputeState::InProgress && begun.sig_states.len()
            == s.sig_states.len()) by {
            reveal(State::set_sig_state);
        }
        begun.adds_nothing();
        match begun.node_entry(node) {
            Some(entry) => {
                let context = ResolveContext::new(entry.file_id, entry.namespace);
                begun.adds_resolve_node(context, entry.node, pending);
                let (s, done) = begun.resolve_node(context, entry.node, pending);
                s.adds_set_sig_state(node, ComputeState::Done);
            },
            None => {},
        }
        assert(begun.only_adds(t));
        assert(t.sig_states[node as int] != ComputeState::Pending) by {
            reveal(State::only_adds);
            reveal(State::grows_to);
        }
    }
}

/// A position in the node table lies in it or just behind it.
proof fn node_position_bound<'ast>(nodes: Seq<AstEntry<'ast>>, id: DefId, from: int)
    requires
        0 <= from,
    ensures
        0 <= state::node_position(nodes, id, from) <= nodes.len(),
    decreases nodes.len() - from,
{
    if from < nodes.len() {
        node_position_bound(nodes, id, from + 1);
    }
}

/// A signature is resolved once: to ask for it again changes nothing.
pub proof fn law_signature_is_resolved_once<'ast>(
    s: State<'ast>,
    id: DefId,
    depth: usize,
    other_depth: usize,
)
    requires
        s.sig_states.len() == s.nodes.len() <= usize::MAX,
    ensures
        ({
            let t = s.ensure_signature(id, depth);
            t.ensure_signature(id, other_depth) == t
        }),
{
    node_position_bound(s.nodes, id, 0);
    if state::node_position(s.nodes, id, 0) < s.nodes.len() {
        signature_is_begun(s, id, depth);
    }
}

/// Asking for the definitions from a position on begins what was not begun.
proof fn signatures_are_begun<'ast>(s: State<'ast>, from: int, end: int)
    requires
        s.sig_states.len() == end <= s.nodes.len(),
        0 <= from <= end <= usize::MAX,
        forall|i: int, j: int|
            0 <= i < j < end ==> (#[trigger] s.nodes[i]).def_id != (#[trigger] s.nodes[j]).def_id,
        forall|i: int|
            0 <= i < from ==> #[trigger] s.sig_states[i] != ComputeState::Pending,
    ensures
        ({
            let t = s.ensure_signatures_from(from, end);
            &&& t.sig_states.len() == end
            &&& forall|i: int|
                0 <= i < end ==> #[trigger] t.sig_states[i] != ComputeState::Pending
        }),
    decreases end - from,
{
    if from < end {
        let id = s.nodes[from].def_id;
        node_position_is(s.nodes, from, 0);
        let t = s.ensure_signature(id, MAX_DEPTH);
        signature_is_begun(s, id, MAX_DEPTH);
        s.adds_ensure_signature(id, MAX_DEPTH);
        assert forall|i: int| 0 <= i < from + 1 implies #[trigger] t.sig_states[i]
            != ComputeState::Pending by {
            if i < from {
                assert(s.sig_states[i] != ComputeState::Pending);
                reveal(State::only_adds);
                reveal(State::grows_to);
            }
        }
        assert forall|i: int, j: int| 0 <= i < j < end implies (#[trigger] t.nodes[i]).def_id != (
        #[trigger] t.nodes[j]).def_id by {
            assert(s.nodes[i] == t.nodes[i]);
            assert(s.nodes[j] == t.nodes[j]);
        }
        signatures_are_begun(t, from + 1, end);
    }
}

/// When the second phase is over, no signature was left out.
pub proof fn law_every_signature_is_begun<'ast>(s: State<'ast>)
    requires
        s.sig_states.len() == s.nodes.len() <= usize::MAX,
        forall|i: int, j: int|
            0 <= i < j < s.nodes.len() ==> (#[trigger] s.nodes[i]).def_id != (
            #[trigger] s.nodes[j]).def_id,
    ensures
        s.resolved().sig_states.len() == s.nodes.len(),
        forall|i: int|
            0 <= i < s.nodes.len() ==> #[trigger] s.resolved().sig_states[i]
                != ComputeState::Pending,
{
    signatures_are_begun(s, 0, s.nodes.len() as int);
    let t = s.ensure_signatures_from(0, s.nodes.len() as int);
    t.adds_ensure_bodies_from(0, t.nodes.len() as int);
    reveal(State::only_adds);
    reveal(State::grows_to);
    assert forall|i: int| 0 <= i < s.nodes.len() implies #[trigger] s.resolved().sig_states[i]
        != ComputeState::Pending by {
        assert(t.sig_states[i] != ComputeState::Pending);
    }
}

/// Of a program whose definitions have different ids, every signature is
/// begun by the time the bodies are built.
pub proof fn law_program_is_resolved<'ast>(
    texts: Seq<Seq<char>>,
    names: WellKnown,
    program: &'ast Program,
)
    requires
        definitions::program_ids(&program.crates).no_duplicates(),
        definitions::program_ids(&program.crates).len() <= usize::MAX,
    ensures
        ({
            let ids = definitions::program_ids(&program.crates);
            let resolved = program::empty_state(texts, names, program.next_id).scanned(
                program,
            ).resolved();
            &&& resolved.sig_states.len() == ids.len()
            &&& forall|i: int|
                0 <= i < ids.len() ==> #[trigger] resolved.sig_states[i] != ComputeState::Pending
        }),
{
    let scanned = program::empty_state(texts, names, program.next_id).scanned(program);
    definitions::law_whole_program_is_entered(texts, names, program);
    let ids = definitions::program_ids(&program.crates);
    assert(scanned.entered().len() == scanned.nodes.len());
    assert forall|i: int, j: int| 0 <= i < j < scanned.nodes.len() implies (
    #[trigger] scanned.nodes[i]).def_id != (#[trigger] scanned.nodes[j]).def_id by {
        assert(scanned.entered()[i] == scanned.nodes[i].def_id);
        assert(scanned.entered()[j] == scanned.nodes[j].def_id);
    }
    law_every_signature_is_begun(scanned);
}

} // verus!
