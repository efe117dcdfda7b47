//! The whole program: its modules, and the phases that check them.

use vstd::prelude::*;

use crate::ast::Item;
use crate::interner::Interner;
use crate::list::List;
use crate::relate::MAX_DEPTH;
use crate::signatures;
use crate::span::{DefId, FileId, Symbol};
use crate::state;
use crate::state::{Builder, State, WellKnown};
use crate::tir::{
    ComputeState, ModuleDeclarationKind, ModuleNamespace, SymbolKind, SymbolNamespace,
};
use crate::types::Type;

verus! {

/// A parsed source file, by the path of its module inside its crate.
pub struct SourceModule {
    pub file_id: FileId,
    pub path: List<Symbol>,
    pub items: List<Item>,
}

/// A crate. A library crate has a name, under which its modules live.
pub struct SourceCrate {
    pub name: Option<Symbol>,
    /// The file of its root module.
    pub root_file: FileId,
    pub modules: List<SourceModule>,
}

/// A parsed program.
pub struct Program {
    pub crates: List<SourceCrate>,
    /// A number above all definition ids of the program.
    pub next_id: DefId,
}

/// The types that every program has, each at the index that `ty` names.
pub open spec fn primitive_types() -> Seq<Type> {
    seq![
        Type::Error,
        Type::Infer,
        Type::Unit,
        Type::Never,
        Type::Integer,
        Type::Float,
        Type::U8,
        Type::I8,
        Type::U16,
        Type::I16,
        Type::U32,
        Type::I32,
        Type::U64,
        Type::I64,
        Type::F32,
        Type::F64,
        Type::Bool,
        Type::Char,
    ]
}

/// The state before anything is known of a program.
pub open spec fn empty_state<'ast>(
    texts: Seq<Seq<char>>,
    names: WellKnown,
    next_id: DefId,
) -> State<'ast> {
    State {
        texts,
        names,
        types: primitive_types(),
        diagnostics: Seq::empty(),
        accesses: Seq::empty(),
        symbols: Seq::empty(),
        root_wildcard_imports: Seq::empty(),
        namespaces: Seq::empty(),
        module_decls: Seq::empty(),
        import_decls: Seq::empty(),
        items: Seq::empty(),
        functions: Seq::empty(),
        globals: Seq::empty(),
        constants: Seq::empty(),
        structs: Seq::empty(),
        enums: Seq::empty(),
        type_aliases: Seq::empty(),
        memories: Seq::empty(),
        traits: Seq::empty(),
        trait_impls: Seq::empty(),
        inherent_impls: Seq::empty(),
        typesets: Seq::empty(),
        inherent_dispatch: Seq::empty(),
        trait_dispatch: Seq::empty(),
        exports: Seq::empty(),
        tagged_items: Seq::empty(),
        nodes: Seq::empty(),
        sig_states: Seq::empty(),
        next_id,
    }
}

impl<'ast> State<'ast> {
    /// Gives a library crate a namespace under its name; the result is that
    /// namespace.
    pub open spec fn enter_crate(self, source: &SourceCrate) -> (State<'ast>, Option<usize>) {
        match source.name {
            Some(name) => {
                let (s, namespace_idx) = self.add_namespace(
                    ModuleNamespace {
                        name,
                        parent: None,
                        declaration: ModuleDeclarationKind::Crate(source.root_file),
                        wildcard_imports: List::Nil,
                    },
                );
                (
                    s.with_symbol(
                        None,
                        SymbolNamespace::Type,
                        name,
                        SymbolKind::Module { namespace_idx },
                    ),
                    Some(namespace_idx),
                )
            },
            None => (self, None),
        }
    }

    /// Gives each library crate a namespace; the result is the namespaces of
    /// all crates in order.
    pub open spec fn enter_crates(self, crates: &List<SourceCrate>) -> (
        State<'ast>,
        List<Option<usize>>,
    )
        decreases crates,
    {
        match crates {
            List::Nil => (self, List::Nil),
            List::Cons(first, rest) => {
                let (s, base) = self.enter_crate(first);
                let (s, others) = s.enter_crates(rest);
                (s, List::Cons(Box::new(base), Box::new(others)))
            },
        }
    }

    /// Enters the definitions of a module.
    pub open spec fn scan_module(
        self,
        base: Option<usize>,
        source: &'ast SourceModule,
    ) -> State<'ast> {
        let (s, namespace) = self.module_path_ensured(source.file_id, base, source.path);
        s.pre_scan_items(source.file_id, namespace, &source.items)
    }

    /// Enters the definitions of the modules of a crate in order.
    pub open spec fn scan_modules(
        self,
        base: Option<usize>,
        modules: &'ast List<SourceModule>,
    ) -> State<'ast>
        decreases modules,
    {
        match modules {
            List::Nil => self,
            List::Cons(first, rest) => self.scan_module(base, first).scan_modules(base, rest),
        }
    }

    /// Enters the definitions of all crates in order.
    pub open spec fn scan_crates(
        self,
        crates: &'ast List<SourceCrate>,
        bases: &List<Option<usize>>,
    ) -> State<'ast>
        decreases crates,
    {
        match (crates, bases) {
            (List::Cons(first, crates_rest), List::Cons(base, bases_rest)) => self.scan_modules(
                **base,
                &first.modules,
            ).scan_crates(crates_rest, bases_rest),
            _ => self,
        }
    }

    /// The state in which no signature has been looked at yet.
    pub open spec fn signatures_pending(self) -> State<'ast> {
        State {
            sig_states: Seq::new(self.nodes.len(), |i: int| ComputeState::Pending),
            ..self
        }
    }

    /// Resolves the signatures of the definitions from a position on.
    pub open spec fn ensure_signatures_from(self, from: int, end: int) -> State<'ast>
        decreases end - from,
    {
        if from < end {
            match state::seq_at(self.nodes, from as usize) {
                Some(entry) => self.ensure_signature(
                    entry.def_id,
                    MAX_DEPTH,
                ).ensure_signatures_from(from + 1, end),
                None => self.ensure_signatures_from(from + 1, end),
            }
        } else {
            self
        }
    }

    /// Builds the bodies of the definitions from a position on.
    pub open spec fn ensure_bodies_from(self, from: int, end: int) -> State<'ast>
        decreases end - from,
    {
        if from < end {
            match state::seq_at(self.nodes, from as usize) {
                Some(entry) => self.ensure_body(
                    entry.def_id,
                    signatures::resolver(MAX_DEPTH),
                ).ensure_bodies_from(from + 1, end),
                None => self.ensure_bodies_from(from + 1, end),
            }
        } else {
            self
        }
    }

    /// Processes the exports of the modules of a crate in order.
    pub open spec fn export_modules(self, modules: &List<SourceModule>) -> State<'ast>
        decreases modules,
    {
        match modules {
            List::Nil => self,
            List::Cons(first, rest) => self.export_items(
                first.file_id,
                &first.items,
            ).export_modules(rest),
        }
    }

    /// Processes the exports of all crates in order.
    pub open spec fn export_crates(self, crates: &List<SourceCrate>) -> State<'ast>
        decreases crates,
    {
        match crates {
            List::Nil => self,
            List::Cons(first, rest) => self.export_modules(&first.modules).export_crates(rest),
        }
    }

    /// The first phase: every definition of the program is entered.
    pub open spec fn scanned(self, program: &'ast Program) -> State<'ast> {
        let (s, bases) = self.enter_crates(&program.crates);
        s.scan_crates(&program.crates, &bases).signatures_pending()
    }

    /// The second and third phase: every signature is resolved, and then
    /// every body is built.
    pub open spec fn resolved(self) -> State<'ast> {
        let s = self.ensure_signatures_from(0, self.nodes.len() as int);
        s.ensure_bodies_from(0, s.nodes.len() as int)
    }

    /// What follows when every body is built.
    pub open spec fn finished(self, program: &Program) -> State<'ast> {
        self.check_trait_conformance_from(0, self.trait_impls.len() as int).export_crates(
            &program.crates,
        ).report_unused_items()
    }
}

impl<'ast> Builder<'ast> {
    /// The state before anything is known of a program.
    pub fn new(interner: Interner, names: WellKnown, next_id: DefId) -> (result: Builder<'ast>)
        ensures
            result@ == empty_state(interner@, names, next_id),
    {
        Builder {
            interner,
            names,
            types: vec![
                Type::Error,
                Type::Infer,
                Type::Unit,
                Type::Never,
                Type::Integer,
                Type::Float,
                Type::U8,
                Type::I8,
                Type::U16,
                Type::I16,
                Type::U32,
                Type::I32,
                Type::U64,
                Type::I64,
                Type::F32,
                Type::F64,
                Type::Bool,
                Type::Char,
            ],
            diagnostics: Vec::new(),
            accesses: Vec::new(),
            symbols: Vec::new(),
            root_wildcard_imports: Vec::new(),
            namespaces: Vec::new(),
            module_decls: Vec::new(),
            import_decls: Vec::new(),
            items: Vec::new(),
            functions: Vec::new(),
            globals: Vec::new(),
            constants: Vec::new(),
            structs: Vec::new(),
            enums: Vec::new(),
            type_aliases: Vec::new(),
            memories: Vec::new(),
            traits: Vec::new(),
            trait_impls: Vec::new(),
            inherent_impls: Vec::new(),
            typesets: Vec::new(),
            inherent_dispatch: Vec::new(),
            trait_dispatch: Vec::new(),
            exports: Vec::new(),
            tagged_items: Vec::new(),
            nodes: Vec::new(),
            sig_states: Vec::new(),
            next_id,
        }
    }

    fn enter_crate(&mut self, source: &SourceCrate) -> (result: Option<usize>)
        ensures
            (final(self)@, result) == old(self)@.enter_crate(source),
    {
        match source.name {
            Some(name) => {
                let namespace_idx: usize = self.add_namespace(
                    ModuleNamespace {
                        name,
                        parent: None,
                        declaration: ModuleDeclarationKind::Crate(source.root_file),
                        wildcard_imports: List::Nil,
                    },
                );
                self.insert_symbol(
                    None,
                    SymbolNamespace::Type,
                    name,
                    SymbolKind::Module { namespace_idx },
                );
                Some(namespace_idx)
            },
            None => None,
        }
    }

    fn enter_crates(&mut self, crates: &List<SourceCrate>) -> (result: List<Option<usize>>)
        ensures
            (final(self)@, result) == old(self)@.enter_crates(crates),
        decreases crates,
    {
        match crates {
            List::Nil => List::Nil,
            List::Cons(first, rest) => {
                let base = self.enter_crate(first);
                let others = self.enter_crates(rest);
                List::Cons(Box::new(base), Box::new(others))
            },
        }
    }

    fn scan_modules(&mut self, base: Option<usize>, modules: &'ast List<SourceModule>)
        ensures
            final(self)@ == old(self)@.scan_modules(base, modules),
        decreases modules,
    {
        match modules {
            List::Nil => {},
            List::Cons(first, rest) => {
                let namespace = self.ensure_module_path(first.file_id, base, &first.path);
                self.pre_scan_items(first.file_id, namespace, &first.items);
                self.scan_modules(base, rest);
            },
        }
    }

    fn scan_crates(&mut self, crates: &'ast List<SourceCrate>, bases: &List<Option<usize>>)
        ensures
            final(self)@ == old(self)@.scan_crates(crates, bases),
        decreases crates,
    {
        match (crates, bases) {
            (List::Cons(first, crates_rest), List::Cons(base, bases_rest)) => {
                self.scan_modules(**base, &first.modules);
                self.scan_crates(crates_rest, bases_rest);
            },
            _ => {},
        }
    }

    fn start_signatures(&mut self)
        ensures
            final(self)@ == old(self)@.signatures_pending(),
    {
        let mut states: Vec<ComputeState> = Vec::new();
        let end: usize = self.nodes.len();
        let mut i: usize = 0;
        while i < end
            invariant
                i <= end,
                states.len() == i,
                forall|j: int| 0 <= j < i ==> states[j] == ComputeState::Pending,
            decreases end - i,
        {
            states.push(ComputeState::Pending);
            i = i + 1;
        }
        self.sig_states = states;
        assert(self@.sig_states =~= old(self)@.signatures_pending().sig_states);
    }

    fn ensure_signatures(&mut self)
        ensures
            final(self)@ == old(self)@.ensure_signatures_from(0, old(self)@.nodes.len() as int),
    {
        let end: usize = self.nodes.len();
        let mut i: usize = 0;
        while i < end
            invariant
                i <= end,
                self@.ensure_signatures_from(i as int, end as int)
                    == old(self)@.ensure_signatures_from(0, end as int),
            decreases end - i,
        {
            if i < self.nodes.len() {
                let id: DefId = self.nodes[i].def_id;
                self.ensure_signature(id, MAX_DEPTH);
            }
            i = i + 1;
        }
    }

    fn ensure_bodies(&mut self)
        ensures
            final(self)@ == old(self)@.ensure_bodies_from(0, old(self)@.nodes.len() as int),
    {
        let end: usize = self.nodes.len();
        let mut i: usize = 0;
        while i < end
            invariant
                i <= end,
                self@.ensure_bodies_from(i as int, end as int) == old(self)@.ensure_bodies_from(
                    0,
                    end as int,
                ),
            decreases end - i,
        {
            if i < self.nodes.len() {
                let id: DefId = self.nodes[i].def_id;
                self.ensure_body(id, MAX_DEPTH);
            }
            i = i + 1;
        }
    }

    fn export_modules(&mut self, modules: &List<SourceModule>)
        ensures
            final(self)@ == old(self)@.export_modules(modules),
        decreases modules,
    {
        match modules {
            List::Nil => {},
            List::Cons(first, rest) => {
                self.export_items(first.file_id, &first.items);
                self.export_modules(rest);
            },
        }
    }

    fn export_crates(&mut self, crates: &List<SourceCrate>)
        ensures
            final(self)@ == old(self)@.export_crates(crates),
        decreases crates,
    {
        match crates {
            List::Nil => {},
            List::Cons(first, rest) => {
                self.export_modules(&first.modules);
                self.export_crates(rest);
            },
        }
    }
}

/// Whether there is a module in the program.
pub open spec fn has_module(crates: &List<SourceCrate>) -> bool
    decreases crates,
{
    match crates {
        List::Nil => false,
        List::Cons(first, rest) => first.modules !is Nil || has_module(rest),
    }
}

/// Checks a program: its definitions are entered, their signatures resolved,
/// their bodies built, and what is missing or unused is reported. The tables
/// of the result are the typed program, and its interner holds the names.
/// `names` are the symbols of the names with a meaning of their own, as
/// `Interner::well_known` gives them.
pub fn build<'ast>(program: &'ast Program, interner: Interner, names: WellKnown) -> (result: Builder<
    'ast,
>)
    requires
        has_module(&program.crates),
        crate::interner::is_name(interner@, names.self_value, "self"@),
        crate::interner::is_name(interner@, names.self_type, "Self"@),
        crate::interner::is_name(interner@, names.size, "Size"@),
        crate::interner::is_name(interner@, names.pointer_size, "pointer_size"@),
    ensures
        result@ == empty_state(interner@, names, program.next_id).scanned(
            program,
        ).resolved().finished(program),
{
    let mut builder = Builder::new(interner, names, program.next_id);
    let bases = builder.enter_crates(&program.crates);
    builder.scan_crates(&program.crates, &bases);
    builder.start_signatures();
    builder.ensure_signatures();
    builder.ensure_bodies();
    builder.check_trait_conformance();
    builder.export_crates(&program.crates);
    builder.report_unused_items();
    builder
}

impl Interner {
    /// The symbols of the names with a meaning of their own.
    pub fn well_known(&mut self) -> (result: WellKnown)
        requires
            old(self)@.len() + 4 <= u32::MAX,
        ensures
            crate::interner::is_name(final(self)@, result.self_value, "self"@),
            crate::interner::is_name(final(self)@, result.self_type, "Self"@),
            crate::interner::is_name(final(self)@, result.size, "Size"@),
            crate::interner::is_name(final(self)@, result.pointer_size, "pointer_size"@),
            old(self)@.is_prefix_of(final(self)@),
    {
        let self_value: Symbol = self.get_or_intern("self");
        let self_type: Symbol = self.get_or_intern("Self");
        let size: Symbol = self.get_or_intern("Size");
        let pointer_size: Symbol = self.get_or_intern("pointer_size");
        WellKnown { self_value, self_type, size, pointer_size }
    }
}

} // verus!
