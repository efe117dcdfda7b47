//! What `unused` does to the state only adds to it.

use vstd::prelude::*;

use crate::ast::{ExportEntry, Item};
use crate::diagnostics::Diagnostic;
use crate::growth;
use crate::list::List;
use crate::reports::report_duplicate_export;
use crate::span::{FileId, SourceSpan, Spanned, Symbol};
use crate::state::State;
use crate::tir::{ExportItem, SymbolKind, SymbolNamespace};

verus! {

impl<'ast> State<'ast> {
    pub broadcast proof fn adds_report_all(self, diagnostics: List<Diagnostic>)
        ensures
            self.only_adds(#[trigger] self.report_all(diagnostics)),
        decreases diagnostics,
    {
        broadcast use crate::growth::group_adding;

        self.adds_nothing();
        match diagnostics {
            List::Nil => {},
            List::Cons(diagnostic, rest) => {
                let s = self.report(*diagnostic);
                s.adds_report_all(*rest);
            },
        }
    }

    pub broadcast proof fn adds_check_impl_conformance(self, impl_index: usize)
        ensures
            self.only_adds(#[trigger] self.check_impl_conformance(impl_index)),
    {
        broadcast use crate::growth::group_adding;

        self.adds_nothing();
        let (missing, supertraits) = self.impl_violations(impl_index);
        self.adds_report_all(missing);
        let s = self.report_all(missing);
        s.adds_report_all(supertraits);
    }

    pub broadcast proof fn adds_export_name(self, entry: &ExportEntry)
        ensures
            self.only_adds((#[trigger] self.export_name(entry)).0),
    {
        broadcast use crate::growth::group_adding;

        self.adds_nothing();
        reveal(State::export_name);
    }

    pub broadcast proof fn adds_export_target(self, file_id: FileId, name: Spanned<Symbol>)
        ensures
            self.only_adds((#[trigger] self.export_target(file_id, name)).0),
    {
        broadcast use crate::growth::group_adding;

        self.adds_nothing();
        reveal(State::export_target);
        let span = SourceSpan::new(file_id, name.span);
        match self.direct_symbol(None, SymbolNamespace::Value, name.inner) {
            Some(SymbolKind::Function { func_index }) => {},
            Some(SymbolKind::Global { global_index }) => {},
            Some(SymbolKind::Memory { memory_index, kind: _ }) => {},
            Some(other) => {},
            None => {
                self.adds_report_unexportable(name.inner, span);
            },
        }
    }

    pub broadcast proof fn adds_report_unexportable(self, name: Symbol, span: SourceSpan)
        ensures
            self.only_adds(#[trigger] self.report_unexportable(name, span)),
    {
        broadcast use crate::growth::group_adding;

        self.adds_nothing();
        reveal(State::report_unexportable);
    }

    pub broadcast proof fn adds_build_exports(self, file_id: FileId, entries: &List<ExportEntry>)
        ensures
            self.only_adds(#[trigger] self.build_exports(file_id, entries)),
        decreases entries,
    {
        broadcast use crate::growth::group_adding;

        self.adds_nothing();
        match entries {
            List::Nil => {},
            List::Cons(entry, rest) => {
                self.adds_build_export(file_id, entry);
                let s = self.build_export(file_id, entry);
                s.adds_build_exports(file_id, rest);
            },
        }
    }

    pub broadcast proof fn adds_export_items(self, file_id: FileId, items: &List<Item>)
        ensures
            self.only_adds(#[trigger] self.export_items(file_id, items)),
        decreases items,
    {
        broadcast use crate::growth::group_adding;

        self.adds_nothing();
        match items {
            List::Nil => {},
            List::Cons(item, rest) => {
                let s = match &**item {
                    Item::Export { entries } => {
                        self.adds_build_exports(file_id, entries);
                        self.build_exports(file_id, entries)
                    },
                    _ => self,
                };
                s.adds_export_items(file_id, rest);
            },
        }
    }

    pub broadcast proof fn adds_check_function_use(self, func_index: usize)
        ensures
            self.only_adds(#[trigger] self.check_function_use(func_index)),
    {
        broadcast use crate::growth::group_adding;

        self.adds_nothing();
        let unused = self.unused_of_function(func_index);
        self.adds_report_all(unused);
    }

    pub broadcast proof fn adds_check_global_use(self, global_index: usize)
        ensures
            self.only_adds(#[trigger] self.check_global_use(global_index)),
    {
        broadcast use crate::growth::group_adding;

        self.adds_nothing();
        let unused = self.unused_of_global(global_index);
        self.adds_report_all(unused);
    }

    pub broadcast proof fn adds_check_constant_use(self, const_index: usize)
        ensures
            self.only_adds(#[trigger] self.check_constant_use(const_index)),
    {
        broadcast use crate::growth::group_adding;

        self.adds_nothing();
        let unused = self.unused_of_constant(const_index);
        self.adds_report_all(unused);
    }

    pub broadcast proof fn adds_check_struct_use(self, struct_index: usize)
        ensures
            self.only_adds(#[trigger] self.check_struct_use(struct_index)),
    {
        broadcast use crate::growth::group_adding;

        self.adds_nothing();
        let unused = self.unused_of_struct(struct_index);
        self.adds_report_all(unused);
    }

    pub broadcast proof fn adds_check_enum_use(self, enum_index: usize)
        ensures
            self.only_adds(#[trigger] self.check_enum_use(enum_index)),
    {
        broadcast use crate::growth::group_adding;

        self.adds_nothing();
        let unused = self.unused_of_enum(enum_index);
        self.adds_report_all(unused);
    }
}

impl<'ast> State<'ast> {
    /// A name keeps being exported at most once.
    pub broadcast proof fn adds_build_export(self, file_id: FileId, entry: &ExportEntry)
        ensures
            self.only_adds(#[trigger] self.build_export(file_id, entry)),
    {
        broadcast use crate::growth::law_adding_chains;

        reveal(State::build_export);
        self.adds_nothing();
        self.adds_export_name(entry);
        let (s, external_name) = self.export_name(entry);
        s.adds_export_target(file_id, entry.name);
        let (t, target) = s.export_target(file_id, entry.name);
        match target {
            Some(target) => {
                let item = ExportItem { target, internal_name: entry.name, external_name };
                match t.find_export(item.name().inner) {
                    Some(existing) => {
                        t.adds_report(
                            report_duplicate_export(
                                item.name().inner,
                                SourceSpan::new(file_id, existing.name().span),
                                SourceSpan::new(file_id, item.name().span),
                            ),
                        );
                    },
                    None => {
                        growth::export_from_holds(t, item.name().inner, 0);
                        assert(t.only_adds(t.add_export(item))) by {
                            reveal(State::only_adds);
                            reveal(State::grows_to);
                            reveal(State::add_export);
                        }
                    },
                }
            },
            None => {},
        }
    }

    pub proof fn adds_check_trait_conformance_from(self, from: int, end: int)
        ensures
            self.only_adds(self.check_trait_conformance_from(from, end)),
        decreases end - from,
    {
        broadcast use crate::growth::law_adding_chains;

        self.adds_nothing();
        if from < end {
            self.adds_check_impl_conformance(from as usize);
            self.check_impl_conformance(from as usize).adds_check_trait_conformance_from(from + 1, end);
        }
    }

    pub proof fn adds_check_function_uses_from(self, from: int, end: int)
        ensures
            self.only_adds(self.check_function_uses_from(from, end)),
        decreases end - from,
    {
        broadcast use crate::growth::law_adding_chains;

        self.adds_nothing();
        if from < end {
            self.adds_check_function_use(from as usize);
            self.check_function_use(from as usize).adds_check_function_uses_from(from + 1, end);
        }
    }

    pub proof fn adds_check_global_uses_from(self, from: int, end: int)
        ensures
            self.only_adds(self.check_global_uses_from(from, end)),
        decreases end - from,
    {
        broadcast use crate::growth::law_adding_chains;

        self.adds_nothing();
        if from < end {
            self.adds_check_global_use(from as usize);
            self.check_global_use(from as usize).adds_check_global_uses_from(from + 1, end);
        }
    }

    pub proof fn adds_check_constant_uses_from(self, from: int, end: int)
        ensures
            self.only_adds(self.check_constant_uses_from(from, end)),
        decreases end - from,
    {
        broadcast use crate::growth::law_adding_chains;

        self.adds_nothing();
        if from < end {
            self.adds_check_constant_use(from as usize);
            self.check_constant_use(from as usize).adds_check_constant_uses_from(from + 1, end);
        }
    }

    pub proof fn adds_check_struct_uses_from(self, from: int, end: int)
        ensures
            self.only_adds(self.check_struct_uses_from(from, end)),
        decreases end - from,
    {
        broadcast use crate::growth::law_adding_chains;

        self.adds_nothing();
        if from < end {
            self.adds_check_struct_use(from as usize);
            self.check_struct_use(from as usize).adds_check_struct_uses_from(from + 1, end);
        }
    }

    pub proof fn adds_check_enum_uses_from(self, from: int, end: int)
        ensures
            self.only_adds(self.check_enum_uses_from(from, end)),
        decreases end - from,
    {
        broadcast use crate::growth::law_adding_chains;

        self.adds_nothing();
        if from < end {
            self.adds_check_enum_use(from as usize);
            self.check_enum_use(from as usize).adds_check_enum_uses_from(from + 1, end);
        }
    }

    pub proof fn adds_report_unused_items(self)
        ensures
            self.only_adds(self.report_unused_items()),
    {
        broadcast use crate::growth::law_adding_chains;

        self.adds_check_function_uses_from(0, self.functions.len() as int);
        let s = self.check_function_uses_from(0, self.functions.len() as int);
        s.adds_check_global_uses_from(0, s.globals.len() as int);
        let s = s.check_global_uses_from(0, s.globals.len() as int);
        s.adds_check_constant_uses_from(0, s.constants.len() as int);
        let s = s.check_constant_uses_from(0, s.constants.len() as int);
        s.adds_check_struct_uses_from(0, s.structs.len() as int);
        let s = s.check_struct_uses_from(0, s.structs.len() as int);
        s.adds_check_enum_uses_from(0, s.enums.len() as int);
    }
}

} // verus!
