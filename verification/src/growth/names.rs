//! What `names` does to the state only adds to it.

use vstd::prelude::*;

use crate::growth;
use crate::list::List;
use crate::reports::{
    report_cannot_mutate_immutable, report_duplicate_definition, report_namespace_used_as_value,
};
use crate::span::{DefId, FileId, SourceSpan, Spanned, Symbol, TextSpan};
use crate::state;
use crate::state::State;
use crate::tir::{
    AccessContext, AccessTarget, ModuleDecl, ModuleDeclarationKind, ModuleNamespace,
    ResolveContext, SymbolKind, SymbolNamespace,
};
use crate::ty;
use crate::types::Type;

verus! {

impl<'ast> State<'ast> {
    pub broadcast proof fn adds_claimed(
        self,
        namespace: Option<usize>,
        space: SymbolNamespace,
        name: Symbol,
        id: DefId,
        definition: SourceSpan,
    )
        ensures
            self.only_adds((#[trigger] self.claimed(namespace, space, name, id, definition)).0),
    {
        match self.direct_symbol(namespace, space, name) {
            Some(existing) => {
                self.adds_report(
                    report_duplicate_definition(
                        name,
                        space,
                        self.symbol_location(existing),
                        definition,
                    ),
                );
            },
            None => {
                self.adds_with_symbol(namespace, space, name, SymbolKind::Pending(id));
            },
        }
    }

    pub broadcast proof fn adds_bound(
        self,
        namespace: Option<usize>,
        space: SymbolNamespace,
        name: Symbol,
        id: DefId,
        kind: SymbolKind,
    )
        requires
            self.module_exists(kind),
        ensures
            self.only_adds(#[trigger] self.bound(namespace, space, name, id, kind)),
    {
        self.adds_nothing();
        self.adds_with_symbol(namespace, space, name, kind);
    }

    pub broadcast proof fn adds_type_kind_access(self, kind: SymbolKind, span: SourceSpan)
        ensures
            self.only_adds(#[trigger] self.type_kind_access(kind, span)),
    {
        self.adds_nothing();
        match kind {
            SymbolKind::Struct { struct_index } => {
                self.adds_access(AccessTarget::Struct(struct_index), span);
            },
            SymbolKind::Enum { enum_index } => {
                self.adds_access(AccessTarget::Enum(enum_index), span);
            },
            SymbolKind::Trait { trait_index } => {
                self.adds_access(AccessTarget::Trait(trait_index), span);
            },
            SymbolKind::TypeSet { typeset_index } => {
                self.adds_access(AccessTarget::TypeSet(typeset_index), span);
            },
            SymbolKind::TypeAlias { type_alias_index } => {
                self.adds_access(AccessTarget::TypeAlias(type_alias_index), span);
            },
            SymbolKind::Const { const_index } => {
                self.adds_access(AccessTarget::Const(const_index), span);
            },
            SymbolKind::Memory { memory_index, kind: _ } => {
                self.adds_access(AccessTarget::Memory(memory_index), span);
            },
            _ => {},
        }
    }

    pub broadcast proof fn adds_kind_type(self, kind: SymbolKind)
        ensures
            self.only_adds((#[trigger] self.kind_type(kind)).0),
    {
        self.adds_nothing();
        match kind {
            SymbolKind::Memory { memory_index, kind } => match state::seq_at(
                self.memories,
                memory_index,
            ) {
                Some(memory) => {
                    self.adds_intern(Type::Memory { kind, id: memory.id });
                },
                None => {},
            },
            SymbolKind::Module { namespace_idx } => {
                self.adds_intern(Type::Namespace { namespace_idx });
            },
            SymbolKind::Enum { enum_index } => {
                self.adds_intern(Type::Enum { enum_index });
            },
            SymbolKind::Struct { struct_index } => {
                self.adds_intern(Type::Struct { struct_index, args: List::Nil });
            },
            _ => {},
        }
    }

    pub broadcast proof fn adds_global_expression(
        self,
        context: ResolveContext,
        access: AccessContext,
        kind: SymbolKind,
        span: TextSpan,
    )
        ensures
            self.only_adds((#[trigger] self.global_expression(context, access, kind, span)).0),
    {
        broadcast use crate::growth::law_adding_chains;

        self.adds_nothing();
        match kind {
            SymbolKind::Function { func_index } => match self.function(func_index) {
                Some(function) => {
                    self.adds_access(AccessTarget::Function(func_index), context.at(span));
                    let s = self.access(AccessTarget::Function(func_index), context.at(span));
                    s.adds_intern(
                        Type::FunctionItem {
                            id: function.id,
                            type_args: List::repeated(
                                ty::INFER,
                                crate::list::clamp(function.type_params.count()) as nat,
                            ),
                        },
                    );
                },
                None => {},
            },
            SymbolKind::Global { global_index } => match state::seq_at(
                self.globals,
                global_index,
            ) {
                Some(global) => {
                    self.adds_access(AccessTarget::Global(global_index), context.at(span));
                    let s = self.access(AccessTarget::Global(global_index), context.at(span));
                    s.adds_report(report_cannot_mutate_immutable(context.at(span)));
                },
                None => {},
            },
            SymbolKind::Const { const_index } => {
                self.adds_access(AccessTarget::Const(const_index), context.at(span));
            },
            SymbolKind::Memory { memory_index, kind } => match state::seq_at(
                self.memories,
                memory_index,
            ) {
                Some(memory) => {
                    self.adds_access(AccessTarget::Memory(memory_index), context.at(span));
                    let s = self.access(AccessTarget::Memory(memory_index), context.at(span));
                    s.adds_intern(Type::Memory { kind, id: memory.id });
                },
                None => {},
            },
            _ => {
                self.adds_report(report_namespace_used_as_value(context.at(span)));
            },
        }
    }

    pub proof fn adds_module_published(self, namespace_idx: usize, pub_span: Option<TextSpan>)
        ensures
            self.only_adds(self.module_published(namespace_idx, pub_span)),
    {
        reveal(State::only_adds);
        reveal(State::grows_to);
    }

    pub proof fn adds_module_located(self, namespace_idx: usize, file_id: FileId)
        ensures
            self.only_adds(self.module_located(namespace_idx, file_id)),
    {
        reveal(State::only_adds);
        reveal(State::grows_to);
    }

    /// A meaning that a name has itself leads to a namespace where it is a
    /// module.
    proof fn meaning_leads_somewhere(
        self,
        namespace: Option<usize>,
        space: SymbolNamespace,
        name: Symbol,
    )
        requires
            self.in_order(),
        ensures
            self.direct_symbol(namespace, space, name) matches Some(kind) ==> self.module_exists(kind),
    {
        growth::symbol_position_holds(self.symbols, namespace, space, name, 0);
    }

    proof fn imported_meaning_leads_somewhere(
        self,
        imports: List<usize>,
        space: SymbolNamespace,
        name: Symbol,
    )
        requires
            self.in_order(),
        ensures
            self.imported_symbol(imports, space, name) matches Some(kind) ==> self.module_exists(kind),
        decreases imports,
    {
        match imports {
            List::Nil => {},
            List::Cons(import, rest) => {
                self.meaning_leads_somewhere(Some(*import), space, name);
                self.imported_meaning_leads_somewhere(*rest, space, name);
            },
        }
    }

    proof fn root_meaning_leads_somewhere(self, space: SymbolNamespace, name: Symbol, from: int)
        requires
            self.in_order(),
        ensures
            self.root_imported_symbol(space, name, from) matches Some(kind) ==> self.module_exists(
                kind,
            ),
            self.root_symbol(space, name) is Some && self.direct_symbol(
                None,
                space,
                name,
            ) is Some ==> self.module_exists(self.root_symbol(space, name)->0),
        decreases self.root_wildcard_imports.len() - from,
    {
        self.meaning_leads_somewhere(None, space, name);
        if 0 <= from < self.root_wildcard_imports.len() {
            self.meaning_leads_somewhere(Some(self.root_wildcard_imports[from]), space, name);
            self.root_meaning_leads_somewhere(space, name, from + 1);
        }
    }

    proof fn visible_meaning_leads_somewhere(
        self,
        namespace: Option<usize>,
        space: SymbolNamespace,
        name: Symbol,
        steps: nat,
    )
        requires
            self.in_order(),
        ensures
            self.visible_in_steps(namespace, space, name, steps) matches Some(kind)
                ==> self.module_exists(kind),
        decreases steps,
    {
        self.root_meaning_leads_somewhere(space, name, 0);
        match namespace {
            Some(index) => {
                self.meaning_leads_somewhere(namespace, space, name);
                match state::seq_at(self.namespaces, index) {
                    Some(declaration) => {
                        self.imported_meaning_leads_somewhere(
                            declaration.wildcard_imports,
                            space,
                            name,
                        );
                    },
                    None => {},
                }
                if steps > 0 {
                    self.visible_meaning_leads_somewhere(
                        self.namespace_around(index),
                        space,
                        name,
                        (steps - 1) as nat,
                    );
                }
            },
            None => {},
        }
    }

    pub broadcast proof fn adds_module_ensured(
        self,
        file_id: FileId,
        namespace: Option<usize>,
        name: Spanned<Symbol>,
        pub_span: Option<TextSpan>,
    )
        ensures
            ({
                let (later, index) = #[trigger] self.module_ensured(
                    file_id,
                    namespace,
                    name,
                    pub_span,
                );
                &&& self.grows_to(later)
                &&& self.in_order() && self.has_namespace(namespace) && later.namespaces.len()
                    <= usize::MAX ==> later.in_order() && later.has_namespace(Some(index))
            }),
    {
        broadcast use crate::growth::group_growing;

        if self.in_order() {
            self.visible_meaning_leads_somewhere(
                namespace,
                SymbolNamespace::Type,
                name.inner,
                self.namespaces.len(),
            );
        }
        match self.visible_symbol(namespace, SymbolNamespace::Type, name.inner) {
            Some(SymbolKind::Module { namespace_idx }) => {
                self.adds_module_published(namespace_idx, pub_span);
            },
            _ => {
                let namespace_idx = self.namespaces.len() as usize;
                let decl_idx = self.module_decls.len() as usize;
                let item = ModuleNamespace {
                    name: name.inner,
                    parent: namespace,
                    declaration: ModuleDeclarationKind::Module(decl_idx),
                    wildcard_imports: List::Nil,
                };
                let s = State {
                    namespaces: self.namespaces.push(item),
                    module_decls: self.module_decls.push(
                        ModuleDecl {
                            namespace_idx,
                            declaring_file_id: file_id,
                            own_file_id: None,
                            name,
                            pub_span,
                        },
                    ),
                    ..self
                };
                self.adds_add_namespace(item);
                let added = self.add_namespace(item).0;
                assert(added.namespaces == s.namespaces && added.symbols == s.symbols) by {
                    reveal(State::add_namespace);
                }
                assert(self.grows_to(s)) by {
                    reveal(State::grows_to);
                }
                growth::symbol_is_added(
                    s,
                    namespace,
                    SymbolNamespace::Type,
                    name.inner,
                    SymbolKind::Module { namespace_idx },
                );
            },
        }
    }

    pub broadcast proof fn adds_module_path_ensured(
        self,
        file_id: FileId,
        base: Option<usize>,
        path: List<Symbol>,
    )
        ensures
            ({
                let (later, namespace) = #[trigger] self.module_path_ensured(file_id, base, path);
                &&& self.grows_to(later)
                &&& self.in_order() && self.has_namespace(base) && later.namespaces.len()
                    <= usize::MAX ==> later.in_order() && later.has_namespace(namespace)
            }),
        decreases path,
    {
        broadcast use crate::growth::group_growing;

        self.adds_nothing();
        match path {
            List::Nil => {},
            List::Cons(segment, rest) => {
                let name = Spanned { inner: *segment, span: TextSpan::new(0, 0) };
                self.adds_module_ensured(file_id, base, name, None);
                let (s, index) = self.module_ensured(file_id, base, name, None);
                s.adds_nothing();
                s.adds_module_located(index, file_id);
                let t = match *rest {
                    List::Nil => s.module_located(index, file_id),
                    List::Cons(..) => s,
                };
                t.adds_module_path_ensured(file_id, Some(index), *rest);
            },
        }
    }
}

} // verus!
