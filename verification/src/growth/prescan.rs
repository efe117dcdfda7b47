//! What `prescan` does to the state only adds to it.

use vstd::prelude::*;

use crate::ast;
use crate::ast::{
    Attribute, ImplItem, ImportDeclaration, Item, TraitItem, TypeExpression, TypeParam,
};
use crate::growth;
use crate::list::List;
use crate::prescan;
use crate::reports::{report_duplicate_definition, report_missing_import_alias};
use crate::span::{DefId, FileId, SourceSpan, Spanned, Symbol, TextSpan};
use crate::state::{AstEntry, AstNodeRef, State, TaggedItem};
use crate::tir::{
    AccessTarget, InherentImpl, ItemAttribute, ModuleDeclarationKind, ModuleNamespace,
    ResolveContext, SymbolKind, SymbolNamespace,
};
use crate::ty;
use crate::types::Type;

verus! {

impl<'ast> State<'ast> {
    pub broadcast proof fn adds_resolve_attributes(self, attributes: &List<Attribute>)
        ensures
            self.only_adds((#[trigger] self.resolve_attributes(attributes)).0),
        decreases attributes,
    {
        broadcast use crate::growth::group_adding;

        self.adds_nothing();
        match attributes {
            List::Nil => {},
            List::Cons(attribute, rest) => {
                self.adds_resolve_attribute(attribute);
                let (s, first) = self.resolve_attribute(attribute);
                s.adds_resolve_attributes(rest);
            },
        }
    }

    pub broadcast proof fn adds_resolve_attribute(self, attribute: &Attribute)
        ensures
            self.only_adds((#[trigger] self.resolve_attribute(attribute)).0),
    {
        broadcast use crate::growth::group_adding;

        self.adds_nothing();
        reveal(State::resolve_attribute);
    }

    pub broadcast proof fn adds_register_tagged_items(
        self,
        id: DefId,
        attributes: &List<ItemAttribute>,
    )
        ensures
            self.only_adds(#[trigger] self.register_tagged_items(id, attributes)),
        decreases attributes,
    {
        broadcast use crate::growth::group_adding;

        self.adds_nothing();
        match attributes {
            List::Nil => {},
            List::Cons(attribute, rest) => {
                let s = match **attribute {
                    ItemAttribute::Tag(key) => self.add_tagged_item(TaggedItem { key, id }),
                    _ => self,
                };
                s.adds_register_tagged_items(id, rest);
            },
        }
    }

    pub broadcast proof fn adds_register_placeholder_memory(
        self,
        context: ResolveContext,
        id: DefId,
        name: Symbol,
    )
        ensures
            self.only_adds(#[trigger] self.register_placeholder_memory(context, id, name)),
    {
        broadcast use crate::growth::group_adding;

        self.adds_nothing();
        reveal(State::register_placeholder_memory);
    }

    pub broadcast proof fn adds_scan_function(
        self,
        file_id: FileId,
        namespace: Option<usize>,
        item: &'ast Item,
        id: DefId,
        pub_span: Option<TextSpan>,
        attributes: &List<Attribute>,
        signature: &ast::FunctionSignature,
    )
        ensures
            self.only_adds(
                #[trigger] self.scan_function(
                    file_id,
                    namespace,
                    item,
                    id,
                    pub_span,
                    attributes,
                    signature,
                ),
            ),
    {
        broadcast use crate::growth::group_adding;

        self.adds_nothing();
        reveal(State::scan_function);
        let (s, _claim) = self.claimed(
            namespace,
            SymbolNamespace::Value,
            signature.name.inner,
            id,
            SourceSpan::new(file_id, signature.name.span),
        );
        s.adds_resolve_attributes(attributes);
        let (s, attributes) = s.resolve_attributes(attributes);
        s.adds_register_tagged_items(id, &attributes);
    }

    pub broadcast proof fn adds_scan_global(
        self,
        file_id: FileId,
        namespace: Option<usize>,
        item: &'ast Item,
        id: DefId,
        pub_span: Option<TextSpan>,
        mut_span: Option<TextSpan>,
        name: Spanned<Symbol>,
    )
        ensures
            self.only_adds(
                #[trigger] self.scan_global(
                    file_id,
                    namespace,
                    item,
                    id,
                    pub_span,
                    mut_span,
                    name,
                ),
            ),
    {
        broadcast use crate::growth::group_adding;

        self.adds_nothing();
        reveal(State::scan_global);
    }

    pub broadcast proof fn adds_scan_struct(
        self,
        file_id: FileId,
        namespace: Option<usize>,
        item: &'ast Item,
        id: DefId,
        pub_span: Option<TextSpan>,
        attributes: &List<Attribute>,
        name: Spanned<Symbol>,
        type_params: &List<TypeParam>,
    )
        ensures
            self.only_adds(
                #[trigger] self.scan_struct(
                    file_id,
                    namespace,
                    item,
                    id,
                    pub_span,
                    attributes,
                    name,
                    type_params,
                ),
            ),
    {
        broadcast use crate::growth::group_adding;

        self.adds_nothing();
        reveal(State::scan_struct);
        let (s, _claim) = self.claimed(
            namespace,
            SymbolNamespace::Type,
            name.inner,
            id,
            SourceSpan::new(file_id, name.span),
        );
        let (s, self_type) = s.intern(
            Type::Struct { struct_index: (s.structs.len() as usize), args: List::Nil },
        );
        s.adds_resolve_attributes(attributes);
    }

    pub broadcast proof fn adds_scan_enum(
        self,
        file_id: FileId,
        namespace: Option<usize>,
        item: &'ast Item,
        id: DefId,
        pub_span: Option<TextSpan>,
        name: Spanned<Symbol>,
    )
        ensures
            self.only_adds(
                #[trigger] self.scan_enum(file_id, namespace, item, id, pub_span, name),
            ),
    {
        broadcast use crate::growth::group_adding;

        self.adds_nothing();
        reveal(State::scan_enum);
    }

    pub broadcast proof fn adds_scan_type_alias(
        self,
        file_id: FileId,
        namespace: Option<usize>,
        item: &'ast Item,
        id: DefId,
        pub_span: Option<TextSpan>,
        name: Spanned<Symbol>,
        type_params: &List<TypeParam>,
    )
        ensures
            self.only_adds(
                #[trigger] self.scan_type_alias(
                    file_id,
                    namespace,
                    item,
                    id,
                    pub_span,
                    name,
                    type_params,
                ),
            ),
    {
        broadcast use crate::growth::group_adding;

        self.adds_nothing();
        reveal(State::scan_type_alias);
    }

    pub broadcast proof fn adds_scan_memory(
        self,
        file_id: FileId,
        namespace: Option<usize>,
        item: &'ast Item,
        id: DefId,
        name: Spanned<Symbol>,
    )
        ensures
            self.only_adds(#[trigger] self.scan_memory(file_id, namespace, item, id, name)),
    {
        broadcast use crate::growth::group_adding;

        self.adds_nothing();
        reveal(State::scan_memory);
    }

    pub broadcast proof fn adds_scan_constant(
        self,
        file_id: FileId,
        namespace: Option<usize>,
        item: &'ast Item,
        id: DefId,
        pub_span: Option<TextSpan>,
        name: Spanned<Symbol>,
    )
        ensures
            self.only_adds(
                #[trigger] self.scan_constant(file_id, namespace, item, id, pub_span, name),
            ),
    {
        broadcast use crate::growth::group_adding;

        self.adds_nothing();
        reveal(State::scan_constant);
    }

    pub broadcast proof fn adds_scan_trait_items(
        self,
        file_id: FileId,
        namespace: Option<usize>,
        trait_index: usize,
        items: &'ast List<TraitItem>,
    )
        ensures
            self.only_adds(
                (#[trigger] self.scan_trait_items(file_id, namespace, trait_index, items)).0,
            ),
        decreases items,
    {
        broadcast use crate::growth::group_adding;

        self.adds_nothing();
        match items {
            List::Nil => {},
            List::Cons(item, rest) => {
                self.adds_scan_trait_item(file_id, namespace, trait_index, item);
                let (s, id) = self.scan_trait_item(file_id, namespace, trait_index, item);
                s.adds_scan_trait_items(file_id, namespace, trait_index, rest);
            },
        }
    }

    pub broadcast proof fn adds_scan_trait_item(
        self,
        file_id: FileId,
        namespace: Option<usize>,
        trait_index: usize,
        item: &'ast TraitItem,
    )
        ensures
            self.only_adds(
                (#[trigger] self.scan_trait_item(file_id, namespace, trait_index, item)).0,
            ),
    {
        broadcast use crate::growth::group_adding;

        self.adds_nothing();
        reveal(State::scan_trait_item);
    }

    pub broadcast proof fn adds_scan_trait(
        self,
        file_id: FileId,
        namespace: Option<usize>,
        item: &'ast Item,
        id: DefId,
        name: Spanned<Symbol>,
        items: &'ast List<TraitItem>,
    )
        ensures
            self.only_adds(#[trigger] self.scan_trait(file_id, namespace, item, id, name, items)),
    {
        broadcast use crate::growth::group_adding;

        self.adds_nothing();
        reveal(State::scan_trait);
        let s = match self.direct_symbol(namespace, SymbolNamespace::Type, name.inner) {
            Some(SymbolKind::Pending(_)) => self,
            Some(existing) => {
                self.report(
                    report_duplicate_definition(
                        name.inner,
                        SymbolNamespace::Type,
                        self.symbol_location(existing),
                        SourceSpan::new(file_id, name.span),
                    ),
                )
            },
            None => self,
        };
        s.adds_scan_trait_items(file_id, namespace, (s.traits.len() as usize), items);
    }

    pub broadcast proof fn adds_scan_inherent_items(
        self,
        file_id: FileId,
        namespace: Option<usize>,
        block_id: DefId,
        block_index: usize,
        is_generic: bool,
        items: &'ast List<ImplItem>,
    )
        ensures
            self.only_adds(
                #[trigger] self.scan_inherent_items(
                    file_id,
                    namespace,
                    block_id,
                    block_index,
                    is_generic,
                    items,
                ),
            ),
        decreases items,
    {
        broadcast use crate::growth::group_adding;

        self.adds_nothing();
        match items {
            List::Nil => {},
            List::Cons(item, rest) => {
                self.adds_scan_inherent_item(
                    file_id,
                    namespace,
                    block_id,
                    block_index,
                    is_generic,
                    item,
                );
                let s = self.scan_inherent_item(
                    file_id,
                    namespace,
                    block_id,
                    block_index,
                    is_generic,
                    item,
                );
                s.adds_scan_inherent_items(
                    file_id,
                    namespace,
                    block_id,
                    block_index,
                    is_generic,
                    rest,
                );
            },
        }
    }

    pub broadcast proof fn adds_scan_inherent_item(
        self,
        file_id: FileId,
        namespace: Option<usize>,
        block_id: DefId,
        block_index: usize,
        is_generic: bool,
        item: &'ast ImplItem,
    )
        ensures
            self.only_adds(
                #[trigger] self.scan_inherent_item(
                    file_id,
                    namespace,
                    block_id,
                    block_index,
                    is_generic,
                    item,
                ),
            ),
    {
        broadcast use crate::growth::group_adding;

        self.adds_nothing();
        reveal(State::scan_inherent_item);
    }

    pub broadcast proof fn adds_scan_inherent_impl(
        self,
        file_id: FileId,
        namespace: Option<usize>,
        id: DefId,
        type_params: &'ast List<TypeParam>,
        target: &'ast Spanned<TypeExpression>,
        items: &'ast List<ImplItem>,
    )
        ensures
            self.only_adds(
                #[trigger] self.scan_inherent_impl(
                    file_id,
                    namespace,
                    id,
                    type_params,
                    target,
                    items,
                ),
            ),
    {
        broadcast use crate::growth::group_adding;

        self.adds_nothing();
        reveal(State::scan_inherent_impl);
        let (s, block_index) = self.add_inherent_impl(
            InherentImpl {
                id,
                file_id,
                type_params: prescan::named_params(type_params),
                target: Spanned { inner: ty::ERROR, span: target.span },
                members: List::Nil,
            },
        );
        let s = s.add_node(
            AstEntry {
                def_id: id,
                file_id,
                namespace,
                node: AstNodeRef::InherentImplBlock { type_params, target, block_index },
            },
        );
        s.adds_scan_inherent_items(
            file_id,
            namespace,
            id,
            block_index,
            !type_params.is_empty(),
            items,
        );
    }

    pub broadcast proof fn adds_scan_trait_impl_items(
        self,
        file_id: FileId,
        namespace: Option<usize>,
        parent_id: DefId,
        items: &'ast List<ImplItem>,
    )
        ensures
            self.only_adds(
                #[trigger] self.scan_trait_impl_items(file_id, namespace, parent_id, items),
            ),
        decreases items,
    {
        broadcast use crate::growth::group_adding;

        self.adds_nothing();
        match items {
            List::Nil => {},
            List::Cons(item, rest) => {
                self.adds_scan_trait_impl_item(file_id, namespace, parent_id, item);
                let s = self.scan_trait_impl_item(file_id, namespace, parent_id, item);
                s.adds_scan_trait_impl_items(file_id, namespace, parent_id, rest);
            },
        }
    }

    pub broadcast proof fn adds_scan_trait_impl_item(
        self,
        file_id: FileId,
        namespace: Option<usize>,
        parent_id: DefId,
        item: &'ast ImplItem,
    )
        ensures
            self.only_adds(
                #[trigger] self.scan_trait_impl_item(file_id, namespace, parent_id, item),
            ),
    {
        broadcast use crate::growth::group_adding;

        self.adds_nothing();
        reveal(State::scan_trait_impl_item);
    }

    pub broadcast proof fn adds_scan_import_entries(
        self,
        file_id: FileId,
        namespace: Option<usize>,
        import_index: usize,
        entries: &'ast List<ImportDeclaration>,
    )
        ensures
            self.only_adds(
                #[trigger] self.scan_import_entries(file_id, namespace, import_index, entries),
            ),
        decreases entries,
    {
        broadcast use crate::growth::group_adding;

        self.adds_nothing();
        match entries {
            List::Nil => {},
            List::Cons(decl, rest) => {
                self.adds_scan_import_entry(file_id, namespace, import_index, decl);
                let s = self.scan_import_entry(file_id, namespace, import_index, decl);
                s.adds_scan_import_entries(file_id, namespace, import_index, rest);
            },
        }
    }

    pub broadcast proof fn adds_scan_import_entry(
        self,
        file_id: FileId,
        namespace: Option<usize>,
        import_index: usize,
        decl: &'ast ImportDeclaration,
    )
        ensures
            self.only_adds(
                #[trigger] self.scan_import_entry(file_id, namespace, import_index, decl),
            ),
    {
        broadcast use crate::growth::group_adding;

        self.adds_nothing();
        reveal(State::scan_import_entry);
    }

    pub broadcast proof fn adds_scan_import(
        self,
        file_id: FileId,
        namespace: Option<usize>,
        module: Spanned<Symbol>,
        alias: Option<Spanned<Symbol>>,
        entries: &'ast List<ImportDeclaration>,
    )
        ensures
            ({
                let later = #[trigger] self.scan_import(file_id, namespace, module, alias, entries);
                &&& self.grows_to(later)
                &&& self.in_order() && self.has_namespace(namespace) && later.namespaces.len()
                    <= usize::MAX ==> later.in_order()
            }),
    {
        broadcast use crate::growth::group_adding;
        broadcast use crate::growth::group_growing;

        self.adds_nothing();
        reveal(State::scan_import);
        let (s, module_name) = self.unquoted_name(module.inner);
        let name = match alias {
            Some(alias) => alias.inner,
            None => module_name,
        };
        let s = if alias.is_none() {
            s.report(report_missing_import_alias(SourceSpan::new(file_id, module.span)))
        } else {
            s
        };
        let import_index: usize = (s.import_decls.len() as usize);
        let (s, namespace_idx) = s.add_namespace(
            ModuleNamespace {
                name,
                parent: namespace,
                declaration: ModuleDeclarationKind::Import(import_index),
                wildcard_imports: List::Nil,
            },
        );
        growth::symbol_is_added(
            s,
            namespace,
            SymbolNamespace::Type,
            name,
            SymbolKind::Module { namespace_idx },
        );
        let s = s.with_symbol(
            namespace,
            SymbolNamespace::Type,
            name,
            SymbolKind::Module { namespace_idx },
        );
        s.adds_scan_import_entries(file_id, namespace, import_index, entries);
    }

    pub broadcast proof fn adds_resolve_use_path(
        self,
        file_id: FileId,
        current: Option<usize>,
        path: &List<Spanned<Symbol>>,
    )
        ensures
            self.only_adds((#[trigger] self.resolve_use_path(file_id, current, path)).0),
        decreases path,
    {
        broadcast use crate::growth::group_adding;

        self.adds_nothing();
        match path {
            List::Nil => {},
            List::Cons(segment, rest) => {
                match self.direct_symbol(current, SymbolNamespace::Type, segment.inner) {
                    Some(SymbolKind::Module { namespace_idx }) => {
                        let s = self.access(
                            AccessTarget::Namespace(namespace_idx),
                            SourceSpan::new(file_id, segment.span),
                        );
                        s.adds_resolve_use_path(file_id, Some(namespace_idx), rest);
                    },
                    _ => {},
                }
            },
        }
    }

    pub broadcast proof fn adds_scan_use(
        self,
        file_id: FileId,
        namespace: Option<usize>,
        path: &List<Spanned<Symbol>>,
    )
        ensures
            self.only_adds(#[trigger] self.scan_use(file_id, namespace, path)),
    {
        broadcast use crate::growth::group_adding;

        self.adds_nothing();
        reveal(State::scan_use);
        self.adds_resolve_use_path(file_id, None, path);
    }

    pub broadcast proof fn adds_scan_typeset(
        self,
        file_id: FileId,
        namespace: Option<usize>,
        item: &'ast Item,
        id: DefId,
        pub_span: Option<TextSpan>,
        attributes: &List<Attribute>,
        name: Spanned<Symbol>,
    )
        ensures
            self.only_adds(
                #[trigger] self.scan_typeset(
                    file_id,
                    namespace,
                    item,
                    id,
                    pub_span,
                    attributes,
                    name,
                ),
            ),
    {
        broadcast use crate::growth::group_adding;

        self.adds_nothing();
        reveal(State::scan_typeset);
        self.adds_resolve_attributes(attributes);
        let (s, attributes) = self.resolve_attributes(attributes);
        s.adds_register_tagged_items(id, &attributes);
    }

    pub broadcast proof fn adds_pre_scan_item(
        self,
        file_id: FileId,
        namespace: Option<usize>,
        item: &'ast Item,
    )
        ensures
            ({
                let later = #[trigger] self.pre_scan_item(file_id, namespace, item);
                &&& self.grows_to(later)
                &&& self.in_order() && self.has_namespace(namespace) && later.namespaces.len()
                    <= usize::MAX ==> later.in_order()
            }),
        decreases item,
    {
        broadcast use crate::growth::group_adding;
        broadcast use crate::growth::group_growing;

        self.adds_nothing();
        match item {
            Item::Function { id, pub_span, attributes, signature, .. } => {
                self.adds_scan_function(
                    file_id,
                    namespace,
                    item,
                    *id,
                    *pub_span,
                    attributes,
                    signature,
                );
            },
            Item::FunctionDeclaration { id, pub_span, attributes, signature } => {
                self.adds_scan_function(
                    file_id,
                    namespace,
                    item,
                    *id,
                    *pub_span,
                    attributes,
                    signature,
                );
            },
            Item::Global { id, pub_span, mut_span, name, .. } => {
                self.adds_scan_global(file_id, namespace, item, *id, *pub_span, *mut_span, *name);
            },
            Item::Struct { id, pub_span, attributes, name, type_params, .. } => {
                self.adds_scan_struct(
                    file_id,
                    namespace,
                    item,
                    *id,
                    *pub_span,
                    attributes,
                    *name,
                    type_params,
                );
            },
            Item::Enum { id, pub_span, name, .. } => {
                self.adds_scan_enum(file_id, namespace, item, *id, *pub_span, *name);
            },
            Item::TypeAlias { id, pub_span, name, type_params, .. } => {
                self.adds_scan_type_alias(
                    file_id,
                    namespace,
                    item,
                    *id,
                    *pub_span,
                    *name,
                    type_params,
                );
            },
            Item::Memory { id, name, .. } => {
                self.adds_scan_memory(file_id, namespace, item, *id, *name);
            },
            Item::Const { id, pub_span, name, .. } => {
                self.adds_scan_constant(file_id, namespace, item, *id, *pub_span, *name);
            },
            Item::Module { name, pub_span, items } => {
                let (s, namespace_idx) = self.module_ensured(
                    file_id,
                    namespace,
                    *name,
                    *pub_span,
                );
                s.adds_pre_scan_items(file_id, Some(namespace_idx), items);
            },
            Item::ModuleDeclaration { name, pub_span } => {},
            Item::Trait { id, name, items, .. } => {
                self.adds_scan_trait(file_id, namespace, item, *id, *name, items);
            },
            Item::TypeSet { id, pub_span, attributes, name, .. } => {
                self.adds_scan_typeset(
                    file_id,
                    namespace,
                    item,
                    *id,
                    *pub_span,
                    attributes,
                    *name,
                );
            },
            Item::InherentImpl { id, type_params, target, items } => {
                self.adds_scan_inherent_impl(file_id, namespace, *id, type_params, target, items);
            },
            Item::TraitImpl { id, items, .. } => {
                let s = self.add_node(
                    AstEntry {
                        def_id: *id,
                        file_id,
                        namespace,
                        node: AstNodeRef::TraitImplBlock { item },
                    },
                );
                s.adds_scan_trait_impl_items(file_id, namespace, *id, items);
            },
            Item::Import { module, alias, entries } => {
                self.adds_scan_import(file_id, namespace, *module, *alias, entries);
            },
            Item::Use { path } => {
                self.adds_scan_use(file_id, namespace, path);
            },
            Item::Export { .. } => {},
        }
    }

    pub broadcast proof fn adds_pre_scan_items(
        self,
        file_id: FileId,
        namespace: Option<usize>,
        items: &'ast List<Item>,
    )
        ensures
            ({
                let later = #[trigger] self.pre_scan_items(file_id, namespace, items);
                &&& self.grows_to(later)
                &&& self.in_order() && self.has_namespace(namespace) && later.namespaces.len()
                    <= usize::MAX ==> later.in_order()
            }),
        decreases items,
    {
        broadcast use crate::growth::group_adding;
        broadcast use crate::growth::group_growing;

        self.adds_nothing();
        match items {
            List::Nil => {},
            List::Cons(item, rest) => {
                self.adds_pre_scan_item(file_id, namespace, item);
                let s = self.pre_scan_item(file_id, namespace, item);
                s.adds_pre_scan_items(file_id, namespace, rest);
            },
        }
    }
}

} // verus!
