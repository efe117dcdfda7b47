//! The first phase: every definition of the program gets its name and its
//! place in the tables, before any signature is looked at.

use vstd::prelude::*;

use crate::ast;
use crate::ast::{
    Attribute, AttributeValue, ImplItem, ImportDeclaration, Item, TraitItem, TypeExpression,
    TypeParam,
};
use crate::interner;
use crate::list::{cons, single, List};
use crate::reports::{
    report_associated_type_in_inherent_impl, report_constant_in_generic_impl,
    report_duplicate_definition,
    report_missing_import_alias,
};
use crate::span::{DefId, FileId, SourceSpan, Spanned, Symbol, TextSpan};
use crate::state;
use crate::state::{vec_at, AstEntry, AstNodeRef, Builder, State, TaggedItem};
use crate::tir::{
    AccessTarget, Bounds, Constant, Enum, Function, Global, ImportDecl, InherentImpl,
    IntegerRange, ItemAttribute, ItemIndex, Memory, ModuleDeclarationKind, ModuleNamespace,
    ResolveContext, Struct, SymbolKind, SymbolNamespace, Trait, TraitBound, TypeAlias,
    TypeParamInfo, TypeSet,
};
use crate::ty;
use crate::types::{Type, TypeIndex};

verus! {

/// Type parameters by their names alone.
pub open spec fn named_params(params: &List<TypeParam>) -> List<TypeParamInfo>
    decreases params,
{
    match params {
        List::Nil => List::Nil,
        List::Cons(param, rest) => cons(TypeParamInfo::new(param.name), named_params(rest)),
    }
}

/// Type parameters by their names alone.
pub fn new_type_params(params: &List<TypeParam>) -> (result: List<TypeParamInfo>)
    ensures
        result == named_params(params),
    decreases params,
{
    match params {
        List::Nil => List::Nil,
        List::Cons(param, rest) => cons(TypeParamInfo::new(param.name), new_type_params(rest)),
    }
}

impl<'ast> State<'ast> {
    /// The attributes that have a meaning, in order.
    pub open spec fn resolve_attributes(
        self,
        attributes: &List<Attribute>,
    ) -> (State<'ast>, List<ItemAttribute>)
        decreases attributes,
    {
        match attributes {
            List::Nil => (self, List::Nil),
            List::Cons(attribute, rest) => {
                let (s, first) = self.resolve_attribute(attribute);
                let (s, others) = s.resolve_attributes(rest);
                match first {
                    Some(known) => (s, cons(known, others)),
                    None => (s, others),
                }
            },
        }
    }

    /// The meaning of an attribute, if it has one.
    #[verifier::opaque]
    pub open spec fn resolve_attribute(
        self,
        attribute: &Attribute,
    ) -> (State<'ast>, Option<ItemAttribute>) {
        match &attribute.value {
            AttributeValue::Word => {
                if interner::is_name(self.texts, attribute.name.inner, "inline"@) {
                    (self, Some(ItemAttribute::Inline))
                } else if interner::is_name(self.texts, attribute.name.inner, "intrinsic"@) {
                    (self, Some(ItemAttribute::Intrinsic))
                } else if interner::is_name(self.texts, attribute.name.inner, "fixed_layout"@) {
                    (self, Some(ItemAttribute::FixedLayout))
                } else {
                    (self, None)
                }
            },
            AttributeValue::NameValue(value) => {
                if interner::is_name(self.texts, attribute.name.inner, "tag"@) {
                    let (s, key) = self.unquoted_name(value.inner);
                    (s, Some(ItemAttribute::Tag(key)))
                } else {
                    (self, None)
                }
            },
        }
    }

    /// Notes each tag among the attributes of a definition.
    pub open spec fn register_tagged_items(
        self,
        id: DefId,
        attributes: &List<ItemAttribute>,
    ) -> State<'ast>
        decreases attributes,
    {
        match attributes {
            List::Nil => self,
            List::Cons(attribute, rest) => {
                let s = match **attribute {
                    ItemAttribute::Tag(key) => self.add_tagged_item(TaggedItem { key, id }),
                    _ => self,
                };
                s.register_tagged_items(id, rest)
            },
        }
    }

    /// Gives the name of a memory whose declaration is wrong its meaning.
    #[verifier::opaque]
    pub open spec fn register_placeholder_memory(
        self,
        context: ResolveContext,
        id: DefId,
        name: Symbol,
    ) -> State<'ast> {
        match self.memory_index(id) {
            Some(memory_index) => {
                let kind = SymbolKind::Memory { memory_index, kind: ty::ERROR };
                let s = self.bound(context.namespace, SymbolNamespace::Type, name, id, kind);
                s.bound(context.namespace, SymbolNamespace::Value, name, id, kind)
            },
            None => self,
        }
    }

    /// Enters a function.
    #[verifier::opaque]
    pub open spec fn scan_function(
        self,
        file_id: FileId,
        namespace: Option<usize>,
        item: &'ast Item,
        id: DefId,
        pub_span: Option<TextSpan>,
        attributes: &List<Attribute>,
        signature: &ast::FunctionSignature,
    ) -> State<'ast> {
        let (s, _claim) = self.claimed(
            namespace,
            SymbolNamespace::Value,
            signature.name.inner,
            id,
            SourceSpan::new(file_id, signature.name.span),
        );
        let (s, attributes) = s.resolve_attributes(attributes);
        let s = s.register_tagged_items(id, &attributes);
        let (s, func_index) = s.add_function(
            Function {
                id,
                file_id,
                namespace,
                parent: None,
                type_params: named_params(&signature.type_params),
                type_param_parent: None,
                inherited_type_param_count: 0,
                pub_span,
                signature_index: ty::ERROR,
                name: signature.name,
                params: List::Nil,
                result: None,
                attributes,
                body: None,
            },
        );
        let s = s.with_item(id, ItemIndex::Function(func_index));
        s.add_node(
            AstEntry { def_id: id, file_id, namespace, node: AstNodeRef::Function { item } },
        )
    }

    /// Enters a global variable.
    #[verifier::opaque]
    pub open spec fn scan_global(
        self,
        file_id: FileId,
        namespace: Option<usize>,
        item: &'ast Item,
        id: DefId,
        pub_span: Option<TextSpan>,
        mut_span: Option<TextSpan>,
        name: Spanned<Symbol>,
    ) -> State<'ast> {
        let (s, _claim) = self.claimed(
            namespace,
            SymbolNamespace::Value,
            name.inner,
            id,
            SourceSpan::new(file_id, name.span),
        );
        let (s, global_index) = s.add_global(
            Global {
                id,
                file_id,
                namespace,
                name,
                ty: Spanned { inner: ty::ERROR, span: name.span },
                pub_span,
                mut_span,
                value: None,
            },
        );
        let s = s.with_item(id, ItemIndex::Global(global_index));
        s.add_node(
            AstEntry { def_id: id, file_id, namespace, node: AstNodeRef::Global { item } },
        )
    }

    /// Enters a struct.
    #[verifier::opaque]
    pub open spec fn scan_struct(
        self,
        file_id: FileId,
        namespace: Option<usize>,
        item: &'ast Item,
        id: DefId,
        pub_span: Option<TextSpan>,
        attributes: &List<Attribute>,
        name: Spanned<Symbol>,
        type_params: &List<TypeParam>,
    ) -> State<'ast> {
        let (s, _claim) = self.claimed(
            namespace,
            SymbolNamespace::Type,
            name.inner,
            id,
            SourceSpan::new(file_id, name.span),
        );
        let (s, self_type) = s.intern(
            Type::Struct { struct_index: (s.structs.len() as usize), args: List::Nil },
        );
        let (s, attributes) = s.resolve_attributes(attributes);
        let (s, struct_index) = s.add_struct_item(
            Struct {
                id,
                file_id,
                namespace,
                pub_span,
                name,
                type_params: named_params(type_params),
                self_type,
                attributes,
                fields: List::Nil,
            },
        );
        let s = s.with_item(id, ItemIndex::Struct(struct_index));
        s.add_node(
            AstEntry { def_id: id, file_id, namespace, node: AstNodeRef::Struct { item } },
        )
    }

    /// Enters an enum.
    #[verifier::opaque]
    pub open spec fn scan_enum(
        self,
        file_id: FileId,
        namespace: Option<usize>,
        item: &'ast Item,
        id: DefId,
        pub_span: Option<TextSpan>,
        name: Spanned<Symbol>,
    ) -> State<'ast> {
        let (s, _claim) = self.claimed(
            namespace,
            SymbolNamespace::Type,
            name.inner,
            id,
            SourceSpan::new(file_id, name.span),
        );
        let (s, self_type) = s.intern(Type::Enum { enum_index: (s.enums.len() as usize) });
        let (s, enum_index) = s.add_enum_item(
            Enum {
                id,
                file_id,
                namespace,
                pub_span,
                name,
                repr_type: ty::ERROR,
                self_type,
                variants: List::Nil,
            },
        );
        let s = s.with_item(id, ItemIndex::Enum(enum_index));
        s.add_node(
            AstEntry { def_id: id, file_id, namespace, node: AstNodeRef::Enum { item } },
        )
    }

    /// Enters a type alias.
    #[verifier::opaque]
    pub open spec fn scan_type_alias(
        self,
        file_id: FileId,
        namespace: Option<usize>,
        item: &'ast Item,
        id: DefId,
        pub_span: Option<TextSpan>,
        name: Spanned<Symbol>,
        type_params: &List<TypeParam>,
    ) -> State<'ast> {
        let (s, _claim) = self.claimed(
            namespace,
            SymbolNamespace::Type,
            name.inner,
            id,
            SourceSpan::new(file_id, name.span),
        );
        let (s, type_alias_index) = s.add_type_alias(
            TypeAlias {
                id,
                file_id,
                namespace,
                pub_span,
                name,
                type_params: named_params(type_params),
                template: ty::ERROR,
            },
        );
        let s = s.with_item(id, ItemIndex::TypeAlias(type_alias_index));
        s.add_node(
            AstEntry { def_id: id, file_id, namespace, node: AstNodeRef::TypeAlias { item } },
        )
    }

    /// Enters a memory, whose name is that of a type and of a value.
    #[verifier::opaque]
    pub open spec fn scan_memory(
        self,
        file_id: FileId,
        namespace: Option<usize>,
        item: &'ast Item,
        id: DefId,
        name: Spanned<Symbol>,
    ) -> State<'ast> {
        let (s, _claim) = self.claimed(
            namespace,
            SymbolNamespace::Type,
            name.inner,
            id,
            SourceSpan::new(file_id, name.span),
        );
        let (s, _claim) = s.claimed(
            namespace,
            SymbolNamespace::Value,
            name.inner,
            id,
            SourceSpan::new(file_id, name.span),
        );
        let (s, memory_index) = s.add_memory(
            Memory { id, file_id, name, kind: ty::ERROR, min_pages: None, max_pages: None },
        );
        let s = s.with_item(id, ItemIndex::Memory(memory_index));
        s.add_node(
            AstEntry { def_id: id, file_id, namespace, node: AstNodeRef::Memory { item } },
        )
    }

    /// Enters a constant.
    #[verifier::opaque]
    pub open spec fn scan_constant(
        self,
        file_id: FileId,
        namespace: Option<usize>,
        item: &'ast Item,
        id: DefId,
        pub_span: Option<TextSpan>,
        name: Spanned<Symbol>,
    ) -> State<'ast> {
        let (s, _claim) = self.claimed(
            namespace,
            SymbolNamespace::Value,
            name.inner,
            id,
            SourceSpan::new(file_id, name.span),
        );
        let (s, const_index) = s.add_constant(
            Constant {
                id,
                file_id,
                namespace,
                parent: None,
                pub_span,
                name,
                ty: Spanned { inner: ty::ERROR, span: name.span },
                value: None,
                const_value: None,
            },
        );
        let s = s.with_item(id, ItemIndex::Const(const_index));
        s.add_node(
            AstEntry { def_id: id, file_id, namespace, node: AstNodeRef::Constant { item } },
        )
    }

    /// Enters the members of a trait; the result is their ids in order. The name
    /// of an associated type is known in the trait's namespace too.
    pub open spec fn scan_trait_items(
        self,
        file_id: FileId,
        namespace: Option<usize>,
        trait_index: usize,
        items: &'ast List<TraitItem>,
    ) -> (State<'ast>, List<DefId>)
        decreases items,
    {
        match items {
            List::Nil => (self, List::Nil),
            List::Cons(item, rest) => {
                let (s, id) = self.scan_trait_item(file_id, namespace, trait_index, item);
                let (s, others) = s.scan_trait_items(file_id, namespace, trait_index, rest);
                (s, cons(id, others))
            },
        }
    }

    /// Enters a member of a trait.
    #[verifier::opaque]
    pub open spec fn scan_trait_item(
        self,
        file_id: FileId,
        namespace: Option<usize>,
        trait_index: usize,
        item: &'ast TraitItem,
    ) -> (State<'ast>, DefId) {
        match item {
            TraitItem::Function { id, .. } => {
                let s = self.add_node(
                    AstEntry {
                        def_id: *id,
                        file_id,
                        namespace,
                        node: AstNodeRef::TraitFunction { trait_index, item },
                    },
                );
                (s, *id)
            },
            TraitItem::Const { id, .. } => {
                let s = self.add_node(
                    AstEntry {
                        def_id: *id,
                        file_id,
                        namespace,
                        node: AstNodeRef::TraitConst { trait_index, item },
                    },
                );
                (s, *id)
            },
            TraitItem::AssociatedType { id, name, .. } => {
                let s = self.with_symbol(
                    namespace,
                    SymbolNamespace::Type,
                    name.inner,
                    SymbolKind::Pending(*id),
                );
                let s = s.add_node(
                    AstEntry {
                        def_id: *id,
                        file_id,
                        namespace,
                        node: AstNodeRef::TraitAssocType { trait_index, item },
                    },
                );
                (s, *id)
            },
        }
    }

    /// Enters a trait, whose `Self` is bound by the trait itself.
    #[verifier::opaque]
    pub open spec fn scan_trait(
        self,
        file_id: FileId,
        namespace: Option<usize>,
        item: &'ast Item,
        id: DefId,
        name: Spanned<Symbol>,
        items: &'ast List<TraitItem>,
    ) -> State<'ast> {
        let s = match self.direct_symbol(namespace, SymbolNamespace::Type, name.inner) {
            Some(SymbolKind::Pending(_)) => self,
            Some(existing) => {
                self.report(
                    report_duplicate_definition(
                        name.inner,
                        SymbolNamespace::Type,
                        self.symbol_location(existing),
                        SourceSpan::new(file_id, name.span),
                    ),
                )
            },
            None => self,
        };
        let (s, member_ids) = s.scan_trait_items(
            file_id,
            namespace,
            (s.traits.len() as usize),
            items,
        );
        let bound = TraitBound {
            trait_index: (s.traits.len() as usize),
            span: name.span,
            bindings: List::Nil,
        };
        let (s, trait_index) = s.add_trait_item(
            Trait {
                id,
                file_id,
                namespace,
                name,
                self_type_param: TypeParamInfo {
                    name: Spanned { inner: s.names.self_type, span: name.span },
                    bounds: Bounds { traits: single(bound), typeset: None },
                },
                supertraits: List::Nil,
                supertrait_bindings: List::Nil,
                members: List::Nil,
                assoc_types: List::Nil,
                member_ids,
            },
        );
        let s = s.with_item(id, ItemIndex::Trait(trait_index));
        let s = s.with_symbol(
            namespace,
            SymbolNamespace::Type,
            name.inner,
            SymbolKind::Trait { trait_index },
        );
        s.add_node(
            AstEntry {
                def_id: id,
                file_id,
                namespace,
                node: AstNodeRef::Trait { trait_index, item },
            },
        )
    }

    /// Enters the members of an inherent impl block. An associated type has no
    /// place in one, and a constant none in a generic one.
    pub open spec fn scan_inherent_items(
        self,
        file_id: FileId,
        namespace: Option<usize>,
        block_id: DefId,
        block_index: usize,
        is_generic: bool,
        items: &'ast List<ImplItem>,
    ) -> State<'ast>
        decreases items,
    {
        match items {
            List::Nil => self,
            List::Cons(item, rest) => {
                let s = self.scan_inherent_item(
                    file_id,
                    namespace,
                    block_id,
                    block_index,
                    is_generic,
                    item,
                );
                s.scan_inherent_items(
                    file_id,
                    namespace,
                    block_id,
                    block_index,
                    is_generic,
                    rest,
                )
            },
        }
    }

    /// Enters a member of an inherent impl block. A constant of a generic block
    /// is reported as not supported and left out.
    #[verifier::opaque]
    pub open spec fn scan_inherent_item(
        self,
        file_id: FileId,
        namespace: Option<usize>,
        block_id: DefId,
        block_index: usize,
        is_generic: bool,
        item: &'ast ImplItem,
    ) -> State<'ast> {
        match item {
            ImplItem::Function { id, .. } => {
                self.add_node(
                    AstEntry {
                        def_id: *id,
                        file_id,
                        namespace,
                        node: AstNodeRef::InherentImplFunction { block_id, item, block_index },
                    },
                )
            },
            ImplItem::Constant { id, name, .. } => {
                if !is_generic {
                    self.add_node(
                        AstEntry {
                            def_id: *id,
                            file_id,
                            namespace,
                            node: AstNodeRef::InherentImplConst { block_id, item, block_index },
                        },
                    )
                } else {
                    self.report(
                        report_constant_in_generic_impl(SourceSpan::new(file_id, name.span)),
                    )
                }
            },
            ImplItem::AssociatedType { name, .. } => {
                if !is_generic {
                    self.report(
                        report_associated_type_in_inherent_impl(
                            SourceSpan::new(file_id, name.span),
                        ),
                    )
                } else {
                    self
                }
            },
        }
    }

    /// Enters an inherent impl block.
    #[verifier::opaque]
    pub open spec fn scan_inherent_impl(
        self,
        file_id: FileId,
        namespace: Option<usize>,
        id: DefId,
        type_params: &'ast List<TypeParam>,
        target: &'ast Spanned<TypeExpression>,
        items: &'ast List<ImplItem>,
    ) -> State<'ast> {
        let (s, block_index) = self.add_inherent_impl(
            InherentImpl {
                id,
                file_id,
                type_params: named_params(type_params),
                target: Spanned { inner: ty::ERROR, span: target.span },
                members: List::Nil,
            },
        );
        let s = s.add_node(
            AstEntry {
                def_id: id,
                file_id,
                namespace,
                node: AstNodeRef::InherentImplBlock { type_params, target, block_index },
            },
        );
        s.scan_inherent_items(
            file_id,
            namespace,
            id,
            block_index,
            !type_params.is_empty(),
            items,
        )
    }

    /// Enters the members of a trait impl.
    pub open spec fn scan_trait_impl_items(
        self,
        file_id: FileId,
        namespace: Option<usize>,
        parent_id: DefId,
        items: &'ast List<ImplItem>,
    ) -> State<'ast>
        decreases items,
    {
        match items {
            List::Nil => self,
            List::Cons(item, rest) => {
                let s = self.scan_trait_impl_item(file_id, namespace, parent_id, item);
                s.scan_trait_impl_items(file_id, namespace, parent_id, rest)
            },
        }
    }

    /// Enters a member of a trait impl.
    #[verifier::opaque]
    pub open spec fn scan_trait_impl_item(
        self,
        file_id: FileId,
        namespace: Option<usize>,
        parent_id: DefId,
        item: &'ast ImplItem,
    ) -> State<'ast> {
        match item {
            ImplItem::Function { id, .. } => {
                self.add_node(
                    AstEntry {
                        def_id: *id,
                        file_id,
                        namespace,
                        node: AstNodeRef::TraitImplFunction { parent_id, item },
                    },
                )
            },
            ImplItem::Constant { id, .. } => {
                self.add_node(
                    AstEntry {
                        def_id: *id,
                        file_id,
                        namespace,
                        node: AstNodeRef::TraitImplConstant { parent_id, item },
                    },
                )
            },
            ImplItem::AssociatedType { id, .. } => {
                self.add_node(
                    AstEntry {
                        def_id: *id,
                        file_id,
                        namespace,
                        node: AstNodeRef::TraitImplAssocType { parent_id, item },
                    },
                )
            },
        }
    }

    /// Enters the declarations of an import. A function is not known by its name
    /// until its signature is; a global and a memory are from here on.
    pub open spec fn scan_import_entries(
        self,
        file_id: FileId,
        namespace: Option<usize>,
        import_index: usize,
        entries: &'ast List<ImportDeclaration>,
    ) -> State<'ast>
        decreases entries,
    {
        match entries {
            List::Nil => self,
            List::Cons(decl, rest) => {
                let s = self.scan_import_entry(file_id, namespace, import_index, decl);
                s.scan_import_entries(file_id, namespace, import_index, rest)
            },
        }
    }

    /// Enters a declaration of an import.
    #[verifier::opaque]
    pub open spec fn scan_import_entry(
        self,
        file_id: FileId,
        namespace: Option<usize>,
        import_index: usize,
        decl: &'ast ImportDeclaration,
    ) -> State<'ast> {
        match decl {
            ImportDeclaration::Function { id, .. } => {
                self.add_node(
                    AstEntry {
                        def_id: *id,
                        file_id,
                        namespace,
                        node: AstNodeRef::ImportedFunction { import_index, decl },
                    },
                )
            },
            ImportDeclaration::Global { id, name, .. } => {
                let s = self.with_symbol(
                    namespace,
                    SymbolNamespace::Value,
                    name.inner,
                    SymbolKind::Pending(*id),
                );
                s.add_node(
                    AstEntry {
                        def_id: *id,
                        file_id,
                        namespace,
                        node: AstNodeRef::ImportedGlobal { import_index, decl },
                    },
                )
            },
            ImportDeclaration::Memory { id, name } => {
                let s = self.with_symbol(
                    namespace,
                    SymbolNamespace::Type,
                    name.inner,
                    SymbolKind::Pending(*id),
                );
                let s = s.with_symbol(
                    namespace,
                    SymbolNamespace::Value,
                    name.inner,
                    SymbolKind::Pending(*id),
                );
                s.add_node(
                    AstEntry {
                        def_id: *id,
                        file_id,
                        namespace,
                        node: AstNodeRef::ImportedMemory,
                    },
                )
            },
        }
    }

    /// Enters an import: a namespace under its alias, or under the module's own
    /// name where the alias is missing.
    #[verifier::opaque]
    pub open spec fn scan_import(
        self,
        file_id: FileId,
        namespace: Option<usize>,
        module: Spanned<Symbol>,
        alias: Option<Spanned<Symbol>>,
        entries: &'ast List<ImportDeclaration>,
    ) -> State<'ast> {
        let (s, module_name) = self.unquoted_name(module.inner);
        let name = match alias {
            Some(alias) => alias.inner,
            None => module_name,
        };
        let s = if alias.is_none() {
            s.report(report_missing_import_alias(SourceSpan::new(file_id, module.span)))
        } else {
            s
        };
        let import_index: usize = (s.import_decls.len() as usize);
        let (s, namespace_idx) = s.add_namespace(
            ModuleNamespace {
                name,
                parent: namespace,
                declaration: ModuleDeclarationKind::Import(import_index),
                wildcard_imports: List::Nil,
            },
        );
        let s = s.with_symbol(
            namespace,
            SymbolNamespace::Type,
            name,
            SymbolKind::Module { namespace_idx },
        );
        let s = s.scan_import_entries(file_id, namespace, import_index, entries);
        let (s, _index) = s.add_import_decl(
            ImportDecl {
                namespace_idx,
                file_id,
                external_name: Spanned { inner: module_name, span: module.span },
                internal_name: alias,
                lookup: List::Nil,
            },
        );
        s
    }

    /// The namespace that a path of modules from the root leads to. Each step
    /// that leads somewhere is recorded as a use.
    pub open spec fn resolve_use_path(
        self,
        file_id: FileId,
        current: Option<usize>,
        path: &List<Spanned<Symbol>>,
    ) -> (State<'ast>, Option<usize>)
        decreases path,
    {
        match path {
            List::Nil => (self, current),
            List::Cons(segment, rest) => {
                match self.direct_symbol(current, SymbolNamespace::Type, segment.inner) {
                    Some(SymbolKind::Module { namespace_idx }) => {
                        let s = self.access(
                            AccessTarget::Namespace(namespace_idx),
                            SourceSpan::new(file_id, segment.span),
                        );
                        s.resolve_use_path(file_id, Some(namespace_idx), rest)
                    },
                    _ => (self, None),
                }
            },
        }
    }

    /// Enters a wildcard import.
    #[verifier::opaque]
    pub open spec fn scan_use(
        self,
        file_id: FileId,
        namespace: Option<usize>,
        path: &List<Spanned<Symbol>>,
    ) -> State<'ast> {
        let (s, source) = self.resolve_use_path(file_id, None, path);
        match source {
            Some(imported) => {
                match namespace {
                    Some(index) => {
                        let imports = match state::seq_ref(s.namespaces, index) {
                            Some(declaration) => declaration.wildcard_imports.push(imported),
                            None => List::Nil,
                        };
                        s.set_namespace_wildcard_imports(index, imports)
                    },
                    None => s.add_root_wildcard_import(imported),
                }
            },
            None => s,
        }
    }

    /// Enters a typeset.
    #[verifier::opaque]
    pub open spec fn scan_typeset(
        self,
        file_id: FileId,
        namespace: Option<usize>,
        item: &'ast Item,
        id: DefId,
        pub_span: Option<TextSpan>,
        attributes: &List<Attribute>,
        name: Spanned<Symbol>,
    ) -> State<'ast> {
        let (s, attributes) = self.resolve_attributes(attributes);
        let s = s.register_tagged_items(id, &attributes);
        let (s, typeset_index) = s.add_typeset(
            TypeSet {
                id,
                file_id,
                namespace,
                name,
                pub_span,
                members: List::Nil,
                intersection_range: IntegerRange::widest(),
            },
        );
        let s = s.with_item(id, ItemIndex::TypeSet(typeset_index));
        let s = s.with_symbol(
            namespace,
            SymbolNamespace::Type,
            name.inner,
            SymbolKind::TypeSet { typeset_index },
        );
        s.add_node(
            AstEntry {
                def_id: id,
                file_id,
                namespace,
                node: AstNodeRef::TypeSet { typeset_index, item },
            },
        )
    }

    /// Enters a definition, with all that it contains.
    pub open spec fn pre_scan_item(
        self,
        file_id: FileId,
        namespace: Option<usize>,
        item: &'ast Item,
    ) -> State<'ast>
        decreases item,
    {
        match item {
            Item::Function { id, pub_span, attributes, signature, .. } => {
                self.scan_function(
                    file_id,
                    namespace,
                    item,
                    *id,
                    *pub_span,
                    attributes,
                    signature,
                )
            },
            Item::FunctionDeclaration { id, pub_span, attributes, signature } => {
                self.scan_function(
                    file_id,
                    namespace,
                    item,
                    *id,
                    *pub_span,
                    attributes,
                    signature,
                )
            },
            Item::Global { id, pub_span, mut_span, name, .. } => {
                self.scan_global(
                    file_id,
                    namespace,
                    item,
                    *id,
                    *pub_span,
                    *mut_span,
                    *name,
                )
            },
            Item::Struct { id, pub_span, attributes, name, type_params, .. } => {
                self.scan_struct(
                    file_id,
                    namespace,
                    item,
                    *id,
                    *pub_span,
                    attributes,
                    *name,
                    type_params,
                )
            },
            Item::Enum { id, pub_span, name, .. } => {
                self.scan_enum(file_id, namespace, item, *id, *pub_span, *name)
            },
            Item::TypeAlias { id, pub_span, name, type_params, .. } => {
                self.scan_type_alias(
                    file_id,
                    namespace,
                    item,
                    *id,
                    *pub_span,
                    *name,
                    type_params,
                )
            },
            Item::Memory { id, name, .. } => {
                self.scan_memory(file_id, namespace, item, *id, *name)
            },
            Item::Const { id, pub_span, name, .. } => {
                self.scan_constant(file_id, namespace, item, *id, *pub_span, *name)
            },
            Item::Module { name, pub_span, items } => {
                let (s, namespace_idx) = self.module_ensured(
                    file_id,
                    namespace,
                    *name,
                    *pub_span,
                );
                s.pre_scan_items(file_id, Some(namespace_idx), items)
            },
            Item::ModuleDeclaration { name, pub_span } => {
                let (s, _namespace_idx) = self.module_ensured(
                    file_id,
                    namespace,
                    *name,
                    *pub_span,
                );
                s
            },
            Item::Trait { id, name, items, .. } => {
                self.scan_trait(file_id, namespace, item, *id, *name, items)
            },
            Item::TypeSet { id, pub_span, attributes, name, .. } => {
                self.scan_typeset(
                    file_id,
                    namespace,
                    item,
                    *id,
                    *pub_span,
                    attributes,
                    *name,
                )
            },
            Item::InherentImpl { id, type_params, target, items } => {
                self.scan_inherent_impl(
                    file_id,
                    namespace,
                    *id,
                    type_params,
                    target,
                    items,
                )
            },
            Item::TraitImpl { id, items, .. } => {
                let s = self.add_node(
                    AstEntry {
                        def_id: *id,
                        file_id,
                        namespace,
                        node: AstNodeRef::TraitImplBlock { item },
                    },
                );
                s.scan_trait_impl_items(file_id, namespace, *id, items)
            },
            Item::Import { module, alias, entries } => {
                self.scan_import(file_id, namespace, *module, *alias, entries)
            },
            Item::Use { path } => self.scan_use(file_id, namespace, path),
            Item::Export { .. } => self,
        }
    }

    /// Enters the definitions of a module in order.
    pub open spec fn pre_scan_items(
        self,
        file_id: FileId,
        namespace: Option<usize>,
        items: &'ast List<Item>,
    ) -> State<'ast>
        decreases items,
    {
        match items {
            List::Nil => self,
            List::Cons(item, rest) => {
                let s = self.pre_scan_item(file_id, namespace, item);
                s.pre_scan_items(file_id, namespace, rest)
            },
        }
    }
}

impl<'ast> Builder<'ast> {
    /// The attributes that have a meaning, in order.
    pub fn resolve_attributes(
        &mut self,
        attributes: &List<Attribute>,
    ) -> (result: List<ItemAttribute>)
        ensures
            (final(self)@, result) == old(self)@.resolve_attributes(attributes),
        decreases attributes,
    {
        match attributes {
            List::Nil => List::Nil,
            List::Cons(attribute, rest) => {
                let first = self.resolve_attribute(attribute);
                let others = self.resolve_attributes(rest);
                match first {
                    Some(known) => cons(known, others),
                    None => others,
                }
            },
        }
    }

    /// The meaning of an attribute, if it has one.
    pub fn resolve_attribute(&mut self, attribute: &Attribute) -> (result: Option<ItemAttribute>)
        ensures
            (final(self)@, result) == old(self)@.resolve_attribute(attribute),
    {
        proof {
            reveal(State::resolve_attribute);
        }
        match &attribute.value {
            AttributeValue::Word => {
                if self.interner.is_named(attribute.name.inner, "inline") {
                    Some(ItemAttribute::Inline)
                } else if self.interner.is_named(attribute.name.inner, "intrinsic") {
                    Some(ItemAttribute::Intrinsic)
                } else if self.interner.is_named(attribute.name.inner, "fixed_layout") {
                    Some(ItemAttribute::FixedLayout)
                } else {
                    None
                }
            },
            AttributeValue::NameValue(value) => {
                if self.interner.is_named(attribute.name.inner, "tag") {
                    let key: Symbol = self.intern_unquoted(value.inner);
                    Some(ItemAttribute::Tag(key))
                } else {
                    None
                }
            },
        }
    }

    /// Notes each tag among the attributes of a definition.
    pub fn register_tagged_items(&mut self, id: DefId, attributes: &List<ItemAttribute>)
        ensures
            final(self)@ == old(self)@.register_tagged_items(id, attributes),
        decreases attributes,
    {
        match attributes {
            List::Nil => {},
            List::Cons(attribute, rest) => {
                match **attribute {
                    ItemAttribute::Tag(key) => {
                        self.add_tagged_item(TaggedItem { key, id });
                    },
                    _ => {},
                }
                self.register_tagged_items(id, rest);
            },
        }
    }

    /// Gives the name of a memory whose declaration is wrong its meaning.
    pub fn register_placeholder_memory(
        &mut self,
        context: ResolveContext,
        id: DefId,
        name: Symbol,
    )
        ensures
            final(self)@ == old(self)@.register_placeholder_memory(context, id, name),
    {
        proof {
            reveal(State::register_placeholder_memory);
        }
        match self.memory_index(id) {
            Some(memory_index) => {
                let kind = SymbolKind::Memory { memory_index, kind: ty::ERROR };
                self.bind_claimed(context.namespace, SymbolNamespace::Type, name, id, kind);
                self.bind_claimed(context.namespace, SymbolNamespace::Value, name, id, kind);
            },
            None => {},
        }
    }

    /// Enters a function.
    pub fn scan_function(
        &mut self,
        file_id: FileId,
        namespace: Option<usize>,
        item: &'ast Item,
        id: DefId,
        pub_span: Option<TextSpan>,
        attributes: &List<Attribute>,
        signature: &ast::FunctionSignature,
    )
        ensures
            final(self)@ == old(self)@.scan_function(
                file_id,
                namespace,
                item,
                id,
                pub_span,
                attributes,
                signature,
            ),
    {
        proof {
            reveal(State::scan_function);
        }
        let _claim = self.claim_name_binding(
            namespace,
            SymbolNamespace::Value,
            signature.name.inner,
            id,
            SourceSpan::new(file_id, signature.name.span),
        );
        let attributes = self.resolve_attributes(attributes);
        self.register_tagged_items(id, &attributes);
        let func_index: usize = self.add_function(
            Function {
                id,
                file_id,
                namespace,
                parent: None,
                type_params: new_type_params(&signature.type_params),
                type_param_parent: None,
                inherited_type_param_count: 0,
                pub_span,
                signature_index: ty::ERROR,
                name: signature.name,
                params: List::Nil,
                result: None,
                attributes,
                body: None,
            },
        );
        self.insert_item(id, ItemIndex::Function(func_index));
        self.add_node(
            AstEntry { def_id: id, file_id, namespace, node: AstNodeRef::Function { item } },
        );
    }

    /// Enters a global variable.
    pub fn scan_global(
        &mut self,
        file_id: FileId,
        namespace: Option<usize>,
        item: &'ast Item,
        id: DefId,
        pub_span: Option<TextSpan>,
        mut_span: Option<TextSpan>,
        name: Spanned<Symbol>,
    )
        ensures
            final(self)@ == old(self)@.scan_global(
                file_id,
                namespace,
                item,
                id,
                pub_span,
                mut_span,
                name,
            ),
    {
        proof {
            reveal(State::scan_global);
        }
        let _claim = self.claim_name_binding(
            namespace,
            SymbolNamespace::Value,
            name.inner,
            id,
            SourceSpan::new(file_id, name.span),
        );
        let global_index: usize = self.add_global(
            Global {
                id,
                file_id,
                namespace,
                name,
                ty: Spanned { inner: ty::ERROR, span: name.span },
                pub_span,
                mut_span,
                value: None,
            },
        );
        self.insert_item(id, ItemIndex::Global(global_index));
        self.add_node(
            AstEntry { def_id: id, file_id, namespace, node: AstNodeRef::Global { item } },
        );
    }

    /// Enters a struct.
    pub fn scan_struct(
        &mut self,
        file_id: FileId,
        namespace: Option<usize>,
        item: &'ast Item,
        id: DefId,
        pub_span: Option<TextSpan>,
        attributes: &List<Attribute>,
        name: Spanned<Symbol>,
        type_params: &List<TypeParam>,
    )
        ensures
            final(self)@ == old(self)@.scan_struct(
                file_id,
                namespace,
                item,
                id,
                pub_span,
                attributes,
                name,
                type_params,
            ),
    {
        proof {
            reveal(State::scan_struct);
        }
        let _claim = self.claim_name_binding(
            namespace,
            SymbolNamespace::Type,
            name.inner,
            id,
            SourceSpan::new(file_id, name.span),
        );
        let self_type: TypeIndex = self.intern_type(
            Type::Struct { struct_index: self.structs.len(), args: List::Nil },
        );
        let attributes = self.resolve_attributes(attributes);
        let struct_index: usize = self.add_struct_item(
            Struct {
                id,
                file_id,
                namespace,
                pub_span,
                name,
                type_params: new_type_params(type_params),
                self_type,
                attributes,
                fields: List::Nil,
            },
        );
        self.insert_item(id, ItemIndex::Struct(struct_index));
        self.add_node(
            AstEntry { def_id: id, file_id, namespace, node: AstNodeRef::Struct { item } },
        );
    }

    /// Enters an enum.
    pub fn scan_enum(
        &mut self,
        file_id: FileId,
        namespace: Option<usize>,
        item: &'ast Item,
        id: DefId,
        pub_span: Option<TextSpan>,
        name: Spanned<Symbol>,
    )
        ensures
            final(self)@ == old(self)@.scan_enum(file_id, namespace, item, id, pub_span, name),
    {
        proof {
            reveal(State::scan_enum);
        }
        let _claim = self.claim_name_binding(
            namespace,
            SymbolNamespace::Type,
            name.inner,
            id,
            SourceSpan::new(file_id, name.span),
        );
        let self_type: TypeIndex = self.intern_type(Type::Enum { enum_index: self.enums.len() });
        let enum_index: usize = self.add_enum_item(
            Enum {
                id,
                file_id,
                namespace,
                pub_span,
                name,
                repr_type: ty::ERROR,
                self_type,
                variants: List::Nil,
            },
        );
        self.insert_item(id, ItemIndex::Enum(enum_index));
        self.add_node(
            AstEntry { def_id: id, file_id, namespace, node: AstNodeRef::Enum { item } },
        );
    }

    /// Enters a type alias.
    pub fn scan_type_alias(
        &mut self,
        file_id: FileId,
        namespace: Option<usize>,
        item: &'ast Item,
        id: DefId,
        pub_span: Option<TextSpan>,
        name: Spanned<Symbol>,
        type_params: &List<TypeParam>,
    )
        ensures
            final(self)@ == old(self)@.scan_type_alias(
                file_id,
                namespace,
                item,
                id,
                pub_span,
                name,
                type_params,
            ),
    {
        proof {
            reveal(State::scan_type_alias);
        }
        let _claim = self.claim_name_binding(
            namespace,
            SymbolNamespace::Type,
            name.inner,
            id,
            SourceSpan::new(file_id, name.span),
        );
        let type_alias_index: usize = self.add_type_alias(
            TypeAlias {
                id,
                file_id,
                namespace,
                pub_span,
                name,
                type_params: new_type_params(type_params),
                template: ty::ERROR,
            },
        );
        self.insert_item(id, ItemIndex::TypeAlias(type_alias_index));
        self.add_node(
            AstEntry { def_id: id, file_id, namespace, node: AstNodeRef::TypeAlias { item } },
        );
    }

    /// Enters a memory, whose name is that of a type and of a value.
    pub fn scan_memory(
        &mut self,
        file_id: FileId,
        namespace: Option<usize>,
        item: &'ast Item,
        id: DefId,
        name: Spanned<Symbol>,
    )
        ensures
            final(self)@ == old(self)@.scan_memory(file_id, namespace, item, id, name),
    {
        proof {
            reveal(State::scan_memory);
        }
        let _claim = self.claim_name_binding(
            namespace,
            SymbolNamespace::Type,
            name.inner,
            id,
            SourceSpan::new(file_id, name.span),
        );
        let _claim = self.claim_name_binding(
            namespace,
            SymbolNamespace::Value,
            name.inner,
            id,
            SourceSpan::new(file_id, name.span),
        );
        let memory_index: usize = self.add_memory(
            Memory { id, file_id, name, kind: ty::ERROR, min_pages: None, max_pages: None },
        );
        self.insert_item(id, ItemIndex::Memory(memory_index));
        self.add_node(
            AstEntry { def_id: id, file_id, namespace, node: AstNodeRef::Memory { item } },
        );
    }

    /// Enters a constant.
    pub fn scan_constant(
        &mut self,
        file_id: FileId,
        namespace: Option<usize>,
        item: &'ast Item,
        id: DefId,
        pub_span: Option<TextSpan>,
        name: Spanned<Symbol>,
    )
        ensures
            final(self)@ == old(self)@.scan_constant(
                file_id,
                namespace,
                item,
                id,
                pub_span,
                name,
            ),
    {
        proof {
            reveal(State::scan_constant);
        }
        let _claim = self.claim_name_binding(
            namespace,
            SymbolNamespace::Value,
            name.inner,
            id,
            SourceSpan::new(file_id, name.span),
        );
        let const_index: usize = self.add_constant(
            Constant {
                id,
                file_id,
                namespace,
                parent: None,
                pub_span,
                name,
                ty: Spanned { inner: ty::ERROR, span: name.span },
                value: None,
                const_value: None,
            },
        );
        self.insert_item(id, ItemIndex::Const(const_index));
        self.add_node(
            AstEntry { def_id: id, file_id, namespace, node: AstNodeRef::Constant { item } },
        );
    }

    /// Enters the members of a trait; the result is their ids in order. The name
    /// of an associated type is known in the trait's namespace too.
    pub fn scan_trait_items(
        &mut self,
        file_id: FileId,
        namespace: Option<usize>,
        trait_index: usize,
        items: &'ast List<TraitItem>,
    ) -> (result: List<DefId>)
        ensures
            (final(self)@, result) == old(self)@.scan_trait_items(
                file_id,
                namespace,
                trait_index,
                items,
            ),
        decreases items,
    {
        match items {
            List::Nil => List::Nil,
            List::Cons(item, rest) => {
                let id: DefId = self.scan_trait_item(file_id, namespace, trait_index, item);
                let others = self.scan_trait_items(file_id, namespace, trait_index, rest);
                cons(id, others)
            },
        }
    }

    /// Enters a member of a trait.
    pub fn scan_trait_item(
        &mut self,
        file_id: FileId,
        namespace: Option<usize>,
        trait_index: usize,
        item: &'ast TraitItem,
    ) -> (result: DefId)
        ensures
            (final(self)@, result) == old(self)@.scan_trait_item(
                file_id,
                namespace,
                trait_index,
                item,
            ),
    {
        proof {
            reveal(State::scan_trait_item);
        }
        match item {
            TraitItem::Function { id, .. } => {
                self.add_node(
                    AstEntry {
                        def_id: *id,
                        file_id,
                        namespace,
                        node: AstNodeRef::TraitFunction { trait_index, item },
                    },
                );
                *id
            },
            TraitItem::Const { id, .. } => {
                self.add_node(
                    AstEntry {
                        def_id: *id,
                        file_id,
                        namespace,
                        node: AstNodeRef::TraitConst { trait_index, item },
                    },
                );
                *id
            },
            TraitItem::AssociatedType { id, name, .. } => {
                self.insert_symbol(
                    namespace,
                    SymbolNamespace::Type,
                    name.inner,
                    SymbolKind::Pending(*id),
                );
                self.add_node(
                    AstEntry {
                        def_id: *id,
                        file_id,
                        namespace,
                        node: AstNodeRef::TraitAssocType { trait_index, item },
                    },
                );
                *id
            },
        }
    }

    /// Enters a trait, whose `Self` is bound by the trait itself.
    pub fn scan_trait(
        &mut self,
        file_id: FileId,
        namespace: Option<usize>,
        item: &'ast Item,
        id: DefId,
        name: Spanned<Symbol>,
        items: &'ast List<TraitItem>,
    )
        ensures
            final(self)@ == old(self)@.scan_trait(file_id, namespace, item, id, name, items),
    {
        proof {
            reveal(State::scan_trait);
        }
        match self.direct_scope_lookup(namespace, SymbolNamespace::Type, name.inner) {
            Some(SymbolKind::Pending(_)) => {},
            Some(existing) => {
                self.report(
                    report_duplicate_definition(
                        name.inner,
                        SymbolNamespace::Type,
                        self.get_symbol_location(existing),
                        SourceSpan::new(file_id, name.span),
                    ),
                );
            },
            None => {},
        }
        let member_ids = self.scan_trait_items(file_id, namespace, self.traits.len(), items);
        let bound = TraitBound {
            trait_index: self.traits.len(),
            span: name.span,
            bindings: List::Nil,
        };
        let trait_index: usize = self.add_trait_item(
            Trait {
                id,
                file_id,
                namespace,
                name,
                self_type_param: TypeParamInfo {
                    name: Spanned { inner: self.names.self_type, span: name.span },
                    bounds: Bounds { traits: single(bound), typeset: None },
                },
                supertraits: List::Nil,
                supertrait_bindings: List::Nil,
                members: List::Nil,
                assoc_types: List::Nil,
                member_ids,
            },
        );
        self.insert_item(id, ItemIndex::Trait(trait_index));
        self.insert_symbol(
            namespace,
            SymbolNamespace::Type,
            name.inner,
            SymbolKind::Trait { trait_index },
        );
        self.add_node(
            AstEntry {
                def_id: id,
                file_id,
                namespace,
                node: AstNodeRef::Trait { trait_index, item },
            },
        );
    }

    /// Enters the members of an inherent impl block. An associated type has no
    /// place in one, and a constant none in a generic one.
    pub fn scan_inherent_items(
        &mut self,
        file_id: FileId,
        namespace: Option<usize>,
        block_id: DefId,
        block_index: usize,
        is_generic: bool,
        items: &'ast List<ImplItem>,
    )
        ensures
            final(self)@ == old(self)@.scan_inherent_items(
                file_id,
                namespace,
                block_id,
                block_index,
                is_generic,
                items,
            ),
        decreases items,
    {
        match items {
            List::Nil => {},
            List::Cons(item, rest) => {
                self.scan_inherent_item(
                    file_id,
                    namespace,
                    block_id,
                    block_index,
                    is_generic,
                    item,
                );
                self.scan_inherent_items(
                    file_id,
                    namespace,
                    block_id,
                    block_index,
                    is_generic,
                    rest,
                );
            },
        }
    }

    /// Enters a member of an inherent impl block. A constant of a generic block
    /// is reported as not supported and left out.
    pub fn scan_inherent_item(
        &mut self,
        file_id: FileId,
        namespace: Option<usize>,
        block_id: DefId,
        block_index: usize,
        is_generic: bool,
        item: &'ast ImplItem,
    )
        ensures
            final(self)@ == old(self)@.scan_inherent_item(
                file_id,
                namespace,
                block_id,
                block_index,
                is_generic,
                item,
            ),
    {
        proof {
            reveal(State::scan_inherent_item);
        }
        match item {
            ImplItem::Function { id, .. } => {
                self.add_node(
                    AstEntry {
                        def_id: *id,
                        file_id,
                        namespace,
                        node: AstNodeRef::InherentImplFunction { block_id, item, block_index },
                    },
                );
            },
            ImplItem::Constant { id, name, .. } => {
                if !is_generic {
                    self.add_node(
                        AstEntry {
                            def_id: *id,
                            file_id,
                            namespace,
                            node: AstNodeRef::InherentImplConst { block_id, item, block_index },
                        },
                    );
                } else {
                    self.report(
                        report_constant_in_generic_impl(SourceSpan::new(file_id, name.span)),
                    );
                }
            },
            ImplItem::AssociatedType { name, .. } => {
                if !is_generic {
                    self.report(
                        report_associated_type_in_inherent_impl(
                            SourceSpan::new(file_id, name.span),
                        ),
                    );
                }
            },
        }
    }

    /// Enters an inherent impl block.
    pub fn scan_inherent_impl(
        &mut self,
        file_id: FileId,
        namespace: Option<usize>,
        id: DefId,
        type_params: &'ast List<TypeParam>,
        target: &'ast Spanned<TypeExpression>,
        items: &'ast List<ImplItem>,
    )
        ensures
            final(self)@ == old(self)@.scan_inherent_impl(
                file_id,
                namespace,
                id,
                type_params,
                target,
                items,
            ),
    {
        proof {
            reveal(State::scan_inherent_impl);
        }
        let block_index: usize = self.add_inherent_impl(
            InherentImpl {
                id,
                file_id,
                type_params: new_type_params(type_params),
                target: Spanned { inner: ty::ERROR, span: target.span },
                members: List::Nil,
            },
        );
        self.add_node(
            AstEntry {
                def_id: id,
                file_id,
                namespace,
                node: AstNodeRef::InherentImplBlock { type_params, target, block_index },
            },
        );
        self.scan_inherent_items(
            file_id,
            namespace,
            id,
            block_index,
            !type_params.is_empty(),
            items,
        );
    }

    /// Enters the members of a trait impl.
    pub fn scan_trait_impl_items(
        &mut self,
        file_id: FileId,
        namespace: Option<usize>,
        parent_id: DefId,
        items: &'ast List<ImplItem>,
    )
        ensures
            final(self)@ == old(self)@.scan_trait_impl_items(
                file_id,
                namespace,
                parent_id,
                items,
            ),
        decreases items,
    {
        match items {
            List::Nil => {},
            List::Cons(item, rest) => {
                self.scan_trait_impl_item(file_id, namespace, parent_id, item);
                self.scan_trait_impl_items(file_id, namespace, parent_id, rest);
            },
        }
    }

    /// Enters a member of a trait impl.
    pub fn scan_trait_impl_item(
        &mut self,
        file_id: FileId,
        namespace: Option<usize>,
        parent_id: DefId,
        item: &'ast ImplItem,
    )
        ensures
            final(self)@ == old(self)@.scan_trait_impl_item(file_id, namespace, parent_id, item),
    {
        proof {
            reveal(State::scan_trait_impl_item);
        }
        match item {
            ImplItem::Function { id, .. } => {
                self.add_node(
                    AstEntry {
                        def_id: *id,
                        file_id,
                        namespace,
                        node: AstNodeRef::TraitImplFunction { parent_id, item },
                    },
                );
            },
            ImplItem::Constant { id, .. } => {
                self.add_node(
                    AstEntry {
                        def_id: *id,
                        file_id,
                        namespace,
                        node: AstNodeRef::TraitImplConstant { parent_id, item },
                    },
                );
            },
            ImplItem::AssociatedType { id, .. } => {
                self.add_node(
                    AstEntry {
                        def_id: *id,
                        file_id,
                        namespace,
                        node: AstNodeRef::TraitImplAssocType { parent_id, item },
                    },
                );
            },
        }
    }

    /// Enters the declarations of an import. A function is not known by its name
    /// until its signature is; a global and a memory are from here on.
    pub fn scan_import_entries(
        &mut self,
        file_id: FileId,
        namespace: Option<usize>,
        import_index: usize,
        entries: &'ast List<ImportDeclaration>,
    )
        ensures
            final(self)@ == old(self)@.scan_import_entries(
                file_id,
                namespace,
                import_index,
                entries,
            ),
        decreases entries,
    {
        match entries {
            List::Nil => {},
            List::Cons(decl, rest) => {
                self.scan_import_entry(file_id, namespace, import_index, decl);
                self.scan_import_entries(file_id, namespace, import_index, rest);
            },
        }
    }

    /// Enters a declaration of an import.
    pub fn scan_import_entry(
        &mut self,
        file_id: FileId,
        namespace: Option<usize>,
        import_index: usize,
        decl: &'ast ImportDeclaration,
    )
        ensures
            final(self)@ == old(self)@.scan_import_entry(file_id, namespace, import_index, decl),
    {
        proof {
            reveal(State::scan_import_entry);
        }
        match decl {
            ImportDeclaration::Function { id, .. } => {
                self.add_node(
                    AstEntry {
                        def_id: *id,
                        file_id,
                        namespace,
                        node: AstNodeRef::ImportedFunction { import_index, decl },
                    },
                );
            },
            ImportDeclaration::Global { id, name, .. } => {
                self.insert_symbol(
                    namespace,
                    SymbolNamespace::Value,
                    name.inner,
                    SymbolKind::Pending(*id),
                );
                self.add_node(
                    AstEntry {
                        def_id: *id,
                        file_id,
                        namespace,
                        node: AstNodeRef::ImportedGlobal { import_index, decl },
                    },
                );
            },
            ImportDeclaration::Memory { id, name } => {
                self.insert_symbol(
                    namespace,
                    SymbolNamespace::Type,
                    name.inner,
                    SymbolKind::Pending(*id),
                );
                self.insert_symbol(
                    namespace,
                    SymbolNamespace::Value,
                    name.inner,
                    SymbolKind::Pending(*id),
                );
                self.add_node(
                    AstEntry {
                        def_id: *id,
                        file_id,
                        namespace,
                        node: AstNodeRef::ImportedMemory,
                    },
                );
            },
        }
    }

    /// Enters an import: a namespace under its alias, or under the module's own
    /// name where the alias is missing.
    pub fn scan_import(
        &mut self,
        file_id: FileId,
        namespace: Option<usize>,
        module: Spanned<Symbol>,
        alias: Option<Spanned<Symbol>>,
        entries: &'ast List<ImportDeclaration>,
    )
        ensures
            final(self)@ == old(self)@.scan_import(file_id, namespace, module, alias, entries),
    {
        proof {
            reveal(State::scan_import);
        }
        let module_name: Symbol = self.intern_unquoted(module.inner);
        let name: Symbol = match alias {
            Some(alias) => alias.inner,
            None => module_name,
        };
        if alias.is_none() {
            self.report(report_missing_import_alias(SourceSpan::new(file_id, module.span)));
        }
        let import_index: usize = self.import_decls.len();
        let namespace_idx: usize = self.add_namespace(
            ModuleNamespace {
                name,
                parent: namespace,
                declaration: ModuleDeclarationKind::Import(import_index),
                wildcard_imports: List::Nil,
            },
        );
        self.insert_symbol(
            namespace,
            SymbolNamespace::Type,
            name,
            SymbolKind::Module { namespace_idx },
        );
        self.scan_import_entries(file_id, namespace, import_index, entries);
        let _index: usize = self.add_import_decl(
            ImportDecl {
                namespace_idx,
                file_id,
                external_name: Spanned { inner: module_name, span: module.span },
                internal_name: alias,
                lookup: List::Nil,
            },
        );
    }

    /// The namespace that a path of modules from the root leads to. Each step
    /// that leads somewhere is recorded as a use.
    pub fn resolve_use_path(
        &mut self,
        file_id: FileId,
        current: Option<usize>,
        path: &List<Spanned<Symbol>>,
    ) -> (result: Option<usize>)
        ensures
            (final(self)@, result) == old(self)@.resolve_use_path(file_id, current, path),
        decreases path,
    {
        match path {
            List::Nil => current,
            List::Cons(segment, rest) => match self.direct_scope_lookup(current, SymbolNamespace::Type, segment.inner) {
                Some(SymbolKind::Module { namespace_idx }) => {
                    self.access(
                        AccessTarget::Namespace(namespace_idx),
                        SourceSpan::new(file_id, segment.span),
                    );
                    self.resolve_use_path(file_id, Some(namespace_idx), rest)
                },
                _ => None,
            },
        }
    }

    /// Enters a wildcard import.
    pub fn scan_use(
        &mut self,
        file_id: FileId,
        namespace: Option<usize>,
        path: &List<Spanned<Symbol>>,
    )
        ensures
            final(self)@ == old(self)@.scan_use(file_id, namespace, path),
    {
        proof {
            reveal(State::scan_use);
        }
        let source = self.resolve_use_path(file_id, None, path);
        match source {
            Some(imported) => match namespace {
                Some(index) => {
                    let imports = match vec_at(&self.namespaces, index) {
                        Some(declaration) => {
                            declaration.wildcard_imports.duplicate().push(imported)
                        },
                        None => List::Nil,
                    };
                    self.set_namespace_wildcard_imports(index, imports);
                },
                None => {
                    self.add_root_wildcard_import(imported);
                },
            },
            None => {},
        }
    }

    /// Enters a typeset.
    pub fn scan_typeset(
        &mut self,
        file_id: FileId,
        namespace: Option<usize>,
        item: &'ast Item,
        id: DefId,
        pub_span: Option<TextSpan>,
        attributes: &List<Attribute>,
        name: Spanned<Symbol>,
    )
        ensures
            final(self)@ == old(self)@.scan_typeset(
                file_id,
                namespace,
                item,
                id,
                pub_span,
                attributes,
                name,
            ),
    {
        proof {
            reveal(State::scan_typeset);
        }
        let attributes = self.resolve_attributes(attributes);
        self.register_tagged_items(id, &attributes);
        let typeset_index: usize = self.add_typeset(
            TypeSet {
                id,
                file_id,
                namespace,
                name,
                pub_span,
                members: List::Nil,
                intersection_range: IntegerRange::widest(),
            },
        );
        self.insert_item(id, ItemIndex::TypeSet(typeset_index));
        self.insert_symbol(
            namespace,
            SymbolNamespace::Type,
            name.inner,
            SymbolKind::TypeSet { typeset_index },
        );
        self.add_node(
            AstEntry {
                def_id: id,
                file_id,
                namespace,
                node: AstNodeRef::TypeSet { typeset_index, item },
            },
        );
    }

    /// Enters a definition, with all that it contains.
    pub fn pre_scan_item(&mut self, file_id: FileId, namespace: Option<usize>, item: &'ast Item)
        ensures
            final(self)@ == old(self)@.pre_scan_item(file_id, namespace, item),
        decreases item,
    {
        match item {
            Item::Function { id, pub_span, attributes, signature, .. } => {
                self.scan_function(
                    file_id,
                    namespace,
                    item,
                    *id,
                    *pub_span,
                    attributes,
                    signature,
                );
            },
            Item::FunctionDeclaration { id, pub_span, attributes, signature } => {
                self.scan_function(
                    file_id,
                    namespace,
                    item,
                    *id,
                    *pub_span,
                    attributes,
                    signature,
                );
            },
            Item::Global { id, pub_span, mut_span, name, .. } => {
                self.scan_global(file_id, namespace, item, *id, *pub_span, *mut_span, *name);
            },
            Item::Struct { id, pub_span, attributes, name, type_params, .. } => {
                self.scan_struct(
                    file_id,
                    namespace,
                    item,
                    *id,
                    *pub_span,
                    attributes,
                    *name,
                    type_params,
                );
            },
            Item::Enum { id, pub_span, name, .. } => {
                self.scan_enum(file_id, namespace, item, *id, *pub_span, *name);
            },
            Item::TypeAlias { id, pub_span, name, type_params, .. } => {
                self.scan_type_alias(
                    file_id,
                    namespace,
                    item,
                    *id,
                    *pub_span,
                    *name,
                    type_params,
                );
            },
            Item::Memory { id, name, .. } => {
                self.scan_memory(file_id, namespace, item, *id, *name);
            },
            Item::Const { id, pub_span, name, .. } => {
                self.scan_constant(file_id, namespace, item, *id, *pub_span, *name);
            },
            Item::Module { name, pub_span, items } => {
                let namespace_idx: usize = self.ensure_module(
                    file_id,
                    namespace,
                    *name,
                    *pub_span,
                );
                self.pre_scan_items(file_id, Some(namespace_idx), items);
            },
            Item::ModuleDeclaration { name, pub_span } => {
                let _namespace_idx: usize = self.ensure_module(
                    file_id,
                    namespace,
                    *name,
                    *pub_span,
                );
            },
            Item::Trait { id, name, items, .. } => {
                self.scan_trait(file_id, namespace, item, *id, *name, items);
            },
            Item::TypeSet { id, pub_span, attributes, name, .. } => {
                self.scan_typeset(file_id, namespace, item, *id, *pub_span, attributes, *name);
            },
            Item::InherentImpl { id, type_params, target, items } => {
                self.scan_inherent_impl(file_id, namespace, *id, type_params, target, items);
            },
            Item::TraitImpl { id, items, .. } => {
                self.add_node(
                    AstEntry {
                        def_id: *id,
                        file_id,
                        namespace,
                        node: AstNodeRef::TraitImplBlock { item },
                    },
                );
                self.scan_trait_impl_items(file_id, namespace, *id, items);
            },
            Item::Import { module, alias, entries } => {
                self.scan_import(file_id, namespace, *module, *alias, entries);
            },
            Item::Use { path } => {
                self.scan_use(file_id, namespace, path);
            },
            Item::Export { .. } => {},
        }
    }

    /// Enters the definitions of a module in order.
    pub fn pre_scan_items(
        &mut self,
        file_id: FileId,
        namespace: Option<usize>,
        items: &'ast List<Item>,
    )
        ensures
            final(self)@ == old(self)@.pre_scan_items(file_id, namespace, items),
        decreases items,
    {
        match items {
            List::Nil => {},
            List::Cons(item, rest) => {
                self.pre_scan_item(file_id, namespace, item);
                self.pre_scan_items(file_id, namespace, rest);
            },
        }
    }
}

} // verus!
