//! Which definitions the first phase enters, and in which order.

use vstd::prelude::*;

use crate::ast::{Attribute, ImplItem, ImportDeclaration, Item, TraitItem};
use crate::diagnostics::Diagnostic;
use crate::list::List;
use crate::program;
use crate::program::{Program, SourceCrate, SourceModule};
use crate::span::{DefId, FileId, SourceSpan, Spanned, Symbol, TextSpan};
use crate::state::{AstEntry, State, TaggedItem, WellKnown};
use crate::tir::{
    AccessTarget, Constant, Enum, Function, Global, ImportDecl, InherentImpl, ItemAttribute,
    ItemIndex, Memory, ModuleNamespace, Struct, SymbolKind, SymbolNamespace, Trait, TraitImpl,
    TypeAlias, TypeSet,
};
use crate::types::Type;

verus! {

/// The definitions that a trait's members are.
pub open spec fn trait_item_ids(items: &List<TraitItem>) -> Seq<DefId>
    decreases items,
{
    match items {
        List::Nil => Seq::empty(),
        List::Cons(item, rest) => seq![trait_item_id(item)] + trait_item_ids(rest),
    }
}

pub open spec fn trait_item_id(item: &TraitItem) -> DefId {
    match item {
        TraitItem::Function { id, .. } => *id,
        TraitItem::Const { id, .. } => *id,
        TraitItem::AssociatedType { id, .. } => *id,
    }
}

/// The definitions that the members of a trait impl are.
pub open spec fn impl_item_ids(items: &List<ImplItem>) -> Seq<DefId>
    decreases items,
{
    match items {
        List::Nil => Seq::empty(),
        List::Cons(item, rest) => seq![impl_item_id(item)] + impl_item_ids(rest),
    }
}

pub open spec fn impl_item_id(item: &ImplItem) -> DefId {
    match item {
        ImplItem::Function { id, .. } => *id,
        ImplItem::Constant { id, .. } => *id,
        ImplItem::AssociatedType { id, .. } => *id,
    }
}

/// The definitions that the members of an inherent impl block are: its
/// functions, and its constants unless the block is generic.
pub open spec fn inherent_item_ids(items: &List<ImplItem>, is_generic: bool) -> Seq<DefId>
    decreases items,
{
    match items {
        List::Nil => Seq::empty(),
        List::Cons(item, rest) => inherent_item_id(item, is_generic) + inherent_item_ids(
            rest,
            is_generic,
        ),
    }
}

pub open spec fn inherent_item_id(item: &ImplItem, is_generic: bool) -> Seq<DefId> {
    match item {
        ImplItem::Function { id, .. } => seq![*id],
        ImplItem::Constant { id, .. } => if is_generic {
            Seq::empty()
        } else {
            seq![*id]
        },
        ImplItem::AssociatedType { .. } => Seq::empty(),
    }
}

/// The definitions that the declarations of an import are.
pub open spec fn import_ids(entries: &List<ImportDeclaration>) -> Seq<DefId>
    decreases entries,
{
    match entries {
        List::Nil => Seq::empty(),
        List::Cons(entry, rest) => seq![import_id(entry)] + import_ids(rest),
    }
}

pub open spec fn import_id(entry: &ImportDeclaration) -> DefId {
    match entry {
        ImportDeclaration::Function { id, .. } => *id,
        ImportDeclaration::Global { id, .. } => *id,
        ImportDeclaration::Memory { id, .. } => *id,
    }
}

/// The definitions that an item is and contains, in the order in which they
/// are entered.
pub open spec fn item_ids(item: &Item) -> Seq<DefId>
    decreases item,
{
    match item {
        Item::Function { id, .. } => seq![*id],
        Item::FunctionDeclaration { id, .. } => seq![*id],
        Item::Global { id, .. } => seq![*id],
        Item::Struct { id, .. } => seq![*id],
        Item::Enum { id, .. } => seq![*id],
        Item::TypeAlias { id, .. } => seq![*id],
        Item::Memory { id, .. } => seq![*id],
        Item::Const { id, .. } => seq![*id],
        Item::Module { items, .. } => all_item_ids(items),
        Item::ModuleDeclaration { .. } => Seq::empty(),
        Item::Trait { id, items, .. } => trait_item_ids(items) + seq![*id],
        Item::TypeSet { id, .. } => seq![*id],
        Item::InherentImpl { id, type_params, items, .. } => seq![*id] + inherent_item_ids(
            items,
            !type_params.is_empty(),
        ),
        Item::TraitImpl { id, items, .. } => seq![*id] + impl_item_ids(items),
        Item::Import { entries, .. } => import_ids(entries),
        Item::Use { .. } => Seq::empty(),
        Item::Export { .. } => Seq::empty(),
    }
}

/// The definitions of the items of a module.
pub open spec fn all_item_ids(items: &List<Item>) -> Seq<DefId>
    decreases items,
{
    match items {
        List::Nil => Seq::empty(),
        List::Cons(item, rest) => item_ids(item) + all_item_ids(rest),
    }
}

/// The definitions of the modules of a crate.
pub open spec fn module_ids(modules: &List<SourceModule>) -> Seq<DefId>
    decreases modules,
{
    match modules {
        List::Nil => Seq::empty(),
        List::Cons(first, rest) => all_item_ids(&first.items) + module_ids(rest),
    }
}

/// The definitions of a program.
pub open spec fn program_ids(crates: &List<SourceCrate>) -> Seq<DefId>
    decreases crates,
{
    match crates {
        List::Nil => Seq::empty(),
        List::Cons(first, rest) => module_ids(&first.modules) + program_ids(rest),
    }
}

impl<'ast> State<'ast> {
    /// The definitions that were entered, in order.
    pub open spec fn entered(self) -> Seq<DefId> {
        self.nodes.map_values(|entry: AstEntry<'ast>| entry.def_id)
    }
}

broadcast proof fn report_enters_nothing<'ast>(s: State<'ast>, diagnostic: Diagnostic)
    ensures
        (#[trigger] s.report(diagnostic)).nodes == s.nodes,
{
    reveal(State::report);
}

broadcast proof fn access_enters_nothing<'ast>(
    s: State<'ast>,
    target: AccessTarget,
    span: SourceSpan,
)
    ensures
        (#[trigger] s.access(target, span)).nodes == s.nodes,
{
    reveal(State::access);
}

broadcast proof fn intern_enters_nothing<'ast>(s: State<'ast>, ty: Type)
    ensures
        (#[trigger] s.intern(ty)).0.nodes == s.nodes,
{
    reveal(State::intern);
}

broadcast proof fn with_symbol_enters_nothing<'ast>(
    s: State<'ast>,
    namespace: Option<usize>,
    space: SymbolNamespace,
    name: Symbol,
    kind: SymbolKind,
)
    ensures
        (#[trigger] s.with_symbol(namespace, space, name, kind)).nodes == s.nodes,
{
    reveal(State::with_symbol);
}

broadcast proof fn with_item_enters_nothing<'ast>(s: State<'ast>, id: DefId, index: ItemIndex)
    ensures
        (#[trigger] s.with_item(id, index)).nodes == s.nodes,
{
    reveal(State::with_item);
}

broadcast proof fn add_function_enters_nothing<'ast>(s: State<'ast>, item: Function)
    ensures
        (#[trigger] s.add_function(item)).0.nodes == s.nodes,
{
    reveal(State::add_function);
}

broadcast proof fn add_global_enters_nothing<'ast>(s: State<'ast>, item: Global)
    ensures
        (#[trigger] s.add_global(item)).0.nodes == s.nodes,
{
    reveal(State::add_global);
}

broadcast proof fn add_constant_enters_nothing<'ast>(s: State<'ast>, item: Constant)
    ensures
        (#[trigger] s.add_constant(item)).0.nodes == s.nodes,
{
    reveal(State::add_constant);
}

broadcast proof fn add_struct_item_enters_nothing<'ast>(s: State<'ast>, item: Struct)
    ensures
        (#[trigger] s.add_struct_item(item)).0.nodes == s.nodes,
{
    reveal(State::add_struct_item);
}

broadcast proof fn add_enum_item_enters_nothing<'ast>(s: State<'ast>, item: Enum)
    ensures
        (#[trigger] s.add_enum_item(item)).0.nodes == s.nodes,
{
    reveal(State::add_enum_item);
}

broadcast proof fn add_type_alias_enters_nothing<'ast>(s: State<'ast>, item: TypeAlias)
    ensures
        (#[trigger] s.add_type_alias(item)).0.nodes == s.nodes,
{
    reveal(State::add_type_alias);
}

broadcast proof fn add_memory_enters_nothing<'ast>(s: State<'ast>, item: Memory)
    ensures
        (#[trigger] s.add_memory(item)).0.nodes == s.nodes,
{
    reveal(State::add_memory);
}

broadcast proof fn add_trait_item_enters_nothing<'ast>(s: State<'ast>, item: Trait)
    ensures
        (#[trigger] s.add_trait_item(item)).0.nodes == s.nodes,
{
    reveal(State::add_trait_item);
}

broadcast proof fn add_trait_impl_enters_nothing<'ast>(s: State<'ast>, item: TraitImpl)
    ensures
        (#[trigger] s.add_trait_impl(item)).0.nodes == s.nodes,
{
    reveal(State::add_trait_impl);
}

broadcast proof fn add_inherent_impl_enters_nothing<'ast>(s: State<'ast>, item: InherentImpl)
    ensures
        (#[trigger] s.add_inherent_impl(item)).0.nodes == s.nodes,
{
    reveal(State::add_inherent_impl);
}

broadcast proof fn add_typeset_enters_nothing<'ast>(s: State<'ast>, item: TypeSet)
    ensures
        (#[trigger] s.add_typeset(item)).0.nodes == s.nodes,
{
    reveal(State::add_typeset);
}

broadcast proof fn add_namespace_enters_nothing<'ast>(s: State<'ast>, item: ModuleNamespace)
    ensures
        (#[trigger] s.add_namespace(item)).0.nodes == s.nodes,
{
    reveal(State::add_namespace);
}

broadcast proof fn add_import_decl_enters_nothing<'ast>(s: State<'ast>, item: ImportDecl)
    ensures
        (#[trigger] s.add_import_decl(item)).0.nodes == s.nodes,
{
    reveal(State::add_import_decl);
}

broadcast proof fn add_tagged_item_enters_nothing<'ast>(s: State<'ast>, item: TaggedItem)
    ensures
        (#[trigger] s.add_tagged_item(item)).nodes == s.nodes,
{
    reveal(State::add_tagged_item);
}

broadcast proof fn add_root_wildcard_import_enters_nothing<'ast>(s: State<'ast>, item: usize)
    ensures
        (#[trigger] s.add_root_wildcard_import(item)).nodes == s.nodes,
{
    reveal(State::add_root_wildcard_import);
}

broadcast proof fn set_namespace_wildcard_imports_enters_nothing<'ast>(
    s: State<'ast>,
    index: usize,
    value: List<usize>,
)
    ensures
        (#[trigger] s.set_namespace_wildcard_imports(index, value)).nodes == s.nodes,
{
    reveal(State::set_namespace_wildcard_imports);
}

broadcast proof fn unquoted_name_enters_nothing<'ast>(s: State<'ast>, name: Symbol)
    ensures
        (#[trigger] s.unquoted_name(name)).0.nodes == s.nodes,
{
    reveal(State::unquoted_name);
}

broadcast group group_entering_nothing {
    unquoted_name_enters_nothing,
    report_enters_nothing,
    access_enters_nothing,
    intern_enters_nothing,
    with_symbol_enters_nothing,
    with_item_enters_nothing,
    add_function_enters_nothing,
    add_global_enters_nothing,
    add_constant_enters_nothing,
    add_struct_item_enters_nothing,
    add_enum_item_enters_nothing,
    add_type_alias_enters_nothing,
    add_memory_enters_nothing,
    add_trait_item_enters_nothing,
    add_trait_impl_enters_nothing,
    add_inherent_impl_enters_nothing,
    add_typeset_enters_nothing,
    add_namespace_enters_nothing,
    add_import_decl_enters_nothing,
    add_tagged_item_enters_nothing,
    add_root_wildcard_import_enters_nothing,
    set_namespace_wildcard_imports_enters_nothing,
}

/// A definition that is entered comes last.
broadcast proof fn node_is_entered<'ast>(s: State<'ast>, item: AstEntry<'ast>)
    ensures
        (#[trigger] s.add_node(item)).entered() == s.entered() + seq![item.def_id],
{
    reveal(State::add_node);
    assert(s.add_node(item).entered() =~= s.entered() + seq![item.def_id]);
}

broadcast proof fn attributes_enter_nothing<'ast>(s: State<'ast>, attributes: &List<Attribute>)
    ensures
        (#[trigger] s.resolve_attributes(attributes)).0.nodes == s.nodes,
    decreases attributes,
{
    broadcast use group_entering_nothing;

    match attributes {
        List::Nil => {},
        List::Cons(attribute, rest) => {
            reveal(State::resolve_attribute);
            attributes_enter_nothing(s.resolve_attribute(attribute).0, rest);
        },
    }
}

proof fn tags_enter_nothing<'ast>(s: State<'ast>, id: DefId, attributes: &List<ItemAttribute>)
    ensures
        s.register_tagged_items(id, attributes).nodes == s.nodes,
    decreases attributes,
{
    broadcast use group_entering_nothing;

    match attributes {
        List::Nil => {},
        List::Cons(attribute, rest) => {
            match **attribute {
                ItemAttribute::Tag(key) => {
                    tags_enter_nothing(s.add_tagged_item(TaggedItem { key, id }), id, rest);
                },
                _ => {
                    tags_enter_nothing(s, id, rest);
                },
            }
        },
    }
}

proof fn use_path_enters_nothing<'ast>(
    s: State<'ast>,
    file_id: FileId,
    current: Option<usize>,
    path: &List<Spanned<Symbol>>,
)
    ensures
        s.resolve_use_path(file_id, current, path).0.nodes == s.nodes,
    decreases path,
{
    broadcast use group_entering_nothing;

    match path {
        List::Nil => {},
        List::Cons(segment, rest) => match s.direct_symbol(
            current,
            SymbolNamespace::Type,
            segment.inner,
        ) {
            Some(SymbolKind::Module { namespace_idx }) => {
                use_path_enters_nothing(
                    s.access(
                        AccessTarget::Namespace(namespace_idx),
                        SourceSpan::new(file_id, segment.span),
                    ),
                    file_id,
                    Some(namespace_idx),
                    rest,
                );
            },
            _ => {},
        },
    }
}

proof fn trait_items_are_entered<'ast>(
    s: State<'ast>,
    file_id: FileId,
    namespace: Option<usize>,
    trait_index: usize,
    items: &'ast List<TraitItem>,
)
    ensures
        s.scan_trait_items(file_id, namespace, trait_index, items).0.entered() == s.entered()
            + trait_item_ids(items),
    decreases items,
{
    broadcast use {group_entering_nothing, node_is_entered};

    match items {
        List::Nil => {
            assert(s.entered() + trait_item_ids(items) =~= s.entered());
        },
        List::Cons(item, rest) => {
            reveal(State::scan_trait_item);
            let (t, id) = s.scan_trait_item(file_id, namespace, trait_index, item);
            assert(t.entered() == s.entered() + seq![trait_item_id(item)]);
            trait_items_are_entered(t, file_id, namespace, trait_index, rest);
            assert(s.entered() + trait_item_ids(items) =~= t.entered() + trait_item_ids(rest));
        },
    }
}

proof fn impl_items_are_entered<'ast>(
    s: State<'ast>,
    file_id: FileId,
    namespace: Option<usize>,
    parent_id: DefId,
    items: &'ast List<ImplItem>,
)
    ensures
        s.scan_trait_impl_items(file_id, namespace, parent_id, items).entered() == s.entered()
            + impl_item_ids(items),
    decreases items,
{
    broadcast use {group_entering_nothing, node_is_entered};

    match items {
        List::Nil => {
            assert(s.entered() + impl_item_ids(items) =~= s.entered());
        },
        List::Cons(item, rest) => {
            reveal(State::scan_trait_impl_item);
            let t = s.scan_trait_impl_item(file_id, namespace, parent_id, item);
            assert(t.entered() == s.entered() + seq![impl_item_id(item)]);
            impl_items_are_entered(t, file_id, namespace, parent_id, rest);
            assert(s.entered() + impl_item_ids(items) =~= t.entered() + impl_item_ids(rest));
        },
    }
}

proof fn inherent_items_are_entered<'ast>(
    s: State<'ast>,
    file_id: FileId,
    namespace: Option<usize>,
    block_id: DefId,
    block_index: usize,
    is_generic: bool,
    items: &'ast List<ImplItem>,
)
    ensures
        s.scan_inherent_items(
            file_id,
            namespace,
            block_id,
            block_index,
            is_generic,
            items,
        ).entered() == s.entered() + inherent_item_ids(items, is_generic),
    decreases items,
{
    broadcast use {group_entering_nothing, node_is_entered};

    match items {
        List::Nil => {
            assert(s.entered() + inherent_item_ids(items, is_generic) =~= s.entered());
        },
        List::Cons(item, rest) => {
            reveal(State::scan_inherent_item);
            let t = s.scan_inherent_item(
                file_id,
                namespace,
                block_id,
                block_index,
                is_generic,
                item,
            );
            assert(t.entered() =~= s.entered() + inherent_item_id(item, is_generic));
            inherent_items_are_entered(
                t,
                file_id,
                namespace,
                block_id,
                block_index,
                is_generic,
                rest,
            );
            assert(s.entered() + inherent_item_ids(items, is_generic) =~= t.entered()
                + inherent_item_ids(rest, is_generic));
        },
    }
}

proof fn imports_are_entered<'ast>(
    s: State<'ast>,
    file_id: FileId,
    namespace: Option<usize>,
    import_index: usize,
    entries: &'ast List<ImportDeclaration>,
)
    ensures
        s.scan_import_entries(file_id, namespace, import_index, entries).entered() == s.entered()
            + import_ids(entries),
    decreases entries,
{
    broadcast use {group_entering_nothing, node_is_entered};

    match entries {
        List::Nil => {
            assert(s.entered() + import_ids(entries) =~= s.entered());
        },
        List::Cons(decl, rest) => {
            reveal(State::scan_import_entry);
            let t = s.scan_import_entry(file_id, namespace, import_index, decl);
            assert(t.entered() == s.entered() + seq![import_id(decl)]);
            imports_are_entered(t, file_id, namespace, import_index, rest);
            assert(s.entered() + import_ids(entries) =~= t.entered() + import_ids(rest));
        },
    }
}

proof fn item_is_entered<'ast>(
    s: State<'ast>,
    file_id: FileId,
    namespace: Option<usize>,
    item: &'ast Item,
)
    ensures
        s.pre_scan_item(file_id, namespace, item).entered() == s.entered() + item_ids(item),
    decreases item,
{
    broadcast use {group_entering_nothing, node_is_entered, attributes_enter_nothing};

    assert(s.entered() + Seq::<DefId>::empty() =~= s.entered());
    match item {
        Item::Function { id, attributes, signature, .. } => {
            reveal(State::scan_function);
            let (t, _) = s.claimed(
                namespace,
                SymbolNamespace::Value,
                signature.name.inner,
                *id,
                SourceSpan::new(file_id, signature.name.span),
            );
            let (t, known) = t.resolve_attributes(attributes);
            tags_enter_nothing(t, *id, &known);
        },
        Item::FunctionDeclaration { id, attributes, signature, .. } => {
            reveal(State::scan_function);
            let (t, _) = s.claimed(
                namespace,
                SymbolNamespace::Value,
                signature.name.inner,
                *id,
                SourceSpan::new(file_id, signature.name.span),
            );
            let (t, known) = t.resolve_attributes(attributes);
            tags_enter_nothing(t, *id, &known);
        },
        Item::Global { .. } => {
            reveal(State::scan_global);
        },
        Item::Struct { .. } => {
            reveal(State::scan_struct);
        },
        Item::Enum { .. } => {
            reveal(State::scan_enum);
        },
        Item::TypeAlias { .. } => {
            reveal(State::scan_type_alias);
        },
        Item::Memory { .. } => {
            reveal(State::scan_memory);
        },
        Item::Const { .. } => {
            reveal(State::scan_constant);
        },
        Item::Module { name, pub_span, items } => {
            let (t, namespace_idx) = s.module_ensured(file_id, namespace, *name, *pub_span);
            law_every_definition_is_entered(t, file_id, Some(namespace_idx), items);
        },
        Item::ModuleDeclaration { .. } => {},
        Item::Trait { id, name, items, .. } => {
            reveal(State::scan_trait);
            let t = match s.direct_symbol(namespace, SymbolNamespace::Type, name.inner) {
                Some(SymbolKind::Pending(_)) => s,
                Some(existing) => s.report(
                    crate::reports::report_duplicate_definition(
                        name.inner,
                        SymbolNamespace::Type,
                        s.symbol_location(existing),
                        SourceSpan::new(file_id, name.span),
                    ),
                ),
                None => s,
            };
            trait_items_are_entered(t, file_id, namespace, t.traits.len() as usize, items);
            assert(s.entered() + item_ids(item) =~= s.entered() + trait_item_ids(items)
                + seq![*id]);
        },
        Item::TypeSet { id, attributes, .. } => {
            reveal(State::scan_typeset);
            let (t, known) = s.resolve_attributes(attributes);
            tags_enter_nothing(t, *id, &known);
        },
        Item::InherentImpl { id, type_params, target, items } => {
            reveal(State::scan_inherent_impl);
            let (t, block_index) = s.add_inherent_impl(
                InherentImpl {
                    id: *id,
                    file_id,
                    type_params: crate::prescan::named_params(type_params),
                    target: Spanned { inner: crate::ty::ERROR, span: target.span },
                    members: List::Nil,
                },
            );
            let t = t.add_node(
                AstEntry {
                    def_id: *id,
                    file_id,
                    namespace,
                    node: crate::state::AstNodeRef::InherentImplBlock {
                        type_params,
                        target,
                        block_index,
                    },
                },
            );
            inherent_items_are_entered(
                t,
                file_id,
                namespace,
                *id,
                block_index,
                !type_params.is_empty(),
                items,
            );
            assert(s.entered() + item_ids(item) =~= s.entered() + seq![*id] + inherent_item_ids(
                items,
                !type_params.is_empty(),
            ));
        },
        Item::TraitImpl { id, items, .. } => {
            let t = s.add_node(
                AstEntry {
                    def_id: *id,
                    file_id,
                    namespace,
                    node: crate::state::AstNodeRef::TraitImplBlock { item },
                },
            );
            impl_items_are_entered(t, file_id, namespace, *id, items);
            assert(s.entered() + item_ids(item) =~= s.entered() + seq![*id] + impl_item_ids(items));
        },
        Item::Import { module, alias, entries } => {
            reveal(State::scan_import);
            let (t, module_name) = s.unquoted_name(module.inner);
            let name: Symbol = match alias {
                Some(alias) => alias.inner,
                None => module_name,
            };
            let t = if alias is None {
                t.report(
                    crate::reports::report_missing_import_alias(
                        SourceSpan::new(file_id, module.span),
                    ),
                )
            } else {
                t
            };
            let import_index = t.import_decls.len() as usize;
            let (t, namespace_idx) = t.add_namespace(
                ModuleNamespace {
                    name,
                    parent: namespace,
                    declaration: crate::tir::ModuleDeclarationKind::Import(import_index),
                    wildcard_imports: List::Nil,
                },
            );
            let t = t.with_symbol(
                namespace,
                SymbolNamespace::Type,
                name,
                SymbolKind::Module { namespace_idx },
            );
            imports_are_entered(t, file_id, namespace, import_index, entries);
        },
        Item::Use { path } => {
            reveal(State::scan_use);
            use_path_enters_nothing(s, file_id, None, path);
        },
        Item::Export { .. } => {},
    }
}

/// Every definition of a module is entered, in the order of the source,
/// whether or not it gets its name.
pub proof fn law_every_definition_is_entered<'ast>(
    s: State<'ast>,
    file_id: FileId,
    namespace: Option<usize>,
    items: &'ast List<Item>,
)
    ensures
        s.pre_scan_items(file_id, namespace, items).entered() == s.entered() + all_item_ids(items),
    decreases items,
{
    match items {
        List::Nil => {
            assert(s.entered() + all_item_ids(items) =~= s.entered());
        },
        List::Cons(item, rest) => {
            item_is_entered(s, file_id, namespace, item);
            let t = s.pre_scan_item(file_id, namespace, item);
            law_every_definition_is_entered(t, file_id, namespace, rest);
            assert(s.entered() + all_item_ids(items) =~= t.entered() + all_item_ids(rest));
        },
    }
}

proof fn crates_enter_nothing<'ast>(s: State<'ast>, crates: &List<SourceCrate>)
    ensures
        s.enter_crates(crates).0.nodes == s.nodes,
        s.enter_crates(crates).1.count() == crates.count(),
    decreases crates,
{
    broadcast use group_entering_nothing;

    match crates {
        List::Nil => {},
        List::Cons(first, rest) => {
            crates_enter_nothing(s.enter_crate(first).0, rest);
        },
    }
}

proof fn module_path_enters_nothing<'ast>(
    s: State<'ast>,
    file_id: FileId,
    base: Option<usize>,
    path: List<Symbol>,
)
    ensures
        s.module_path_ensured(file_id, base, path).0.nodes == s.nodes,
    decreases path,
{
    broadcast use group_entering_nothing;

    match path {
        List::Nil => {},
        List::Cons(segment, rest) => {
            let name = Spanned { inner: *segment, span: TextSpan::new(0, 0) };
            let (t, index) = s.module_ensured(file_id, base, name, None);
            assert(t.nodes == s.nodes);
            let u = match *rest {
                List::Nil => t.module_located(index, file_id),
                List::Cons(..) => t,
            };
            assert(u.nodes == t.nodes);
            module_path_enters_nothing(u, file_id, Some(index), *rest);
        },
    }
}

proof fn modules_are_entered<'ast>(
    s: State<'ast>,
    base: Option<usize>,
    modules: &'ast List<SourceModule>,
)
    ensures
        s.scan_modules(base, modules).entered() == s.entered() + module_ids(modules),
    decreases modules,
{
    match modules {
        List::Nil => {
            assert(s.entered() + module_ids(modules) =~= s.entered());
        },
        List::Cons(first, rest) => {
            module_path_enters_nothing(s, first.file_id, base, first.path);
            let (t, namespace) = s.module_path_ensured(first.file_id, base, first.path);
            law_every_definition_is_entered(t, first.file_id, namespace, &first.items);
            let u = s.scan_module(base, first);
            modules_are_entered(u, base, rest);
            assert(s.entered() + module_ids(modules) =~= u.entered() + module_ids(rest));
        },
    }
}

proof fn crates_are_entered<'ast>(
    s: State<'ast>,
    crates: &'ast List<SourceCrate>,
    bases: &List<Option<usize>>,
)
    requires
        crates.count() == bases.count(),
    ensures
        s.scan_crates(crates, bases).entered() == s.entered() + program_ids(crates),
    decreases crates,
{
    match (crates, bases) {
        (List::Cons(first, crates_rest), List::Cons(base, bases_rest)) => {
            modules_are_entered(s, **base, &first.modules);
            let t = s.scan_modules(**base, &first.modules);
            crates_are_entered(t, crates_rest, bases_rest);
            assert(s.entered() + program_ids(crates) =~= t.entered() + program_ids(crates_rest));
        },
        _ => {
            assert(s.entered() + program_ids(crates) =~= s.entered());
        },
    }
}

/// The first phase enters every definition of the program, in the order of
/// the source.
pub proof fn law_whole_program_is_entered<'ast>(
    texts: Seq<Seq<char>>,
    names: WellKnown,
    program: &'ast Program,
)
    ensures
        program::empty_state(texts, names, program.next_id).scanned(program).entered()
            == program_ids(&program.crates),
{
    let start = program::empty_state(texts, names, program.next_id);
    crates_enter_nothing(start, &program.crates);
    let (s, bases) = start.enter_crates(&program.crates);
    crates_are_entered(s, &program.crates, &bases);
    assert(start.scanned(program).entered() =~= program_ids(&program.crates));
}

} // verus!
