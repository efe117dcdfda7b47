//! The tables that the type checker fills, and the elementary operations on
//! them.

use vstd::prelude::*;

use crate::ast::{ImplItem, ImportDeclaration, Item, TraitItem, TypeExpression, TypeParam};
use crate::diagnostics::Diagnostic;
use crate::interner;
use crate::interner::Interner;
use crate::literal;
use crate::literal::unescape_string;
use crate::list::List;
use crate::span::{DefId, FileId, SourceSpan, Spanned, Symbol};
use crate::tir::{
    AccessRecord, AccessTarget, ComputeState, Constant, Enum, ExportItem, Function, Global,
    ImportDecl, InherentImpl, ItemEntry, ItemIndex, Memory, ModuleDecl, ModuleNamespace, Struct,
    SymbolEntry, SymbolKind, SymbolNamespace, Trait, TraitImpl, TypeAlias, TypeSet,
};
use crate::ty;
use crate::types::{same_type, Type, TypeIndex};

verus! {

/// The syntax that a definition comes from.
#[allow(inconsistent_fields)]
#[derive(Clone, Copy)]
pub enum AstNodeRef<'ast> {
    Function { item: &'ast Item },
    Struct { item: &'ast Item },
    Enum { item: &'ast Item },
    Global { item: &'ast Item },
    Memory { item: &'ast Item },
    Constant { item: &'ast Item },
    TypeSet { typeset_index: usize, item: &'ast Item },
    TypeAlias { item: &'ast Item },
    Trait { trait_index: usize, item: &'ast Item },
    TraitFunction { trait_index: usize, item: &'ast TraitItem },
    TraitConst { trait_index: usize, item: &'ast TraitItem },
    TraitAssocType { trait_index: usize, item: &'ast TraitItem },
    TraitImplBlock { item: &'ast Item },
    TraitImplFunction { parent_id: DefId, item: &'ast ImplItem },
    TraitImplConstant { parent_id: DefId, item: &'ast ImplItem },
    TraitImplAssocType { parent_id: DefId, item: &'ast ImplItem },
    InherentImplBlock {
        type_params: &'ast List<TypeParam>,
        target: &'ast Spanned<TypeExpression>,
        block_index: usize,
    },
    InherentImplFunction { block_id: DefId, item: &'ast ImplItem, block_index: usize },
    InherentImplConst { block_id: DefId, item: &'ast ImplItem, block_index: usize },
    ImportedFunction { import_index: usize, decl: &'ast ImportDeclaration },
    ImportedGlobal { import_index: usize, decl: &'ast ImportDeclaration },
    /// A memory that is declared inside an import.
    ImportedMemory,
}

/// A definition in the order in which the program declares it.
#[derive(Clone, Copy)]
pub struct AstEntry<'ast> {
    pub def_id: DefId,
    pub file_id: FileId,
    pub namespace: Option<usize>,
    pub node: AstNodeRef<'ast>,
}

/// Names with a meaning of their own.
#[derive(Clone, Copy, Debug, PartialEq, Eq, Structural)]
pub struct WellKnown {
    /// `self`
    pub self_value: Symbol,
    /// `Self`
    pub self_type: Symbol,
    /// `Size`, the associated type that gives a memory's address type.
    pub size: Symbol,
    /// `pointer_size`, the tag of the typeset of all address types.
    pub pointer_size: Symbol,
}

/// What an impl is for, as far as the choice of an impl goes: the type
/// without its arguments.
#[derive(Clone, Copy, Debug, PartialEq, Eq, Structural)]
pub enum ImplTarget {
    Primitive(TypeIndex),
    Struct(usize),
    Enum(usize),
    Memory(DefId),
    Slice,
    Array,
    Tuple,
}

/// A member that an inherent impl block offers for a target.
#[derive(Clone, Copy, Debug, PartialEq, Eq, Structural)]
pub struct InherentDispatch {
    pub target: ImplTarget,
    pub name: Symbol,
    pub block_index: usize,
}

/// The one impl of a trait for a target.
#[derive(Clone, Copy, Debug, PartialEq, Eq, Structural)]
pub struct TraitDispatch {
    pub target: ImplTarget,
    pub trait_index: usize,
    pub impl_index: usize,
}

/// An item that an attribute `#[tag = ".."]` names.
#[derive(Clone, Copy, Debug, PartialEq, Eq, Structural)]
pub struct TaggedItem {
    pub key: Symbol,
    pub id: DefId,
}

/// The state of the type checker, as a value.
#[verifier::ext_equal]
pub struct State<'ast> {
    pub texts: Seq<Seq<char>>,
    pub names: WellKnown,
    pub types: Seq<Type>,
    pub diagnostics: Seq<Diagnostic>,
    pub accesses: Seq<AccessRecord>,
    pub symbols: Seq<SymbolEntry>,
    pub root_wildcard_imports: Seq<usize>,
    pub namespaces: Seq<ModuleNamespace>,
    pub module_decls: Seq<ModuleDecl>,
    pub import_decls: Seq<ImportDecl>,
    pub items: Seq<ItemEntry>,
    pub functions: Seq<Function>,
    pub globals: Seq<Global>,
    pub constants: Seq<Constant>,
    pub structs: Seq<Struct>,
    pub enums: Seq<Enum>,
    pub type_aliases: Seq<TypeAlias>,
    pub memories: Seq<Memory>,
    pub traits: Seq<Trait>,
    pub trait_impls: Seq<TraitImpl>,
    pub inherent_impls: Seq<InherentImpl>,
    pub typesets: Seq<TypeSet>,
    pub inherent_dispatch: Seq<InherentDispatch>,
    pub trait_dispatch: Seq<TraitDispatch>,
    pub exports: Seq<ExportItem>,
    pub tagged_items: Seq<TaggedItem>,
    pub nodes: Seq<AstEntry<'ast>>,
    pub sig_states: Seq<ComputeState>,
    pub next_id: DefId,
}

/// The type checker.
pub struct Builder<'ast> {
    pub interner: Interner,
    pub names: WellKnown,
    pub types: Vec<Type>,
    pub diagnostics: Vec<Diagnostic>,
    pub accesses: Vec<AccessRecord>,
    pub symbols: Vec<SymbolEntry>,
    pub root_wildcard_imports: Vec<usize>,
    pub namespaces: Vec<ModuleNamespace>,
    pub module_decls: Vec<ModuleDecl>,
    pub import_decls: Vec<ImportDecl>,
    pub items: Vec<ItemEntry>,
    pub functions: Vec<Function>,
    pub globals: Vec<Global>,
    pub constants: Vec<Constant>,
    pub structs: Vec<Struct>,
    pub enums: Vec<Enum>,
    pub type_aliases: Vec<TypeAlias>,
    pub memories: Vec<Memory>,
    pub traits: Vec<Trait>,
    pub trait_impls: Vec<TraitImpl>,
    pub inherent_impls: Vec<InherentImpl>,
    pub typesets: Vec<TypeSet>,
    pub inherent_dispatch: Vec<InherentDispatch>,
    pub trait_dispatch: Vec<TraitDispatch>,
    pub exports: Vec<ExportItem>,
    pub tagged_items: Vec<TaggedItem>,
    /// Filled by the first phase, in the order of the program.
    pub nodes: Vec<AstEntry<'ast>>,
    /// How far the signature of each node has come.
    pub sig_states: Vec<ComputeState>,
    /// The next definition id that no syntax has.
    pub next_id: DefId,
}

impl<'ast> View for Builder<'ast> {
    type V = State<'ast>;

    open spec fn view(&self) -> State<'ast> {
        State {
            texts: self.interner@,
            names: self.names,
            types: self.types@,
            diagnostics: self.diagnostics@,
            accesses: self.accesses@,
            symbols: self.symbols@,
            root_wildcard_imports: self.root_wildcard_imports@,
            namespaces: self.namespaces@,
            module_decls: self.module_decls@,
            import_decls: self.import_decls@,
            items: self.items@,
            functions: self.functions@,
            globals: self.globals@,
            constants: self.constants@,
            structs: self.structs@,
            enums: self.enums@,
            type_aliases: self.type_aliases@,
            memories: self.memories@,
            traits: self.traits@,
            trait_impls: self.trait_impls@,
            inherent_impls: self.inherent_impls@,
            typesets: self.typesets@,
            inherent_dispatch: self.inherent_dispatch@,
            trait_dispatch: self.trait_dispatch@,
            exports: self.exports@,
            tagged_items: self.tagged_items@,
            nodes: self.nodes@,
            sig_states: self.sig_states@,
            next_id: self.next_id,
        }
    }
}

/// The element at `index`, if there is one.
pub open spec fn seq_at<T>(elements: Seq<T>, index: usize) -> Option<T> {
    if index < elements.len() {
        Some(elements[index as int])
    } else {
        None
    }
}

/// The element at `index`, if there is one, by reference.
pub open spec fn seq_ref<'a, T>(elements: Seq<T>, index: usize) -> Option<&'a T> {
    if index < elements.len() {
        Some(&elements[index as int])
    } else {
        None
    }
}

/// The element at `index`, if there is one.
pub fn vec_at<T>(elements: &Vec<T>, index: usize) -> (result: Option<&T>)
    ensures
        result == seq_ref(elements@, index),
        match result {
            Some(element) => seq_at(elements@, index) == Some(*element),
            None => seq_at(elements@, index) is None,
        },
{
    if index < elements.len() {
        Some(&elements[index])
    } else {
        None
    }
}

/// The first position of `ty` in the pool, from `from` on; the length of the
/// pool where there is none.
pub open spec fn type_position(types: Seq<Type>, ty: Type, from: int) -> int
    decreases types.len() - from,
{
    if from < 0 || from >= types.len() {
        types.len() as int
    } else if types[from] == ty {
        from
    } else {
        type_position(types, ty, from + 1)
    }
}

/// The first position of a symbol table entry for the name, from `from` on;
/// the length of the table where there is none.
pub open spec fn symbol_position(
    symbols: Seq<SymbolEntry>,
    namespace: Option<usize>,
    space: SymbolNamespace,
    name: Symbol,
    from: int,
) -> int
    decreases symbols.len() - from,
{
    if from < 0 || from >= symbols.len() {
        symbols.len() as int
    } else if symbols[from].namespace == namespace && symbols[from].space == space
        && symbols[from].name == name {
        from
    } else {
        symbol_position(symbols, namespace, space, name, from + 1)
    }
}

/// The first position of the definition in the item table, from `from` on.
pub open spec fn item_position(items: Seq<ItemEntry>, id: DefId, from: int) -> int
    decreases items.len() - from,
{
    if from < 0 || from >= items.len() {
        items.len() as int
    } else if items[from].id == id {
        from
    } else {
        item_position(items, id, from + 1)
    }
}

/// The first position of the definition in the node table, from `from` on.
pub open spec fn node_position(nodes: Seq<AstEntry>, id: DefId, from: int) -> int
    decreases nodes.len() - from,
{
    if from < 0 || from >= nodes.len() {
        nodes.len() as int
    } else if nodes[from].def_id == id {
        from
    } else {
        node_position(nodes, id, from + 1)
    }
}

impl<'ast> State<'ast> {
    /// The type at an index; an index outside the pool reads as the poison
    /// type.
    pub open spec fn ty(self, index: TypeIndex) -> Type {
        if index < self.types.len() {
            self.types[index as int]
        } else {
            Type::Error
        }
    }

    #[verifier::opaque]
    pub open spec fn report(self, diagnostic: Diagnostic) -> State<'ast> {
        State { diagnostics: self.diagnostics.push(diagnostic), ..self }
    }

    #[verifier::opaque]
    pub open spec fn access(self, target: AccessTarget, span: SourceSpan) -> State<'ast> {
        State { accesses: self.accesses.push(AccessRecord { target, span }), ..self }
    }

    /// The position of a definition in the node table; its length where there
    /// is no such definition.
    pub open spec fn node_index(self, id: DefId) -> usize {
        node_position(self.nodes, id, 0) as usize
    }

    /// Interns `ty`: its index where the pool has it, otherwise the index of
    /// the new entry at the end.
    #[verifier::opaque]
    pub open spec fn intern(self, ty: Type) -> (State<'ast>, TypeIndex) {
        let position = type_position(self.types, ty, 0);
        if position < self.types.len() {
            (self, position as usize)
        } else {
            (State { types: self.types.push(ty), ..self }, self.types.len() as usize)
        }
    }

    /// Interns the text that a string literal stands for; none where it is new
    /// and no symbol is left.
    #[verifier::opaque]
    pub open spec fn with_literal(self, raw: &String) -> (State<'ast>, Option<Symbol>) {
        let (texts, symbol) = interner::with_text(self.texts, literal::unescaped(raw@));
        (State { texts, ..self }, symbol)
    }

    /// Interns the text that a quoted name stands for; the quoted name itself
    /// where that text is new and no symbol is left.
    #[verifier::opaque]
    pub open spec fn unquoted_name(self, name: Symbol) -> (State<'ast>, Symbol) {
        let text = literal::unescaped(interner::text_or_empty(self.texts, name));
        let (texts, symbol) = interner::with_text(self.texts, text);
        (
            State { texts, ..self },
            match symbol {
                Some(symbol) => symbol,
                None => name,
            },
        )
    }

    /// The meaning of a name in one namespace alone.
    pub open spec fn direct_symbol(
        self,
        namespace: Option<usize>,
        space: SymbolNamespace,
        name: Symbol,
    ) -> Option<SymbolKind> {
        let position = symbol_position(self.symbols, namespace, space, name, 0);
        if position < self.symbols.len() {
            Some(self.symbols[position].kind)
        } else {
            None
        }
    }

    /// Gives a name in one namespace a meaning, in place of an earlier one.
    #[verifier::opaque]
    pub open spec fn with_symbol(
        self,
        namespace: Option<usize>,
        space: SymbolNamespace,
        name: Symbol,
        kind: SymbolKind,
    ) -> State<'ast> {
        let entry = SymbolEntry { namespace, space, name, kind };
        let position = symbol_position(self.symbols, namespace, space, name, 0);
        if position < self.symbols.len() {
            State { symbols: self.symbols.update(position, entry), ..self }
        } else {
            State { symbols: self.symbols.push(entry), ..self }
        }
    }

    /// Where a definition ended up.
    pub open spec fn item(self, id: DefId) -> Option<ItemIndex> {
        let position = item_position(self.items, id, 0);
        if position < self.items.len() {
            Some(self.items[position].index)
        } else {
            None
        }
    }

    #[verifier::opaque]
    pub open spec fn with_item(self, id: DefId, index: ItemIndex) -> State<'ast> {
        let entry = ItemEntry { id, index };
        let position = item_position(self.items, id, 0);
        if position < self.items.len() {
            State { items: self.items.update(position, entry), ..self }
        } else {
            State { items: self.items.push(entry), ..self }
        }
    }

    pub open spec fn function_index(self, id: DefId) -> Option<usize> {
        match self.item(id) {
            Some(ItemIndex::Function(index)) => Some(index),
            _ => None,
        }
    }

    pub open spec fn struct_index(self, id: DefId) -> Option<usize> {
        match self.item(id) {
            Some(ItemIndex::Struct(index)) => Some(index),
            _ => None,
        }
    }

    pub open spec fn type_alias_index(self, id: DefId) -> Option<usize> {
        match self.item(id) {
            Some(ItemIndex::TypeAlias(index)) => Some(index),
            _ => None,
        }
    }

    pub open spec fn const_index(self, id: DefId) -> Option<usize> {
        match self.item(id) {
            Some(ItemIndex::Const(index)) => Some(index),
            _ => None,
        }
    }

    pub open spec fn global_index(self, id: DefId) -> Option<usize> {
        match self.item(id) {
            Some(ItemIndex::Global(index)) => Some(index),
            _ => None,
        }
    }

    pub open spec fn enum_index(self, id: DefId) -> Option<usize> {
        match self.item(id) {
            Some(ItemIndex::Enum(index)) => Some(index),
            _ => None,
        }
    }

    pub open spec fn memory_index(self, id: DefId) -> Option<usize> {
        match self.item(id) {
            Some(ItemIndex::Memory(index)) => Some(index),
            _ => None,
        }
    }

    pub open spec fn trait_impl_index(self, id: DefId) -> Option<usize> {
        match self.item(id) {
            Some(ItemIndex::TraitImpl(index)) => Some(index),
            _ => None,
        }
    }

    pub open spec fn function(self, index: usize) -> Option<Function> {
        seq_at(self.functions, index)
    }

    /// The signature type of a function; poison where there is none.
    pub open spec fn signature_of(self, id: DefId) -> TypeIndex {
        match self.function_index(id) {
            Some(index) => match self.function(index) {
                Some(function) => function.signature_index,
                None => ty::ERROR,
            },
            None => ty::ERROR,
        }
    }
}

impl<'ast> Builder<'ast> {
    /// The type at an index; an index outside the pool reads as the poison
    /// type.
    pub fn ty(&self, index: TypeIndex) -> (result: Type)
        ensures
            result == self@.ty(index),
    {
        if index < self.types.len() {
            self.types[index].duplicate()
        } else {
            Type::Error
        }
    }

    pub fn report(&mut self, diagnostic: Diagnostic)
        ensures
            final(self)@ == old(self)@.report(diagnostic),
    {
        proof {
            reveal(State::report);
        }
        self.diagnostics.push(diagnostic);
    }

    /// Records a use of `target`.
    pub fn access(&mut self, target: AccessTarget, span: SourceSpan)
        ensures
            final(self)@ == old(self)@.access(target, span),
    {
        proof {
            reveal(State::access);
        }
        self.accesses.push(AccessRecord { target, span });
    }

    /// The index of `ty` in the pool, which gets it at the end where it is
    /// new.
    pub fn intern_type(&mut self, ty: Type) -> (result: TypeIndex)
        ensures
            (final(self)@, result) == old(self)@.intern(ty),
    {
        proof {
            reveal(State::intern);
        }
        let mut i: usize = 0;
        while i < self.types.len()
            invariant
                i <= self.types.len(),
                *self == *old(self),
                type_position(self.types@, ty, 0) == type_position(self.types@, ty, i as int),
            decreases self.types.len() - i,
        {
            if same_type(&self.types[i], &ty) {
                proof {
                    reveal(State::intern);
                }
                return i;
            }
            i = i + 1;
        }
        let index: usize = self.types.len();
        self.types.push(ty);
        index
    }

    /// Interns the text that a string literal stands for; none where it is new
    /// and no symbol is left.
    pub fn intern_literal(&mut self, raw: &String) -> (result: Option<Symbol>)
        ensures
            (final(self)@, result) == old(self)@.with_literal(raw),
    {
        proof {
            reveal(State::with_literal);
        }
        let text = unescape_string(raw.as_str());
        self.interner.intern(text.as_str())
    }

    /// Interns the text that a quoted name stands for; the quoted name itself
    /// where that text is new and no symbol is left.
    pub fn intern_unquoted(&mut self, name: Symbol) -> (result: Symbol)
        ensures
            (final(self)@, result) == old(self)@.unquoted_name(name),
    {
        proof {
            reveal(State::unquoted_name);
        }
        let text = match self.interner.resolve(name) {
            Some(raw) => unescape_string(raw),
            None => String::new(),
        };
        match self.interner.intern(text.as_str()) {
            Some(symbol) => symbol,
            None => name,
        }
    }

    fn find_symbol(&self, namespace: Option<usize>, space: SymbolNamespace, name: Symbol) -> (result:
        usize)
        ensures
            result == symbol_position(self@.symbols, namespace, space, name, 0),
            result <= self@.symbols.len(),
    {
        let mut i: usize = 0;
        while i < self.symbols.len()
            invariant
                i <= self.symbols.len(),
                symbol_position(self.symbols@, namespace, space, name, 0) == symbol_position(
                    self.symbols@,
                    namespace,
                    space,
                    name,
                    i as int,
                ),
            decreases self.symbols.len() - i,
        {
            let entry: SymbolEntry = self.symbols[i];
            if entry.namespace == namespace && entry.space == space && entry.name == name {
                return i;
            }
            i = i + 1;
        }
        i
    }

    /// The meaning of a name in one namespace alone, without its parents and
    /// its imports.
    pub fn direct_scope_lookup(
        &self,
        namespace: Option<usize>,
        space: SymbolNamespace,
        name: Symbol,
    ) -> (result: Option<SymbolKind>)
        ensures
            result == self@.direct_symbol(namespace, space, name),
    {
        let position: usize = self.find_symbol(namespace, space, name);
        if position < self.symbols.len() {
            Some(self.symbols[position].kind)
        } else {
            None
        }
    }

    /// Gives a name in one namespace a meaning, in place of an earlier one.
    pub fn insert_symbol(
        &mut self,
        namespace: Option<usize>,
        space: SymbolNamespace,
        name: Symbol,
        kind: SymbolKind,
    )
        ensures
            final(self)@ == old(self)@.with_symbol(namespace, space, name, kind),
    {
        proof {
            reveal(State::with_symbol);
        }
        let position: usize = self.find_symbol(namespace, space, name);
        let entry = SymbolEntry { namespace, space, name, kind };
        if position < self.symbols.len() {
            self.symbols.set(position, entry);
        } else {
            self.symbols.push(entry);
        }
    }

    fn find_item(&self, id: DefId) -> (result: usize)
        ensures
            result == item_position(self@.items, id, 0),
            result <= self@.items.len(),
    {
        let mut i: usize = 0;
        while i < self.items.len()
            invariant
                i <= self.items.len(),
                item_position(self.items@, id, 0) == item_position(self.items@, id, i as int),
            decreases self.items.len() - i,
        {
            if self.items[i].id == id {
                return i;
            }
            i = i + 1;
        }
        i
    }

    /// Where a definition ended up.
    pub fn item(&self, id: DefId) -> (result: Option<ItemIndex>)
        ensures
            result == self@.item(id),
    {
        let position: usize = self.find_item(id);
        if position < self.items.len() {
            Some(self.items[position].index)
        } else {
            None
        }
    }

    pub fn insert_item(&mut self, id: DefId, index: ItemIndex)
        ensures
            final(self)@ == old(self)@.with_item(id, index),
    {
        proof {
            reveal(State::with_item);
        }
        let position: usize = self.find_item(id);
        let entry = ItemEntry { id, index };
        if position < self.items.len() {
            self.items.set(position, entry);
        } else {
            self.items.push(entry);
        }
    }

    /// The position of a definition in the node table; the length of the
    /// table where it is not there.
    pub fn node_index(&self, id: DefId) -> (result: usize)
        ensures
            result == self@.node_index(id),
            result <= self@.nodes.len(),
    {
        let mut i: usize = 0;
        while i < self.nodes.len()
            invariant
                i <= self.nodes.len(),
                node_position(self.nodes@, id, 0) == node_position(self.nodes@, id, i as int),
            decreases self.nodes.len() - i,
        {
            if self.nodes[i].def_id == id {
                return i;
            }
            i = i + 1;
        }
        i
    }

    pub fn function_index(&self, id: DefId) -> (result: Option<usize>)
        ensures
            result == self@.function_index(id),
    {
        match self.item(id) {
            Some(ItemIndex::Function(index)) => Some(index),
            _ => None,
        }
    }

    pub fn struct_index(&self, id: DefId) -> (result: Option<usize>)
        ensures
            result == self@.struct_index(id),
    {
        match self.item(id) {
            Some(ItemIndex::Struct(index)) => Some(index),
            _ => None,
        }
    }

    pub fn type_alias_index(&self, id: DefId) -> (result: Option<usize>)
        ensures
            result == self@.type_alias_index(id),
    {
        match self.item(id) {
            Some(ItemIndex::TypeAlias(index)) => Some(index),
            _ => None,
        }
    }

    pub fn const_index(&self, id: DefId) -> (result: Option<usize>)
        ensures
            result == self@.const_index(id),
    {
        match self.item(id) {
            Some(ItemIndex::Const(index)) => Some(index),
            _ => None,
        }
    }

    pub fn global_index(&self, id: DefId) -> (result: Option<usize>)
        ensures
            result == self@.global_index(id),
    {
        match self.item(id) {
            Some(ItemIndex::Global(index)) => Some(index),
            _ => None,
        }
    }

    pub fn enum_index(&self, id: DefId) -> (result: Option<usize>)
        ensures
            result == self@.enum_index(id),
    {
        match self.item(id) {
            Some(ItemIndex::Enum(index)) => Some(index),
            _ => None,
        }
    }

    pub fn memory_index(&self, id: DefId) -> (result: Option<usize>)
        ensures
            result == self@.memory_index(id),
    {
        match self.item(id) {
            Some(ItemIndex::Memory(index)) => Some(index),
            _ => None,
        }
    }

    pub fn trait_impl_index(&self, id: DefId) -> (result: Option<usize>)
        ensures
            result == self@.trait_impl_index(id),
    {
        match self.item(id) {
            Some(ItemIndex::TraitImpl(index)) => Some(index),
            _ => None,
        }
    }

    pub fn function(&self, index: usize) -> (result: Option<&Function>)
        ensures
            match result {
                Some(function) => self@.function(index) == Some(*function),
                None => self@.function(index) is None,
            },
    {
        vec_at(&self.functions, index)
    }

    /// The signature type of a function; poison where there is none.
    pub fn signature_of(&self, id: DefId) -> (result: TypeIndex)
        ensures
            result == self@.signature_of(id),
    {
        match self.function_index(id) {
            Some(index) => match self.function(index) {
                Some(function) => function.signature_index,
                None => ty::ERROR,
            },
            None => ty::ERROR,
        }
    }
}

} // verus!
