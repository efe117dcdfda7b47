//! Adding entries to the tables of the type checker, and filling in what is
//! known only later.

use vstd::prelude::*;

use crate::list::List;
use crate::span::{DefId, Spanned};
use crate::state;
use crate::state::{AstEntry, Builder, InherentDispatch, State, TaggedItem, TraitDispatch};
use crate::tir::{
    ComputeState, ConstValue, Constant, Enum, EnumVariant, ExportItem, Expression, Function,
    FunctionBody, FunctionParam, Global, ImportDecl, ImportEntry, InherentImpl, IntegerRange,
    Member, Memory, ModuleNamespace, Struct, StructField, SupertraitBinding, Trait,
    TraitAssocType, TraitImpl, TypeAlias, TypeParamInfo, TypeSet,
};
use crate::types::TypeIndex;

verus! {

impl<'ast> State<'ast> {
    /// Adds a function at the end of its table; the result is its index there.
    #[verifier::opaque]
    pub open spec fn add_function(self, item: Function) -> (State<'ast>, usize) {
        (State { functions: self.functions.push(item), ..self }, self.functions.len() as usize)
    }

    /// Adds a global at the end of its table; the result is its index there.
    #[verifier::opaque]
    pub open spec fn add_global(self, item: Global) -> (State<'ast>, usize) {
        (State { globals: self.globals.push(item), ..self }, self.globals.len() as usize)
    }

    /// Adds a constant at the end of its table; the result is its index there.
    #[verifier::opaque]
    pub open spec fn add_constant(self, item: Constant) -> (State<'ast>, usize) {
        (State { constants: self.constants.push(item), ..self }, self.constants.len() as usize)
    }

    /// Adds a struct at the end of its table; the result is its index there.
    #[verifier::opaque]
    pub open spec fn add_struct_item(self, item: Struct) -> (State<'ast>, usize) {
        (State { structs: self.structs.push(item), ..self }, self.structs.len() as usize)
    }

    /// Adds an enum at the end of its table; the result is its index there.
    #[verifier::opaque]
    pub open spec fn add_enum_item(self, item: Enum) -> (State<'ast>, usize) {
        (State { enums: self.enums.push(item), ..self }, self.enums.len() as usize)
    }

    /// Adds a type alias at the end of its table; the result is its index there.
    #[verifier::opaque]
    pub open spec fn add_type_alias(self, item: TypeAlias) -> (State<'ast>, usize) {
        (State { type_aliases: self.type_aliases.push(item), ..self }, self.type_aliases.len() as usize)
    }

    /// Adds a memory at the end of its table; the result is its index there.
    #[verifier::opaque]
    pub open spec fn add_memory(self, item: Memory) -> (State<'ast>, usize) {
        (State { memories: self.memories.push(item), ..self }, self.memories.len() as usize)
    }

    /// Adds a trait at the end of its table; the result is its index there.
    #[verifier::opaque]
    pub open spec fn add_trait_item(self, item: Trait) -> (State<'ast>, usize) {
        (State { traits: self.traits.push(item), ..self }, self.traits.len() as usize)
    }

    /// Adds a trait impl at the end of its table; the result is its index there.
    #[verifier::opaque]
    pub open spec fn add_trait_impl(self, item: TraitImpl) -> (State<'ast>, usize) {
        (State { trait_impls: self.trait_impls.push(item), ..self }, self.trait_impls.len() as usize)
    }

    /// Adds an inherent impl block at the end of its table; the result is its index there.
    #[verifier::opaque]
    pub open spec fn add_inherent_impl(self, item: InherentImpl) -> (State<'ast>, usize) {
        (State { inherent_impls: self.inherent_impls.push(item), ..self }, self.inherent_impls.len() as usize)
    }

    /// Adds a typeset at the end of its table; the result is its index there.
    #[verifier::opaque]
    pub open spec fn add_typeset(self, item: TypeSet) -> (State<'ast>, usize) {
        (State { typesets: self.typesets.push(item), ..self }, self.typesets.len() as usize)
    }

    /// Adds a namespace at the end of its table; the result is its index there.
    #[verifier::opaque]
    pub open spec fn add_namespace(self, item: ModuleNamespace) -> (State<'ast>, usize) {
        (State { namespaces: self.namespaces.push(item), ..self }, self.namespaces.len() as usize)
    }

    /// Adds an import declaration at the end of its table; the result is its index there.
    #[verifier::opaque]
    pub open spec fn add_import_decl(self, item: ImportDecl) -> (State<'ast>, usize) {
        (State { import_decls: self.import_decls.push(item), ..self }, self.import_decls.len() as usize)
    }

    /// Adds a member that an inherent impl offers.
    #[verifier::opaque]
    pub open spec fn add_inherent_dispatch(self, item: InherentDispatch) -> State<'ast> {
        State { inherent_dispatch: self.inherent_dispatch.push(item), ..self }
    }

    /// Adds the impl of a trait.
    #[verifier::opaque]
    pub open spec fn add_trait_dispatch(self, item: TraitDispatch) -> State<'ast> {
        State { trait_dispatch: self.trait_dispatch.push(item), ..self }
    }

    /// Adds an item with a tag.
    #[verifier::opaque]
    pub open spec fn add_tagged_item(self, item: TaggedItem) -> State<'ast> {
        State { tagged_items: self.tagged_items.push(item), ..self }
    }

    /// Adds a definition.
    #[verifier::opaque]
    pub open spec fn add_node(self, item: AstEntry<'ast>) -> State<'ast> {
        State { nodes: self.nodes.push(item), ..self }
    }

    /// Adds a wildcard import of the root.
    #[verifier::opaque]
    pub open spec fn add_root_wildcard_import(self, item: usize) -> State<'ast> {
        State { root_wildcard_imports: self.root_wildcard_imports.push(item), ..self }
    }

    /// Adds an export.
    #[verifier::opaque]
    pub open spec fn add_export(self, item: ExportItem) -> State<'ast> {
        State { exports: self.exports.push(item), ..self }
    }

    #[verifier::opaque]
    pub open spec fn set_function_params(
        self,
        index: usize,
        value: List<FunctionParam>,
    ) -> State<'ast> {
        match state::seq_at(self.functions, index) {
            Some(item) => State {
                functions: self.functions.update(index as int, Function { params: value, ..item }),
                ..self
            },
            None => self,
        }
    }

    #[verifier::opaque]
    pub open spec fn set_function_result(
        self,
        index: usize,
        value: Option<Spanned<TypeIndex>>,
    ) -> State<'ast> {
        match state::seq_at(self.functions, index) {
            Some(item) => State {
                functions: self.functions.update(index as int, Function { result: value, ..item }),
                ..self
            },
            None => self,
        }
    }

    #[verifier::opaque]
    pub open spec fn set_function_signature_index(
        self,
        index: usize,
        value: TypeIndex,
    ) -> State<'ast> {
        match state::seq_at(self.functions, index) {
            Some(item) => State {
                functions: self.functions.update(index as int, Function { signature_index: value, ..item }),
                ..self
            },
            None => self,
        }
    }

    #[verifier::opaque]
    pub open spec fn set_function_type_params(
        self,
        index: usize,
        value: List<TypeParamInfo>,
    ) -> State<'ast> {
        match state::seq_at(self.functions, index) {
            Some(item) => State {
                functions: self.functions.update(index as int, Function { type_params: value, ..item }),
                ..self
            },
            None => self,
        }
    }

    #[verifier::opaque]
    pub open spec fn set_function_body(
        self,
        index: usize,
        value: Option<FunctionBody>,
    ) -> State<'ast> {
        match state::seq_at(self.functions, index) {
            Some(item) => State {
                functions: self.functions.update(index as int, Function { body: value, ..item }),
                ..self
            },
            None => self,
        }
    }

    #[verifier::opaque]
    pub open spec fn set_global_ty(self, index: usize, value: Spanned<TypeIndex>) -> State<'ast> {
        match state::seq_at(self.globals, index) {
            Some(item) => State {
                globals: self.globals.update(index as int, Global { ty: value, ..item }),
                ..self
            },
            None => self,
        }
    }

    #[verifier::opaque]
    pub open spec fn set_global_value(
        self,
        index: usize,
        value: Option<FunctionBody>,
    ) -> State<'ast> {
        match state::seq_at(self.globals, index) {
            Some(item) => State {
                globals: self.globals.update(index as int, Global { value: value, ..item }),
                ..self
            },
            None => self,
        }
    }

    #[verifier::opaque]
    pub open spec fn set_constant_ty(
        self,
        index: usize,
        value: Spanned<TypeIndex>,
    ) -> State<'ast> {
        match state::seq_at(self.constants, index) {
            Some(item) => State {
                constants: self.constants.update(index as int, Constant { ty: value, ..item }),
                ..self
            },
            None => self,
        }
    }

    #[verifier::opaque]
    pub open spec fn set_constant_value(
        self,
        index: usize,
        value: Option<Expression>,
    ) -> State<'ast> {
        match state::seq_at(self.constants, index) {
            Some(item) => State {
                constants: self.constants.update(index as int, Constant { value: value, ..item }),
                ..self
            },
            None => self,
        }
    }

    #[verifier::opaque]
    pub open spec fn set_constant_const_value(
        self,
        index: usize,
        value: Option<ConstValue>,
    ) -> State<'ast> {
        match state::seq_at(self.constants, index) {
            Some(item) => State {
                constants: self.constants.update(index as int, Constant { const_value: value, ..item }),
                ..self
            },
            None => self,
        }
    }

    #[verifier::opaque]
    pub open spec fn set_struct_type_params(
        self,
        index: usize,
        value: List<TypeParamInfo>,
    ) -> State<'ast> {
        match state::seq_at(self.structs, index) {
            Some(item) => State {
                structs: self.structs.update(index as int, Struct { type_params: value, ..item }),
                ..self
            },
            None => self,
        }
    }

    #[verifier::opaque]
    pub open spec fn set_struct_fields(
        self,
        index: usize,
        value: List<StructField>,
    ) -> State<'ast> {
        match state::seq_at(self.structs, index) {
            Some(item) => State {
                structs: self.structs.update(index as int, Struct { fields: value, ..item }),
                ..self
            },
            None => self,
        }
    }

    #[verifier::opaque]
    pub open spec fn set_enum_repr_type(self, index: usize, value: TypeIndex) -> State<'ast> {
        match state::seq_at(self.enums, index) {
            Some(item) => State {
                enums: self.enums.update(index as int, Enum { repr_type: value, ..item }),
                ..self
            },
            None => self,
        }
    }

    #[verifier::opaque]
    pub open spec fn set_enum_variants(
        self,
        index: usize,
        value: List<EnumVariant>,
    ) -> State<'ast> {
        match state::seq_at(self.enums, index) {
            Some(item) => State {
                enums: self.enums.update(index as int, Enum { variants: value, ..item }),
                ..self
            },
            None => self,
        }
    }

    #[verifier::opaque]
    pub open spec fn set_type_alias_type_params(
        self,
        index: usize,
        value: List<TypeParamInfo>,
    ) -> State<'ast> {
        match state::seq_at(self.type_aliases, index) {
            Some(item) => State {
                type_aliases: self.type_aliases.update(index as int, TypeAlias { type_params: value, ..item }),
                ..self
            },
            None => self,
        }
    }

    #[verifier::opaque]
    pub open spec fn set_type_alias_template(
        self,
        index: usize,
        value: TypeIndex,
    ) -> State<'ast> {
        match state::seq_at(self.type_aliases, index) {
            Some(item) => State {
                type_aliases: self.type_aliases.update(index as int, TypeAlias { template: value, ..item }),
                ..self
            },
            None => self,
        }
    }

    #[verifier::opaque]
    pub open spec fn set_memory_kind(self, index: usize, value: TypeIndex) -> State<'ast> {
        match state::seq_at(self.memories, index) {
            Some(item) => State {
                memories: self.memories.update(index as int, Memory { kind: value, ..item }),
                ..self
            },
            None => self,
        }
    }

    #[verifier::opaque]
    pub open spec fn set_memory_min_pages(self, index: usize, value: Option<u32>) -> State<'ast> {
        match state::seq_at(self.memories, index) {
            Some(item) => State {
                memories: self.memories.update(index as int, Memory { min_pages: value, ..item }),
                ..self
            },
            None => self,
        }
    }

    #[verifier::opaque]
    pub open spec fn set_memory_max_pages(self, index: usize, value: Option<u32>) -> State<'ast> {
        match state::seq_at(self.memories, index) {
            Some(item) => State {
                memories: self.memories.update(index as int, Memory { max_pages: value, ..item }),
                ..self
            },
            None => self,
        }
    }

    #[verifier::opaque]
    pub open spec fn set_trait_supertraits(
        self,
        index: usize,
        value: List<usize>,
    ) -> State<'ast> {
        match state::seq_at(self.traits, index) {
            Some(item) => State {
                traits: self.traits.update(index as int, Trait { supertraits: value, ..item }),
                ..self
            },
            None => self,
        }
    }

    #[verifier::opaque]
    pub open spec fn set_trait_supertrait_bindings(
        self,
        index: usize,
        value: List<SupertraitBinding>,
    ) -> State<'ast> {
        match state::seq_at(self.traits, index) {
            Some(item) => State {
                traits: self.traits.update(index as int, Trait { supertrait_bindings: value, ..item }),
                ..self
            },
            None => self,
        }
    }

    #[verifier::opaque]
    pub open spec fn set_trait_members(self, index: usize, value: List<Member>) -> State<'ast> {
        match state::seq_at(self.traits, index) {
            Some(item) => State {
                traits: self.traits.update(index as int, Trait { members: value, ..item }),
                ..self
            },
            None => self,
        }
    }

    #[verifier::opaque]
    pub open spec fn set_trait_assoc_types(
        self,
        index: usize,
        value: List<TraitAssocType>,
    ) -> State<'ast> {
        match state::seq_at(self.traits, index) {
            Some(item) => State {
                traits: self.traits.update(index as int, Trait { assoc_types: value, ..item }),
                ..self
            },
            None => self,
        }
    }

    #[verifier::opaque]
    pub open spec fn set_trait_self_type_param(
        self,
        index: usize,
        value: TypeParamInfo,
    ) -> State<'ast> {
        match state::seq_at(self.traits, index) {
            Some(item) => State {
                traits: self.traits.update(index as int, Trait { self_type_param: value, ..item }),
                ..self
            },
            None => self,
        }
    }

    #[verifier::opaque]
    pub open spec fn set_trait_impl_target(
        self,
        index: usize,
        value: Spanned<TypeIndex>,
    ) -> State<'ast> {
        match state::seq_at(self.trait_impls, index) {
            Some(item) => State {
                trait_impls: self.trait_impls.update(index as int, TraitImpl { target: value, ..item }),
                ..self
            },
            None => self,
        }
    }

    #[verifier::opaque]
    pub open spec fn set_trait_impl_members(
        self,
        index: usize,
        value: List<Member>,
    ) -> State<'ast> {
        match state::seq_at(self.trait_impls, index) {
            Some(item) => State {
                trait_impls: self.trait_impls.update(index as int, TraitImpl { members: value, ..item }),
                ..self
            },
            None => self,
        }
    }

    #[verifier::opaque]
    pub open spec fn set_trait_impl_type_params(
        self,
        index: usize,
        value: List<TypeParamInfo>,
    ) -> State<'ast> {
        match state::seq_at(self.trait_impls, index) {
            Some(item) => State {
                trait_impls: self.trait_impls.update(index as int, TraitImpl { type_params: value, ..item }),
                ..self
            },
            None => self,
        }
    }

    #[verifier::opaque]
    pub open spec fn set_inherent_impl_type_params(
        self,
        index: usize,
        value: List<TypeParamInfo>,
    ) -> State<'ast> {
        match state::seq_at(self.inherent_impls, index) {
            Some(item) => State {
                inherent_impls: self.inherent_impls.update(index as int, InherentImpl { type_params: value, ..item }),
                ..self
            },
            None => self,
        }
    }

    #[verifier::opaque]
    pub open spec fn set_inherent_impl_target(
        self,
        index: usize,
        value: Spanned<TypeIndex>,
    ) -> State<'ast> {
        match state::seq_at(self.inherent_impls, index) {
            Some(item) => State {
                inherent_impls: self.inherent_impls.update(index as int, InherentImpl { target: value, ..item }),
                ..self
            },
            None => self,
        }
    }

    #[verifier::opaque]
    pub open spec fn set_inherent_impl_members(
        self,
        index: usize,
        value: List<Member>,
    ) -> State<'ast> {
        match state::seq_at(self.inherent_impls, index) {
            Some(item) => State {
                inherent_impls: self.inherent_impls.update(index as int, InherentImpl { members: value, ..item }),
                ..self
            },
            None => self,
        }
    }

    #[verifier::opaque]
    pub open spec fn set_typeset_members(
        self,
        index: usize,
        value: List<TypeIndex>,
    ) -> State<'ast> {
        match state::seq_at(self.typesets, index) {
            Some(item) => State {
                typesets: self.typesets.update(index as int, TypeSet { members: value, ..item }),
                ..self
            },
            None => self,
        }
    }

    #[verifier::opaque]
    pub open spec fn set_typeset_intersection_range(
        self,
        index: usize,
        value: IntegerRange,
    ) -> State<'ast> {
        match state::seq_at(self.typesets, index) {
            Some(item) => State {
                typesets: self.typesets.update(index as int, TypeSet { intersection_range: value, ..item }),
                ..self
            },
            None => self,
        }
    }

    #[verifier::opaque]
    pub open spec fn set_namespace_wildcard_imports(
        self,
        index: usize,
        value: List<usize>,
    ) -> State<'ast> {
        match state::seq_at(self.namespaces, index) {
            Some(item) => State {
                namespaces: self.namespaces.update(index as int, ModuleNamespace { wildcard_imports: value, ..item }),
                ..self
            },
            None => self,
        }
    }

    #[verifier::opaque]
    pub open spec fn set_import_decl_lookup(
        self,
        index: usize,
        value: List<ImportEntry>,
    ) -> State<'ast> {
        match state::seq_at(self.import_decls, index) {
            Some(item) => State {
                import_decls: self.import_decls.update(index as int, ImportDecl { lookup: value, ..item }),
                ..self
            },
            None => self,
        }
    }

    /// Notes how far the signature of a node has come.
    #[verifier::opaque]
    pub open spec fn set_sig_state(self, index: usize, value: ComputeState) -> State<'ast> {
        if index < self.sig_states.len() {
            State { sig_states: self.sig_states.update(index as int, value), ..self }
        } else {
            self
        }
    }

    /// A definition id that no syntax has.
    #[verifier::opaque]
    pub open spec fn fresh_id(self) -> (State<'ast>, DefId) {
        (
            State {
                next_id: if self.next_id < u32::MAX {
                    (self.next_id + 1) as u32
                } else {
                    self.next_id
                },
                ..self
            },
            self.next_id,
        )
    }
}

impl<'ast> Builder<'ast> {
    /// Adds a function at the end of its table; the result is its index there.
    pub fn add_function(&mut self, item: Function) -> (result: usize)
        ensures
            (final(self)@, result) == old(self)@.add_function(item),
    {
        proof {
            reveal(State::add_function);
        }
        let index: usize = self.functions.len();
        self.functions.push(item);
        index
    }

    /// Adds a global at the end of its table; the result is its index there.
    pub fn add_global(&mut self, item: Global) -> (result: usize)
        ensures
            (final(self)@, result) == old(self)@.add_global(item),
    {
        proof {
            reveal(State::add_global);
        }
        let index: usize = self.globals.len();
        self.globals.push(item);
        index
    }

    /// Adds a constant at the end of its table; the result is its index there.
    pub fn add_constant(&mut self, item: Constant) -> (result: usize)
        ensures
            (final(self)@, result) == old(self)@.add_constant(item),
    {
        proof {
            reveal(State::add_constant);
        }
        let index: usize = self.constants.len();
        self.constants.push(item);
        index
    }

    /// Adds a struct at the end of its table; the result is its index there.
    pub fn add_struct_item(&mut self, item: Struct) -> (result: usize)
        ensures
            (final(self)@, result) == old(self)@.add_struct_item(item),
    {
        proof {
            reveal(State::add_struct_item);
        }
        let index: usize = self.structs.len();
        self.structs.push(item);
        index
    }

    /// Adds an enum at the end of its table; the result is its index there.
    pub fn add_enum_item(&mut self, item: Enum) -> (result: usize)
        ensures
            (final(self)@, result) == old(self)@.add_enum_item(item),
    {
        proof {
            reveal(State::add_enum_item);
        }
        let index: usize = self.enums.len();
        self.enums.push(item);
        index
    }

    /// Adds a type alias at the end of its table; the result is its index there.
    pub fn add_type_alias(&mut self, item: TypeAlias) -> (result: usize)
        ensures
            (final(self)@, result) == old(self)@.add_type_alias(item),
    {
        proof {
            reveal(State::add_type_alias);
        }
        let index: usize = self.type_aliases.len();
        self.type_aliases.push(item);
        index
    }

    /// Adds a memory at the end of its table; the result is its index there.
    pub fn add_memory(&mut self, item: Memory) -> (result: usize)
        ensures
            (final(self)@, result) == old(self)@.add_memory(item),
    {
        proof {
            reveal(State::add_memory);
        }
        let index: usize = self.memories.len();
        self.memories.push(item);
        index
    }

    /// Adds a trait at the end of its table; the result is its index there.
    pub fn add_trait_item(&mut self, item: Trait) -> (result: usize)
        ensures
            (final(self)@, result) == old(self)@.add_trait_item(item),
    {
        proof {
            reveal(State::add_trait_item);
        }
        let index: usize = self.traits.len();
        self.traits.push(item);
        index
    }

    /// Adds a trait impl at the end of its table; the result is its index there.
    pub fn add_trait_impl(&mut self, item: TraitImpl) -> (result: usize)
        ensures
            (final(self)@, result) == old(self)@.add_trait_impl(item),
    {
        proof {
            reveal(State::add_trait_impl);
        }
        let index: usize = self.trait_impls.len();
        self.trait_impls.push(item);
        index
    }

    /// Adds an inherent impl block at the end of its table; the result is its index there.
    pub fn add_inherent_impl(&mut self, item: InherentImpl) -> (result: usize)
        ensures
            (final(self)@, result) == old(self)@.add_inherent_impl(item),
    {
        proof {
            reveal(State::add_inherent_impl);
        }
        let index: usize = self.inherent_impls.len();
        self.inherent_impls.push(item);
        index
    }

    /// Adds a typeset at the end of its table; the result is its index there.
    pub fn add_typeset(&mut self, item: TypeSet) -> (result: usize)
        ensures
            (final(self)@, result) == old(self)@.add_typeset(item),
    {
        proof {
            reveal(State::add_typeset);
        }
        let index: usize = self.typesets.len();
        self.typesets.push(item);
        index
    }

    /// Adds a namespace at the end of its table; the result is its index there.
    pub fn add_namespace(&mut self, item: ModuleNamespace) -> (result: usize)
        ensures
            (final(self)@, result) == old(self)@.add_namespace(item),
    {
        proof {
            reveal(State::add_namespace);
        }
        let index: usize = self.namespaces.len();
        self.namespaces.push(item);
        index
    }

    /// Adds an import declaration at the end of its table; the result is its index there.
    pub fn add_import_decl(&mut self, item: ImportDecl) -> (result: usize)
        ensures
            (final(self)@, result) == old(self)@.add_import_decl(item),
    {
        proof {
            reveal(State::add_import_decl);
        }
        let index: usize = self.import_decls.len();
        self.import_decls.push(item);
        index
    }

    /// Adds a member that an inherent impl offers.
    pub fn add_inherent_dispatch(&mut self, item: InherentDispatch)
        ensures
            final(self)@ == old(self)@.add_inherent_dispatch(item),
    {
        proof {
            reveal(State::add_inherent_dispatch);
        }
        self.inherent_dispatch.push(item);
    }

    /// Adds the impl of a trait.
    pub fn add_trait_dispatch(&mut self, item: TraitDispatch)
        ensures
            final(self)@ == old(self)@.add_trait_dispatch(item),
    {
        proof {
            reveal(State::add_trait_dispatch);
        }
        self.trait_dispatch.push(item);
    }

    /// Adds an item with a tag.
    pub fn add_tagged_item(&mut self, item: TaggedItem)
        ensures
            final(self)@ == old(self)@.add_tagged_item(item),
    {
        proof {
            reveal(State::add_tagged_item);
        }
        self.tagged_items.push(item);
    }

    /// Adds a definition.
    pub fn add_node(&mut self, item: AstEntry<'ast>)
        ensures
            final(self)@ == old(self)@.add_node(item),
    {
        proof {
            reveal(State::add_node);
        }
        self.nodes.push(item);
    }

    /// Adds a wildcard import of the root.
    pub fn add_root_wildcard_import(&mut self, item: usize)
        ensures
            final(self)@ == old(self)@.add_root_wildcard_import(item),
    {
        proof {
            reveal(State::add_root_wildcard_import);
        }
        self.root_wildcard_imports.push(item);
    }

    /// Adds an export.
    pub fn add_export(&mut self, item: ExportItem)
        ensures
            final(self)@ == old(self)@.add_export(item),
    {
        proof {
            reveal(State::add_export);
        }
        self.exports.push(item);
    }

    pub fn set_function_params(&mut self, index: usize, value: List<FunctionParam>)
        ensures
            final(self)@ == old(self)@.set_function_params(index, value),
    {
        proof {
            reveal(State::set_function_params);
        }
        if index < self.functions.len() {
            self.functions[index].params = value;
        }
    }

    pub fn set_function_result(&mut self, index: usize, value: Option<Spanned<TypeIndex>>)
        ensures
            final(self)@ == old(self)@.set_function_result(index, value),
    {
        proof {
            reveal(State::set_function_result);
        }
        if index < self.functions.len() {
            self.functions[index].result = value;
        }
    }

    pub fn set_function_signature_index(&mut self, index: usize, value: TypeIndex)
        ensures
            final(self)@ == old(self)@.set_function_signature_index(index, value),
    {
        proof {
            reveal(State::set_function_signature_index);
        }
        if index < self.functions.len() {
            self.functions[index].signature_index = value;
        }
    }

    pub fn set_function_body(&mut self, index: usize, value: Option<FunctionBody>)
        ensures
            final(self)@ == old(self)@.set_function_body(index, value),
    {
        proof {
            reveal(State::set_function_body);
        }
        if index < self.functions.len() {
            self.functions[index].body = value;
        }
    }

    pub fn set_global_ty(&mut self, index: usize, value: Spanned<TypeIndex>)
        ensures
            final(self)@ == old(self)@.set_global_ty(index, value),
    {
        proof {
            reveal(State::set_global_ty);
        }
        if index < self.globals.len() {
            self.globals[index].ty = value;
        }
    }

    pub fn set_global_value(&mut self, index: usize, value: Option<FunctionBody>)
        ensures
            final(self)@ == old(self)@.set_global_value(index, value),
    {
        proof {
            reveal(State::set_global_value);
        }
        if index < self.globals.len() {
            self.globals[index].value = value;
        }
    }

    pub fn set_constant_ty(&mut self, index: usize, value: Spanned<TypeIndex>)
        ensures
            final(self)@ == old(self)@.set_constant_ty(index, value),
    {
        proof {
            reveal(State::set_constant_ty);
        }
        if index < self.constants.len() {
            self.constants[index].ty = value;
        }
    }

    pub fn set_constant_value(&mut self, index: usize, value: Option<Expression>)
        ensures
            final(self)@ == old(self)@.set_constant_value(index, value),
    {
        proof {
            reveal(State::set_constant_value);
        }
        if index < self.constants.len() {
            self.constants[index].value = value;
        }
    }

    pub fn set_constant_const_value(&mut self, index: usize, value: Option<ConstValue>)
        ensures
            final(self)@ == old(self)@.set_constant_const_value(index, value),
    {
        proof {
            reveal(State::set_constant_const_value);
        }
        if index < self.constants.len() {
            self.constants[index].const_value = value;
        }
    }

    pub fn set_struct_fields(&mut self, index: usize, value: List<StructField>)
        ensures
            final(self)@ == old(self)@.set_struct_fields(index, value),
    {
        proof {
            reveal(State::set_struct_fields);
        }
        if index < self.structs.len() {
            self.structs[index].fields = value;
        }
    }

    pub fn set_enum_repr_type(&mut self, index: usize, value: TypeIndex)
        ensures
            final(self)@ == old(self)@.set_enum_repr_type(index, value),
    {
        proof {
            reveal(State::set_enum_repr_type);
        }
        if index < self.enums.len() {
            self.enums[index].repr_type = value;
        }
    }

    pub fn set_enum_variants(&mut self, index: usize, value: List<EnumVariant>)
        ensures
            final(self)@ == old(self)@.set_enum_variants(index, value),
    {
        proof {
            reveal(State::set_enum_variants);
        }
        if index < self.enums.len() {
            self.enums[index].variants = value;
        }
    }

    pub fn set_type_alias_template(&mut self, index: usize, value: TypeIndex)
        ensures
            final(self)@ == old(self)@.set_type_alias_template(index, value),
    {
        proof {
            reveal(State::set_type_alias_template);
        }
        if index < self.type_aliases.len() {
            self.type_aliases[index].template = value;
        }
    }

    pub fn set_memory_kind(&mut self, index: usize, value: TypeIndex)
        ensures
            final(self)@ == old(self)@.set_memory_kind(index, value),
    {
        proof {
            reveal(State::set_memory_kind);
        }
        if index < self.memories.len() {
            self.memories[index].kind = value;
        }
    }

    pub fn set_memory_min_pages(&mut self, index: usize, value: Option<u32>)
        ensures
            final(self)@ == old(self)@.set_memory_min_pages(index, value),
    {
        proof {
            reveal(State::set_memory_min_pages);
        }
        if index < self.memories.len() {
            self.memories[index].min_pages = value;
        }
    }

    pub fn set_memory_max_pages(&mut self, index: usize, value: Option<u32>)
        ensures
            final(self)@ == old(self)@.set_memory_max_pages(index, value),
    {
        proof {
            reveal(State::set_memory_max_pages);
        }
        if index < self.memories.len() {
            self.memories[index].max_pages = value;
        }
    }

    pub fn set_trait_supertraits(&mut self, index: usize, value: List<usize>)
        ensures
            final(self)@ == old(self)@.set_trait_supertraits(index, value),
    {
        proof {
            reveal(State::set_trait_supertraits);
        }
        if index < self.traits.len() {
            self.traits[index].supertraits = value;
        }
    }

    pub fn set_trait_supertrait_bindings(&mut self, index: usize, value: List<SupertraitBinding>)
        ensures
            final(self)@ == old(self)@.set_trait_supertrait_bindings(index, value),
    {
        proof {
            reveal(State::set_trait_supertrait_bindings);
        }
        if index < self.traits.len() {
            self.traits[index].supertrait_bindings = value;
        }
    }

    pub fn set_trait_members(&mut self, index: usize, value: List<Member>)
        ensures
            final(self)@ == old(self)@.set_trait_members(index, value),
    {
        proof {
            reveal(State::set_trait_members);
        }
        if index < self.traits.len() {
            self.traits[index].members = value;
        }
    }

    pub fn set_trait_assoc_types(&mut self, index: usize, value: List<TraitAssocType>)
        ensures
            final(self)@ == old(self)@.set_trait_assoc_types(index, value),
    {
        proof {
            reveal(State::set_trait_assoc_types);
        }
        if index < self.traits.len() {
            self.traits[index].assoc_types = value;
        }
    }

    pub fn set_trait_impl_target(&mut self, index: usize, value: Spanned<TypeIndex>)
        ensures
            final(self)@ == old(self)@.set_trait_impl_target(index, value),
    {
        proof {
            reveal(State::set_trait_impl_target);
        }
        if index < self.trait_impls.len() {
            self.trait_impls[index].target = value;
        }
    }

    pub fn set_trait_impl_members(&mut self, index: usize, value: List<Member>)
        ensures
            final(self)@ == old(self)@.set_trait_impl_members(index, value),
    {
        proof {
            reveal(State::set_trait_impl_members);
        }
        if index < self.trait_impls.len() {
            self.trait_impls[index].members = value;
        }
    }

    pub fn set_inherent_impl_target(&mut self, index: usize, value: Spanned<TypeIndex>)
        ensures
            final(self)@ == old(self)@.set_inherent_impl_target(index, value),
    {
        proof {
            reveal(State::set_inherent_impl_target);
        }
        if index < self.inherent_impls.len() {
            self.inherent_impls[index].target = value;
        }
    }

    pub fn set_inherent_impl_members(&mut self, index: usize, value: List<Member>)
        ensures
            final(self)@ == old(self)@.set_inherent_impl_members(index, value),
    {
        proof {
            reveal(State::set_inherent_impl_members);
        }
        if index < self.inherent_impls.len() {
            self.inherent_impls[index].members = value;
        }
    }

    pub fn set_typeset_members(&mut self, index: usize, value: List<TypeIndex>)
        ensures
            final(self)@ == old(self)@.set_typeset_members(index, value),
    {
        proof {
            reveal(State::set_typeset_members);
        }
        if index < self.typesets.len() {
            self.typesets[index].members = value;
        }
    }

    pub fn set_typeset_intersection_range(&mut self, index: usize, value: IntegerRange)
        ensures
            final(self)@ == old(self)@.set_typeset_intersection_range(index, value),
    {
        proof {
            reveal(State::set_typeset_intersection_range);
        }
        if index < self.typesets.len() {
            self.typesets[index].intersection_range = value;
        }
    }

    pub fn set_namespace_wildcard_imports(&mut self, index: usize, value: List<usize>)
        ensures
            final(self)@ == old(self)@.set_namespace_wildcard_imports(index, value),
    {
        proof {
            reveal(State::set_namespace_wildcard_imports);
        }
        if index < self.namespaces.len() {
            self.namespaces[index].wildcard_imports = value;
        }
    }

    pub fn set_import_decl_lookup(&mut self, index: usize, value: List<ImportEntry>)
        ensures
            final(self)@ == old(self)@.set_import_decl_lookup(index, value),
    {
        proof {
            reveal(State::set_import_decl_lookup);
        }
        if index < self.import_decls.len() {
            self.import_decls[index].lookup = value;
        }
    }

    /// Notes how far the signature of a node has come.
    pub fn set_sig_state(&mut self, index: usize, value: ComputeState)
        ensures
            final(self)@ == old(self)@.set_sig_state(index, value),
    {
        proof {
            reveal(State::set_sig_state);
        }
        if index < self.sig_states.len() {
            self.sig_states[index] = value;
        }
    }

    /// A definition id that no syntax has.
    pub fn fresh_id(&mut self) -> (result: DefId)
        ensures
            (final(self)@, result) == old(self)@.fresh_id(),
    {
        proof {
            reveal(State::fresh_id);
        }
        let id: DefId = self.next_id;
        if id < u32::MAX {
            self.next_id = id + 1;
        }
        id
    }
}

} // verus!
