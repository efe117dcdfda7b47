//! What `tables` does to the state only adds to it.

use vstd::prelude::*;

use crate::list::List;
use crate::span::Spanned;
use crate::state::{AstEntry, InherentDispatch, State, TaggedItem};
use crate::tir::{
    ComputeState, ConstValue, Constant, Enum, EnumVariant, Expression, Function, FunctionBody,
    FunctionParam, Global, ImportDecl, ImportEntry, InherentImpl, IntegerRange, Member, Memory,
    ModuleNamespace, Struct, StructField, SupertraitBinding, Trait, TraitAssocType, TraitImpl,
    TypeAlias, TypeParamInfo, TypeSet,
};
use crate::types::TypeIndex;

verus! {

impl<'ast> State<'ast> {
    pub broadcast proof fn adds_add_function(self, item: Function)
        ensures
            self.only_adds((#[trigger] self.add_function(item)).0),
    {
        reveal(State::only_adds);
        reveal(State::grows_to);
        reveal(State::add_function);
    }

    pub broadcast proof fn adds_add_global(self, item: Global)
        ensures
            self.only_adds((#[trigger] self.add_global(item)).0),
    {
        reveal(State::only_adds);
        reveal(State::grows_to);
        reveal(State::add_global);
    }

    pub broadcast proof fn adds_add_constant(self, item: Constant)
        ensures
            self.only_adds((#[trigger] self.add_constant(item)).0),
    {
        reveal(State::only_adds);
        reveal(State::grows_to);
        reveal(State::add_constant);
    }

    pub broadcast proof fn adds_add_struct_item(self, item: Struct)
        ensures
            self.only_adds((#[trigger] self.add_struct_item(item)).0),
    {
        reveal(State::only_adds);
        reveal(State::grows_to);
        reveal(State::add_struct_item);
    }

    pub broadcast proof fn adds_add_enum_item(self, item: Enum)
        ensures
            self.only_adds((#[trigger] self.add_enum_item(item)).0),
    {
        reveal(State::only_adds);
        reveal(State::grows_to);
        reveal(State::add_enum_item);
    }

    pub broadcast proof fn adds_add_type_alias(self, item: TypeAlias)
        ensures
            self.only_adds((#[trigger] self.add_type_alias(item)).0),
    {
        reveal(State::only_adds);
        reveal(State::grows_to);
        reveal(State::add_type_alias);
    }

    pub broadcast proof fn adds_add_memory(self, item: Memory)
        ensures
            self.only_adds((#[trigger] self.add_memory(item)).0),
    {
        reveal(State::only_adds);
        reveal(State::grows_to);
        reveal(State::add_memory);
    }

    pub broadcast proof fn adds_add_trait_item(self, item: Trait)
        ensures
            self.only_adds((#[trigger] self.add_trait_item(item)).0),
    {
        reveal(State::only_adds);
        reveal(State::grows_to);
        reveal(State::add_trait_item);
    }

    pub broadcast proof fn adds_add_trait_impl(self, item: TraitImpl)
        ensures
            self.only_adds((#[trigger] self.add_trait_impl(item)).0),
    {
        reveal(State::only_adds);
        reveal(State::grows_to);
        reveal(State::add_trait_impl);
    }

    pub broadcast proof fn adds_add_inherent_impl(self, item: InherentImpl)
        ensures
            self.only_adds((#[trigger] self.add_inherent_impl(item)).0),
    {
        reveal(State::only_adds);
        reveal(State::grows_to);
        reveal(State::add_inherent_impl);
    }

    pub broadcast proof fn adds_add_typeset(self, item: TypeSet)
        ensures
            self.only_adds((#[trigger] self.add_typeset(item)).0),
    {
        reveal(State::only_adds);
        reveal(State::grows_to);
        reveal(State::add_typeset);
    }

    pub broadcast proof fn adds_add_namespace(self, item: ModuleNamespace)
        ensures
            ({
                let (later, index) = #[trigger] self.add_namespace(item);
                &&& self.grows_to(later)
                &&& later.namespaces.len() == self.namespaces.len() + 1
                &&& index == self.namespaces.len() as usize
                &&& self.in_order() && self.has_namespace(item.parent) ==> later.in_order()
            }),
    {
        reveal(State::grows_to);
        reveal(State::add_namespace);
        let (later, _) = self.add_namespace(item);
        assert forall|i: int| 0 <= i < later.symbols.len() && self.in_order() implies later.module_exists(
            (#[trigger] later.symbols[i]).kind,
        ) by {
            assert(self.module_exists(self.symbols[i].kind));
        }
    }

    pub broadcast proof fn adds_add_import_decl(self, item: ImportDecl)
        ensures
            self.only_adds((#[trigger] self.add_import_decl(item)).0),
    {
        reveal(State::only_adds);
        reveal(State::grows_to);
        reveal(State::add_import_decl);
    }

    pub broadcast proof fn adds_add_inherent_dispatch(self, item: InherentDispatch)
        ensures
            self.only_adds(#[trigger] self.add_inherent_dispatch(item)),
    {
        reveal(State::only_adds);
        reveal(State::grows_to);
        reveal(State::add_inherent_dispatch);
    }

    pub broadcast proof fn adds_add_tagged_item(self, item: TaggedItem)
        ensures
            self.only_adds(#[trigger] self.add_tagged_item(item)),
    {
        reveal(State::only_adds);
        reveal(State::grows_to);
        reveal(State::add_tagged_item);
    }

    pub broadcast proof fn adds_add_node(self, item: AstEntry<'ast>)
        ensures
            self.only_adds(#[trigger] self.add_node(item)),
    {
        reveal(State::only_adds);
        reveal(State::grows_to);
        reveal(State::add_node);
    }

    pub broadcast proof fn adds_add_root_wildcard_import(self, item: usize)
        ensures
            self.only_adds(#[trigger] self.add_root_wildcard_import(item)),
    {
        reveal(State::only_adds);
        reveal(State::grows_to);
        reveal(State::add_root_wildcard_import);
    }

    pub broadcast proof fn adds_set_function_params(self, index: usize, value: List<FunctionParam>)
        ensures
            self.only_adds(#[trigger] self.set_function_params(index, value)),
    {
        reveal(State::only_adds);
        reveal(State::grows_to);
        reveal(State::set_function_params);
    }

    pub broadcast proof fn adds_set_function_result(self, index: usize, value: Option<Spanned<TypeIndex>>)
        ensures
            self.only_adds(#[trigger] self.set_function_result(index, value)),
    {
        reveal(State::only_adds);
        reveal(State::grows_to);
        reveal(State::set_function_result);
    }

    pub broadcast proof fn adds_set_function_signature_index(self, index: usize, value: TypeIndex)
        ensures
            self.only_adds(#[trigger] self.set_function_signature_index(index, value)),
    {
        reveal(State::only_adds);
        reveal(State::grows_to);
        reveal(State::set_function_signature_index);
    }

    pub broadcast proof fn adds_set_function_type_params(self, index: usize, value: List<TypeParamInfo>)
        ensures
            self.only_adds(#[trigger] self.set_function_type_params(index, value)),
    {
        reveal(State::only_adds);
        reveal(State::grows_to);
        reveal(State::set_function_type_params);
    }

    pub broadcast proof fn adds_set_function_body(self, index: usize, value: Option<FunctionBody>)
        ensures
            self.only_adds(#[trigger] self.set_function_body(index, value)),
    {
        reveal(State::only_adds);
        reveal(State::grows_to);
        reveal(State::set_function_body);
    }

    pub broadcast proof fn adds_set_global_ty(self, index: usize, value: Spanned<TypeIndex>)
        ensures
            self.only_adds(#[trigger] self.set_global_ty(index, value)),
    {
        reveal(State::only_adds);
        reveal(State::grows_to);
        reveal(State::set_global_ty);
    }

    pub broadcast proof fn adds_set_global_value(self, index: usize, value: Option<FunctionBody>)
        ensures
            self.only_adds(#[trigger] self.set_global_value(index, value)),
    {
        reveal(State::only_adds);
        reveal(State::grows_to);
        reveal(State::set_global_value);
    }

    pub broadcast proof fn adds_set_constant_ty(self, index: usize, value: Spanned<TypeIndex>)
        ensures
            self.only_adds(#[trigger] self.set_constant_ty(index, value)),
    {
        reveal(State::only_adds);
        reveal(State::grows_to);
        reveal(State::set_constant_ty);
    }

    pub broadcast proof fn adds_set_constant_value(self, index: usize, value: Option<Expression>)
        ensures
            self.only_adds(#[trigger] self.set_constant_value(index, value)),
    {
        reveal(State::only_adds);
        reveal(State::grows_to);
        reveal(State::set_constant_value);
    }

    pub broadcast proof fn adds_set_constant_const_value(self, index: usize, value: Option<ConstValue>)
        ensures
            self.only_adds(#[trigger] self.set_constant_const_value(index, value)),
    {
        reveal(State::only_adds);
        reveal(State::grows_to);
        reveal(State::set_constant_const_value);
    }

    pub broadcast proof fn adds_set_struct_type_params(self, index: usize, value: List<TypeParamInfo>)
        ensures
            self.only_adds(#[trigger] self.set_struct_type_params(index, value)),
    {
        reveal(State::only_adds);
        reveal(State::grows_to);
        reveal(State::set_struct_type_params);
    }

    pub broadcast proof fn adds_set_struct_fields(self, index: usize, value: List<StructField>)
        ensures
            self.only_adds(#[trigger] self.set_struct_fields(index, value)),
    {
        reveal(State::only_adds);
        reveal(State::grows_to);
        reveal(State::set_struct_fields);
    }

    pub broadcast proof fn adds_set_enum_repr_type(self, index: usize, value: TypeIndex)
        ensures
            self.only_adds(#[trigger] self.set_enum_repr_type(index, value)),
    {
        reveal(State::only_adds);
        reveal(State::grows_to);
        reveal(State::set_enum_repr_type);
    }

    pub broadcast proof fn adds_set_enum_variants(self, index: usize, value: List<EnumVariant>)
        ensures
            self.only_adds(#[trigger] self.set_enum_variants(index, value)),
    {
        reveal(State::only_adds);
        reveal(State::grows_to);
        reveal(State::set_enum_variants);
    }

    pub broadcast proof fn adds_set_type_alias_type_params(self, index: usize, value: List<TypeParamInfo>)
        ensures
            self.only_adds(#[trigger] self.set_type_alias_type_params(index, value)),
    {
        reveal(State::only_adds);
        reveal(State::grows_to);
        reveal(State::set_type_alias_type_params);
    }

    pub broadcast proof fn adds_set_type_alias_template(self, index: usize, value: TypeIndex)
        ensures
            self.only_adds(#[trigger] self.set_type_alias_template(index, value)),
    {
        reveal(State::only_adds);
        reveal(State::grows_to);
        reveal(State::set_type_alias_template);
    }

    pub broadcast proof fn adds_set_memory_kind(self, index: usize, value: TypeIndex)
        ensures
            self.only_adds(#[trigger] self.set_memory_kind(index, value)),
    {
        reveal(State::only_adds);
        reveal(State::grows_to);
        reveal(State::set_memory_kind);
    }

    pub broadcast proof fn adds_set_memory_min_pages(self, index: usize, value: Option<u32>)
        ensures
            self.only_adds(#[trigger] self.set_memory_min_pages(index, value)),
    {
        reveal(State::only_adds);
        reveal(State::grows_to);
        reveal(State::set_memory_min_pages);
    }

    pub broadcast proof fn adds_set_memory_max_pages(self, index: usize, value: Option<u32>)
        ensures
            self.only_adds(#[trigger] self.set_memory_max_pages(index, value)),
    {
        reveal(State::only_adds);
        reveal(State::grows_to);
        reveal(State::set_memory_max_pages);
    }

    pub broadcast proof fn adds_set_trait_supertraits(self, index: usize, value: List<usize>)
        ensures
            self.only_adds(#[trigger] self.set_trait_supertraits(index, value)),
    {
        reveal(State::only_adds);
        reveal(State::grows_to);
        reveal(State::set_trait_supertraits);
    }

    pub broadcast proof fn adds_set_trait_supertrait_bindings(self, index: usize, value: List<SupertraitBinding>)
        ensures
            self.only_adds(#[trigger] self.set_trait_supertrait_bindings(index, value)),
    {
        reveal(State::only_adds);
        reveal(State::grows_to);
        reveal(State::set_trait_supertrait_bindings);
    }

    pub broadcast proof fn adds_set_trait_members(self, index: usize, value: List<Member>)
        ensures
            self.only_adds(#[trigger] self.set_trait_members(index, value)),
    {
        reveal(State::only_adds);
        reveal(State::grows_to);
        reveal(State::set_trait_members);
    }

    pub broadcast proof fn adds_set_trait_assoc_types(self, index: usize, value: List<TraitAssocType>)
        ensures
            self.only_adds(#[trigger] self.set_trait_assoc_types(index, value)),
    {
        reveal(State::only_adds);
        reveal(State::grows_to);
        reveal(State::set_trait_assoc_types);
    }

    pub broadcast proof fn adds_set_trait_self_type_param(self, index: usize, value: TypeParamInfo)
        ensures
            self.only_adds(#[trigger] self.set_trait_self_type_param(index, value)),
    {
        reveal(State::only_adds);
        reveal(State::grows_to);
        reveal(State::set_trait_self_type_param);
    }

    pub broadcast proof fn adds_set_trait_impl_target(self, index: usize, value: Spanned<TypeIndex>)
        ensures
            self.only_adds(#[trigger] self.set_trait_impl_target(index, value)),
    {
        reveal(State::only_adds);
        reveal(State::grows_to);
        reveal(State::set_trait_impl_target);
    }

    pub broadcast proof fn adds_set_trait_impl_members(self, index: usize, value: List<Member>)
        ensures
            self.only_adds(#[trigger] self.set_trait_impl_members(index, value)),
    {
        reveal(State::only_adds);
        reveal(State::grows_to);
        reveal(State::set_trait_impl_members);
    }

    pub broadcast proof fn adds_set_trait_impl_type_params(self, index: usize, value: List<TypeParamInfo>)
        ensures
            self.only_adds(#[trigger] self.set_trait_impl_type_params(index, value)),
    {
        reveal(State::only_adds);
        reveal(State::grows_to);
        reveal(State::set_trait_impl_type_params);
    }

    pub broadcast proof fn adds_set_inherent_impl_type_params(self, index: usize, value: List<TypeParamInfo>)
        ensures
            self.only_adds(#[trigger] self.set_inherent_impl_type_params(index, value)),
    {
        reveal(State::only_adds);
        reveal(State::grows_to);
        reveal(State::set_inherent_impl_type_params);
    }

    pub broadcast proof fn adds_set_inherent_impl_target(self, index: usize, value: Spanned<TypeIndex>)
        ensures
            self.only_adds(#[trigger] self.set_inherent_impl_target(index, value)),
    {
        reveal(State::only_adds);
        reveal(State::grows_to);
        reveal(State::set_inherent_impl_target);
    }

    pub broadcast proof fn adds_set_inherent_impl_members(self, index: usize, value: List<Member>)
        ensures
            self.only_adds(#[trigger] self.set_inherent_impl_members(index, value)),
    {
        reveal(State::only_adds);
        reveal(State::grows_to);
        reveal(State::set_inherent_impl_members);
    }

    pub broadcast proof fn adds_set_typeset_members(self, index: usize, value: List<TypeIndex>)
        ensures
            self.only_adds(#[trigger] self.set_typeset_members(index, value)),
    {
        reveal(State::only_adds);
        reveal(State::grows_to);
        reveal(State::set_typeset_members);
    }

    pub broadcast proof fn adds_set_typeset_intersection_range(self, index: usize, value: IntegerRange)
        ensures
            self.only_adds(#[trigger] self.set_typeset_intersection_range(index, value)),
    {
        reveal(State::only_adds);
        reveal(State::grows_to);
        reveal(State::set_typeset_intersection_range);
    }

    pub broadcast proof fn adds_set_namespace_wildcard_imports(self, index: usize, value: List<usize>)
        ensures
            self.only_adds(#[trigger] self.set_namespace_wildcard_imports(index, value)),
    {
        reveal(State::only_adds);
        reveal(State::grows_to);
        reveal(State::set_namespace_wildcard_imports);
    }

    pub broadcast proof fn adds_set_import_decl_lookup(self, index: usize, value: List<ImportEntry>)
        ensures
            self.only_adds(#[trigger] self.set_import_decl_lookup(index, value)),
    {
        reveal(State::only_adds);
        reveal(State::grows_to);
        reveal(State::set_import_decl_lookup);
    }

    pub broadcast proof fn adds_set_sig_state(self, index: usize, value: ComputeState)
        requires
            value != ComputeState::Pending,
        ensures
            self.only_adds(#[trigger] self.set_sig_state(index, value)),
    {
        reveal(State::only_adds);
        reveal(State::grows_to);
        reveal(State::set_sig_state);
    }

    pub broadcast proof fn adds_fresh_id(self)
        ensures
            self.only_adds((#[trigger] self.fresh_id()).0),
    {
        reveal(State::only_adds);
        reveal(State::grows_to);
        reveal(State::fresh_id);
    }
}

} // verus!
