//! The tables of the items of a program: what is entered and set is read back.

use vstd::prelude::*;

use crate::list::List;
use crate::span::Spanned;
use crate::state::{InherentDispatch, State, TraitDispatch};
use crate::tir::{
    ComputeState, ConstValue, Constant, Enum, EnumVariant, Expression, Function, FunctionBody,
    FunctionParam,
    Global, ImportDecl, ImportEntry, InherentImpl, IntegerRange, Member, Memory, ModuleNamespace,
    Struct, StructField, SupertraitBinding, Trait, TraitAssocType, TraitImpl, TypeAlias,
    TypeParamInfo, TypeSet,
};
use crate::types::TypeIndex;

verus! {

/// Whether two states have everything but their functions in common.
pub open spec fn same_but_functions<'ast>(s: State<'ast>, later: State<'ast>) -> bool {
    later == State { functions: later.functions, ..s }
}

/// What is set of an entry of the table of functions is read back, and nothing
/// else changes with it. An entry that is added comes last.
pub proof fn law_table_of_functions<'ast>(
    s: State<'ast>,
    index: usize,
    added: Function,
    params: List<FunctionParam>,
    result: Option<Spanned<TypeIndex>>,
    signature_index: TypeIndex,
    type_params: List<TypeParamInfo>,
    body: Option<FunctionBody>,
)
    requires
        index < s.functions.len(),
    ensures
        ({
            let t = s.set_function_params(index, params);
            &&& same_but_functions(s, t)
            &&& t.functions.len() == s.functions.len()
            &&& t.functions[index as int] == (Function { params, ..s.functions[index as int] })
            &&& forall|i: int|
                0 <= i < s.functions.len() && i != index ==> #[trigger] t.functions[i] == s.functions[i]
        }),
        ({
            let t = s.set_function_result(index, result);
            &&& same_but_functions(s, t)
            &&& t.functions.len() == s.functions.len()
            &&& t.functions[index as int] == (Function { result, ..s.functions[index as int] })
            &&& forall|i: int|
                0 <= i < s.functions.len() && i != index ==> #[trigger] t.functions[i] == s.functions[i]
        }),
        ({
            let t = s.set_function_signature_index(index, signature_index);
            &&& same_but_functions(s, t)
            &&& t.functions.len() == s.functions.len()
            &&& t.functions[index as int] == (Function { signature_index, ..s.functions[index as int] })
            &&& forall|i: int|
                0 <= i < s.functions.len() && i != index ==> #[trigger] t.functions[i] == s.functions[i]
        }),
        ({
            let t = s.set_function_type_params(index, type_params);
            &&& same_but_functions(s, t)
            &&& t.functions.len() == s.functions.len()
            &&& t.functions[index as int] == (Function { type_params, ..s.functions[index as int] })
            &&& forall|i: int|
                0 <= i < s.functions.len() && i != index ==> #[trigger] t.functions[i] == s.functions[i]
        }),
        ({
            let t = s.set_function_body(index, body);
            &&& same_but_functions(s, t)
            &&& t.functions.len() == s.functions.len()
            &&& t.functions[index as int] == (Function { body, ..s.functions[index as int] })
            &&& forall|i: int|
                0 <= i < s.functions.len() && i != index ==> #[trigger] t.functions[i] == s.functions[i]
        }),
        ({
            let (t, place) = s.add_function(added);
            &&& same_but_functions(s, t)
            &&& s.functions.len() < usize::MAX ==> place == s.functions.len()
            &&& t.functions.len() == s.functions.len() + 1
            &&& t.functions[s.functions.len() as int] == added
            &&& forall|i: int| 0 <= i < s.functions.len() ==> #[trigger] t.functions[i] == s.functions[i]
        }),
{
    reveal(State::set_function_params);
    reveal(State::set_function_result);
    reveal(State::set_function_signature_index);
    reveal(State::set_function_type_params);
    reveal(State::set_function_body);
    reveal(State::add_function);
}

/// Whether two states have everything but their globals in common.
pub open spec fn same_but_globals<'ast>(s: State<'ast>, later: State<'ast>) -> bool {
    later == State { globals: later.globals, ..s }
}

/// What is set of an entry of the table of globals is read back, and nothing
/// else changes with it. An entry that is added comes last.
pub proof fn law_table_of_globals<'ast>(
    s: State<'ast>,
    index: usize,
    added: Global,
    ty: Spanned<TypeIndex>,
    value: Option<FunctionBody>,
)
    requires
        index < s.globals.len(),
    ensures
        ({
            let t = s.set_global_ty(index, ty);
            &&& same_but_globals(s, t)
            &&& t.globals.len() == s.globals.len()
            &&& t.globals[index as int] == (Global { ty, ..s.globals[index as int] })
            &&& forall|i: int|
                0 <= i < s.globals.len() && i != index ==> #[trigger] t.globals[i] == s.globals[i]
        }),
        ({
            let t = s.set_global_value(index, value);
            &&& same_but_globals(s, t)
            &&& t.globals.len() == s.globals.len()
            &&& t.globals[index as int] == (Global { value, ..s.globals[index as int] })
            &&& forall|i: int|
                0 <= i < s.globals.len() && i != index ==> #[trigger] t.globals[i] == s.globals[i]
        }),
        ({
            let (t, place) = s.add_global(added);
            &&& same_but_globals(s, t)
            &&& s.globals.len() < usize::MAX ==> place == s.globals.len()
            &&& t.globals.len() == s.globals.len() + 1
            &&& t.globals[s.globals.len() as int] == added
            &&& forall|i: int| 0 <= i < s.globals.len() ==> #[trigger] t.globals[i] == s.globals[i]
        }),
{
    reveal(State::set_global_ty);
    reveal(State::set_global_value);
    reveal(State::add_global);
}

/// Whether two states have everything but their constants in common.
pub open spec fn same_but_constants<'ast>(s: State<'ast>, later: State<'ast>) -> bool {
    later == State { constants: later.constants, ..s }
}

/// What is set of an entry of the table of constants is read back, and nothing
/// else changes with it. An entry that is added comes last.
pub proof fn law_table_of_constants<'ast>(
    s: State<'ast>,
    index: usize,
    added: Constant,
    ty: Spanned<TypeIndex>,
    value: Option<Expression>,
    const_value: Option<ConstValue>,
)
    requires
        index < s.constants.len(),
    ensures
        ({
            let t = s.set_constant_ty(index, ty);
            &&& same_but_constants(s, t)
            &&& t.constants.len() == s.constants.len()
            &&& t.constants[index as int] == (Constant { ty, ..s.constants[index as int] })
            &&& forall|i: int|
                0 <= i < s.constants.len() && i != index ==> #[trigger] t.constants[i] == s.constants[i]
        }),
        ({
            let t = s.set_constant_value(index, value);
            &&& same_but_constants(s, t)
            &&& t.constants.len() == s.constants.len()
            &&& t.constants[index as int] == (Constant { value, ..s.constants[index as int] })
            &&& forall|i: int|
                0 <= i < s.constants.len() && i != index ==> #[trigger] t.constants[i] == s.constants[i]
        }),
        ({
            let t = s.set_constant_const_value(index, const_value);
            &&& same_but_constants(s, t)
            &&& t.constants.len() == s.constants.len()
            &&& t.constants[index as int] == (Constant { const_value, ..s.constants[index as int] })
            &&& forall|i: int|
                0 <= i < s.constants.len() && i != index ==> #[trigger] t.constants[i] == s.constants[i]
        }),
        ({
            let (t, place) = s.add_constant(added);
            &&& same_but_constants(s, t)
            &&& s.constants.len() < usize::MAX ==> place == s.constants.len()
            &&& t.constants.len() == s.constants.len() + 1
            &&& t.constants[s.constants.len() as int] == added
            &&& forall|i: int| 0 <= i < s.constants.len() ==> #[trigger] t.constants[i] == s.constants[i]
        }),
{
    reveal(State::set_constant_ty);
    reveal(State::set_constant_value);
    reveal(State::set_constant_const_value);
    reveal(State::add_constant);
}

/// Whether two states have everything but their structs in common.
pub open spec fn same_but_structs<'ast>(s: State<'ast>, later: State<'ast>) -> bool {
    later == State { structs: later.structs, ..s }
}

/// What is set of an entry of the table of structs is read back, and nothing
/// else changes with it. An entry that is added comes last.
pub proof fn law_table_of_structs<'ast>(
    s: State<'ast>,
    index: usize,
    added: Struct,
    type_params: List<TypeParamInfo>,
    fields: List<StructField>,
)
    requires
        index < s.structs.len(),
    ensures
        ({
            let t = s.set_struct_type_params(index, type_params);
            &&& same_but_structs(s, t)
            &&& t.structs.len() == s.structs.len()
            &&& t.structs[index as int] == (Struct { type_params, ..s.structs[index as int] })
            &&& forall|i: int|
                0 <= i < s.structs.len() && i != index ==> #[trigger] t.structs[i] == s.structs[i]
        }),
        ({
            let t = s.set_struct_fields(index, fields);
            &&& same_but_structs(s, t)
            &&& t.structs.len() == s.structs.len()
            &&& t.structs[index as int] == (Struct { fields, ..s.structs[index as int] })
            &&& forall|i: int|
                0 <= i < s.structs.len() && i != index ==> #[trigger] t.structs[i] == s.structs[i]
        }),
        ({
            let (t, place) = s.add_struct_item(added);
            &&& same_but_structs(s, t)
            &&& s.structs.len() < usize::MAX ==> place == s.structs.len()
            &&& t.structs.len() == s.structs.len() + 1
            &&& t.structs[s.structs.len() as int] == added
            &&& forall|i: int| 0 <= i < s.structs.len() ==> #[trigger] t.structs[i] == s.structs[i]
        }),
{
    reveal(State::set_struct_type_params);
    reveal(State::set_struct_fields);
    reveal(State::add_struct_item);
}

/// Whether two states have everything but their enums in common.
pub open spec fn same_but_enums<'ast>(s: State<'ast>, later: State<'ast>) -> bool {
    later == State { enums: later.enums, ..s }
}

/// What is set of an entry of the table of enums is read back, and nothing
/// else changes with it. An entry that is added comes last.
pub proof fn law_table_of_enums<'ast>(
    s: State<'ast>,
    index: usize,
    added: Enum,
    repr_type: TypeIndex,
    variants: List<EnumVariant>,
)
    requires
        index < s.enums.len(),
    ensures
        ({
            let t = s.set_enum_repr_type(index, repr_type);
            &&& same_but_enums(s, t)
            &&& t.enums.len() == s.enums.len()
            &&& t.enums[index as int] == (Enum { repr_type, ..s.enums[index as int] })
            &&& forall|i: int|
                0 <= i < s.enums.len() && i != index ==> #[trigger] t.enums[i] == s.enums[i]
        }),
        ({
            let t = s.set_enum_variants(index, variants);
            &&& same_but_enums(s, t)
            &&& t.enums.len() == s.enums.len()
            &&& t.enums[index as int] == (Enum { variants, ..s.enums[index as int] })
            &&& forall|i: int|
                0 <= i < s.enums.len() && i != index ==> #[trigger] t.enums[i] == s.enums[i]
        }),
        ({
            let (t, place) = s.add_enum_item(added);
            &&& same_but_enums(s, t)
            &&& s.enums.len() < usize::MAX ==> place == s.enums.len()
            &&& t.enums.len() == s.enums.len() + 1
            &&& t.enums[s.enums.len() as int] == added
            &&& forall|i: int| 0 <= i < s.enums.len() ==> #[trigger] t.enums[i] == s.enums[i]
        }),
{
    reveal(State::set_enum_repr_type);
    reveal(State::set_enum_variants);
    reveal(State::add_enum_item);
}

/// Whether two states have everything but their type aliases in common.
pub open spec fn same_but_type_aliases<'ast>(s: State<'ast>, later: State<'ast>) -> bool {
    later == State { type_aliases: later.type_aliases, ..s }
}

/// What is set of an entry of the table of type aliases is read back, and nothing
/// else changes with it. An entry that is added comes last.
pub proof fn law_table_of_type_aliases<'ast>(
    s: State<'ast>,
    index: usize,
    added: TypeAlias,
    type_params: List<TypeParamInfo>,
    template: TypeIndex,
)
    requires
        index < s.type_aliases.len(),
    ensures
        ({
            let t = s.set_type_alias_type_params(index, type_params);
            &&& same_but_type_aliases(s, t)
            &&& t.type_aliases.len() == s.type_aliases.len()
            &&& t.type_aliases[index as int] == (TypeAlias { type_params, ..s.type_aliases[index as int] })
            &&& forall|i: int|
                0 <= i < s.type_aliases.len() && i != index ==> #[trigger] t.type_aliases[i] == s.type_aliases[i]
        }),
        ({
            let t = s.set_type_alias_template(index, template);
            &&& same_but_type_aliases(s, t)
            &&& t.type_aliases.len() == s.type_aliases.len()
            &&& t.type_aliases[index as int] == (TypeAlias { template, ..s.type_aliases[index as int] })
            &&& forall|i: int|
                0 <= i < s.type_aliases.len() && i != index ==> #[trigger] t.type_aliases[i] == s.type_aliases[i]
        }),
        ({
            let (t, place) = s.add_type_alias(added);
            &&& same_but_type_aliases(s, t)
            &&& s.type_aliases.len() < usize::MAX ==> place == s.type_aliases.len()
            &&& t.type_aliases.len() == s.type_aliases.len() + 1
            &&& t.type_aliases[s.type_aliases.len() as int] == added
            &&& forall|i: int| 0 <= i < s.type_aliases.len() ==> #[trigger] t.type_aliases[i] == s.type_aliases[i]
        }),
{
    reveal(State::set_type_alias_type_params);
    reveal(State::set_type_alias_template);
    reveal(State::add_type_alias);
}

/// Whether two states have everything but their memories in common.
pub open spec fn same_but_memories<'ast>(s: State<'ast>, later: State<'ast>) -> bool {
    later == State { memories: later.memories, ..s }
}

/// What is set of an entry of the table of memories is read back, and nothing
/// else changes with it. An entry that is added comes last.
pub proof fn law_table_of_memories<'ast>(
    s: State<'ast>,
    index: usize,
    added: Memory,
    kind: TypeIndex,
    min_pages: Option<u32>,
    max_pages: Option<u32>,
)
    requires
        index < s.memories.len(),
    ensures
        ({
            let t = s.set_memory_kind(index, kind);
            &&& same_but_memories(s, t)
            &&& t.memories.len() == s.memories.len()
            &&& t.memories[index as int] == (Memory { kind, ..s.memories[index as int] })
            &&& forall|i: int|
                0 <= i < s.memories.len() && i != index ==> #[trigger] t.memories[i] == s.memories[i]
        }),
        ({
            let t = s.set_memory_min_pages(index, min_pages);
            &&& same_but_memories(s, t)
            &&& t.memories.len() == s.memories.len()
            &&& t.memories[index as int] == (Memory { min_pages, ..s.memories[index as int] })
            &&& forall|i: int|
                0 <= i < s.memories.len() && i != index ==> #[trigger] t.memories[i] == s.memories[i]
        }),
        ({
            let t = s.set_memory_max_pages(index, max_pages);
            &&& same_but_memories(s, t)
            &&& t.memories.len() == s.memories.len()
            &&& t.memories[index as int] == (Memory { max_pages, ..s.memories[index as int] })
            &&& forall|i: int|
                0 <= i < s.memories.len() && i != index ==> #[trigger] t.memories[i] == s.memories[i]
        }),
        ({
            let (t, place) = s.add_memory(added);
            &&& same_but_memories(s, t)
            &&& s.memories.len() < usize::MAX ==> place == s.memories.len()
            &&& t.memories.len() == s.memories.len() + 1
            &&& t.memories[s.memories.len() as int] == added
            &&& forall|i: int| 0 <= i < s.memories.len() ==> #[trigger] t.memories[i] == s.memories[i]
        }),
{
    reveal(State::set_memory_kind);
    reveal(State::set_memory_min_pages);
    reveal(State::set_memory_max_pages);
    reveal(State::add_memory);
}

/// Whether two states have everything but their traits in common.
pub open spec fn same_but_traits<'ast>(s: State<'ast>, later: State<'ast>) -> bool {
    later == State { traits: later.traits, ..s }
}

/// What is set of an entry of the table of traits is read back, and nothing
/// else changes with it. An entry that is added comes last.
pub proof fn law_table_of_traits<'ast>(
    s: State<'ast>,
    index: usize,
    added: Trait,
    supertraits: List<usize>,
    supertrait_bindings: List<SupertraitBinding>,
    members: List<Member>,
    assoc_types: List<TraitAssocType>,
    self_type_param: TypeParamInfo,
)
    requires
        index < s.traits.len(),
    ensures
        ({
            let t = s.set_trait_supertraits(index, supertraits);
            &&& same_but_traits(s, t)
            &&& t.traits.len() == s.traits.len()
            &&& t.traits[index as int] == (Trait { supertraits, ..s.traits[index as int] })
            &&& forall|i: int|
                0 <= i < s.traits.len() && i != index ==> #[trigger] t.traits[i] == s.traits[i]
        }),
        ({
            let t = s.set_trait_supertrait_bindings(index, supertrait_bindings);
            &&& same_but_traits(s, t)
            &&& t.traits.len() == s.traits.len()
            &&& t.traits[index as int] == (Trait { supertrait_bindings, ..s.traits[index as int] })
            &&& forall|i: int|
                0 <= i < s.traits.len() && i != index ==> #[trigger] t.traits[i] == s.traits[i]
        }),
        ({
            let t = s.set_trait_members(index, members);
            &&& same_but_traits(s, t)
            &&& t.traits.len() == s.traits.len()
            &&& t.traits[index as int] == (Trait { members, ..s.traits[index as int] })
            &&& forall|i: int|
                0 <= i < s.traits.len() && i != index ==> #[trigger] t.traits[i] == s.traits[i]
        }),
        ({
            let t = s.set_trait_assoc_types(index, assoc_types);
            &&& same_but_traits(s, t)
            &&& t.traits.len() == s.traits.len()
            &&& t.traits[index as int] == (Trait { assoc_types, ..s.traits[index as int] })
            &&& forall|i: int|
                0 <= i < s.traits.len() && i != index ==> #[trigger] t.traits[i] == s.traits[i]
        }),
        ({
            let t = s.set_trait_self_type_param(index, self_type_param);
            &&& same_but_traits(s, t)
            &&& t.traits.len() == s.traits.len()
            &&& t.traits[index as int] == (Trait { self_type_param, ..s.traits[index as int] })
            &&& forall|i: int|
                0 <= i < s.traits.len() && i != index ==> #[trigger] t.traits[i] == s.traits[i]
        }),
        ({
            let (t, place) = s.add_trait_item(added);
            &&& same_but_traits(s, t)
            &&& s.traits.len() < usize::MAX ==> place == s.traits.len()
            &&& t.traits.len() == s.traits.len() + 1
            &&& t.traits[s.traits.len() as int] == added
            &&& forall|i: int| 0 <= i < s.traits.len() ==> #[trigger] t.traits[i] == s.traits[i]
        }),
{
    reveal(State::set_trait_supertraits);
    reveal(State::set_trait_supertrait_bindings);
    reveal(State::set_trait_members);
    reveal(State::set_trait_assoc_types);
    reveal(State::set_trait_self_type_param);
    reveal(State::add_trait_item);
}

/// Whether two states have everything but their trait impls in common.
pub open spec fn same_but_trait_impls<'ast>(s: State<'ast>, later: State<'ast>) -> bool {
    later == State { trait_impls: later.trait_impls, ..s }
}

/// What is set of an entry of the table of trait impls is read back, and nothing
/// else changes with it. An entry that is added comes last.
pub proof fn law_table_of_trait_impls<'ast>(
    s: State<'ast>,
    index: usize,
    added: TraitImpl,
    target: Spanned<TypeIndex>,
    members: List<Member>,
    type_params: List<TypeParamInfo>,
)
    requires
        index < s.trait_impls.len(),
    ensures
        ({
            let t = s.set_trait_impl_target(index, target);
            &&& same_but_trait_impls(s, t)
            &&& t.trait_impls.len() == s.trait_impls.len()
            &&& t.trait_impls[index as int] == (TraitImpl { target, ..s.trait_impls[index as int] })
            &&& forall|i: int|
                0 <= i < s.trait_impls.len() && i != index ==> #[trigger] t.trait_impls[i] == s.trait_impls[i]
        }),
        ({
            let t = s.set_trait_impl_members(index, members);
            &&& same_but_trait_impls(s, t)
            &&& t.trait_impls.len() == s.trait_impls.len()
            &&& t.trait_impls[index as int] == (TraitImpl { members, ..s.trait_impls[index as int] })
            &&& forall|i: int|
                0 <= i < s.trait_impls.len() && i != index ==> #[trigger] t.trait_impls[i] == s.trait_impls[i]
        }),
        ({
            let t = s.set_trait_impl_type_params(index, type_params);
            &&& same_but_trait_impls(s, t)
            &&& t.trait_impls.len() == s.trait_impls.len()
            &&& t.trait_impls[index as int] == (TraitImpl { type_params, ..s.trait_impls[index as int] })
            &&& forall|i: int|
                0 <= i < s.trait_impls.len() && i != index ==> #[trigger] t.trait_impls[i] == s.trait_impls[i]
        }),
        ({
            let (t, place) = s.add_trait_impl(added);
            &&& same_but_trait_impls(s, t)
            &&& s.trait_impls.len() < usize::MAX ==> place == s.trait_impls.len()
            &&& t.trait_impls.len() == s.trait_impls.len() + 1
            &&& t.trait_impls[s.trait_impls.len() as int] == added
            &&& forall|i: int| 0 <= i < s.trait_impls.len() ==> #[trigger] t.trait_impls[i] == s.trait_impls[i]
        }),
{
    reveal(State::set_trait_impl_target);
    reveal(State::set_trait_impl_members);
    reveal(State::set_trait_impl_type_params);
    reveal(State::add_trait_impl);
}

/// Whether two states have everything but their inherent impls in common.
pub open spec fn same_but_inherent_impls<'ast>(s: State<'ast>, later: State<'ast>) -> bool {
    later == State { inherent_impls: later.inherent_impls, ..s }
}

/// What is set of an entry of the table of inherent impls is read back, and nothing
/// else changes with it. An entry that is added comes last.
pub proof fn law_table_of_inherent_impls<'ast>(
    s: State<'ast>,
    index: usize,
    added: InherentImpl,
    type_params: List<TypeParamInfo>,
    target: Spanned<TypeIndex>,
    members: List<Member>,
)
    requires
        index < s.inherent_impls.len(),
    ensures
        ({
            let t = s.set_inherent_impl_type_params(index, type_params);
            &&& same_but_inherent_impls(s, t)
            &&& t.inherent_impls.len() == s.inherent_impls.len()
            &&& t.inherent_impls[index as int] == (InherentImpl { type_params, ..s.inherent_impls[index as int] })
            &&& forall|i: int|
                0 <= i < s.inherent_impls.len() && i != index ==> #[trigger] t.inherent_impls[i] == s.inherent_impls[i]
        }),
        ({
            let t = s.set_inherent_impl_target(index, target);
            &&& same_but_inherent_impls(s, t)
            &&& t.inherent_impls.len() == s.inherent_impls.len()
            &&& t.inherent_impls[index as int] == (InherentImpl { target, ..s.inherent_impls[index as int] })
            &&& forall|i: int|
                0 <= i < s.inherent_impls.len() && i != index ==> #[trigger] t.inherent_impls[i] == s.inherent_impls[i]
        }),
        ({
            let t = s.set_inherent_impl_members(index, members);
            &&& same_but_inherent_impls(s, t)
            &&& t.inherent_impls.len() == s.inherent_impls.len()
            &&& t.inherent_impls[index as int] == (InherentImpl { members, ..s.inherent_impls[index as int] })
            &&& forall|i: int|
                0 <= i < s.inherent_impls.len() && i != index ==> #[trigger] t.inherent_impls[i] == s.inherent_impls[i]
        }),
        ({
            let (t, place) = s.add_inherent_impl(added);
            &&& same_but_inherent_impls(s, t)
            &&& s.inherent_impls.len() < usize::MAX ==> place == s.inherent_impls.len()
            &&& t.inherent_impls.len() == s.inherent_impls.len() + 1
            &&& t.inherent_impls[s.inherent_impls.len() as int] == added
            &&& forall|i: int| 0 <= i < s.inherent_impls.len() ==> #[trigger] t.inherent_impls[i] == s.inherent_impls[i]
        }),
{
    reveal(State::set_inherent_impl_type_params);
    reveal(State::set_inherent_impl_target);
    reveal(State::set_inherent_impl_members);
    reveal(State::add_inherent_impl);
}

/// Whether two states have everything but their typesets in common.
pub open spec fn same_but_typesets<'ast>(s: State<'ast>, later: State<'ast>) -> bool {
    later == State { typesets: later.typesets, ..s }
}

/// What is set of an entry of the table of typesets is read back, and nothing
/// else changes with it. An entry that is added comes last.
pub proof fn law_table_of_typesets<'ast>(
    s: State<'ast>,
    index: usize,
    added: TypeSet,
    members: List<TypeIndex>,
    intersection_range: IntegerRange,
)
    requires
        index < s.typesets.len(),
    ensures
        ({
            let t = s.set_typeset_members(index, members);
            &&& same_but_typesets(s, t)
            &&& t.typesets.len() == s.typesets.len()
            &&& t.typesets[index as int] == (TypeSet { members, ..s.typesets[index as int] })
            &&& forall|i: int|
                0 <= i < s.typesets.len() && i != index ==> #[trigger] t.typesets[i] == s.typesets[i]
        }),
        ({
            let t = s.set_typeset_intersection_range(index, intersection_range);
            &&& same_but_typesets(s, t)
            &&& t.typesets.len() == s.typesets.len()
            &&& t.typesets[index as int] == (TypeSet { intersection_range, ..s.typesets[index as int] })
            &&& forall|i: int|
                0 <= i < s.typesets.len() && i != index ==> #[trigger] t.typesets[i] == s.typesets[i]
        }),
        ({
            let (t, place) = s.add_typeset(added);
            &&& same_but_typesets(s, t)
            &&& s.typesets.len() < usize::MAX ==> place == s.typesets.len()
            &&& t.typesets.len() == s.typesets.len() + 1
            &&& t.typesets[s.typesets.len() as int] == added
            &&& forall|i: int| 0 <= i < s.typesets.len() ==> #[trigger] t.typesets[i] == s.typesets[i]
        }),
{
    reveal(State::set_typeset_members);
    reveal(State::set_typeset_intersection_range);
    reveal(State::add_typeset);
}

/// Whether two states have everything but their namespaces in common.
pub open spec fn same_but_namespaces<'ast>(s: State<'ast>, later: State<'ast>) -> bool {
    later == State { namespaces: later.namespaces, ..s }
}

/// What is set of an entry of the table of namespaces is read back, and nothing
/// else changes with it. An entry that is added comes last.
pub proof fn law_table_of_namespaces<'ast>(
    s: State<'ast>,
    index: usize,
    added: ModuleNamespace,
    wildcard_imports: List<usize>,
)
    requires
        index < s.namespaces.len(),
    ensures
        ({
            let t = s.set_namespace_wildcard_imports(index, wildcard_imports);
            &&& same_but_namespaces(s, t)
            &&& t.namespaces.len() == s.namespaces.len()
            &&& t.namespaces[index as int] == (ModuleNamespace { wildcard_imports, ..s.namespaces[index as int] })
            &&& forall|i: int|
                0 <= i < s.namespaces.len() && i != index ==> #[trigger] t.namespaces[i] == s.namespaces[i]
        }),
        ({
            let (t, place) = s.add_namespace(added);
            &&& same_but_namespaces(s, t)
            &&& s.namespaces.len() < usize::MAX ==> place == s.namespaces.len()
            &&& t.namespaces.len() == s.namespaces.len() + 1
            &&& t.namespaces[s.namespaces.len() as int] == added
            &&& forall|i: int| 0 <= i < s.namespaces.len() ==> #[trigger] t.namespaces[i] == s.namespaces[i]
        }),
{
    reveal(State::set_namespace_wildcard_imports);
    reveal(State::add_namespace);
}

/// Whether two states have everything but their import declarations in common.
pub open spec fn same_but_import_decls<'ast>(s: State<'ast>, later: State<'ast>) -> bool {
    later == State { import_decls: later.import_decls, ..s }
}

/// What is set of an entry of the table of import declarations is read back, and nothing
/// else changes with it. An entry that is added comes last.
pub proof fn law_table_of_import_decls<'ast>(
    s: State<'ast>,
    index: usize,
    added: ImportDecl,
    lookup: List<ImportEntry>,
)
    requires
        index < s.import_decls.len(),
    ensures
        ({
            let t = s.set_import_decl_lookup(index, lookup);
            &&& same_but_import_decls(s, t)
            &&& t.import_decls.len() == s.import_decls.len()
            &&& t.import_decls[index as int] == (ImportDecl { lookup, ..s.import_decls[index as int] })
            &&& forall|i: int|
                0 <= i < s.import_decls.len() && i != index ==> #[trigger] t.import_decls[i] == s.import_decls[i]
        }),
        ({
            let (t, place) = s.add_import_decl(added);
            &&& same_but_import_decls(s, t)
            &&& s.import_decls.len() < usize::MAX ==> place == s.import_decls.len()
            &&& t.import_decls.len() == s.import_decls.len() + 1
            &&& t.import_decls[s.import_decls.len() as int] == added
            &&& forall|i: int| 0 <= i < s.import_decls.len() ==> #[trigger] t.import_decls[i] == s.import_decls[i]
        }),
{
    reveal(State::set_import_decl_lookup);
    reveal(State::add_import_decl);
}

/// A dispatch entry that is added comes last in its table, and the ones before
/// it stay.
pub proof fn law_dispatch_tables<'ast>(
    s: State<'ast>,
    inherent: InherentDispatch,
    dispatched: TraitDispatch,
)
    ensures
        s.add_inherent_dispatch(inherent) == (State {
            inherent_dispatch: s.inherent_dispatch.push(inherent),
            ..s
        }),
        s.add_trait_dispatch(dispatched) == (State {
            trait_dispatch: s.trait_dispatch.push(dispatched),
            ..s
        }),
{
    reveal(State::add_inherent_dispatch);
    reveal(State::add_trait_dispatch);
}

/// How far a signature has come is read back, and nothing else changes with
/// it.
pub proof fn law_signature_states<'ast>(s: State<'ast>, index: usize, value: ComputeState)
    requires
        index < s.sig_states.len(),
    ensures
        ({
            let t = s.set_sig_state(index, value);
            &&& t == (State { sig_states: t.sig_states, ..s })
            &&& t.sig_states.len() == s.sig_states.len()
            &&& t.sig_states[index as int] == value
            &&& forall|i: int|
                0 <= i < s.sig_states.len() && i != index ==> #[trigger] t.sig_states[i]
                    == s.sig_states[i]
        }),
{
    reveal(State::set_sig_state);
}

} // verus!
