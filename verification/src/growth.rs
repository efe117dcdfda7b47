//! What every operation keeps: the type checker only ever adds to what it
//! knows. A type keeps its index, a diagnostic that was reported stays, a
//! definition keeps its place in its table, a name that has a meaning keeps
//! having one, and a signature that was begun is never begun again.

use vstd::prelude::*;

use crate::span::DefId;
use crate::state::{State, TraitDispatch};
use crate::tir::{ComputeState, ExportItem, ItemEntry, SymbolEntry, SymbolKind};
use crate::types::Type;

pub mod aggregates;
pub mod bindings;
pub mod blocks;
pub mod bodies;
pub mod calls;
pub mod coerce;
pub mod control;
pub mod expressions;
pub mod generics;
pub mod lookup;
pub mod members;
pub mod names;
pub mod operators;
pub mod paths;
pub mod prescan;
pub mod program;
pub mod resolve;
pub mod satisfy;
pub mod signatures;
pub mod tables;
pub mod types;
pub mod typing;
pub mod unused;

verus! {

/// Whether a sequence starts with another one.
pub open spec fn extends<T>(earlier: Seq<T>, later: Seq<T>) -> bool {
    &&& earlier.len() <= later.len()
    &&& forall|i: int| 0 <= i < earlier.len() ==> earlier[i] == #[trigger] later[i]
}

/// Whether no type is in the pool twice.
pub open spec fn distinct_types(types: Seq<Type>) -> bool {
    forall|i: int, j: int| 0 <= i < j < types.len() ==> #[trigger] types[i] != #[trigger] types[j]
}

/// Whether no name of a namespace is in the table twice.
pub open spec fn distinct_symbols(symbols: Seq<SymbolEntry>) -> bool {
    forall|i: int, j: int|
        0 <= i < j < symbols.len() ==> !same_name(#[trigger] symbols[i], #[trigger] symbols[j])
}

/// Whether two entries are for the same name of the same namespace.
pub open spec fn same_name(left: SymbolEntry, right: SymbolEntry) -> bool {
    left.namespace == right.namespace && left.space == right.space && left.name == right.name
}

/// Whether no definition is in the table twice.
pub open spec fn distinct_items(items: Seq<ItemEntry>) -> bool {
    forall|i: int, j: int|
        0 <= i < j < items.len() ==> (#[trigger] items[i]).id != (#[trigger] items[j]).id
}

/// Whether no trait has two impls for one target.
pub open spec fn distinct_impls(table: Seq<TraitDispatch>) -> bool {
    forall|i: int, j: int|
        0 <= i < j < table.len() ==> !same_impl(#[trigger] table[i], #[trigger] table[j])
}

/// Whether no name is exported twice.
pub open spec fn distinct_exports(exports: Seq<ExportItem>) -> bool {
    forall|i: int, j: int|
        0 <= i < j < exports.len() ==> (#[trigger] exports[i]).name().inner != (
        #[trigger] exports[j]).name().inner
}

/// Whether two entries are for the same trait and the same target.
pub open spec fn same_impl(left: TraitDispatch, right: TraitDispatch) -> bool {
    left.target == right.target && left.trait_index == right.trait_index
}

/// Whether whatever a resolver of definitions does only adds.
pub open spec fn resolver_adds<'ast>(
    pending: spec_fn(State<'ast>, DefId) -> State<'ast>,
) -> bool {
    forall|s: State<'ast>, id: DefId| s.only_adds(#[trigger] pending(s, id))
}

impl<'ast> State<'ast> {
    /// Whether every namespace comes after the one around it, and every name of
    /// a module leads to a namespace.
    pub open spec fn in_order(self) -> bool {
        &&& forall|i: int|
            0 <= i < self.namespaces.len() ==> ((#[trigger] self.namespaces[i]).parent matches Some(
                parent,
            ) ==> parent < i)
        &&& forall|i: int|
            0 <= i < self.symbols.len() ==> self.module_exists((#[trigger] self.symbols[i]).kind)
    }

    /// Whether a meaning of a name is no module or leads to a namespace.
    pub open spec fn module_exists(self, kind: SymbolKind) -> bool {
        kind matches SymbolKind::Module { namespace_idx } ==> namespace_idx < self.namespaces.len()
    }

    /// Whether a namespace is the root or one of those that there are.
    pub open spec fn has_namespace(self, namespace: Option<usize>) -> bool {
        namespace matches Some(index) ==> index < self.namespaces.len()
    }

    /// Whether a later state has everything that this one has, no further
    /// namespace, and namespaces that are in order where they were.
    #[verifier::opaque]
    pub open spec fn only_adds(self, later: State<'ast>) -> bool {
        &&& self.grows_to(later)
        &&& self.namespaces.len() == later.namespaces.len()
        &&& self.in_order() ==> later.in_order()
    }

    /// Whether a later state has everything that this one has.
    #[verifier::opaque]
    pub open spec fn grows_to(self, later: State<'ast>) -> bool {
        &&& extends(self.texts, later.texts)
        &&& self.names == later.names
        &&& extends(self.types, later.types)
        &&& extends(self.diagnostics, later.diagnostics)
        &&& extends(self.accesses, later.accesses)
        &&& extends(self.nodes, later.nodes)
        &&& extends(self.exports, later.exports)
        &&& extends(self.inherent_dispatch, later.inherent_dispatch)
        &&& extends(self.trait_dispatch, later.trait_dispatch)
        &&& distinct_types(self.types) ==> distinct_types(later.types)
        &&& distinct_symbols(self.symbols) ==> distinct_symbols(later.symbols)
        &&& distinct_items(self.items) ==> distinct_items(later.items)
        &&& distinct_impls(self.trait_dispatch) ==> distinct_impls(later.trait_dispatch)
        &&& distinct_exports(self.exports) ==> distinct_exports(later.exports)
        &&& self.symbols.len() <= later.symbols.len()
        &&& forall|i: int|
            0 <= i < self.symbols.len() ==> self.symbols[i].namespace == (
            #[trigger] later.symbols[i]).namespace && self.symbols[i].space
                == later.symbols[i].space && self.symbols[i].name == later.symbols[i].name
        &&& self.items.len() <= later.items.len()
        &&& forall|i: int|
            0 <= i < self.items.len() ==> self.items[i].id == (#[trigger] later.items[i]).id
        &&& self.functions.len() <= later.functions.len()
        &&& forall|i: int|
            0 <= i < self.functions.len() ==> self.functions[i].id == (
            #[trigger] later.functions[i]).id
        &&& self.globals.len() <= later.globals.len()
        &&& forall|i: int|
            0 <= i < self.globals.len() ==> self.globals[i].id == (#[trigger] later.globals[i]).id
        &&& self.constants.len() <= later.constants.len()
        &&& forall|i: int|
            0 <= i < self.constants.len() ==> self.constants[i].id == (
            #[trigger] later.constants[i]).id
        &&& self.structs.len() <= later.structs.len()
        &&& forall|i: int|
            0 <= i < self.structs.len() ==> self.structs[i].id == (#[trigger] later.structs[i]).id
        &&& self.enums.len() <= later.enums.len()
        &&& forall|i: int|
            0 <= i < self.enums.len() ==> self.enums[i].id == (#[trigger] later.enums[i]).id
        &&& self.type_aliases.len() <= later.type_aliases.len()
        &&& forall|i: int|
            0 <= i < self.type_aliases.len() ==> self.type_aliases[i].id == (
            #[trigger] later.type_aliases[i]).id
        &&& self.memories.len() <= later.memories.len()
        &&& forall|i: int|
            0 <= i < self.memories.len() ==> self.memories[i].id == (
            #[trigger] later.memories[i]).id
        &&& self.traits.len() <= later.traits.len()
        &&& forall|i: int|
            0 <= i < self.traits.len() ==> self.traits[i].id == (#[trigger] later.traits[i]).id
        &&& self.trait_impls.len() <= later.trait_impls.len()
        &&& forall|i: int|
            0 <= i < self.trait_impls.len() ==> self.trait_impls[i].id == (
            #[trigger] later.trait_impls[i]).id && self.trait_impls[i].trait_index
                == later.trait_impls[i].trait_index
        &&& self.inherent_impls.len() <= later.inherent_impls.len()
        &&& forall|i: int|
            0 <= i < self.inherent_impls.len() ==> self.inherent_impls[i].id == (
            #[trigger] later.inherent_impls[i]).id
        &&& self.typesets.len() <= later.typesets.len()
        &&& forall|i: int|
            0 <= i < self.typesets.len() ==> self.typesets[i].id == (
            #[trigger] later.typesets[i]).id
        &&& self.namespaces.len() <= later.namespaces.len()
        &&& forall|i: int|
            0 <= i < self.namespaces.len() ==> self.namespaces[i].name == (
            #[trigger] later.namespaces[i]).name && self.namespaces[i].parent
                == later.namespaces[i].parent
        &&& self.sig_states.len() == later.sig_states.len()
        &&& forall|i: int|
            0 <= i < self.sig_states.len() && self.sig_states[i] != ComputeState::Pending
                ==> #[trigger] later.sig_states[i] != ComputeState::Pending
    }

    /// A state has everything that it has itself.
    pub proof fn adds_nothing(self)
        ensures
            self.only_adds(self),
    {
        reveal(State::only_adds);
        reveal(State::grows_to);
    }

    pub broadcast proof fn adds_report(self, diagnostic: crate::diagnostics::Diagnostic)
        ensures
            self.only_adds(#[trigger] self.report(diagnostic)),
    {
        reveal(State::only_adds);
        reveal(State::grows_to);
        reveal(State::report);
    }

    pub broadcast proof fn adds_access(
        self,
        target: crate::tir::AccessTarget,
        span: crate::span::SourceSpan,
    )
        ensures
            self.only_adds(#[trigger] self.access(target, span)),
    {
        reveal(State::only_adds);
        reveal(State::grows_to);
        reveal(State::access);
    }

    pub broadcast proof fn adds_intern(self, ty: crate::types::Type)
        ensures
            self.only_adds((#[trigger] self.intern(ty)).0),
    {
        reveal(State::only_adds);
        reveal(State::grows_to);
        reveal(State::intern);
        type_position_holds(self.types, ty, 0);
    }

    pub broadcast proof fn adds_with_literal(self, raw: &String)
        ensures
            self.only_adds((#[trigger] self.with_literal(raw)).0),
    {
        reveal(State::only_adds);
        reveal(State::grows_to);
        reveal(State::with_literal);
    }

    pub broadcast proof fn adds_unquoted_name(self, name: crate::span::Symbol)
        ensures
            self.only_adds((#[trigger] self.unquoted_name(name)).0),
    {
        reveal(State::only_adds);
        reveal(State::grows_to);
        reveal(State::unquoted_name);
    }

    pub broadcast proof fn adds_with_item(self, id: DefId, index: crate::tir::ItemIndex)
        ensures
            self.only_adds(#[trigger] self.with_item(id, index)),
    {
        reveal(State::only_adds);
        reveal(State::grows_to);
        reveal(State::with_item);
        item_position_holds(self.items, id, 0);
    }

    pub broadcast proof fn adds_with_symbol(
        self,
        namespace: Option<usize>,
        space: crate::tir::SymbolNamespace,
        name: crate::span::Symbol,
        kind: SymbolKind,
    )
        requires
            self.module_exists(kind),
        ensures
            self.only_adds(#[trigger] self.with_symbol(namespace, space, name, kind)),
    {
        reveal(State::only_adds);
        reveal(State::grows_to);
        reveal(State::with_symbol);
        symbol_position_holds(self.symbols, namespace, space, name, 0);
        let later = self.with_symbol(namespace, space, name, kind);
        assert forall|i: int| 0 <= i < later.symbols.len() && self.in_order() implies self.module_exists(
            (#[trigger] later.symbols[i]).kind,
        ) by {
            assert(later.symbols[i].kind == kind || later.symbols[i] == self.symbols[i]);
        }
    }
}

/// A name that gets a meaning leaves everything else as it is, also where the
/// meaning is a module that leads nowhere.
pub proof fn symbol_is_added<'ast>(
    s: State<'ast>,
    namespace: Option<usize>,
    space: crate::tir::SymbolNamespace,
    name: crate::span::Symbol,
    kind: SymbolKind,
)
    ensures
        ({
            let later = s.with_symbol(namespace, space, name, kind);
            &&& s.grows_to(later)
            &&& later.namespaces == s.namespaces
            &&& s.in_order() && s.module_exists(kind) ==> later.in_order()
        }),
{
    reveal(State::with_symbol);
    if s.module_exists(kind) {
        s.adds_with_symbol(namespace, space, name, kind);
        law_adding_is_growing(s, s.with_symbol(namespace, space, name, kind));
    }
    reveal(State::grows_to);
    symbol_position_holds(s.symbols, namespace, space, name, 0);
}

/// What is added in two steps is added.
pub broadcast proof fn law_adding_chains<'ast>(
    first: State<'ast>,
    second: State<'ast>,
    third: State<'ast>,
)
    requires
        #[trigger] first.only_adds(second),
        #[trigger] second.only_adds(third),
    ensures
        first.only_adds(third),
{
    reveal(State::only_adds);
    law_growing_chains(first, second, third);
}

/// A state that only adds to another one has everything that it has.
pub broadcast proof fn law_adding_is_growing<'ast>(first: State<'ast>, second: State<'ast>)
    requires
        #[trigger] first.only_adds(second),
    ensures
        first.grows_to(second),
        first.namespaces.len() == second.namespaces.len(),
        first.in_order() ==> second.in_order(),
{
    reveal(State::only_adds);
}

/// No namespace is lost.
pub broadcast proof fn law_growing_keeps_namespaces<'ast>(first: State<'ast>, second: State<'ast>)
    requires
        #[trigger] first.grows_to(second),
    ensures
        first.namespaces.len() <= second.namespaces.len(),
{
    reveal(State::grows_to);
}

/// What a state has, it has after two steps.
pub broadcast proof fn law_growing_chains<'ast>(
    first: State<'ast>,
    second: State<'ast>,
    third: State<'ast>,
)
    requires
        #[trigger] first.grows_to(second),
        #[trigger] second.grows_to(third),
    ensures
        first.grows_to(third),
{
    reveal(State::grows_to);
    assert forall|i: int|
        0 <= i < first.sig_states.len() && first.sig_states[i]
            != ComputeState::Pending implies #[trigger] third.sig_states[i]
        != ComputeState::Pending by {
        assert(second.sig_states[i] != ComputeState::Pending);
    }
    assert(extends(first.types, third.types)) by {
        assert forall|i: int| 0 <= i < first.types.len() implies first.types[i]
            == #[trigger] third.types[i] by {
            assert(first.types[i] == second.types[i]);
        }
    }
}

/// The position of a type holds it; where there is none, the type is not in
/// the rest of the pool.
pub proof fn type_position_holds(types: Seq<Type>, ty: Type, from: int)
    requires
        0 <= from,
    ensures
        ({
            let position = crate::state::type_position(types, ty, from);
            &&& position < types.len() ==> from <= position && types[position] == ty
            &&& position >= types.len() ==> position == types.len() && forall|i: int|
                from <= i < types.len() ==> types[i] != ty
        }),
    decreases types.len() - from,
{
    if from < types.len() && types[from] != ty {
        type_position_holds(types, ty, from + 1);
    }
}

/// The position of a definition holds it; where there is none, the
/// definition is not in the rest of the table.
pub proof fn item_position_holds(items: Seq<ItemEntry>, id: DefId, from: int)
    requires
        0 <= from,
    ensures
        ({
            let position = crate::state::item_position(items, id, from);
            &&& position < items.len() ==> from <= position && items[position].id == id
            &&& position >= items.len() ==> position == items.len() && forall|i: int|
                from <= i < items.len() ==> (#[trigger] items[i]).id != id
        }),
    decreases items.len() - from,
{
    if from < items.len() && items[from].id != id {
        item_position_holds(items, id, from + 1);
    }
}

/// The position of a name holds it; where there is none, the name is not in
/// the rest of the table.
pub proof fn symbol_position_holds(
    symbols: Seq<SymbolEntry>,
    namespace: Option<usize>,
    space: crate::tir::SymbolNamespace,
    name: crate::span::Symbol,
    from: int,
)
    requires
        0 <= from,
    ensures
        ({
            let position = crate::state::symbol_position(symbols, namespace, space, name, from);
            &&& position < symbols.len() ==> {
                &&& from <= position
                &&& symbols[position].namespace == namespace
                &&& symbols[position].space == space
                &&& symbols[position].name == name
            }
            &&& position >= symbols.len() ==> position == symbols.len() && forall|i: int|
                from <= i < symbols.len() ==> !((#[trigger] symbols[i]).namespace == namespace
                    && symbols[i].space == space && symbols[i].name == name)
        }),
    decreases symbols.len() - from,
{
    if from < symbols.len() && !(symbols[from].namespace == namespace && symbols[from].space
        == space && symbols[from].name == name) {
        symbol_position_holds(symbols, namespace, space, name, from + 1);
    }
}

/// Where no export is found under a name, none in the rest of the table has
/// it.
pub proof fn export_from_holds<'ast>(s: State<'ast>, name: crate::span::Symbol, from: int)
    requires
        0 <= from,
        s.export_from(name, from) is None,
    ensures
        forall|i: int| from <= i < s.exports.len() ==> (#[trigger] s.exports[i]).name().inner != name,
    decreases s.exports.len() - from,
{
    if from < s.exports.len() {
        export_from_holds(s, name, from + 1);
    }
}

/// Where no impl is registered for a target, the table has none for it.
pub proof fn dispatched_impl_holds(
    table: Seq<TraitDispatch>,
    target: crate::state::ImplTarget,
    trait_index: usize,
    from: int,
)
    requires
        0 <= from,
        crate::substitute::dispatched_impl(table, target, trait_index, from) is None,
    ensures
        forall|i: int|
            from <= i < table.len() ==> !((#[trigger] table[i]).target == target
                && table[i].trait_index == trait_index),
    decreases table.len() - from,
{
    if from < table.len() {
        dispatched_impl_holds(table, target, trait_index, from + 1);
    }
}

/// What the elementary operations add.
pub broadcast group group_growing {
    law_growing_chains,
    law_adding_is_growing,
    law_growing_keeps_namespaces,
}

pub broadcast group group_adding {
    law_adding_chains,
    State::adds_report,
    State::adds_access,
    State::adds_intern,
    State::adds_with_item,
    State::adds_with_symbol,
    State::adds_claimed,
    State::adds_bound,
    State::adds_type_kind_access,
    State::adds_kind_type,
    State::adds_global_expression,
    State::adds_module_ensured,
    State::adds_module_path_ensured,
    State::adds_type_param_access,
    State::adds_self_keyword_access,
    State::adds_unquoted_name,
    State::adds_with_literal,
    State::adds_substituted,
    State::adds_poisoned,
    State::adds_intern_function_type,
    State::adds_coercible,
    State::adds_unified,
    State::adds_expected,
    State::adds_set_own_param_bounds,
    State::adds_add_function,
    State::adds_add_global,
    State::adds_add_constant,
    State::adds_add_struct_item,
    State::adds_add_enum_item,
    State::adds_add_type_alias,
    State::adds_add_memory,
    State::adds_add_trait_item,
    State::adds_add_trait_impl,
    State::adds_add_inherent_impl,
    State::adds_add_typeset,
    State::adds_add_namespace,
    State::adds_add_import_decl,
    State::adds_add_inherent_dispatch,
    State::adds_add_tagged_item,
    State::adds_add_node,
    State::adds_add_root_wildcard_import,
    State::adds_register_trait_impl,
    State::adds_set_function_params,
    State::adds_set_function_result,
    State::adds_set_function_signature_index,
    State::adds_set_function_type_params,
    State::adds_set_function_body,
    State::adds_set_global_ty,
    State::adds_set_global_value,
    State::adds_set_constant_ty,
    State::adds_set_constant_value,
    State::adds_set_constant_const_value,
    State::adds_set_struct_type_params,
    State::adds_set_struct_fields,
    State::adds_set_enum_repr_type,
    State::adds_set_enum_variants,
    State::adds_set_type_alias_type_params,
    State::adds_set_type_alias_template,
    State::adds_set_memory_kind,
    State::adds_set_memory_min_pages,
    State::adds_set_memory_max_pages,
    State::adds_set_trait_supertraits,
    State::adds_set_trait_supertrait_bindings,
    State::adds_set_trait_members,
    State::adds_set_trait_assoc_types,
    State::adds_set_trait_self_type_param,
    State::adds_set_trait_impl_target,
    State::adds_set_trait_impl_members,
    State::adds_set_trait_impl_type_params,
    State::adds_set_inherent_impl_type_params,
    State::adds_set_inherent_impl_target,
    State::adds_set_inherent_impl_members,
    State::adds_set_typeset_members,
    State::adds_set_typeset_intersection_range,
    State::adds_set_namespace_wildcard_imports,
    State::adds_set_import_decl_lookup,
    State::adds_set_sig_state,
    State::adds_fresh_id,
}

/// What the operations that need no other definition add.
pub broadcast group group_finishing {
    group_adding,
    State::adds_record_assoc_type_access,
    State::adds_resolve_generic_type_application,
    State::adds_register_inherent_member,
    State::adds_check_assoc_type_traits,
    State::adds_check_assoc_type_bounds,
    State::adds_pointer_type_for_memory,
    State::adds_check_struct_fields_for_direct_recursion,
    State::adds_report_enum_duplicate_values,
    State::adds_resolve_namespace_member,
    State::adds_resolve_own_member,
    State::adds_resolve_inherent_member,
    State::adds_choose_trait_candidate,
    State::adds_resolve_impl_member,
    State::adds_record_abstract_dispatch_access,
    State::adds_record_impl_accesses,
    State::adds_resolve_method_call,
    State::adds_method_of_entry,
    State::adds_check_typeset_range,
    State::adds_check_literal_range,
    State::adds_coerce_untyped_int_expr,
    State::adds_coerce_untyped_float_expr,
    State::adds_check_operator_target,
    State::adds_coerce_untyped_expr,
    State::adds_fit_operand,
    State::adds_finish_arithmetic,
    State::adds_check_bitwise_operand,
    State::adds_finish_bitwise,
    State::adds_finish_comparison,
    State::adds_check_logical_operand,
    State::adds_finish_unary,
    State::adds_concrete_assoc_type_value,
    State::adds_report_open_type_params,
    State::adds_fit_generic_argument,
    State::adds_fit_generic_arguments,
    State::adds_check_trait_bounds,
    State::adds_check_typeset_bound,
    State::adds_check_type_arg_bounds,
    State::adds_check_assoc_traits,
    State::adds_check_assoc_bounds,
    State::adds_check_bound_bindings,
    State::adds_check_where_clauses,
    State::adds_check_type_arg_clauses,
    State::adds_check_typeset_bounds_on_type_args,
    State::adds_build_generic_call_arguments,
    State::adds_resolve_attributes,
    State::adds_resolve_attribute,
    State::adds_register_tagged_items,
    State::adds_register_placeholder_memory,
    State::adds_scan_function,
    State::adds_scan_global,
    State::adds_scan_struct,
    State::adds_scan_enum,
    State::adds_scan_type_alias,
    State::adds_scan_memory,
    State::adds_scan_constant,
    State::adds_scan_trait_items,
    State::adds_scan_trait_item,
    State::adds_scan_trait,
    State::adds_scan_inherent_items,
    State::adds_scan_inherent_item,
    State::adds_scan_inherent_impl,
    State::adds_scan_trait_impl_items,
    State::adds_scan_trait_impl_item,
    State::adds_scan_import_entries,
    State::adds_scan_import_entry,
    State::adds_scan_import,
    State::adds_resolve_use_path,
    State::adds_scan_use,
    State::adds_scan_typeset,
    State::adds_pre_scan_item,
    State::adds_pre_scan_items,
    State::adds_resolve_scoped_param,
    State::adds_type_of_symbol,
    State::adds_apply_named_type,
    State::adds_plain_type_of_symbol,
    State::adds_resolve_impl_type_member,
    State::adds_bound_of_symbol,
    State::adds_check_receiver_type,
    State::adds_resolved_symbol_to_expression,
    State::adds_report_unreachable_statements,
    State::adds_check_coercible,
    State::adds_infer_block_type,
    State::adds_resolve_local_type,
    State::adds_check_field_access,
    State::adds_resolve_struct_field,
    State::adds_settle_literal,
    State::adds_check_array_element,
    State::adds_check_same_type,
    State::adds_resolve_indexable,
    State::adds_check_writable,
    State::adds_pattern_of_expression,
    State::adds_report_unreachable_arms,
    State::adds_settle_arm,
    State::adds_unify_arms,
    State::adds_check_match_exhaustiveness,
    State::adds_build_member_value,
    State::adds_finish_object_access,
    State::adds_report_unused_locals,
    State::adds_report_scope_warnings,
    State::adds_report_unused_labels,
    State::adds_report_stack_warnings,
    State::adds_checked_block_type,
    State::adds_finish_block_result,
    State::adds_finish_expression_statement,
    State::adds_settle_local,
    State::adds_finish_loop,
    State::adds_jump_target,
    State::adds_build_continue_expression,
    State::adds_settle_jump_value,
    State::adds_finish_plain_break,
    State::adds_finish_return,
    State::adds_finish_plain_return,
    State::adds_finish_if,
    State::adds_finish_if_else,
    State::adds_finish_match,
    State::adds_fit_field_value,
    State::adds_finish_struct_init,
    State::adds_settle_element,
    State::adds_finish_tuple,
    State::adds_check_array_size,
    State::adds_element_type,
    State::adds_settle_index,
    State::adds_settle_range_bound,
    State::adds_settle_argument,
    State::adds_argument_expectation,
    State::adds_report_invalid_callee,
    State::adds_finish_cast,
    State::adds_cast_target,
    State::adds_finish_deref,
    State::adds_finish_address_of,
    State::adds_build_name_expression,
    State::adds_build_char_expression,
    State::adds_function_reference,
    State::adds_check_type_arg_count,
    State::adds_bind_name,
    State::adds_report_struct_pattern,
    State::adds_report_missing_pattern_names,
    State::adds_mention_field,
    State::adds_param_expectation,
    State::adds_check_plain_method,
    State::adds_insert_trait_member,
    State::adds_insert_assoc_type,
    State::adds_insert_trait_impl_member,
    State::adds_insert_inherent_member,
    State::adds_checked_const_value,
    State::adds_check_const_type,
    State::adds_checked_repr,
    State::adds_check_counted_value,
    State::adds_finish_variant_value,
    State::adds_add_impl_constant,
    State::adds_check_duplicate_method,
    State::adds_check_supertrait_bindings,
    State::adds_check_supertraits,
    State::adds_trait_self_type,
    State::adds_finish_constant,
    State::adds_fork_constant,
    State::adds_seed_member,
    State::adds_seed_memory_trait_impl_with,
    State::adds_register_memory,
    State::adds_reject_memory,
    State::adds_insert_import,
    State::adds_check_global_value,
    State::adds_check_missing_body,
    State::adds_report_all,
    State::adds_export_name,
    State::adds_export_target,
    State::adds_report_unexportable,
    State::adds_build_export,
    State::adds_build_exports,
    State::adds_export_items,
    State::adds_check_function_use,
    State::adds_check_global_use,
    State::adds_check_constant_use,
    State::adds_check_struct_use,
    State::adds_check_enum_use,
    State::adds_owner_self_type,
    State::adds_origin_self_ty,
    State::adds_known_assoc_value,
    State::adds_expected_assoc_value,
    State::adds_check_written_bounds,
    State::adds_check_written_bindings,
    State::adds_check_written_binding,
    State::adds_check_declared_bounds,
    State::adds_check_each_trait,
    State::adds_check_bindings,
    State::adds_check_binding,
    State::adds_check_inner,
    State::adds_check_equality,
    State::adds_check_bounds,
    State::adds_check_assoc_value,
    State::adds_finish_const_expression,
    State::adds_finish_global,
}

} // verus!
