//! What names after `::` stand for, and what the tables say of declared
//! types.

use vstd::prelude::*;

use crate::ast::{BinaryOp, UnaryOp};
use crate::list::{cons, single, List};
use crate::members;
use crate::members::{resize_types, total_type_param_count, MemberLookup};
use crate::params;
use crate::params::{contains_type, find_assoc_type};
use crate::relate::MAX_DEPTH;
use crate::reports;
use crate::reports::{
    report_assoc_type_must_implement, report_assoc_type_not_in_typeset, report_cannot_implement,
    report_duplicate_trait_impl, report_enum_duplicate_value, report_no_member,
    report_recursive_type, report_type_arg_count, report_type_args_not_supported,
    report_undeclared_identifier,
};
use crate::scope::next_index;
use crate::span::{DefId, FileId, SourceSpan, Spanned, Symbol, TextSpan};
use crate::state;
use crate::state::{vec_at, Builder, ImplTarget, InherentDispatch, State, TraitDispatch};
use crate::substitute;
use crate::tir::{
    AccessTarget, AssocBinding, Bounds, ComputeState, ConstValue, EnumVariant, ExprKind,
    Expression, Function, Global, ImplEntry, ItemIndex, ResolveContext, StructField, SymbolKind,
    SymbolNamespace, TraitBound, TypeParamInfo,
};
use crate::ty;
use crate::types::{Type, TypeIndex, TypeParamOwner};

verus! {

/// A value that several variants of an enum have, with their places.
#[derive(Debug, PartialEq, Eq)]
pub struct SharedValue {
    pub value: i64,
    pub places: List<SourceSpan>,
}

/// How many type arguments a reference to a generic type must have.
#[derive(Clone, Copy, Debug, PartialEq, Eq, Structural)]
pub enum TypeArgArity {
    /// All or none; types left out are inferred from what stands beside the
    /// reference.
    AllowInfer,
    /// All of them.
    RequireExact,
}

/// A member of a namespace that is a value.
#[allow(inconsistent_fields)]
#[derive(Debug, PartialEq, Eq)]
pub enum ResolvedMember {
    Function { func_index: usize, type_args: List<TypeIndex> },
    Const { const_index: usize },
    Global { global_index: usize },
    EnumVariant { enum_index: usize, variant_index: usize },
}

/// The type parameters with other bounds on one of them.
pub open spec fn with_param_bounds(
    params: List<TypeParamInfo>,
    index: usize,
    bounds: Bounds,
) -> List<TypeParamInfo> {
    match params.at(index as nat) {
        Some(info) => params.replaced(index as nat, TypeParamInfo { bounds, ..info }),
        None => params,
    }
}

fn set_bounds_in(params: &mut List<TypeParamInfo>, index: usize, bounds: Bounds)
    ensures
        *final(params) == with_param_bounds(*old(params), index, bounds),
{
    match params.get_mut(index) {
        Some(info) => {
            info.bounds = bounds;
        },
        None => {},
    }
}

impl<'ast> State<'ast> {
    /// Sets the bounds of a type parameter that an owner declares itself.
    pub open spec fn set_own_param_bounds(
        self,
        owner: TypeParamOwner,
        index: usize,
        bounds: Bounds,
    ) -> State<'ast> {
        match owner {
            TypeParamOwner::ImplBlock(block) => match state::seq_at(self.inherent_impls, block) {
                Some(item) => self.set_inherent_impl_type_params(
                    block,
                    with_param_bounds(item.type_params, index, bounds),
                ),
                None => self,
            },
            TypeParamOwner::Function(id) => match self.function_index(id) {
                Some(function) => match state::seq_at(self.functions, function) {
                    Some(item) => self.set_function_type_params(
                        function,
                        with_param_bounds(item.type_params, index, bounds),
                    ),
                    None => self,
                },
                None => self,
            },
            TypeParamOwner::Struct(id) => match self.struct_index(id) {
                Some(struct_index) => match state::seq_at(self.structs, struct_index) {
                    Some(item) => self.set_struct_type_params(
                        struct_index,
                        with_param_bounds(item.type_params, index, bounds),
                    ),
                    None => self,
                },
                None => self,
            },
            TypeParamOwner::Trait(trait_index) => match state::seq_at(self.traits, trait_index) {
                Some(item) => if index == 0 {
                    self.set_trait_self_type_param(
                        trait_index,
                        TypeParamInfo { bounds, ..item.self_type_param },
                    )
                } else {
                    self
                },
                None => self,
            },
            TypeParamOwner::TraitImpl(impl_index) => match state::seq_at(
                self.trait_impls,
                impl_index,
            ) {
                Some(item) => self.set_trait_impl_type_params(
                    impl_index,
                    with_param_bounds(item.type_params, index, bounds),
                ),
                None => self,
            },
            TypeParamOwner::TypeAlias(id) => match self.type_alias_index(id) {
                Some(alias) => match state::seq_at(self.type_aliases, alias) {
                    Some(item) => self.set_type_alias_type_params(
                        alias,
                        with_param_bounds(item.type_params, index, bounds),
                    ),
                    None => self,
                },
                None => self,
            },
        }
    }
}

impl<'ast> Builder<'ast> {
    /// Sets the bounds of a type parameter that an owner declares itself.
    pub fn set_own_param_bounds(&mut self, owner: TypeParamOwner, index: usize, bounds: Bounds)
        ensures
            final(self)@ == old(self)@.set_own_param_bounds(owner, index, bounds),
    {
        proof {
            reveal(State::set_inherent_impl_type_params);
            reveal(State::set_function_type_params);
            reveal(State::set_struct_type_params);
            reveal(State::set_trait_self_type_param);
            reveal(State::set_trait_impl_type_params);
            reveal(State::set_type_alias_type_params);
        }
        match owner {
            TypeParamOwner::ImplBlock(block) => {
                if block < self.inherent_impls.len() {
                    set_bounds_in(&mut self.inherent_impls[block].type_params, index, bounds);
                }
            },
            TypeParamOwner::Function(id) => match self.function_index(id) {
                Some(function) => {
                    if function < self.functions.len() {
                        set_bounds_in(&mut self.functions[function].type_params, index, bounds);
                    }
                },
                None => {},
            },
            TypeParamOwner::Struct(id) => match self.struct_index(id) {
                Some(struct_index) => {
                    if struct_index < self.structs.len() {
                        set_bounds_in(&mut self.structs[struct_index].type_params, index, bounds);
                    }
                },
                None => {},
            },
            TypeParamOwner::Trait(trait_index) => {
                if trait_index < self.traits.len() && index == 0 {
                    self.traits[trait_index].self_type_param.bounds = bounds;
                }
            },
            TypeParamOwner::TraitImpl(impl_index) => {
                if impl_index < self.trait_impls.len() {
                    set_bounds_in(&mut self.trait_impls[impl_index].type_params, index, bounds);
                }
            },
            TypeParamOwner::TypeAlias(id) => match self.type_alias_index(id) {
                Some(alias) => {
                    if alias < self.type_aliases.len() {
                        set_bounds_in(&mut self.type_aliases[alias].type_params, index, bounds);
                    }
                },
                None => {},
            },
        }
    }
}

/// The negated number, cut off to 64 bits.
#[verifier::allow_in_spec]
pub fn negated(value: i64) -> (result: i64)
    returns
        0i64.wrapping_sub(value),
{
    0i64.wrapping_sub(value)
}

/// The quotient, rounded towards zero and cut off to 64 bits; none for a
/// division by zero.
#[verifier::allow_in_spec]
pub fn quotient(left: i64, right: i64) -> (result: Option<i64>)
    returns
        (if right == 0 {
            None
        } else {
            match left.checked_div(right) {
                Some(value) => Some(value),
                None => Some(i64::MIN),
            }
        }),
{
    if right == 0 {
        None
    } else {
        match left.checked_div(right) {
            Some(value) => Some(value),
            None => Some(i64::MIN),
        }
    }
}

/// The remainder of the division that rounds towards zero; none for a
/// division by zero.
#[verifier::allow_in_spec]
pub fn remainder(left: i64, right: i64) -> (result: Option<i64>)
    returns
        (if right == 0 {
            None
        } else {
            match left.checked_rem(right) {
                Some(value) => Some(value),
                None => Some(0),
            }
        }),
{
    if right == 0 {
        None
    } else {
        match left.checked_rem(right) {
            Some(value) => Some(value),
            None => Some(0),
        }
    }
}

/// The value of an arithmetic operator on two constants, cut off to 64 bits.
#[verifier::allow_in_spec]
pub fn fold_binary(operator: BinaryOp, left: i64, right: i64) -> (result: Option<i64>)
    returns
        (match operator {
            BinaryOp::Add => Some(left.wrapping_add(right)),
            BinaryOp::Sub => Some(left.wrapping_sub(right)),
            BinaryOp::Mul => Some(left.wrapping_mul(right)),
            BinaryOp::Div => quotient(left, right),
            BinaryOp::Rem => remainder(left, right),
            _ => None,
        }),
{
    match operator {
        BinaryOp::Add => Some(left.wrapping_add(right)),
        BinaryOp::Sub => Some(left.wrapping_sub(right)),
        BinaryOp::Mul => Some(left.wrapping_mul(right)),
        BinaryOp::Div => quotient(left, right),
        BinaryOp::Rem => remainder(left, right),
        _ => None,
    }
}

/// The value that a member of an impl or a trait is; a type is none.
#[verifier::allow_in_spec]
pub fn entry_member(entry: ImplEntry, type_args: List<TypeIndex>) -> (result: Option<ResolvedMember>)
    returns
        (match entry {
            ImplEntry::AssocConstant(const_index) => Some(ResolvedMember::Const { const_index }),
            ImplEntry::Method(func_index) | ImplEntry::AssocFunction(func_index) => Some(
                ResolvedMember::Function { func_index, type_args },
            ),
            ImplEntry::AssocType { .. } => None,
        }),
{
    match entry {
        ImplEntry::AssocConstant(const_index) => Some(ResolvedMember::Const { const_index }),
        ImplEntry::Method(func_index) | ImplEntry::AssocFunction(func_index) => Some(
            ResolvedMember::Function { func_index, type_args },
        ),
        ImplEntry::AssocType { .. } => None,
    }
}

/// The position of the field of that name.
pub open spec fn field_position(
    fields: &List<StructField>,
    name: Symbol,
    from: usize,
) -> Option<usize>
    decreases fields,
{
    match fields {
        List::Nil => None,
        List::Cons(field, rest) => {
            if field.name.inner == name {
                Some(from)
            } else {
                field_position(rest, name, next_index(from))
            }
        },
    }
}

/// The position of the field of that name.
pub fn find_field(
    fields: &List<StructField>,
    name: Symbol,
    from: usize,
) -> (result: Option<usize>)
    ensures
        result == field_position(fields, name, from),
    decreases fields,
{
    match fields {
        List::Nil => None,
        List::Cons(field, rest) => {
            if field.name.inner == name {
                Some(from)
            } else {
                find_field(rest, name, next_index(from))
            }
        },
    }
}

/// The position of the variant of that name.
pub open spec fn variant_position(
    variants: &List<EnumVariant>,
    name: Symbol,
    from: usize,
) -> Option<usize>
    decreases variants,
{
    match variants {
        List::Nil => None,
        List::Cons(variant, rest) => {
            if variant.name.inner == name {
                Some(from)
            } else {
                variant_position(rest, name, next_index(from))
            }
        },
    }
}

/// The position of the variant of that name.
pub fn find_variant(
    variants: &List<EnumVariant>,
    name: Symbol,
    from: usize,
) -> (result: Option<usize>)
    ensures
        result == variant_position(variants, name, from),
    decreases variants,
{
    match variants {
        List::Nil => None,
        List::Cons(variant, rest) => {
            if variant.name.inner == name {
                Some(from)
            } else {
                find_variant(rest, name, next_index(from))
            }
        },
    }
}

/// Puts a binding into a list that is ordered by name, after those of the
/// same name.
pub open spec fn with_binding(
    bindings: List<AssocBinding>,
    binding: AssocBinding,
) -> List<AssocBinding>
    decreases bindings,
{
    match bindings {
        List::Nil => single(binding),
        List::Cons(head, rest) => {
            if binding.name.inner < head.name.inner {
                cons(binding, List::Cons(head, rest))
            } else {
                List::Cons(head, Box::new(with_binding(*rest, binding)))
            }
        },
    }
}

/// Puts a binding into a list that is ordered by name, after those of the
/// same name.
pub fn insert_binding(
    bindings: List<AssocBinding>,
    binding: AssocBinding,
) -> (result: List<AssocBinding>)
    ensures
        result == with_binding(bindings, binding),
    decreases bindings,
{
    match bindings {
        List::Nil => single(binding),
        List::Cons(head, rest) => {
            if binding.name.inner < head.name.inner {
                cons(binding, List::Cons(head, rest))
            } else {
                List::Cons(head, Box::new(insert_binding(*rest, binding)))
            }
        },
    }
}

/// The list of one list's elements followed by another's.
pub open spec fn joined_traits(
    first: List<TraitBound>,
    second: List<TraitBound>,
) -> List<TraitBound>
    decreases first,
{
    match first {
        List::Nil => second,
        List::Cons(head, rest) => List::Cons(head, Box::new(joined_traits(*rest, second))),
    }
}

/// The list of one list's elements followed by another's.
pub fn join_traits(
    first: List<TraitBound>,
    second: List<TraitBound>,
) -> (result: List<TraitBound>)
    ensures
        result == joined_traits(first, second),
    decreases first,
{
    match first {
        List::Nil => second,
        List::Cons(head, rest) => List::Cons(head, Box::new(join_traits(*rest, second))),
    }
}

/// The traits of a list of bounds.
pub open spec fn traits_of(traits: &List<TraitBound>) -> List<usize>
    decreases traits,
{
    match traits {
        List::Nil => List::Nil,
        List::Cons(bound, rest) => cons(bound.trait_index, traits_of(rest)),
    }
}

/// The traits of a list of bounds.
pub fn bound_traits(traits: &List<TraitBound>) -> (result: List<usize>)
    ensures
        result == traits_of(traits),
    decreases traits,
{
    match traits {
        List::Nil => List::Nil,
        List::Cons(bound, rest) => cons(bound.trait_index, bound_traits(rest)),
    }
}

/// Where the value of a variant is given: its expression, or its name where
/// the value comes by counting.
pub open spec fn value_span(variant: &EnumVariant) -> TextSpan {
    match &variant.value {
        Some(value) => value.span,
        None => variant.name.span,
    }
}

/// Where the value of a variant is given: its expression, or its name where
/// the value comes by counting.
pub fn variant_value_span(variant: &EnumVariant) -> (result: TextSpan)
    ensures
        result == value_span(variant),
{
    match &variant.value {
        Some(value) => value.span,
        None => variant.name.span,
    }
}

/// The places of the variants with a value.
pub open spec fn places_of_value(
    file_id: FileId,
    variants: &List<EnumVariant>,
    value: i64,
) -> List<SourceSpan>
    decreases variants,
{
    match variants {
        List::Nil => List::Nil,
        List::Cons(variant, rest) => {
            let others = places_of_value(file_id, rest, value);
            match variant.const_value {
                Some(own) => {
                    if own == value {
                        cons(SourceSpan::new(file_id, value_span(variant)), others)
                    } else {
                        others
                    }
                },
                None => others,
            }
        },
    }
}

/// The places of the variants with a value.
pub fn value_places(
    file_id: FileId,
    variants: &List<EnumVariant>,
    value: i64,
) -> (result: List<SourceSpan>)
    ensures
        result == places_of_value(file_id, variants, value),
    decreases variants,
{
    match variants {
        List::Nil => List::Nil,
        List::Cons(variant, rest) => {
            let others = value_places(file_id, rest, value);
            match variant.const_value {
                Some(own) => {
                    if own == value {
                        cons(SourceSpan::new(file_id, variant_value_span(variant)), others)
                    } else {
                        others
                    }
                },
                None => others,
            }
        },
    }
}

/// Whether one of the values is the given one.
pub open spec fn lists_value(values: &List<i64>, value: i64) -> bool
    decreases values,
{
    match values {
        List::Nil => false,
        List::Cons(head, rest) => **head == value || lists_value(rest, value),
    }
}

/// Whether one of the values is the given one.
pub fn contains_value(values: &List<i64>, value: i64) -> (result: bool)
    ensures
        result == lists_value(values, value),
    decreases values,
{
    match values {
        List::Nil => false,
        List::Cons(head, rest) => **head == value || contains_value(rest, value),
    }
}

/// Where the first of several places starts.
pub open spec fn earliest(places: List<SourceSpan>) -> u32
    decreases places,
{
    match places {
        List::Nil => u32::MAX,
        List::Cons(place, rest) => {
            let later = earliest(*rest);
            if place.span.start < later {
                place.span.start
            } else {
                later
            }
        },
    }
}

/// Where the first of several places starts.
pub fn earliest_start(places: &List<SourceSpan>) -> (result: u32)
    ensures
        result == earliest(*places),
    decreases places,
{
    match places {
        List::Nil => u32::MAX,
        List::Cons(place, rest) => {
            let later: u32 = earliest_start(rest);
            if place.span.start < later {
                place.span.start
            } else {
                later
            }
        },
    }
}

impl SharedValue {
    /// Whether this is reported before another one: it starts earlier in the
    /// source, or has the smaller value where both start at one place.
    pub open spec fn precedes(self, other: SharedValue) -> bool {
        earliest(self.places) < earliest(other.places) || earliest(self.places) == earliest(
            other.places,
        ) && self.value < other.value
    }

    /// Whether this is reported before another one.
    pub fn comes_before(&self, other: &SharedValue) -> (result: bool)
        ensures
            result == self.precedes(*other),
    {
        let start: u32 = earliest_start(&self.places);
        let other_start: u32 = earliest_start(&other.places);
        start < other_start || start == other_start && self.value < other.value
    }
}

/// Shared values with one more in its place in the source.
pub open spec fn with_shared(shared: List<SharedValue>, added: SharedValue) -> List<SharedValue>
    decreases shared,
{
    match shared {
        List::Nil => single(added),
        List::Cons(first, rest) => if first.precedes(added) {
            cons(*first, with_shared(*rest, added))
        } else {
            cons(added, shared)
        },
    }
}

/// Shared values with one more in its place in the source.
pub fn insert_shared(shared: List<SharedValue>, added: SharedValue) -> (result: List<SharedValue>)
    ensures
        result == with_shared(shared, added),
    decreases shared,
{
    match shared {
        List::Nil => single(added),
        List::Cons(first, rest) => if first.comes_before(&added) {
            cons(*first, insert_shared(*rest, added))
        } else {
            cons(added, List::Cons(first, rest))
        },
    }
}

/// The values that several of the variants have, in source order. `seen`
/// holds the values of the variants before these.
pub open spec fn shared_values(
    file_id: FileId,
    variants: &List<EnumVariant>,
    seen: &List<i64>,
) -> List<SharedValue>
    decreases variants,
{
    match variants {
        List::Nil => List::Nil,
        List::Cons(variant, rest) => match variant.const_value {
            Some(value) => {
                let others = shared_values(file_id, rest, &cons(value, *seen));
                let places = places_of_value(file_id, variants, value);
                if !lists_value(seen, value) && places.len() > 1 {
                    with_shared(others, SharedValue { value, places })
                } else {
                    others
                }
            },
            None => shared_values(file_id, rest, seen),
        },
    }
}

/// The values that several of the variants have, in source order. `seen`
/// holds the values of the variants before these.
pub fn find_shared_values(
    file_id: FileId,
    variants: &List<EnumVariant>,
    seen: &List<i64>,
) -> (result: List<SharedValue>)
    ensures
        result == shared_values(file_id, variants, seen),
    decreases variants,
{
    match variants {
        List::Nil => List::Nil,
        List::Cons(variant, rest) => match variant.const_value {
            Some(value) => {
                let others = find_shared_values(file_id, rest, &cons(value, seen.duplicate()));
                let places = value_places(file_id, variants, value);
                if !contains_value(seen, value) && places.len() > 1 {
                    insert_shared(others, SharedValue { value, places })
                } else {
                    others
                }
            },
            None => find_shared_values(file_id, rest, seen),
        },
    }
}

impl<'ast> State<'ast> {
    /// How far the signature of a definition has come; nothing for a definition
    /// that is not in the program.
    pub open spec fn signature_state(self, id: DefId) -> Option<ComputeState> {
        match state::seq_ref(self.sig_states, self.node_index(id)) {
            Some(state) => Some(*state),
            None => None,
        }
    }

    /// Whether the signature of a definition is being resolved.
    pub open spec fn is_in_progress(self, id: DefId) -> bool {
        match self.signature_state(id) {
            Some(ComputeState::InProgress) => true,
            _ => false,
        }
    }

    /// Records a use of an associated type that a trait declares.
    #[verifier::opaque]
    pub open spec fn record_assoc_type_access(
        self,
        trait_index: usize,
        name: Symbol,
        span: SourceSpan,
    ) -> State<'ast> {
        let declared = match state::seq_ref(self.traits, trait_index) {
            Some(declaration) => {
                params::assoc_type_named(declaration.assoc_types, name).is_some()
            },
            None => false,
        };
        if declared {
            self.access(AccessTarget::TraitAssocType(trait_index, name), span)
        } else {
            self
        }
    }

    /// The number of type parameters and the name of the struct or type alias
    /// that a name stands for.
    pub open spec fn generic_arity(self, kind: SymbolKind) -> Option<(usize, Symbol)> {
        match kind {
            SymbolKind::Struct { struct_index } => {
                match state::seq_ref(self.structs, struct_index) {
                    Some(item) => Some((item.type_params.len(), item.name.inner)),
                    None => None,
                }
            },
            SymbolKind::TypeAlias { type_alias_index } => {
                match state::seq_ref(self.type_aliases, type_alias_index) {
                    Some(item) => Some((item.type_params.len(), item.name.inner)),
                    None => None,
                }
            },
            _ => None,
        }
    }

    /// Applies type arguments to a struct or a type alias. A wrong number of
    /// them is reported, and the type keeps its identity with poisoned
    /// arguments. An alias stands for its aliased type, whose type parameters
    /// are then poisoned.
    #[verifier::opaque]
    pub open spec fn resolve_generic_type_application(
        self,
        context: ResolveContext,
        kind: SymbolKind,
        args: &List<TypeIndex>,
        span: TextSpan,
        arity: TypeArgArity,
    ) -> (State<'ast>, TypeIndex) {
        match self.generic_arity(kind) {
            Some(found) => {
                let (expected, name) = found;
                let found: usize = args.len();
                let mismatched = match arity {
                    TypeArgArity::AllowInfer => found != expected && found != 0,
                    TypeArgArity::RequireExact => found != expected,
                };
                let s = if mismatched {
                    self.report(
                        report_type_arg_count(name, expected, found, context.at(span)),
                    )
                } else {
                    self
                };
                let all_args = if mismatched {
                    List::repeat(ty::ERROR, expected)
                } else {
                    members::resized_types(args, expected)
                };
                match kind {
                    SymbolKind::Struct { struct_index } => {
                        let s = s.access(AccessTarget::Struct(struct_index), context.at(span));
                        s.intern(
                            Type::Struct { struct_index, args: all_args },
                        )
                    },
                    SymbolKind::TypeAlias { type_alias_index } => {
                        let s = s.access(
                            AccessTarget::TypeAlias(type_alias_index),
                            context.at(span),
                        );
                        let template = match state::seq_ref(s.type_aliases, type_alias_index) {
                            Some(alias) => alias.template,
                            None => ty::ERROR,
                        };
                        if mismatched {
                            s.poisoned(template, MAX_DEPTH)
                        } else {
                            s.substituted(template, all_args, MAX_DEPTH)
                        }
                    },
                    _ => (s, ty::ERROR),
                }
            },
            None => {
                let s = self.report(report_type_args_not_supported(context.at(span)));
                (s, ty::ERROR)
            },
        }
    }

    /// The place of a trait impl's header.
    pub open spec fn trait_impl_location(self, impl_index: usize) -> SourceSpan {
        self.item_location(ItemIndex::TraitImpl(impl_index))
    }

    /// Makes a trait impl findable by its target. A trait has at most one impl
    /// for all types of one constructor; a second one is reported and is not
    /// found.
    #[verifier::opaque]
    pub open spec fn register_trait_impl(
        self,
        target_type: TypeIndex,
        trait_index: usize,
        impl_index: usize,
    ) -> State<'ast> {
        match substitute::impl_target(target_type, self.ty(target_type)) {
            Some(target) => {
                match self.find_dispatched_impl(target, trait_index) {
                    Some(existing) => {
                        self.report(
                            report_duplicate_trait_impl(
                                self.trait_name(trait_index),
                                self.trait_impl_location(impl_index),
                                self.trait_impl_location(existing),
                            ),
                        )
                    },
                    None => {
                        self.add_trait_dispatch(
                            TraitDispatch { target, trait_index, impl_index },
                        )
                    },
                }
            },
            None => {
                self.report(
                    report_cannot_implement(
                        self.trait_name(trait_index),
                        target_type,
                        self.trait_impl_location(impl_index),
                    ),
                )
            },
        }
    }

    /// Makes a member of an inherent impl block findable by the block's target.
    #[verifier::opaque]
    pub open spec fn register_inherent_member(
        self,
        target_type: TypeIndex,
        name: Symbol,
        block_index: usize,
    ) -> State<'ast> {
        match substitute::impl_target(target_type, self.ty(target_type)) {
            Some(target) => {
                self.add_inherent_dispatch(
                    InherentDispatch { target, name, block_index },
                )
            },
            None => self,
        }
    }

    /// Reports each trait that the value of an associated type must implement
    /// and does not.
    pub open spec fn check_assoc_type_traits(
        self,
        traits: &List<TraitBound>,
        assoc_name: Symbol,
        concrete: TypeIndex,
        span: SourceSpan,
    ) -> State<'ast>
        decreases traits,
    {
        match traits {
            List::Nil => self,
            List::Cons(bound, rest) => {
                let s = if self.trait_impl_for(concrete, bound.trait_index).is_none() {
                    self.report(
                        report_assoc_type_must_implement(
                            assoc_name,
                            self.trait_name(bound.trait_index),
                            concrete,
                            span,
                        ),
                    )
                } else {
                    self
                };
                s.check_assoc_type_traits(rest, assoc_name, concrete, span)
            },
        }
    }

    /// Whether a type is one of the members of a typeset.
    pub open spec fn concrete_type_in_typeset(
        self,
        index: TypeIndex,
        typeset_index: usize,
    ) -> bool {
        match state::seq_ref(self.typesets, typeset_index) {
            Some(typeset) => params::lists_type(typeset.members, index),
            None => false,
        }
    }

    /// Checks the value of an associated type against the bounds that its trait
    /// declares for it.
    #[verifier::opaque]
    pub open spec fn check_assoc_type_bounds(
        self,
        file_id: FileId,
        trait_index: usize,
        assoc_name: Symbol,
        concrete: TypeIndex,
        error_span: TextSpan,
    ) -> State<'ast> {
        match self.assoc_type_bounds(trait_index, assoc_name) {
            Some(bounds) => {
                let span = SourceSpan::new(file_id, error_span);
                let s = self.check_assoc_type_traits(&bounds.traits, assoc_name, concrete, span);
                match bounds.typeset {
                    Some(typeset_index) => {
                        if !s.concrete_type_in_typeset(concrete, typeset_index) {
                            s.report(
                                report_assoc_type_not_in_typeset(
                                    assoc_name,
                                    s.typeset_name(typeset_index),
                                    concrete,
                                    span,
                                ),
                            )
                        } else {
                            s
                        }
                    },
                    None => s,
                }
            },
            None => self,
        }
    }

    /// The first of the traits that declares an associated type of that name.
    pub open spec fn trait_with_assoc_type(
        self,
        traits: &List<TraitBound>,
        name: Symbol,
    ) -> Option<usize>
        decreases traits,
    {
        match traits {
            List::Nil => None,
            List::Cons(bound, rest) => {
                match self.assoc_type_bounds(bound.trait_index, name) {
                    Some(_) => Some(bound.trait_index),
                    None => self.trait_with_assoc_type(rest, name),
                }
            },
        }
    }

    /// The type of an address in a memory: the memory's own, or, for a memory
    /// that is a type parameter, its associated type `Size`.
    #[verifier::opaque]
    pub open spec fn pointer_type_for_memory(self, memory: TypeIndex) -> (State<'ast>, TypeIndex) {
        match self.ty(memory) {
            Type::Memory { kind: _, id } => {
                match self.memory_index(id) {
                    Some(index) => {
                        match state::seq_ref(self.memories, index) {
                            Some(item) => (self, item.kind),
                            None => (self, ty::ERROR),
                        }
                    },
                    None => (self, ty::ERROR),
                }
            },
            Type::TypeParam { .. } => {
                let bounds = self.param_bounds(memory);
                match self.trait_with_assoc_type(&bounds.traits, self.names.size) {
                    Some(trait_index) => {
                        self.intern(
                            Type::AssocTypeProjection {
                                base: memory,
                                assoc_name: self.names.size,
                                trait_index,
                            },
                        )
                    },
                    None => (self, ty::INTEGER),
                }
            },
            _ => (self, ty::INTEGER),
        }
    }

    /// Whether a value of a type directly contains a struct: as itself, in a
    /// field or in an element of a tuple. `visited` holds the structs on the way;
    /// `depth` is larger than the number of structs that are not on it.
    pub open spec fn find_direct_struct_recursion(
        self,
        index: TypeIndex,
        root: usize,
        visited: &List<usize>,
        depth: usize,
    ) -> bool
        decreases depth, usize::MAX + 1, 1int, List::<usize>::Nil,
    {
        self.contains_within(index, root, visited, depth, MAX_DEPTH)
    }

    /// The same, where `nesting` bounds how deep tuples stand in tuples.
    pub open spec fn contains_within(
        self,
        index: TypeIndex,
        root: usize,
        visited: &List<usize>,
        depth: usize,
        nesting: usize,
    ) -> bool
        decreases depth, nesting as int, 1int, List::<usize>::Nil,
    {
        match self.ty(index) {
            Type::Struct { struct_index, args: _ } => {
                if struct_index == root {
                    true
                } else {
                    if params::lists_type(*visited, struct_index) || depth == 0 {
                        false
                    } else {
                        match state::seq_ref(self.structs, struct_index) {
                            Some(item) => {
                                self.any_field_contains(
                                    &item.fields,
                                    root,
                                    &cons(struct_index, *visited),
                                    (depth - 1) as usize,
                                )
                            },
                            None => false,
                        }
                    }
                }
            },
            Type::Tuple { elements } => {
                self.any_element_contains(&elements, root, visited, depth, nesting)
            },
            _ => false,
        }
    }

    /// Whether one of the fields directly contains a struct.
    pub open spec fn any_field_contains(
        self,
        fields: &List<StructField>,
        root: usize,
        visited: &List<usize>,
        depth: usize,
    ) -> bool
        decreases depth, usize::MAX + 2, 0int, fields,
    {
        match fields {
            List::Nil => false,
            List::Cons(field, rest) => {
                self.find_direct_struct_recursion(field.ty.inner, root, visited, depth)
                    || self.any_field_contains(rest, root, visited, depth)
            },
        }
    }

    /// Whether one of the elements of a tuple directly contains a struct.
    pub open spec fn any_element_contains(
        self,
        elements: &List<TypeIndex>,
        root: usize,
        visited: &List<usize>,
        depth: usize,
        nesting: usize,
    ) -> bool
        decreases depth, nesting as int, 0int, elements,
    {
        match elements {
            List::Nil => false,
            List::Cons(element, rest) => {
                (nesting > 0 && self.contains_within(
                    **element,
                    root,
                    visited,
                    depth,
                    (nesting - 1) as usize,
                )) || self.any_element_contains(rest, root, visited, depth, nesting)
            },
        }
    }

    /// The place of the first field that directly contains a struct.
    pub open spec fn recursive_field(
        self,
        fields: &List<StructField>,
        root: usize,
    ) -> Option<TextSpan>
        decreases fields,
    {
        match fields {
            List::Nil => None,
            List::Cons(field, rest) => {
                if self.find_direct_struct_recursion(
                    field.ty.inner,
                    root,
                    &single(root),
                    MAX_DEPTH,
                ) {
                    Some(field.ty.span)
                } else {
                    self.recursive_field(rest, root)
                }
            },
        }
    }

    /// Reports a struct that directly contains itself.
    #[verifier::opaque]
    pub open spec fn check_struct_fields_for_direct_recursion(
        self,
        struct_index: usize,
        struct_span: SourceSpan,
    ) -> State<'ast> {
        match state::seq_ref(self.structs, struct_index) {
            Some(item) => {
                let (name, file_id, found) = (
                    item.name.inner,
                    item.file_id,
                    self.recursive_field(&item.fields, struct_index),
                );
                match found {
                    Some(field_span) => {
                        self.report(
                            report_recursive_type(
                                name,
                                struct_span,
                                SourceSpan::new(file_id, field_span),
                            ),
                        )
                    },
                    None => self,
                }
            },
            None => self,
        }
    }

    /// The value of a constant.
    pub open spec fn constant_value(self, id: DefId) -> Option<ConstValue> {
        match self.const_index(id) {
            Some(index) => {
                match state::seq_ref(self.constants, index) {
                    Some(constant) => constant.const_value,
                    None => None,
                }
            },
            None => None,
        }
    }

    /// The value of an expression that is known when the program is compiled:
    /// literals, negation and arithmetic on integers, and other constants.
    pub open spec fn eval_const_expr(self, expr: &Expression) -> Option<ConstValue>
        decreases expr,
    {
        match &expr.kind {
            ExprKind::Int { value } => Some(ConstValue::Int(*value)),
            ExprKind::Float { bits } => Some(ConstValue::Float(*bits)),
            ExprKind::Bool { value } => Some(ConstValue::Bool(*value)),
            ExprKind::Char { value } => Some(ConstValue::Char(*value)),
            ExprKind::Unary { operator, operand } => {
                match self.eval_const_expr(operand) {
                    Some(ConstValue::Int(value)) => {
                        match operator.inner {
                            UnaryOp::InvertSign => Some(ConstValue::Int(negated(value))),
                            UnaryOp::BitNot => Some(ConstValue::Int(!value)),
                            UnaryOp::Not => None,
                        }
                    },
                    _ => None,
                }
            },
            ExprKind::Binary { operator, left, right } => {
                match (self.eval_const_expr(left), self.eval_const_expr(right)) {
                    (Some(ConstValue::Int(left)), Some(ConstValue::Int(right))) => {
                        match fold_binary(operator.inner, left, right) {
                            Some(value) => Some(ConstValue::Int(value)),
                            None => None,
                        }
                    },
                    _ => None,
                }
            },
            ExprKind::Const { id } => self.constant_value(*id),
            ExprKind::NamespaceAccess { namespace: _, member } => self.eval_const_expr(member),
            _ => None,
        }
    }

    /// Reports each of the shared values.
    pub open spec fn report_shared_values(
        self,
        enum_name: SourceSpan,
        shared: List<SharedValue>,
    ) -> State<'ast>
        decreases shared,
    {
        match shared {
            List::Nil => self,
            List::Cons(first, rest) => self.report(
                reports::enum_duplicate_value(enum_name, first.value, first.places),
            ).report_shared_values(enum_name, *rest),
        }
    }

    /// Reports each value that several variants have: once, with the places of
    /// all, in the order in which the values come first in the source.
    pub open spec fn report_enum_duplicate_values(
        self,
        context: ResolveContext,
        name_span: TextSpan,
        variants: &List<EnumVariant>,
    ) -> State<'ast> {
        self.report_shared_values(
            context.at(name_span),
            shared_values(context.file_id, variants, &List::Nil),
        )
    }

    /// The value that a name after `::` stands for: a member of an impl or a
    /// trait first, otherwise a variant of an enum or a function or global of a
    /// module. What is wrong is reported.
    #[verifier::opaque]
    pub open spec fn resolve_namespace_member(
        self,
        context: ResolveContext,
        namespace: Spanned<TypeIndex>,
        member: Spanned<Symbol>,
    ) -> (State<'ast>, Option<ResolvedMember>) {
        let (s, lookup) = self.resolve_impl_member(
            context,
            namespace.inner,
            member.inner,
            member.span,
        );
        let is_param = match s.ty(namespace.inner) {
            Type::TypeParam { .. } => true,
            _ => false,
        };
        match lookup {
            MemberLookup::Inherent { entry, type_args } => {
                match entry_member(entry, type_args) {
                    Some(found) => (s, Some(found)),
                    None => s.resolve_own_member(context, namespace, member),
                }
            },
            MemberLookup::Trait { entry, type_args, trait_index } => {
                let s = if is_param {
                    s.record_abstract_dispatch_access(
                        trait_index,
                        member.inner,
                        context.at(member.span),
                    )
                } else {
                    s
                };
                match entry_member(entry, type_args) {
                    Some(found) => (s, Some(found)),
                    None => s.resolve_own_member(context, namespace, member),
                }
            },
            MemberLookup::NotFound => s.resolve_own_member(context, namespace, member),
            MemberLookup::Ambiguous => (s, None),
        }
    }

    /// The variant of an enum, or the function or global of a module, that a
    /// name after `::` stands for.
    #[verifier::opaque]
    pub open spec fn resolve_own_member(
        self,
        context: ResolveContext,
        namespace: Spanned<TypeIndex>,
        member: Spanned<Symbol>,
    ) -> (State<'ast>, Option<ResolvedMember>) {
        match self.ty(namespace.inner) {
            Type::Memory { .. } => {
                let s = self.report(report_undeclared_identifier(context.at(member.span)));
                (s, None)
            },
            Type::Enum { enum_index } => {
                let found = match state::seq_ref(self.enums, enum_index) {
                    Some(item) => variant_position(&item.variants, member.inner, 0),
                    None => None,
                };
                match found {
                    Some(variant_index) => {
                        (self, Some(ResolvedMember::EnumVariant { enum_index, variant_index }))
                    },
                    None => {
                        let s = self.report(
                            report_undeclared_identifier(context.at(member.span)),
                        );
                        (s, None)
                    },
                }
            },
            Type::Namespace { namespace_idx } => {
                match self.direct_symbol(
                    Some(namespace_idx),
                    SymbolNamespace::Value,
                    member.inner,
                ) {
                    Some(SymbolKind::Function { func_index }) => {
                        let total = match state::seq_ref(self.functions, func_index) {
                            Some(function) => members::total_params(function),
                            None => 0,
                        };
                        (
                            self,
                            Some(
                                ResolvedMember::Function {
                                    func_index,
                                    type_args: List::repeat(ty::INFER, total),
                                },
                            ),
                        )
                    },
                    Some(SymbolKind::Global { global_index }) => {
                        (self, Some(ResolvedMember::Global { global_index }))
                    },
                    _ => {
                        let s = self.report(
                            report_undeclared_identifier(context.at(member.span)),
                        );
                        (s, None)
                    },
                }
            },
            _ => {
                let s = self.report(
                    report_no_member(member.inner, namespace.inner, context.at(member.span)),
                );
                (s, None)
            },
        }
    }
}

impl<'ast> Builder<'ast> {
    /// How far the signature of a definition has come; nothing for a definition
    /// that is not in the program.
    pub fn signature_state(&self, id: DefId) -> (result: Option<ComputeState>)
        ensures
            result == self@.signature_state(id),
    {
        match vec_at(&self.sig_states, self.node_index(id)) {
            Some(state) => Some(*state),
            None => None,
        }
    }

    /// Whether the signature of a definition is being resolved.
    pub fn is_in_progress(&self, id: DefId) -> (result: bool)
        ensures
            result == self@.is_in_progress(id),
    {
        match self.signature_state(id) {
            Some(ComputeState::InProgress) => true,
            _ => false,
        }
    }

    /// Records a use of an associated type that a trait declares.
    pub fn record_assoc_type_access(&mut self, trait_index: usize, name: Symbol, span: SourceSpan)
        ensures
            final(self)@ == old(self)@.record_assoc_type_access(trait_index, name, span),
    {
        proof {
            reveal(State::record_assoc_type_access);
        }
        let declared = match vec_at(&self.traits, trait_index) {
            Some(declaration) => find_assoc_type(&declaration.assoc_types, name).is_some(),
            None => false,
        };
        if declared {
            self.access(AccessTarget::TraitAssocType(trait_index, name), span);
        }
    }

    /// The number of type parameters and the name of the struct or type alias
    /// that a name stands for.
    pub fn generic_arity(&self, kind: SymbolKind) -> (result: Option<(usize, Symbol)>)
        ensures
            result == self@.generic_arity(kind),
    {
        match kind {
            SymbolKind::Struct { struct_index } => match vec_at(&self.structs, struct_index) {
                Some(item) => Some((item.type_params.len(), item.name.inner)),
                None => None,
            },
            SymbolKind::TypeAlias { type_alias_index } => match vec_at(&self.type_aliases, type_alias_index) {
                Some(item) => Some((item.type_params.len(), item.name.inner)),
                None => None,
            },
            _ => None,
        }
    }

    /// Applies type arguments to a struct or a type alias. A wrong number of
    /// them is reported, and the type keeps its identity with poisoned
    /// arguments. An alias stands for its aliased type, whose type parameters
    /// are then poisoned.
    pub fn resolve_generic_type_application(
        &mut self,
        context: ResolveContext,
        kind: SymbolKind,
        args: &List<TypeIndex>,
        span: TextSpan,
        arity: TypeArgArity,
    ) -> (result: TypeIndex)
        ensures
            (final(self)@, result) == old(self)@.resolve_generic_type_application(
                context,
                kind,
                args,
                span,
                arity,
            ),
    {
        proof {
            reveal(State::resolve_generic_type_application);
        }
        let (expected, name) = match self.generic_arity(kind) {
            Some(found) => found,
            None => {
                self.report(report_type_args_not_supported(context.at(span)));
                return ty::ERROR;
            },
        };
        let found: usize = args.len();
        let mismatched = match arity {
            TypeArgArity::AllowInfer => found != expected && found != 0,
            TypeArgArity::RequireExact => found != expected,
        };
        if mismatched {
            self.report(report_type_arg_count(name, expected, found, context.at(span)));
        }
        let all_args = if mismatched {
            List::repeat(ty::ERROR, expected)
        } else {
            resize_types(args, expected)
        };
        match kind {
            SymbolKind::Struct { struct_index } => {
                self.access(AccessTarget::Struct(struct_index), context.at(span));
                let applied: TypeIndex = self.intern_type(
                    Type::Struct { struct_index, args: all_args },
                );
                applied
            },
            SymbolKind::TypeAlias { type_alias_index } => {
                self.access(AccessTarget::TypeAlias(type_alias_index), context.at(span));
                let template: TypeIndex = match vec_at(&self.type_aliases, type_alias_index) {
                    Some(alias) => alias.template,
                    None => ty::ERROR,
                };
                let applied: TypeIndex = if mismatched {
                    self.poison_type(template, MAX_DEPTH)
                } else {
                    self.substitute_type(template, &all_args, MAX_DEPTH)
                };
                applied
            },
            _ => ty::ERROR,
        }
    }

    /// The place of a trait impl's header.
    pub fn trait_impl_location(&self, impl_index: usize) -> (result: SourceSpan)
        ensures
            result == self@.trait_impl_location(impl_index),
    {
        self.item_location(ItemIndex::TraitImpl(impl_index))
    }

    /// Makes a trait impl findable by its target. A trait has at most one impl
    /// for all types of one constructor; a second one is reported and is not
    /// found.
    pub fn register_trait_impl(
        &mut self,
        target_type: TypeIndex,
        trait_index: usize,
        impl_index: usize,
    )
        ensures
            final(self)@ == old(self)@.register_trait_impl(target_type, trait_index, impl_index),
    {
        proof {
            reveal(State::register_trait_impl);
        }
        let target = match ImplTarget::from_type(target_type, &self.ty(target_type)) {
            Some(target) => target,
            None => {
                self.report(
                    report_cannot_implement(
                        self.trait_name(trait_index),
                        target_type,
                        self.trait_impl_location(impl_index),
                    ),
                );
                return ;
            },
        };
        match self.find_dispatched_impl(target, trait_index) {
            Some(existing) => {
                self.report(
                    report_duplicate_trait_impl(
                        self.trait_name(trait_index),
                        self.trait_impl_location(impl_index),
                        self.trait_impl_location(existing),
                    ),
                );
            },
            None => {
                self.add_trait_dispatch(TraitDispatch { target, trait_index, impl_index });
            },
        }
    }

    /// Makes a member of an inherent impl block findable by the block's target.
    pub fn register_inherent_member(
        &mut self,
        target_type: TypeIndex,
        name: Symbol,
        block_index: usize,
    )
        ensures
            final(self)@ == old(self)@.register_inherent_member(target_type, name, block_index),
    {
        proof {
            reveal(State::register_inherent_member);
        }
        match ImplTarget::from_type(target_type, &self.ty(target_type)) {
            Some(target) => {
                self.add_inherent_dispatch(InherentDispatch { target, name, block_index });
            },
            None => {},
        }
    }

    /// Reports each trait that the value of an associated type must implement
    /// and does not.
    pub fn check_assoc_type_traits(
        &mut self,
        traits: &List<TraitBound>,
        assoc_name: Symbol,
        concrete: TypeIndex,
        span: SourceSpan,
    )
        ensures
            final(self)@ == old(self)@.check_assoc_type_traits(
                traits,
                assoc_name,
                concrete,
                span,
            ),
        decreases traits,
    {
        match traits {
            List::Nil => {},
            List::Cons(bound, rest) => {
                if self.find_trait_impl(concrete, bound.trait_index).is_none() {
                    self.report(
                        report_assoc_type_must_implement(
                            assoc_name,
                            self.trait_name(bound.trait_index),
                            concrete,
                            span,
                        ),
                    );
                }
                self.check_assoc_type_traits(rest, assoc_name, concrete, span);
            },
        }
    }

    /// Whether a type is one of the members of a typeset.
    pub fn concrete_type_in_typeset(
        &self,
        index: TypeIndex,
        typeset_index: usize,
    ) -> (result: bool)
        ensures
            result == self@.concrete_type_in_typeset(index, typeset_index),
    {
        match vec_at(&self.typesets, typeset_index) {
            Some(typeset) => contains_type(&typeset.members, index),
            None => false,
        }
    }

    /// Checks the value of an associated type against the bounds that its trait
    /// declares for it.
    pub fn check_assoc_type_bounds(
        &mut self,
        file_id: FileId,
        trait_index: usize,
        assoc_name: Symbol,
        concrete: TypeIndex,
        error_span: TextSpan,
    )
        ensures
            final(self)@ == old(self)@.check_assoc_type_bounds(
                file_id,
                trait_index,
                assoc_name,
                concrete,
                error_span,
            ),
    {
        proof {
            reveal(State::check_assoc_type_bounds);
        }
        let bounds = match self.copy_assoc_type_bounds(trait_index, assoc_name) {
            Some(bounds) => bounds,
            None => {
                return ;
            },
        };
        let span = SourceSpan::new(file_id, error_span);
        self.check_assoc_type_traits(&bounds.traits, assoc_name, concrete, span);
        match bounds.typeset {
            Some(typeset_index) => {
                if !self.concrete_type_in_typeset(concrete, typeset_index) {
                    self.report(
                        report_assoc_type_not_in_typeset(
                            assoc_name,
                            self.typeset_name(typeset_index),
                            concrete,
                            span,
                        ),
                    );
                }
            },
            None => {},
        }
    }

    /// The first of the traits that declares an associated type of that name.
    pub fn trait_with_assoc_type(
        &self,
        traits: &List<TraitBound>,
        name: Symbol,
    ) -> (result: Option<usize>)
        ensures
            result == self@.trait_with_assoc_type(traits, name),
        decreases traits,
    {
        match traits {
            List::Nil => None,
            List::Cons(bound, rest) => match self.trait_assoc_type_bounds(bound.trait_index, name) {
                Some(_) => Some(bound.trait_index),
                None => self.trait_with_assoc_type(rest, name),
            },
        }
    }

    /// The type of an address in a memory: the memory's own, or, for a memory
    /// that is a type parameter, its associated type `Size`.
    pub fn pointer_type_for_memory(&mut self, memory: TypeIndex) -> (result: TypeIndex)
        ensures
            (final(self)@, result) == old(self)@.pointer_type_for_memory(memory),
    {
        proof {
            reveal(State::pointer_type_for_memory);
        }
        match self.ty(memory) {
            Type::Memory { kind: _, id } => match self.memory_index(id) {
                Some(index) => match vec_at(&self.memories, index) {
                    Some(item) => item.kind,
                    None => ty::ERROR,
                },
                None => ty::ERROR,
            },
            Type::TypeParam { .. } => {
                let bounds = self.type_param_bounds(memory);
                match self.trait_with_assoc_type(&bounds.traits, self.names.size) {
                    Some(trait_index) => {
                        let size: TypeIndex = self.intern_type(
                            Type::AssocTypeProjection {
                                base: memory,
                                assoc_name: self.names.size,
                                trait_index,
                            },
                        );
                        size
                    },
                    None => ty::INTEGER,
                }
            },
            _ => ty::INTEGER,
        }
    }

    /// Whether a value of a type directly contains a struct: as itself, in a
    /// field or in an element of a tuple. `visited` holds the structs on the way;
    /// `depth` is larger than the number of structs that are not on it.
    pub fn find_direct_struct_recursion(
        &self,
        index: TypeIndex,
        root: usize,
        visited: &List<usize>,
        depth: usize,
    ) -> (result: bool)
        ensures
            result == self@.find_direct_struct_recursion(index, root, visited, depth),
        decreases depth, usize::MAX + 1, 1int, List::<usize>::Nil,
    {
        self.contains_within(index, root, visited, depth, MAX_DEPTH)
    }

    fn contains_within(
        &self,
        index: TypeIndex,
        root: usize,
        visited: &List<usize>,
        depth: usize,
        nesting: usize,
    ) -> (result: bool)
        ensures
            result == self@.contains_within(index, root, visited, depth, nesting),
        decreases depth, nesting as int, 1int, List::<usize>::Nil,
    {
        match self.ty(index) {
            Type::Struct { struct_index, args: _ } => {
                if struct_index == root {
                    return true;
                }
                if contains_type(visited, struct_index) || depth == 0 {
                    return false;
                }
                match vec_at(&self.structs, struct_index) {
                    Some(item) => self.any_field_contains(
                        &item.fields,
                        root,
                        &cons(struct_index, visited.duplicate()),
                        depth - 1,
                    ),
                    None => false,
                }
            },
            Type::Tuple { elements } => {
                self.any_element_contains(&elements, root, visited, depth, nesting)
            },
            _ => false,
        }
    }

    /// Whether one of the fields directly contains a struct.
    pub fn any_field_contains(
        &self,
        fields: &List<StructField>,
        root: usize,
        visited: &List<usize>,
        depth: usize,
    ) -> (result: bool)
        ensures
            result == self@.any_field_contains(fields, root, visited, depth),
        decreases depth, usize::MAX + 2, 0int, fields,
    {
        match fields {
            List::Nil => false,
            List::Cons(field, rest) => {
                self.find_direct_struct_recursion(field.ty.inner, root, visited, depth)
                    || self.any_field_contains(rest, root, visited, depth)
            },
        }
    }

    /// Whether one of the elements of a tuple directly contains a struct.
    pub fn any_element_contains(
        &self,
        elements: &List<TypeIndex>,
        root: usize,
        visited: &List<usize>,
        depth: usize,
        nesting: usize,
    ) -> (result: bool)
        ensures
            result == self@.any_element_contains(elements, root, visited, depth, nesting),
        decreases depth, nesting as int, 0int, elements,
    {
        match elements {
            List::Nil => false,
            List::Cons(element, rest) => {
                (nesting > 0 && self.contains_within(**element, root, visited, depth, nesting - 1))
                    || self.any_element_contains(rest, root, visited, depth, nesting)
            },
        }
    }

    /// The place of the first field that directly contains a struct.
    pub fn recursive_field(
        &self,
        fields: &List<StructField>,
        root: usize,
    ) -> (result: Option<TextSpan>)
        ensures
            result == self@.recursive_field(fields, root),
        decreases fields,
    {
        match fields {
            List::Nil => None,
            List::Cons(field, rest) => {
                if self.find_direct_struct_recursion(
                    field.ty.inner,
                    root,
                    &single(root),
                    MAX_DEPTH,
                ) {
                    Some(field.ty.span)
                } else {
                    self.recursive_field(rest, root)
                }
            },
        }
    }

    /// Reports a struct that directly contains itself.
    pub fn check_struct_fields_for_direct_recursion(
        &mut self,
        struct_index: usize,
        struct_span: SourceSpan,
    )
        ensures
            final(self)@ == old(self)@.check_struct_fields_for_direct_recursion(
                struct_index,
                struct_span,
            ),
    {
        proof {
            reveal(State::check_struct_fields_for_direct_recursion);
        }
        let (name, file_id, found) = match vec_at(&self.structs, struct_index) {
            Some(item) => {
                (item.name.inner, item.file_id, self.recursive_field(&item.fields, struct_index))
            },
            None => {
                return ;
            },
        };
        match found {
            Some(field_span) => {
                self.report(
                    report_recursive_type(
                        name,
                        struct_span,
                        SourceSpan::new(file_id, field_span),
                    ),
                );
            },
            None => {},
        }
    }

    /// The value of a constant.
    pub fn constant_value(&self, id: DefId) -> (result: Option<ConstValue>)
        ensures
            result == self@.constant_value(id),
    {
        match self.const_index(id) {
            Some(index) => match vec_at(&self.constants, index) {
                Some(constant) => constant.const_value,
                None => None,
            },
            None => None,
        }
    }

    /// The value of an expression that is known when the program is compiled:
    /// literals, negation and arithmetic on integers, and other constants.
    pub fn eval_const_expr(&self, expr: &Expression) -> (result: Option<ConstValue>)
        ensures
            result == self@.eval_const_expr(expr),
        decreases expr,
    {
        match &expr.kind {
            ExprKind::Int { value } => Some(ConstValue::Int(*value)),
            ExprKind::Float { bits } => Some(ConstValue::Float(*bits)),
            ExprKind::Bool { value } => Some(ConstValue::Bool(*value)),
            ExprKind::Char { value } => Some(ConstValue::Char(*value)),
            ExprKind::Unary { operator, operand } => match self.eval_const_expr(operand) {
                Some(ConstValue::Int(value)) => match operator.inner {
                    UnaryOp::InvertSign => Some(ConstValue::Int(negated(value))),
                    UnaryOp::BitNot => Some(ConstValue::Int(!value)),
                    UnaryOp::Not => None,
                },
                _ => None,
            },
            ExprKind::Binary { operator, left, right } => match (self.eval_const_expr(left), self.eval_const_expr(right)) {
                (Some(ConstValue::Int(left)), Some(ConstValue::Int(right))) => match fold_binary(operator.inner, left, right) {
                    Some(value) => Some(ConstValue::Int(value)),
                    None => None,
                },
                _ => None,
            },
            ExprKind::Const { id } => self.constant_value(*id),
            ExprKind::NamespaceAccess { namespace: _, member } => self.eval_const_expr(member),
            _ => None,
        }
    }

    /// Reports each of the shared values.
    fn report_shared_values(&mut self, enum_name: SourceSpan, shared: &List<SharedValue>)
        ensures
            final(self)@ == old(self)@.report_shared_values(enum_name, *shared),
        decreases shared,
    {
        match shared {
            List::Nil => {},
            List::Cons(first, rest) => {
                self.report(report_enum_duplicate_value(enum_name, first.value, &first.places));
                self.report_shared_values(enum_name, rest);
            },
        }
    }

    /// Reports each value that several variants have: once, with the places of
    /// all, in the order in which the values come first in the source.
    pub fn report_enum_duplicate_values(
        &mut self,
        context: ResolveContext,
        name_span: TextSpan,
        variants: &List<EnumVariant>,
    )
        ensures
            final(self)@ == old(self)@.report_enum_duplicate_values(context, name_span, variants),
    {
        let shared = find_shared_values(context.file_id, variants, &List::Nil);
        self.report_shared_values(context.at(name_span), &shared);
    }

    /// The value that a name after `::` stands for: a member of an impl or a
    /// trait first, otherwise a variant of an enum or a function or global of a
    /// module. What is wrong is reported.
    pub fn resolve_namespace_member(
        &mut self,
        context: ResolveContext,
        namespace: Spanned<TypeIndex>,
        member: Spanned<Symbol>,
    ) -> (result: Option<ResolvedMember>)
        ensures
            (final(self)@, result) == old(self)@.resolve_namespace_member(
                context,
                namespace,
                member,
            ),
    {
        proof {
            reveal(State::resolve_namespace_member);
        }
        let lookup = self.resolve_impl_member(
            context,
            namespace.inner,
            member.inner,
            member.span,
        );
        let is_param = match self.ty(namespace.inner) {
            Type::TypeParam { .. } => true,
            _ => false,
        };
        match lookup {
            MemberLookup::Inherent { entry, type_args } => match entry_member(entry, type_args) {
                Some(found) => Some(found),
                None => self.resolve_own_member(context, namespace, member),
            },
            MemberLookup::Trait { entry, type_args, trait_index } => {
                if is_param {
                    self.record_abstract_dispatch_access(
                        trait_index,
                        member.inner,
                        context.at(member.span),
                    );
                }
                match entry_member(entry, type_args) {
                    Some(found) => Some(found),
                    None => self.resolve_own_member(context, namespace, member),
                }
            },
            MemberLookup::NotFound => self.resolve_own_member(context, namespace, member),
            MemberLookup::Ambiguous => None,
        }
    }

    /// The variant of an enum, or the function or global of a module, that a
    /// name after `::` stands for.
    pub fn resolve_own_member(
        &mut self,
        context: ResolveContext,
        namespace: Spanned<TypeIndex>,
        member: Spanned<Symbol>,
    ) -> (result: Option<ResolvedMember>)
        ensures
            (final(self)@, result) == old(self)@.resolve_own_member(context, namespace, member),
    {
        proof {
            reveal(State::resolve_own_member);
        }
        match self.ty(namespace.inner) {
            Type::Memory { .. } => {
                self.report(report_undeclared_identifier(context.at(member.span)));
                None
            },
            Type::Enum { enum_index } => {
                let found = match vec_at(&self.enums, enum_index) {
                    Some(item) => find_variant(&item.variants, member.inner, 0),
                    None => None,
                };
                match found {
                    Some(variant_index) => {
                        Some(ResolvedMember::EnumVariant { enum_index, variant_index })
                    },
                    None => {
                        self.report(report_undeclared_identifier(context.at(member.span)));
                        None
                    },
                }
            },
            Type::Namespace { namespace_idx } => {
                match self.direct_scope_lookup(
                    Some(namespace_idx),
                    SymbolNamespace::Value,
                    member.inner,
                ) {
                    Some(SymbolKind::Function { func_index }) => {
                        let total: usize = match vec_at(&self.functions, func_index) {
                            Some(function) => total_type_param_count(function),
                            None => 0,
                        };
                        Some(
                            ResolvedMember::Function {
                                func_index,
                                type_args: List::repeat(ty::INFER, total),
                            },
                        )
                    },
                    Some(SymbolKind::Global { global_index }) => {
                        Some(ResolvedMember::Global { global_index })
                    },
                    _ => {
                        self.report(report_undeclared_identifier(context.at(member.span)));
                        None
                    },
                }
            },
            _ => {
                self.report(
                    report_no_member(member.inner, namespace.inner, context.at(member.span)),
                );
                None
            },
        }
    }
}

} // verus!
