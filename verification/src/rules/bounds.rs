//! Bounds: which types implement which traits and are members of which
//! typesets, and that a type argument which does not is reported.

use vstd::prelude::*;

use crate::failures::more_is_reported;
use crate::list::List;
use crate::members;
use crate::params;
use crate::relate::MAX_DEPTH;
use crate::scope::next_index;
use crate::span::{SourceSpan, Symbol};
use crate::state::{ImplTarget, State, TraitDispatch};
use crate::substitute;
use crate::tir::{Expression, TraitAssocType, TraitBound, TypeParamInfo};
use crate::ty;
use crate::types::{Type, TypeIndex, TypeParamOwner};

verus! {

/// Whether one of the bounds names a trait.
pub open spec fn names_trait(bounds: List<TraitBound>, trait_index: usize) -> bool {
    exists|i: nat|
        (#[trigger] bounds.at(i)) matches Some(bound) && bound.trait_index == trait_index
}

/// Whether a list holds a type.
pub open spec fn holds_type(types: List<TypeIndex>, index: TypeIndex) -> bool {
    exists|i: nat| #[trigger] types.at(i) == Some(index)
}

/// The type parameters that an owner declares itself.
pub open spec fn declared_params<'ast>(s: State<'ast>, owner: TypeParamOwner) -> List<
    TypeParamInfo,
> {
    match owner {
        TypeParamOwner::ImplBlock(block) => if block < s.inherent_impls.len() {
            s.inherent_impls[block as int].type_params
        } else {
            List::Nil
        },
        TypeParamOwner::Function(id) => match s.function_index(id) {
            Some(index) => if index < s.functions.len() {
                s.functions[index as int].type_params
            } else {
                List::Nil
            },
            None => List::Nil,
        },
        TypeParamOwner::Struct(id) => match s.struct_index(id) {
            Some(index) => if index < s.structs.len() {
                s.structs[index as int].type_params
            } else {
                List::Nil
            },
            None => List::Nil,
        },
        TypeParamOwner::Trait(index) => if index < s.traits.len() {
            crate::list::single(s.traits[index as int].self_type_param)
        } else {
            List::Nil
        },
        TypeParamOwner::TraitImpl(index) => if index < s.trait_impls.len() {
            s.trait_impls[index as int].type_params
        } else {
            List::Nil
        },
        TypeParamOwner::TypeAlias(id) => match s.type_alias_index(id) {
            Some(index) => if index < s.type_aliases.len() {
                s.type_aliases[index as int].type_params
            } else {
                List::Nil
            },
            None => List::Nil,
        },
    }
}

/// The declaration of the type parameter at a position of an owner's whole
/// list: a function lists those of its impl or trait before its own.
pub open spec fn declared_param<'ast>(
    s: State<'ast>,
    owner: TypeParamOwner,
    index: usize,
) -> Option<TypeParamInfo> {
    match owner {
        TypeParamOwner::Function(id) => match s.function_index(id) {
            Some(place) => if place < s.functions.len() {
                let function = s.functions[place as int];
                let inherited = function.inherited_type_param_count;
                if index < inherited {
                    match function.type_param_parent {
                        Some(parent) => declared_params(s, parent).at(index as nat),
                        None => None,
                    }
                } else {
                    function.type_params.at((index - inherited) as nat)
                }
            } else {
                None
            },
            None => None,
        },
        _ => declared_params(s, owner).at(index as nat),
    }
}

/// A type parameter is found where its owner declares it.
pub proof fn law_type_parameter_is_where_it_is_declared<'ast>(
    s: State<'ast>,
    owner: TypeParamOwner,
    index: usize,
)
    ensures
        s.own_param(owner, index) == declared_params(s, owner).at(index as nat),
        s.type_param(owner, index) == declared_param(s, owner, index),
{
    reveal_with_fuel(List::at, 3);
    match owner {
        TypeParamOwner::Function(id) => match s.function_index(id) {
            Some(place) => {
                if place < s.functions.len() {
                    match s.functions[place as int].type_param_parent {
                        Some(parent) => {
                            assert(s.own_param(parent, index) == declared_params(s, parent).at(
                                index as nat,
                            ));
                        },
                        None => {},
                    }
                }
            },
            None => {},
        },
        _ => {},
    }
}

/// Looking for a trait among bounds finds it exactly where one names it.
pub proof fn law_bound_is_found(bounds: List<TraitBound>, trait_index: usize)
    ensures
        members::bound_by(&bounds, trait_index) <==> names_trait(bounds, trait_index),
    decreases bounds,
{
    match bounds {
        List::Nil => {},
        List::Cons(head, tail) => {
            law_bound_is_found(*tail, trait_index);
            if head.trait_index == trait_index {
                assert(bounds.at(0) == Some(*head));
            }
            if names_trait(*tail, trait_index) {
                let i = choose|i: nat|
                    (#[trigger] tail.at(i)) matches Some(bound) && bound.trait_index == trait_index;
                assert(bounds.at(i + 1) == tail.at(i));
            }
            if names_trait(bounds, trait_index) {
                let i = choose|i: nat|
                    (#[trigger] bounds.at(i)) matches Some(bound) && bound.trait_index
                        == trait_index;
                if i > 0 {
                    assert(tail.at((i - 1) as nat) == bounds.at(i));
                }
            }
        },
    }
}

/// Looking for a type in a list finds it exactly where the list holds it.
pub proof fn law_type_is_found(types: List<TypeIndex>, index: TypeIndex)
    ensures
        params::lists_type(types, index) <==> holds_type(types, index),
    decreases types,
{
    match types {
        List::Nil => {},
        List::Cons(head, tail) => {
            law_type_is_found(*tail, index);
            if *head == index {
                assert(types.at(0) == Some(index));
            }
            if holds_type(*tail, index) {
                let i = choose|i: nat| #[trigger] tail.at(i) == Some(index);
                assert(types.at(i + 1) == tail.at(i));
            }
            if holds_type(types, index) {
                let i = choose|i: nat| #[trigger] types.at(i) == Some(index);
                if i > 0 {
                    assert(tail.at((i - 1) as nat) == types.at(i));
                }
            }
        },
    }
}

/// The associated type that a name stands for is the first one of the trait
/// that has the name.
pub proof fn law_assoc_type_is_the_first_of_its_name(
    declared: List<TraitAssocType>,
    name: Symbol,
)
    ensures
        match params::assoc_type_named(declared, name) {
            Some(found) => exists|i: nat|
                {
                    &&& #[trigger] declared.at(i) == Some(found)
                    &&& found.name.inner == name
                    &&& forall|j: nat|
                        j < i ==> ((#[trigger] declared.at(j)) matches Some(other)
                            ==> other.name.inner != name)
                },
            None => forall|i: nat|
                (#[trigger] declared.at(i)) matches Some(other) ==> other.name.inner != name,
        },
    decreases declared,
{
    match declared {
        List::Nil => {},
        List::Cons(head, tail) => {
            law_assoc_type_is_the_first_of_its_name(*tail, name);
            if head.name.inner == name {
                assert(declared.at(0) == Some(*head));
            } else {
                match params::assoc_type_named(*tail, name) {
                    Some(found) => {
                        let i = choose|i: nat|
                            {
                                &&& #[trigger] tail.at(i) == Some(found)
                                &&& found.name.inner == name
                                &&& forall|j: nat|
                                    j < i ==> ((#[trigger] tail.at(j)) matches Some(other)
                                        ==> other.name.inner != name)
                            };
                        assert(declared.at(i + 1) == Some(found));
                        assert forall|j: nat| j < i + 1 implies ((#[trigger] declared.at(
                            j,
                        )) matches Some(other) ==> other.name.inner != name) by {
                            if j > 0 {
                                assert(tail.at((j - 1) as nat) == declared.at(j));
                            }
                        }
                    },
                    None => {
                        assert forall|j: nat|
                            (#[trigger] declared.at(j)) matches Some(other) implies declared.at(
                            j,
                        )->0.name.inner != name by {
                            if j > 0 {
                                assert(tail.at((j - 1) as nat) == declared.at(j));
                            }
                        }
                    },
                }
            }
        },
    }
}

// ---------------------------------------------------------------- who implements what

/// A type parameter implements a trait if and only if one of the bounds that
/// it is declared with names the trait.
pub proof fn law_parameter_implements_its_bounds<'ast>(
    s: State<'ast>,
    index: TypeIndex,
    trait_index: usize,
)
    requires
        s.ty(index) is TypeParam,
    ensures
        s.type_implements_trait(index, trait_index) <==> (declared_param(
            s,
            s.ty(index)->TypeParam_owner,
            s.ty(index)->TypeParam_param_index,
        ) matches Some(declared) && names_trait(declared.bounds.traits, trait_index)),
{
    let owner = s.ty(index)->TypeParam_owner;
    let param_index = s.ty(index)->TypeParam_param_index;
    law_type_parameter_is_where_it_is_declared(s, owner, param_index);
    law_bound_is_found(s.param_bounds(index).traits, trait_index);
}

/// An associated type implements a trait if and only if one of the bounds that
/// its trait declares for it names the trait.
pub proof fn law_associated_type_implements_its_bounds<'ast>(
    s: State<'ast>,
    index: TypeIndex,
    trait_index: usize,
)
    requires
        s.ty(index) is AssocTypeProjection,
    ensures
        ({
            let declaring = s.ty(index)->AssocTypeProjection_trait_index;
            let name = s.ty(index)->AssocTypeProjection_assoc_name;
            s.type_implements_trait(index, trait_index) <==> declaring < s.traits.len() && (
            params::assoc_type_named(s.traits[declaring as int].assoc_types, name) matches Some(
                declared,
            ) && names_trait(declared.bounds.traits, trait_index))
        }),
{
    let declaring = s.ty(index)->AssocTypeProjection_trait_index;
    let name = s.ty(index)->AssocTypeProjection_assoc_name;
    if declaring < s.traits.len() {
        match params::assoc_type_named(s.traits[declaring as int].assoc_types, name) {
            Some(declared) => {
                law_bound_is_found(declared.bounds.traits, trait_index);
            },
            None => {},
        }
    }
}

/// What impls for a type are registered under: a scalar under itself, a
/// struct, an enum or a memory under its declaration, a slice, an array or a
/// tuple under its form; nothing else can have impls.
pub proof fn law_what_can_have_impls<'ast>(s: State<'ast>, index: TypeIndex)
    ensures
        substitute::impl_target(index, s.ty(index)) == match s.ty(index) {
            Type::Struct { struct_index, args: _ } => Some(ImplTarget::Struct(struct_index)),
            Type::Enum { enum_index } => Some(ImplTarget::Enum(enum_index)),
            Type::Memory { kind: _, id } => Some(ImplTarget::Memory(id)),
            Type::Slice { .. } => Some(ImplTarget::Slice),
            Type::Array { .. } => Some(ImplTarget::Array),
            Type::Tuple { .. } => Some(ImplTarget::Tuple),
            Type::TypeParam { .. } | Type::AssocTypeProjection { .. } | Type::Pointer { .. }
            | Type::Function { .. } | Type::FunctionItem { .. } | Type::Error | Type::Infer
            | Type::Unit | Type::Never | Type::Integer | Type::Float => None,
            _ => substitute::impl_target(index, s.ty(index)),
        },
        s.ty(index) is U8 || s.ty(index) is I8 || s.ty(index) is U16 || s.ty(index) is I16 || s.ty(
            index,
        ) is U32 || s.ty(index) is I32 || s.ty(index) is U64 || s.ty(index) is I64 || s.ty(
            index,
        ) is F32 || s.ty(index) is F64 || s.ty(index) is Bool || s.ty(index) is Char
            ==> substitute::impl_target(index, s.ty(index)) == Some(ImplTarget::Primitive(index)),
{
}

/// Whether an entry registers an impl of a trait for a target.
pub open spec fn registers(entry: TraitDispatch, target: ImplTarget, trait_index: usize) -> bool {
    entry.target == target && entry.trait_index == trait_index
}

/// The impl that is found for a target is the first one that is registered for
/// it.
pub proof fn law_registered_impl_is_found(
    table: Seq<TraitDispatch>,
    target: ImplTarget,
    trait_index: usize,
    from: int,
)
    requires
        0 <= from <= table.len(),
    ensures
        match substitute::dispatched_impl(table, target, trait_index, from) {
            Some(found) => exists|i: int|
                {
                    &&& from <= i < table.len()
                    &&& registers(#[trigger] table[i], target, trait_index)
                    &&& table[i].impl_index == found
                    &&& forall|j: int|
                        from <= j < i ==> !registers(#[trigger] table[j], target, trait_index)
                },
            None => forall|i: int|
                from <= i < table.len() ==> !registers(#[trigger] table[i], target, trait_index),
        },
    decreases table.len() - from,
{
    if from < table.len() {
        if registers(table[from], target, trait_index) {
        } else {
            law_registered_impl_is_found(table, target, trait_index, from + 1);
            match substitute::dispatched_impl(table, target, trait_index, from + 1) {
                Some(found) => {
                    let i = choose|i: int|
                        {
                            &&& from + 1 <= i < table.len()
                            &&& registers(#[trigger] table[i], target, trait_index)
                            &&& table[i].impl_index == found
                            &&& forall|j: int|
                                from + 1 <= j < i ==> !registers(
                                    #[trigger] table[j],
                                    target,
                                    trait_index,
                                )
                        };
                    assert(from <= i < table.len() && registers(table[i], target, trait_index));
                },
                None => {},
            }
        }
    }
}

/// A type that is no parameter and no associated type implements a trait if
/// and only if an impl of the trait is registered for it whose target the type
/// fits.
pub proof fn law_other_type_implements_by_an_impl<'ast>(
    s: State<'ast>,
    index: TypeIndex,
    trait_index: usize,
)
    requires
        !(s.ty(index) is TypeParam),
        !(s.ty(index) is AssocTypeProjection),
    ensures
        s.type_implements_trait(index, trait_index) <==> (substitute::impl_target(
            index,
            s.ty(index),
        ) matches Some(target) && (s.find_dispatched_impl(target, trait_index) matches Some(
            found,
        ) && found < s.trait_impls.len() && s.impl_arguments(
            s.trait_impls[found as int],
            index,
        ) is Some)),
        s.type_implements_trait(index, trait_index) ==> (s.trait_impl_for(
            index,
            trait_index,
        ) matches Some((found, args)) && found < s.trait_impls.len() && s.impl_arguments(
            s.trait_impls[found as int],
            index,
        ) == Some(args)),
{
}

/// The typeset that a parameter or an associated type is one of is the one it
/// is declared with; another type is a member of those typesets that list it.
pub proof fn law_typeset_membership<'ast>(s: State<'ast>, index: TypeIndex, typeset_index: usize)
    ensures
        match s.ty(index) {
            Type::TypeParam { owner, param_index } => s.in_typeset(index, typeset_index) <==> (
            declared_param(s, owner, param_index) matches Some(declared) && declared.bounds.typeset
                == Some(typeset_index)),
            Type::AssocTypeProjection { base: _, assoc_name, trait_index } => s.in_typeset(
                index,
                typeset_index,
            ) <==> trait_index < s.traits.len() && (params::assoc_type_named(
                s.traits[trait_index as int].assoc_types,
                assoc_name,
            ) matches Some(declared) && declared.bounds.typeset == Some(typeset_index)),
            _ => s.in_typeset(index, typeset_index) <==> typeset_index < s.typesets.len()
                && holds_type(s.typesets[typeset_index as int].members, index),
        },
{
    match s.ty(index) {
        Type::TypeParam { owner, param_index } => {
            law_type_parameter_is_where_it_is_declared(s, owner, param_index);
        },
        Type::AssocTypeProjection { .. } => {},
        _ => {
            if typeset_index < s.typesets.len() {
                law_type_is_found(s.typesets[typeset_index as int].members, index);
            }
        },
    }
}

// ---------------------------------------------------------------- type arguments

/// Whether two states have everything but their types and what is reported in
/// common.
pub open spec fn same_declarations<'ast>(s: State<'ast>, later: State<'ast>) -> bool {
    later == State { types: later.types, diagnostics: later.diagnostics, ..s }
}

/// Whether two states have everything but what is reported in common.
pub open spec fn same_but_reports<'ast>(s: State<'ast>, later: State<'ast>) -> bool {
    later == State { diagnostics: later.diagnostics, ..s }
}

/// What a type implements and is a member of does not depend on what was
/// reported.
pub proof fn reports_change_no_answer<'ast>(s: State<'ast>, later: State<'ast>, index: TypeIndex)
    requires
        same_but_reports(s, later),
    ensures
        forall|trait_index: usize|
            s.type_implements_trait(index, trait_index) == #[trigger] later.type_implements_trait(
                index,
                trait_index,
            ),
        forall|typeset_index: usize|
            s.in_typeset(index, typeset_index) == #[trigger] later.in_typeset(index, typeset_index),
{
    assert forall|trait_index: usize|
        s.type_implements_trait(index, trait_index) == #[trigger] later.type_implements_trait(
            index,
            trait_index,
        ) by {
        answers_agree(s, later, index, trait_index);
    }
}

/// Reports decide neither whether a type implements a trait nor which impl is
/// found.
pub proof fn answers_agree<'ast>(
    s: State<'ast>,
    later: State<'ast>,
    index: TypeIndex,
    trait_index: usize,
)
    requires
        same_but_reports(s, later),
    ensures
        s.type_implements_trait(index, trait_index) == later.type_implements_trait(
            index,
            trait_index,
        ),
        s.trait_impl_for(index, trait_index) == later.trait_impl_for(index, trait_index),
{
    match s.trait_impls_target(index, trait_index) {
        Some(found) => {
            matches_agree(
                s,
                later,
                List::repeated(
                    ty::INFER,
                    crate::list::clamp(s.trait_impls[found as int].type_params.count()) as nat,
                ),
                s.trait_impls[found as int].target.inner,
                index,
                MAX_DEPTH,
            );
        },
        None => {},
    }
}

impl<'ast> State<'ast> {
    /// The impl that is registered for a type.
    spec fn trait_impls_target(self, index: TypeIndex, trait_index: usize) -> Option<usize> {
        match substitute::impl_target(index, self.ty(index)) {
            Some(target) => match self.find_dispatched_impl(target, trait_index) {
                Some(found) => if found < self.trait_impls.len() {
                    Some(found)
                } else {
                    None
                },
                None => None,
            },
            None => None,
        }
    }
}

proof fn matches_agree<'ast>(
    s: State<'ast>,
    t: State<'ast>,
    args: List<TypeIndex>,
    pattern: TypeIndex,
    actual: TypeIndex,
    depth: usize,
)
    requires
        s.types == t.types,
    ensures
        s.matched(args, pattern, actual, depth) == t.matched(args, pattern, actual, depth),
    decreases depth, 2nat, List::<TypeIndex>::Nil,
{
    match (s.ty(pattern), s.ty(actual)) {
        (Type::Struct { args: a, .. }, Type::Struct { args: b, .. }) => {
            list_matches_agree(s, t, args, a, b, depth);
        },
        (
            Type::Pointer { to: a, memory: a_memory, .. },
            Type::Pointer { to: b, memory: b_memory, .. },
        ) => {
            pair_matches_agree(s, t, args, a, b, a_memory, b_memory, depth);
        },
        (
            Type::Slice { of: a, memory: a_memory, .. },
            Type::Slice { of: b, memory: b_memory, .. },
        ) => {
            pair_matches_agree(s, t, args, a, b, a_memory, b_memory, depth);
        },
        (
            Type::Array { of: a, memory: a_memory, .. },
            Type::Array { of: b, memory: b_memory, .. },
        ) => {
            pair_matches_agree(s, t, args, a, b, a_memory, b_memory, depth);
        },
        (Type::Tuple { elements: a }, Type::Tuple { elements: b }) => {
            list_matches_agree(s, t, args, a, b, depth);
        },
        (Type::Function { signature: a }, Type::Function { signature: b }) => {
            list_matches_agree(s, t, args, a.params, b.params, depth);
            match s.matched_list(args, a.params, b.params, depth) {
                Some(next) => {
                    if depth > 0 {
                        matches_agree(s, t, next, a.result, b.result, (depth - 1) as usize);
                    }
                },
                None => {},
            }
        },
        _ => {},
    }
}

proof fn pair_matches_agree<'ast>(
    s: State<'ast>,
    t: State<'ast>,
    args: List<TypeIndex>,
    first: TypeIndex,
    first_actual: TypeIndex,
    second: TypeIndex,
    second_actual: TypeIndex,
    depth: usize,
)
    requires
        s.types == t.types,
    ensures
        s.matched_pair(args, first, first_actual, second, second_actual, depth) == t.matched_pair(
            args,
            first,
            first_actual,
            second,
            second_actual,
            depth,
        ),
    decreases depth, 1nat, List::<TypeIndex>::Nil,
{
    if depth > 0 {
        let inner = (depth - 1) as usize;
        matches_agree(s, t, args, first, first_actual, inner);
        match s.matched(args, first, first_actual, inner) {
            Some(next) => {
                matches_agree(s, t, next, second, second_actual, inner);
            },
            None => {},
        }
    }
}

proof fn list_matches_agree<'ast>(
    s: State<'ast>,
    t: State<'ast>,
    args: List<TypeIndex>,
    patterns: List<TypeIndex>,
    actuals: List<TypeIndex>,
    depth: usize,
)
    requires
        s.types == t.types,
    ensures
        s.matched_list(args, patterns, actuals, depth) == t.matched_list(
            args,
            patterns,
            actuals,
            depth,
        ),
    decreases depth, 0nat, patterns,
{
    match (patterns, actuals) {
        (List::Cons(pattern, rest), List::Cons(actual, actual_rest)) => {
            if depth > 0 {
                let inner = (depth - 1) as usize;
                matches_agree(s, t, args, *pattern, *actual, inner);
                match s.matched(args, *pattern, *actual, inner) {
                    Some(next) => {
                        list_matches_agree(s, t, next, *rest, *actual_rest, depth);
                    },
                    None => {},
                }
            }
        },
        _ => {},
    }
}

/// Whether a type implements every trait that bounds name.
pub open spec fn implements_all<'ast>(
    s: State<'ast>,
    index: TypeIndex,
    bounds: List<TraitBound>,
) -> bool {
    forall|trait_index: usize|
        names_trait(bounds, trait_index) ==> #[trigger] s.type_implements_trait(index, trait_index)
}

/// Reports do not decide whether a type meets bounds.
pub proof fn reports_change_no_implementation<'ast>(
    s: State<'ast>,
    t: State<'ast>,
    index: TypeIndex,
    bounds: List<TraitBound>,
)
    requires
        same_but_reports(s, t),
    ensures
        implements_all(s, index, bounds) == implements_all(t, index, bounds),
{
    reports_change_no_answer(s, t, index);
    if implements_all(s, index, bounds) {
        assert forall|trait_index: usize| names_trait(bounds, trait_index) implies #[trigger]
            t.type_implements_trait(index, trait_index) by {
            assert(s.type_implements_trait(index, trait_index));
        }
    }
    if implements_all(t, index, bounds) {
        assert forall|trait_index: usize| names_trait(bounds, trait_index) implies #[trigger]
            s.type_implements_trait(index, trait_index) by {
            assert(t.type_implements_trait(index, trait_index));
        }
    }
}

/// A type meets bounds where it meets the first and the others.
pub proof fn first_bound_and_rest<'ast>(
    s: State<'ast>,
    index: TypeIndex,
    head: TraitBound,
    tail: List<TraitBound>,
)
    ensures
        implements_all(s, index, crate::list::cons(head, tail)) <==> s.type_implements_trait(
            index,
            head.trait_index,
        ) && implements_all(s, index, tail),
{
    let bounds = crate::list::cons(head, tail);
    assert forall|trait_index: usize|
        names_trait(bounds, trait_index) <==> head.trait_index == trait_index || #[trigger]
        names_trait(tail, trait_index) by {
        law_bound_is_found(bounds, trait_index);
        law_bound_is_found(tail, trait_index);
    }
    if implements_all(s, index, bounds) {
        assert(bounds.at(0) == Some(head));
        assert(names_trait(bounds, head.trait_index));
        assert(s.type_implements_trait(index, head.trait_index));
        assert forall|trait_index: usize| names_trait(tail, trait_index) implies #[trigger]
            s.type_implements_trait(index, trait_index) by {
            assert(names_trait(bounds, trait_index));
        }
    }
    if s.type_implements_trait(index, head.trait_index) && implements_all(s, index, tail) {
        assert forall|trait_index: usize| names_trait(bounds, trait_index) implies #[trigger]
            s.type_implements_trait(index, trait_index) by {
            assert(head.trait_index == trait_index || names_trait(tail, trait_index));
        }
    }
}

/// A type argument is reported exactly where it does not implement a trait
/// that a bound names.
pub proof fn law_unmet_bound_is_reported<'ast>(
    s: State<'ast>,
    func_index: usize,
    bounds: List<TraitBound>,
    argument: TypeIndex,
    at: SourceSpan,
)
    ensures
        ({
            let t = s.check_trait_bounds(func_index, &bounds, argument, at);
            &&& same_but_reports(s, t)
            &&& implements_all(s, argument, bounds) ==> t == s
            &&& !implements_all(s, argument, bounds) ==> more_is_reported(s, t)
            &&& s.diagnostics.len() <= t.diagnostics.len()
        }),
    decreases bounds,
{
    reveal(State::report);
    match bounds {
        List::Nil => {
            assert forall|trait_index: usize| names_trait(bounds, trait_index) implies #[trigger]
                s.type_implements_trait(argument, trait_index) by {
                law_bound_is_found(bounds, trait_index);
            }
        },
        List::Cons(head, tail) => {
            first_bound_and_rest(s, argument, *head, *tail);
            assert(bounds == crate::list::cons(*head, *tail));
            let (name, file, _) = s.function_identity(func_index);
            let between = if !s.type_implements_trait(argument, head.trait_index) {
                s.report(
                    crate::reports::report_trait_bound_violation(
                        argument,
                        s.trait_name(head.trait_index),
                        at,
                        SourceSpan::new(file, head.span),
                        name,
                    ),
                )
            } else {
                s
            };
            reports_change_no_answer(s, between, argument);
            law_unmet_bound_is_reported(between, func_index, *tail, argument, at);
            reports_change_no_implementation(s, between, argument, *tail);
        },
    }
}

/// A type argument is reported exactly where its parameter is bound to a
/// typeset of which it is no member.
pub proof fn law_unmet_typeset_is_reported<'ast>(
    s: State<'ast>,
    typeset: Option<usize>,
    name: Symbol,
    argument: TypeIndex,
    at: SourceSpan,
)
    ensures
        ({
            let t = s.check_typeset_bound(typeset, name, argument, at);
            &&& same_but_reports(s, t)
            &&& (typeset matches Some(index) ==> s.in_typeset(argument, index)) ==> t == s
            &&& !(typeset matches Some(index) ==> s.in_typeset(argument, index))
                ==> more_is_reported(s, t)
            &&& s.diagnostics.len() <= t.diagnostics.len()
        }),
{
    reveal(State::check_typeset_bound);
    reveal(State::report);
}

/// Whether a type meets the bounds of the type parameter at a position of a
/// function's whole list.
pub open spec fn meets_declared_bounds<'ast>(
    s: State<'ast>,
    func_index: usize,
    index: usize,
    argument: TypeIndex,
) -> bool {
    func_index < s.functions.len() ==> (declared_param(
        s,
        TypeParamOwner::Function(s.functions[func_index as int].id),
        index,
    ) matches Some(declared) ==> {
        &&& implements_all(s, argument, declared.bounds.traits)
        &&& declared.bounds.typeset matches Some(typeset) ==> s.in_typeset(argument, typeset)
    })
}

/// Whether every type argument that is not poisoned meets the bounds of its
/// parameter, the parameters counted from a position on.
pub open spec fn all_meet_bounds<'ast>(
    s: State<'ast>,
    func_index: usize,
    type_args: List<TypeIndex>,
    index: usize,
) -> bool
    decreases type_args,
{
    match type_args {
        List::Nil => true,
        List::Cons(argument, rest) => {
            &&& *argument == ty::ERROR || meets_declared_bounds(s, func_index, index, *argument)
            &&& all_meet_bounds(s, func_index, *rest, next_index(index))
        },
    }
}

proof fn reports_change_no_bounds<'ast>(
    s: State<'ast>,
    t: State<'ast>,
    func_index: usize,
    type_args: List<TypeIndex>,
    index: usize,
)
    requires
        same_but_reports(s, t),
    ensures
        all_meet_bounds(s, func_index, type_args, index) == all_meet_bounds(
            t,
            func_index,
            type_args,
            index,
        ),
    decreases type_args,
{
    match type_args {
        List::Nil => {},
        List::Cons(argument, rest) => {
            reports_change_no_answer(s, t, *argument);
            if func_index < s.functions.len() {
                let owner = TypeParamOwner::Function(s.functions[func_index as int].id);
                assert(declared_param(s, owner, index) == declared_param(t, owner, index));
                match declared_param(s, owner, index) {
                    Some(declared) => {
                        reports_change_no_implementation(
                            s,
                            t,
                            *argument,
                            declared.bounds.traits,
                        );
                    },
                    None => {},
                }
            }
            reports_change_no_bounds(s, t, func_index, *rest, next_index(index));
        },
    }
}

/// The type arguments of a call are reported exactly where one that is not
/// poisoned does not meet the bounds that its parameter is declared with.
pub proof fn law_unmet_bounds_of_a_call_are_reported<'ast>(
    s: State<'ast>,
    func_index: usize,
    type_args: List<TypeIndex>,
    index: usize,
    params: List<TypeIndex>,
    arguments: List<Expression>,
    call: SourceSpan,
)
    requires
        func_index < s.functions.len(),
    ensures
        ({
            let t = s.check_type_arg_bounds(
                func_index,
                &type_args,
                index,
                &params,
                &arguments,
                call,
            );
            &&& same_but_reports(s, t)
            &&& all_meet_bounds(s, func_index, type_args, index) ==> t == s
            &&& !all_meet_bounds(s, func_index, type_args, index) ==> more_is_reported(s, t)
            &&& s.diagnostics.len() <= t.diagnostics.len()
        }),
    decreases type_args,
{
    match type_args {
        List::Nil => {},
        List::Cons(argument, rest) => {
            let (_, _, id) = s.function_identity(func_index);
            law_type_parameter_is_where_it_is_declared(s, TypeParamOwner::Function(id), index);
            let (bounds, name) = s.function_type_param_bounds(id, index);
            let span = s.argument_span_for(&params, &arguments, index, call.span);
            let at = SourceSpan::new(call.file_id, span);
            law_unmet_bound_is_reported(s, func_index, bounds.traits, *argument, at);
            let checked = s.check_trait_bounds(func_index, &bounds.traits, *argument, at);
            law_unmet_typeset_is_reported(checked, bounds.typeset, name, *argument, call);
            reports_change_no_answer(s, checked, *argument);
            no_bounds_are_met(s, *argument);
            let between = if *argument != ty::ERROR {
                checked.check_typeset_bound(bounds.typeset, name, *argument, call)
            } else {
                s
            };
            reports_change_no_bounds(s, between, func_index, *rest, next_index(index));
            law_unmet_bounds_of_a_call_are_reported(
                between,
                func_index,
                *rest,
                next_index(index),
                params,
                arguments,
                call,
            );
        },
    }
}

proof fn no_bounds_are_met<'ast>(s: State<'ast>, index: TypeIndex)
    ensures
        implements_all(s, index, List::Nil),
{
    assert forall|trait_index: usize| names_trait(List::Nil, trait_index) implies #[trigger]
        s.type_implements_trait(index, trait_index) by {
        law_bound_is_found(List::Nil, trait_index);
    }
}

} // verus!
