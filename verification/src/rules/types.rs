//! Types as they are written: which type each form stands for, what a name
//! means as a type, and what is reported.

use vstd::prelude::*;

use crate::ast::{Param, TypeExpression};
use crate::failures::more_is_reported;
use crate::growth;
use crate::laws;
use crate::list::List;
use crate::lookup;
use crate::lookup::TypeArgArity;
use crate::relate::MAX_DEPTH;
use crate::resolve;
use crate::resolve::BoundKind;
use crate::rules::bounds::same_but_reports;
use crate::span::{DefId, SourceSpan, Spanned, Symbol, TextSpan};
use crate::state::State;
use crate::substitute;
use crate::tir::{
    AccessTarget, Bounds, FunctionParam, GenericScope, ResolveContext, SymbolKind, TraitBound,
};
use crate::ty;
use crate::types::{FunctionSignature, Type, TypeIndex};

verus! {

proof fn reads_back<'ast>(s: State<'ast>, found: Type)
    ensures
        ({
            let (t, index) = s.intern(found);
            &&& t.types.len() < usize::MAX ==> t.ty(index) == found
            &&& t.diagnostics == s.diagnostics
        }),
{
    reveal(State::intern);
    if s.types.len() < usize::MAX {
        laws::law_interned_type_reads_back(s, found);
    }
}

// ---------------------------------------------------------------- written types

/// A pointer, slice or array type is written with what it points at or holds,
/// and gives the right to write exactly where `mut` is written. It is in the
/// only memory of the program; where there is no such memory it is poisoned.
pub proof fn law_written_pointers<'ast>(
    s: State<'ast>,
    context: ResolveContext,
    scope: Option<GenericScope>,
    written: Spanned<TypeExpression>,
    pending: spec_fn(State<'ast>, DefId) -> State<'ast>,
)
    ensures
        ({
            let (t, index) = s.resolve_type(context, scope, &written, pending);
            let at = context.at(written.span);
            match written.inner {
                TypeExpression::Pointer { mutability, inner } => {
                    let (u, to) = s.resolve_type(context, scope, &*inner, pending);
                    match u.resolve_ambient_memory(at, pending).1 {
                        Some(memory) => t.types.len() < usize::MAX ==> t.ty(index)
                            == (Type::Pointer { to, memory, mutable: mutability is Some }),
                        None => index == ty::ERROR,
                    }
                },
                TypeExpression::Slice { mutability, inner } => {
                    let (u, of) = s.resolve_type(context, scope, &*inner, pending);
                    match u.resolve_ambient_memory(at, pending).1 {
                        Some(memory) => t.types.len() < usize::MAX ==> t.ty(index)
                            == (Type::Slice { of, memory, mutable: mutability is Some }),
                        None => index == ty::ERROR,
                    }
                },
                TypeExpression::Array { size, mutability, inner } => {
                    let (u, of) = s.resolve_type(context, scope, &*inner, pending);
                    match u.resolve_ambient_memory(at, pending).1 {
                        Some(memory) => t.types.len() < usize::MAX ==> t.ty(index)
                            == (Type::Array { of, size, memory, mutable: mutability is Some }),
                        None => index == ty::ERROR,
                    }
                },
                _ => true,
            }
        }),
{
    reveal_with_fuel(State::resolve_type, 2);
    let at = context.at(written.span);
    match written.inner {
        TypeExpression::Pointer { mutability, inner } => {
            let (u, to) = s.resolve_type(context, scope, &*inner, pending);
            match u.resolve_ambient_memory(at, pending) {
                (v, Some(memory)) => {
                    reads_back(v, Type::Pointer { to, memory, mutable: mutability is Some });
                },
                _ => {},
            }
        },
        TypeExpression::Slice { mutability, inner } => {
            let (u, of) = s.resolve_type(context, scope, &*inner, pending);
            match u.resolve_ambient_memory(at, pending) {
                (v, Some(memory)) => {
                    reads_back(v, Type::Slice { of, memory, mutable: mutability is Some });
                },
                _ => {},
            }
        },
        TypeExpression::Array { size, mutability, inner } => {
            let (u, of) = s.resolve_type(context, scope, &*inner, pending);
            match u.resolve_ambient_memory(at, pending) {
                (v, Some(memory)) => {
                    reads_back(v, Type::Array { of, size, memory, mutable: mutability is Some });
                },
                _ => {},
            }
        },
        _ => {},
    }
}

/// `_` is left to inference and `()` is the unit type. A tuple type has the
/// types of its parts in order, and a function type its parameters and its
/// result, which is `()` where none is written.
pub proof fn law_written_types<'ast>(
    s: State<'ast>,
    context: ResolveContext,
    scope: Option<GenericScope>,
    written: Spanned<TypeExpression>,
    pending: spec_fn(State<'ast>, DefId) -> State<'ast>,
)
    ensures
        ({
            let (t, index) = s.resolve_type(context, scope, &written, pending);
            match written.inner {
                TypeExpression::Infer => t == s && index == ty::INFER,
                TypeExpression::Tuple { elements } => if elements is Nil {
                    t == s && index == ty::UNIT
                } else {
                    t.types.len() < usize::MAX ==> t.ty(index) == (Type::Tuple {
                        elements: s.resolve_types(context, scope, &elements, pending).1,
                    })
                },
                TypeExpression::Function { params, result } => t.types.len() < usize::MAX ==> (
                t.ty(index) matches Type::Function { signature } && signature.params.count()
                    == params.count() && (result is None ==> signature.result == ty::UNIT) && (
                result matches Some(given) ==> signature.result == s.resolve_type(
                    context,
                    scope,
                    &*given,
                    pending,
                ).1)),
                _ => true,
            }
        }),
{
    reveal_with_fuel(State::resolve_type, 2);
    match written.inner {
        TypeExpression::Tuple { elements } => {
            let (u, all) = s.resolve_types(context, scope, &elements, pending);
            reads_back(u, Type::Tuple { elements: all });
        },
        TypeExpression::Function { params, result } => {
            let (u, given) = match result {
                Some(given) => s.resolve_type(context, scope, &*given, pending),
                None => (s, ty::UNIT),
            };
            let (v, all) = u.resolve_types(context, scope, &params, pending);
            every_type_is_resolved(u, context, scope, params, pending);
            reads_back(
                v,
                Type::Function { signature: FunctionSignature { params: all, result: given } },
            );
        },
        _ => {},
    }
}

proof fn every_type_is_resolved<'ast>(
    s: State<'ast>,
    context: ResolveContext,
    scope: Option<GenericScope>,
    types: List<Spanned<TypeExpression>>,
    pending: spec_fn(State<'ast>, DefId) -> State<'ast>,
)
    ensures
        s.resolve_types(context, scope, &types, pending).1.count() == types.count(),
    decreases types,
{
    match types {
        List::Nil => {},
        List::Cons(first, rest) => {
            let (t, _) = s.resolve_type(context, scope, &*first, pending);
            every_type_is_resolved(t, context, scope, *rest, pending);
        },
    }
}

/// Several types are resolved one after the other: the first of them first,
/// and the others after it.
pub proof fn law_types_in_order<'ast>(
    s: State<'ast>,
    context: ResolveContext,
    scope: Option<GenericScope>,
    first: Spanned<TypeExpression>,
    rest: List<Spanned<TypeExpression>>,
    pending: spec_fn(State<'ast>, DefId) -> State<'ast>,
)
    ensures
        ({
            let (t, all) = s.resolve_types(
                context,
                scope,
                &crate::list::cons(first, rest),
                pending,
            );
            &&& all.at(0) == Some(s.resolve_type(context, scope, &first, pending).1)
            &&& all.count() == 1 + rest.count()
        }),
{
    every_type_is_resolved(s, context, scope, crate::list::cons(first, rest), pending);
}

/// A type behind the name of a memory is a pointer, slice or array in that
/// memory; anything else there is reported.
pub proof fn law_type_in_a_named_memory<'ast>(
    s: State<'ast>,
    context: ResolveContext,
    scope: Option<GenericScope>,
    memory: TypeIndex,
    written: Spanned<TypeExpression>,
    pending: spec_fn(State<'ast>, DefId) -> State<'ast>,
)
    ensures
        ({
            let (t, index) = s.resolve_tagged_type(context, scope, memory, &written, pending);
            match written.inner {
                TypeExpression::Pointer { mutability, inner } => t.types.len() < usize::MAX
                    ==> t.ty(index) == (Type::Pointer {
                    to: s.resolve_type(context, scope, &*inner, pending).1,
                    memory,
                    mutable: mutability is Some,
                }),
                TypeExpression::Slice { mutability, inner } => t.types.len() < usize::MAX ==> t.ty(
                    index,
                ) == (Type::Slice {
                    of: s.resolve_type(context, scope, &*inner, pending).1,
                    memory,
                    mutable: mutability is Some,
                }),
                TypeExpression::Array { size, mutability, inner } => t.types.len() < usize::MAX
                    ==> t.ty(index) == (Type::Array {
                    of: s.resolve_type(context, scope, &*inner, pending).1,
                    size,
                    memory,
                    mutable: mutability is Some,
                }),
                _ => index == ty::ERROR && more_is_reported(s, t),
            }
        }),
{
    reveal(State::report);
    match written.inner {
        TypeExpression::Pointer { mutability, inner } => {
            let (u, to) = s.resolve_type(context, scope, &*inner, pending);
            reads_back(u, Type::Pointer { to, memory, mutable: mutability is Some });
        },
        TypeExpression::Slice { mutability, inner } => {
            let (u, of) = s.resolve_type(context, scope, &*inner, pending);
            reads_back(u, Type::Slice { of, memory, mutable: mutability is Some });
        },
        TypeExpression::Array { size, mutability, inner } => {
            let (u, of) = s.resolve_type(context, scope, &*inner, pending);
            reads_back(u, Type::Array { of, size, memory, mutable: mutability is Some });
        },
        _ => {},
    }
}

/// A type that leaves a part to inference is reported in a signature.
pub proof fn law_signatures_are_complete<'ast>(
    s: State<'ast>,
    context: ResolveContext,
    scope: Option<GenericScope>,
    written: Spanned<TypeExpression>,
    pending: spec_fn(State<'ast>, DefId) -> State<'ast>,
)
    ensures
        ({
            let (u, index) = s.resolve_type(context, scope, &written, pending);
            let (t, found) = s.resolve_signature_type(context, scope, &written, pending);
            &&& found == index
            &&& u.has_infer(index) ==> more_is_reported(u, t)
            &&& !u.has_infer(index) ==> t == u
        }),
{
    reveal(State::report);
}

// ---------------------------------------------------------------- names of types

/// A name in a type stands for a built-in type before anything else, then for
/// a type parameter in scope, then, if it is `Self`, for the type of the impl.
pub proof fn law_what_a_name_stands_for_first<'ast>(
    s: State<'ast>,
    context: ResolveContext,
    scope: Option<GenericScope>,
    name: Spanned<Symbol>,
    arity: TypeArgArity,
    pending: spec_fn(State<'ast>, DefId) -> State<'ast>,
)
    ensures
        ({
            let (t, found) = s.resolve_type_identifier(context, scope, name, arity, pending);
            match s.primitive_type(name.inner) {
                Some(built_in) => t == s && found == Some(built_in),
                None => scope matches Some(inside) ==> match s.scoped_param(
                    inside.owner,
                    name.inner,
                ) {
                    Some((owner, param_index)) => found is Some && (t.types.len() < usize::MAX
                        ==> t.ty(found->0) == (Type::TypeParam { owner, param_index })),
                    None => name.inner == s.names.self_type && inside.self_type is Some ==> found
                        == inside.self_type,
                },
            }
        }),
{
    reveal(State::resolve_scoped_param);
    reveal(State::access);
    match scope {
        Some(inside) => {
            match s.scoped_param(inside.owner, name.inner) {
                Some((owner, param_index)) => {
                    let used = s.type_param_access(owner, param_index, context.at(name.span));
                    reads_back(used, Type::TypeParam { owner, param_index });
                },
                None => {},
            }
        },
        None => {},
    }
}

/// A trait, a typeset and an associated type on its own are no types, and
/// neither is a name that stands for nothing: all of them are reported.
pub proof fn law_what_is_no_type<'ast>(
    s: State<'ast>,
    context: ResolveContext,
    kind: Option<SymbolKind>,
    name: Spanned<Symbol>,
    arity: TypeArgArity,
)
    requires
        kind is None || kind->0 is Trait || kind->0 is TypeSet || kind->0 is TraitAssocType
            || kind->0 is Pending,
    ensures
        ({
            let (t, found) = s.type_of_symbol(context, kind, name, arity);
            found is None && more_is_reported(s, t)
        }),
{
    reveal(State::type_of_symbol);
    reveal(State::report);
    reveal(State::access);
}

/// An enum, a module and a memory are types of their own, and their use is
/// recorded without a report.
pub proof fn law_types_of_plain_names<'ast>(s: State<'ast>, kind: SymbolKind, span: SourceSpan)
    requires
        s.types.len() < usize::MAX,
    ensures
        ({
            let (t, found) = s.plain_type_of_symbol(kind, span);
            match kind {
                SymbolKind::Enum { enum_index } => (found matches Some(index) && t.ty(index)
                    == (Type::Enum { enum_index })) && t.diagnostics == s.diagnostics,
                SymbolKind::Module { namespace_idx } => (found matches Some(index) && t.ty(index)
                    == (Type::Namespace { namespace_idx })) && t.diagnostics == s.diagnostics,
                SymbolKind::Struct { struct_index } => (found matches Some(index) && t.ty(index)
                    == (Type::Struct { struct_index, args: List::Nil })) && t.diagnostics
                    == s.diagnostics,
                SymbolKind::Memory { memory_index, kind: of } => memory_index < s.memories.len()
                    ==> (found matches Some(index) && t.ty(index) == (Type::Memory {
                    kind: of,
                    id: s.memories[memory_index as int].id,
                })) && t.diagnostics == s.diagnostics,
                SymbolKind::Trait { .. } | SymbolKind::TypeSet { .. }
                | SymbolKind::TraitAssocType { .. } | SymbolKind::Pending(_) => found is None
                    && more_is_reported(s, t),
                _ => true,
            }
        }),
{
    reveal(State::report);
    reveal(State::access);
    let used = s.type_kind_access(kind, span);
    match kind {
        SymbolKind::Enum { enum_index } => {
            laws::law_interned_type_reads_back(used, Type::Enum { enum_index });
            reads_back(used, Type::Enum { enum_index });
        },
        SymbolKind::Module { namespace_idx } => {
            laws::law_interned_type_reads_back(used, Type::Namespace { namespace_idx });
            reads_back(used, Type::Namespace { namespace_idx });
        },
        SymbolKind::Struct { struct_index } => {
            let found = Type::Struct { struct_index, args: List::Nil };
            laws::law_interned_type_reads_back(used, found);
            reads_back(used, found);
        },
        SymbolKind::Memory { memory_index, kind: of } => {
            if memory_index < s.memories.len() {
                let found = Type::Memory { kind: of, id: s.memories[memory_index as int].id };
                laws::law_interned_type_reads_back(used, found);
                reads_back(used, found);
            }
        },
        _ => {},
    }
}

/// A struct with as many type arguments as it has parameters is the struct
/// with those arguments, and nothing is reported. What takes no type arguments
/// is reported.
pub proof fn law_applied_struct<'ast>(
    s: State<'ast>,
    context: ResolveContext,
    kind: SymbolKind,
    args: List<TypeIndex>,
    span: TextSpan,
    arity: TypeArgArity,
)
    requires
        s.types.len() < usize::MAX,
    ensures
        ({
            let (t, index) = s.resolve_generic_type_application(
                context,
                kind,
                &args,
                span,
                arity,
            );
            match kind {
                SymbolKind::Struct { struct_index } => struct_index < s.structs.len()
                    && args.count() == s.structs[struct_index as int].type_params.count()
                    && args.count() <= usize::MAX ==> t.diagnostics == s.diagnostics && t.ty(index)
                    == (Type::Struct { struct_index, args }),
                SymbolKind::TypeAlias { .. } => true,
                _ => index == ty::ERROR && more_is_reported(s, t),
            }
        }),
{
    reveal(State::resolve_generic_type_application);
    reveal(State::report);
    reveal(State::access);
    match kind {
        SymbolKind::Struct { struct_index } => {
            if struct_index < s.structs.len() && args.count() == s.structs[
                struct_index as int
            ].type_params.count() && args.count() <= usize::MAX {
                full_list_stays(args, args.count() as usize);
                let used = s.access(AccessTarget::Struct(struct_index), context.at(span));
                laws::law_interned_type_reads_back(used, Type::Struct { struct_index, args });
                reads_back(used, Type::Struct { struct_index, args });
            }
        },
        _ => {},
    }
}

proof fn full_list_stays(types: List<TypeIndex>, total: usize)
    requires
        types.count() == total,
    ensures
        crate::members::resized_types(&types, total) == types,
    decreases types,
{
    match types {
        List::Nil => {},
        List::Cons(_, rest) => {
            full_list_stays(*rest, (total - 1) as usize);
        },
    }
}

/// An alias with as many type arguments as it has parameters is the aliased
/// type with the arguments in the places of the parameters.
pub proof fn law_applied_alias<'ast>(
    s: State<'ast>,
    context: ResolveContext,
    alias: usize,
    args: List<TypeIndex>,
    span: TextSpan,
    arity: TypeArgArity,
)
    requires
        alias < s.type_aliases.len(),
        args.count() == s.type_aliases[alias as int].type_params.count(),
        args.count() <= usize::MAX,
    ensures
        s.resolve_generic_type_application(
            context,
            SymbolKind::TypeAlias { type_alias_index: alias },
            &args,
            span,
            arity,
        ) == s.access(AccessTarget::TypeAlias(alias), context.at(span)).substituted(
            s.type_aliases[alias as int].template,
            args,
            MAX_DEPTH,
        ),
{
    reveal(State::resolve_generic_type_application);
    reveal(State::access);
    full_list_stays(args, args.count() as usize);
}

// ---------------------------------------------------------------- bounds

/// A bound is a trait or a typeset; anything else is reported.
pub proof fn law_what_is_a_bound<'ast>(
    s: State<'ast>,
    kind: Option<SymbolKind>,
    name_span: SourceSpan,
    span: SourceSpan,
)
    ensures
        ({
            let (t, found) = s.bound_of_symbol(kind, name_span, span);
            match kind {
                Some(SymbolKind::Trait { trait_index }) => found == Some(
                    BoundKind::Trait(trait_index),
                ) && t.diagnostics == s.diagnostics,
                Some(SymbolKind::TypeSet { typeset_index }) => found == Some(
                    BoundKind::TypeSet(typeset_index),
                ) && t.diagnostics == s.diagnostics,
                _ => found is None && more_is_reported(s, t),
            }
        }),
{
    reveal(State::bound_of_symbol);
    reveal(State::report);
    reveal(State::access);
}

/// Bounds that are joined ask for the traits of both, those of the first
/// before those of the second, and for the typeset of the first that has one.
pub proof fn law_joined_bounds(first: Bounds, second: Bounds)
    ensures
        ({
            let both = resolve::joined_bounds(first, second);
            &&& forall|i: nat|
                i < first.traits.count() ==> #[trigger] both.traits.at(i) == first.traits.at(i)
            &&& forall|i: nat|
                i >= first.traits.count() ==> #[trigger] both.traits.at(i) == second.traits.at(
                    (i - first.traits.count()) as nat,
                )
            &&& first.typeset is Some ==> both.typeset == first.typeset
            &&& first.typeset is None ==> both.typeset == second.typeset
        }),
{
    joined_in_order(first.traits, second.traits);
}

proof fn joined_in_order(first: List<TraitBound>, second: List<TraitBound>)
    ensures
        forall|i: nat|
            i < first.count() ==> #[trigger] lookup::joined_traits(first, second).at(i)
                == first.at(i),
        forall|i: nat|
            i >= first.count() ==> #[trigger] lookup::joined_traits(first, second).at(i)
                == second.at((i - first.count()) as nat),
    decreases first,
{
    match first {
        List::Nil => {},
        List::Cons(head, rest) => {
            joined_in_order(*rest, second);
            let all = lookup::joined_traits(first, second);
            let tail = lookup::joined_traits(*rest, second);
            assert forall|i: nat| i < first.count() implies #[trigger] all.at(i) == first.at(i) by {
                if i > 0 {
                    assert(all.at(i) == tail.at((i - 1) as nat));
                    assert(first.at(i) == rest.at((i - 1) as nat));
                }
            }
            assert forall|i: nat| i >= first.count() implies #[trigger] all.at(i) == second.at(
                (i - first.count()) as nat,
            ) by {
                assert(all.at(i) == tail.at((i - 1) as nat));
            }
        },
    }
}

/// The value of an associated type that lacks an impl of one of the traits
/// that it must implement is reported, and one that has them all is not.
pub proof fn law_value_of_an_associated_type<'ast>(
    s: State<'ast>,
    traits: List<TraitBound>,
    assoc_name: Symbol,
    concrete: TypeIndex,
    span: SourceSpan,
)
    ensures
        ({
            let t = s.check_assoc_type_traits(&traits, assoc_name, concrete, span);
            let lacking = exists|i: nat|
                (#[trigger] traits.at(i)) matches Some(bound) && s.trait_impl_for(
                    concrete,
                    bound.trait_index,
                ) is None;
            &&& !lacking ==> t == s
            &&& lacking ==> more_is_reported(s, t)
            &&& s.diagnostics.len() <= t.diagnostics.len()
        }),
    decreases traits,
{
    reveal(State::report);
    match traits {
        List::Nil => {},
        List::Cons(head, rest) => {
            assert(traits.at(0) == Some(*head));
            assert forall|i: nat| #[trigger] rest.at(i) == traits.at(i + 1) by {}
            let lacks_first = s.trait_impl_for(concrete, head.trait_index) is None;
            let t = if lacks_first {
                s.report(
                    crate::reports::report_assoc_type_must_implement(
                        assoc_name,
                        s.trait_name(head.trait_index),
                        concrete,
                        span,
                    ),
                )
            } else {
                s
            };
            law_value_of_an_associated_type(t, *rest, assoc_name, concrete, span);
            if !lacks_first {
                if exists|i: nat|
                    (#[trigger] traits.at(i)) matches Some(bound) && s.trait_impl_for(
                        concrete,
                        bound.trait_index,
                    ) is None {
                    let i = choose|i: nat|
                        (#[trigger] traits.at(i)) matches Some(bound) && s.trait_impl_for(
                            concrete,
                            bound.trait_index,
                        ) is None;
                    assert(rest.at((i - 1) as nat) == traits.at(i));
                } else {
                    assert forall|i: nat| (#[trigger] rest.at(i)) is Some implies s.trait_impl_for(
                        concrete,
                        rest.at(i)->0.trait_index,
                    ) is Some by {
                        assert(rest.at(i) == traits.at(i + 1));
                    }
                }
            }
        },
    }
}

// ---------------------------------------------------------------- parameters

/// A receiver is written as `Self` or as a pointer to it; anything else is
/// reported.
pub proof fn law_type_of_a_receiver<'ast>(
    s: State<'ast>,
    self_type: Option<TypeIndex>,
    index: TypeIndex,
    span: SourceSpan,
)
    ensures
        ({
            let t = s.check_receiver_type(self_type, index, span);
            let right = self_type matches Some(own) ==> index == own || (s.ty(
                index,
            ) matches Type::Pointer { to, memory: _, mutable: _ } && to == own);
            &&& right ==> t == s
            &&& !right ==> more_is_reported(s, t)
        }),
{
    reveal(State::check_receiver_type);
    reveal(State::report);
}

/// The receiver of a method may be left without a type: it has the type
/// `Self`. Another parameter without one is poisoned.
pub proof fn law_parameter_without_a_type<'ast>(
    s: State<'ast>,
    context: ResolveContext,
    scope: Option<GenericScope>,
    param: Param,
    pending: spec_fn(State<'ast>, DefId) -> State<'ast>,
)
    requires
        param.ty is None,
    ensures
        ({
            let (t, found) = s.resolve_param_type(context, scope, &param, pending);
            &&& t == s
            &&& (scope matches Some(inside) && inside.self_type is Some && param.name.inner
                == s.names.self_value) ==> found.inner == scope->0.self_type->0
            &&& !(scope matches Some(inside) && inside.self_type is Some && param.name.inner
                == s.names.self_value) ==> found.inner == ty::ERROR
        }),
{
}

proof fn named_parameter(params: List<FunctionParam>, name: Symbol)
    ensures
        resolve::named_param_span(&params, name) is Some <==> (exists|i: nat|
            (#[trigger] params.at(i)) matches Some(param) && param.name.inner == name),
    decreases params,
{
    match params {
        List::Nil => {},
        List::Cons(head, rest) => {
            named_parameter(*rest, name);
            assert(params.at(0) == Some(*head));
            if resolve::named_param_span(&*rest, name) is Some {
                let i = choose|i: nat|
                    (#[trigger] rest.at(i)) matches Some(param) && param.name.inner == name;
                assert(params.at(i + 1) == rest.at(i));
            }
            if head.name.inner != name && exists|i: nat|
                (#[trigger] params.at(i)) matches Some(param) && param.name.inner == name {
                let i = choose|i: nat|
                    (#[trigger] params.at(i)) matches Some(param) && param.name.inner == name;
                assert(rest.at((i - 1) as nat) == params.at(i));
            }
        },
    }
}

/// A parameter that has the name of an earlier one is reported.
pub proof fn law_second_parameter_of_a_name_is_reported<'ast>(
    s: State<'ast>,
    context: ResolveContext,
    scope: Option<GenericScope>,
    param: Param,
    rest: List<Param>,
    resolved: List<FunctionParam>,
    pending: spec_fn(State<'ast>, DefId) -> State<'ast>,
)
    requires
        growth::resolver_adds(pending),
        exists|i: nat|
            (#[trigger] resolved.at(i)) matches Some(earlier) && earlier.name.inner
                == param.name.inner,
    ensures
        more_is_reported(
            s,
            s.resolve_params(
                context,
                scope,
                &crate::list::cons(param, rest),
                resolved,
                pending,
            ).0,
        ),
{
    broadcast use growth::group_finishing;

    named_parameter(resolved, param.name.inner);
    let first = resolve::named_param_span(&resolved, param.name.inner)->0;
    let t = s.report(
        crate::reports::report_duplicate_parameter(
            param.name.inner,
            context.at(first),
            context.at(param.name.span),
        ),
    );
    t.adds_resolve_param_type(context, scope, &param, pending);
    let (u, found) = t.resolve_param_type(context, scope, &param, pending);
    let next = FunctionParam { mut_span: param.mut_span, name: param.name, ty: found };
    u.adds_resolve_params(context, scope, &rest, resolved.push(next), pending);
    reveal(State::report);
    reveal(State::only_adds);
    reveal(State::grows_to);
}

// ---------------------------------------------------------------- parts of types

/// Putting arguments into a pointer, slice or array type puts them into its
/// parts and keeps its form.
pub proof fn law_arguments_go_into_the_parts<'ast>(
    s: State<'ast>,
    index: TypeIndex,
    args: List<TypeIndex>,
    depth: usize,
)
    requires
        depth > 0,
    ensures
        ({
            let (t, found) = s.substituted(index, args, depth);
            let inner = (depth - 1) as usize;
            t.types.len() < usize::MAX ==> match s.ty(index) {
                Type::Pointer { to, memory, mutable } => {
                    let (u, a) = s.substituted(to, args, inner);
                    let (_, b) = u.substituted(memory, args, inner);
                    t.ty(found) == (Type::Pointer { to: a, memory: b, mutable })
                },
                Type::Slice { of, memory, mutable } => {
                    let (u, a) = s.substituted(of, args, inner);
                    let (_, b) = u.substituted(memory, args, inner);
                    t.ty(found) == (Type::Slice { of: a, memory: b, mutable })
                },
                Type::Array { of, size, memory, mutable } => {
                    let (u, a) = s.substituted(of, args, inner);
                    let (_, b) = u.substituted(memory, args, inner);
                    t.ty(found) == (Type::Array { of: a, size, memory: b, mutable })
                },
                Type::Struct { struct_index, args: parts } => t.ty(found) == (Type::Struct {
                    struct_index,
                    args: s.substituted_list(parts, args, depth).1,
                }),
                Type::Tuple { elements } => t.ty(found) == (Type::Tuple {
                    elements: s.substituted_list(elements, args, depth).1,
                }),
                _ => true,
            }
        }),
{
    reveal_with_fuel(State::substituted, 2);
    reveal_with_fuel(State::substituted_pair, 2);
    reveal(State::only_adds);
    reveal(State::grows_to);
    match s.ty(index) {
        Type::Pointer { to, memory, mutable } => {
            s.adds_substituted_pair(to, memory, args, depth);
            let (u, a, b) = s.substituted_pair(to, memory, args, depth);
            reads_back(u, Type::Pointer { to: a, memory: b, mutable });
        },
        Type::Slice { of, memory, mutable } => {
            s.adds_substituted_pair(of, memory, args, depth);
            let (u, a, b) = s.substituted_pair(of, memory, args, depth);
            reads_back(u, Type::Slice { of: a, memory: b, mutable });
        },
        Type::Array { of, size, memory, mutable } => {
            s.adds_substituted_pair(of, memory, args, depth);
            let (u, a, b) = s.substituted_pair(of, memory, args, depth);
            reads_back(u, Type::Array { of: a, size, memory: b, mutable });
        },
        Type::Struct { struct_index, args: parts } => {
            s.adds_substituted_list(parts, args, depth);
            let (u, all) = s.substituted_list(parts, args, depth);
            reads_back(u, Type::Struct { struct_index, args: all });
        },
        Type::Tuple { elements } => {
            s.adds_substituted_list(elements, args, depth);
            let (u, all) = s.substituted_list(elements, args, depth);
            reads_back(u, Type::Tuple { elements: all });
        },
        _ => {},
    }
}

/// A type agrees with an open annotation only if both are built the same way:
/// arrays of one size, the same struct, and no right to write that is not
/// there.
pub proof fn law_agreeing_types_are_built_alike<'ast>(
    s: State<'ast>,
    actual: TypeIndex,
    expected: TypeIndex,
)
    requires
        s.satisfies(actual, expected),
        expected != ty::INFER,
        actual != expected,
    ensures
        match s.ty(expected) {
            Type::Struct { struct_index, args } => s.ty(actual) matches Type::Struct {
                struct_index: other,
                args: _,
            } && other == struct_index,
            Type::Pointer { to, memory, mutable } => s.ty(actual) matches Type::Pointer {
                to: _,
                memory: _,
                mutable: given,
            } && (mutable ==> given),
            Type::Slice { of, memory, mutable } => s.ty(actual) matches Type::Slice {
                of: _,
                memory: _,
                mutable: given,
            } && (mutable ==> given),
            Type::Array { of, size, memory, mutable } => s.ty(actual) matches Type::Array {
                of: _,
                size: given_size,
                memory: _,
                mutable: given,
            } && given_size == size && (mutable ==> given),
            Type::Tuple { elements } => s.ty(actual) is Tuple,
            Type::Function { signature } => s.ty(actual) is Function,
            Type::FunctionItem { id, type_args } => s.ty(actual) matches Type::FunctionItem {
                id: other,
                type_args: _,
            } && other == id,
            Type::AssocTypeProjection { base, assoc_name, trait_index } => s.ty(
                actual,
            ) matches Type::AssocTypeProjection { base: _, assoc_name: n, trait_index: i } && n
                == assoc_name && i == trait_index,
            _ => false,
        },
{
}

/// The parts of agreeing pointers, slices and arrays agree too.
pub proof fn law_parts_of_agreeing_types_agree<'ast>(
    s: State<'ast>,
    actual: TypeIndex,
    expected: TypeIndex,
    depth: usize,
)
    requires
        depth > 0,
        s.satisfies_within(actual, expected, depth),
        expected != ty::INFER,
        actual != expected,
    ensures
        ({
            let inner = (depth - 1) as usize;
            match (s.ty(actual), s.ty(expected)) {
                (
                    Type::Pointer { to: a, memory: m, mutable: _ },
                    Type::Pointer { to: b, memory: n, mutable: _ },
                ) => s.satisfies_within(a, b, inner) && s.satisfies_within(m, n, inner),
                (
                    Type::Slice { of: a, memory: m, mutable: _ },
                    Type::Slice { of: b, memory: n, mutable: _ },
                ) => s.satisfies_within(a, b, inner) && s.satisfies_within(m, n, inner),
                (
                    Type::Array { of: a, size: _, memory: m, mutable: _ },
                    Type::Array { of: b, size: _, memory: n, mutable: _ },
                ) => s.satisfies_within(a, b, inner) && s.satisfies_within(m, n, inner),
                (Type::Function { signature: a }, Type::Function { signature: b }) =>
                    s.satisfies_within(a.result, b.result, inner),
                _ => true,
            }
        }),
{
    reveal_with_fuel(State::satisfies_within, 2);
    reveal_with_fuel(State::satisfies_pair, 2);
}

// ---------------------------------------------------------------- addresses

/// An address in a memory has the type that the memory is declared with.
pub proof fn law_type_of_an_address<'ast>(s: State<'ast>, memory: TypeIndex, index: usize)
    requires
        s.ty(memory) matches Type::Memory { kind: _, id } && s.memory_index(id) == Some(index),
        index < s.memories.len(),
    ensures
        s.pointer_type_for_memory(memory) == (s, s.memories[index as int].kind),
{
    reveal(State::pointer_type_for_memory);
}

/// An address in a memory that is a type parameter has the type `Size` that
/// the first of its traits with such a type declares.
pub proof fn law_type_of_an_abstract_address<'ast>(s: State<'ast>, memory: TypeIndex)
    requires
        s.ty(memory) is TypeParam,
        s.types.len() < usize::MAX,
    ensures
        ({
            let (t, found) = s.pointer_type_for_memory(memory);
            match s.trait_with_assoc_type(&s.param_bounds(memory).traits, s.names.size) {
                Some(trait_index) => t.ty(found) == (Type::AssocTypeProjection {
                    base: memory,
                    assoc_name: s.names.size,
                    trait_index,
                }),
                None => t == s && found == ty::INTEGER,
            }
        }),
{
    reveal(State::pointer_type_for_memory);
    match s.trait_with_assoc_type(&s.param_bounds(memory).traits, s.names.size) {
        Some(trait_index) => {
            laws::law_interned_type_reads_back(
                s,
                Type::AssocTypeProjection { base: memory, assoc_name: s.names.size, trait_index },
            );
        },
        None => {},
    }
}

/// The trait that is found to declare an associated type is the first of the
/// bounds that declares one of that name.
pub proof fn law_first_trait_with_an_associated_type<'ast>(
    s: State<'ast>,
    traits: List<TraitBound>,
    name: Symbol,
)
    ensures
        match s.trait_with_assoc_type(&traits, name) {
            Some(trait_index) => exists|i: nat|
                {
                    &&& (#[trigger] traits.at(i)) matches Some(bound) && bound.trait_index
                        == trait_index && s.assoc_type_bounds(trait_index, name) is Some
                    &&& forall|j: nat|
                        j < i ==> ((#[trigger] traits.at(j)) matches Some(earlier)
                            && s.assoc_type_bounds(earlier.trait_index, name) is None)
                },
            None => forall|i: nat|
                (#[trigger] traits.at(i)) matches Some(bound) ==> s.assoc_type_bounds(
                    bound.trait_index,
                    name,
                ) is None,
        },
    decreases traits,
{
    match traits {
        List::Nil => {},
        List::Cons(head, rest) => {
            assert(traits.at(0) == Some(*head));
            assert forall|i: nat| #[trigger] rest.at(i) == traits.at(i + 1) by {}
            if s.assoc_type_bounds(head.trait_index, name) is None {
                law_first_trait_with_an_associated_type(s, *rest, name);
                match s.trait_with_assoc_type(&*rest, name) {
                    Some(trait_index) => {
                        let i = choose|i: nat|
                            {
                                &&& (#[trigger] rest.at(i)) matches Some(bound)
                                    && bound.trait_index == trait_index && s.assoc_type_bounds(
                                    trait_index,
                                    name,
                                ) is Some
                                &&& forall|j: nat|
                                    j < i ==> ((#[trigger] rest.at(j)) matches Some(earlier)
                                        && s.assoc_type_bounds(earlier.trait_index, name) is None)
                            };
                        assert(traits.at(i + 1) == rest.at(i));
                        assert forall|j: nat| j < i + 1 implies ((#[trigger] traits.at(
                            j,
                        )) matches Some(earlier) && s.assoc_type_bounds(earlier.trait_index, name)
                            is None) by {
                            if j > 0 {
                                assert(rest.at((j - 1) as nat) == traits.at(j));
                            }
                        }
                    },
                    None => {
                        assert forall|i: nat| (#[trigger] traits.at(i)) is Some implies s.assoc_type_bounds(
                            traits.at(i)->0.trait_index,
                            name,
                        ) is None by {
                            if i > 0 {
                                assert(rest.at((i - 1) as nat) == traits.at(i));
                            }
                        }
                    },
                }
            }
        },
    }
}

/// An impl for a type that can have no impls is reported and not found.
pub proof fn law_impl_needs_a_target<'ast>(
    s: State<'ast>,
    target_type: TypeIndex,
    trait_index: usize,
    impl_index: usize,
)
    requires
        substitute::impl_target(target_type, s.ty(target_type)) is None,
    ensures
        ({
            let t = s.register_trait_impl(target_type, trait_index, impl_index);
            more_is_reported(s, t) && same_but_reports(s, t)
        }),
{
    reveal(State::register_trait_impl);
    reveal(State::report);
}

} // verus!
