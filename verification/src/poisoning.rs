//! What is left of a type whose type parameters are poisoned: no type
//! parameter, and everything that does not depend on one.

use vstd::prelude::*;

use crate::diagnostics::DiagnosticCode;
use crate::growth;
use crate::growth::extends;
use crate::laws;
use crate::list;
use crate::list::List;
use crate::lookup::TypeArgArity;
use crate::relate::MAX_DEPTH;
use crate::reports::report_type_arg_count;
use crate::span::TextSpan;
use crate::state::State;
use crate::tir::{AccessTarget, ResolveContext, SymbolKind};
use crate::ty;
use crate::types::{FunctionSignature, Type, TypeIndex};

verus! {

/// Whether all of the types come before a position of the pool.
pub open spec fn all_below(types: List<TypeIndex>, whole: int) -> bool
    decreases types,
{
    match types {
        List::Nil => true,
        List::Cons(head, tail) => *head < whole && all_below(*tail, whole),
    }
}

/// Whether all parts of a type come before a position of the pool.
pub open spec fn parts_below(ty: Type, whole: int) -> bool {
    match ty {
        Type::Pointer { to, memory, mutable: _ } => to < whole && memory < whole,
        Type::Array { of, size: _, memory, mutable: _ } => of < whole && memory < whole,
        Type::Slice { of, memory, mutable: _ } => of < whole && memory < whole,
        Type::Tuple { elements } => all_below(elements, whole),
        Type::Function { signature } => all_below(signature.params, whole) && signature.result
            < whole,
        Type::Struct { struct_index: _, args } => all_below(args, whole),
        Type::FunctionItem { id: _, type_args } => all_below(type_args, whole),
        Type::AssocTypeProjection { base, assoc_name: _, trait_index: _ } => base < whole,
        _ => true,
    }
}

/// Whether the parts of every type are types of the pool.
pub open spec fn parts_are_there(types: Seq<Type>) -> bool {
    forall|i: int| 0 <= i < types.len() ==> parts_below(#[trigger] types[i], types.len() as int)
}

impl<'ast> State<'ast> {
    /// Whether a type parameter is part of a type.
    pub open spec fn mentions_parameter(self, index: TypeIndex) -> bool {
        self.mentions_within(index, MAX_DEPTH)
    }

    /// Whether a type parameter is part of a type, as far as `depth` reaches
    /// into its parts.
    pub open spec fn mentions_within(self, index: TypeIndex, depth: usize) -> bool
        decreases depth, 2nat, List::<TypeIndex>::Nil,
    {
        self.part_mentions(self.ty(index), depth)
    }

    /// Whether a type that may be outside of the pool is a type parameter or
    /// has one in its parts.
    pub open spec fn part_mentions(self, ty: Type, depth: usize) -> bool
        decreases depth, 1nat, List::<TypeIndex>::Nil,
    {
        match ty {
            Type::TypeParam { .. } => true,
            Type::Pointer { to, memory, mutable: _ } => depth > 0 && (self.mentions_within(
                to,
                (depth - 1) as usize,
            ) || self.mentions_within(memory, (depth - 1) as usize)),
            Type::Array { of, size: _, memory, mutable: _ } => depth > 0 && (self.mentions_within(
                of,
                (depth - 1) as usize,
            ) || self.mentions_within(memory, (depth - 1) as usize)),
            Type::Slice { of, memory, mutable: _ } => depth > 0 && (self.mentions_within(
                of,
                (depth - 1) as usize,
            ) || self.mentions_within(memory, (depth - 1) as usize)),
            Type::Tuple { elements } => self.any_mentions(elements, depth),
            Type::Function { signature } => self.any_mentions(signature.params, depth) || (depth > 0
                && self.mentions_within(signature.result, (depth - 1) as usize)),
            Type::Struct { struct_index: _, args } => self.any_mentions(args, depth),
            Type::FunctionItem { id: _, type_args } => self.any_mentions(type_args, depth),
            Type::AssocTypeProjection { base, assoc_name: _, trait_index: _ } => depth > 0
                && self.mentions_within(base, (depth - 1) as usize),
            _ => false,
        }
    }

    /// Whether a type parameter is part of one of the parts of a type.
    pub open spec fn any_mentions(self, types: List<TypeIndex>, depth: usize) -> bool
        decreases depth, 0nat, types,
    {
        match types {
            List::Nil => false,
            List::Cons(head, tail) => (depth > 0 && self.mentions_within(
                *head,
                (depth - 1) as usize,
            )) || self.any_mentions(*tail, depth),
        }
    }
}

proof fn all_below_more(types: List<TypeIndex>, fewer: int, more: int)
    requires
        all_below(types, fewer),
        fewer <= more,
    ensures
        all_below(types, more),
    decreases types,
{
    match types {
        List::Nil => {},
        List::Cons(_, tail) => {
            all_below_more(*tail, fewer, more);
        },
    }
}

/// Parts that are in a pool are in a larger one.
proof fn parts_stay_there(ty: Type, fewer: int, more: int)
    requires
        parts_below(ty, fewer),
        fewer <= more,
    ensures
        parts_below(ty, more),
{
    match ty {
        Type::Tuple { elements } => {
            all_below_more(elements, fewer, more);
        },
        Type::Function { signature } => {
            all_below_more(signature.params, fewer, more);
        },
        Type::Struct { struct_index: _, args } => {
            all_below_more(args, fewer, more);
        },
        Type::FunctionItem { id: _, type_args } => {
            all_below_more(type_args, fewer, more);
        },
        _ => {},
    }
}

/// What a type mentions does not change when the pool grows.
proof fn mention_stays<'ast>(s: State<'ast>, t: State<'ast>, index: TypeIndex, depth: usize)
    requires
        parts_are_there(s.types),
        extends(s.types, t.types),
        index < s.types.len(),
    ensures
        t.mentions_within(index, depth) == s.mentions_within(index, depth),
    decreases depth, 2nat, List::<TypeIndex>::Nil,
{
    assert(t.ty(index) == s.ty(index));
    assert(parts_below(s.types[index as int], s.types.len() as int));
    part_mention_stays(s, t, s.ty(index), depth);
}

proof fn part_mention_stays<'ast>(s: State<'ast>, t: State<'ast>, ty: Type, depth: usize)
    requires
        parts_are_there(s.types),
        extends(s.types, t.types),
        parts_below(ty, s.types.len() as int),
    ensures
        t.part_mentions(ty, depth) == s.part_mentions(ty, depth),
    decreases depth, 1nat, List::<TypeIndex>::Nil,
{
    let inner = (depth - 1) as usize;
    match ty {
        Type::Pointer { to, memory, mutable: _ } => {
            if depth > 0 {
                mention_stays(s, t, to, inner);
                mention_stays(s, t, memory, inner);
            }
        },
        Type::Array { of, size: _, memory, mutable: _ } => {
            if depth > 0 {
                mention_stays(s, t, of, inner);
                mention_stays(s, t, memory, inner);
            }
        },
        Type::Slice { of, memory, mutable: _ } => {
            if depth > 0 {
                mention_stays(s, t, of, inner);
                mention_stays(s, t, memory, inner);
            }
        },
        Type::Tuple { elements } => {
            mentions_stay(s, t, elements, depth);
        },
        Type::Function { signature } => {
            mentions_stay(s, t, signature.params, depth);
            if depth > 0 {
                mention_stays(s, t, signature.result, inner);
            }
        },
        Type::Struct { struct_index: _, args } => {
            mentions_stay(s, t, args, depth);
        },
        Type::FunctionItem { id: _, type_args } => {
            mentions_stay(s, t, type_args, depth);
        },
        Type::AssocTypeProjection { base, assoc_name: _, trait_index: _ } => {
            if depth > 0 {
                mention_stays(s, t, base, inner);
            }
        },
        _ => {},
    }
}

proof fn mentions_stay<'ast>(
    s: State<'ast>,
    t: State<'ast>,
    types: List<TypeIndex>,
    depth: usize,
)
    requires
        parts_are_there(s.types),
        extends(s.types, t.types),
        all_below(types, s.types.len() as int),
    ensures
        t.any_mentions(types, depth) == s.any_mentions(types, depth),
    decreases depth, 0nat, types,
{
    match types {
        List::Nil => {},
        List::Cons(head, tail) => {
            if depth > 0 {
                mention_stays(s, t, *head, (depth - 1) as usize);
            }
            mentions_stay(s, t, *tail, depth);
        },
    }
}

/// What poisoning gives: a pool that holds the old one and the parts of all
/// its types, and a type in it that mentions no type parameter.
spec fn is_poisoned<'ast>(
    s: State<'ast>,
    t: State<'ast>,
    index: TypeIndex,
    depth: usize,
) -> bool {
    &&& parts_are_there(t.types)
    &&& extends(s.types, t.types)
    &&& index < t.types.len()
    &&& !t.mentions_within(index, depth)
}

proof fn interned_is_free<'ast>(s: State<'ast>, ty: Type, depth: usize)
    requires
        parts_are_there(s.types),
        parts_below(ty, s.types.len() as int),
        !s.part_mentions(ty, depth),
        s.intern(ty).0.types.len() < usize::MAX,
    ensures
        is_poisoned(s, s.intern(ty).0, s.intern(ty).1, depth),
{
    reveal(State::intern);
    growth::type_position_holds(s.types, ty, 0);
    let (t, index) = s.intern(ty);
    assert(t.ty(index) == ty);
    assert forall|i: int| 0 <= i < t.types.len() implies parts_below(
        #[trigger] t.types[i],
        t.types.len() as int,
    ) by {
        if i < s.types.len() {
            assert(parts_below(s.types[i], s.types.len() as int));
        }
        parts_stay_there(t.types[i], s.types.len() as int, t.types.len() as int);
    }
    part_mention_stays(s, t, ty, depth);
}

proof fn pool_only_grows<'ast>(s: State<'ast>, ty: Type)
    ensures
        extends(s.types, s.intern(ty).0.types),
{
    reveal(State::intern);
}

proof fn poisoning_grows<'ast>(s: State<'ast>, index: TypeIndex, depth: usize)
    ensures
        extends(s.types, s.poisoned(index, depth).0.types),
{
    s.adds_poisoned(index, depth);
    reveal(State::only_adds);
    reveal(State::grows_to);
}

proof fn poisoned_is_free<'ast>(s: State<'ast>, index: TypeIndex, depth: usize)
    requires
        parts_are_there(s.types),
        s.ty(ty::ERROR) == Type::Error,
        index < s.types.len(),
        s.poisoned(index, depth).0.types.len() < usize::MAX,
    ensures
        is_poisoned(s, s.poisoned(index, depth).0, s.poisoned(index, depth).1, depth),
    decreases depth, 2nat, List::<TypeIndex>::Nil,
{
    let (t, next) = s.poisoned(index, depth);
    assert(parts_below(s.types[index as int], s.types.len() as int));
    poisoning_grows(s, index, depth);
    assert(t.ty(index) == s.ty(index));
    assert(t.ty(ty::ERROR) == Type::Error) by {
        if ty::ERROR < s.types.len() {
            assert(t.types[ty::ERROR as int] == s.types[ty::ERROR as int]);
        }
    }
    match s.ty(index) {
        Type::TypeParam { .. } => {},
        Type::AssocTypeProjection { base, assoc_name: _, trait_index: _ } => {
            if depth > 0 {
                poisoned_is_free(s, base, (depth - 1) as usize);
            }
        },
        Type::Pointer { to, memory, mutable } => {
            let (u, a, b) = s.poisoned_pair(to, memory, depth);
            let changed = Type::Pointer { to: a, memory: b, mutable };
            pool_only_grows(u, changed);
            pair_is_free(s, to, memory, depth);
            if a != to || b != memory {
                interned_is_free(u, changed, depth);
            }
        },
        Type::Array { of, size, memory, mutable } => {
            let (u, a, b) = s.poisoned_pair(of, memory, depth);
            let changed = Type::Array { of: a, size, memory: b, mutable };
            pool_only_grows(u, changed);
            pair_is_free(s, of, memory, depth);
            if a != of || b != memory {
                interned_is_free(u, changed, depth);
            }
        },
        Type::Slice { of, memory, mutable } => {
            let (u, a, b) = s.poisoned_pair(of, memory, depth);
            let changed = Type::Slice { of: a, memory: b, mutable };
            pool_only_grows(u, changed);
            pair_is_free(s, of, memory, depth);
            if a != of || b != memory {
                interned_is_free(u, changed, depth);
            }
        },
        Type::Tuple { elements } => {
            let (u, changed) = s.poisoned_list(elements, depth);
            pool_only_grows(u, Type::Tuple { elements: changed });
            list_is_free(s, elements, depth);
            if changed != elements {
                interned_is_free(u, Type::Tuple { elements: changed }, depth);
            }
        },
        Type::Function { signature } => {
            let (u, params) = s.poisoned_list(signature.params, depth);
            let (v, result) = if depth > 0 {
                u.poisoned(signature.result, (depth - 1) as usize)
            } else {
                (u, signature.result)
            };
            let changed = Type::Function { signature: FunctionSignature { params, result } };
            pool_only_grows(v, changed);
            if depth > 0 {
                poisoning_grows(u, signature.result, (depth - 1) as usize);
            }
            list_is_free(s, signature.params, depth);
            if depth > 0 {
                poisoned_is_free(u, signature.result, (depth - 1) as usize);
            }
            mentions_stay(u, v, params, depth);
            all_below_more(params, u.types.len() as int, v.types.len() as int);
            if params != signature.params || result != signature.result {
                interned_is_free(v, changed, depth);
            }
        },
        Type::Struct { struct_index, args } => {
            let (u, changed) = s.poisoned_list(args, depth);
            pool_only_grows(u, Type::Struct { struct_index, args: changed });
            list_is_free(s, args, depth);
            if changed != args {
                interned_is_free(u, Type::Struct { struct_index, args: changed }, depth);
            }
        },
        Type::FunctionItem { id, type_args } => {
            let (u, changed) = s.poisoned_list(type_args, depth);
            pool_only_grows(u, Type::FunctionItem { id, type_args: changed });
            list_is_free(s, type_args, depth);
            if changed != type_args {
                interned_is_free(u, Type::FunctionItem { id, type_args: changed }, depth);
            }
        },
        _ => {},
    }
}

proof fn pair_is_free<'ast>(
    s: State<'ast>,
    first: TypeIndex,
    second: TypeIndex,
    depth: usize,
)
    requires
        parts_are_there(s.types),
        s.ty(ty::ERROR) == Type::Error,
        first < s.types.len(),
        second < s.types.len(),
        s.poisoned_pair(first, second, depth).0.types.len() < usize::MAX,
    ensures
        ({
            let (t, a, b) = s.poisoned_pair(first, second, depth);
            &&& parts_are_there(t.types)
            &&& extends(s.types, t.types)
            &&& a < t.types.len() && b < t.types.len()
            &&& depth > 0 ==> !t.mentions_within(a, (depth - 1) as usize)
            &&& depth > 0 ==> !t.mentions_within(b, (depth - 1) as usize)
        }),
    decreases depth, 1nat, List::<TypeIndex>::Nil,
{
    if depth > 0 {
        let inner = (depth - 1) as usize;
        let (u, a) = s.poisoned(first, inner);
        let (t, b) = u.poisoned(second, inner);
        poisoning_grows(s, first, inner);
        poisoning_grows(u, second, inner);
        poisoned_is_free(s, first, inner);
        assert(u.ty(ty::ERROR) == Type::Error) by {
            if ty::ERROR < s.types.len() {
                assert(u.types[ty::ERROR as int] == s.types[ty::ERROR as int]);
            }
        }
        poisoned_is_free(u, second, inner);
        mention_stays(u, t, a, inner);
    }
}

proof fn list_is_free<'ast>(s: State<'ast>, types: List<TypeIndex>, depth: usize)
    requires
        parts_are_there(s.types),
        s.ty(ty::ERROR) == Type::Error,
        0 < s.types.len(),
        all_below(types, s.types.len() as int),
        s.poisoned_list(types, depth).0.types.len() < usize::MAX,
    ensures
        ({
            let (t, changed) = s.poisoned_list(types, depth);
            &&& parts_are_there(t.types)
            &&& extends(s.types, t.types)
            &&& all_below(changed, t.types.len() as int)
            &&& !t.any_mentions(changed, depth)
        }),
    decreases depth, 0nat, types,
{
    match types {
        List::Nil => {},
        List::Cons(head, tail) => {
            let inner = (depth - 1) as usize;
            let (u, next) = if depth > 0 {
                s.poisoned(*head, inner)
            } else {
                (s, *head)
            };
            let (t, rest) = u.poisoned_list(*tail, depth);
            u.adds_poisoned_list(*tail, depth);
            assert(extends(u.types, t.types)) by {
                reveal(State::only_adds);
                reveal(State::grows_to);
            }
            if depth > 0 {
                poisoned_is_free(s, *head, inner);
            }
            assert(u.ty(ty::ERROR) == Type::Error) by {
                assert(u.types[ty::ERROR as int] == s.types[ty::ERROR as int]);
            }
            all_below_more(*tail, s.types.len() as int, u.types.len() as int);
            list_is_free(u, *tail, depth);
            if depth > 0 {
                mention_stays(u, t, next, inner);
            }
        },
    }
}

/// A type whose type parameters are poisoned mentions none. No type of the
/// pool is lost by it.
pub proof fn law_poisoned_type_mentions_no_parameter<'ast>(s: State<'ast>, index: TypeIndex)
    requires
        parts_are_there(s.types),
        s.ty(ty::ERROR) == Type::Error,
        index < s.types.len(),
        s.poisoned(index, MAX_DEPTH).0.types.len() < usize::MAX,
    ensures
        ({
            let (t, next) = s.poisoned(index, MAX_DEPTH);
            &&& !t.mentions_parameter(next)
            &&& extends(s.types, t.types)
        }),
{
    poisoned_is_free(s, index, MAX_DEPTH);
}

/// A type that mentions no type parameter stays when they are poisoned.
pub proof fn law_free_type_is_not_poisoned<'ast>(
    s: State<'ast>,
    index: TypeIndex,
    depth: usize,
)
    requires
        !s.mentions_within(index, depth),
    ensures
        s.poisoned(index, depth) == (s, index),
    decreases depth, 1nat, List::<TypeIndex>::Nil,
{
    let ty = s.ty(index);
    assert(!s.part_mentions(ty, depth));
    match ty {
        Type::AssocTypeProjection { base, assoc_name: _, trait_index: _ } => {
            if depth > 0 {
                law_free_type_is_not_poisoned(s, base, (depth - 1) as usize);
            }
        },
        Type::Pointer { to, memory, mutable: _ } => {
            free_pair_stays(s, to, memory, depth);
        },
        Type::Array { of, size: _, memory, mutable: _ } => {
            free_pair_stays(s, of, memory, depth);
        },
        Type::Slice { of, memory, mutable: _ } => {
            free_pair_stays(s, of, memory, depth);
        },
        Type::Tuple { elements } => {
            free_types_stay(s, elements, depth);
        },
        Type::Function { signature } => {
            free_types_stay(s, signature.params, depth);
            if depth > 0 {
                law_free_type_is_not_poisoned(s, signature.result, (depth - 1) as usize);
            }
        },
        Type::Struct { struct_index: _, args } => {
            free_types_stay(s, args, depth);
        },
        Type::FunctionItem { id: _, type_args } => {
            free_types_stay(s, type_args, depth);
        },
        _ => {},
    }
}

proof fn free_pair_stays<'ast>(
    s: State<'ast>,
    first: TypeIndex,
    second: TypeIndex,
    depth: usize,
)
    requires
        depth > 0 ==> !s.mentions_within(first, (depth - 1) as usize),
        depth > 0 ==> !s.mentions_within(second, (depth - 1) as usize),
    ensures
        s.poisoned_pair(first, second, depth) == (s, first, second),
    decreases depth, 0nat, List::<TypeIndex>::Nil,
{
    if depth > 0 {
        law_free_type_is_not_poisoned(s, first, (depth - 1) as usize);
        law_free_type_is_not_poisoned(s, second, (depth - 1) as usize);
    }
}

proof fn free_types_stay<'ast>(s: State<'ast>, types: List<TypeIndex>, depth: usize)
    requires
        !s.any_mentions(types, depth),
    ensures
        s.poisoned_list(types, depth) == (s, types),
    decreases depth, 0nat, types,
{
    match types {
        List::Nil => {},
        List::Cons(head, tail) => {
            if depth > 0 {
                law_free_type_is_not_poisoned(s, *head, (depth - 1) as usize);
            }
            free_types_stay(s, *tail, depth);
        },
    }
}

/// Whether each of the types is a type parameter.
pub open spec fn all_parameters<'ast>(s: State<'ast>, types: List<TypeIndex>) -> bool
    decreases types,
{
    match types {
        List::Nil => true,
        List::Cons(head, tail) => s.ty(*head) is TypeParam && all_parameters(s, *tail),
    }
}

proof fn parameters_become_errors<'ast>(s: State<'ast>, types: List<TypeIndex>, depth: usize)
    requires
        all_parameters(s, types),
        depth > 0,
    ensures
        s.poisoned_list(types, depth) == (s, List::repeated(ty::ERROR, types.count())),
    decreases types,
{
    match types {
        List::Nil => {
            assert(List::repeated(ty::ERROR, 0) == List::<TypeIndex>::Nil);
        },
        List::Cons(head, tail) => {
            assert(s.poisoned(*head, (depth - 1) as usize) == (s, ty::ERROR));
            parameters_become_errors(s, *tail, depth);
            assert(List::repeated(ty::ERROR, types.count()) == list::cons(
                ty::ERROR,
                List::repeated(ty::ERROR, tail.count()),
            ));
        },
    }
}

/// A struct with type parameters as its arguments stays that struct when they
/// are poisoned, with the poison type for every argument.
pub proof fn law_poisoned_struct_keeps_identity<'ast>(
    s: State<'ast>,
    index: TypeIndex,
    struct_index: usize,
    args: List<TypeIndex>,
)
    requires
        s.types.len() < usize::MAX,
        s.ty(index) == (Type::Struct { struct_index, args }),
        all_parameters(s, args),
    ensures
        ({
            let (t, next) = s.poisoned(index, MAX_DEPTH);
            t.ty(next) == (Type::Struct {
                struct_index,
                args: List::repeated(ty::ERROR, args.count()),
            })
        }),
{
    parameters_become_errors(s, args, MAX_DEPTH);
    laws::law_interned_type_reads_back(
        s,
        Type::Struct { struct_index, args: List::repeated(ty::ERROR, args.count()) },
    );
}

/// An alias of a struct over the type parameters of the alias, applied to a
/// wrong number of arguments, is that struct with the poison type for every
/// argument. One thing is reported.
pub proof fn law_alias_of_wrong_arity_is_a_poisoned_struct<'ast>(
    s: State<'ast>,
    context: ResolveContext,
    type_alias_index: usize,
    struct_index: usize,
    parameters: List<TypeIndex>,
    args: &List<TypeIndex>,
    span: TextSpan,
    arity: TypeArgArity,
)
    requires
        s.types.len() < usize::MAX,
        type_alias_index < s.type_aliases.len(),
        args.len() != s.type_aliases[type_alias_index as int].type_params.len(),
        arity == TypeArgArity::AllowInfer ==> args.len() != 0,
        s.ty(s.type_aliases[type_alias_index as int].template) == (Type::Struct {
            struct_index,
            args: parameters,
        }),
        all_parameters(s, parameters),
    ensures
        ({
            let (t, index) = s.resolve_generic_type_application(
                context,
                SymbolKind::TypeAlias { type_alias_index },
                args,
                span,
                arity,
            );
            &&& t.ty(index) == (Type::Struct {
                struct_index,
                args: List::repeated(ty::ERROR, parameters.count()),
            })
            &&& t.diagnostics.len() == s.diagnostics.len() + 1
            &&& t.diagnostics.last().code == Some(DiagnosticCode::TypeArgCountMismatch)
        }),
{
    let kind = SymbolKind::TypeAlias { type_alias_index };
    let alias = s.type_aliases[type_alias_index as int];
    laws::law_wrong_arity_keeps_identity(s, context, kind, args, span, arity);
    let used = s.report(
        report_type_arg_count(
            alias.name.inner,
            alias.type_params.len(),
            args.len(),
            context.at(span),
        ),
    ).access(AccessTarget::TypeAlias(type_alias_index), context.at(span));
    assert(used.types == s.types) by {
        reveal(State::report);
        reveal(State::access);
    }
    parameters_stay(s, used, parameters);
    law_poisoned_struct_keeps_identity(used, alias.template, struct_index, parameters);
}

proof fn parameters_stay<'ast>(s: State<'ast>, t: State<'ast>, types: List<TypeIndex>)
    requires
        all_parameters(s, types),
        s.types == t.types,
    ensures
        all_parameters(t, types),
    decreases types,
{
    match types {
        List::Nil => {},
        List::Cons(_, tail) => {
            parameters_stay(s, t, *tail);
        },
    }
}

} // verus!
