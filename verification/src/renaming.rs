//! The order in which types are interned gives them other indices and nothing
//! else: what is computed with types in two pools is the same, up to a
//! renaming of the indices.

use vstd::prelude::*;

use crate::growth;
use crate::growth::{distinct_types, extends};
use crate::list;
use crate::list::List;
use crate::poisoning::{all_below, parts_below};
use crate::pool;
use crate::pool::differs_in_types_alone;
use crate::program;
use crate::relate::MAX_DEPTH;
use crate::span::Symbol;
use crate::state;
use crate::state::State;
use crate::substitute;
use crate::tir::{ImplEntry, Member};
use crate::ty;
use crate::types::{FunctionSignature, Type, TypeIndex};

verus! {

/// Whether the parts of every type come before it.
pub open spec fn parts_come_first(types: Seq<Type>) -> bool {
    forall|i: int| 0 <= i < types.len() ==> parts_below(#[trigger] types[i], i)
}

/// New indices for the types of a pool.
pub type Renaming = Map<TypeIndex, TypeIndex>;

/// Whether a type is one of a list.
pub open spec fn lists(types: List<TypeIndex>, part: TypeIndex) -> bool
    decreases types,
{
    match types {
        List::Nil => false,
        List::Cons(head, tail) => *head == part || lists(*tail, part),
    }
}

/// Whether a type is a part of another one.
pub open spec fn has_part(ty: Type, part: TypeIndex) -> bool {
    match ty {
        Type::Pointer { to, memory, mutable: _ } => part == to || part == memory,
        Type::Array { of, size: _, memory, mutable: _ } => part == of || part == memory,
        Type::Slice { of, memory, mutable: _ } => part == of || part == memory,
        Type::Tuple { elements } => lists(elements, part),
        Type::Function { signature } => lists(signature.params, part) || part == signature.result,
        Type::Struct { struct_index: _, args } => lists(args, part),
        Type::FunctionItem { id: _, type_args } => lists(type_args, part),
        Type::AssocTypeProjection { base, assoc_name: _, trait_index: _ } => part == base,
        _ => false,
    }
}

/// The types under their new indices.
pub open spec fn renamed_list(renaming: Renaming, types: List<TypeIndex>) -> List<TypeIndex>
    decreases types,
{
    match types {
        List::Nil => List::Nil,
        List::Cons(head, tail) => list::cons(renaming[*head], renamed_list(renaming, *tail)),
    }
}

/// The type with its parts under their new indices.
pub open spec fn renamed(renaming: Renaming, ty: Type) -> Type {
    match ty {
        Type::Pointer { to, memory, mutable } => Type::Pointer {
            to: renaming[to],
            memory: renaming[memory],
            mutable,
        },
        Type::Array { of, size, memory, mutable } => Type::Array {
            of: renaming[of],
            size,
            memory: renaming[memory],
            mutable,
        },
        Type::Slice { of, memory, mutable } => Type::Slice {
            of: renaming[of],
            memory: renaming[memory],
            mutable,
        },
        Type::Tuple { elements } => Type::Tuple { elements: renamed_list(renaming, elements) },
        Type::Function { signature } => Type::Function {
            signature: FunctionSignature {
                params: renamed_list(renaming, signature.params),
                result: renaming[signature.result],
            },
        },
        Type::Struct { struct_index, args } => Type::Struct {
            struct_index,
            args: renamed_list(renaming, args),
        },
        Type::FunctionItem { id, type_args } => Type::FunctionItem {
            id,
            type_args: renamed_list(renaming, type_args),
        },
        Type::AssocTypeProjection { base, assoc_name, trait_index } => Type::AssocTypeProjection {
            base: renaming[base],
            assoc_name,
            trait_index,
        },
        _ => ty,
    }
}

/// Whether every type of a list has a new index.
spec fn covers_list(renaming: Renaming, types: List<TypeIndex>) -> bool {
    forall|part: TypeIndex| #[trigger] lists(types, part) ==> renaming.contains_key(part)
}

/// Whether every part of a type has a new index.
spec fn covers(renaming: Renaming, ty: Type) -> bool {
    forall|part: TypeIndex| #[trigger] has_part(ty, part) ==> renaming.contains_key(part)
}

/// Whether a renaming has the new indices that another one has.
spec fn refines(later: Renaming, earlier: Renaming) -> bool {
    forall|index: TypeIndex| #[trigger]
        earlier.contains_key(index) ==> later.contains_key(index) && later[index]
            == earlier[index]
}

// ---------------------------------------------------------------- lists

proof fn agreeing_renamings(left: Renaming, right: Renaming, types: List<TypeIndex>)
    requires
        forall|part: TypeIndex| #[trigger] lists(types, part) ==> left[part] == right[part],
    ensures
        renamed_list(left, types) == renamed_list(right, types),
    decreases types,
{
    match types {
        List::Nil => {},
        List::Cons(head, tail) => {
            assert(lists(types, *head));
            assert forall|part: TypeIndex| #[trigger] lists(*tail, part) implies left[part]
                == right[part] by {
                assert(lists(types, part));
            }
            agreeing_renamings(left, right, *tail);
        },
    }
}

proof fn identical_renaming(renaming: Renaming, types: List<TypeIndex>)
    requires
        forall|part: TypeIndex| #[trigger] lists(types, part) ==> renaming[part] == part,
    ensures
        renamed_list(renaming, types) == types,
    decreases types,
{
    match types {
        List::Nil => {},
        List::Cons(head, tail) => {
            assert(lists(types, *head));
            assert forall|part: TypeIndex| #[trigger] lists(*tail, part) implies renaming[part]
                == part by {
                assert(lists(types, part));
            }
            identical_renaming(renaming, *tail);
        },
    }
}

proof fn renamed_lists_differ(
    left: Renaming,
    right: Renaming,
    a: List<TypeIndex>,
    b: List<TypeIndex>,
)
    requires
        renamed_list(left, a) == renamed_list(right, b),
        forall|x: TypeIndex, y: TypeIndex| #[trigger]
            lists(a, x) && #[trigger] lists(b, y) && left[x] == right[y] ==> x == y,
    ensures
        a == b,
    decreases a,
{
    match (a, b) {
        (List::Cons(x, a_rest), List::Cons(y, b_rest)) => {
            assert(lists(a, *x));
            assert(lists(b, *y));
            assert forall|x: TypeIndex, y: TypeIndex| #[trigger]
                lists(*a_rest, x) && #[trigger] lists(*b_rest, y) && left[x]
                    == right[y] implies x == y by {
                assert(lists(a, x));
                assert(lists(b, y));
            }
            renamed_lists_differ(left, right, *a_rest, *b_rest);
        },
        _ => {},
    }
}

proof fn renamed_element(renaming: Renaming, types: List<TypeIndex>, index: nat)
    ensures
        renamed_list(renaming, types).at(index) == match types.at(index) {
            Some(element) => Some(renaming[element]),
            None => None,
        },
        types.at(index) matches Some(element) ==> lists(types, element),
    decreases types,
{
    match types {
        List::Nil => {},
        List::Cons(_, tail) => {
            if index > 0 {
                renamed_element(renaming, *tail, (index - 1) as nat);
            }
        },
    }
}

proof fn renamed_replacement(
    renaming: Renaming,
    types: List<TypeIndex>,
    index: nat,
    value: TypeIndex,
)
    ensures
        renamed_list(renaming, types.replaced(index, value)) == renamed_list(
            renaming,
            types,
        ).replaced(index, renaming[value]),
        forall|part: TypeIndex| #[trigger]
            lists(types.replaced(index, value), part) ==> part == value || lists(types, part),
    decreases types,
{
    match types {
        List::Nil => {},
        List::Cons(_, tail) => {
            if index > 0 {
                let rest = tail.replaced((index - 1) as nat, value);
                renamed_replacement(renaming, *tail, (index - 1) as nat, value);
                assert forall|part: TypeIndex| #[trigger]
                    lists(types.replaced(index, value), part) implies part == value || lists(
                    types,
                    part,
                ) by {
                    assert(lists(rest, part) ==> part == value || lists(*tail, part));
                }
            } else {
                assert forall|part: TypeIndex| #[trigger]
                    lists(types.replaced(index, value), part) implies part == value || lists(
                    types,
                    part,
                ) by {
                    assert(lists(types.replaced(index, value), part) == (value == part || lists(
                        *tail,
                        part,
                    )));
                }
            }
        },
    }
}

proof fn renamed_repetition(renaming: Renaming, value: TypeIndex, count: nat)
    requires
        renaming[value] == value,
    ensures
        renamed_list(renaming, List::repeated(value, count)) == List::repeated(value, count),
        forall|part: TypeIndex| #[trigger]
            lists(List::repeated(value, count), part) ==> part == value,
    decreases count,
{
    if count > 0 {
        renamed_repetition(renaming, value, (count - 1) as nat);
        let rest = List::repeated(value, (count - 1) as nat);
        assert(List::repeated(value, count) == list::cons(value, rest));
        assert forall|part: TypeIndex| #[trigger]
            lists(List::repeated(value, count), part) implies part == value by {
            assert(lists(rest, part) ==> part == value);
        }
    } else {
        assert(List::repeated(value, count) == List::<TypeIndex>::Nil);
    }
}

proof fn listed_is_below(types: List<TypeIndex>, whole: int, part: TypeIndex)
    requires
        all_below(types, whole),
        lists(types, part),
    ensures
        part < whole,
    decreases types,
{
    match types {
        List::Nil => {},
        List::Cons(head, tail) => {
            if *head != part {
                listed_is_below(*tail, whole, part);
            }
        },
    }
}

proof fn part_is_below(ty: Type, whole: int, part: TypeIndex)
    requires
        parts_below(ty, whole),
        has_part(ty, part),
    ensures
        part < whole,
{
    match ty {
        Type::Tuple { elements } => {
            listed_is_below(elements, whole, part);
        },
        Type::Function { signature } => {
            if lists(signature.params, part) {
                listed_is_below(signature.params, whole, part);
            }
        },
        Type::Struct { struct_index: _, args } => {
            listed_is_below(args, whole, part);
        },
        Type::FunctionItem { id: _, type_args } => {
            listed_is_below(type_args, whole, part);
        },
        _ => {},
    }
}

proof fn all_listed_below(types: List<TypeIndex>, whole: int)
    requires
        forall|part: TypeIndex| #[trigger] lists(types, part) ==> part < whole,
    ensures
        all_below(types, whole),
    decreases types,
{
    match types {
        List::Nil => {},
        List::Cons(head, tail) => {
            assert(lists(types, *head));
            assert forall|part: TypeIndex| #[trigger] lists(*tail, part) implies part < whole by {
                assert(lists(types, part));
            }
            all_listed_below(*tail, whole);
        },
    }
}

proof fn all_parts_below(ty: Type, whole: int)
    requires
        forall|part: TypeIndex| #[trigger] has_part(ty, part) ==> part < whole,
    ensures
        parts_below(ty, whole),
{
    match ty {
        Type::Pointer { to, memory, mutable: _ } => {
            assert(has_part(ty, to) && has_part(ty, memory));
        },
        Type::Array { of, size: _, memory, mutable: _ } => {
            assert(has_part(ty, of) && has_part(ty, memory));
        },
        Type::Slice { of, memory, mutable: _ } => {
            assert(has_part(ty, of) && has_part(ty, memory));
        },
        Type::Tuple { elements } => {
            assert forall|part: TypeIndex| #[trigger] lists(elements, part) implies part
                < whole by {
                assert(has_part(ty, part));
            }
            all_listed_below(elements, whole);
        },
        Type::Function { signature } => {
            assert(has_part(ty, signature.result));
            assert forall|part: TypeIndex| #[trigger] lists(signature.params, part) implies part
                < whole by {
                assert(has_part(ty, part));
            }
            all_listed_below(signature.params, whole);
        },
        Type::Struct { struct_index: _, args } => {
            assert forall|part: TypeIndex| #[trigger] lists(args, part) implies part < whole by {
                assert(has_part(ty, part));
            }
            all_listed_below(args, whole);
        },
        Type::FunctionItem { id: _, type_args } => {
            assert forall|part: TypeIndex| #[trigger] lists(type_args, part) implies part
                < whole by {
                assert(has_part(ty, part));
            }
            all_listed_below(type_args, whole);
        },
        Type::AssocTypeProjection { base, assoc_name: _, trait_index: _ } => {
            assert(has_part(ty, base));
        },
        _ => {},
    }
}

// ---------------------------------------------------------------- types

proof fn renamed_alike(left: Renaming, right: Renaming, ty: Type)
    requires
        forall|part: TypeIndex| #[trigger] has_part(ty, part) ==> left[part] == right[part],
    ensures
        renamed(left, ty) == renamed(right, ty),
{
    match ty {
        Type::Pointer { to, memory, mutable: _ } => {
            assert(has_part(ty, to) && has_part(ty, memory));
        },
        Type::Array { of, size: _, memory, mutable: _ } => {
            assert(has_part(ty, of) && has_part(ty, memory));
        },
        Type::Slice { of, memory, mutable: _ } => {
            assert(has_part(ty, of) && has_part(ty, memory));
        },
        Type::Tuple { elements } => {
            assert forall|part: TypeIndex| #[trigger] lists(elements, part) implies left[part]
                == right[part] by {
                assert(has_part(ty, part));
            }
            agreeing_renamings(left, right, elements);
        },
        Type::Function { signature } => {
            assert(has_part(ty, signature.result));
            assert forall|part: TypeIndex| #[trigger]
                lists(signature.params, part) implies left[part] == right[part] by {
                assert(has_part(ty, part));
            }
            agreeing_renamings(left, right, signature.params);
        },
        Type::Struct { struct_index: _, args } => {
            assert forall|part: TypeIndex| #[trigger] lists(args, part) implies left[part]
                == right[part] by {
                assert(has_part(ty, part));
            }
            agreeing_renamings(left, right, args);
        },
        Type::FunctionItem { id: _, type_args } => {
            assert forall|part: TypeIndex| #[trigger] lists(type_args, part) implies left[part]
                == right[part] by {
                assert(has_part(ty, part));
            }
            agreeing_renamings(left, right, type_args);
        },
        Type::AssocTypeProjection { base, assoc_name: _, trait_index: _ } => {
            assert(has_part(ty, base));
        },
        _ => {},
    }
}

/// Two types that are renamed to the same one are the same, where their parts
/// are.
proof fn renamed_types_differ(left: Renaming, right: Renaming, a: Type, b: Type)
    requires
        renamed(left, a) == renamed(right, b),
        forall|x: TypeIndex, y: TypeIndex| #[trigger]
            has_part(a, x) && #[trigger] has_part(b, y) && left[x] == right[y] ==> x == y,
    ensures
        a == b,
{
    match (a, b) {
        (
            Type::Pointer { to: p, memory: q, mutable: _ },
            Type::Pointer { to: v, memory: w, mutable: _ },
        ) => {
            assert(has_part(a, p) && has_part(a, q) && has_part(b, v) && has_part(b, w));
        },
        (
            Type::Array { of: p, size: _, memory: q, mutable: _ },
            Type::Array { of: v, size: _, memory: w, mutable: _ },
        ) => {
            assert(has_part(a, p) && has_part(a, q) && has_part(b, v) && has_part(b, w));
        },
        (
            Type::Slice { of: p, memory: q, mutable: _ },
            Type::Slice { of: v, memory: w, mutable: _ },
        ) => {
            assert(has_part(a, p) && has_part(a, q) && has_part(b, v) && has_part(b, w));
        },
        (Type::Tuple { elements: p }, Type::Tuple { elements: v }) => {
            parts_of_lists_differ(left, right, a, b, p, v);
        },
        (Type::Function { signature: p }, Type::Function { signature: v }) => {
            assert(has_part(a, p.result) && has_part(b, v.result));
            parts_of_lists_differ(left, right, a, b, p.params, v.params);
        },
        (
            Type::Struct { struct_index: _, args: p },
            Type::Struct { struct_index: _, args: v },
        ) => {
            parts_of_lists_differ(left, right, a, b, p, v);
        },
        (
            Type::FunctionItem { id: _, type_args: p },
            Type::FunctionItem { id: _, type_args: v },
        ) => {
            parts_of_lists_differ(left, right, a, b, p, v);
        },
        (
            Type::AssocTypeProjection { base: p, assoc_name: _, trait_index: _ },
            Type::AssocTypeProjection { base: v, assoc_name: _, trait_index: _ },
        ) => {
            assert(has_part(a, p) && has_part(b, v));
        },
        _ => {},
    }
}

proof fn parts_of_lists_differ(
    left: Renaming,
    right: Renaming,
    a: Type,
    b: Type,
    a_parts: List<TypeIndex>,
    b_parts: List<TypeIndex>,
)
    requires
        renamed_list(left, a_parts) == renamed_list(right, b_parts),
        forall|x: TypeIndex| #[trigger] lists(a_parts, x) ==> has_part(a, x),
        forall|y: TypeIndex| #[trigger] lists(b_parts, y) ==> has_part(b, y),
        forall|x: TypeIndex, y: TypeIndex| #[trigger]
            has_part(a, x) && #[trigger] has_part(b, y) && left[x] == right[y] ==> x == y,
    ensures
        a_parts == b_parts,
{
    assert forall|x: TypeIndex, y: TypeIndex| #[trigger]
        lists(a_parts, x) && #[trigger] lists(b_parts, y) && left[x] == right[y] implies x == y by {
        assert(has_part(a, x) && has_part(b, y));
    }
    renamed_lists_differ(left, right, a_parts, b_parts);
}

// ---------------------------------------------------------------- related pools

/// Whether the type of each impl, and the types that it gives associated
/// types, are among the first types of the pool.
pub open spec fn impls_below<'ast>(s: State<'ast>, base: nat) -> bool {
    forall|i: int|
        0 <= i < s.trait_impls.len() ==> (#[trigger] s.trait_impls[i]).target.inner < base
            && members_below(s.trait_impls[i].members, base)
}

/// Whether the types that members give associated types are among the first
/// types of the pool.
pub open spec fn members_below(members: List<Member>, base: nat) -> bool
    decreases members,
{
    match members {
        List::Nil => true,
        List::Cons(first, rest) => {
            &&& match first.entry {
                ImplEntry::AssocType { ty } => ty < base,
                _ => true,
            }
            &&& members_below(*rest, base)
        },
    }
}

proof fn member_is_below(members: List<Member>, base: nat, name: Symbol)
    requires
        members_below(members, base),
    ensures
        substitute::member_entry(members, name) matches Some(ImplEntry::AssocType { ty }) ==> ty
            < base,
    decreases members,
{
    match members {
        List::Nil => {},
        List::Cons(_, rest) => {
            member_is_below(*rest, base, name);
        },
    }
}

/// Whether a state is in order as far as its types go: the pool starts with
/// the types that need no declaration, holds no type twice, and has the parts
/// of each type before it.
pub open spec fn pool_is_valid<'ast>(s: State<'ast>) -> bool {
    &&& extends(program::primitive_types(), s.types)
    &&& distinct_types(s.types)
    &&& parts_come_first(s.types)
}

/// Whether a renaming leads from the types of one state to those of another
/// one. The states have the first types in common, and everything else.
spec fn related<'ast>(base: nat, renaming: Renaming, s: State<'ast>, t: State<'ast>) -> bool {
    &&& pool_is_valid(s)
    &&& pool_is_valid(t)
    &&& differs_in_types_alone(s, t)
    &&& program::primitive_types().len() <= base <= s.types.len()
    &&& base <= t.types.len()
    &&& impls_below(s, base)
    &&& forall|i: int| 0 <= i < base ==> #[trigger] s.types[i] == t.types[i]
    &&& forall|i: TypeIndex|
        i < base ==> #[trigger] renaming.contains_key(i) && renaming[i] == i
    &&& forall|i: TypeIndex| #[trigger]
        renaming.contains_key(i) ==> {
            &&& i < s.types.len()
            &&& renaming[i] < t.types.len()
            &&& t.ty(renaming[i]) == renamed(renaming, s.ty(i))
            &&& covers(renaming, s.ty(i))
        }
    &&& forall|i: TypeIndex, j: TypeIndex| #[trigger]
        renaming.contains_key(i) && #[trigger] renaming.contains_key(j) && renaming[i]
            == renaming[j] ==> i == j
}

/// A type of the common part is not renamed, nor are its parts.
proof fn common_type_stays<'ast>(
    base: nat,
    renaming: Renaming,
    s: State<'ast>,
    t: State<'ast>,
    index: TypeIndex,
)
    requires
        related(base, renaming, s, t),
        index < base,
    ensures
        renaming.contains_key(index),
        renaming[index] == index,
        t.ty(index) == s.ty(index),
        parts_below(s.ty(index), index as int),
{
    assert(renaming.contains_key(index));
    assert(s.types[index as int] == t.types[index as int]);
    assert(parts_below(s.types[index as int], index as int));
}

proof fn common_list_stays<'ast>(
    base: nat,
    renaming: Renaming,
    s: State<'ast>,
    t: State<'ast>,
    types: List<TypeIndex>,
    whole: TypeIndex,
)
    requires
        related(base, renaming, s, t),
        whole <= base,
        all_below(types, whole as int),
    ensures
        covers_list(renaming, types),
        renamed_list(renaming, types) == types,
{
    assert forall|part: TypeIndex| #[trigger] lists(types, part) implies renaming.contains_key(
        part,
    ) && renaming[part] == part by {
        listed_is_below(types, whole as int, part);
        assert(renaming.contains_key(part));
    }
    identical_renaming(renaming, types);
}

/// Interning a type in two related states, with its parts renamed in the
/// second, gives related types.
proof fn intern_related<'ast>(
    base: nat,
    renaming: Renaming,
    s: State<'ast>,
    t: State<'ast>,
    ty: Type,
) -> (next: Renaming)
    requires
        related(base, renaming, s, t),
        covers(renaming, ty),
        s.intern(ty).0.types.len() < usize::MAX,
        t.intern(renamed(renaming, ty)).0.types.len() < usize::MAX,
    ensures
        related(base, next, s.intern(ty).0, t.intern(renamed(renaming, ty)).0),
        refines(next, renaming),
        next.contains_key(s.intern(ty).1),
        next[s.intern(ty).1] == t.intern(renamed(renaming, ty)).1,
{
    reveal(State::intern);
    let other = renamed(renaming, ty);
    growth::type_position_holds(s.types, ty, 0);
    growth::type_position_holds(t.types, other, 0);
    let (u, a) = s.intern(ty);
    let (v, b) = t.intern(other);
    let next = renaming.insert(a, b);
    assert(u.ty(a) == ty);
    assert(v.ty(b) == other);
    // The new index of a type that has one is that of the renamed type.
    if renaming.contains_key(a) {
        assert(s.ty(a) == ty);
        assert(t.ty(renaming[a]) == other);
        assert(v.types[renaming[a] as int] == v.types[b as int]);
        assert(renaming[a] == b);
    }
    // No other type has that new index.
    assert forall|i: TypeIndex| #[trigger] renaming.contains_key(i) && renaming[i] == b implies i
        == a by {
        assert(t.ty(renaming[i]) == renamed(renaming, s.ty(i)));
        assert(renamed(renaming, s.ty(i)) == renamed(renaming, ty));
        assert(covers(renaming, s.ty(i)));
        assert forall|x: TypeIndex, y: TypeIndex| #[trigger]
            has_part(s.ty(i), x) && #[trigger] has_part(ty, y) && renaming[x]
                == renaming[y] implies x == y by {
            assert(renaming.contains_key(x) && renaming.contains_key(y));
        }
        renamed_types_differ(renaming, renaming, s.ty(i), ty);
        assert(u.types[i as int] == u.types[a as int]);
    }
    assert(refines(next, renaming));
    // What was renamed before is renamed alike.
    assert forall|i: TypeIndex| #[trigger] next.contains_key(i) implies {
        &&& i < u.types.len()
        &&& next[i] < v.types.len()
        &&& v.ty(next[i]) == renamed(next, u.ty(i))
        &&& covers(next, u.ty(i))
    } by {
        if i == a {
            assert forall|part: TypeIndex| #[trigger] has_part(ty, part) implies renaming[part]
                == next[part] && next.contains_key(part) by {
                assert(renaming.contains_key(part));
            }
            renamed_alike(renaming, next, ty);
        } else {
            assert(renaming.contains_key(i));
            assert(u.ty(i) == s.ty(i));
            assert(v.ty(next[i]) == t.ty(renaming[i]));
            assert forall|part: TypeIndex| #[trigger] has_part(s.ty(i), part) implies renaming[part]
                == next[part] && next.contains_key(part) by {
                assert(renaming.contains_key(part));
            }
            renamed_alike(renaming, next, s.ty(i));
        }
    }
    assert forall|i: TypeIndex, j: TypeIndex| #[trigger]
        next.contains_key(i) && #[trigger] next.contains_key(j) && next[i] == next[j] implies i
        == j by {
        if i != a {
            assert(renaming.contains_key(i));
        }
        if j != a {
            assert(renaming.contains_key(j));
        }
    }
    assert forall|i: TypeIndex| i < base implies #[trigger] next.contains_key(i) && next[i]
        == i by {
        assert(renaming.contains_key(i));
    }
    // Both pools stay valid.
    assert forall|part: TypeIndex| #[trigger] has_part(ty, part) implies part < s.types.len() by {
        assert(renaming.contains_key(part));
    }
    all_parts_below(ty, s.types.len() as int);
    assert forall|part: TypeIndex| #[trigger] has_part(ty, part) implies renaming[part]
        < t.types.len() by {
        assert(renaming.contains_key(part));
    }
    renamed_parts_are_below(renaming, ty, t.types.len() as int);
    assert(parts_come_first(u.types));
    assert(parts_come_first(v.types));
    assert(distinct_types(u.types));
    assert(distinct_types(v.types));
    assert(pool_is_valid(u));
    assert(pool_is_valid(v));
    // The common part stays common.
    assert(differs_in_types_alone(u, v));
    assert(impls_below(u, base));
    assert forall|i: int| 0 <= i < base implies #[trigger] u.types[i] == v.types[i] by {
        assert(u.types[i] == s.types[i]);
        assert(v.types[i] == t.types[i]);
    }
    next
}

proof fn renamed_listed(renaming: Renaming, types: List<TypeIndex>, whole: int)
    requires
        forall|part: TypeIndex| #[trigger] lists(types, part) ==> renaming[part] < whole,
    ensures
        all_below(renamed_list(renaming, types), whole),
    decreases types,
{
    match types {
        List::Nil => {},
        List::Cons(head, tail) => {
            assert(lists(types, *head));
            assert forall|part: TypeIndex| #[trigger] lists(*tail, part) implies renaming[part]
                < whole by {
                assert(lists(types, part));
            }
            renamed_listed(renaming, *tail, whole);
        },
    }
}

proof fn renamed_parts_are_below(renaming: Renaming, ty: Type, whole: int)
    requires
        forall|part: TypeIndex| #[trigger] has_part(ty, part) ==> renaming[part] < whole,
    ensures
        parts_below(renamed(renaming, ty), whole),
{
    match ty {
        Type::Pointer { to, memory, mutable: _ } => {
            assert(has_part(ty, to) && has_part(ty, memory));
        },
        Type::Array { of, size: _, memory, mutable: _ } => {
            assert(has_part(ty, of) && has_part(ty, memory));
        },
        Type::Slice { of, memory, mutable: _ } => {
            assert(has_part(ty, of) && has_part(ty, memory));
        },
        Type::Tuple { elements } => {
            assert forall|part: TypeIndex| #[trigger] lists(elements, part) implies renaming[part]
                < whole by {
                assert(has_part(ty, part));
            }
            renamed_listed(renaming, elements, whole);
        },
        Type::Function { signature } => {
            assert(has_part(ty, signature.result));
            assert forall|part: TypeIndex| #[trigger]
                lists(signature.params, part) implies renaming[part] < whole by {
                assert(has_part(ty, part));
            }
            renamed_listed(renaming, signature.params, whole);
        },
        Type::Struct { struct_index: _, args } => {
            assert forall|part: TypeIndex| #[trigger] lists(args, part) implies renaming[part]
                < whole by {
                assert(has_part(ty, part));
            }
            renamed_listed(renaming, args, whole);
        },
        Type::FunctionItem { id: _, type_args } => {
            assert forall|part: TypeIndex| #[trigger] lists(type_args, part) implies renaming[part]
                < whole by {
                assert(has_part(ty, part));
            }
            renamed_listed(renaming, type_args, whole);
        },
        Type::AssocTypeProjection { base, assoc_name: _, trait_index: _ } => {
            assert(has_part(ty, base));
        },
        _ => {},
    }
}

// ---------------------------------------------------------------- matching

/// Whether two matches came to the same, up to a renaming.
spec fn same_match(
    renaming: Renaming,
    left: Option<List<TypeIndex>>,
    right: Option<List<TypeIndex>>,
) -> bool {
    match (left, right) {
        (Some(a), Some(b)) => b == renamed_list(renaming, a) && covers_list(renaming, a),
        (None, None) => true,
        _ => false,
    }
}

proof fn match_related<'ast>(
    base: nat,
    renaming: Renaming,
    s: State<'ast>,
    t: State<'ast>,
    args: List<TypeIndex>,
    pattern: TypeIndex,
    actual: TypeIndex,
    depth: usize,
)
    requires
        related(base, renaming, s, t),
        pattern < base,
        renaming.contains_key(actual),
        covers_list(renaming, args),
    ensures
        same_match(
            renaming,
            s.matched(args, pattern, actual, depth),
            t.matched(renamed_list(renaming, args), pattern, renaming[actual], depth),
        ),
    decreases depth, 2nat, List::<TypeIndex>::Nil,
{
    let other_args = renamed_list(renaming, args);
    let other = renaming[actual];
    let found = s.ty(actual);
    common_type_stays(base, renaming, s, t, pattern);
    assert(t.ty(other) == renamed(renaming, found));
    assert(covers(renaming, found));
    assert((pattern == actual) == (pattern == other));
    match s.ty(pattern) {
        Type::TypeParam { owner: _, param_index } => {
            renamed_element(renaming, args, param_index as nat);
            renamed_replacement(renaming, args, param_index as nat, actual);
            match args.at(param_index as nat) {
                Some(bound) => {
                    assert(renaming.contains_key(bound));
                    assert(renaming.contains_key(ty::INFER));
                    assert((bound == ty::INFER) == (renaming[bound] == ty::INFER));
                    assert((bound == actual) == (renaming[bound] == other));
                    assert forall|part: TypeIndex| #[trigger]
                        lists(args.replaced(param_index as nat, actual), part)
                        implies renaming.contains_key(part) by {
                        assert(part == actual || lists(args, part));
                    }
                },
                None => {},
            }
        },
        Type::Struct { struct_index: _, args: patterns } => match found {
            Type::Struct { struct_index: _, args: actuals } => {
                assert forall|part: TypeIndex| #[trigger]
                    lists(actuals, part) implies renaming.contains_key(part) by {
                    assert(has_part(found, part));
                }
                match_lists_related(base, renaming, s, t, args, patterns, actuals, pattern, depth);
            },
            _ => {},
        },
        Type::Pointer { to, memory, mutable: _ } => match found {
            Type::Pointer { to: b, memory: b_memory, mutable: _ } => {
                assert(has_part(found, b) && has_part(found, b_memory));
                match_pair_related(base, renaming, s, t, args, to, b, memory, b_memory, pattern, depth);
            },
            _ => {},
        },
        Type::Slice { of, memory, mutable: _ } => match found {
            Type::Slice { of: b, memory: b_memory, mutable: _ } => {
                assert(has_part(found, b) && has_part(found, b_memory));
                match_pair_related(base, renaming, s, t, args, of, b, memory, b_memory, pattern, depth);
            },
            _ => {},
        },
        Type::Array { of, size: _, memory, mutable: _ } => match found {
            Type::Array { of: b, size: _, memory: b_memory, mutable: _ } => {
                assert(has_part(found, b) && has_part(found, b_memory));
                match_pair_related(base, renaming, s, t, args, of, b, memory, b_memory, pattern, depth);
            },
            _ => {},
        },
        Type::Tuple { elements: patterns } => match found {
            Type::Tuple { elements: actuals } => {
                assert forall|part: TypeIndex| #[trigger]
                    lists(actuals, part) implies renaming.contains_key(part) by {
                    assert(has_part(found, part));
                }
                match_lists_related(base, renaming, s, t, args, patterns, actuals, pattern, depth);
            },
            _ => {},
        },
        Type::Function { signature: a } => match found {
            Type::Function { signature: b } => {
                assert(has_part(found, b.result));
                assert forall|part: TypeIndex| #[trigger]
                    lists(b.params, part) implies renaming.contains_key(part) by {
                    assert(has_part(found, part));
                }
                match_lists_related(base, renaming, s, t, args, a.params, b.params, pattern, depth);
                match s.matched_list(args, a.params, b.params, depth) {
                    Some(next) => {
                        if depth > 0 {
                            match_related(
                                base,
                                renaming,
                                s,
                                t,
                                next,
                                a.result,
                                b.result,
                                (depth - 1) as usize,
                            );
                        }
                    },
                    None => {},
                }
            },
            _ => {},
        },
        _ => {},
    }
}

proof fn match_pair_related<'ast>(
    base: nat,
    renaming: Renaming,
    s: State<'ast>,
    t: State<'ast>,
    args: List<TypeIndex>,
    first: TypeIndex,
    first_actual: TypeIndex,
    second: TypeIndex,
    second_actual: TypeIndex,
    whole: TypeIndex,
    depth: usize,
)
    requires
        related(base, renaming, s, t),
        whole < base,
        first < whole,
        second < whole,
        renaming.contains_key(first_actual),
        renaming.contains_key(second_actual),
        covers_list(renaming, args),
    ensures
        same_match(
            renaming,
            s.matched_pair(args, first, first_actual, second, second_actual, depth),
            t.matched_pair(
                renamed_list(renaming, args),
                first,
                renaming[first_actual],
                second,
                renaming[second_actual],
                depth,
            ),
        ),
    decreases depth, 1nat, List::<TypeIndex>::Nil,
{
    if depth > 0 {
        let inner = (depth - 1) as usize;
        match_related(base, renaming, s, t, args, first, first_actual, inner);
        match s.matched(args, first, first_actual, inner) {
            Some(next) => {
                match_related(base, renaming, s, t, next, second, second_actual, inner);
            },
            None => {},
        }
    }
}

proof fn match_lists_related<'ast>(
    base: nat,
    renaming: Renaming,
    s: State<'ast>,
    t: State<'ast>,
    args: List<TypeIndex>,
    patterns: List<TypeIndex>,
    actuals: List<TypeIndex>,
    whole: TypeIndex,
    depth: usize,
)
    requires
        related(base, renaming, s, t),
        whole < base,
        all_below(patterns, whole as int),
        covers_list(renaming, actuals),
        covers_list(renaming, args),
    ensures
        same_match(
            renaming,
            s.matched_list(args, patterns, actuals, depth),
            t.matched_list(
                renamed_list(renaming, args),
                patterns,
                renamed_list(renaming, actuals),
                depth,
            ),
        ),
    decreases depth, 0nat, patterns,
{
    match (patterns, actuals) {
        (List::Cons(pattern, rest), List::Cons(actual, actual_rest)) => {
            assert(lists(actuals, *actual));
            assert forall|part: TypeIndex| #[trigger]
                lists(*actual_rest, part) implies renaming.contains_key(part) by {
                assert(lists(actuals, part));
            }
            if depth > 0 {
                let inner = (depth - 1) as usize;
                match_related(base, renaming, s, t, args, *pattern, *actual, inner);
                match s.matched(args, *pattern, *actual, inner) {
                    Some(next) => {
                        match_lists_related(
                            base,
                            renaming,
                            s,
                            t,
                            next,
                            *rest,
                            *actual_rest,
                            whole,
                            depth,
                        );
                    },
                    None => {},
                }
            }
        },
        _ => {},
    }
}

/// What needs no declaration has one index, the same in every pool.
proof fn primitive_index_is_fixed<'ast>(s: State<'ast>, index: TypeIndex, place: TypeIndex)
    requires
        pool_is_valid(s),
        index < s.types.len(),
        place < program::primitive_types().len(),
        s.ty(index) == program::primitive_types()[place as int],
    ensures
        index == place,
{
    assert(s.types[place as int] == program::primitive_types()[place as int]);
    assert(s.types[index as int] == s.types[place as int]);
}

proof fn target_is_the_same<'ast>(
    base: nat,
    renaming: Renaming,
    s: State<'ast>,
    t: State<'ast>,
    actual: TypeIndex,
)
    requires
        related(base, renaming, s, t),
        renaming.contains_key(actual),
    ensures
        substitute::impl_target(actual, s.ty(actual)) == substitute::impl_target(
            renaming[actual],
            t.ty(renaming[actual]),
        ),
{
    let place: TypeIndex = match s.ty(actual) {
        Type::U8 => ty::U8,
        Type::I8 => ty::I8,
        Type::U16 => ty::U16,
        Type::I16 => ty::I16,
        Type::U32 => ty::U32,
        Type::I32 => ty::I32,
        Type::U64 => ty::U64,
        Type::I64 => ty::I64,
        Type::F32 => ty::F32,
        Type::F64 => ty::F64,
        Type::Bool => ty::BOOL,
        Type::Char => ty::CHAR,
        _ => ty::ERROR,
    };
    assert(t.ty(renaming[actual]) == renamed(renaming, s.ty(actual)));
    if place != ty::ERROR {
        assert(program::primitive_types()[place as int] == s.ty(actual));
        primitive_index_is_fixed(s, actual, place);
        assert(renaming.contains_key(place));
    }
}

proof fn impl_related<'ast>(
    base: nat,
    renaming: Renaming,
    s: State<'ast>,
    t: State<'ast>,
    actual: TypeIndex,
    trait_index: usize,
)
    requires
        related(base, renaming, s, t),
        renaming.contains_key(actual),
    ensures
        match (
            s.trait_impl_for(actual, trait_index),
            t.trait_impl_for(renaming[actual], trait_index),
        ) {
            (Some((i, a)), Some((j, b))) => {
                &&& i == j
                &&& i < s.trait_impls.len()
                &&& b == renamed_list(renaming, a)
                &&& covers_list(renaming, a)
            },
            (None, None) => true,
            _ => false,
        },
{
    target_is_the_same(base, renaming, s, t, actual);
    match substitute::impl_target(actual, s.ty(actual)) {
        Some(target) => match s.find_dispatched_impl(target, trait_index) {
            Some(impl_index) => match state::seq_at(s.trait_impls, impl_index) {
                Some(implementation) => {
                    let count = list::clamp(implementation.type_params.count()) as nat;
                    let open = List::repeated(ty::INFER, count);
                    assert(s.trait_impls[impl_index as int].target.inner < base);
                    assert(renaming.contains_key(ty::INFER));
                    renamed_repetition(renaming, ty::INFER, count);
                    assert forall|part: TypeIndex| #[trigger]
                        lists(open, part) implies renaming.contains_key(part) by {
                        assert(part == ty::INFER);
                    }
                    match_related(
                        base,
                        renaming,
                        s,
                        t,
                        open,
                        implementation.target.inner,
                        actual,
                        MAX_DEPTH,
                    );
                },
                None => {},
            },
            None => {},
        },
        None => {},
    }
}

// ---------------------------------------------------------------- substitution

/// Whether two types that were made in related states are related.
spec fn same_result<'ast>(
    base: nat,
    earlier: Renaming,
    renaming: Renaming,
    left: (State<'ast>, TypeIndex),
    right: (State<'ast>, TypeIndex),
) -> bool {
    &&& related(base, renaming, left.0, right.0)
    &&& refines(renaming, earlier)
    &&& renaming.contains_key(left.1)
    &&& renaming[left.1] == right.1
}

proof fn renamed_list_stays(earlier: Renaming, later: Renaming, types: List<TypeIndex>)
    requires
        refines(later, earlier),
        covers_list(earlier, types),
    ensures
        covers_list(later, types),
        renamed_list(later, types) == renamed_list(earlier, types),
{
    assert forall|part: TypeIndex| #[trigger] lists(types, part) implies earlier[part]
        == later[part] && later.contains_key(part) by {
        assert(earlier.contains_key(part));
    }
    agreeing_renamings(earlier, later, types);
}

/// How the pool grows while types are substituted.
proof fn substitution_grows<'ast>(
    s: State<'ast>,
    index: TypeIndex,
    args: List<TypeIndex>,
    depth: usize,
)
    ensures
        s.types.len() <= s.substituted(index, args, depth).0.types.len(),
{
    s.adds_substituted(index, args, depth);
    reveal(State::only_adds);
    reveal(State::grows_to);
}

proof fn list_substitution_grows<'ast>(
    s: State<'ast>,
    types: List<TypeIndex>,
    args: List<TypeIndex>,
    depth: usize,
)
    ensures
        s.types.len() <= s.substituted_list(types, args, depth).0.types.len(),
{
    s.adds_substituted_list(types, args, depth);
    reveal(State::only_adds);
    reveal(State::grows_to);
}

proof fn interning_grows<'ast>(s: State<'ast>, ty: Type)
    ensures
        s.types.len() <= s.intern(ty).0.types.len(),
{
    reveal(State::intern);
}

/// Substituting the same arguments in the same type gives the same type in
/// two related states.
proof fn substitution_related<'ast>(
    base: nat,
    renaming: Renaming,
    s: State<'ast>,
    t: State<'ast>,
    index: TypeIndex,
    args: List<TypeIndex>,
    depth: usize,
) -> (next: Renaming)
    requires
        related(base, renaming, s, t),
        index < base,
        covers_list(renaming, args),
        s.substituted(index, args, depth).0.types.len() < usize::MAX,
        t.substituted(index, renamed_list(renaming, args), depth).0.types.len() < usize::MAX,
    ensures
        same_result(
            base,
            renaming,
            next,
            s.substituted(index, args, depth),
            t.substituted(index, renamed_list(renaming, args), depth),
        ),
    decreases depth, 2nat, List::<TypeIndex>::Nil,
{
    let others = renamed_list(renaming, args);
    common_type_stays(base, renaming, s, t, index);
    match s.ty(index) {
        Type::TypeParam { owner: _, param_index } => {
            renamed_element(renaming, args, param_index as nat);
            match args.at(param_index as nat) {
                Some(argument) => {
                    assert(renaming.contains_key(argument));
                    assert(renaming.contains_key(ty::ERROR));
                    assert((argument == ty::ERROR) == (renaming[argument] == ty::ERROR));
                },
                None => {},
            }
            renaming
        },
        Type::AssocTypeProjection { base: of, assoc_name, trait_index } => {
            if depth == 0 {
                renaming
            } else {
                let inner = (depth - 1) as usize;
                let (u, a) = s.substituted(of, args, inner);
                let (v, b) = t.substituted(of, others, inner);
                projection_grows(s, index, of, args, depth);
                projection_grows(t, index, of, others, depth);
                let next = substitution_related(base, renaming, s, t, of, args, inner);
                common_type_stays(base, next, u, v, of);
                common_type_stays(base, next, u, v, index);
                assert((a == of) == (b == of));
                assert(v.ty(b) == renamed(next, u.ty(a)));
                match u.ty(a) {
                    Type::TypeParam { .. } | Type::AssocTypeProjection { .. } => {
                        if a == of {
                            next
                        } else {
                            let changed = Type::AssocTypeProjection {
                                base: a,
                                assoc_name,
                                trait_index,
                            };
                            assert forall|part: TypeIndex| #[trigger]
                                has_part(changed, part) implies next.contains_key(part) by {
                                assert(part == a);
                            }
                            let last = intern_related(base, next, u, v, changed);
                            last
                        }
                    },
                    _ => {
                        impl_related(base, next, u, v, a, trait_index);
                        match u.trait_impl_for(a, trait_index) {
                            Some((impl_index, impl_args)) => {
                                member_is_below(
                                    u.trait_impls[impl_index as int].members,
                                    base,
                                    assoc_name,
                                );
                                match u.impl_assoc_type(impl_index, assoc_name) {
                                    Some(value) => {
                                        let last = substitution_related(
                                            base,
                                            next,
                                            u,
                                            v,
                                            value,
                                            impl_args,
                                            inner,
                                        );
                                        last
                                    },
                                    None => next,
                                }
                            },
                            None => next,
                        }
                    },
                }
            }
        },
        Type::Pointer { to, memory, mutable } => {
            let (u, a, a_memory) = s.substituted_pair(to, memory, args, depth);
            let (v, b, b_memory) = t.substituted_pair(to, memory, others, depth);
            interning_grows(u, Type::Pointer { to: a, memory: a_memory, mutable });
            interning_grows(v, Type::Pointer { to: b, memory: b_memory, mutable });
            let next = pair_related(base, renaming, s, t, to, memory, index, args, depth);
            common_type_stays(base, next, u, v, index);
            common_type_stays(base, next, u, v, to);
            common_type_stays(base, next, u, v, memory);
            assert((a == to) == (b == to));
            assert((a_memory == memory) == (b_memory == memory));
            if a == to && a_memory == memory {
                next
            } else {
                let changed = Type::Pointer { to: a, memory: a_memory, mutable };
                let last = intern_related(base, next, u, v, changed);
                last
            }
        },
        Type::Array { of, size, memory, mutable } => {
            let (u, a, a_memory) = s.substituted_pair(of, memory, args, depth);
            let (v, b, b_memory) = t.substituted_pair(of, memory, others, depth);
            interning_grows(u, Type::Array { of: a, size, memory: a_memory, mutable });
            interning_grows(v, Type::Array { of: b, size, memory: b_memory, mutable });
            let next = pair_related(base, renaming, s, t, of, memory, index, args, depth);
            common_type_stays(base, next, u, v, index);
            common_type_stays(base, next, u, v, of);
            common_type_stays(base, next, u, v, memory);
            assert((a == of) == (b == of));
            assert((a_memory == memory) == (b_memory == memory));
            if a == of && a_memory == memory {
                next
            } else {
                let changed = Type::Array { of: a, size, memory: a_memory, mutable };
                let last = intern_related(base, next, u, v, changed);
                last
            }
        },
        Type::Slice { of, memory, mutable } => {
            let (u, a, a_memory) = s.substituted_pair(of, memory, args, depth);
            let (v, b, b_memory) = t.substituted_pair(of, memory, others, depth);
            interning_grows(u, Type::Slice { of: a, memory: a_memory, mutable });
            interning_grows(v, Type::Slice { of: b, memory: b_memory, mutable });
            let next = pair_related(base, renaming, s, t, of, memory, index, args, depth);
            common_type_stays(base, next, u, v, index);
            common_type_stays(base, next, u, v, of);
            common_type_stays(base, next, u, v, memory);
            assert((a == of) == (b == of));
            assert((a_memory == memory) == (b_memory == memory));
            if a == of && a_memory == memory {
                next
            } else {
                let changed = Type::Slice { of: a, memory: a_memory, mutable };
                let last = intern_related(base, next, u, v, changed);
                last
            }
        },
        Type::Tuple { elements } => {
            let (u, a) = s.substituted_list(elements, args, depth);
            let (v, b) = t.substituted_list(elements, others, depth);
            interning_grows(u, Type::Tuple { elements: a });
            interning_grows(v, Type::Tuple { elements: b });
            let next = list_related(base, renaming, s, t, elements, index, args, depth);
            common_type_stays(base, next, u, v, index);
            changed_alike(base, next, u, v, elements, a, index);
            if a == elements {
                next
            } else {
                let changed = Type::Tuple { elements: a };
                assert(covers(next, changed)) by {
                    assert forall|part: TypeIndex| #[trigger]
                        has_part(changed, part) implies next.contains_key(part) by {
                        assert(lists(a, part));
                    }
                }
                let last = intern_related(base, next, u, v, changed);
                last
            }
        },
        Type::Function { signature } => {
            let (u, a) = s.substituted_list(signature.params, args, depth);
            let (v, b) = t.substituted_list(signature.params, others, depth);
            let (x, a_result) = if depth > 0 {
                u.substituted(signature.result, args, (depth - 1) as usize)
            } else {
                (u, signature.result)
            };
            let (y, b_result) = if depth > 0 {
                v.substituted(signature.result, others, (depth - 1) as usize)
            } else {
                (v, signature.result)
            };
            interning_grows(
                x,
                Type::Function {
                    signature: FunctionSignature { params: a, result: a_result },
                },
            );
            interning_grows(
                y,
                Type::Function {
                    signature: FunctionSignature { params: b, result: b_result },
                },
            );
            if depth > 0 {
                substitution_grows(u, signature.result, args, (depth - 1) as usize);
                substitution_grows(v, signature.result, others, (depth - 1) as usize);
            }
            let next = list_related(base, renaming, s, t, signature.params, index, args, depth);
            renamed_list_stays(renaming, next, args);
            common_type_stays(base, next, u, v, signature.result);
            let last = if depth > 0 {
                substitution_related(
                    base,
                    next,
                    u,
                    v,
                    signature.result,
                    args,
                    (depth - 1) as usize,
                )
            } else {
                next
            };
            renamed_list_stays(next, last, a);
            common_type_stays(base, last, x, y, index);
            common_type_stays(base, last, x, y, signature.result);
            changed_alike(base, last, x, y, signature.params, a, index);
            assert((a_result == signature.result) == (b_result == signature.result));
            if a == signature.params && a_result == signature.result {
                last
            } else {
                let changed = Type::Function {
                    signature: FunctionSignature { params: a, result: a_result },
                };
                assert(covers(last, changed)) by {
                    assert forall|part: TypeIndex| #[trigger]
                        has_part(changed, part) implies last.contains_key(part) by {
                        assert(lists(a, part) || part == a_result);
                    }
                }
                let end = intern_related(base, last, x, y, changed);
                end
            }
        },
        Type::Struct { struct_index, args: parts } => {
            let (u, a) = s.substituted_list(parts, args, depth);
            let (v, b) = t.substituted_list(parts, others, depth);
            interning_grows(u, Type::Struct { struct_index, args: a });
            interning_grows(v, Type::Struct { struct_index, args: b });
            let next = list_related(base, renaming, s, t, parts, index, args, depth);
            common_type_stays(base, next, u, v, index);
            changed_alike(base, next, u, v, parts, a, index);
            if a == parts {
                next
            } else {
                let changed = Type::Struct { struct_index, args: a };
                assert(covers(next, changed)) by {
                    assert forall|part: TypeIndex| #[trigger]
                        has_part(changed, part) implies next.contains_key(part) by {
                        assert(lists(a, part));
                    }
                }
                let last = intern_related(base, next, u, v, changed);
                last
            }
        },
        Type::FunctionItem { id, type_args } => {
            let (u, a) = s.substituted_list(type_args, args, depth);
            let (v, b) = t.substituted_list(type_args, others, depth);
            interning_grows(u, Type::FunctionItem { id, type_args: a });
            interning_grows(v, Type::FunctionItem { id, type_args: b });
            let next = list_related(base, renaming, s, t, type_args, index, args, depth);
            common_type_stays(base, next, u, v, index);
            changed_alike(base, next, u, v, type_args, a, index);
            if a == type_args {
                next
            } else {
                let changed = Type::FunctionItem { id, type_args: a };
                assert(covers(next, changed)) by {
                    assert forall|part: TypeIndex| #[trigger]
                        has_part(changed, part) implies next.contains_key(part) by {
                        assert(lists(a, part));
                    }
                }
                let last = intern_related(base, next, u, v, changed);
                last
            }
        },
        _ => renaming,
    }
}

proof fn projection_grows<'ast>(
    s: State<'ast>,
    index: TypeIndex,
    of: TypeIndex,
    args: List<TypeIndex>,
    depth: usize,
)
    requires
        s.ty(index) matches Type::AssocTypeProjection { base, .. } && base == of,
        depth > 0,
    ensures
        s.substituted(of, args, (depth - 1) as usize).0.types.len() <= s.substituted(
            index,
            args,
            depth,
        ).0.types.len(),
{
    match s.ty(index) {
        Type::AssocTypeProjection { base: _, assoc_name, trait_index } => {
            let (t, next) = s.substituted(of, args, (depth - 1) as usize);
            interning_grows(t, Type::AssocTypeProjection { base: next, assoc_name, trait_index });
            match t.trait_impl_for(next, trait_index) {
                Some((impl_index, impl_args)) => match t.impl_assoc_type(impl_index, assoc_name) {
                    Some(value) => {
                        substitution_grows(t, value, impl_args, (depth - 1) as usize);
                    },
                    None => {},
                },
                None => {},
            }
        },
        _ => {},
    }
}

/// A list of common types changes in one pool exactly when it changes in the
/// other one.
proof fn changed_alike<'ast>(
    base: nat,
    renaming: Renaming,
    s: State<'ast>,
    t: State<'ast>,
    types: List<TypeIndex>,
    changed: List<TypeIndex>,
    whole: TypeIndex,
)
    requires
        related(base, renaming, s, t),
        whole < base,
        all_below(types, whole as int),
        covers_list(renaming, changed),
    ensures
        (changed == types) == (renamed_list(renaming, changed) == types),
{
    common_list_stays(base, renaming, s, t, types, whole);
    if renamed_list(renaming, changed) == types {
        assert forall|x: TypeIndex, y: TypeIndex| #[trigger]
            lists(changed, x) && #[trigger] lists(types, y) && renaming[x]
                == renaming[y] implies x == y by {
            assert(renaming.contains_key(x) && renaming.contains_key(y));
        }
        renamed_lists_differ(renaming, renaming, changed, types);
    }
}

proof fn pair_related<'ast>(
    base: nat,
    renaming: Renaming,
    s: State<'ast>,
    t: State<'ast>,
    first: TypeIndex,
    second: TypeIndex,
    whole: TypeIndex,
    args: List<TypeIndex>,
    depth: usize,
) -> (next: Renaming)
    requires
        related(base, renaming, s, t),
        whole < base,
        first < whole,
        second < whole,
        covers_list(renaming, args),
        s.substituted_pair(first, second, args, depth).0.types.len() < usize::MAX,
        t.substituted_pair(
            first,
            second,
            renamed_list(renaming, args),
            depth,
        ).0.types.len() < usize::MAX,
    ensures
        ({
            let (u, a, a_second) = s.substituted_pair(first, second, args, depth);
            let (v, b, b_second) = t.substituted_pair(
                first,
                second,
                renamed_list(renaming, args),
                depth,
            );
            &&& same_result(base, renaming, next, (u, a), (v, b))
            &&& next.contains_key(a_second)
            &&& next[a_second] == b_second
        }),
    decreases depth, 1nat, List::<TypeIndex>::Nil,
{
    let others = renamed_list(renaming, args);
    if depth == 0 {
        common_type_stays(base, renaming, s, t, first);
        common_type_stays(base, renaming, s, t, second);
        renaming
    } else {
        let inner = (depth - 1) as usize;
        let (u, a) = s.substituted(first, args, inner);
        let (v, b) = t.substituted(first, others, inner);
        substitution_grows(u, second, args, inner);
        substitution_grows(v, second, others, inner);
        let middle = substitution_related(base, renaming, s, t, first, args, inner);
        renamed_list_stays(renaming, middle, args);
        let next = substitution_related(base, middle, u, v, second, args, inner);
        assert(middle.contains_key(a));
        next
    }
}

proof fn list_related<'ast>(
    base: nat,
    renaming: Renaming,
    s: State<'ast>,
    t: State<'ast>,
    types: List<TypeIndex>,
    whole: TypeIndex,
    args: List<TypeIndex>,
    depth: usize,
) -> (next: Renaming)
    requires
        related(base, renaming, s, t),
        whole < base,
        all_below(types, whole as int),
        covers_list(renaming, args),
        s.substituted_list(types, args, depth).0.types.len() < usize::MAX,
        t.substituted_list(types, renamed_list(renaming, args), depth).0.types.len()
            < usize::MAX,
    ensures
        ({
            let (u, a) = s.substituted_list(types, args, depth);
            let (v, b) = t.substituted_list(types, renamed_list(renaming, args), depth);
            &&& related(base, next, u, v)
            &&& refines(next, renaming)
            &&& covers_list(next, a)
            &&& b == renamed_list(next, a)
        }),
    decreases depth, 0nat, types,
{
    let others = renamed_list(renaming, args);
    match types {
        List::Nil => renaming,
        List::Cons(head, tail) => {
            let (u, a) = if depth > 0 {
                s.substituted(*head, args, (depth - 1) as usize)
            } else {
                (s, *head)
            };
            let (v, b) = if depth > 0 {
                t.substituted(*head, others, (depth - 1) as usize)
            } else {
                (t, *head)
            };
            list_substitution_grows(u, *tail, args, depth);
            list_substitution_grows(v, *tail, others, depth);
            common_type_stays(base, renaming, s, t, *head);
            let middle = if depth > 0 {
                substitution_related(base, renaming, s, t, *head, args, (depth - 1) as usize)
            } else {
                renaming
            };
            renamed_list_stays(renaming, middle, args);
            let next = list_related(base, middle, u, v, *tail, whole, args, depth);
            assert(middle.contains_key(a));
            let (x, rest) = u.substituted_list(*tail, args, depth);
            assert(s.substituted_list(types, args, depth) == (x, list::cons(a, rest)));
            assert forall|part: TypeIndex| #[trigger]
                lists(list::cons(a, rest), part) implies next.contains_key(part) by {
                assert(part == a || lists(rest, part));
            }
            next
        },
    }
}

// ---------------------------------------------------------------- the same type

/// Whether a type of one state is the same as a type of another one: it is
/// made in the same way of parts that are the same.
pub open spec fn same_in<'ast>(
    s: State<'ast>,
    index: TypeIndex,
    t: State<'ast>,
    other: TypeIndex,
) -> bool
    decreases index, 1nat, List::<TypeIndex>::Nil,
{
    match (s.ty(index), t.ty(other)) {
        (
            Type::Pointer { to: a, memory: a_memory, mutable: m },
            Type::Pointer { to: b, memory: b_memory, mutable: n },
        ) => m == n && a < index && a_memory < index && same_in(s, a, t, b) && same_in(
            s,
            a_memory,
            t,
            b_memory,
        ),
        (
            Type::Array { of: a, size: k, memory: a_memory, mutable: m },
            Type::Array { of: b, size: l, memory: b_memory, mutable: n },
        ) => k == l && m == n && a < index && a_memory < index && same_in(s, a, t, b) && same_in(
            s,
            a_memory,
            t,
            b_memory,
        ),
        (
            Type::Slice { of: a, memory: a_memory, mutable: m },
            Type::Slice { of: b, memory: b_memory, mutable: n },
        ) => m == n && a < index && a_memory < index && same_in(s, a, t, b) && same_in(
            s,
            a_memory,
            t,
            b_memory,
        ),
        (Type::Tuple { elements: a }, Type::Tuple { elements: b }) => all_same_in(
            s,
            a,
            t,
            b,
            index,
        ),
        (Type::Function { signature: a }, Type::Function { signature: b }) => all_same_in(
            s,
            a.params,
            t,
            b.params,
            index,
        ) && a.result < index && same_in(s, a.result, t, b.result),
        (
            Type::Struct { struct_index: i, args: a },
            Type::Struct { struct_index: j, args: b },
        ) => i == j && all_same_in(s, a, t, b, index),
        (
            Type::FunctionItem { id: i, type_args: a },
            Type::FunctionItem { id: j, type_args: b },
        ) => i == j && all_same_in(s, a, t, b, index),
        (
            Type::AssocTypeProjection { base: a, assoc_name: n, trait_index: i },
            Type::AssocTypeProjection { base: b, assoc_name: o, trait_index: j },
        ) => n == o && i == j && a < index && same_in(s, a, t, b),
        (found, expected) => found == expected,
    }
}

pub open spec fn all_same_in<'ast>(
    s: State<'ast>,
    types: List<TypeIndex>,
    t: State<'ast>,
    others: List<TypeIndex>,
    whole: TypeIndex,
) -> bool
    decreases whole, 0nat, types,
{
    match (types, others) {
        (List::Nil, List::Nil) => true,
        (List::Cons(a, rest), List::Cons(b, other_rest)) => *a < whole && same_in(s, *a, t, *b)
            && all_same_in(s, *rest, t, *other_rest, whole),
        _ => false,
    }
}

proof fn renamed_is_same<'ast>(
    base: nat,
    renaming: Renaming,
    s: State<'ast>,
    t: State<'ast>,
    index: TypeIndex,
)
    requires
        related(base, renaming, s, t),
        renaming.contains_key(index),
    ensures
        same_in(s, index, t, renaming[index]),
    decreases index, 1nat, List::<TypeIndex>::Nil,
{
    let ty = s.ty(index);
    assert(t.ty(renaming[index]) == renamed(renaming, ty));
    assert(covers(renaming, ty));
    assert(parts_below(s.types[index as int], index as int));
    match ty {
        Type::Pointer { to, memory, mutable: _ } => {
            assert(has_part(ty, to) && has_part(ty, memory));
            renamed_is_same(base, renaming, s, t, to);
            renamed_is_same(base, renaming, s, t, memory);
        },
        Type::Array { of, size: _, memory, mutable: _ } => {
            assert(has_part(ty, of) && has_part(ty, memory));
            renamed_is_same(base, renaming, s, t, of);
            renamed_is_same(base, renaming, s, t, memory);
        },
        Type::Slice { of, memory, mutable: _ } => {
            assert(has_part(ty, of) && has_part(ty, memory));
            renamed_is_same(base, renaming, s, t, of);
            renamed_is_same(base, renaming, s, t, memory);
        },
        Type::Tuple { elements } => {
            assert forall|part: TypeIndex| #[trigger]
                lists(elements, part) implies renaming.contains_key(part) by {
                assert(has_part(ty, part));
            }
            renamed_are_same(base, renaming, s, t, elements, index);
        },
        Type::Function { signature } => {
            assert(has_part(ty, signature.result));
            assert forall|part: TypeIndex| #[trigger]
                lists(signature.params, part) implies renaming.contains_key(part) by {
                assert(has_part(ty, part));
            }
            renamed_are_same(base, renaming, s, t, signature.params, index);
            renamed_is_same(base, renaming, s, t, signature.result);
        },
        Type::Struct { struct_index: _, args } => {
            assert forall|part: TypeIndex| #[trigger]
                lists(args, part) implies renaming.contains_key(part) by {
                assert(has_part(ty, part));
            }
            renamed_are_same(base, renaming, s, t, args, index);
        },
        Type::FunctionItem { id: _, type_args } => {
            assert forall|part: TypeIndex| #[trigger]
                lists(type_args, part) implies renaming.contains_key(part) by {
                assert(has_part(ty, part));
            }
            renamed_are_same(base, renaming, s, t, type_args, index);
        },
        Type::AssocTypeProjection { base: of, assoc_name: _, trait_index: _ } => {
            assert(has_part(ty, of));
            renamed_is_same(base, renaming, s, t, of);
        },
        _ => {},
    }
}

proof fn renamed_are_same<'ast>(
    base: nat,
    renaming: Renaming,
    s: State<'ast>,
    t: State<'ast>,
    types: List<TypeIndex>,
    whole: TypeIndex,
)
    requires
        related(base, renaming, s, t),
        covers_list(renaming, types),
        all_below(types, whole as int),
    ensures
        all_same_in(s, types, t, renamed_list(renaming, types), whole),
    decreases whole, 0nat, types,
{
    match types {
        List::Nil => {},
        List::Cons(head, tail) => {
            assert(lists(types, *head));
            assert forall|part: TypeIndex| #[trigger]
                lists(*tail, part) implies renaming.contains_key(part) by {
                assert(lists(types, part));
            }
            renamed_is_same(base, renaming, s, t, *head);
            renamed_are_same(base, renaming, s, t, *tail, whole);
        },
    }
}

// ---------------------------------------------------------------- branches

/// The renaming that changes nothing.
spec fn identity(base: nat) -> Renaming {
    Map::new(|index: TypeIndex| index < base, |index: TypeIndex| index)
}

/// A state is related to one that has further types.
proof fn growth_is_related<'ast>(s: State<'ast>, t: State<'ast>, base: nat)
    requires
        pool_is_valid(s),
        pool_is_valid(t),
        differs_in_types_alone(s, t),
        impls_below(s, base),
        program::primitive_types().len() <= base <= s.types.len(),
        base <= t.types.len(),
        base <= usize::MAX,
        forall|i: int| 0 <= i < base ==> #[trigger] s.types[i] == t.types[i],
    ensures
        related(base, identity(base), s, t),
{
    let renaming = identity(base);
    assert forall|i: TypeIndex| #[trigger] renaming.contains_key(i) implies {
        &&& i < s.types.len()
        &&& renaming[i] < t.types.len()
        &&& t.ty(renaming[i]) == renamed(renaming, s.ty(i))
        &&& covers(renaming, s.ty(i))
    } by {
        assert(s.types[i as int] == t.types[i as int]);
        assert(parts_below(s.types[i as int], i as int));
        assert forall|part: TypeIndex| #[trigger] has_part(s.ty(i), part) implies renaming[part]
            == part && renaming.contains_key(part) by {
            part_is_below(s.ty(i), i as int, part);
        }
        unrenamed(renaming, s.ty(i));
    }
}

proof fn unrenamed(renaming: Renaming, ty: Type)
    requires
        forall|part: TypeIndex| #[trigger] has_part(ty, part) ==> renaming[part] == part,
    ensures
        renamed(renaming, ty) == ty,
{
    match ty {
        Type::Pointer { to, memory, mutable: _ } => {
            assert(has_part(ty, to) && has_part(ty, memory));
        },
        Type::Array { of, size: _, memory, mutable: _ } => {
            assert(has_part(ty, of) && has_part(ty, memory));
        },
        Type::Slice { of, memory, mutable: _ } => {
            assert(has_part(ty, of) && has_part(ty, memory));
        },
        Type::Tuple { elements } => {
            assert forall|part: TypeIndex| #[trigger] lists(elements, part) implies renaming[part]
                == part by {
                assert(has_part(ty, part));
            }
            identical_renaming(renaming, elements);
        },
        Type::Function { signature } => {
            assert(has_part(ty, signature.result));
            assert forall|part: TypeIndex| #[trigger]
                lists(signature.params, part) implies renaming[part] == part by {
                assert(has_part(ty, part));
            }
            identical_renaming(renaming, signature.params);
        },
        Type::Struct { struct_index: _, args } => {
            assert forall|part: TypeIndex| #[trigger] lists(args, part) implies renaming[part]
                == part by {
                assert(has_part(ty, part));
            }
            identical_renaming(renaming, args);
        },
        Type::FunctionItem { id: _, type_args } => {
            assert forall|part: TypeIndex| #[trigger] lists(type_args, part) implies renaming[part]
                == part by {
                assert(has_part(ty, part));
            }
            identical_renaming(renaming, type_args);
        },
        Type::AssocTypeProjection { base, assoc_name: _, trait_index: _ } => {
            assert(has_part(ty, base));
        },
        _ => {},
    }
}

/// Two renamings of one pool to another one agree. `s` and `t` are the pools
/// that the first one leads between; the second one leads from a later state
/// of `s` to an earlier one of `t`.
proof fn renamings_agree<'ast>(
    base: nat,
    left: Renaming,
    right: Renaming,
    s: State<'ast>,
    t: State<'ast>,
    later: State<'ast>,
    earlier: State<'ast>,
    index: TypeIndex,
)
    requires
        related(base, left, s, t),
        related(base, right, later, earlier),
        extends(s.types, later.types),
        extends(earlier.types, t.types),
        left.contains_key(index),
        right.contains_key(index),
    ensures
        left[index] == right[index],
    decreases index,
{
    let ty = s.ty(index);
    assert(later.types[index as int] == s.types[index as int]);
    assert(parts_below(s.types[index as int], index as int));
    assert(covers(left, ty));
    assert(covers(right, ty));
    assert forall|part: TypeIndex| #[trigger] has_part(ty, part) implies left[part]
        == right[part] by {
        part_is_below(ty, index as int, part);
        assert(left.contains_key(part) && right.contains_key(part));
        renamings_agree(base, left, right, s, t, later, earlier, part);
    }
    renamed_alike(left, right, ty);
    assert(t.types[right[index] as int] == earlier.types[right[index] as int]);
    assert(t.types[left[index] as int] == t.types[right[index] as int]);
}

/// Two types that are renamed to one are one.
proof fn renamings_agree_back<'ast>(
    base: nat,
    left: Renaming,
    right: Renaming,
    s: State<'ast>,
    t: State<'ast>,
    later: State<'ast>,
    earlier: State<'ast>,
    a: TypeIndex,
    b: TypeIndex,
)
    requires
        related(base, left, s, t),
        related(base, right, later, earlier),
        extends(s.types, later.types),
        extends(earlier.types, t.types),
        left.contains_key(a),
        right.contains_key(b),
        left[a] == right[b],
    ensures
        a == b,
    decreases a,
{
    assert(later.types[a as int] == s.types[a as int]);
    assert(parts_below(s.types[a as int], a as int));
    assert(t.types[right[b] as int] == earlier.types[right[b] as int]);
    assert(renamed(left, s.ty(a)) == renamed(right, later.ty(b)));
    assert(covers(left, s.ty(a)));
    assert(covers(right, later.ty(b)));
    assert forall|x: TypeIndex, y: TypeIndex| #[trigger]
        has_part(s.ty(a), x) && #[trigger] has_part(later.ty(b), y) && left[x]
            == right[y] implies x == y by {
        part_is_below(s.ty(a), a as int, x);
        assert(left.contains_key(x) && right.contains_key(y));
        renamings_agree_back(base, left, right, s, t, later, earlier, x, y);
    }
    renamed_types_differ(left, right, s.ty(a), later.ty(b));
    assert(later.types[a as int] == later.types[b as int]);
}

/// A type of a valid pool is the same as itself.
proof fn type_is_itself<'ast>(s: State<'ast>, index: TypeIndex)
    requires
        pool_is_valid(s),
        impls_below(s, s.types.len()),
        s.types.len() <= usize::MAX,
    ensures
        same_in(s, index, s, index),
{
    if index < s.types.len() {
        growth_is_related(s, s, s.types.len());
        assert(identity(s.types.len()).contains_key(index));
        renamed_is_same(s.types.len(), identity(s.types.len()), s, s, index);
    }
}

/// Whether the signature of every function is in the pool.
pub open spec fn signatures_are_known<'ast>(s: State<'ast>) -> bool {
    forall|i: int|
        0 <= i < s.functions.len() ==> (#[trigger] s.functions[i]).signature_index < s.types.len()
}

/// What a type with arguments becomes is a type of a valid pool.
proof fn substitution_keeps_validity<'ast>(
    s: State<'ast>,
    index: TypeIndex,
    args: List<TypeIndex>,
    depth: usize,
)
    requires
        pool_is_valid(s),
        impls_below(s, s.types.len()),
        index < s.types.len(),
        all_below(args, s.types.len() as int),
        s.substituted(index, args, depth).0.types.len() < usize::MAX,
    ensures
        pool_is_valid(s.substituted(index, args, depth).0),
        extends(s.types, s.substituted(index, args, depth).0.types),
        differs_in_types_alone(s, s.substituted(index, args, depth).0),
{
    let base = s.types.len();
    s.adds_substituted(index, args, depth);
    assert(extends(s.types, s.substituted(index, args, depth).0.types)) by {
        reveal(State::only_adds);
        reveal(State::grows_to);
    }
    pool::law_substitution_changes_types_alone(s, index, args, depth);
    growth_is_related(s, s, base);
    arguments_are_common(s, args);
    let next = substitution_related(base, identity(base), s, s, index, args, depth);
    assert(related(
        base,
        next,
        s.substituted(index, args, depth).0,
        s.substituted(index, args, depth).0,
    ));
}

proof fn arguments_are_common<'ast>(s: State<'ast>, args: List<TypeIndex>)
    requires
        all_below(args, s.types.len() as int),
    ensures
        covers_list(identity(s.types.len()), args),
        renamed_list(identity(s.types.len()), args) == args,
{
    let renaming = identity(s.types.len());
    assert forall|part: TypeIndex| #[trigger] lists(args, part) implies renaming.contains_key(part)
        && renaming[part] == part by {
        listed_is_below(args, s.types.len() as int, part);
    }
    identical_renaming(renaming, args);
}

/// Two branches agree whichever comes first, and on the same type. The pool
/// is valid, holds the types that declarations speak of, and is not full.
/// Only the index of the type can differ, where both branches are functions
/// whose types are made on the way.
pub proof fn law_order_of_branches_does_not_matter<'ast>(
    s: State<'ast>,
    a: TypeIndex,
    b: TypeIndex,
)
    requires
        pool_is_valid(s),
        impls_below(s, s.types.len()),
        signatures_are_known(s),
        s.unified(a, b).0.types.len() < usize::MAX,
        s.unified(b, a).0.types.len() < usize::MAX,
    ensures
        match (s.unified(a, b), s.unified(b, a)) {
            ((t, Some(left)), (u, Some(right))) => same_in(t, left, u, right),
            ((_, None), (_, None)) => true,
            _ => false,
        },
{
    let base = s.types.len();
    let plain = a == b || a == ty::NEVER || b == ty::NEVER || a == ty::ERROR || b == ty::ERROR;
    match (s.ty(a), s.ty(b)) {
        (
            Type::FunctionItem { id: a_id, type_args: a_args },
            Type::FunctionItem { id: b_id, type_args: b_args },
        ) => {
            if plain {
                type_is_itself(s, a);
                type_is_itself(s, b);
                type_is_itself(s, ty::ERROR);
            } else {
                let a_type = s.signature_of(a_id);
                let b_type = s.signature_of(b_id);
                let (s_a, left_a) = s.substituted(a_type, a_args, MAX_DEPTH);
                let (s_ab, left_b) = s_a.substituted(b_type, b_args, MAX_DEPTH);
                let (s_b, right_b) = s.substituted(b_type, b_args, MAX_DEPTH);
                let (s_ba, right_a) = s_b.substituted(a_type, a_args, MAX_DEPTH);
                assert(parts_below(s.types[a as int], a as int));
                assert(parts_below(s.types[b as int], b as int));
                all_below_further(a_args, a as int, base as int);
                all_below_further(b_args, b as int, base as int);
                substitution_grows(s_a, b_type, b_args, MAX_DEPTH);
                substitution_grows(s_b, a_type, a_args, MAX_DEPTH);
                substitution_keeps_validity(s, a_type, a_args, MAX_DEPTH);
                substitution_keeps_validity(s, b_type, b_args, MAX_DEPTH);
                growth_is_related(s, s_b, base);
                growth_is_related(s_a, s, base);
                arguments_are_common(s, a_args);
                arguments_are_common(s, b_args);
                let first = substitution_related(
                    base,
                    identity(base),
                    s,
                    s_b,
                    a_type,
                    a_args,
                    MAX_DEPTH,
                );
                let second = substitution_related(
                    base,
                    identity(base),
                    s_a,
                    s,
                    b_type,
                    b_args,
                    MAX_DEPTH,
                );
                s_a.adds_substituted(b_type, b_args, MAX_DEPTH);
                s_b.adds_substituted(a_type, a_args, MAX_DEPTH);
                assert(extends(s_a.types, s_ab.types) && extends(s_b.types, s_ba.types)) by {
                    reveal(State::only_adds);
                    reveal(State::grows_to);
                }
                if left_a == left_b {
                    renamings_agree(base, first, second, s_a, s_ba, s_ab, s_b, left_a);
                    renamed_is_same(base, first, s_a, s_ba, left_a);
                    same_in_later_pool(s_a, s_ab, s_ba, left_a, right_a);
                }
                if right_a == right_b {
                    renamings_agree_back(
                        base,
                        first,
                        second,
                        s_a,
                        s_ba,
                        s_ab,
                        s_b,
                        left_a,
                        left_b,
                    );
                }
            }
        },
        _ => {
            type_is_itself(s, a);
            type_is_itself(s, b);
            type_is_itself(s, ty::ERROR);
        },
    }
}

proof fn all_below_further(types: List<TypeIndex>, near: int, far: int)
    requires
        all_below(types, near),
        near <= far,
    ensures
        all_below(types, far),
    decreases types,
{
    match types {
        List::Nil => {},
        List::Cons(_, tail) => {
            all_below_further(*tail, near, far);
        },
    }
}

/// Types that are the same stay the same when the first pool grows.
proof fn same_in_later_pool<'ast>(
    s: State<'ast>,
    later: State<'ast>,
    t: State<'ast>,
    index: TypeIndex,
    other: TypeIndex,
)
    requires
        extends(s.types, later.types),
        index < s.types.len(),
        same_in(s, index, t, other),
    ensures
        same_in(later, index, t, other),
    decreases index, 1nat, List::<TypeIndex>::Nil,
{
    assert(later.ty(index) == s.ty(index));
    match (s.ty(index), t.ty(other)) {
        (
            Type::Pointer { to: a, memory: a_memory, mutable: _ },
            Type::Pointer { to: b, memory: b_memory, mutable: _ },
        ) => {
            same_in_later_pool(s, later, t, a, b);
            same_in_later_pool(s, later, t, a_memory, b_memory);
        },
        (
            Type::Array { of: a, size: _, memory: a_memory, mutable: _ },
            Type::Array { of: b, size: _, memory: b_memory, mutable: _ },
        ) => {
            same_in_later_pool(s, later, t, a, b);
            same_in_later_pool(s, later, t, a_memory, b_memory);
        },
        (
            Type::Slice { of: a, memory: a_memory, mutable: _ },
            Type::Slice { of: b, memory: b_memory, mutable: _ },
        ) => {
            same_in_later_pool(s, later, t, a, b);
            same_in_later_pool(s, later, t, a_memory, b_memory);
        },
        (Type::Tuple { elements: a }, Type::Tuple { elements: b }) => {
            all_same_in_later_pool(s, later, t, a, b, index);
        },
        (Type::Function { signature: a }, Type::Function { signature: b }) => {
            all_same_in_later_pool(s, later, t, a.params, b.params, index);
            same_in_later_pool(s, later, t, a.result, b.result);
        },
        (
            Type::Struct { struct_index: _, args: a },
            Type::Struct { struct_index: _, args: b },
        ) => {
            all_same_in_later_pool(s, later, t, a, b, index);
        },
        (
            Type::FunctionItem { id: _, type_args: a },
            Type::FunctionItem { id: _, type_args: b },
        ) => {
            all_same_in_later_pool(s, later, t, a, b, index);
        },
        (
            Type::AssocTypeProjection { base: a, assoc_name: _, trait_index: _ },
            Type::AssocTypeProjection { base: b, assoc_name: _, trait_index: _ },
        ) => {
            same_in_later_pool(s, later, t, a, b);
        },
        _ => {},
    }
}

proof fn all_same_in_later_pool<'ast>(
    s: State<'ast>,
    later: State<'ast>,
    t: State<'ast>,
    types: List<TypeIndex>,
    others: List<TypeIndex>,
    whole: TypeIndex,
)
    requires
        extends(s.types, later.types),
        whole < s.types.len(),
        all_same_in(s, types, t, others, whole),
    ensures
        all_same_in(later, types, t, others, whole),
    decreases whole, 0nat, types,
{
    match (types, others) {
        (List::Cons(a, rest), List::Cons(b, other_rest)) => {
            same_in_later_pool(s, later, t, *a, *b);
            all_same_in_later_pool(s, later, t, *rest, *other_rest, whole);
        },
        _ => {},
    }
}

} // verus!
