//! What holds of the type checker as a whole, beyond what one function does.

use vstd::prelude::*;

use crate::ast;
use crate::ast::BinaryOp;
use crate::diagnostics::Diagnostic;
use crate::generics;
use crate::growth;
use crate::implied;
use crate::implied::{
    AssocBindingConflict, BoundArena, BoundId, ImpliedAssocBinding, ImpliedBindingKind,
    ImpliedTraitBound, RequiredBounds,
};
use crate::interner;
use crate::list;
use crate::list::List;
use crate::literal;
use crate::lookup;
use crate::lookup::{SharedValue, TypeArgArity};
use crate::members;
use crate::names::PendingClaim;
use crate::nesting;
use crate::pool;
use crate::relate::MAX_DEPTH;
use crate::renaming::{has_part, lists};
use crate::reports;
use crate::reports::report_type_arg_count;
use crate::resolve::ResolvedSymbol;
use crate::satisfy::{BoundOrigin, Subject};
use crate::scope::ExprContext;
use crate::signatures;
use crate::span::{DefId, FileId, SourceSpan, Spanned, Symbol, TextSpan};
use crate::state;
use crate::state::{ImplTarget, State};
use crate::substitute;
use crate::tir::{
    AccessContext, AccessTarget, EnumVariant, Expression, ImplEntry, ItemIndex, MatchArm, Pattern,
    ResolveContext, SymbolKind, SymbolNamespace, TraitBound,
};
use crate::ty;
use crate::types::{Type, TypeIndex};
use crate::typing;

verus! {

// ---------------------------------------------------------------- the type pool

/// A type that was interned is read back at its index.
pub proof fn law_interned_type_reads_back<'ast>(s: State<'ast>, ty: Type)
    requires
        s.types.len() < usize::MAX,
    ensures
        ({
            let (t, index) = s.intern(ty);
            index < t.types.len() && t.ty(index) == ty
        }),
{
    reveal(State::intern);
    growth::type_position_holds(s.types, ty, 0);
}

/// Interning a type again gives the same index and changes nothing.
pub proof fn law_interning_again_changes_nothing<'ast>(s: State<'ast>, ty: Type)
    requires
        s.types.len() < usize::MAX,
    ensures
        ({
            let (t, index) = s.intern(ty);
            t.intern(ty) == (t, index)
        }),
{
    reveal(State::intern);
    growth::type_position_holds(s.types, ty, 0);
    let (t, index) = s.intern(ty);
    if state::type_position(s.types, ty, 0) >= s.types.len() {
        type_position_is_first(t.types, ty, 0, index as int);
    }
}

proof fn type_position_is_first(types: Seq<Type>, ty: Type, from: int, index: int)
    requires
        0 <= from <= index < types.len(),
        types[index] == ty,
        forall|i: int| from <= i < index ==> types[i] != ty,
    ensures
        state::type_position(types, ty, from) == index,
    decreases index - from,
{
    if from < index {
        type_position_is_first(types, ty, from + 1, index);
    }
}

/// Interning keeps every index: what it stood for it still stands for.
pub proof fn law_interning_keeps_indices<'ast>(s: State<'ast>, ty: Type, index: TypeIndex)
    requires
        index < s.types.len(),
    ensures
        s.intern(ty).0.ty(index) == s.ty(index),
{
    s.adds_intern(ty);
    reveal(State::only_adds);
    reveal(State::grows_to);
}

/// In a pool without duplicates an index is as good as its type: two indices
/// stand for the same type only if they are the same.
pub proof fn law_one_index_per_type<'ast>(s: State<'ast>, first: TypeIndex, second: TypeIndex)
    requires
        growth::distinct_types(s.types),
        first < s.types.len(),
        second < s.types.len(),
    ensures
        s.ty(first) == s.ty(second) <==> first == second,
{
}

// ---------------------------------------------------------------- texts

/// The symbol of a string literal reads back as what the literal stands for.
/// A literal without a symbol is new where no symbol is left.
pub proof fn law_literal_reads_back<'ast>(s: State<'ast>, raw: &String)
    requires
        s.texts.len() <= u32::MAX,
    ensures
        ({
            let (t, symbol) = s.with_literal(raw);
            match symbol {
                Some(symbol) => interner::is_name(t.texts, symbol, literal::unescaped(raw@)),
                None => s.texts.len() == u32::MAX && !s.texts.contains(literal::unescaped(raw@)),
            }
        }),
{
    reveal(State::with_literal);
    let text = literal::unescaped(raw@);
    if s.texts.contains(text) {
        let position = choose|i: int| 0 <= i < s.texts.len() && s.texts[i] == text;
        assert(interner::is_name(s.texts, position as Symbol, text));
    }
}

/// Literals that stand for the same text get the same symbol, whatever their
/// escapes, where no text is held twice.
pub proof fn law_equal_literals_share_a_symbol<'ast>(s: State<'ast>, raw: &String, other: &String)
    requires
        s.texts.len() < u32::MAX,
        forall|i: int, j: int|
            0 <= i < j < s.texts.len() ==> #[trigger] s.texts[i] != #[trigger] s.texts[j],
        literal::unescaped(raw@) == literal::unescaped(other@),
    ensures
        ({
            let (t, symbol) = s.with_literal(raw);
            t.with_literal(other) == (t, symbol)
        }),
{
    reveal(State::with_literal);
    let text = literal::unescaped(raw@);
    let (t, symbol) = s.with_literal(raw);
    law_literal_reads_back(s, raw);
    let first = symbol->0;
    assert(t.texts[first as int] == text);
    assert(interner::is_name(t.texts, interner::symbol_of(t.texts, text), text));
}

/// A symbol keeps its text, whatever is added.
pub proof fn law_symbol_keeps_its_text<'ast>(s: State<'ast>, later: State<'ast>, symbol: Symbol)
    requires
        s.only_adds(later),
        symbol < s.texts.len(),
    ensures
        interner::is_name(later.texts, symbol, s.texts[symbol as int]),
{
    reveal(State::only_adds);
    reveal(State::grows_to);
}

// ---------------------------------------------------------------- names

/// A name has the meaning that it was given last.
pub proof fn law_name_reads_back<'ast>(
    s: State<'ast>,
    namespace: Option<usize>,
    space: SymbolNamespace,
    name: Symbol,
    kind: SymbolKind,
)
    ensures
        s.with_symbol(namespace, space, name, kind).direct_symbol(namespace, space, name) == Some(
            kind,
        ),
{
    reveal(State::with_symbol);
    growth::symbol_position_holds(s.symbols, namespace, space, name, 0);
    let t = s.with_symbol(namespace, space, name, kind);
    symbol_position_after(s.symbols, t.symbols, namespace, space, name, 0);
}

/// The first place of a name does not change when it gets a meaning there.
proof fn symbol_position_after(
    earlier: Seq<crate::tir::SymbolEntry>,
    later: Seq<crate::tir::SymbolEntry>,
    namespace: Option<usize>,
    space: SymbolNamespace,
    name: Symbol,
    from: int,
)
    requires
        0 <= from <= earlier.len() <= later.len(),
        forall|i: int|
            0 <= i < earlier.len() ==> growth::same_name(earlier[i], #[trigger] later[i]),
        later.len() > earlier.len() ==> later[earlier.len() as int].namespace == namespace
            && later[earlier.len() as int].space == space && later[earlier.len() as int].name
            == name,
    ensures
        state::symbol_position(later, namespace, space, name, from) == state::symbol_position(
            earlier,
            namespace,
            space,
            name,
            from,
        ),
    decreases earlier.len() - from,
{
    if from < earlier.len() {
        assert(growth::same_name(earlier[from], later[from]));
        symbol_position_after(earlier, later, namespace, space, name, from + 1);
    }
}

/// Giving a name a meaning leaves every other name as it is.
pub proof fn law_other_names_stay<'ast>(
    s: State<'ast>,
    namespace: Option<usize>,
    space: SymbolNamespace,
    name: Symbol,
    kind: SymbolKind,
    other_namespace: Option<usize>,
    other_space: SymbolNamespace,
    other: Symbol,
)
    requires
        namespace != other_namespace || space != other_space || name != other,
    ensures
        s.with_symbol(namespace, space, name, kind).direct_symbol(
            other_namespace,
            other_space,
            other,
        ) == s.direct_symbol(other_namespace, other_space, other),
{
    reveal(State::with_symbol);
    growth::symbol_position_holds(s.symbols, namespace, space, name, 0);
    growth::symbol_position_holds(s.symbols, other_namespace, other_space, other, 0);
    let t = s.with_symbol(namespace, space, name, kind);
    other_position_stays(s.symbols, t.symbols, other_namespace, other_space, other, 0);
}

proof fn other_position_stays(
    earlier: Seq<crate::tir::SymbolEntry>,
    later: Seq<crate::tir::SymbolEntry>,
    namespace: Option<usize>,
    space: SymbolNamespace,
    name: Symbol,
    from: int,
)
    requires
        0 <= from <= earlier.len() <= later.len() <= earlier.len() + 1,
        forall|i: int|
            0 <= i < earlier.len() ==> growth::same_name(earlier[i], #[trigger] later[i]),
        later.len() > earlier.len() ==> !(later[earlier.len() as int].namespace == namespace
            && later[earlier.len() as int].space == space && later[earlier.len() as int].name
            == name),
    ensures
        ({
            let position = state::symbol_position(earlier, namespace, space, name, from);
            let after = state::symbol_position(later, namespace, space, name, from);
            &&& position < earlier.len() ==> after == position
            &&& position >= earlier.len() ==> after == later.len()
        }),
    decreases earlier.len() - from,
{
    if from < earlier.len() {
        assert(growth::same_name(earlier[from], later[from]));
        other_position_stays(earlier, later, namespace, space, name, from + 1);
    } else {
        assert(state::symbol_position(later, namespace, space, name, from + 1) == later.len());
    }
}

/// Of several definitions of one name in one namespace the first gets it;
/// each later one is reported and changes no meaning.
pub proof fn law_first_definition_wins<'ast>(
    s: State<'ast>,
    namespace: Option<usize>,
    space: SymbolNamespace,
    name: Symbol,
    first: DefId,
    first_place: SourceSpan,
    second: DefId,
    second_place: SourceSpan,
)
    requires
        s.direct_symbol(namespace, space, name) is None,
    ensures
        ({
            let (t, claim) = s.claimed(namespace, space, name, first, first_place);
            let (u, later_claim) = t.claimed(namespace, space, name, second, second_place);
            &&& claim == PendingClaim::Claimed
            &&& later_claim == PendingClaim::Duplicate
            &&& u.symbols == t.symbols
            &&& u.direct_symbol(namespace, space, name) == Some(SymbolKind::Pending(first))
            &&& u.diagnostics.len() == s.diagnostics.len() + 1
        }),
{
    reveal(State::report);
    law_name_reads_back(s, namespace, space, name, SymbolKind::Pending(first));
    assert(s.with_symbol(namespace, space, name, SymbolKind::Pending(first)).diagnostics
        == s.diagnostics) by {
        reveal(State::with_symbol);
    }
}

/// A definition that lost its name to an earlier one does not get it later.
pub proof fn law_lost_name_stays_lost<'ast>(
    s: State<'ast>,
    namespace: Option<usize>,
    space: SymbolNamespace,
    name: Symbol,
    id: DefId,
    kind: SymbolKind,
)
    requires
        s.direct_symbol(namespace, space, name) != Some(SymbolKind::Pending(id)),
    ensures
        s.bound(namespace, space, name, id, kind) == s,
{
}

/// A name that has a meaning keeps having one, whatever is added.
pub proof fn law_bound_name_stays_bound<'ast>(
    s: State<'ast>,
    later: State<'ast>,
    namespace: Option<usize>,
    space: SymbolNamespace,
    name: Symbol,
)
    requires
        s.only_adds(later),
        s.direct_symbol(namespace, space, name) is Some,
    ensures
        later.direct_symbol(namespace, space, name) is Some,
{
    reveal(State::only_adds);
    reveal(State::grows_to);
    growth::symbol_position_holds(s.symbols, namespace, space, name, 0);
    growth::symbol_position_holds(later.symbols, namespace, space, name, 0);
    let position = state::symbol_position(s.symbols, namespace, space, name, 0);
    assert(later.symbols[position].name == name);
}

/// A definition is found where it was put last.
pub proof fn law_item_reads_back<'ast>(s: State<'ast>, id: DefId, index: ItemIndex)
    ensures
        s.with_item(id, index).item(id) == Some(index),
{
    reveal(State::with_item);
    growth::item_position_holds(s.items, id, 0);
    let t = s.with_item(id, index);
    growth::item_position_holds(t.items, id, 0);
    item_position_after(s.items, t.items, id, 0);
}

proof fn item_position_after(
    earlier: Seq<crate::tir::ItemEntry>,
    later: Seq<crate::tir::ItemEntry>,
    id: DefId,
    from: int,
)
    requires
        0 <= from <= earlier.len() <= later.len(),
        forall|i: int| 0 <= i < earlier.len() ==> earlier[i].id == (#[trigger] later[i]).id,
        later.len() > earlier.len() ==> later[earlier.len() as int].id == id,
    ensures
        state::item_position(later, id, from) == state::item_position(earlier, id, from),
    decreases earlier.len() - from,
{
    if from < earlier.len() {
        assert(earlier[from].id == later[from].id);
        item_position_after(earlier, later, id, from + 1);
    }
}

// ---------------------------------------------------------------- how types relate

/// A type can be used as itself; code that does not finish, and a poisoned
/// type, can be used as anything; anything can be used as a poisoned type.
/// None of that adds a type.
pub proof fn law_coercion_basics<'ast>(s: State<'ast>, a: TypeIndex)
    ensures
        s.coercible(a, a) == (s, true),
        s.coercible(ty::NEVER, a) == (s, true),
        s.coercible(ty::ERROR, a) == (s, true),
        s.coercible(a, ty::ERROR) == (s, true),
{
}

/// What can be used as a second type that can be used as a third can be used
/// as the third. The poison type in between tells nothing.
pub proof fn law_coercion_chains<'ast>(s: State<'ast>, a: TypeIndex, b: TypeIndex, c: TypeIndex)
    requires
        s.ty(ty::NEVER) == Type::Never,
        b != ty::ERROR,
        s.coercible(a, b).1,
        s.coercible(b, c).1,
    ensures
        s.coercible(a, c).1,
{
}

/// A pointer may lose the right to write, and does not gain it.
pub proof fn law_right_to_write_is_only_lost<'ast>(
    s: State<'ast>,
    writable: TypeIndex,
    readable: TypeIndex,
    to: TypeIndex,
    memory: TypeIndex,
)
    requires
        s.ty(writable) == (Type::Pointer { to, memory, mutable: true }),
        s.ty(readable) == (Type::Pointer { to, memory, mutable: false }),
        readable != ty::NEVER,
        readable != ty::ERROR,
        writable != ty::ERROR,
    ensures
        s.coercible(writable, readable).1,
        !s.coercible(readable, writable).1,
{
}

/// A branch agrees with itself, a branch that does not finish with every
/// other one, and a poisoned one poisons both.
pub proof fn law_branch_basics<'ast>(s: State<'ast>, a: TypeIndex)
    ensures
        s.unified(a, a) == (s, Some(a)),
        s.unified(a, ty::NEVER) == (s, Some(a)),
        s.unified(ty::NEVER, a) == (s, Some(a)),
        s.unified(a, ty::ERROR) == (s, Some(ty::ERROR)),
        s.unified(ty::ERROR, a) == (s, Some(ty::ERROR)),
{
}

/// Outside of function items, two branches agree or not whichever comes
/// first, and both can be used as the type that they agree on.
pub proof fn law_branches_agree_both_ways<'ast>(s: State<'ast>, a: TypeIndex, b: TypeIndex)
    requires
        s.ty(a) !is FunctionItem || s.ty(b) !is FunctionItem,
    ensures
        s.unified(a, b) == s.unified(b, a),
        s.unified(a, b).0 == s,
        match s.unified(a, b).1 {
            Some(common) => s.coercible(a, common) == (s, true) && s.coercible(b, common) == (
                s,
                true,
            ),
            None => a != b && a != ty::NEVER && b != ty::NEVER && a != ty::ERROR && b != ty::ERROR,
        },
{
}

/// Whether two types have the same representation does not depend on their
/// order.
pub proof fn law_representation_is_symmetric<'ast>(s: State<'ast>, a: TypeIndex, b: TypeIndex)
    ensures
        s.scalar_compatible(a, a),
        s.scalar_compatible(a, b) == s.scalar_compatible(b, a),
{
}

/// A hole in an annotation fits every type, and a type fits itself.
pub proof fn law_annotation_basics<'ast>(s: State<'ast>, actual: TypeIndex)
    ensures
        s.satisfies(actual, ty::INFER),
        s.satisfies(actual, actual),
{
}

/// A hole in an annotation fits every type also where it is a part: the
/// element of a slice or an array, what a pointer leads to.
pub proof fn law_hole_fits_any_part<'ast>(
    s: State<'ast>,
    actual: TypeIndex,
    expected: TypeIndex,
    part: TypeIndex,
    memory: TypeIndex,
    size: u32,
    mutable: bool,
)
    requires
        ({
            ||| s.ty(actual) == (Type::Slice { of: part, memory, mutable }) && s.ty(expected) == (
            Type::Slice { of: ty::INFER, memory, mutable })
            ||| s.ty(actual) == (Type::Array { of: part, size, memory, mutable }) && s.ty(expected)
                == (Type::Array { of: ty::INFER, size, memory, mutable })
            ||| s.ty(actual) == (Type::Pointer { to: part, memory, mutable }) && s.ty(expected)
                == (Type::Pointer { to: ty::INFER, memory, mutable })
        }),
    ensures
        s.satisfies(actual, expected),
{
    assert(s.satisfies_pair(part, ty::INFER, memory, memory, MAX_DEPTH));
}

/// A hole is found wherever it is: a type has one exactly when it is one or
/// one of its parts has one.
pub proof fn law_hole_is_found_anywhere<'ast>(s: State<'ast>, index: TypeIndex, depth: usize)
    ensures
        s.has_infer(index) == s.has_infer_within(index, MAX_DEPTH),
        s.has_infer_within(index, depth) <==> index == ty::INFER || (depth > 0 && exists|
            part: TypeIndex,
        |
            has_part(s.ty(index), part) && #[trigger] s.has_infer_within(
                part,
                (depth - 1) as usize,
            )),
{
    match s.ty(index) {
        Type::Tuple { elements } => {
            hole_of_a_list(s, elements, depth);
            assert(s.has_infer_within(index, depth) == (index == ty::INFER || s.any_infer(
                elements,
                depth,
            )));
        },
        Type::Function { signature } => {
            hole_of_a_list(s, signature.params, depth);
            assert(s.has_infer_within(index, depth) == (index == ty::INFER || s.any_infer(
                signature.params,
                depth,
            ) || (depth > 0 && s.has_infer_within(signature.result, (depth - 1) as usize))));
            if depth > 0 && s.has_infer_within(signature.result, (depth - 1) as usize) {
                assert(has_part(s.ty(index), signature.result));
            }
        },
        Type::Struct { struct_index: _, args } => {
            hole_of_a_list(s, args, depth);
            assert(s.has_infer_within(index, depth) == (index == ty::INFER || s.any_infer(
                args,
                depth,
            )));
        },
        Type::FunctionItem { id: _, type_args } => {
            hole_of_a_list(s, type_args, depth);
            assert(s.has_infer_within(index, depth) == (index == ty::INFER || s.any_infer(
                type_args,
                depth,
            )));
        },
        Type::Pointer { to, memory, mutable: _ } => {
            hole_of_a_pair(s, index, to, memory, depth);
        },
        Type::Array { of, size: _, memory, mutable: _ } => {
            hole_of_a_pair(s, index, of, memory, depth);
        },
        Type::Slice { of, memory, mutable: _ } => {
            hole_of_a_pair(s, index, of, memory, depth);
        },
        Type::AssocTypeProjection { base, assoc_name: _, trait_index: _ } => {
            hole_of_a_pair(s, index, base, base, depth);
        },
        _ => {},
    }
}

proof fn hole_of_a_pair<'ast>(
    s: State<'ast>,
    index: TypeIndex,
    first: TypeIndex,
    second: TypeIndex,
    depth: usize,
)
    requires
        s.has_infer_within(index, depth) == (index == ty::INFER || (depth > 0 && (
        s.has_infer_within(first, (depth - 1) as usize) || s.has_infer_within(
            second,
            (depth - 1) as usize,
        )))),
        forall|part: TypeIndex| #[trigger]
            has_part(s.ty(index), part) <==> part == first || part == second,
    ensures
        s.has_infer_within(index, depth) <==> index == ty::INFER || (depth > 0 && exists|
            part: TypeIndex,
        |
            has_part(s.ty(index), part) && #[trigger] s.has_infer_within(
                part,
                (depth - 1) as usize,
            )),
{
    assert(has_part(s.ty(index), first) && has_part(s.ty(index), second));
}

proof fn hole_of_a_list<'ast>(s: State<'ast>, types: List<TypeIndex>, depth: usize)
    ensures
        s.any_infer(types, depth) <==> depth > 0 && exists|part: TypeIndex|
            lists(types, part) && #[trigger] s.has_infer_within(part, (depth - 1) as usize),
    decreases types,
{
    match types {
        List::Nil => {},
        List::Cons(head, tail) => {
            hole_of_a_list(s, *tail, depth);
            let inner = (depth - 1) as usize;
            if s.any_infer(*tail, depth) {
                let part = choose|part: TypeIndex|
                    lists(*tail, part) && #[trigger] s.has_infer_within(part, inner);
                assert(lists(types, part) && s.has_infer_within(part, inner));
            }
            if depth > 0 && s.has_infer_within(*head, inner) {
                assert(lists(types, *head) && s.has_infer_within(*head, inner));
            }
        },
    }
}

// ---------------------------------------------------------------- type arguments

impl<'ast> State<'ast> {
    /// Whether no type parameter and no open associated type is part of a
    /// type, as far as `depth` reaches into its parts.
    pub open spec fn is_closed(self, index: TypeIndex, depth: usize) -> bool
        decreases depth, 1nat, List::<TypeIndex>::Nil,
    {
        match self.ty(index) {
            Type::TypeParam { .. } | Type::AssocTypeProjection { .. } => false,
            Type::Pointer { to, memory, mutable: _ } => depth > 0 ==> self.is_closed(
                to,
                (depth - 1) as usize,
            ) && self.is_closed(memory, (depth - 1) as usize),
            Type::Array { of, size: _, memory, mutable: _ } => depth > 0 ==> self.is_closed(
                of,
                (depth - 1) as usize,
            ) && self.is_closed(memory, (depth - 1) as usize),
            Type::Slice { of, memory, mutable: _ } => depth > 0 ==> self.is_closed(
                of,
                (depth - 1) as usize,
            ) && self.is_closed(memory, (depth - 1) as usize),
            Type::Tuple { elements } => self.all_closed(elements, depth),
            Type::Function { signature } => self.all_closed(signature.params, depth) && (depth > 0
                ==> self.is_closed(signature.result, (depth - 1) as usize)),
            Type::Struct { struct_index: _, args } => self.all_closed(args, depth),
            Type::FunctionItem { id: _, type_args } => self.all_closed(type_args, depth),
            _ => true,
        }
    }

    /// Whether the parts of a type are closed.
    pub open spec fn all_closed(self, types: List<TypeIndex>, depth: usize) -> bool
        decreases depth, 0nat, types,
    {
        match types {
            List::Nil => true,
            List::Cons(head, tail) => (depth > 0 ==> self.is_closed(*head, (depth - 1) as usize))
                && self.all_closed(*tail, depth),
        }
    }
}

/// A type without type parameters is not changed by any arguments.
pub proof fn law_closed_type_stays<'ast>(
    s: State<'ast>,
    index: TypeIndex,
    args: List<TypeIndex>,
    depth: usize,
)
    requires
        s.is_closed(index, depth),
    ensures
        s.substituted(index, args, depth) == (s, index),
    decreases depth, 1nat, List::<TypeIndex>::Nil,
{
    match s.ty(index) {
        Type::Pointer { to, memory, mutable: _ } => {
            closed_pair_stays(s, to, memory, args, depth);
        },
        Type::Array { of, size: _, memory, mutable: _ } => {
            closed_pair_stays(s, of, memory, args, depth);
        },
        Type::Slice { of, memory, mutable: _ } => {
            closed_pair_stays(s, of, memory, args, depth);
        },
        Type::Tuple { elements } => {
            closed_types_stay(s, elements, args, depth);
        },
        Type::Function { signature } => {
            closed_types_stay(s, signature.params, args, depth);
            if depth > 0 {
                law_closed_type_stays(s, signature.result, args, (depth - 1) as usize);
            }
        },
        Type::Struct { struct_index: _, args: struct_args } => {
            closed_types_stay(s, struct_args, args, depth);
        },
        Type::FunctionItem { id: _, type_args } => {
            closed_types_stay(s, type_args, args, depth);
        },
        _ => {},
    }
}

proof fn closed_pair_stays<'ast>(
    s: State<'ast>,
    first: TypeIndex,
    second: TypeIndex,
    args: List<TypeIndex>,
    depth: usize,
)
    requires
        depth > 0 ==> s.is_closed(first, (depth - 1) as usize) && s.is_closed(
            second,
            (depth - 1) as usize,
        ),
    ensures
        s.substituted_pair(first, second, args, depth) == (s, first, second),
    decreases depth, 0nat, List::<TypeIndex>::Nil,
{
    if depth > 0 {
        law_closed_type_stays(s, first, args, (depth - 1) as usize);
        law_closed_type_stays(s, second, args, (depth - 1) as usize);
    }
}

proof fn closed_types_stay<'ast>(
    s: State<'ast>,
    types: List<TypeIndex>,
    args: List<TypeIndex>,
    depth: usize,
)
    requires
        s.all_closed(types, depth),
    ensures
        s.substituted_list(types, args, depth) == (s, types),
    decreases depth, 0nat, types,
{
    match types {
        List::Nil => {},
        List::Cons(head, tail) => {
            if depth > 0 {
                law_closed_type_stays(s, *head, args, (depth - 1) as usize);
            }
            closed_types_stay(s, *tail, args, depth);
        },
    }
}

/// A type parameter with an argument that is not poisoned becomes it.
pub proof fn law_parameter_becomes_argument<'ast>(
    s: State<'ast>,
    index: TypeIndex,
    args: List<TypeIndex>,
    depth: usize,
    argument: TypeIndex,
)
    requires
        s.ty(index) is TypeParam,
        args.at(s.ty(index)->TypeParam_param_index as nat) == Some(argument),
        argument != ty::ERROR,
    ensures
        s.substituted(index, args, depth) == (s, argument),
{
}

/// Inference fixes what is open and nothing else: a type argument that is
/// known stays, and there are as many as before.
pub proof fn law_inference_keeps_what_is_known<'ast>(
    s: State<'ast>,
    args: List<TypeIndex>,
    param: TypeIndex,
    actual: TypeIndex,
    slot: nat,
)
    ensures
        s.inferred(args, param, actual).count() == args.count(),
        args.at(slot) is Some && args.at(slot) != Some(ty::INFER) ==> s.inferred(
            args,
            param,
            actual,
        ).at(slot) == args.at(slot),
{
    inference_keeps(s, args, param, actual, slot, MAX_DEPTH);
}

proof fn inference_keeps<'ast>(
    s: State<'ast>,
    args: List<TypeIndex>,
    param: TypeIndex,
    actual: TypeIndex,
    slot: nat,
    depth: usize,
)
    ensures
        s.inferred_within(args, param, actual, depth).count() == args.count(),
        args.at(slot) is Some && args.at(slot) != Some(ty::INFER) ==> s.inferred_within(
            args,
            param,
            actual,
            depth,
        ).at(slot) == args.at(slot),
    decreases depth, 1nat, List::<TypeIndex>::Nil,
{
    match (s.ty(param), s.ty(actual)) {
        (Type::TypeParam { owner: _, param_index }, _) => {
            replaced_counts(args, param_index as nat, actual);
            crate::scope::lemma_at_replaced(args, param_index as nat, actual, slot);
        },
        (
            Type::Struct { struct_index: _, args: a_args },
            Type::Struct { struct_index: _, args: b_args },
        ) => {
            inference_keeps_all(s, args, a_args, b_args, slot, depth);
        },
        (
            Type::Pointer { to: a, memory: a_memory, mutable: _ },
            Type::Pointer { to: b, memory: b_memory, mutable: _ },
        ) => {
            inference_keeps_all(
                s,
                args,
                list::cons(a, list::cons(a_memory, List::Nil)),
                list::cons(b, list::cons(b_memory, List::Nil)),
                slot,
                depth,
            );
        },
        (
            Type::Slice { of: a, memory: a_memory, mutable: _ },
            Type::Slice { of: b, memory: b_memory, mutable: _ },
        ) => {
            inference_keeps_all(
                s,
                args,
                list::cons(a, list::cons(a_memory, List::Nil)),
                list::cons(b, list::cons(b_memory, List::Nil)),
                slot,
                depth,
            );
        },
        (
            Type::Array { of: a, size: _, memory: a_memory, mutable: _ },
            Type::Array { of: b, size: _, memory: b_memory, mutable: _ },
        ) => {
            inference_keeps_all(
                s,
                args,
                list::cons(a, list::cons(a_memory, List::Nil)),
                list::cons(b, list::cons(b_memory, List::Nil)),
                slot,
                depth,
            );
        },
        (Type::Tuple { elements: a }, Type::Tuple { elements: b }) => {
            inference_keeps_all(s, args, a, b, slot, depth);
        },
        (Type::Function { signature: a }, Type::Function { signature: b }) => {
            inference_keeps_all(s, args, a.params, b.params, slot, depth);
            let next = s.inferred_list(args, a.params, b.params, depth);
            if depth > 0 {
                inference_keeps(s, next, a.result, b.result, slot, (depth - 1) as usize);
            }
        },
        _ => {},
    }
}

proof fn inference_keeps_all<'ast>(
    s: State<'ast>,
    args: List<TypeIndex>,
    params: List<TypeIndex>,
    actuals: List<TypeIndex>,
    slot: nat,
    depth: usize,
)
    ensures
        s.inferred_list(args, params, actuals, depth).count() == args.count(),
        args.at(slot) is Some && args.at(slot) != Some(ty::INFER) ==> s.inferred_list(
            args,
            params,
            actuals,
            depth,
        ).at(slot) == args.at(slot),
    decreases depth, 0nat, params,
{
    match (params, actuals) {
        (List::Cons(param, rest), List::Cons(actual, actual_rest)) => {
            if depth > 0 {
                inference_keeps(s, args, *param, *actual, slot, (depth - 1) as usize);
            }
            let next = if depth > 0 {
                s.inferred_within(args, *param, *actual, (depth - 1) as usize)
            } else {
                args
            };
            inference_keeps_all(s, next, *rest, *actual_rest, slot, depth);
        },
        _ => {},
    }
}

proof fn replaced_counts<T>(list: List<T>, index: nat, value: T)
    ensures
        list.replaced(index, value).count() == list.count(),
    decreases list,
{
    match list {
        List::Nil => {},
        List::Cons(_, tail) => {
            if index > 0 {
                replaced_counts(*tail, (index - 1) as nat, value);
            }
        },
    }
}

/// A call that is settled leaves no type argument open: each that nothing
/// fixes is poisoned, each other stays.
pub proof fn law_no_type_argument_stays_open(types: &List<TypeIndex>, slot: nat)
    ensures
        generics::closed_types(types).count() == types.count(),
        match types.at(slot) {
            Some(index) => generics::closed_types(types).at(slot) == Some(
                if index == ty::INFER {
                    ty::ERROR
                } else {
                    index
                },
            ),
            None => generics::closed_types(types).at(slot) is None,
        },
    decreases types,
{
    match types {
        List::Nil => {},
        List::Cons(_, rest) => {
            if slot > 0 {
                law_no_type_argument_stays_open(rest, (slot - 1) as nat);
            } else {
                law_no_type_argument_stays_open(rest, 0);
            }
        },
    }
}

/// Whatever is wrong with a generic call, it comes back with a type for each
/// of its type parameters, none of which is left to infer.
pub proof fn law_generic_call_has_every_type<'ast>(
    s: State<'ast>,
    ctx: ExprContext,
    func_index: usize,
    arguments: List<Expression>,
    type_args: List<TypeIndex>,
    expected_result: TypeIndex,
    call_span: TextSpan,
    slot: nat,
)
    ensures
        ({
            let (_, _, (types, _)) = s.build_generic_call_arguments(
                ctx,
                func_index,
                arguments,
                type_args,
                expected_result,
                call_span,
            );
            &&& types.count() == type_args.count()
            &&& types.at(slot) != Some(ty::INFER)
        }),
{
    reveal(State::build_generic_call_arguments);
    let params = s.function_param_types(func_index);
    let result = s.function_result_type(func_index);
    let seeded = if expected_result != ty::INFER {
        s.inferred(type_args, result, expected_result)
    } else {
        type_args
    };
    law_inference_keeps_what_is_known(s, type_args, result, expected_result, slot);
    argument_inference_counts(s, seeded, &params, &arguments);
    let fixed = s.infer_from_arguments(seeded, &params, &arguments);
    law_no_type_argument_stays_open(&fixed, slot);
}

proof fn argument_inference_counts<'ast>(
    s: State<'ast>,
    type_args: List<TypeIndex>,
    params: &List<TypeIndex>,
    arguments: &List<Expression>,
)
    ensures
        s.infer_from_arguments(type_args, params, arguments).count() == type_args.count(),
    decreases params,
{
    match (params, arguments) {
        (List::Cons(param, params_rest), List::Cons(argument, rest)) => {
            law_inference_keeps_what_is_known(s, type_args, **param, argument.ty, 0);
            argument_inference_counts(
                s,
                s.inferred(type_args, **param, argument.ty),
                params_rest,
                rest,
            );
        },
        _ => {},
    }
}

/// A list of type arguments is cut off or filled up to the asked length.
pub proof fn law_resized_length(types: &List<TypeIndex>, total: usize)
    ensures
        members::resized_types(types, total).count() == total,
    decreases total,
{
    if total > 0 {
        match types {
            List::Nil => {
                repeated_counts(ty::INFER, total as nat);
            },
            List::Cons(_, rest) => {
                law_resized_length(rest, (total - 1) as usize);
            },
        }
    }
}

proof fn repeated_counts(value: TypeIndex, count: nat)
    ensures
        List::repeated(value, count).count() == count,
    decreases count,
{
    if count > 0 {
        repeated_counts(value, (count - 1) as nat);
    }
}

/// A struct or a type alias that is applied to a wrong number of type
/// arguments is reported once and keeps its identity: the struct stays, with
/// every argument poisoned, and the alias stands for its aliased type, with
/// every type parameter poisoned.
pub proof fn law_wrong_arity_keeps_identity<'ast>(
    s: State<'ast>,
    context: ResolveContext,
    kind: SymbolKind,
    args: &List<TypeIndex>,
    span: TextSpan,
    arity: TypeArgArity,
)
    requires
        s.types.len() < usize::MAX,
        s.generic_arity(kind) matches Some((expected, _)) && args.len() != expected,
        arity == TypeArgArity::AllowInfer ==> args.len() != 0,
    ensures
        ({
            let (expected, name) = s.generic_arity(kind)->0;
            let mismatch = report_type_arg_count(name, expected, args.len(), context.at(span));
            let (t, index) = s.resolve_generic_type_application(context, kind, args, span, arity);
            &&& t.diagnostics == s.diagnostics.push(mismatch)
            &&& match kind {
                SymbolKind::Struct { struct_index } => t.ty(index) == (Type::Struct {
                    struct_index,
                    args: List::repeated(ty::ERROR, expected as nat),
                }),
                SymbolKind::TypeAlias { type_alias_index } => (t, index) == s.report(
                    mismatch,
                ).access(AccessTarget::TypeAlias(type_alias_index), context.at(span)).poisoned(
                    s.type_aliases[type_alias_index as int].template,
                    MAX_DEPTH,
                ),
                _ => false,
            }
        }),
{
    reveal(State::resolve_generic_type_application);
    reveal(State::report);
    reveal(State::access);
    let (expected, name) = s.generic_arity(kind)->0;
    let reported = s.report(
        report_type_arg_count(name, expected, args.len(), context.at(span)),
    );
    match kind {
        SymbolKind::Struct { struct_index } => {
            let used = reported.access(AccessTarget::Struct(struct_index), context.at(span));
            let ty = Type::Struct {
                struct_index,
                args: List::repeated(ty::ERROR, expected as nat),
            };
            law_interned_type_reads_back(used, ty);
            assert(used.intern(ty).0.diagnostics == used.diagnostics) by {
                reveal(State::intern);
            }
        },
        SymbolKind::TypeAlias { type_alias_index } => {
            let used = reported.access(
                AccessTarget::TypeAlias(type_alias_index),
                context.at(span),
            );
            pool::law_poisoning_changes_types_alone(
                used,
                s.type_aliases[type_alias_index as int].template,
                MAX_DEPTH,
            );
        },
        _ => {},
    }
}

// ---------------------------------------------------------------- scopes

/// What a namespace defines itself comes before what it imports and before
/// what the namespaces around it define.
pub proof fn law_own_name_comes_first<'ast>(
    s: State<'ast>,
    namespace: Option<usize>,
    space: SymbolNamespace,
    name: Symbol,
)
    requires
        s.direct_symbol(namespace, space, name) is Some,
    ensures
        s.visible_symbol(namespace, space, name) == s.direct_symbol(namespace, space, name),
{
}

/// A local comes before everything else of its name.
pub proof fn law_local_comes_first<'ast>(s: State<'ast>, ctx: &ExprContext, name: Symbol)
    ensures
        match ctx.local_named(name) {
            Some((scope_index, local_index)) => s.resolve_symbol(ctx, name) == Some(
                ResolvedSymbol::Local { scope_index, local_index },
            ),
            None => s.resolve_symbol(ctx, name) !is Some || s.resolve_symbol(ctx, name)->0 is Global,
        },
{
}

// ---------------------------------------------------------------- matches

/// Whether an arm has the pattern of each variant from a position on.
pub open spec fn all_covered(
    variants: &List<EnumVariant>,
    arms: &List<MatchArm>,
    enum_index: usize,
    index: nat,
) -> bool {
    forall|i: nat|
        i < variants.count() ==> #[trigger] covers_variant(arms, enum_index, (index + i) as nat)
}

/// Whether an arm has the pattern of a variant.
pub open spec fn covers_variant(arms: &List<MatchArm>, enum_index: usize, index: nat) -> bool {
    typing::arms_cover(arms, Pattern::EnumVariant { enum_index, variant_index: index as usize })
}

proof fn uncovered_is_empty(
    variants: &List<EnumVariant>,
    arms: &List<MatchArm>,
    enum_index: usize,
    index: usize,
)
    requires
        index + variants.count() <= usize::MAX,
    ensures
        typing::uncovered_variants(variants, arms, enum_index, index) is Nil <==> all_covered(
            variants,
            arms,
            enum_index,
            index as nat,
        ),
    decreases variants,
{
    match variants {
        List::Nil => {},
        List::Cons(_, rest) => {
            uncovered_is_empty(rest, arms, enum_index, crate::scope::next_index(index));
            let next = (index + 1) as nat;
            if all_covered(variants, arms, enum_index, index as nat) {
                assert(covers_variant(arms, enum_index, (index as nat + 0) as nat));
                assert forall|i: nat| i < rest.count() implies #[trigger] covers_variant(
                    arms,
                    enum_index,
                    (next + i) as nat,
                ) by {
                    assert(covers_variant(arms, enum_index, (index as nat + (i + 1)) as nat));
                }
            }
            if covers_variant(arms, enum_index, index as nat) && all_covered(
                rest,
                arms,
                enum_index,
                next,
            ) {
                assert forall|i: nat| i < variants.count() implies #[trigger] covers_variant(
                    arms,
                    enum_index,
                    (index as nat + i) as nat,
                ) by {
                    if i > 0 {
                        assert(covers_variant(arms, enum_index, (next + (i - 1)) as nat));
                    }
                }
            }
        },
    }
}

/// A match on an enum is exhaustive exactly when it has a wildcard or an arm
/// for each variant; where it is not, that is reported once.
pub proof fn law_enum_match_is_exhaustive<'ast>(
    s: State<'ast>,
    file_id: FileId,
    scrutinee: TypeIndex,
    enum_index: usize,
    arms: &List<MatchArm>,
    span: TextSpan,
)
    requires
        s.ty(scrutinee) == (Type::Enum { enum_index }),
        enum_index < s.enums.len(),
        s.enums[enum_index as int].variants.count() <= usize::MAX,
    ensures
        ({
            let (t, exhaustive) = s.check_match_exhaustiveness(file_id, scrutinee, arms, span);
            &&& exhaustive <==> typing::arms_cover(arms, Pattern::Wildcard) || all_covered(
                &s.enums[enum_index as int].variants,
                arms,
                enum_index,
                0,
            )
            &&& exhaustive ==> t == s
            &&& !exhaustive ==> t.diagnostics.len() == s.diagnostics.len() + 1
        }),
{
    reveal(State::check_match_exhaustiveness);
    reveal(State::report);
    uncovered_is_empty(&s.enums[enum_index as int].variants, arms, enum_index, 0);
}

/// A match on anything but an enum needs a wildcard.
pub proof fn law_other_match_needs_wildcard<'ast>(
    s: State<'ast>,
    file_id: FileId,
    scrutinee: TypeIndex,
    arms: &List<MatchArm>,
    span: TextSpan,
)
    requires
        s.ty(scrutinee) !is Enum,
    ensures
        s.check_match_exhaustiveness(file_id, scrutinee, arms, span).1 == typing::arms_cover(
            arms,
            Pattern::Wildcard,
        ),
{
    reveal(State::check_match_exhaustiveness);
}

// ---------------------------------------------------------------- enums

/// Whether one of the shared values is the given one.
pub open spec fn shares(shared: List<SharedValue>, value: i64) -> bool
    decreases shared,
{
    match shared {
        List::Nil => false,
        List::Cons(first, rest) => first.value == value || shares(*rest, value),
    }
}

/// The places of a value among the shared ones.
pub open spec fn shared_places(shared: List<SharedValue>, value: i64) -> Option<List<SourceSpan>>
    decreases shared,
{
    match shared {
        List::Nil => None,
        List::Cons(first, rest) => if first.value == value {
            Some(first.places)
        } else {
            shared_places(*rest, value)
        },
    }
}

/// Whether the shared values come in the order of their earliest places, and
/// none comes twice.
pub open spec fn in_source_order(shared: List<SharedValue>) -> bool
    decreases shared,
{
    match shared {
        List::Nil => true,
        List::Cons(first, rest) => {
            &&& all_preceded(*first, *rest)
            &&& !shares(*rest, first.value)
            &&& in_source_order(*rest)
        },
    }
}

/// Whether one shared value precedes each of the others.
pub open spec fn all_preceded(first: SharedValue, others: List<SharedValue>) -> bool
    decreases others,
{
    match others {
        List::Nil => true,
        List::Cons(other, rest) => first.precedes(*other) && all_preceded(first, *rest),
    }
}

proof fn precedence_chains(first: SharedValue, second: SharedValue, others: List<SharedValue>)
    requires
        first.precedes(second),
        all_preceded(second, others),
    ensures
        all_preceded(first, others),
    decreases others,
{
    match others {
        List::Nil => {},
        List::Cons(_, rest) => {
            precedence_chains(first, second, *rest);
        },
    }
}

proof fn insertion_keeps_precedence(
    first: SharedValue,
    shared: List<SharedValue>,
    added: SharedValue,
)
    requires
        first.precedes(added),
        all_preceded(first, shared),
    ensures
        all_preceded(first, lookup::with_shared(shared, added)),
    decreases shared,
{
    match shared {
        List::Nil => {
            assert(all_preceded(first, List::Nil));
        },
        List::Cons(other, rest) => {
            if other.precedes(added) {
                insertion_keeps_precedence(first, *rest, added);
            }
        },
    }
}

proof fn insertion_adds_one(shared: List<SharedValue>, added: SharedValue, value: i64)
    requires
        !shares(shared, added.value),
    ensures
        shared_places(lookup::with_shared(shared, added), value) == if value == added.value {
            Some(added.places)
        } else {
            shared_places(shared, value)
        },
        shares(lookup::with_shared(shared, added), value) <==> value == added.value || shares(
            shared,
            value,
        ),
        lookup::with_shared(shared, added).count() == shared.count() + 1,
    decreases shared,
{
    match shared {
        List::Nil => {
            assert(shared_places(List::Nil, value) is None);
            assert(!shares(List::Nil, value));
        },
        List::Cons(first, rest) => {
            if first.precedes(added) {
                insertion_adds_one(*rest, added, value);
            }
        },
    }
}

proof fn insertion_keeps_order(shared: List<SharedValue>, added: SharedValue)
    requires
        in_source_order(shared),
        !shares(shared, added.value),
    ensures
        in_source_order(lookup::with_shared(shared, added)),
    decreases shared,
{
    match shared {
        List::Nil => {
            assert(in_source_order(List::Nil));
            assert(all_preceded(added, List::Nil));
            assert(!shares(List::Nil, added.value));
        },
        List::Cons(first, rest) => {
            if first.precedes(added) {
                insertion_keeps_order(*rest, added);
                insertion_keeps_precedence(*first, *rest, added);
                insertion_adds_one(*rest, added, first.value);
            } else {
                precedence_chains(added, *first, *rest);
            }
        },
    }
}

proof fn shared_values_are_exact(
    file_id: FileId,
    variants: &List<EnumVariant>,
    seen: &List<i64>,
    value: i64,
)
    ensures
        ({
            let shared = lookup::shared_values(file_id, variants, seen);
            let places = lookup::places_of_value(file_id, variants, value);
            &&& shared_places(shared, value) == if !lookup::lists_value(seen, value)
                && places.count() > 1 {
                Some(places)
            } else {
                None
            }
            &&& shares(shared, value) <==> shared_places(shared, value) is Some
        }),
    decreases variants,
{
    match variants {
        List::Nil => {},
        List::Cons(variant, rest) => match variant.const_value {
            Some(own) => {
                let next = list::cons(own, *seen);
                shared_values_are_exact(file_id, rest, &next, value);
                shared_values_are_exact(file_id, rest, &next, own);
                assert(lookup::lists_value(&next, own));
                assert(lookup::lists_value(&next, value) == (own == value || lookup::lists_value(
                    seen,
                    value,
                )));
                let places = lookup::places_of_value(file_id, variants, own);
                insertion_adds_one(
                    lookup::shared_values(file_id, rest, &next),
                    SharedValue { value: own, places },
                    value,
                );
            },
            None => {
                shared_values_are_exact(file_id, rest, seen, value);
            },
        },
    }
}

proof fn shared_values_are_ordered(
    file_id: FileId,
    variants: &List<EnumVariant>,
    seen: &List<i64>,
)
    ensures
        in_source_order(lookup::shared_values(file_id, variants, seen)),
    decreases variants,
{
    match variants {
        List::Nil => {},
        List::Cons(variant, rest) => match variant.const_value {
            Some(own) => {
                let next = list::cons(own, *seen);
                shared_values_are_ordered(file_id, rest, &next);
                shared_values_are_exact(file_id, rest, &next, own);
                assert(lookup::lists_value(&next, own));
                insertion_keeps_order(
                    lookup::shared_values(file_id, rest, &next),
                    SharedValue {
                        value: own,
                        places: lookup::places_of_value(file_id, variants, own),
                    },
                );
            },
            None => {
                shared_values_are_ordered(file_id, rest, seen);
            },
        },
    }
}

/// A value is among the shared ones exactly when more than one variant has
/// it, once and with the places of all of them. The shared values come in the
/// order of their earliest places, whatever the order of the variants.
pub proof fn law_shared_values_in_source_order(
    file_id: FileId,
    variants: &List<EnumVariant>,
    value: i64,
)
    ensures
        ({
            let shared = lookup::shared_values(file_id, variants, &List::Nil);
            let places = lookup::places_of_value(file_id, variants, value);
            &&& in_source_order(shared)
            &&& shared_places(shared, value) == if places.count() > 1 {
                Some(places)
            } else {
                None
            }
        }),
{
    shared_values_are_ordered(file_id, variants, &List::Nil);
    shared_values_are_exact(file_id, variants, &List::Nil, value);
    assert(!lookup::lists_value(&List::Nil, value));
}

/// What is reported of shared values, in order.
pub open spec fn reports_of_shared(
    enum_name: SourceSpan,
    shared: List<SharedValue>,
) -> Seq<Diagnostic>
    decreases shared,
{
    match shared {
        List::Nil => Seq::empty(),
        List::Cons(first, rest) => seq![
            reports::enum_duplicate_value(enum_name, first.value, first.places),
        ] + reports_of_shared(enum_name, *rest),
    }
}

/// Each value that several variants of an enum share is reported once, in
/// order, and nothing else is.
pub proof fn law_shared_values_are_reported<'ast>(
    s: State<'ast>,
    context: ResolveContext,
    name_span: TextSpan,
    variants: &List<EnumVariant>,
)
    ensures
        ({
            let shared = lookup::shared_values(context.file_id, variants, &List::Nil);
            let t = s.report_enum_duplicate_values(context, name_span, variants);
            &&& t.diagnostics == s.diagnostics + reports_of_shared(context.at(name_span), shared)
            &&& t == State { diagnostics: t.diagnostics, ..s }
        }),
{
    shared_values_are_all_reported(
        s,
        context.at(name_span),
        lookup::shared_values(context.file_id, variants, &List::Nil),
    );
}

proof fn shared_values_are_all_reported<'ast>(
    s: State<'ast>,
    enum_name: SourceSpan,
    shared: List<SharedValue>,
)
    ensures
        ({
            let t = s.report_shared_values(enum_name, shared);
            &&& t.diagnostics == s.diagnostics + reports_of_shared(enum_name, shared)
            &&& t == State { diagnostics: t.diagnostics, ..s }
        }),
    decreases shared,
{
    reveal(State::report);
    match shared {
        List::Nil => {},
        List::Cons(first, rest) => {
            let next = s.report(
                reports::enum_duplicate_value(enum_name, first.value, first.places),
            );
            shared_values_are_all_reported(next, enum_name, *rest);
        },
    }
}

// ---------------------------------------------------------------- scopes

/// Building an expression ends in the scope where it began, whatever it enters
/// on the way. No scope, local or label is lost, and none changes its meaning.
pub proof fn law_expression_stays_in_its_scope<'ast>(
    s: State<'ast>,
    ctx: ExprContext,
    access: AccessContext,
    expr: &Spanned<ast::Expression>,
    depth: usize,
)
    ensures
        ({
            let (_, later, _) = s.build_expression(ctx, access, expr, signatures::resolver(depth));
            &&& later.scope_index == ctx.scope_index
            &&& later.resolve_context == ctx.resolve_context
            &&& later.scope == ctx.scope
            &&& nesting::scopes_kept(ctx.stack.scopes, later.stack.scopes)
            &&& nesting::labels_kept(ctx.stack.labels, later.stack.labels)
        }),
{
    s.keeps_build_expression(ctx, access, expr, signatures::resolver(depth));
    reveal(ExprContext::grows_into);
}

// ---------------------------------------------------------------- uses

/// Recording a use of something makes it used, and leaves used what was.
pub proof fn law_use_is_recorded<'ast>(
    s: State<'ast>,
    target: AccessTarget,
    span: SourceSpan,
    other: AccessTarget,
)
    ensures
        s.access(target, span).is_accessed(target),
        s.is_accessed(other) ==> s.access(target, span).is_accessed(other),
        other != target && !s.is_accessed(other) ==> !s.access(target, span).is_accessed(other),
{
    reveal(State::access);
    let t = s.access(target, span);
    assert(t.accesses[s.accesses.len() as int].target == target);
    if s.is_accessed(other) {
        let i = choose|i: int|
            0 <= i < s.accesses.len() && s.accesses[i].target == other;
        assert(t.accesses[i].target == other);
    }
}

/// What is used stays used, whatever is added.
pub proof fn law_used_stays_used<'ast>(s: State<'ast>, later: State<'ast>, target: AccessTarget)
    requires
        s.only_adds(later),
        s.is_accessed(target),
    ensures
        later.is_accessed(target),
{
    reveal(State::only_adds);
    reveal(State::grows_to);
    let i = choose|i: int| 0 <= i < s.accesses.len() && s.accesses[i].target == target;
    assert(later.accesses[i].target == target);
}

/// What the member of an impl is used as.
pub open spec fn member_target(entry: ImplEntry) -> Option<AccessTarget> {
    match entry {
        ImplEntry::Method(index) => Some(AccessTarget::Function(index)),
        ImplEntry::AssocFunction(index) => Some(AccessTarget::Function(index)),
        ImplEntry::AssocConstant(index) => Some(AccessTarget::Const(index)),
        ImplEntry::AssocType { .. } => None,
    }
}

proof fn impl_members_are_used<'ast>(
    s: State<'ast>,
    trait_index: usize,
    member: Symbol,
    span: SourceSpan,
    from: usize,
    end: usize,
    impl_index: usize,
    entry: ImplEntry,
    target: AccessTarget,
)
    requires
        from <= impl_index < end,
        s.impl_member(impl_index, trait_index, member) == Some(entry),
        member_target(entry) == Some(target),
    ensures
        s.record_impl_accesses(trait_index, member, span, from, end).is_accessed(target),
    decreases end - from,
{
    let t = match s.impl_member(from, trait_index, member) {
        Some(ImplEntry::Method(index)) | Some(ImplEntry::AssocFunction(index)) => s.access(
            AccessTarget::Function(index),
            span,
        ),
        Some(ImplEntry::AssocConstant(index)) => s.access(AccessTarget::Const(index), span),
        _ => s,
    };
    assert(t.trait_impls == s.trait_impls) by {
        reveal(State::access);
    }
    if from == impl_index {
        law_use_is_recorded(s, target, span, target);
        t.adds_record_impl_accesses(trait_index, member, span, (from + 1) as usize, end);
        law_used_stays_used(
            t,
            t.record_impl_accesses(trait_index, member, span, (from + 1) as usize, end),
            target,
        );
    } else {
        impl_members_are_used(
            t,
            trait_index,
            member,
            span,
            (from + 1) as usize,
            end,
            impl_index,
            entry,
            target,
        );
    }
}

/// A member that is used through a bound is used in every impl of its trait,
/// so that none of them counts as unused.
pub proof fn law_abstract_use_reaches_every_impl<'ast>(
    s: State<'ast>,
    trait_index: usize,
    member: Symbol,
    span: SourceSpan,
    impl_index: usize,
    entry: ImplEntry,
    target: AccessTarget,
)
    requires
        s.trait_impls.len() <= usize::MAX,
        s.impl_member(impl_index, trait_index, member) == Some(entry),
        member_target(entry) == Some(target),
    ensures
        s.record_abstract_dispatch_access(trait_index, member, span).is_accessed(target),
{
    impl_members_are_used(
        s,
        trait_index,
        member,
        span,
        0,
        s.trait_impls.len() as usize,
        impl_index,
        entry,
        target,
    );
}

/// Whether two states differ in their diagnostics alone.
pub open spec fn differ_in_reports<'ast>(s: State<'ast>, later: State<'ast>) -> bool {
    later == (State { diagnostics: later.diagnostics, ..s })
}

proof fn reporting_all_only_reports<'ast>(s: State<'ast>, diagnostics: List<Diagnostic>)
    ensures
        differ_in_reports(s, s.report_all(diagnostics)),
    decreases diagnostics,
{
    reveal(State::report);
    match diagnostics {
        List::Nil => {},
        List::Cons(diagnostic, rest) => {
            reporting_all_only_reports(s.report(*diagnostic), *rest);
        },
    }
}

proof fn function_checks_only_report<'ast>(s: State<'ast>, from: int, end: int)
    ensures
        differ_in_reports(s, s.check_function_uses_from(from, end)),
    decreases end - from,
{
    if from < end {
        reporting_all_only_reports(s, s.unused_of_function(from as usize));
        function_checks_only_report(s.check_function_use(from as usize), from + 1, end);
    }
}

proof fn global_checks_only_report<'ast>(s: State<'ast>, from: int, end: int)
    ensures
        differ_in_reports(s, s.check_global_uses_from(from, end)),
    decreases end - from,
{
    if from < end {
        reporting_all_only_reports(s, s.unused_of_global(from as usize));
        global_checks_only_report(s.check_global_use(from as usize), from + 1, end);
    }
}

proof fn constant_checks_only_report<'ast>(s: State<'ast>, from: int, end: int)
    ensures
        differ_in_reports(s, s.check_constant_uses_from(from, end)),
    decreases end - from,
{
    if from < end {
        reporting_all_only_reports(s, s.unused_of_constant(from as usize));
        constant_checks_only_report(s.check_constant_use(from as usize), from + 1, end);
    }
}

proof fn struct_checks_only_report<'ast>(s: State<'ast>, from: int, end: int)
    ensures
        differ_in_reports(s, s.check_struct_uses_from(from, end)),
    decreases end - from,
{
    if from < end {
        reporting_all_only_reports(s, s.unused_of_struct(from as usize));
        struct_checks_only_report(s.check_struct_use(from as usize), from + 1, end);
    }
}

proof fn enum_checks_only_report<'ast>(s: State<'ast>, from: int, end: int)
    ensures
        differ_in_reports(s, s.check_enum_uses_from(from, end)),
    decreases end - from,
{
    if from < end {
        reporting_all_only_reports(s, s.unused_of_enum(from as usize));
        enum_checks_only_report(s.check_enum_use(from as usize), from + 1, end);
    }
}

/// Looking for what is unused changes nothing but the diagnostics, to which
/// it only adds.
pub proof fn law_unused_checks_only_report<'ast>(s: State<'ast>)
    ensures
        differ_in_reports(s, s.report_unused_items()),
        growth::extends(s.diagnostics, s.report_unused_items().diagnostics),
{
    s.adds_report_unused_items();
    assert(growth::extends(s.diagnostics, s.report_unused_items().diagnostics)) by {
        reveal(State::only_adds);
        reveal(State::grows_to);
    }
    function_checks_only_report(s, 0, s.functions.len() as int);
    let t = s.check_function_uses_from(0, s.functions.len() as int);
    global_checks_only_report(t, 0, t.globals.len() as int);
    let t = t.check_global_uses_from(0, t.globals.len() as int);
    constant_checks_only_report(t, 0, t.constants.len() as int);
    let t = t.check_constant_uses_from(0, t.constants.len() as int);
    struct_checks_only_report(t, 0, t.structs.len() as int);
    let t = t.check_struct_uses_from(0, t.structs.len() as int);
    enum_checks_only_report(t, 0, t.enums.len() as int);
}

// ---------------------------------------------------------------- impls

/// A second impl of a trait for a target is reported, and the first stays the
/// one that is found.
pub proof fn law_second_impl_is_rejected<'ast>(
    s: State<'ast>,
    target_type: TypeIndex,
    trait_index: usize,
    impl_index: usize,
    target: ImplTarget,
    existing: usize,
)
    requires
        substitute::impl_target(target_type, s.ty(target_type)) == Some(target),
        s.find_dispatched_impl(target, trait_index) == Some(existing),
    ensures
        ({
            let t = s.register_trait_impl(target_type, trait_index, impl_index);
            &&& t.trait_dispatch == s.trait_dispatch
            &&& t.find_dispatched_impl(target, trait_index) == Some(existing)
            &&& t.diagnostics.len() == s.diagnostics.len() + 1
        }),
{
    reveal(State::register_trait_impl);
    reveal(State::report);
}

/// The first impl of a trait for a target is the one that is found.
pub proof fn law_first_impl_is_found<'ast>(
    s: State<'ast>,
    target_type: TypeIndex,
    trait_index: usize,
    impl_index: usize,
    target: ImplTarget,
)
    requires
        substitute::impl_target(target_type, s.ty(target_type)) == Some(target),
        s.find_dispatched_impl(target, trait_index) is None,
    ensures
        s.register_trait_impl(target_type, trait_index, impl_index).find_dispatched_impl(
            target,
            trait_index,
        ) == Some(impl_index),
{
    reveal(State::register_trait_impl);
    reveal(State::add_trait_dispatch);
    let entry = crate::state::TraitDispatch { target, trait_index, impl_index };
    appended_impl_is_found(s.trait_dispatch, entry, 0);
}

proof fn appended_impl_is_found(
    table: Seq<crate::state::TraitDispatch>,
    entry: crate::state::TraitDispatch,
    from: int,
)
    requires
        0 <= from <= table.len(),
        substitute::dispatched_impl(table, entry.target, entry.trait_index, from) is None,
    ensures
        substitute::dispatched_impl(table.push(entry), entry.target, entry.trait_index, from)
            == Some(entry.impl_index),
    decreases table.len() - from,
{
    if from < table.len() {
        assert(table.push(entry)[from] == table[from]);
        appended_impl_is_found(table, entry, from + 1);
    } else {
        assert(table.push(entry)[from] == entry);
    }
}

// ---------------------------------------------------------------- bounds

/// A poisoned type violates no bound.
pub proof fn law_poisoned_type_violates_nothing<'ast>(
    s: State<'ast>,
    at: SourceSpan,
    origin: BoundOrigin,
    type_args: &List<TypeIndex>,
    trait_index: usize,
    name: Symbol,
    self_ty: TypeIndex,
    traits: &List<TraitBound>,
    found: List<Diagnostic>,
)
    ensures
        s.check_inner(origin, type_args, Subject::new(at, ty::ERROR), traits, self_ty, found) == (
            s,
            found,
        ),
        s.check_bounds(Subject::new(at, ty::ERROR), origin, type_args).1 is Nil,
        s.check_assoc_value(trait_index, name, Subject::new(at, ty::ERROR), self_ty) == (
            s,
            List::<Diagnostic>::Nil,
        ),
{
    reveal(State::check_bounds);
    reveal(State::check_declared_bounds);
}

/// Whether a type implements each trait of a list, which says nothing of the
/// associated types.
pub open spec fn meets_plain_bounds<'ast>(
    s: State<'ast>,
    index: TypeIndex,
    traits: &List<TraitBound>,
) -> bool
    decreases traits,
{
    match traits {
        List::Nil => true,
        List::Cons(bound, rest) => {
            &&& s.type_implements_trait(index, bound.trait_index)
            &&& bound.bindings is Nil
            &&& meets_plain_bounds(s, index, rest)
        },
    }
}

/// Plain bounds that are met are no violation: nothing is reported, and
/// nothing changes.
pub proof fn law_met_bounds_are_no_violation<'ast>(
    s: State<'ast>,
    origin: BoundOrigin,
    type_args: &List<TypeIndex>,
    subject: Subject,
    traits: &List<TraitBound>,
    enclosing_self: TypeIndex,
    found: List<Diagnostic>,
)
    requires
        meets_plain_bounds(s, subject.ty, traits),
    ensures
        s.check_each_trait(origin, type_args, subject, traits, enclosing_self, found) == (s, found),
        s.check_inner(origin, type_args, subject, traits, enclosing_self, found) == (s, found),
    decreases traits,
{
    match traits {
        List::Nil => {},
        List::Cons(bound, rest) => {
            assert(s.check_bindings(
                origin,
                type_args,
                subject,
                bound.trait_index,
                bound.span,
                &bound.bindings,
                enclosing_self,
                found,
            ) == (s, found));
            law_met_bounds_are_no_violation(
                s,
                origin,
                type_args,
                subject,
                rest,
                enclosing_self,
                found,
            );
        },
    }
}

/// Whether a trait is in a merged set.
pub open spec fn implies_trait(implied: List<ImpliedTraitBound>, trait_index: usize) -> bool
    decreases implied,
{
    match implied {
        List::Nil => false,
        List::Cons(first, rest) => first.trait_index == trait_index || implies_trait(
            *rest,
            trait_index,
        ),
    }
}

/// Whether no trait is in a merged set twice.
pub open spec fn distinct_traits(implied: List<ImpliedTraitBound>) -> bool
    decreases implied,
{
    match implied {
        List::Nil => true,
        List::Cons(first, rest) => !implies_trait(*rest, first.trait_index) && distinct_traits(
            *rest,
        ),
    }
}

/// A bound that is merged into a set is in it, what was in it stays, and no
/// trait gets in twice.
pub proof fn law_merged_set_has_each_trait_once(
    arena: &BoundArena,
    implied: List<ImpliedTraitBound>,
    conflicts: List<AssocBindingConflict>,
    bound: ImpliedTraitBound,
    merge_point: BoundId,
    trait_index: usize,
)
    ensures
        ({
            let (after, _) = implied::with_trait_bound(
                arena,
                implied,
                conflicts,
                bound,
                merge_point,
            );
            &&& implies_trait(after, trait_index) <==> implies_trait(implied, trait_index)
                || bound.trait_index == trait_index
            &&& distinct_traits(implied) ==> distinct_traits(after)
        }),
    decreases implied,
{
    match implied {
        List::Nil => {},
        List::Cons(first, rest) => {
            if first.trait_index != bound.trait_index {
                law_merged_set_has_each_trait_once(
                    arena,
                    *rest,
                    conflicts,
                    bound,
                    merge_point,
                    trait_index,
                );
                law_merged_set_has_each_trait_once(
                    arena,
                    *rest,
                    conflicts,
                    bound,
                    merge_point,
                    first.trait_index,
                );
            }
        },
    }
}

/// The union of two sets has the traits of both and no others, and none
/// twice.
pub proof fn law_union_has_the_traits_of_both(
    arena: &BoundArena,
    implied: List<ImpliedTraitBound>,
    conflicts: List<AssocBindingConflict>,
    incoming: List<ImpliedTraitBound>,
    merge_point: BoundId,
    trait_index: usize,
)
    ensures
        ({
            let (after, _) = implied::with_bounds(
                arena,
                implied,
                conflicts,
                incoming,
                merge_point,
            );
            &&& implies_trait(after, trait_index) <==> implies_trait(implied, trait_index)
                || implies_trait(incoming, trait_index)
            &&& distinct_traits(implied) ==> distinct_traits(after)
        }),
    decreases incoming,
{
    match incoming {
        List::Nil => {},
        List::Cons(bound, rest) => {
            law_merged_set_has_each_trait_once(
                arena,
                implied,
                conflicts,
                *bound,
                merge_point,
                trait_index,
            );
            let (next, conflicts) = implied::with_trait_bound(
                arena,
                implied,
                conflicts,
                *bound,
                merge_point,
            );
            law_union_has_the_traits_of_both(
                arena,
                next,
                conflicts,
                *rest,
                merge_point,
                trait_index,
            );
        },
    }
}

/// Whether an associated type is required to implement a trait.
pub open spec fn requires_trait(required: RequiredBounds, trait_index: usize) -> bool {
    match required {
        RequiredBounds::Nothing => false,
        RequiredBounds::Traits(traits) => implies_trait(traits, trait_index),
    }
}

/// What is required of an associated type stays required when clauses on it
/// are merged, whether they give its value or bound it.
pub proof fn law_requirements_stay_when_merged(
    arena: &BoundArena,
    clause: ImpliedAssocBinding,
    rest: List<ImpliedAssocBinding>,
    conflicts: List<AssocBindingConflict>,
    incoming: ImpliedAssocBinding,
    merge_point: BoundId,
    trait_index: usize,
)
    requires
        arena.assoc_type_of(clause.source) == arena.assoc_type_of(incoming.source),
    ensures
        ({
            let (after, _) = implied::with_clause(
                arena,
                list::cons(clause, rest),
                conflicts,
                incoming,
                merge_point,
            );
            match after {
                List::Nil => false,
                List::Cons(merged, others) => {
                    &&& *others == rest
                    &&& merged.source == clause.source
                    &&& requires_trait(merged.required_bounds, trait_index) <==> requires_trait(
                        clause.required_bounds,
                        trait_index,
                    ) || requires_trait(incoming.required_bounds, trait_index)
                },
            }
        }),
{
    match incoming.required_bounds {
        RequiredBounds::Nothing => {
            assert(implied::with_required(
                arena,
                clause.required_bounds,
                conflicts,
                incoming.required_bounds,
                merge_point,
            ) == (clause.required_bounds, conflicts));
        },
        RequiredBounds::Traits(traits) => {
            let earlier = match clause.required_bounds {
                RequiredBounds::Nothing => List::Nil,
                RequiredBounds::Traits(traits) => traits,
            };
            law_union_has_the_traits_of_both(
                arena,
                earlier,
                conflicts,
                traits,
                merge_point,
                trait_index,
            );
            assert(implied::with_required(
                arena,
                clause.required_bounds,
                conflicts,
                incoming.required_bounds,
                merge_point,
            ).0 == RequiredBounds::new(
                implied::with_bounds(arena, earlier, conflicts, traits, merge_point).0,
            ));
        },
    }
}

/// A plain bound on a trait that is in the set already adds nothing.
pub proof fn law_repeated_plain_bound_adds_nothing(
    arena: &BoundArena,
    implied: List<ImpliedTraitBound>,
    conflicts: List<AssocBindingConflict>,
    bound: ImpliedTraitBound,
    merge_point: BoundId,
)
    requires
        bound.bindings is Nil,
        implies_trait(implied, bound.trait_index),
    ensures
        implied::with_trait_bound(arena, implied, conflicts, bound, merge_point) == (
            implied,
            conflicts,
        ),
    decreases implied,
{
    match implied {
        List::Nil => {},
        List::Cons(first, rest) => {
            if first.trait_index != bound.trait_index {
                law_repeated_plain_bound_adds_nothing(arena, *rest, conflicts, bound, merge_point);
            } else {
                assert(implied::with_each_clause(
                    arena,
                    first.bindings,
                    conflicts,
                    bound.bindings,
                    merge_point,
                ) == (first.bindings, conflicts));
                assert(implied::with_clauses(
                    arena,
                    first.bindings,
                    conflicts,
                    bound.bindings,
                    merge_point,
                ) == (first.bindings, conflicts));
            }
        },
    }
}

/// A conflict stays one whatever else is said, and is reported once; an
/// equality stays where only a bound joins it, and replaces a bound.
pub proof fn law_conflict_stays(
    arena: &BoundArena,
    kind: ImpliedBindingKind,
    reference: crate::implied::BindingRef,
    conflicts: List<AssocBindingConflict>,
    merge_point: BoundId,
)
    ensures
        implied::joined_kind(
            arena,
            ImpliedBindingKind::Conflicting,
            kind,
            conflicts,
            merge_point,
        ) == (ImpliedBindingKind::Conflicting, conflicts),
        implied::joined_kind(
            arena,
            kind,
            ImpliedBindingKind::Conflicting,
            conflicts,
            merge_point,
        ) == (ImpliedBindingKind::Conflicting, conflicts),
        implied::joined_kind(
            arena,
            ImpliedBindingKind::Equals(reference),
            ImpliedBindingKind::Bound,
            conflicts,
            merge_point,
        ) == (ImpliedBindingKind::Equals(reference), conflicts),
        implied::joined_kind(
            arena,
            ImpliedBindingKind::Bound,
            ImpliedBindingKind::Equals(reference),
            conflicts,
            merge_point,
        ) == (ImpliedBindingKind::Equals(reference), conflicts),
        implied::joined_kind(arena, kind, kind, conflicts, merge_point) == (kind, conflicts),
{
}

// ---------------------------------------------------------------- constants

/// Folding a negation twice gives the number back, whatever it is.
pub proof fn law_negation_undoes_itself(value: i64)
    ensures
        lookup::negated(lookup::negated(value)) == value,
{
}

/// Dividing and taking the remainder have a value exactly when the divisor is
/// not zero.
pub proof fn law_only_division_by_zero_has_no_value(left: i64, right: i64)
    ensures
        lookup::fold_binary(BinaryOp::Div, left, right) is Some <==> right != 0,
        lookup::fold_binary(BinaryOp::Rem, left, right) is Some <==> right != 0,
        lookup::fold_binary(BinaryOp::Add, left, right) is Some,
        lookup::fold_binary(BinaryOp::Sub, left, right) is Some,
        lookup::fold_binary(BinaryOp::Mul, left, right) is Some,
{
}

} // verus!
