//! Members: which entry a name after a type or on a value stands for.

use vstd::prelude::*;

use crate::failures::more_is_reported;
use crate::list::{single, List};
use crate::members::{Candidate, MemberLookup, TraitMemberError};
use crate::rules::bounds::{declared_param, law_type_parameter_is_where_it_is_declared, names_trait};
use crate::rules::bounds::law_bound_is_found;
use crate::span::{Spanned, Symbol, TextSpan};
use crate::state::{ImplTarget, State};
use crate::substitute;
use crate::tir::{ImplEntry, Member, ResolveContext, TraitBound};
use crate::ty;
use crate::types::{Type, TypeIndex};

verus! {

/// Whether the first member of a name has an entry.
pub open spec fn gives(members: List<Member>, name: Symbol, entry: ImplEntry) -> bool {
    exists|i: nat|
        {
            &&& (#[trigger] members.at(i)) matches Some(found) && found.name == name && found.entry
                == entry
            &&& forall|j: nat|
                j < i ==> ((#[trigger] members.at(j)) matches Some(earlier) && earlier.name != name)
        }
}

/// Whether there is no member of a name.
pub open spec fn lacks(members: List<Member>, name: Symbol) -> bool {
    forall|i: nat| (#[trigger] members.at(i)) matches Some(found) ==> found.name != name
}

/// A member is found where it is the first of its name, and none where there
/// is none of that name.
pub proof fn law_member_is_the_first_of_its_name(members: List<Member>, name: Symbol)
    ensures
        forall|entry: ImplEntry|
            #[trigger] gives(members, name, entry) <==> substitute::member_entry(members, name)
                == Some(entry),
        lacks(members, name) <==> substitute::member_entry(members, name) is None,
    decreases members,
{
    match members {
        List::Nil => {
            assert forall|entry: ImplEntry| !#[trigger] gives(members, name, entry) by {}
        },
        List::Cons(head, tail) => {
            law_member_is_the_first_of_its_name(*tail, name);
            assert(members.at(0) == Some(*head));
            assert forall|i: nat| #[trigger] members.at(i + 1) == tail.at(i) by {}
            assert forall|entry: ImplEntry|
                #[trigger] gives(members, name, entry) <==> substitute::member_entry(members, name)
                    == Some(entry) by {
                if head.name == name {
                    if head.entry == entry {
                        assert(gives(members, name, entry));
                    }
                    if gives(members, name, entry) {
                        let i = choose|i: nat|
                            {
                                &&& (#[trigger] members.at(i)) matches Some(found) && found.name
                                    == name && found.entry == entry
                                &&& forall|j: nat|
                                    j < i ==> ((#[trigger] members.at(j)) matches Some(earlier)
                                        && earlier.name != name)
                            };
                        if i > 0 {
                            assert(members.at(0) matches Some(earlier) && earlier.name != name);
                        }
                    }
                } else {
                    if gives(*tail, name, entry) {
                        let i = choose|i: nat|
                            {
                                &&& (#[trigger] tail.at(i)) matches Some(found) && found.name
                                    == name && found.entry == entry
                                &&& forall|j: nat|
                                    j < i ==> ((#[trigger] tail.at(j)) matches Some(earlier)
                                        && earlier.name != name)
                            };
                        assert(members.at(i + 1) == tail.at(i));
                        assert forall|j: nat| j < i + 1 implies ((#[trigger] members.at(
                            j,
                        )) matches Some(earlier) && earlier.name != name) by {
                            if j > 0 {
                                assert(members.at(j) == tail.at((j - 1) as nat));
                            }
                        }
                    }
                    if gives(members, name, entry) {
                        let i = choose|i: nat|
                            {
                                &&& (#[trigger] members.at(i)) matches Some(found) && found.name
                                    == name && found.entry == entry
                                &&& forall|j: nat|
                                    j < i ==> ((#[trigger] members.at(j)) matches Some(earlier)
                                        && earlier.name != name)
                            };
                        assert(i > 0);
                        let k = (i - 1) as nat;
                        assert(tail.at(k) == members.at(i));
                        assert forall|j: nat| j < k implies ((#[trigger] tail.at(
                            j,
                        )) matches Some(earlier) && earlier.name != name) by {
                            assert(tail.at(j) == members.at(j + 1));
                        }
                    }
                }
            }
            if lacks(members, name) {
                assert forall|i: nat| #[trigger] tail.at(i) is Some implies tail.at(i)->0.name
                    != name by {
                    assert(members.at(i + 1) == tail.at(i));
                }
            }
            if head.name != name && lacks(*tail, name) {
                assert forall|i: nat| #[trigger] members.at(i) is Some implies members.at(i)->0.name
                    != name by {
                    if i > 0 {
                        assert(members.at(i) == tail.at((i - 1) as nat));
                    }
                }
            }
        },
    }
}

// ---------------------------------------------------------------- arguments

/// A list of arguments cut off or filled up has the wanted length, the given
/// arguments in front and types to infer behind them.
pub proof fn law_filled_up_arguments(types: List<TypeIndex>, total: usize)
    ensures
        crate::members::resized_types(&types, total).count() == total,
        forall|i: nat|
            i < total ==> #[trigger] crate::members::resized_types(&types, total).at(i) == (if i
                < types.count() {
                types.at(i)
            } else {
                Some(ty::INFER)
            }),
    decreases total,
{
    let result = crate::members::resized_types(&types, total);
    if total > 0 {
        match types {
            List::Nil => {
                repeated_everywhere(ty::INFER, total as nat);
            },
            List::Cons(head, rest) => {
                law_filled_up_arguments(*rest, (total - 1) as usize);
                let inner = crate::members::resized_types(&*rest, (total - 1) as usize);
                assert forall|i: nat| i < total implies #[trigger] result.at(i) == (if i
                    < types.count() {
                    types.at(i)
                } else {
                    Some(ty::INFER)
                }) by {
                    if i > 0 {
                        assert(result.at(i) == inner.at((i - 1) as nat));
                        assert(types.at(i) == rest.at((i - 1) as nat));
                    }
                }
            },
        }
    }
}

proof fn repeated_everywhere(index: TypeIndex, count: nat)
    ensures
        List::repeated(index, count).count() == count,
        forall|i: nat|
            i < count ==> #[trigger] List::repeated(index, count).at(i) == Some(index),
    decreases count,
{
    if count > 0 {
        repeated_everywhere(index, (count - 1) as nat);
        let inner = List::repeated(index, (count - 1) as nat);
        assert forall|i: nat| i < count implies #[trigger] List::repeated(index, count).at(i)
            == Some(index) by {
            if i > 0 {
                assert(List::repeated(index, count).at(i) == inner.at((i - 1) as nat));
            }
        }
    }
}

/// Whether the arguments of a member are those of its parent, and for each
/// type parameter of its own one to infer.
pub open spec fn are_arguments_of<'ast>(
    s: State<'ast>,
    entry: ImplEntry,
    parent: List<TypeIndex>,
    type_args: List<TypeIndex>,
) -> bool {
    match entry {
        ImplEntry::Method(index) | ImplEntry::AssocFunction(index) => index < s.functions.len()
            ==> {
            let function = s.functions[index as int];
            let total = function.inherited_type_param_count + function.type_params.count();
            total <= usize::MAX && parent.count() <= usize::MAX ==> {
                &&& type_args.count() == total
                &&& forall|i: nat|
                    i < total ==> #[trigger] type_args.at(i) == (if i < parent.count() {
                        parent.at(i)
                    } else {
                        Some(ty::INFER)
                    })
            }
        },
        _ => type_args == parent,
    }
}

/// The arguments of a member are those of its parent, followed by types to
/// infer for the type parameters that are its own.
pub proof fn law_arguments_of_a_member<'ast>(
    s: State<'ast>,
    entry: ImplEntry,
    parent: List<TypeIndex>,
)
    ensures
        are_arguments_of(s, entry, parent, s.pad_type_args(entry, parent)),
{
    match entry {
        ImplEntry::Method(index) | ImplEntry::AssocFunction(index) => {
            if index < s.functions.len() {
                let function = s.functions[index as int];
                law_filled_up_arguments(parent, crate::members::total_params(&function));
                inside_the_list(parent);
            }
        },
        _ => {},
    }
}

proof fn inside_the_list(types: List<TypeIndex>)
    ensures
        forall|i: nat| i < types.count() ==> (#[trigger] types.at(i)) is Some,
        forall|i: nat| i >= types.count() ==> (#[trigger] types.at(i)) is None,
    decreases types,
{
    match types {
        List::Nil => {},
        List::Cons(head, rest) => {
            inside_the_list(*rest);
            assert forall|i: nat| i < types.count() implies (#[trigger] types.at(i)) is Some by {
                if i > 0 {
                    assert(types.at(i) == rest.at((i - 1) as nat));
                }
            }
            assert forall|i: nat| i >= types.count() implies (#[trigger] types.at(i)) is None by {
                assert(types.at(i) == rest.at((i - 1) as nat));
            }
        },
    }
}

// ---------------------------------------------------------------- one impl

/// A constant and an associated type of a trait never stand for themselves: an
/// impl has to give them.
pub proof fn law_declarations_have_no_body<'ast>(s: State<'ast>, entry: ImplEntry)
    ensures
        entry is AssocConstant || entry is AssocType ==> !s.entry_has_body(entry),
{
}

/// Through an impl of a trait a member is found where the type is one that the
/// impl is for. If the impl has its own member of the name, it is that one,
/// with the impl's arguments. The trait's is found only if the impl has none
/// and the trait's has a body, and its argument is the type. Otherwise there
/// is none.
pub proof fn law_member_through_an_impl<'ast>(
    s: State<'ast>,
    trait_index: usize,
    impl_index: usize,
    target_type: TypeIndex,
    member: Symbol,
)
    requires
        trait_index < s.traits.len(),
        impl_index < s.trait_impls.len(),
    ensures
        ({
            let implementation = s.trait_impls[impl_index as int];
            let declaration = s.traits[trait_index as int];
            let found = s.trait_member_via_impl(trait_index, impl_index, target_type, member);
            match s.impl_arguments(implementation, target_type) {
                Some(impl_args) => {
                    &&& forall|entry: ImplEntry| #[trigger]
                        gives(implementation.members, member, entry) ==> (found matches Some(
                            candidate,
                        ) && candidate.entry == entry && candidate.source == trait_index
                            && are_arguments_of(s, entry, impl_args, candidate.type_args))
                    &&& lacks(implementation.members, member) ==> (forall|entry: ImplEntry|
                        #[trigger] gives(declaration.members, member, entry) && s.entry_has_body(
                            entry,
                        ) ==> (found matches Some(candidate) && candidate.entry == entry
                            && candidate.source == trait_index && are_arguments_of(
                            s,
                            entry,
                            single(target_type),
                            candidate.type_args,
                        )))
                    &&& lacks(implementation.members, member) ==> (forall|entry: ImplEntry|
                        #[trigger] gives(declaration.members, member, entry) && !s.entry_has_body(
                            entry,
                        ) ==> found is None)
                    &&& lacks(implementation.members, member) && lacks(declaration.members, member)
                        ==> found is None
                },
                None => found is None,
            }
        }),
{
    let implementation = s.trait_impls[impl_index as int];
    let declaration = s.traits[trait_index as int];
    law_member_is_the_first_of_its_name(implementation.members, member);
    law_member_is_the_first_of_its_name(declaration.members, member);
    match s.impl_arguments(implementation, target_type) {
        Some(impl_args) => {
            assert forall|entry: ImplEntry| true implies #[trigger] are_arguments_of(
                s,
                entry,
                impl_args,
                s.pad_type_args(entry, impl_args),
            ) by {
                law_arguments_of_a_member(s, entry, impl_args);
            }
            match substitute::member_entry(implementation.members, member) {
                Some(entry) => {
                    law_arguments_of_a_member(s, entry, impl_args);
                },
                None => {
                    match substitute::member_entry(declaration.members, member) {
                        Some(entry) => {
                            law_arguments_of_a_member(s, entry, single(target_type));
                        },
                        None => {},
                    }
                },
            }
        },
        None => {},
    }
}

/// An inherent impl gives a type its member of a name, with the arguments that
/// make the impl's target the type, and none where its target is no such type
/// or it has no such member.
pub proof fn law_member_of_an_inherent_impl<'ast>(
    s: State<'ast>,
    block_index: usize,
    target_type: TypeIndex,
    member: Symbol,
)
    requires
        block_index < s.inherent_impls.len(),
    ensures
        ({
            let block = s.inherent_impls[block_index as int];
            let found = s.inherent_candidate(block_index, target_type, member);
            match s.unify_inherent_impl_target(block_index, target_type) {
                Some(impl_args) => {
                    &&& forall|entry: ImplEntry| #[trigger]
                        gives(block.members, member, entry) ==> (found matches Some(candidate)
                            && candidate.entry == entry && candidate.source == block_index
                            && are_arguments_of(s, entry, impl_args, candidate.type_args))
                    &&& lacks(block.members, member) ==> found is None
                },
                None => found is None,
            }
        }),
{
    let block = s.inherent_impls[block_index as int];
    law_member_is_the_first_of_its_name(block.members, member);
    match s.unify_inherent_impl_target(block_index, target_type) {
        Some(impl_args) => {
            match substitute::member_entry(block.members, member) {
                Some(entry) => {
                    law_arguments_of_a_member(s, entry, impl_args);
                },
                None => {},
            }
        },
        None => {},
    }
}

// ---------------------------------------------------------------- all impls

/// The member that the inherent impl at a position of the dispatch table gives
/// a type.
#[verifier::opaque]
pub open spec fn inherent_at<'ast>(
    s: State<'ast>,
    target: ImplTarget,
    target_type: TypeIndex,
    member: Symbol,
    position: int,
) -> Option<Candidate> {
    let entry = s.inherent_dispatch[position];
    if entry.target == target && entry.name == member {
        s.inherent_candidate(entry.block_index, target_type, member)
    } else {
        None
    }
}

/// The member that the trait impl at a position of the dispatch table gives a
/// type.
#[verifier::opaque]
pub open spec fn through_trait_at<'ast>(
    s: State<'ast>,
    target: ImplTarget,
    target_type: TypeIndex,
    member: Symbol,
    position: int,
) -> Option<Candidate> {
    let entry = s.trait_dispatch[position];
    if entry.target == target {
        s.trait_member_via_impl(entry.trait_index, entry.impl_index, target_type, member)
    } else {
        None
    }
}

/// Whether no inherent impl gives a type a member of that name.
pub open spec fn no_inherent_member<'ast>(
    s: State<'ast>,
    target: ImplTarget,
    target_type: TypeIndex,
    member: Symbol,
) -> bool {
    forall|p: int|
        0 <= p < s.inherent_dispatch.len() ==> (#[trigger] inherent_at(
            s,
            target,
            target_type,
            member,
            p,
        )) is None
}

proof fn inherent_members_absent<'ast>(
    s: State<'ast>,
    target: ImplTarget,
    target_type: TypeIndex,
    member: Symbol,
    from: usize,
    end: usize,
)
    requires
        end <= s.inherent_dispatch.len(),
        forall|p: int|
            from <= p < end ==> (#[trigger] inherent_at(s, target, target_type, member, p)) is None,
    ensures
        s.inherent_candidates(target, target_type, member, from, end) is Nil,
    decreases end - from,
{
    if from < end {
        inherent_members_absent(s, target, target_type, member, (from + 1) as usize, end);
        assert(inherent_at(s, target, target_type, member, from as int) is None);
        reveal(inherent_at);
    }
}

proof fn inherent_member_alone<'ast>(
    s: State<'ast>,
    target: ImplTarget,
    target_type: TypeIndex,
    member: Symbol,
    from: usize,
    end: usize,
    p: int,
)
    requires
        end <= s.inherent_dispatch.len(),
        from <= p < end,
        inherent_at(s, target, target_type, member, p) is Some,
        forall|q: int|
            from <= q < end && q != p ==> (#[trigger] inherent_at(
                s,
                target,
                target_type,
                member,
                q,
            )) is None,
    ensures
        s.inherent_candidates(target, target_type, member, from, end) == single(
            inherent_at(s, target, target_type, member, p)->0,
        ),
    decreases end - from,
{
    let next = (from + 1) as usize;
    if from == p {
        inherent_members_absent(s, target, target_type, member, next, end);
        reveal(inherent_at);
    } else {
        inherent_member_alone(s, target, target_type, member, next, end, p);
        assert(inherent_at(s, target, target_type, member, from as int) is None);
        reveal(inherent_at);
    }
}

proof fn inherent_members_not_empty<'ast>(
    s: State<'ast>,
    target: ImplTarget,
    target_type: TypeIndex,
    member: Symbol,
    from: usize,
    end: usize,
    p: int,
)
    requires
        end <= s.inherent_dispatch.len(),
        from <= p < end,
        inherent_at(s, target, target_type, member, p) is Some,
    ensures
        s.inherent_candidates(target, target_type, member, from, end).count() > 0,
    decreases end - from,
{
    if from < p {
        inherent_members_not_empty(
            s,
            target,
            target_type,
            member,
            (from + 1) as usize,
            end,
            p,
        );
    }
    reveal(inherent_at);
}

proof fn inherent_members_in_conflict<'ast>(
    s: State<'ast>,
    target: ImplTarget,
    target_type: TypeIndex,
    member: Symbol,
    from: usize,
    end: usize,
    p: int,
    q: int,
)
    requires
        end <= s.inherent_dispatch.len(),
        from <= p < q < end,
        inherent_at(s, target, target_type, member, p) is Some,
        inherent_at(s, target, target_type, member, q) is Some,
    ensures
        s.inherent_candidates(target, target_type, member, from, end).count() > 1,
    decreases end - from,
{
    let next = (from + 1) as usize;
    if from < p {
        inherent_members_in_conflict(s, target, target_type, member, next, end, p, q);
    } else {
        inherent_members_not_empty(s, target, target_type, member, next, end, q);
    }
    reveal(inherent_at);
}

proof fn trait_members_absent<'ast>(
    s: State<'ast>,
    target: ImplTarget,
    target_type: TypeIndex,
    member: Symbol,
    from: usize,
    end: usize,
)
    requires
        end <= s.trait_dispatch.len(),
        forall|p: int|
            from <= p < end ==> (#[trigger] through_trait_at(s, target, target_type, member, p)) is None,
    ensures
        s.trait_candidates(target, target_type, member, from, end) is Nil,
    decreases end - from,
{
    if from < end {
        trait_members_absent(s, target, target_type, member, (from + 1) as usize, end);
        assert(through_trait_at(s, target, target_type, member, from as int) is None);
        reveal(through_trait_at);
    }
}

proof fn trait_member_alone<'ast>(
    s: State<'ast>,
    target: ImplTarget,
    target_type: TypeIndex,
    member: Symbol,
    from: usize,
    end: usize,
    p: int,
)
    requires
        end <= s.trait_dispatch.len(),
        from <= p < end,
        through_trait_at(s, target, target_type, member, p) is Some,
        forall|q: int|
            from <= q < end && q != p ==> (#[trigger] through_trait_at(
                s,
                target,
                target_type,
                member,
                q,
            )) is None,
    ensures
        s.trait_candidates(target, target_type, member, from, end) == single(
            through_trait_at(s, target, target_type, member, p)->0,
        ),
    decreases end - from,
{
    let next = (from + 1) as usize;
    if from == p {
        trait_members_absent(s, target, target_type, member, next, end);
        reveal(through_trait_at);
    } else {
        trait_member_alone(s, target, target_type, member, next, end, p);
        assert(through_trait_at(s, target, target_type, member, from as int) is None);
        reveal(through_trait_at);
    }
}

proof fn trait_members_not_empty<'ast>(
    s: State<'ast>,
    target: ImplTarget,
    target_type: TypeIndex,
    member: Symbol,
    from: usize,
    end: usize,
    p: int,
)
    requires
        end <= s.trait_dispatch.len(),
        from <= p < end,
        through_trait_at(s, target, target_type, member, p) is Some,
    ensures
        s.trait_candidates(target, target_type, member, from, end).count() > 0,
    decreases end - from,
{
    if from < p {
        trait_members_not_empty(
            s,
            target,
            target_type,
            member,
            (from + 1) as usize,
            end,
            p,
        );
    }
    reveal(through_trait_at);
}

proof fn trait_members_in_conflict<'ast>(
    s: State<'ast>,
    target: ImplTarget,
    target_type: TypeIndex,
    member: Symbol,
    from: usize,
    end: usize,
    p: int,
    q: int,
)
    requires
        end <= s.trait_dispatch.len(),
        from <= p < q < end,
        through_trait_at(s, target, target_type, member, p) is Some,
        through_trait_at(s, target, target_type, member, q) is Some,
    ensures
        s.trait_candidates(target, target_type, member, from, end).count() > 1,
    decreases end - from,
{
    let next = (from + 1) as usize;
    if from < p {
        trait_members_in_conflict(s, target, target_type, member, next, end, p, q);
    } else {
        trait_members_not_empty(s, target, target_type, member, next, end, q);
    }
    reveal(through_trait_at);
}

/// A member that one inherent impl alone gives a type is the one that is
/// meant, whatever traits give.
pub proof fn law_one_inherent_member_is_meant<'ast>(
    s: State<'ast>,
    context: ResolveContext,
    target: ImplTarget,
    target_type: TypeIndex,
    member: Symbol,
    span: TextSpan,
    p: int,
)
    requires
        !(s.ty(target_type) is TypeParam),
        substitute::impl_target(target_type, s.ty(target_type)) == Some(target),
        s.inherent_dispatch.len() <= usize::MAX,
        s.trait_dispatch.len() <= usize::MAX,
        0 <= p < s.inherent_dispatch.len(),
        inherent_at(s, target, target_type, member, p) is Some,
        forall|q: int|
            0 <= q < s.inherent_dispatch.len() && q != p ==> (#[trigger] inherent_at(
                s,
                target,
                target_type,
                member,
                q,
            )) is None,
    ensures
        ({
            let given = inherent_at(s, target, target_type, member, p)->0;
            s.resolve_impl_member(context, target_type, member, span) == (
                s,
                MemberLookup::Inherent { entry: given.entry, type_args: given.type_args },
            )
        }),
{
    reveal(State::resolve_impl_member);
    reveal(State::resolve_inherent_member);
    reveal(State::choose_trait_candidate);
    reveal(State::report);
    reveal_with_fuel(List::count, 3);
    let end = s.inherent_dispatch.len() as usize;
    inherent_member_alone(s, target, target_type, member, 0, end, p);
}

/// A member that several inherent impls give a type is reported.
pub proof fn law_conflicting_members_are_reported<'ast>(
    s: State<'ast>,
    context: ResolveContext,
    target: ImplTarget,
    target_type: TypeIndex,
    member: Symbol,
    span: TextSpan,
    p: int,
    q: int,
)
    requires
        !(s.ty(target_type) is TypeParam),
        substitute::impl_target(target_type, s.ty(target_type)) == Some(target),
        s.inherent_dispatch.len() <= usize::MAX,
        s.trait_dispatch.len() <= usize::MAX,
        0 <= p < q < s.inherent_dispatch.len(),
        inherent_at(s, target, target_type, member, p) is Some,
        inherent_at(s, target, target_type, member, q) is Some,
    ensures
        ({
            let (t, found) = s.resolve_impl_member(context, target_type, member, span);
            found is Ambiguous && more_is_reported(s, t)
        }),
{
    reveal(State::resolve_impl_member);
    reveal(State::resolve_inherent_member);
    reveal(State::choose_trait_candidate);
    reveal(State::report);
    reveal_with_fuel(List::count, 3);
    let end = s.inherent_dispatch.len() as usize;
    inherent_members_in_conflict(s, target, target_type, member, 0, end, p, q);
}

/// Where no inherent impl gives a member, it is the one that a single trait
/// impl gives.
pub proof fn law_member_that_a_trait_gives<'ast>(
    s: State<'ast>,
    context: ResolveContext,
    target: ImplTarget,
    target_type: TypeIndex,
    member: Symbol,
    span: TextSpan,
    p: int,
)
    requires
        !(s.ty(target_type) is TypeParam),
        substitute::impl_target(target_type, s.ty(target_type)) == Some(target),
        s.inherent_dispatch.len() <= usize::MAX,
        s.trait_dispatch.len() <= usize::MAX,
        no_inherent_member(s, target, target_type, member),
        0 <= p < s.trait_dispatch.len(),
        through_trait_at(s, target, target_type, member, p) is Some,
        forall|q: int|
            0 <= q < s.trait_dispatch.len() && q != p ==> (#[trigger] through_trait_at(
                s,
                target,
                target_type,
                member,
                q,
            )) is None,
    ensures
        ({
            let given = through_trait_at(s, target, target_type, member, p)->0;
            s.resolve_impl_member(context, target_type, member, span) == (
                s,
                MemberLookup::Trait {
                    entry: given.entry,
                    type_args: given.type_args,
                    trait_index: given.source,
                },
            )
        }),
{
    reveal(State::resolve_impl_member);
    reveal(State::resolve_inherent_member);
    reveal(State::choose_trait_candidate);
    reveal(State::report);
    reveal_with_fuel(List::count, 3);
    let end = s.inherent_dispatch.len() as usize;
    inherent_members_absent(s, target, target_type, member, 0, end);
    trait_member_alone(s, target, target_type, member, 0, s.trait_dispatch.len() as usize, p);
}

/// A member that several trait impls give a type, and no inherent one, is
/// reported.
pub proof fn law_two_trait_members_are_reported<'ast>(
    s: State<'ast>,
    context: ResolveContext,
    target: ImplTarget,
    target_type: TypeIndex,
    member: Symbol,
    span: TextSpan,
    p: int,
    q: int,
)
    requires
        !(s.ty(target_type) is TypeParam),
        substitute::impl_target(target_type, s.ty(target_type)) == Some(target),
        s.inherent_dispatch.len() <= usize::MAX,
        s.trait_dispatch.len() <= usize::MAX,
        no_inherent_member(s, target, target_type, member),
        0 <= p < q < s.trait_dispatch.len(),
        through_trait_at(s, target, target_type, member, p) is Some,
        through_trait_at(s, target, target_type, member, q) is Some,
    ensures
        ({
            let (t, found) = s.resolve_impl_member(context, target_type, member, span);
            found is Ambiguous && more_is_reported(s, t)
        }),
{
    reveal(State::resolve_impl_member);
    reveal(State::resolve_inherent_member);
    reveal(State::choose_trait_candidate);
    reveal(State::report);
    reveal_with_fuel(List::count, 3);
    let end = s.inherent_dispatch.len() as usize;
    inherent_members_absent(s, target, target_type, member, 0, end);
    trait_members_in_conflict(
        s,
        target,
        target_type,
        member,
        0,
        s.trait_dispatch.len() as usize,
        p,
        q,
    );
}

/// A member that no impl gives is not found.
pub proof fn law_member_that_nothing_gives<'ast>(
    s: State<'ast>,
    context: ResolveContext,
    target: ImplTarget,
    target_type: TypeIndex,
    member: Symbol,
    span: TextSpan,
)
    requires
        !(s.ty(target_type) is TypeParam),
        substitute::impl_target(target_type, s.ty(target_type)) == Some(target),
        s.inherent_dispatch.len() <= usize::MAX,
        s.trait_dispatch.len() <= usize::MAX,
        no_inherent_member(s, target, target_type, member),
        forall|p: int|
            0 <= p < s.trait_dispatch.len() ==> (#[trigger] through_trait_at(
                s,
                target,
                target_type,
                member,
                p,
            )) is None,
    ensures
        s.resolve_impl_member(context, target_type, member, span) == (s, MemberLookup::NotFound),
{
    reveal(State::resolve_impl_member);
    reveal(State::resolve_inherent_member);
    reveal(State::choose_trait_candidate);
    reveal(State::report);
    reveal_with_fuel(List::count, 3);
    let end = s.inherent_dispatch.len() as usize;
    inherent_members_absent(s, target, target_type, member, 0, end);
    trait_members_absent(s, target, target_type, member, 0, s.trait_dispatch.len() as usize);
}

/// A type that can have no impls has no members.
pub proof fn law_no_impls_no_members<'ast>(
    s: State<'ast>,
    context: ResolveContext,
    target_type: TypeIndex,
    member: Symbol,
    span: TextSpan,
)
    requires
        !(s.ty(target_type) is TypeParam),
        substitute::impl_target(target_type, s.ty(target_type)) is None,
    ensures
        s.resolve_impl_member(context, target_type, member, span) == (s, MemberLookup::NotFound),
{
    reveal(State::resolve_impl_member);
}

// ---------------------------------------------------------------- type parameters

/// Whether a trait declares a member of a name.
pub open spec fn trait_declares<'ast>(s: State<'ast>, trait_index: usize, member: Symbol) -> bool {
    trait_index < s.traits.len() && !lacks(s.traits[trait_index as int].members, member)
}

#[verifier::rlimit(60)]
proof fn bound_members_found<'ast>(
    s: State<'ast>,
    bounds: List<TraitBound>,
    target_type: TypeIndex,
    member: Symbol,
)
    ensures
        ({
            let found = s.bound_candidates(&bounds, target_type, member);
            &&& found is Nil <==> (forall|i: nat|
                (#[trigger] bounds.at(i)) matches Some(bound) ==> !trait_declares(
                    s,
                    bound.trait_index,
                    member,
                ))
            &&& forall|i: nat|
                (#[trigger] bounds.at(i)) is Some && trait_declares(
                    s,
                    bounds.at(i)->0.trait_index,
                    member,
                ) && (forall|j: nat|
                    j != i ==> ((#[trigger] bounds.at(j)) matches Some(other) ==> !trait_declares(
                        s,
                        other.trait_index,
                        member,
                    ))) ==> {
                    &&& found is Cons && *found->Cons_1 is Nil
                    &&& found->Cons_0.source == bounds.at(i)->0.trait_index
                    &&& gives(
                        s.traits[bounds.at(i)->0.trait_index as int].members,
                        member,
                        found->Cons_0.entry,
                    )
                    &&& are_arguments_of(
                        s,
                        found->Cons_0.entry,
                        single(target_type),
                        found->Cons_0.type_args,
                    )
                }
            &&& forall|i: nat, j: nat|
                i < j && ((#[trigger] bounds.at(i)) matches Some(a) && trait_declares(
                    s,
                    a.trait_index,
                    member,
                )) && ((#[trigger] bounds.at(j)) matches Some(b) && trait_declares(
                    s,
                    b.trait_index,
                    member,
                )) ==> found.count() > 1
        }),
    decreases bounds,
{
    let found = s.bound_candidates(&bounds, target_type, member);
    reveal_with_fuel(List::count, 3);
    match bounds {
        List::Nil => {},
        List::Cons(head, tail) => {
            bound_members_found(s, *tail, target_type, member);
            let rest = s.bound_candidates(&*tail, target_type, member);
            assert(bounds.at(0) == Some(*head));
            assert forall|i: nat| i > 0 implies #[trigger] bounds.at(i) == tail.at(
                (i - 1) as nat,
            ) by {}
            assert forall|i: nat| #[trigger] tail.at(i) == bounds.at(i + 1) by {}
            if head.trait_index < s.traits.len() {
                let declaration = s.traits[head.trait_index as int];
                law_member_is_the_first_of_its_name(declaration.members, member);
                match substitute::member_entry(declaration.members, member) {
                    Some(entry) => {
                        law_arguments_of_a_member(s, entry, single(target_type));
                        assert(gives(declaration.members, member, entry));
                    },
                    None => {},
                }
            }
            let declares = trait_declares(s, head.trait_index, member);
            assert(declares ==> found is Cons && *found->Cons_1 == rest);
            assert(!declares ==> found == rest);
            if rest is Cons {
                assert(rest.count() > 0);
            }
            assert forall|i: nat|
                (#[trigger] bounds.at(i)) is Some && trait_declares(
                    s,
                    bounds.at(i)->0.trait_index,
                    member,
                ) && (forall|j: nat|
                    j != i ==> ((#[trigger] bounds.at(j)) matches Some(other) ==> !trait_declares(
                        s,
                        other.trait_index,
                        member,
                    ))) implies {
                &&& found is Cons && *found->Cons_1 is Nil
                &&& found->Cons_0.source == bounds.at(i)->0.trait_index
                &&& gives(
                    s.traits[bounds.at(i)->0.trait_index as int].members,
                    member,
                    found->Cons_0.entry,
                )
                &&& are_arguments_of(
                    s,
                    found->Cons_0.entry,
                    single(target_type),
                    found->Cons_0.type_args,
                )
            } by {
                if i == 0 {
                    assert forall|k: nat| (#[trigger] tail.at(k)) is Some implies !trait_declares(
                        s,
                        tail.at(k)->0.trait_index,
                        member,
                    ) by {
                        assert(tail.at(k) == bounds.at(k + 1));
                    }
                } else {
                    assert(bounds.at(0) == Some(*head));
                    assert(!declares);
                    let k = (i - 1) as nat;
                    assert(tail.at(k) == bounds.at(i));
                    assert forall|j: nat| j != k implies ((#[trigger] tail.at(j)) matches Some(
                        other,
                    ) ==> !trait_declares(s, other.trait_index, member)) by {
                        assert(tail.at(j) == bounds.at(j + 1));
                    }
                }
            }
            assert forall|i: nat, j: nat|
                i < j && ((#[trigger] bounds.at(i)) matches Some(a) && trait_declares(
                    s,
                    a.trait_index,
                    member,
                )) && ((#[trigger] bounds.at(j)) matches Some(b) && trait_declares(
                    s,
                    b.trait_index,
                    member,
                )) implies found.count() > 1 by {
                let k = (j - 1) as nat;
                assert(tail.at(k) == bounds.at(j));
                if i > 0 {
                    assert(tail.at((i - 1) as nat) == bounds.at(i));
                }
            }
            if found is Nil {
                assert forall|i: nat| (#[trigger] bounds.at(i)) is Some implies !trait_declares(
                    s,
                    bounds.at(i)->0.trait_index,
                    member,
                ) by {
                    if i > 0 {
                        assert(tail.at((i - 1) as nat) == bounds.at(i));
                    }
                }
            } else if rest is Cons {
                let k = choose|k: nat|
                    (#[trigger] tail.at(k)) is Some && trait_declares(
                        s,
                        tail.at(k)->0.trait_index,
                        member,
                    );
                assert(tail.at(k) == bounds.at(k + 1));
            }
        },
    }
}

/// The members of a type parameter are those that the traits of its declared
/// bounds declare, with the parameter as their argument. One that two bounds
/// give is reported; a member of any other trait is not found.
#[verifier::rlimit(60)]
pub proof fn law_members_of_a_type_parameter<'ast>(
    s: State<'ast>,
    context: ResolveContext,
    target_type: TypeIndex,
    member: Symbol,
    span: TextSpan,
)
    requires
        s.ty(target_type) is TypeParam,
        declared_param(
            s,
            s.ty(target_type)->TypeParam_owner,
            s.ty(target_type)->TypeParam_param_index,
        ) is Some,
    ensures
        ({
            let bounds = declared_param(
                s,
                s.ty(target_type)->TypeParam_owner,
                s.ty(target_type)->TypeParam_param_index,
            )->0.bounds.traits;
            let (t, found) = s.resolve_impl_member(context, target_type, member, span);
            &&& (forall|i: nat|
                (#[trigger] bounds.at(i)) matches Some(bound) ==> !trait_declares(
                    s,
                    bound.trait_index,
                    member,
                )) ==> found is NotFound && t == s
            &&& forall|i: nat|
                (#[trigger] bounds.at(i)) is Some && trait_declares(
                    s,
                    bounds.at(i)->0.trait_index,
                    member,
                ) && (forall|j: nat|
                    j != i ==> ((#[trigger] bounds.at(j)) matches Some(other) ==> !trait_declares(
                        s,
                        other.trait_index,
                        member,
                    ))) ==> {
                    &&& t == s
                    &&& found matches MemberLookup::Trait { entry, type_args, trait_index }
                        && trait_index == bounds.at(i)->0.trait_index && gives(
                        s.traits[trait_index as int].members,
                        member,
                        entry,
                    ) && are_arguments_of(s, entry, single(target_type), type_args)
                }
            &&& forall|i: nat, j: nat|
                i < j && ((#[trigger] bounds.at(i)) matches Some(a) && trait_declares(
                    s,
                    a.trait_index,
                    member,
                )) && ((#[trigger] bounds.at(j)) matches Some(b) && trait_declares(
                    s,
                    b.trait_index,
                    member,
                )) ==> found is Ambiguous && more_is_reported(s, t)
        }),
{
    reveal(State::resolve_impl_member);
    reveal(State::choose_trait_candidate);
    reveal(State::report);
    reveal_with_fuel(List::count, 3);
    let owner = s.ty(target_type)->TypeParam_owner;
    let index = s.ty(target_type)->TypeParam_param_index;
    law_type_parameter_is_where_it_is_declared(s, owner, index);
    let bounds = declared_param(s, owner, index)->0.bounds.traits;
    bound_members_found(s, bounds, target_type, member);
}

/// A member of one certain trait is found for a type parameter if and only if
/// a declared bound names the trait and the trait declares the member.
pub proof fn law_member_of_a_bound<'ast>(
    s: State<'ast>,
    target_type: TypeIndex,
    required: usize,
    member: Symbol,
)
    requires
        s.ty(target_type) is TypeParam,
        declared_param(
            s,
            s.ty(target_type)->TypeParam_owner,
            s.ty(target_type)->TypeParam_param_index,
        ) is Some,
    ensures
        ({
            let bounds = declared_param(
                s,
                s.ty(target_type)->TypeParam_owner,
                s.ty(target_type)->TypeParam_param_index,
            )->0.bounds.traits;
            let found = s.resolve_trait_member(target_type, required, member);
            &&& !names_trait(bounds, required) ==> found == Err::<Candidate, TraitMemberError>(
                TraitMemberError::NotImplemented,
            )
            &&& names_trait(bounds, required) && !trait_declares(s, required, member) ==> found
                == Err::<Candidate, TraitMemberError>(TraitMemberError::NoSuchMember)
            &&& names_trait(bounds, required) && trait_declares(s, required, member) ==> (
            found matches Ok(candidate) && candidate.source == required && gives(
                s.traits[required as int].members,
                member,
                candidate.entry,
            ) && are_arguments_of(s, candidate.entry, single(target_type), candidate.type_args))
        }),
{
    let owner = s.ty(target_type)->TypeParam_owner;
    let index = s.ty(target_type)->TypeParam_param_index;
    law_type_parameter_is_where_it_is_declared(s, owner, index);
    let bounds = declared_param(s, owner, index)->0.bounds.traits;
    law_bound_is_found(bounds, required);
    if required < s.traits.len() {
        let declaration = s.traits[required as int];
        law_member_is_the_first_of_its_name(declaration.members, member);
        match substitute::member_entry(declaration.members, member) {
            Some(entry) => {
                law_arguments_of_a_member(s, entry, single(target_type));
                assert(gives(declaration.members, member, entry));
            },
            None => {},
        }
    }
}

// ---------------------------------------------------------------- methods

/// A call on a value means a method of the value's type, a call on a pointer
/// one of the type that it points to. A name that stands for nothing, or for
/// no method, is reported, and so is a method that takes its receiver as a
/// pointer where the receiver is none, or the other way round.
pub proof fn law_method_of_a_receiver<'ast>(
    s: State<'ast>,
    context: ResolveContext,
    receiver: Spanned<TypeIndex>,
    method: Spanned<Symbol>,
    looked_up: TypeIndex,
)
    requires
        looked_up == (match s.ty(receiver.inner) {
            Type::Pointer { to, .. } => to,
            _ => receiver.inner,
        }),
        looked_up != ty::ERROR,
        !(s.ty(looked_up) is TypeParam),
    ensures
        ({
            let (t, found) = s.resolve_method_call(context, receiver, method);
            let (u, member) = s.resolve_impl_member(
                context,
                looked_up,
                method.inner,
                method.span,
            );
            let entry = match member {
                MemberLookup::Inherent { entry, type_args: _ } => Some(entry),
                MemberLookup::Trait { entry, type_args: _, trait_index: _ } => Some(entry),
                _ => None,
            };
            &&& member is NotFound ==> found is None && more_is_reported(u, t)
            &&& member is Ambiguous ==> found is None && t == u
            &&& !(s.ty(looked_up) is TypeParam) && u == s ==> match entry {
                Some(ImplEntry::Method(index)) => {
                    let takes_pointer = s.ty(s.self_param_type(index)) is Pointer;
                    &&& takes_pointer != (s.ty(receiver.inner) is Pointer) ==> found is None
                        && more_is_reported(s, t)
                    &&& takes_pointer == (s.ty(receiver.inner) is Pointer) ==> t == s && (
                    found matches Some((function, _)) && function == index)
                },
                Some(_) => found is None && more_is_reported(s, t),
                None => found is None,
            }
        }),
{
    reveal(State::resolve_method_call);
    reveal(State::method_of_entry);
    reveal(State::report);
}

/// Nothing is reported of a call on a poisoned value.
pub proof fn law_poisoned_receiver_is_silent<'ast>(
    s: State<'ast>,
    context: ResolveContext,
    receiver: Spanned<TypeIndex>,
    method: Spanned<Symbol>,
)
    requires
        receiver.inner == ty::ERROR,
        s.ty(ty::ERROR) is Error,
    ensures
        s.resolve_method_call(context, receiver, method) == (s, None::<(usize, List<TypeIndex>)>),
{
    reveal(State::resolve_method_call);
}

/// The type that a method takes its receiver as is that of its first
/// parameter.
pub proof fn law_receiver_is_the_first_parameter<'ast>(s: State<'ast>, index: usize)
    requires
        index < s.functions.len(),
    ensures
        s.functions[index as int].params.at(0) matches Some(param) ==> s.self_param_type(index)
            == param.ty.inner,
{
}

} // verus!
