//! Chains of parents: where an index leads when its parent, the parent of
//! that, and so on are followed.

use vstd::prelude::*;
use vstd::set_lib::{lemma_int_range, lemma_len_subset, set_int_range};

verus! {

/// The index that a chain of parents has at a position. The chain ends where
/// there is no parent, or none that is below `count`.
pub open spec fn ancestor(
    parents: spec_fn(usize) -> Option<usize>,
    count: nat,
    index: usize,
    position: nat,
) -> Option<usize>
    decreases position,
{
    if index >= count {
        None
    } else if position == 0 {
        Some(index)
    } else {
        match parents(index) {
            Some(parent) => ancestor(parents, count, parent, (position - 1) as nat),
            None => None,
        }
    }
}

/// Whether a chain of parents ends.
pub open spec fn chain_ends(
    parents: spec_fn(usize) -> Option<usize>,
    count: nat,
    index: usize,
) -> bool {
    exists|position: nat| (#[trigger] ancestor(parents, count, index, position)) is None
}

/// Whether every parent has a smaller index.
pub open spec fn parents_come_first(
    parents: spec_fn(usize) -> Option<usize>,
    count: nat,
) -> bool {
    forall|index: usize|
        index < count ==> ((#[trigger] parents(index)) matches Some(parent) ==> parent < index)
}

/// The first index of a chain that meets a test, among the first `steps`.
pub open spec fn first_where(
    parents: spec_fn(usize) -> Option<usize>,
    count: nat,
    index: usize,
    steps: nat,
    test: spec_fn(usize) -> bool,
) -> Option<usize>
    decreases steps,
{
    if steps == 0 || index >= count {
        None
    } else if test(index) {
        Some(index)
    } else {
        match parents(index) {
            Some(parent) => first_where(parents, count, parent, (steps - 1) as nat, test),
            None => None,
        }
    }
}

/// Whether an index is the first of a chain that meets a test.
pub open spec fn is_first_where(
    parents: spec_fn(usize) -> Option<usize>,
    count: nat,
    index: usize,
    test: spec_fn(usize) -> bool,
    found: usize,
) -> bool {
    exists|position: nat|
        {
            &&& (#[trigger] ancestor(parents, count, index, position)) == Some(found)
            &&& test(found)
            &&& none_before(parents, count, index, test, position)
        }
}

/// Whether no index of a chain before a position meets a test.
pub open spec fn none_before(
    parents: spec_fn(usize) -> Option<usize>,
    count: nat,
    index: usize,
    test: spec_fn(usize) -> bool,
    position: nat,
) -> bool {
    forall|earlier: nat|
        earlier < position ==> ((#[trigger] ancestor(parents, count, index, earlier)) matches Some(
            other,
        ) ==> !test(other))
}

/// Whether no index of a chain meets a test.
pub open spec fn none_where(
    parents: spec_fn(usize) -> Option<usize>,
    count: nat,
    index: usize,
    test: spec_fn(usize) -> bool,
) -> bool {
    forall|position: nat|
        (#[trigger] ancestor(parents, count, index, position)) matches Some(other) ==> !test(other)
}

/// A chain goes on from each of its indices.
pub proof fn chain_goes_on(
    parents: spec_fn(usize) -> Option<usize>,
    count: nat,
    index: usize,
    first: nat,
    second: nat,
)
    ensures
        ancestor(parents, count, index, first + second) == match ancestor(
            parents,
            count,
            index,
            first,
        ) {
            Some(middle) => ancestor(parents, count, middle, second),
            None => None,
        },
    decreases first,
{
    if first > 0 && index < count {
        match parents(index) {
            Some(parent) => {
                chain_goes_on(parents, count, parent, (first - 1) as nat, second);
                assert((first + second - 1) as nat == (first - 1) as nat + second);
            },
            None => {},
        }
    }
}

/// A chain that comes back to where it was never ends.
proof fn repeated_chain_goes_on(
    parents: spec_fn(usize) -> Option<usize>,
    count: nat,
    index: usize,
    period: nat,
    position: nat,
)
    requires
        period > 0,
        ancestor(parents, count, index, period) == Some(index),
    ensures
        ancestor(parents, count, index, position) is Some,
    decreases position,
{
    if position < period {
        chain_goes_on(parents, count, index, position, (period - position) as nat);
    } else {
        chain_goes_on(parents, count, index, period, (position - period) as nat);
        repeated_chain_goes_on(parents, count, index, period, (position - period) as nat);
    }
}

/// A chain that ends has no more indices than there are.
pub proof fn law_chain_that_ends_is_short(
    parents: spec_fn(usize) -> Option<usize>,
    count: nat,
    index: usize,
    position: nat,
)
    requires
        chain_ends(parents, count, index),
        position >= count,
    ensures
        ancestor(parents, count, index, position) is None,
{
    if ancestor(parents, count, index, position) is Some {
        let end = choose|end: nat| (#[trigger] ancestor(parents, count, index, end)) is None;
        let places = Seq::new(
            count + 1,
            |k: int| ancestor(parents, count, index, k as nat)->0 as int,
        );
        assert forall|k: nat| k <= count implies (#[trigger] ancestor(
            parents,
            count,
            index,
            k,
        )) is Some by {
            chain_goes_on(parents, count, index, k, (position - k) as nat);
        }
        assert forall|k: nat| k <= count implies 0 <= #[trigger] places[k as int] < count by {
            chain_goes_on(parents, count, index, k, 0);
        }
        assert(places.no_duplicates()) by {
            assert forall|i: int, j: int| 0 <= i < j < places.len() implies places[i]
                != places[j] by {
                if places[i] == places[j] {
                    let (first, second) = (i as nat, j as nat);
                    let repeated = ancestor(parents, count, index, first)->0;
                    assert(ancestor(parents, count, index, first) is Some);
                    assert(ancestor(parents, count, index, second) is Some);
                    let period = (second - first) as nat;
                    chain_goes_on(parents, count, index, first, period);
                    assert(ancestor(parents, count, repeated, period) == Some(repeated));
                    if end >= first {
                        let rest = (end - first) as nat;
                        chain_goes_on(parents, count, index, first, rest);
                        repeated_chain_goes_on(parents, count, repeated, period, rest);
                    } else {
                        chain_goes_on(parents, count, index, end, (first - end) as nat);
                    }
                    assert(false);
                }
            }
        }
        places.unique_seq_to_set();
        lemma_int_range(0, count as int);
        assert(places.to_set().subset_of(set_int_range(0, count as int))) by {
            assert forall|place: int| places.to_set().contains(place) implies set_int_range(
                0,
                count as int,
            ).contains(place) by {
                let k = choose|k: int| 0 <= k < places.len() && places[k] == place;
                assert(0 <= places[k as nat as int] < count);
            }
        }
        lemma_len_subset(places.to_set(), set_int_range(0, count as int));
        assert(false);
    }
}

/// A chain ends where every parent has a smaller index.
pub proof fn law_chain_of_smaller_parents_ends(
    parents: spec_fn(usize) -> Option<usize>,
    count: nat,
    index: usize,
)
    requires
        parents_come_first(parents, count),
    ensures
        chain_ends(parents, count, index),
{
    smaller_parents_end(parents, count, index);
    assert(ancestor(parents, count, index, index as nat + 1) is None);
}

proof fn smaller_parents_end(
    parents: spec_fn(usize) -> Option<usize>,
    count: nat,
    index: usize,
)
    requires
        parents_come_first(parents, count),
    ensures
        forall|position: nat|
            position > index ==> (#[trigger] ancestor(parents, count, index, position)) is None,
    decreases index,
{
    if index < count {
        match parents(index) {
            Some(parent) => {
                smaller_parents_end(parents, count, parent);
                assert forall|position: nat| position > index implies (#[trigger] ancestor(
                    parents,
                    count,
                    index,
                    position,
                )) is None by {
                    assert(ancestor(parents, count, parent, (position - 1) as nat) is None);
                }
            },
            None => {},
        }
    }
}

proof fn first_among_steps(
    parents: spec_fn(usize) -> Option<usize>,
    count: nat,
    index: usize,
    steps: nat,
    test: spec_fn(usize) -> bool,
)
    ensures
        match first_where(parents, count, index, steps, test) {
            Some(found) => is_first_where(parents, count, index, test, found),
            None => none_before(parents, count, index, test, steps),
        },
    decreases steps,
{
    if steps == 0 || index >= count {
    } else if test(index) {
        assert(ancestor(parents, count, index, 0) == Some(index));
        assert(none_before(parents, count, index, test, 0));
    } else {
        match parents(index) {
            Some(parent) => {
                let rest = (steps - 1) as nat;
                first_among_steps(parents, count, parent, rest, test);
                match first_where(parents, count, parent, rest, test) {
                    Some(found) => {
                        let position = choose|position: nat|
                            {
                                &&& (#[trigger] ancestor(parents, count, parent, position))
                                    == Some(found)
                                &&& test(found)
                                &&& none_before(parents, count, parent, test, position)
                            };
                        assert(ancestor(parents, count, index, position + 1) == Some(found));
                        none_before_extends(parents, count, index, parent, test, position);
                    },
                    None => {
                        none_before_extends(parents, count, index, parent, test, rest);
                    },
                }
            },
            None => {},
        }
    }
}

proof fn none_before_extends(
    parents: spec_fn(usize) -> Option<usize>,
    count: nat,
    index: usize,
    parent: usize,
    test: spec_fn(usize) -> bool,
    position: nat,
)
    requires
        index < count,
        parents(index) == Some(parent),
        !test(index),
        none_before(parents, count, parent, test, position),
    ensures
        none_before(parents, count, index, test, position + 1),
{
    assert forall|earlier: nat| earlier < position + 1 implies ((#[trigger] ancestor(
        parents,
        count,
        index,
        earlier,
    )) matches Some(other) ==> !test(other)) by {
        if earlier > 0 {
            let before = ancestor(parents, count, parent, (earlier - 1) as nat);
            assert(before matches Some(other) ==> !test(other));
        }
    }
}

/// The search along a chain that ends finds the first index that meets the
/// test, and nothing exactly where none does.
pub proof fn law_search_finds_the_first(
    parents: spec_fn(usize) -> Option<usize>,
    count: nat,
    index: usize,
    steps: nat,
    test: spec_fn(usize) -> bool,
)
    requires
        chain_ends(parents, count, index),
        steps >= count,
    ensures
        match first_where(parents, count, index, steps, test) {
            Some(found) => is_first_where(parents, count, index, test, found),
            None => none_where(parents, count, index, test),
        },
{
    first_among_steps(parents, count, index, steps, test);
    if first_where(parents, count, index, steps, test) is None {
        assert forall|position: nat| (#[trigger] ancestor(
            parents,
            count,
            index,
            position,
        )) matches Some(other) implies !test(ancestor(parents, count, index, position)->0) by {
            if position >= steps {
                law_chain_that_ends_is_short(parents, count, index, position);
            }
        }
    }
}

} // verus!
