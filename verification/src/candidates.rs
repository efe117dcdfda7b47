//! Distinct lookup candidates, in the order in which they are found. A key
//! says which lookup result a candidate is, apart from what it resolves to.

use vstd::prelude::*;
use vstd::std_specs::cmp::PartialEqSpec;

verus! {

/// Candidates with different keys. The first is held apart, so most lookups
/// need no further storage.
pub struct CandidateSet<K, T> {
    first: Option<(K, T)>,
    additional: Vec<(K, T)>,
}

/// What a lookup came to.
pub enum CandidateSelection<T> {
    Absent,
    One(T),
    Many(Vec<T>),
}

/// Whether one of the candidates has the key.
pub open spec fn has_key<K: PartialEq, T>(candidates: Seq<(K, T)>, key: K) -> bool {
    exists|i: int| 0 <= i < candidates.len() && (#[trigger] candidates[i]).0.eq_spec(&key)
}

/// The candidates with one more, unless there is one with the same key.
pub open spec fn with_candidate<K: PartialEq, T>(
    candidates: Seq<(K, T)>,
    candidate: (K, T),
) -> Seq<(K, T)> {
    if has_key(candidates, candidate.0) {
        candidates
    } else {
        candidates.push(candidate)
    }
}

/// The candidates after one insertion after the other.
pub open spec fn with_candidates<K: PartialEq, T>(inserted: Seq<(K, T)>) -> Seq<(K, T)>
    decreases inserted.len(),
{
    if inserted.len() == 0 {
        Seq::empty()
    } else {
        with_candidate(with_candidates(inserted.drop_last()), inserted.last())
    }
}

/// Of a number of insertions, the first one of each key, in order.
pub open spec fn first_of_each_key<K: PartialEq, T>(inserted: Seq<(K, T)>) -> Seq<(K, T)>
    decreases inserted.len(),
{
    if inserted.len() == 0 {
        Seq::empty()
    } else {
        let earlier = first_of_each_key(inserted.drop_last());
        if has_key(inserted.drop_last(), inserted.last().0) {
            earlier
        } else {
            earlier.push(inserted.last())
        }
    }
}

/// The candidates without their keys.
pub open spec fn values_of<K, T>(candidates: Seq<(K, T)>) -> Seq<T> {
    candidates.map_values(|candidate: (K, T)| candidate.1)
}

impl<T> CandidateSelection<T> {
    /// Whether a lookup that found these values, in this order, comes to this.
    pub open spec fn is_of(self, values: Seq<T>) -> bool {
        match self {
            CandidateSelection::Absent => values.len() == 0,
            CandidateSelection::One(value) => values.len() == 1 && values[0] == value,
            CandidateSelection::Many(all) => values.len() > 1 && all@ == values,
        }
    }
}

/// Whether equality of keys leads from one key to a third over a second.
pub open spec fn equality_chains<K: PartialEq>() -> bool {
    forall|a: K, b: K, c: K|
        #[trigger] a.eq_spec(&b) && #[trigger] b.eq_spec(&c) ==> a.eq_spec(&c)
}

/// After any number of insertions, the candidates are the first insertion of
/// each key, in order: a later one with the same key is dropped, whatever its
/// value.
pub proof fn law_first_of_each_key_stays<K: PartialEq, T>(inserted: Seq<(K, T)>)
    requires
        equality_chains::<K>(),
    ensures
        with_candidates(inserted) == first_of_each_key(inserted),
        forall|key: K| has_key(with_candidates(inserted), key) == has_key(inserted, key),
    decreases inserted.len(),
{
    if inserted.len() > 0 {
        let earlier = inserted.drop_last();
        let last = inserted.last();
        law_first_of_each_key_stays(earlier);
        let before = with_candidates(earlier);
        let after = with_candidates(inserted);
        assert(has_key(before, last.0) == has_key(earlier, last.0));
        assert forall|key: K| has_key(after, key) == has_key(inserted, key) by {
            assert(has_key(before, key) == has_key(earlier, key));
            if has_key(inserted, key) {
                let i = choose|i: int|
                    0 <= i < inserted.len() && (#[trigger] inserted[i]).0.eq_spec(&key);
                if i < earlier.len() {
                    assert(earlier[i].0.eq_spec(&key));
                    let j = choose|j: int|
                        0 <= j < before.len() && (#[trigger] before[j]).0.eq_spec(&key);
                    assert(after[j] == before[j]);
                } else if has_key(before, last.0) {
                    let j = choose|j: int|
                        0 <= j < before.len() && (#[trigger] before[j]).0.eq_spec(&last.0);
                    assert(before[j].0.eq_spec(&key));
                } else {
                    assert(after[before.len() as int] == last);
                }
            }
            if has_key(after, key) {
                let i = choose|i: int|
                    0 <= i < after.len() && (#[trigger] after[i]).0.eq_spec(&key);
                if i < before.len() {
                    assert(before[i].0.eq_spec(&key));
                    let j = choose|j: int|
                        0 <= j < earlier.len() && (#[trigger] earlier[j]).0.eq_spec(&key);
                    assert(inserted[j] == earlier[j]);
                } else {
                    assert(inserted[inserted.len() - 1] == last);
                }
            }
        }
    }
}

/// What a lookup comes to after any number of insertions: nothing, the one
/// value or all the values of the first insertion of each key, in order.
pub proof fn law_selection_after_insertions<K: PartialEq, T>(
    inserted: Seq<(K, T)>,
    selection: CandidateSelection<T>,
)
    requires
        equality_chains::<K>(),
        selection.is_of(values_of(with_candidates(inserted))),
    ensures
        ({
            let values = values_of(first_of_each_key(inserted));
            &&& values.len() == 0 ==> selection == CandidateSelection::<T>::Absent
            &&& values.len() == 1 ==> selection == CandidateSelection::One(values[0])
            &&& values.len() > 1 ==> selection is Many && selection->Many_0@ == values
        }),
{
    law_first_of_each_key_stays(inserted);
}

/// A key that is held already is not inserted again.
pub proof fn law_held_key_is_not_inserted<K: PartialEq, T>(
    candidates: Seq<(K, T)>,
    key: K,
    value: T,
)
    requires
        has_key(candidates, key),
    ensures
        with_candidate(candidates, (key, value)) == candidates,
{
}

impl<K, T> View for CandidateSet<K, T> {
    type V = Seq<(K, T)>;

    closed spec fn view(&self) -> Seq<(K, T)> {
        match self.first {
            Some(first) => seq![first] + self.additional@,
            None => Seq::empty(),
        }
    }
}

impl<K, T> CandidateSet<K, T> {
    /// Nothing is held beside a first candidate that is not there.
    #[verifier::type_invariant]
    spec fn well_formed(self) -> bool {
        self.first is None ==> self.additional@.len() == 0
    }
}

impl<K: PartialEq, T> CandidateSet<K, T> {
    pub fn new() -> (result: CandidateSet<K, T>)
        ensures
            result@ == Seq::<(K, T)>::empty(),
    {
        CandidateSet { first: None, additional: Vec::new() }
    }

    fn contains(&self, key: &K) -> (result: bool)
        ensures
            result ==> exists|i: int|
                0 <= i < self@.len() && call_ensures(
                    K::eq,
                    (&(#[trigger] self@[i]).0, key),
                    true,
                ),
            !result ==> forall|i: int|
                0 <= i < self@.len() ==> call_ensures(
                    K::eq,
                    (&(#[trigger] self@[i]).0, key),
                    false,
                ),
            K::obeys_eq_spec() ==> result == has_key(self@, *key),
    {
        match &self.first {
            Some(first) => {
                assert(self@[0] == *first);
                if first.0.eq(key) {
                    return true;
                }
                let mut i: usize = 0;
                while i < self.additional.len()
                    invariant
                        i <= self.additional.len(),
                        self.first == Some(*first),
                        call_ensures(K::eq, (&first.0, key), false),
                        forall|j: int|
                            0 <= j < i ==> call_ensures(
                                K::eq,
                                (&(#[trigger] self.additional@[j]).0, key),
                                false,
                            ),
                        K::obeys_eq_spec() ==> !first.0.eq_spec(key),
                        K::obeys_eq_spec() ==> forall|j: int|
                            0 <= j < i ==> !(#[trigger] self.additional@[j]).0.eq_spec(key),
                    decreases self.additional.len() - i,
                {
                    if self.additional[i].0.eq(key) {
                        assert(self@[i + 1] == self.additional@[i as int]);
                        return true;
                    }
                    i = i + 1;
                }
                proof {
                    assert forall|j: int| 0 <= j < self@.len() implies call_ensures(
                        K::eq,
                        (&(#[trigger] self@[j]).0, key),
                        false,
                    ) && (K::obeys_eq_spec() ==> !self@[j].0.eq_spec(key)) by {
                        if j > 0 {
                            assert(self@[j] == self.additional@[j - 1]);
                        }
                    }
                }
                false
            },
            None => false,
        }
    }

    /// Adds a candidate, unless there is one with the same key: then the set
    /// stays as it is. The keys are compared by their `==`, which nothing is
    /// known of where it does not follow its specification.
    pub fn insert(&mut self, key: K, value: T)
        ensures
            final(self)@ == old(self)@ || final(self)@ == old(self)@.push((key, value)),
            final(self)@ == old(self)@ ==> *final(self) == *old(self) && exists|i: int|
                0 <= i < old(self)@.len() && call_ensures(
                    K::eq,
                    (&(#[trigger] old(self)@[i]).0, &key),
                    true,
                ),
            final(self)@ != old(self)@ ==> forall|i: int|
                0 <= i < old(self)@.len() ==> call_ensures(
                    K::eq,
                    (&(#[trigger] old(self)@[i]).0, &key),
                    false,
                ),
            K::obeys_eq_spec() ==> final(self)@ == with_candidate(old(self)@, (key, value)),
    {
        if self.contains(&key) {
            return;
        }
        proof {
            use_type_invariant(&*self);
        }
        if self.first.is_none() {
            self.first = Some((key, value));
        } else {
            let mut additional: Vec<(K, T)> = Vec::new();
            std::mem::swap(&mut additional, &mut self.additional);
            additional.push((key, value));
            self.additional = additional;
        }
        assert(self@ =~= old(self)@.push((key, value)));
        assert(self@.len() == old(self)@.len() + 1);
    }

    /// The candidates without their keys, in the order in which they came.
    pub fn finish(self) -> (result: CandidateSelection<T>)
        ensures
            result.is_of(values_of(self@)),
    {
        proof {
            use_type_invariant(&self);
        }
        let ghost all = self@;
        let CandidateSet { first, additional } = self;
        match first {
            None => CandidateSelection::Absent,
            Some((_, first)) => {
                if additional.len() == 0 {
                    return CandidateSelection::One(first);
                }
                let mut values: Vec<T> = vec![first];
                let mut rest = additional;
                assert(values@ + values_of(rest@) =~= values_of(all));
                while rest.len() > 0
                    invariant
                        values@ + values_of(rest@) == values_of(all),
                        all.len() > 1,
                    decreases rest.len(),
                {
                    let ghost before = rest@;
                    let ghost so_far = values@;
                    let (_, value) = rest.remove(0);
                    values.push(value);
                    assert(values@ + values_of(rest@) =~= so_far + values_of(before));
                }
                assert(values@ =~= values_of(all));
                CandidateSelection::Many(values)
            },
        }
    }
}

} // verus!
