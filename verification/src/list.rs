//! Immutable singly linked lists.
//!
//! Two lists are equal exactly when their elements are, so a type, a
//! signature or an expression that holds lists can be compared, rebuilt and
//! described as a plain value.

use vstd::prelude::*;

verus! {

/// A list of `T`: empty, or a first element followed by the rest.
#[derive(Debug, PartialEq, Eq)]
pub enum List<T> {
    Nil,
    Cons(Box<T>, Box<List<T>>),
}

impl<T> List<T> {
    /// The elements in order.
    pub open spec fn view(self) -> Seq<T>
        decreases self,
    {
        match self {
            List::Nil => Seq::empty(),
            List::Cons(head, tail) => seq![*head] + tail.view(),
        }
    }

    /// The number of elements.
    pub open spec fn count(self) -> nat
        decreases self,
    {
        match self {
            List::Nil => 0,
            List::Cons(_, tail) => 1 + tail.count(),
        }
    }

    /// The element at position `index`, if there is one.
    pub open spec fn at(self, index: nat) -> Option<T>
        decreases self,
    {
        match self {
            List::Nil => None,
            List::Cons(head, tail) => if index == 0 {
                Some(*head)
            } else {
                tail.at((index - 1) as nat)
            },
        }
    }

    /// The list followed by one more element.
    pub open spec fn snoc(self, last: T) -> List<T>
        decreases self,
    {
        match self {
            List::Nil => List::Cons(Box::new(last), Box::new(List::Nil)),
            List::Cons(head, tail) => List::Cons(head, Box::new(tail.snoc(last))),
        }
    }

    /// The list with the element at `index` replaced; unchanged when there is
    /// no such element.
    pub open spec fn replaced(self, index: nat, value: T) -> List<T>
        decreases self,
    {
        match self {
            List::Nil => List::Nil,
            List::Cons(head, tail) => if index == 0 {
                List::Cons(Box::new(value), tail)
            } else {
                List::Cons(head, Box::new(tail.replaced((index - 1) as nat, value)))
            },
        }
    }

    pub open spec fn spec_is_empty(&self) -> bool {
        *self is Nil
    }

    #[verifier::when_used_as_spec(spec_is_empty)]
    pub fn is_empty(&self) -> (result: bool)
        ensures
            result == self.spec_is_empty(),
            result == (*self == List::<T>::Nil),
            result == (self.count() == 0),
    {
        match self {
            List::Nil => true,
            List::Cons(..) => false,
        }
    }

    pub open spec fn spec_len(&self) -> usize {
        clamp(self.count())
    }

    /// The number of elements, as far as a `usize` can count them.
    #[verifier::when_used_as_spec(spec_len)]
    pub fn len(&self) -> (result: usize)
        ensures
            result == self.spec_len(),
        decreases self,
    {
        match self {
            List::Nil => 0,
            List::Cons(_, tail) => {
                let rest: usize = tail.len();
                if rest == usize::MAX {
                    usize::MAX
                } else {
                    rest + 1
                }
            },
        }
    }

    pub open spec fn spec_get(&self, index: usize) -> Option<&T> {
        match self.at(index as nat) {
            Some(value) => Some(&value),
            None => None,
        }
    }

    #[verifier::when_used_as_spec(spec_get)]
    pub fn get(&self, index: usize) -> (result: Option<&T>)
        ensures
            result == self.spec_get(index),
            match result {
                Some(value) => self.at(index as nat) == Some(*value),
                None => self.at(index as nat) is None,
            },
        decreases self,
    {
        match self {
            List::Nil => None,
            List::Cons(head, tail) => if index == 0 {
                Some(head)
            } else {
                tail.get(index - 1)
            },
        }
    }

    /// The element at `index`, to be changed in place.
    pub fn get_mut(&mut self, index: usize) -> (result: Option<&mut T>)
        ensures
            match result {
                Some(element) => {
                    &&& old(self).at(index as nat) == Some(*element)
                    &&& *final(self) == old(self).replaced(index as nat, *final(element))
                },
                None => old(self).at(index as nat) is None && *final(self) == *old(self),
            },
        decreases *old(self),
    {
        match self {
            List::Nil => None,
            List::Cons(head, tail) => if index == 0 {
                Some(&mut **head)
            } else {
                tail.get_mut(index - 1)
            },
        }
    }

    /// Appends `last` at the end, in place.
    pub fn append(&mut self, last: T)
        ensures
            *final(self) == old(self).snoc(last),
        decreases *old(self),
    {
        match self {
            List::Nil => {
                *self = List::Cons(Box::new(last), Box::new(List::Nil));
            },
            List::Cons(_, tail) => {
                tail.append(last);
            },
        }
    }

    /// Appends `last` at the end.
    #[verifier::when_used_as_spec(snoc)]
    pub fn push(self, last: T) -> (result: List<T>)
        ensures
            result == self.snoc(last),
        decreases self,
    {
        match self {
            List::Nil => List::Cons(Box::new(last), Box::new(List::Nil)),
            List::Cons(head, tail) => List::Cons(head, Box::new((*tail).push(last))),
        }
    }

    pub open spec fn spec_set(self, index: usize, value: T) -> List<T> {
        self.replaced(index as nat, value)
    }

    /// Replaces the element at `index`.
    #[verifier::when_used_as_spec(spec_set)]
    pub fn set(self, index: usize, value: T) -> (result: List<T>)
        ensures
            result == self.spec_set(index, value),
        decreases self,
    {
        match self {
            List::Nil => List::Nil,
            List::Cons(head, tail) => if index == 0 {
                List::Cons(Box::new(value), tail)
            } else {
                List::Cons(head, Box::new((*tail).set(index - 1, value)))
            },
        }
    }
}

/// The list that starts with `head` and goes on with `tail`.
#[verifier::allow_in_spec]
pub fn cons<T>(head: T, tail: List<T>) -> (result: List<T>)
    returns
        List::Cons(Box::new(head), Box::new(tail)),
{
    List::Cons(Box::new(head), Box::new(tail))
}

/// The list of one element.
#[verifier::allow_in_spec]
pub fn single<T>(only: T) -> (result: List<T>)
    returns
        List::Cons(Box::new(only), Box::new(List::Nil)),
{
    List::Cons(Box::new(only), Box::new(List::Nil))
}

/// A natural number cut off at the largest `usize`.
pub open spec fn clamp(count: nat) -> usize {
    if count <= usize::MAX {
        count as usize
    } else {
        usize::MAX
    }
}

impl<T: Copy> List<T> {
    /// A second list of the same elements.
    pub fn duplicate(&self) -> (result: List<T>)
        ensures
            result == *self,
        decreases self,
    {
        match self {
            List::Nil => List::Nil,
            List::Cons(head, tail) => List::Cons(Box::new(**head), Box::new(tail.duplicate())),
        }
    }

    /// A list of `count` copies of `value`.
    pub open spec fn repeated(value: T, count: nat) -> List<T>
        decreases count,
    {
        if count == 0 {
            List::Nil
        } else {
            List::Cons(Box::new(value), Box::new(List::repeated(value, (count - 1) as nat)))
        }
    }

    pub open spec fn spec_repeat(value: T, count: usize) -> List<T> {
        List::repeated(value, count as nat)
    }

    /// A list of `count` copies of `value`.
    #[verifier::when_used_as_spec(spec_repeat)]
    pub fn repeat(value: T, count: usize) -> (result: List<T>)
        ensures
            result == List::spec_repeat(value, count),
        decreases count,
    {
        if count == 0 {
            List::Nil
        } else {
            List::Cons(Box::new(value), Box::new(List::repeat(value, count - 1)))
        }
    }
}

} // verus!
