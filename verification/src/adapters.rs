//! Capability-contract implementations for standard sequential
//! containers: the resizable array, the double-ended queue, and the
//! fixed-size array.

use crate::IndexableCollection;
use crate::IndexableCollectionMut;
use std::collections::VecDeque;
use vstd::prelude::*;

verus! {

/// Updating a sequence at index `i` is the same as splitting it at
/// `i` and updating the head of the back part: the shape that a
/// mutable borrow of one element takes when it is obtained through
/// `split_at_mut` and `first_mut`.
proof fn lemma_update_through_split<T>(s: Seq<T>, i: int)
    requires
        0 <= i < s.len(),
    ensures
        forall|x: T| #[trigger] s.update(i, x) == s.subrange(0, i) + s.subrange(
            i,
            s.len() as int,
        ).update(0, x),
{
    assert forall|x: T| #[trigger] s.update(i, x) == s.subrange(0, i) + s.subrange(
        i,
        s.len() as int,
    ).update(0, x) by {
        assert(s.update(i, x) =~= s.subrange(0, i) + s.subrange(i, s.len() as int).update(0, x));
    }
}

impl<T> IndexableCollection for Vec<T> {
    type Item = T;

    open spec fn contents(&self) -> Seq<T> {
        self@
    }

    fn len(&self) -> usize {
        self.len()
    }

    fn get_item(&self, index: usize) -> Option<&T> {
        if index < self.len() {
            Some(&self[index])
        } else {
            None
        }
    }
}

/// For a resizable array, `set_item` is insert-like: it grows the
/// collection, shifting every later item one index up. Any index up to
/// and including the current length is accepted.
impl<T> IndexableCollectionMut for Vec<T> {
    open spec fn set_allowed(&self, index: int) -> bool {
        0 <= index <= self@.len()
    }

    open spec fn contents_after_set(&self, index: int, item: T) -> Seq<T> {
        self@.insert(index, item)
    }

    fn get_item_mut(&mut self, index: usize) -> (r: Option<&mut T>) {
        if index < self.len() {
            let ghost s0 = self@;
            proof {
                lemma_update_through_split::<T>(s0, index as int);
            }
            let slice = self.as_mut_slice();
            let (_front, back) = slice.split_at_mut(index);
            back.first_mut()
        } else {
            None
        }
    }

    fn set_item(&mut self, index: usize, element: T) {
        self.insert(index, element);
    }

    fn remove_item(&mut self, index: usize) -> (r: Option<T>) {
        if index < self.len() {
            Some(self.remove(index))
        } else {
            None
        }
    }

    fn clear(&mut self) {
        self.clear();
    }
}

/// Relies on `VecDeque::get_mut`: the result is `Some` of a mutable
/// reference to the element at `index` iff `index` is in bounds, and
/// writing through that reference updates exactly that element.
#[verifier::external_body]
fn deque_get_mut<T>(v: &mut VecDeque<T>, index: usize) -> (r: Option<&mut T>)
    ensures
        index < old(v)@.len() ==> r is Some && *r.unwrap() == old(v)@[index as int] && final(v)@
            == old(v)@.update(index as int, *final(r.unwrap())),
        index >= old(v)@.len() ==> r is None && final(v)@ == old(v)@,
{
    v.get_mut(index)
}

impl<T> IndexableCollection for VecDeque<T> {
    type Item = T;

    open spec fn contents(&self) -> Seq<T> {
        self@
    }

    fn len(&self) -> usize {
        self.len()
    }

    fn get_item(&self, index: usize) -> Option<&T> {
        if index < self.len() {
            Some(&self[index])
        } else {
            None
        }
    }
}

/// For a double-ended queue, `set_item` is insert-like, as it is for
/// the resizable array: it grows the collection, shifting every later
/// item one index up. Any index up to and including the current length
/// is accepted.
impl<T> IndexableCollectionMut for VecDeque<T> {
    open spec fn set_allowed(&self, index: int) -> bool {
        0 <= index <= self@.len()
    }

    open spec fn contents_after_set(&self, index: int, item: T) -> Seq<T> {
        self@.insert(index, item)
    }

    fn get_item_mut(&mut self, index: usize) -> (r: Option<&mut T>) {
        deque_get_mut(self, index)
    }

    fn set_item(&mut self, index: usize, element: T) {
        self.insert(index, element);
    }

    fn remove_item(&mut self, index: usize) -> (r: Option<T>) {
        self.remove(index)
    }

    fn clear(&mut self) {
        self.clear();
    }
}

/// A fixed-size array can be wrapped read-only: it satisfies the read
/// capability but not the mutable one, since its length can never
/// change.
impl<T, const N: usize> IndexableCollection for [T; N] {
    type Item = T;

    open spec fn contents(&self) -> Seq<T> {
        self@
    }

    fn len(&self) -> usize {
        N
    }

    fn get_item(&self, index: usize) -> Option<&T> {
        if index < N {
            Some(&self[index])
        } else {
            None
        }
    }
}

} // verus!
