//! A positioned cursor over any indexable collection.
//!
//! A [`CollectionCursor`] pairs a backing collection with a single movable
//! position (the "head") and resolves [`SeekFrom`] directives against the
//! collection's current length. The collection itself is abstracted behind
//! two capability traits: [`IndexableCollection`] for read-only access and
//! [`IndexableCollectionMut`] for mutation.

use vstd::prelude::*;

mod adapters;

verus! {

/// A request to move a cursor's head, expressed as an absolute index,
/// an offset from the end of the collection, or an offset from the
/// current position.
#[derive(Clone, Copy, Debug, Hash, PartialEq, Eq, PartialOrd, Ord)]
pub enum SeekFrom {
    /// Moves the cursor to the provided index.
    ///
    /// # Examples
    /// * `SeekFrom::Start(0)` will move the cursor to the first item
    /// * `SeekFrom::Start(5)` will move the cursor to the sixth item
    Start(usize),
    /// Moves the cursor to the collection's length plus the provided
    /// number of indices.
    ///
    /// It is an error to seek before the first index, or more than one
    /// index past the last item.
    ///
    /// # Examples
    /// * `SeekFrom::End(-1)` will move the cursor to the last item, if one exists
    /// * `SeekFrom::End(0)` will move the cursor to the index just after the last item
    End(isize),
    /// Moves the cursor to the current position plus the provided number
    /// of indices.
    ///
    /// It is an error to seek before the first index, or more than one
    /// index past the last item.
    ///
    /// # Examples
    /// * `SeekFrom::Current(-2)` will move the cursor back two indices
    /// * `SeekFrom::Current(0)` won't move anywhere
    /// * `SeekFrom::Current(5)` will move the cursor forward five indices
    Current(isize),
}

/// The candidate position that a seek directive requests, given the
/// cursor's current position and the collection's current length.
pub open spec fn seek_target(from: SeekFrom, cur: int, len: int) -> int {
    match from {
        SeekFrom::Start(p) => p as int,
        SeekFrom::End(p) => len + p,
        SeekFrom::Current(p) => cur + p,
    }
}

/// Whether a seek directive resolves to a valid position: the candidate
/// must lie in `[0, len]`, where `len` itself (one past the last item)
/// is an addressable position.
pub open spec fn seek_in_bounds(from: SeekFrom, cur: int, len: int) -> bool {
    0 <= seek_target(from, cur, len) <= len
}

/// The position that the clamp operation produces: the old position,
/// cut down to the collection's length if it had drifted past it.
pub open spec fn clamped(pos: int, len: int) -> int {
    if pos <= len {
        pos
    } else {
        len
    }
}

/// The read-only capability contract: the minimal surface a backing
/// store must expose so that a cursor can be driven over it.
///
/// Invariant: `get_item(i)` returns a value iff `0 <= i < len()`, and
/// the item returned is the one the collection holds at index `i`.
pub trait IndexableCollection {
    /// The type of item this container contains.
    type Item;

    /// The mathematical contents of the collection, as a sequence.
    spec fn contents(&self) -> Seq<Self::Item>;

    /// Gets the number of items this container currently contains.
    fn len(&self) -> (n: usize)
        ensures
            n == self.contents().len(),
    ;

    /// Gets a reference to the item at index `index`.
    ///
    /// Returns `None` if no item exists at `index`.
    fn get_item(&self, index: usize) -> (r: Option<&Self::Item>)
        ensures
            index < self.contents().len() ==> r is Some && *r.unwrap()
                == self.contents()[index as int],
            index >= self.contents().len() ==> r is None,
    ;
}

/// The mutable capability contract, extending the read-only one.
///
/// Whether `set_item` inserts (shifting later items) or overwrites in
/// place is adapter-defined: each implementation fixes its own
/// semantics through [`set_allowed`](Self::set_allowed) and
/// [`contents_after_set`](Self::contents_after_set).
pub trait IndexableCollectionMut: IndexableCollection {
    /// Whether the adapter accepts a `set_item` at `index`; an index
    /// outside this range would make the underlying store panic, so
    /// callers must stay within it.
    spec fn set_allowed(&self, index: int) -> bool;

    /// What the collection's contents become after `set_item`; this is
    /// where an adapter fixes insert-like versus overwrite-like
    /// semantics.
    spec fn contents_after_set(&self, index: int, item: Self::Item) -> Seq<Self::Item>;

    /// Gets a mutable reference to the item at index `index`.
    ///
    /// Returns `None` if no item exists at `index`.
    fn get_item_mut(&mut self, index: usize) -> (r: Option<&mut Self::Item>)
        ensures
            index < old(self).contents().len() ==> r is Some && *r.unwrap()
                == old(self).contents()[index as int] && final(self).contents()
                == old(self).contents().update(index as int, *final(r.unwrap())),
            index >= old(self).contents().len() ==> r is None && final(self).contents() == old(
                self,
            ).contents(),
    ;

    /// Sets an item at a specific index, with the adapter's own
    /// semantics (insert-like or overwrite-like).
    fn set_item(&mut self, index: usize, element: Self::Item)
        requires
            old(self).set_allowed(index as int),
        ensures
            final(self).contents() == old(self).contents_after_set(index as int, element),
    ;

    /// Removes the item at index `index` from the container, and
    /// returns the item; later items shift one index down.
    ///
    /// Returns `None` if no item exists at index `index`.
    fn remove_item(&mut self, index: usize) -> (r: Option<Self::Item>)
        ensures
            index < old(self).contents().len() ==> r is Some && r.unwrap()
                == old(self).contents()[index as int] && final(self).contents()
                == old(self).contents().remove(index as int),
            index >= old(self).contents().len() ==> r is None && final(self).contents() == old(
                self,
            ).contents(),
    ;

    /// Clears the container's contents.
    fn clear(&mut self)
        ensures
            final(self).contents() == Seq::<Self::Item>::empty(),
    ;
}

/// A cursor over a backing collection: the collection itself plus a
/// single movable position (the "head").
///
/// The position is kept within `[0, length]` by every cursor-mediated
/// operation; it can escape that range only when a caller obtains the
/// collection through [`get_mut`](CollectionCursor::get_mut), shrinks
/// it, and does not call
/// [`clamp_to_collection_bounds`](CollectionCursor::clamp_to_collection_bounds)
/// before the next operation. That is a caller responsibility, not a
/// cursor guarantee; every operation below states what it does for an
/// arbitrary position, so no such drift can make one panic.
#[derive(Clone, Debug, Default, Hash, PartialEq, Eq, PartialOrd, Ord)]
pub struct CollectionCursor<Tape> {
    /// The underlying collection that the cursor points into.
    inner: Tape,
    /// An index representing a position into the collection, usually
    /// the index of the cell to process next.
    pos: usize,
}

impl<Tape> CollectionCursor<Tape> {
    /// The backing collection, as a mathematical value.
    pub closed spec fn collection(&self) -> Tape {
        self.inner
    }

    /// The current position of the head.
    pub closed spec fn spec_position(&self) -> usize {
        self.pos
    }

    /// Creates a new `CollectionCursor` wrapping the provided collection.
    ///
    /// The cursor's initial position will always be `0`.
    pub fn new(inner: Tape) -> (r: Self)
        ensures
            r.collection() == inner,
            r.spec_position() == 0,
    {
        Self { inner, pos: 0 }
    }

    /// Returns the current position of the cursor.
    #[verifier::when_used_as_spec(spec_position)]
    pub fn position(&self) -> (r: usize)
        ensures
            r == self.spec_position(),
    {
        self.pos
    }

    /// Gets a reference to the underlying collection.
    pub fn get_ref(&self) -> (r: &Tape)
        ensures
            *r == self.collection(),
    {
        &self.inner
    }

    /// Gets a mutable reference to the underlying collection.
    ///
    /// # Warning
    /// If the underlying collection's length is modified, you should
    /// ensure that `0 <= self.position() <= self.get_ref().len()` is
    /// upheld before the next attempt to read/write at the cursor;
    /// [`clamp_to_collection_bounds`](CollectionCursor::clamp_to_collection_bounds)
    /// restores it. Until then, seeks and head-relative reads may fail
    /// where they would otherwise succeed.
    pub fn get_mut(&mut self) -> (r: &mut Tape)
        ensures
            *r == old(self).collection(),
            final(self).collection() == *final(r),
            final(self).spec_position() == old(self).spec_position(),
    {
        &mut self.inner
    }

    /// Consumes the cursor and returns the underlying collection.
    pub fn into_inner(self) -> (r: Tape)
        ensures
            r == self.collection(),
    {
        self.inner
    }
}

impl<Tape: IndexableCollection> CollectionCursor<Tape> {
    /// Moves the cursor to a new index.
    ///
    /// It is an error to seek to a position before `0` or after
    /// `self.get_ref().len()`; the same holds for a directive whose
    /// candidate position overflows the index representation. In these
    /// cases, `None` is returned and the cursor does not move.
    ///
    /// Otherwise, this returns `Some(new_pos)`, where `new_pos` is the
    /// new position of the cursor.
    pub fn seek(&mut self, pos: SeekFrom) -> (r: Option<usize>)
        ensures
            final(self).collection() == old(self).collection(),
            ({
                let len = old(self).collection().contents().len() as int;
                let target = seek_target(pos, old(self).spec_position() as int, len);
                if seek_in_bounds(pos, old(self).spec_position() as int, len) {
                    r == Some(target as usize) && final(self).spec_position() == target
                } else {
                    r is None && final(self).spec_position() == old(self).spec_position()
                }
            }),
    {
        let collection_len = self.inner.len();

        let desired_position: Option<usize> = match pos {
            SeekFrom::Start(p) => Some(p),
            SeekFrom::End(p) => collection_len.checked_add_signed(p),
            SeekFrom::Current(p) => self.pos.checked_add_signed(p),
        };

        match desired_position {
            Some(new_pos) => {
                if new_pos <= collection_len {
                    self.pos = new_pos;
                    Some(new_pos)
                } else {
                    None
                }
            },
            None => None,
        }
    }

    /// Forces the position back within the collection's bounds. This
    /// never fails: it sets the position to the smaller of the current
    /// position and the collection's length, repairing any drift caused
    /// through direct mutable access to the collection.
    pub fn clamp_to_collection_bounds(&mut self)
        ensures
            final(self).collection() == old(self).collection(),
            final(self).spec_position() == clamped(
                old(self).spec_position() as int,
                old(self).collection().contents().len() as int,
            ),
    {
        // `usize`, by its nature, cannot be below `0`. Thus, we only need to
        // know which is the smaller value: the collection length, or the head
        // position.
        let collection_len = self.inner.len();
        if self.pos > collection_len {
            self.pos = collection_len;
        }
    }

    /// Moves the cursor to position `0`.
    pub fn seek_to_start(&mut self)
        ensures
            final(self).collection() == old(self).collection(),
            final(self).spec_position() == 0,
    {
        self.pos = 0;
    }

    /// Moves the cursor one step back, returning whether the move
    /// succeeded.
    pub fn seek_backward_one(&mut self) -> (r: bool)
        ensures
            final(self).collection() == old(self).collection(),
            r <==> 1 <= old(self).spec_position() && old(self).spec_position() - 1 <= old(
                self,
            ).collection().contents().len(),
            r ==> final(self).spec_position() == old(self).spec_position() - 1,
            !r ==> final(self).spec_position() == old(self).spec_position(),
    {
        self.seek_relative(-1).is_some()
    }

    /// Moves the cursor by `offset` indices relative to the current
    /// position, exactly as `seek(SeekFrom::Current(offset))` would.
    pub fn seek_relative(&mut self, offset: isize) -> (r: Option<usize>)
        ensures
            final(self).collection() == old(self).collection(),
            ({
                let len = old(self).collection().contents().len() as int;
                let target = old(self).spec_position() + offset;
                if 0 <= target <= len {
                    r == Some(target as usize) && final(self).spec_position() == target
                } else {
                    r is None && final(self).spec_position() == old(self).spec_position()
                }
            }),
    {
        self.seek(SeekFrom::Current(offset))
    }

    /// Moves the cursor one step forward, returning whether the move
    /// succeeded.
    pub fn seek_forward_one(&mut self) -> (r: bool)
        ensures
            final(self).collection() == old(self).collection(),
            r <==> old(self).spec_position() + 1 <= old(self).collection().contents().len(),
            r ==> final(self).spec_position() == old(self).spec_position() + 1,
            !r ==> final(self).spec_position() == old(self).spec_position(),
    {
        self.seek_relative(1).is_some()
    }

    /// Moves the cursor to the index of the last item, or to `0` if the
    /// collection is empty.
    pub fn seek_to_last_item(&mut self)
        ensures
            final(self).collection() == old(self).collection(),
            final(self).spec_position() == if old(self).collection().contents().len() == 0 {
                0int
            } else {
                old(self).collection().contents().len() - 1
            },
    {
        let collection_len = self.inner.len();
        self.pos = if collection_len == 0 {
            0
        } else {
            collection_len - 1
        };
    }

    /// Moves the cursor to the collection's length: the addressable
    /// position just past the last item.
    pub fn seek_to_end(&mut self)
        ensures
            final(self).collection() == old(self).collection(),
            final(self).spec_position() == old(self).collection().contents().len(),
    {
        self.pos = self.inner.len();
    }

    /// Gets a reference to the item at the head, without moving the
    /// head.
    ///
    /// Returns `None` if the head is at or past the collection's
    /// length.
    pub fn get_item_at_head(&self) -> (r: Option<&Tape::Item>)
        ensures
            self.spec_position() < self.collection().contents().len() ==> r is Some && *r.unwrap()
                == self.collection().contents()[self.spec_position() as int],
            self.spec_position() >= self.collection().contents().len() ==> r is None,
    {
        self.inner.get_item(self.pos)
    }
}

impl<Tape: IndexableCollectionMut> CollectionCursor<Tape> {
    /// Clears the collection and resets the position to `0`, since
    /// clearing invalidates every prior index.
    pub fn clear(&mut self)
        ensures
            final(self).collection().contents() == Seq::<Tape::Item>::empty(),
            final(self).spec_position() == 0,
    {
        self.inner.clear();
        self.pos = 0;
    }

    /// Gets a mutable reference to the item at the head, without moving
    /// the head.
    ///
    /// Returns `None` if the head is at or past the collection's
    /// length.
    pub fn get_item_at_head_mut(&mut self) -> (r: Option<&mut Tape::Item>)
        ensures
            final(self).spec_position() == old(self).spec_position(),
            old(self).spec_position() < old(self).collection().contents().len() ==> r is Some
                && *r.unwrap() == old(self).collection().contents()[old(
                self,
            ).spec_position() as int] && final(self).collection().contents() == old(
                self,
            ).collection().contents().update(
                old(self).spec_position() as int,
                *final(r.unwrap()),
            ),
            old(self).spec_position() >= old(self).collection().contents().len() ==> r is None
                && final(self).collection().contents() == old(self).collection().contents(),
    {
        self.inner.get_item_mut(self.pos)
    }

    /// Sets an item at the head, with the adapter's own semantics
    /// (insert-like or overwrite-like); the head does not move.
    pub fn set_item_at_head(&mut self, item: Tape::Item)
        requires
            old(self).collection().set_allowed(old(self).spec_position() as int),
        ensures
            final(self).spec_position() == old(self).spec_position(),
            final(self).collection().contents() == old(self).collection().contents_after_set(
                old(self).spec_position() as int,
                item,
            ),
    {
        self.inner.set_item(self.pos, item);
    }

    /// Removes and returns the item at the head. Later items shift one
    /// index down, per the adapter's semantics; the position is not
    /// auto-adjusted.
    ///
    /// Returns `None` if no item exists at the head.
    pub fn remove_item_at_head(&mut self) -> (r: Option<Tape::Item>)
        ensures
            final(self).spec_position() == old(self).spec_position(),
            old(self).spec_position() < old(self).collection().contents().len() ==> r is Some
                && r.unwrap() == old(self).collection().contents()[old(
                self,
            ).spec_position() as int] && final(self).collection().contents() == old(
                self,
            ).collection().contents().remove(old(self).spec_position() as int),
            old(self).spec_position() >= old(self).collection().contents().len() ==> r is None
                && final(self).collection().contents() == old(self).collection().contents(),
    {
        self.inner.remove_item(self.pos)
    }
}

/// Seeking from the start to any index `p` within `[0, len]` is in
/// bounds and targets exactly `p`; any index beyond `len` is out of
/// bounds and so fails, leaving the position unchanged.
pub proof fn lemma_seek_start(p: usize, cur: int, len: int)
    requires
        0 <= len,
    ensures
        seek_in_bounds(SeekFrom::Start(p), cur, len) <==> p <= len,
        seek_target(SeekFrom::Start(p), cur, len) == p,
{
}

/// An end-relative seek is in bounds exactly for offsets in
/// `[-len, 0]`, and then targets `len + off`. In particular `End(0)`
/// always succeeds and targets `len`, `End(-k)` for `0 <= k <= len`
/// targets `len - k`, and both `End(1)` and `End(-(len + 1))` fail.
pub proof fn lemma_seek_end(off: isize, cur: int, len: int)
    requires
        0 <= len,
    ensures
        seek_in_bounds(SeekFrom::End(off), cur, len) <==> -len <= off <= 0,
        seek_target(SeekFrom::End(off), cur, len) == len + off,
{
}

/// From position `cur`, a current-relative seek by `off` is in bounds
/// exactly when `0 <= cur + off <= len`, and then targets `cur + off`;
/// otherwise it fails, leaving the position unchanged.
pub proof fn lemma_seek_current(off: isize, cur: int, len: int)
    requires
        0 <= len,
    ensures
        seek_in_bounds(SeekFrom::Current(off), cur, len) <==> 0 <= cur + off <= len,
        seek_target(SeekFrom::Current(off), cur, len) == cur + off,
{
}

/// `Current(0)` always succeeds from any valid position, and is a
/// no-op on the position.
pub proof fn lemma_seek_current_zero(cur: int, len: int)
    requires
        0 <= cur <= len,
    ensures
        seek_in_bounds(SeekFrom::Current(0), cur, len),
        seek_target(SeekFrom::Current(0), cur, len) == cur,
{
}

/// Clamping to bounds is idempotent: clamping twice in a row yields
/// the same position as clamping once.
pub proof fn lemma_clamp_idempotent(pos: int, len: int)
    requires
        0 <= len,
    ensures
        clamped(clamped(pos, len), len) == clamped(pos, len),
{
}

} // verus!
