//! Shared-state cells of the player: flags, indices, the play queue and the
//! playback buffer. Each cell holds its value directly; sharing it between
//! threads is left to the caller.

use vstd::prelude::*;

verus! {

/// A boolean switch, such as "paused" or "working". A flag is an owned
/// cell: it is not copied, and whoever holds it (or a `&mut` to it) is the
/// only one who sets it.
#[derive(Debug, Default)]
pub struct Flag {
    value: bool,
}

impl View for Flag {
    type V = bool;

    open spec fn view(&self) -> bool {
        self.spec_value()
    }
}

impl Flag {
    /// The value the flag currently holds.
    pub closed spec fn spec_value(&self) -> bool {
        self.value
    }

    /// A flag holding `val`.
    pub fn new(val: bool) -> (r: Self)
        ensures
            r@ == val,
    {
        Flag { value: val }
    }

    /// The current value.
    pub fn get(&self) -> (r: bool)
        ensures
            r == self@,
    {
        self.value
    }

    /// Stores `val`.
    pub fn set(&mut self, val: bool)
        ensures
            final(self)@ == val,
    {
        self.value = val;
    }

    /// Flips the flag and returns the new value.
    pub fn toggle(&mut self) -> (r: bool)
        ensures
            r == !old(self)@,
            final(self)@ == r,
    {
        let prev = self.get();
        self.set(!prev);
        !prev
    }
}

/// A position counter, such as the read head of a buffer or the current
/// entry of a queue. A counter is an owned cell: it is not copied, and
/// whoever holds it (or a `&mut` to it) is the only one who sets it.
#[derive(Debug, Default)]
pub struct Index {
    value: usize,
}

impl View for Index {
    type V = nat;

    open spec fn view(&self) -> nat {
        self.spec_value() as nat
    }
}

impl Index {
    /// The value the counter currently holds.
    pub closed spec fn spec_value(&self) -> usize {
        self.value
    }

    /// A counter holding `val`.
    pub fn new(val: usize) -> (r: Self)
        ensures
            r@ == val,
    {
        Index { value: val }
    }

    /// The current value.
    pub fn get(&self) -> (r: usize)
        ensures
            r == self@,
    {
        self.value
    }

    /// Stores `val`.
    pub fn set(&mut self, val: usize)
        ensures
            final(self)@ == val,
    {
        self.value = val;
    }

    /// Adds `val` and returns the new value.
    pub fn inc(&mut self, val: usize) -> (r: usize)
        requires
            old(self)@ + val <= usize::MAX,
        ensures
            r == old(self)@ + val,
            final(self)@ == r,
    {
        let mut prev: usize = self.get();
        prev += val;
        self.set(prev);
        prev
    }

    /// Subtracts `val` and returns the new value.
    pub fn dec(&mut self, val: usize) -> (r: usize)
        requires
            val <= old(self)@,
        ensures
            r == old(self)@ - val,
            final(self)@ == r,
    {
        let mut prev: usize = self.get();
        prev -= val;
        self.set(prev);
        prev
    }
}


/// A shared value that readers copy out and writers replace whole.
pub struct Sync<T> {
    value: T,
}

impl<T> View for Sync<T> {
    type V = T;

    open spec fn view(&self) -> T {
        self.spec_value()
    }
}

impl<T> Sync<T> {
    /// The value currently held.
    pub closed spec fn spec_value(&self) -> T {
        self.value
    }
}

impl<T: Clone> Sync<T> {
    /// A cell holding `x`.
    pub fn new(x: T) -> (r: Self)
        ensures
            r@ == x,
    {
        Sync { value: x }
    }

    /// A copy of the value currently held.
    pub fn get(&self) -> (r: T)
        ensures
            cloned(self@, r),
    {
        self.value.clone()
    }

    /// The value held, without copying it.
    pub fn borrow(&self) -> (r: &T)
        ensures
            *r == self@,
    {
        &self.value
    }

    /// Replaces the value.
    pub fn set(&mut self, val: T)
        ensures
            final(self)@ == val,
    {
        self.value = val;
    }

    /// Applies `fun` to the value held and returns what it gives.
    pub fn inspect<X, F: FnOnce(&T) -> X>(&self, fun: F) -> (r: X)
        requires
            call_requires(fun, (&self@,)),
        ensures
            call_ensures(fun, (&self@,), r),
    {
        fun(&self.value)
    }
}

/// A playback buffer: the samples of the song being played and the read
/// head that the audio output advances.
pub struct BufferHolder<T> {
    idx: Index,
    data: Vec<T>,
}

/// The writing side of a playback buffer; it is the same buffer as the
/// reading side.
pub type BufferHandle<T> = BufferHolder<T>;

/// Whether a read of `n` samples from head `i` of a buffer holding `l`
/// samples runs past the last one (the last sample itself is never handed
/// out).
pub open spec fn read_overruns(i: nat, n: nat, l: nat) -> bool {
    i >= l || n >= l || i + n >= l
}

/// Every element of `s` is a copy of `d`.
pub open spec fn all_clones_of<T: Clone>(d: T, s: Seq<T>) -> bool {
    forall|k: int| 0 <= k < s.len() ==> cloned(d, #[trigger] s[k])
}

/// Whether `d` is a value that `T::default()` can give.
pub open spec fn is_default_value<T: Default>(d: T) -> bool {
    call_ensures(T::default, (), d)
}

/// An empty playback buffer with its head at the start.
pub fn buffer<T>() -> (r: BufferHolder<T>)
    ensures
        r.samples() == Seq::<T>::empty(),
        r.head() == 0,
{
    BufferHolder { idx: Index::new(0), data: Vec::new() }
}

impl<T> BufferHolder<T> {
    /// The samples held.
    pub closed spec fn samples(&self) -> Seq<T> {
        self.data@
    }

    /// The read head.
    pub closed spec fn head(&self) -> nat {
        self.idx@
    }
}

/// Where the head stands after a read of `n` samples from head `i` of a
/// buffer holding `l` samples: at the end after an overrun, `n` further on
/// otherwise.
pub open spec fn head_after_read(i: nat, n: nat, l: nat) -> nat {
    if read_overruns(i, n, l) { l } else { i + n }
}

/// What a read of `n` samples from `buf` hands out: after an overrun, copies
/// of one value that `T::default()` gives; otherwise copies of the `n`
/// samples from the head on.
pub open spec fn read_yields<T: Clone + Default>(buf: BufferHolder<T>, n: nat, out: Seq<T>) -> bool {
    if read_overruns(buf.head(), n, buf.samples().len()) {
        exists|d: T| is_default_value(d) && #[trigger] all_clones_of(d, out)
    } else {
        forall|k: int| 0 <= k < n ==> cloned(#[trigger] buf.samples()[buf.head() + k], out[k])
    }
}

/// A read overruns exactly when it would reach the last sample or go past
/// it. A read that ends before the last sample hands out the `n` samples
/// from the head on and moves the head `n` further; any other read moves
/// the head to the end.
pub proof fn lemma_read_inside_song<T: Clone + Default>(buf: BufferHolder<T>, n: nat, out: Seq<T>)
    ensures
        read_overruns(buf.head(), n, buf.samples().len()) <==> buf.head() + n >= buf.samples().len(),
        buf.head() + n < buf.samples().len() ==> head_after_read(buf.head(), n, buf.samples().len())
            == buf.head() + n,
        buf.head() + n >= buf.samples().len() ==> head_after_read(buf.head(), n, buf.samples().len())
            == buf.samples().len(),
        buf.head() + n < buf.samples().len() && read_yields(buf, n, out) ==> forall|k: int|
            0 <= k < n ==> cloned(#[trigger] buf.samples()[buf.head() + k], out[k]),
{
}

impl<T: Clone + Default> BufferHolder<T> {
    /// Reads the next `n` samples and moves the head past them. A read that
    /// would run past the end yields `n` default samples instead and moves
    /// the head to the end.
    pub fn read(&mut self, n: usize) -> (r: Vec<T>)
        ensures
            r@.len() == n,
            final(self).samples() == old(self).samples(),
            final(self).head() == head_after_read(old(self).head(), n as nat, old(self).samples().len()),
            read_yields(*old(self), n as nat, r@),
    {
        let i: usize = self.idx.get();
        let l: usize = self.data.len();
        if i >= l || n >= l || n >= l - i {
            self.idx.set(l);
            let make_default = T::default;
            let d = make_default();
            let r = vec![d; n];
            assert(is_default_value(d) && all_clones_of(d, r@));
            return r;
        }
        self.idx.set(i + n);
        let mut out: Vec<T> = Vec::new();
        let mut k: usize = 0;
        while k < n
            invariant
                k <= n,
                i + n < l,
                l == self.data@.len(),
                out@.len() == k,
                forall|j: int| 0 <= j < k ==> cloned(#[trigger] self.data@[i + j], out@[j]),
            decreases n - k,
        {
            out.push(self.data[i + k].clone());
            k += 1;
        }
        out
    }

    /// The read head.
    pub fn pos(&self) -> (r: usize)
        ensures
            r == self.head(),
    {
        self.idx.get()
    }

    /// The number of samples held.
    pub fn len(&self) -> (r: usize)
        ensures
            r == self.samples().len(),
    {
        self.data.len()
    }

    /// Moves the read head to `pos`.
    pub fn seek(&mut self, pos: usize)
        ensures
            final(self).head() == pos,
            final(self).samples() == old(self).samples(),
    {
        self.idx.set(pos);
    }

    /// Replaces the samples; the head stays where it is.
    pub fn set(&mut self, data: Vec<T>)
        ensures
            final(self).samples() == data@,
            final(self).head() == old(self).head(),
    {
        self.data = data;
    }
}

/// The position a value lands on when it is inserted at `pos` into a queue of
/// `len` entries: positions past the end append.
pub open spec fn insertion_point(len: nat, pos: nat) -> nat {
    if pos <= len { pos } else { len }
}

/// The entry at `index`, if `index` is inside the queue.
pub open spec fn entry_at<T>(items: Seq<T>, index: nat) -> Option<T> {
    if index < items.len() { Some(items[index as int]) } else { None }
}

/// The entries after inserting `val` at `pos`.
pub open spec fn inserted<T>(items: Seq<T>, pos: nat, val: T) -> Seq<T> {
    items.insert(insertion_point(items.len(), pos) as int, val)
}

/// The current position after inserting at `pos`: an insertion at or before
/// the current position pushes it one step further.
pub open spec fn position_after_insert(index: nat, pos: nat) -> nat {
    if pos <= index { index + 1 } else { index }
}

/// The entries after removing the one at `pos`; out of range leaves them.
pub open spec fn removed<T>(items: Seq<T>, pos: nat) -> Seq<T> {
    if pos < items.len() { items.remove(pos as int) } else { items }
}

/// The current position after removing the entry at `pos`: removing an
/// entry before the current one pulls the position back by one.
pub open spec fn position_after_remove(len: nat, index: nat, pos: nat) -> nat {
    if pos < len && pos < index { (index - 1) as nat } else { index }
}

/// An ordered play queue with a cursor on the entry being played.
///
/// The cursor may stand past the end of the queue, which means that nothing
/// is being played.
pub struct Queue<T> {
    items: Vec<T>,
    position: Index,
}

impl<T> Queue<T> {
    /// The entries of the queue, in order.
    pub closed spec fn items(&self) -> Seq<T> {
        self.items@
    }

    /// The position of the cursor.
    pub closed spec fn position(&self) -> nat {
        self.position@
    }

    /// The entry under the cursor, if any.
    pub open spec fn current_spec(&self) -> Option<T> {
        entry_at(self.items(), self.position())
    }
}

impl<T: Clone> Queue<T> {
    /// A queue over `queue` with the cursor on its first entry.
    pub fn new(queue: Vec<T>) -> (r: Self)
        ensures
            r.items() == queue@,
            r.position() == 0,
    {
        Queue { items: queue, position: Index::new(0) }
    }

    /// A copy of the entry under the cursor, if any.
    pub fn current(&self) -> (r: Option<T>)
        ensures
            r is Some <==> self.current_spec() is Some,
            r matches Some(v) ==> cloned(self.current_spec()->0, v),
    {
        self.get(self.position.get())
    }

    /// The position of the cursor.
    pub fn index(&self) -> (r: usize)
        ensures
            r == self.position(),
    {
        self.position.get()
    }

    /// Moves the cursor to `pos`.
    pub fn set_index(&mut self, pos: usize)
        ensures
            final(self).position() == pos,
            final(self).items() == old(self).items(),
    {
        self.position.set(pos);
    }

    /// The number of entries.
    pub fn len(&self) -> (r: usize)
        ensures
            r == self.items().len(),
    {
        self.items.len()
    }

    /// Moves the cursor one entry forward.
    pub fn advance(&mut self)
        requires
            old(self).position() < usize::MAX,
        ensures
            final(self).position() == old(self).position() + 1,
            final(self).items() == old(self).items(),
    {
        self.position.inc(1);
    }

    /// Replaces all entries and moves the cursor back to the first one.
    pub fn set(&mut self, queue: Vec<T>)
        ensures
            final(self).items() == queue@,
            final(self).position() == 0,
    {
        self.items = queue;
        self.position.set(0);
    }

    /// Removes the entry at `pos`; a position past the end changes nothing.
    pub fn dequeue(&mut self, pos: usize)
        ensures
            final(self).items() == removed(old(self).items(), pos as nat),
            final(self).position() == position_after_remove(
                old(self).items().len(),
                old(self).position(),
                pos as nat,
            ),
    {
        if pos >= self.len() {
            return;
        }
        self.items.remove(pos);
        if pos < self.position.get() {
            self.position.dec(1);
        }
    }

    /// Inserts `val` at `pos`, or at the end when `pos` is past it.
    pub fn enqueue_at(&mut self, pos: usize, val: T)
        requires
            pos <= old(self).position() ==> old(self).position() < usize::MAX,
        ensures
            final(self).items() == inserted(old(self).items(), pos as nat, val),
            final(self).position() == position_after_insert(old(self).position(), pos as nat),
    {
        let idx: usize = self.position.get();
        let at: usize = if pos <= self.items.len() { pos } else { self.items.len() };
        self.items.insert(at, val);
        if pos <= idx {
            self.position.set(idx + 1);
        }
    }

    /// Inserts `val` right after the cursor.
    pub fn enqueue_next(&mut self, val: T)
        requires
            old(self).position() < usize::MAX,
        ensures
            final(self).items() == inserted(
                old(self).items(),
                old(self).position() + 1,
                val,
            ),
            final(self).position() == old(self).position(),
    {
        let next: usize = self.index() + 1;
        self.enqueue_at(next, val);
    }

    /// Appends `val` at the end of the queue.
    pub fn enqueue(&mut self, val: T)
        requires
            old(self).items().len() <= old(self).position() ==> old(self).position() < usize::MAX,
        ensures
            final(self).items() == old(self).items().push(val),
            final(self).position() == position_after_insert(
                old(self).position(),
                old(self).items().len(),
            ),
    {
        let end: usize = self.len();
        self.enqueue_at(end, val);
        proof {
            assert(inserted(old(self).items(), end as nat, val) =~= old(self).items().push(val));
        }
    }

    /// A copy of the entry at `pos`, if there is one.
    pub fn get(&self, pos: usize) -> (r: Option<T>)
        ensures
            r is Some <==> pos < self.items().len(),
            r matches Some(v) ==> cloned(self.items()[pos as int], v),
    {
        if pos < self.items.len() {
            Some(self.items[pos].clone())
        } else {
            None
        }
    }

    /// A copy of all entries.
    pub fn view(&self) -> (r: Vec<T>)
        ensures
            r@.len() == self.items().len(),
            forall|i: int| 0 <= i < r@.len() ==> cloned(#[trigger] self.items()[i], r@[i]),
    {
        self.items.clone()
    }
}


/// Inserting into the queue never changes the entry being played, unless the
/// cursor stands exactly at the end of the queue and the insertion lands
/// after it.
pub proof fn lemma_insert_keeps_current<T>(items: Seq<T>, index: nat, pos: nat, val: T)
    requires
        !(index == items.len() && pos > index),
    ensures
        entry_at(inserted(items, pos, val), position_after_insert(index, pos)) == entry_at(
            items,
            index,
        ),
{
}

/// When the cursor stands exactly at the end of the queue, an insertion after
/// it makes the inserted value the entry being played.
pub proof fn lemma_insert_after_end_becomes_current<T>(items: Seq<T>, index: nat, pos: nat, val: T)
    requires
        index == items.len(),
        pos > index,
    ensures
        entry_at(inserted(items, pos, val), position_after_insert(index, pos)) == Some(val),
{
}

/// Removing any entry but the one being played leaves the entry being
/// played unchanged.
pub proof fn lemma_remove_keeps_current<T>(items: Seq<T>, index: nat, pos: nat)
    requires
        pos != index,
    ensures
        entry_at(removed(items, pos), position_after_remove(items.len(), index, pos)) == entry_at(
            items,
            index,
        ),
{
}

/// Removing the entry being played makes the entry that followed it the one
/// being played.
pub proof fn lemma_remove_current_plays_following<T>(items: Seq<T>, index: nat)
    requires
        index < items.len(),
    ensures
        entry_at(removed(items, index), position_after_remove(items.len(), index, index))
            == entry_at(items, index + 1),
{
}

/// Removing the value just inserted gives back the queue as it was, entries
/// and cursor, unless the insertion landed at the end of a queue whose
/// cursor stood further than one step past that end.
pub proof fn lemma_remove_undoes_insert<T>(items: Seq<T>, index: nat, pos: nat, val: T)
    requires
        !(pos > index && items.len() < index),
    ensures
        removed(inserted(items, pos, val), insertion_point(items.len(), pos)) == items,
        position_after_remove(
            items.len() + 1,
            position_after_insert(index, pos),
            insertion_point(items.len(), pos),
        ) == index,
{
    assert(removed(inserted(items, pos, val), insertion_point(items.len(), pos)) =~= items);
}

/// An insertion right after the cursor puts the value in the slot that is
/// played next.
pub proof fn lemma_insert_next_is_played_next<T>(items: Seq<T>, index: nat, val: T)
    requires
        index < items.len(),
    ensures
        entry_at(inserted(items, index + 1, val), position_after_insert(index, index + 1) + 1)
            == Some(val),
{
}

} // verus!
