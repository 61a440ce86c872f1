//! Playback state: the pause switch, the sample buffer the audio output
//! reads from, and the progress through the song.

use vstd::prelude::*;
use crate::atomic::{buffer, head_after_read, read_yields, BufferHolder, Flag};

verus! {

/// Something that can start and stop producing sound.
pub trait AudioController {
    fn play(&mut self);

    fn pause(&mut self);
}

/// A player that can be paused and resumed.
pub trait Player {
    /// Whether playback is paused.
    spec fn paused_spec(&self) -> bool;

    /// Whether `other` holds the same state as `self` apart from the paused
    /// switch.
    spec fn same_but_paused(&self, other: &Self) -> bool;

    /// Whether playback is paused.
    fn paused(&self) -> (r: bool)
        ensures
            r == self.paused_spec(),
    ;

    /// Pauses (`true`) or resumes (`false`) playback.
    fn set_paused(&mut self, val: bool)
        ensures
            final(self).paused_spec() == val,
            old(self).same_but_paused(final(self)),
    ;

    /// Resumes playback.
    fn resume(&mut self)
        ensures
            !final(self).paused_spec(),
            old(self).same_but_paused(final(self)),
    {
        self.set_paused(false);
    }

    /// Pauses playback.
    fn pause(&mut self)
        ensures
            final(self).paused_spec(),
            old(self).same_but_paused(final(self)),
    {
        self.set_paused(true);
    }

    /// Pauses when playing, resumes when paused.
    fn play_pause(&mut self)
        ensures
            final(self).paused_spec() == !old(self).paused_spec(),
            old(self).same_but_paused(final(self)),
    {
        let p = self.paused();
        self.set_paused(!p);
    }
}

/// How far the read head has gone through the samples of a song.
///
/// Progress is the fraction `head / len`; an empty buffer counts as played
/// through.
#[derive(Debug, Clone, Copy)]
pub struct PlaybackProgress {
    pub head: usize,
    pub len: usize,
}

/// Whether a buffer of `len` samples read up to `head` is further along than
/// `num / den`.
pub open spec fn progress_exceeds(head: nat, len: nat, num: nat, den: nat) -> bool {
    if len == 0 { num < den } else { head * den > num * len }
}

/// Whether a buffer of `len` samples read up to `head` is not yet as far
/// along as `num / den`.
pub open spec fn progress_short_of(head: nat, len: nat, num: nat, den: nat) -> bool {
    if len == 0 { den < num } else { head * den < num * len }
}

/// Two 64-bit quantities multiply within 128 bits.
proof fn lemma_product_fits(a: nat, b: nat)
    requires
        a <= 0xffff_ffff_ffff_ffff,
        b <= 0xffff_ffff_ffff_ffff,
    ensures
        a * b <= 0xffff_ffff_ffff_ffff_ffff_ffff_ffff_ffff,
{
    assert(a * b <= 0xffff_ffff_ffff_ffff * 0xffff_ffff_ffff_ffff) by (nonlinear_arith)
        requires
            a <= 0xffff_ffff_ffff_ffff,
            b <= 0xffff_ffff_ffff_ffff,
    ;
}

impl PlaybackProgress {
    /// Whether the progress is past `num / den`.
    pub fn above(&self, num: u64, den: u64) -> (r: bool)
        requires
            den > 0,
        ensures
            r == progress_exceeds(self.head as nat, self.len as nat, num as nat, den as nat),
    {
        if self.len == 0 {
            num < den
        } else {
            proof {
                lemma_product_fits(self.head as nat, den as nat);
                lemma_product_fits(num as nat, self.len as nat);
            }
            let lhs: u128 = (self.head as u128) * (den as u128);
            let rhs: u128 = (num as u128) * (self.len as u128);
            lhs > rhs
        }
    }

    /// Whether the progress is short of `num / den`.
    pub fn below(&self, num: u64, den: u64) -> (r: bool)
        requires
            den > 0,
        ensures
            r == progress_short_of(self.head as nat, self.len as nat, num as nat, den as nat),
    {
        if self.len == 0 {
            den < num
        } else {
            proof {
                lemma_product_fits(self.head as nat, den as nat);
                lemma_product_fits(num as nat, self.len as nat);
            }
            let lhs: u128 = (self.head as u128) * (den as u128);
            let rhs: u128 = (num as u128) * (self.len as u128);
            lhs < rhs
        }
    }

    /// Whether the whole song has been read.
    pub fn finished(&self) -> (r: bool)
        ensures
            r == (self.head >= self.len),
    {
        self.head >= self.len
    }
}

/// What the audio output plays: the pause switch and the song's samples.
pub struct PlaybackState<T> {
    pub paused: Flag,
    pub buffer: BufferHolder<T>,
}

impl<T> Player for PlaybackState<T> {
    open spec fn paused_spec(&self) -> bool {
        self.paused@
    }

    /// The samples and the read head are the same.
    open spec fn same_but_paused(&self, other: &Self) -> bool {
        other.buffer == self.buffer
    }

    fn paused(&self) -> (r: bool) {
        self.paused.get()
    }

    fn set_paused(&mut self, val: bool) {
        self.paused.set(val);
    }
}

/// Whether some range `(min, max)` of supported sample rates contains `rate`.
pub open spec fn rate_in_ranges(ranges: Seq<(u32, u32)>, rate: u32) -> bool {
    exists|i: int| 0 <= i < ranges.len() && #[trigger] ranges[i].0 <= rate && rate <= ranges[i].1
}

/// Whether an output device accepting the sample-rate ranges `ranges` can
/// play at `rate`.
pub fn sample_rate_supported(ranges: &Vec<(u32, u32)>, rate: u32) -> (r: bool)
    ensures
        r == rate_in_ranges(ranges@, rate),
{
    let mut i: usize = 0;
    while i < ranges.len()
        invariant
            i <= ranges@.len(),
            forall|j: int| 0 <= j < i ==> !(#[trigger] ranges@[j].0 <= rate && rate <= ranges@[j].1),
        decreases ranges@.len() - i,
    {
        let (lo, hi) = ranges[i];
        if lo <= rate && rate <= hi {
            return true;
        }
        i += 1;
    }
    false
}

impl<T: Clone + Default> PlaybackState<T> {
    /// A running player with nothing to play.
    pub fn new() -> (r: Self)
        ensures
            !r.paused@,
            r.buffer.samples() == Seq::<T>::empty(),
            r.buffer.head() == 0,
    {
        PlaybackState { paused: Flag::new(false), buffer: buffer() }
    }

    /// The progress of the read head through the song.
    pub fn progress(&self) -> (r: PlaybackProgress)
        ensures
            r.head == self.buffer.head(),
            r.len == self.buffer.samples().len(),
    {
        PlaybackProgress { head: self.buffer.pos(), len: self.buffer.len() }
    }

    /// Whether the song has been played through (or there is none).
    pub fn is_empty(&self) -> (r: bool)
        ensures
            r == (self.buffer.head() >= self.buffer.samples().len()),
    {
        self.buffer.pos() >= self.buffer.len()
    }

    /// Starts a new song: its samples replace the old ones and the head goes
    /// back to the start.
    pub fn load(&mut self, data: Vec<T>)
        ensures
            final(self).buffer.samples() == data@,
            final(self).buffer.head() == 0,
            final(self).paused@ == old(self).paused@,
    {
        self.buffer.seek(0);
        self.buffer.set(data);
    }

    /// Drops the song: no samples, head at the start.
    pub fn clear(&mut self)
        ensures
            final(self).buffer.samples() == Seq::<T>::empty(),
            final(self).buffer.head() == 0,
            final(self).paused@ == old(self).paused@,
    {
        self.buffer.seek(0);
        self.buffer.set(Vec::new());
    }

    /// Moves the head back to the start of the song.
    pub fn restart(&mut self)
        ensures
            final(self).buffer.samples() == old(self).buffer.samples(),
            final(self).buffer.head() == 0,
            final(self).paused@ == old(self).paused@,
    {
        self.buffer.seek(0);
    }

    /// What the audio output gets when it asks for `n` samples: nothing while
    /// paused (the output keeps what it has), otherwise the next `n` samples
    /// of the buffer.
    pub fn fill(&mut self, n: usize) -> (r: Option<Vec<T>>)
        ensures
            old(self).paused@ ==> r is None && *final(self) == *old(self),
            !old(self).paused@ ==> {
                &&& r matches Some(out) && out@.len() == n
                    && read_yields(old(self).buffer, n as nat, out@)
                &&& final(self).paused@ == old(self).paused@
                &&& final(self).buffer.samples() == old(self).buffer.samples()
                &&& final(self).buffer.head() == head_after_read(
                    old(self).buffer.head(),
                    n as nat,
                    old(self).buffer.samples().len(),
                )
            },
    {
        if self.paused.get() {
            return None;
        }
        Some(self.buffer.read(n))
    }
}

} // verus!
