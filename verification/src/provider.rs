//! The music provider: the play queue and the song lists fetched from the
//! server, and what happens to them when the user moves through the queue.

use vstd::prelude::*;
use rand::seq::SliceRandom;
use crate::atomic::{
    entry_at, inserted, position_after_insert, position_after_remove, removed, Flag, Queue, Sync,
};
use crate::model::{copy_songs, lemma_song_clone_exact, Album, Artist, Id, Song};
use crate::player::{progress_exceeds, progress_short_of, PlaybackProgress};
use crate::worker::Op;

verus! {

/// Work that the provider hands to its surroundings.
#[derive(Debug, PartialEq)]
pub enum Command {
    /// Send a request to the background worker.
    Send(Op),
    /// Play the song with this id if its samples are loaded; otherwise
    /// silence the player.
    PlayCached(Id),
    /// Show a desktop notification for this song.
    Notify(Song),
    /// Silence the player.
    ClearPlayer,
    /// Move the player back to the start of its song.
    RestartPlayer,
    /// Pause the player when it plays, resume it when paused.
    TogglePause,
    /// Move the player by this many hundredths of the song (backwards when
    /// negative).
    Skip(i64),
}

/// What playing the song `id` takes: telling the media controls, then playing
/// it from the sample cache.
pub open spec fn play_commands(id: Id) -> Seq<Command> {
    seq![Command::Send(Op::UpdateMPRIS), Command::PlayCached(id)]
}

/// What moving to song `s` takes: playing it and announcing it.
pub open spec fn announce_commands(s: Song) -> Seq<Command> {
    play_commands(s.id) + seq![Command::Notify(s)]
}

/// What starting on the entry under the cursor takes: playing it, or nothing
/// when the cursor is past the end.
pub open spec fn start_commands(current: Option<Song>) -> Seq<Command> {
    match current {
        Some(s) => play_commands(s.id),
        None => Seq::empty(),
    }
}

/// Shuffles `v` in place with `rand`'s `SliceRandom::shuffle` and the
/// thread-local generator. The shuffle only swaps elements, so the result
/// holds the same songs; which order comes out depends on chance and is not
/// stated.
#[verifier::external_body]
fn shuffle_songs(v: &mut Vec<Song>)
    ensures
        final(v)@.to_multiset() == old(v)@.to_multiset(),
{
    v.shuffle(&mut rand::rng());
}

/// The cursor position after moving to the next song.
pub open spec fn position_after_next(index: nat) -> nat {
    index + 1
}

/// The cursor position after going back: one step back when the song has
/// barely started and there is a song before it, otherwise unchanged.
pub open spec fn position_after_previous(index: nat, barely_started: bool) -> nat {
    if barely_started && index > 0 { (index - 1) as nat } else { index }
}

/// Whether `p` has played less than a hundredth of its song.
pub open spec fn barely_started(p: PlaybackProgress) -> bool {
    progress_short_of(p.head as nat, p.len as nat, 1, 100)
}

/// Whether `p` has played more than three quarters of its song.
pub open spec fn mostly_played(p: PlaybackProgress) -> bool {
    progress_exceeds(p.head as nat, p.len as nat, 3, 4)
}

/// The two providers hold the same lists and the same working flag.
pub open spec fn same_lists(a: Provider, b: Provider) -> bool {
    &&& a.working == b.working
    &&& a.likes == b.likes
    &&& a.search == b.search
    &&& a.artists == b.artists
    &&& a.albums == b.albums
    &&& a.songs == b.songs
}

/// `new` is `old` with `song` queued right after the song being played.
pub open spec fn enqueue_next_post(old: Provider, new: Provider, song: Song) -> bool {
    &&& new.queue.items() == inserted(old.queue.items(), old.queue.position() + 1, song)
    &&& new.queue.position() == old.queue.position()
    &&& same_lists(old, new)
}

/// `new` is `old` with `song` queued at the end.
pub open spec fn enqueue_post(old: Provider, new: Provider, song: Song) -> bool {
    &&& new.queue.items() == old.queue.items().push(song)
    &&& new.queue.position() == position_after_insert(
        old.queue.position(),
        old.queue.items().len(),
    )
    &&& same_lists(old, new)
}

/// `new` is `old` without the queue entry at `idx`.
pub open spec fn dequeue_post(old: Provider, new: Provider, idx: nat) -> bool {
    &&& new.queue.items() == removed(old.queue.items(), idx)
    &&& new.queue.position() == position_after_remove(
        old.queue.items().len(),
        old.queue.position(),
        idx,
    )
    &&& same_lists(old, new)
}

/// `new` queues the liked songs of `old` in some order, from the first, and
/// `r` plays the first of them.
pub open spec fn shuffle_liked_post(old: Provider, new: Provider, r: Seq<Command>) -> bool {
    &&& new.queue.items().to_multiset() == old.likes@@.to_multiset()
    &&& new.queue.position() == 0
    &&& r == start_commands(new.queue.current_spec())
    &&& same_lists(old, new)
}

/// `new` has moved to the next song of `old`, and `r` scrobbles a mostly
/// played song, then plays and announces the next one or silences the
/// player past the end.
pub open spec fn go_next_post(
    old: Provider,
    new: Provider,
    progress: PlaybackProgress,
    r: Seq<Command>,
) -> bool {
    &&& new.queue.items() == old.queue.items()
    &&& new.queue.position() == position_after_next(old.queue.position())
    &&& r == (if mostly_played(progress) && old.queue.current_spec() is Some {
        seq![Command::Send(Op::Scrobble(old.queue.current_spec()->0.id))]
    } else {
        Seq::<Command>::empty()
    }) + match new.queue.current_spec() {
        Some(s) => announce_commands(s),
        None => seq![Command::ClearPlayer],
    }
    &&& same_lists(old, new)
}

/// `new` has gone back one song from `old` when the song barely started
/// (playing and announcing it), or `r` restarts the song otherwise.
pub open spec fn go_previous_post(
    old: Provider,
    new: Provider,
    progress: PlaybackProgress,
    r: Seq<Command>,
) -> bool {
    &&& new.queue.items() == old.queue.items()
    &&& new.queue.position() == position_after_previous(
        old.queue.position(),
        barely_started(progress),
    )
    &&& r == (if !barely_started(progress) {
        seq![Command::RestartPlayer]
    } else if old.queue.position() > 0 {
        match new.queue.current_spec() {
            Some(s) => announce_commands(s),
            None => Seq::<Command>::empty(),
        }
    } else {
        Seq::<Command>::empty()
    })
    &&& same_lists(old, new)
}

/// `new` queues `data` from its first song, and `r` plays that song or
/// silences the player when `data` is empty.
pub open spec fn reset_post(old: Provider, new: Provider, data: Seq<Song>, r: Seq<Command>) -> bool {
    &&& new.queue.items() == data
    &&& new.queue.position() == 0
    &&& r == (if data.len() > 0 {
        play_commands(data[0].id)
    } else {
        seq![Command::ClearPlayer]
    })
    &&& same_lists(old, new)
}

/// The provider's state: the play queue, the lists fetched from the server,
/// and whether a download is in progress.
pub struct Provider {
    pub working: Flag,
    pub queue: Queue<Song>,
    pub likes: Sync<Vec<Song>>,
    pub search: Sync<Vec<Song>>,
    pub artists: Sync<Vec<Artist>>,
    pub albums: Sync<Vec<Album>>,
    pub songs: Sync<Vec<Song>>,
}

impl Provider {
    /// A provider with an empty queue, empty lists and no work in progress.
    pub fn new() -> (r: Self)
        ensures
            !r.working@,
            r.queue.items() == Seq::<Song>::empty(),
            r.queue.position() == 0,
            r.likes@@ == Seq::<Song>::empty(),
            r.search@@ == Seq::<Song>::empty(),
            r.artists@@ == Seq::<Artist>::empty(),
            r.albums@@ == Seq::<Album>::empty(),
            r.songs@@ == Seq::<Song>::empty(),
    {
        Provider {
            working: Flag::new(false),
            queue: Queue::new(Vec::new()),
            likes: Sync::new(Vec::new()),
            search: Sync::new(Vec::new()),
            artists: Sync::new(Vec::new()),
            albums: Sync::new(Vec::new()),
            songs: Sync::new(Vec::new()),
        }
    }

    /// Plays the song `song`.
    pub fn play(&self, song: Id) -> (r: Vec<Command>)
        ensures
            r@ == play_commands(song),
    {
        let mut r: Vec<Command> = Vec::new();
        r.push(Command::Send(Op::UpdateMPRIS));
        r.push(Command::PlayCached(song));
        r
    }

    /// The song under the cursor, if any.
    pub fn current(&self) -> (r: Option<Song>)
        ensures
            r == self.queue.current_spec(),
    {
        broadcast use lemma_song_clone_exact;
        self.queue.current()
    }

    /// The song at `idx` in the queue, if any.
    pub fn get_at(&self, idx: usize) -> (r: Option<Song>)
        ensures
            r == entry_at(self.queue.items(), idx as nat),
    {
        broadcast use lemma_song_clone_exact;
        self.queue.get(idx)
    }

    /// All songs of the queue.
    pub fn view(&self) -> (r: Vec<Song>)
        ensures
            r@ == self.queue.items(),
    {
        broadcast use lemma_song_clone_exact;
        let r = self.queue.view();
        assert(r@ =~= self.queue.items());
        r
    }

    /// The position of the cursor in the queue.
    pub fn index(&self) -> (r: usize)
        ensures
            r == self.queue.position(),
    {
        self.queue.index()
    }

    /// The liked songs.
    pub fn likes(&self) -> (r: Vec<Song>)
        ensures
            r@ == self.likes@@,
    {
        copy_songs(self.likes.borrow())
    }

    /// Removes the song at `idx` from the queue.
    pub fn dequeue(&mut self, idx: usize)
        ensures
            dequeue_post(*old(self), *final(self), idx as nat),
    {
        self.queue.dequeue(idx);
    }

    /// Puts `song` right after the song being played.
    pub fn enqueue_next(&mut self, song: Song)
        requires
            old(self).queue.position() < usize::MAX,
        ensures
            enqueue_next_post(*old(self), *final(self), song),
    {
        self.queue.enqueue_next(song);
    }

    /// Puts `song` at the end of the queue.
    pub fn enqueue(&mut self, song: Song)
        requires
            old(self).queue.items().len() <= old(self).queue.position() ==> old(
                self,
            ).queue.position() < usize::MAX,
        ensures
            enqueue_post(*old(self), *final(self), song),
    {
        self.queue.enqueue(song);
    }

    /// Replaces the queue with the liked songs in random order and plays the
    /// first of them.
    pub fn shuffle_liked(&mut self) -> (r: Vec<Command>)
        ensures
            shuffle_liked_post(*old(self), *final(self), r@),
    {
        let mut queue = copy_songs(self.likes.borrow());
        shuffle_songs(&mut queue);
        self.queue.set(queue);
        match self.current() {
            Some(s) => self.play(s.id),
            None => Vec::new(),
        }
    }

    /// Moves to the next song of the queue. A song played past three
    /// quarters is scrobbled first. The next song is played and announced;
    /// past the end of the queue the player is silenced.
    pub fn go_next(&mut self, progress: &PlaybackProgress) -> (r: Vec<Command>)
        requires
            old(self).queue.position() < usize::MAX,
        ensures
            go_next_post(*old(self), *final(self), *progress, r@),
    {
        let mut r: Vec<Command> = Vec::new();
        if progress.above(3, 4) {
            if let Some(s) = self.current() {
                r.push(Command::Send(Op::Scrobble(s.id)));
            }
        }
        let ghost prefix = r@;
        assert(prefix =~= (if mostly_played(*progress) && old(self).queue.current_spec() is Some {
            seq![Command::Send(Op::Scrobble(old(self).queue.current_spec()->0.id))]
        } else {
            Seq::<Command>::empty()
        }));
        self.queue.advance();
        match self.current() {
            Some(s) => {
                let id = s.id.clone();
                let mut p = self.play(id);
                r.append(&mut p);
                r.push(Command::Notify(s));
                assert(r@ =~= prefix + announce_commands(s));
            },
            None => {
                r.push(Command::ClearPlayer);
                assert(r@ =~= prefix + seq![Command::ClearPlayer]);
            },
        }
        r
    }

    /// Goes back one song when the current one has barely started (less
    /// than a hundredth played), playing and announcing it; otherwise starts
    /// the current song over. At the head of the queue nothing happens.
    pub fn go_previous(&mut self, progress: &PlaybackProgress) -> (r: Vec<Command>)
        ensures
            go_previous_post(*old(self), *final(self), *progress, r@),
    {
        let mut r: Vec<Command> = Vec::new();
        if progress.below(1, 100) {
            if self.queue.index() > 0 {
                let back: usize = self.queue.index() - 1;
                self.queue.set_index(back);
                if let Some(s) = self.current() {
                    let id = s.id.clone();
                    r = self.play(id);
                    r.push(Command::Notify(s));
                    assert(r@ =~= announce_commands(s));
                }
            }
        } else {
            r.push(Command::RestartPlayer);
            assert(r@ =~= seq![Command::RestartPlayer]);
        }
        r
    }

    /// Replaces the queue with `data` and plays its first song, or silences
    /// the player when `data` is empty.
    pub fn reset(&mut self, data: Vec<Song>) -> (r: Vec<Command>)
        ensures
            reset_post(*old(self), *final(self), data@, r@),
    {
        let copy = copy_songs(&data);
        self.queue.set(copy);
        if data.len() > 0 {
            let id = data[0].id.clone();
            self.play(id)
        } else {
            let mut r: Vec<Command> = Vec::new();
            r.push(Command::ClearPlayer);
            r
        }
    }

    /// Asks the worker to fetch the liked songs again.
    pub fn refresh_likes(&self) -> (r: Vec<Command>)
        ensures
            r@ == seq![Command::Send(Op::RefreshLikes)],
    {
        let mut r: Vec<Command> = Vec::new();
        r.push(Command::Send(Op::RefreshLikes));
        r
    }

    /// Asks the worker to fetch artists, albums and songs again.
    pub fn refresh_library(&self) -> (r: Vec<Command>)
        ensures
            r@ == seq![
                Command::Send(Op::RefreshArtists),
                Command::Send(Op::RefreshAlbums),
                Command::Send(Op::RefreshSongs),
            ],
    {
        let mut r: Vec<Command> = Vec::new();
        r.push(Command::Send(Op::RefreshArtists));
        r.push(Command::Send(Op::RefreshAlbums));
        r.push(Command::Send(Op::RefreshSongs));
        r
    }

    /// Asks the worker to search the server for `query`.
    pub fn search(&self, query: String) -> (r: Vec<Command>)
        ensures
            r@ == seq![Command::Send(Op::Search(query))],
    {
        let mut r: Vec<Command> = Vec::new();
        r.push(Command::Send(Op::Search(query)));
        r
    }

    /// Asks the worker to report a play of song `id` to the server.
    pub fn scrobble(&self, id: Id) -> (r: Vec<Command>)
        ensures
            r@ == seq![Command::Send(Op::Scrobble(id))],
    {
        let mut r: Vec<Command> = Vec::new();
        r.push(Command::Send(Op::Scrobble(id)));
        r
    }

    /// The songs found by the last search.
    pub fn search_results(&self) -> (r: Vec<Song>)
        ensures
            r@ == self.search@@,
    {
        copy_songs(self.search.borrow())
    }
}

/// Moving to the next song and straight back, before the new song has
/// played a hundredth, returns the cursor to where it was.
pub proof fn lemma_next_then_previous(index: nat)
    ensures
        position_after_previous(position_after_next(index), true) == index,
{
}

/// Going back never moves the cursor before the head of the queue, and
/// never moves it at all once the song has played a hundredth.
pub proof fn lemma_previous_bounds(index: nat, barely: bool)
    ensures
        position_after_previous(index, barely) <= index,
        !barely ==> position_after_previous(index, barely) == index,
        index == 0 ==> position_after_previous(index, barely) == 0,
{
}

} // verus!
