//! The background worker: the requests it serves and the decisions it takes
//! between requests.

use vstd::prelude::*;
use crate::atomic::{entry_at, Queue};
use crate::model::{Id, Song};

verus! {

/// A request to the background worker.
#[derive(Debug, PartialEq)]
pub enum Op {
    RefreshLikes,
    RefreshArtists,
    RefreshAlbums,
    RefreshSongs,
    Search(String),
    Scrobble(Id),
    UpdateMPRIS,
}

/// How long the liked songs are trusted before the worker fetches them
/// again, in milliseconds.
pub const LIKES_REFRESH_MS: u64 = 300_000;

/// Whether the liked songs fetched at `last_fetch_ms` are stale at `now_ms`.
pub open spec fn likes_stale(last_fetch_ms: nat, now_ms: nat) -> bool {
    now_ms > last_fetch_ms + LIKES_REFRESH_MS
}

/// Whether the worker should fetch the liked songs again after a request.
pub fn likes_refresh_due(last_fetch_ms: u64, now_ms: u64) -> (r: bool)
    ensures
        r == likes_stale(last_fetch_ms as nat, now_ms as nat),
{
    now_ms >= last_fetch_ms && now_ms - last_fetch_ms > LIKES_REFRESH_MS
}

/// Whether the samples of `s` are among those already downloaded.
pub open spec fn is_cached(s: Song, cached: Seq<String>) -> bool {
    exists|j: int| 0 <= j < cached.len() && (#[trigger] cached[j])@ == s.id@
}

/// The queue entry at distance `i` from the cursor needs downloading.
pub open spec fn needs_preload(items: Seq<Song>, index: nat, i: nat, cached: Seq<String>) -> bool {
    entry_at(items, index + i) matches Some(s) && !is_cached(s, cached)
}

/// `r` is the first of the `preload` entries from the cursor on that need
/// downloading, or `None` when none of them does.
pub open spec fn preload_choice(
    items: Seq<Song>,
    index: nat,
    preload: nat,
    cached: Seq<String>,
    r: Option<Id>,
) -> bool {
    &&& r matches Some(id) ==> exists|i: nat| {
        &&& i < preload
        &&& #[trigger] needs_preload(items, index, i, cached)
        &&& entry_at(items, index + i)->0.id == id
        &&& forall|k: nat| k < i ==> !#[trigger] needs_preload(items, index, k, cached)
    }
    &&& r is None ==> forall|i: nat| i < preload ==> !#[trigger] needs_preload(items, index, i, cached)
}

/// The song under the cursor comes first: when it is in the queue and its
/// samples are not among the downloaded ones, and at least one entry is
/// looked at, it is the one chosen for download.
pub proof fn lemma_preload_current_first(
    items: Seq<Song>,
    index: nat,
    preload: nat,
    cached: Seq<String>,
    r: Option<Id>,
)
    requires
        preload_choice(items, index, preload, cached, r),
        preload > 0,
        index < items.len(),
        forall|j: int| 0 <= j < cached.len() ==> (#[trigger] cached[j])@ != items[index as int].id@,
    ensures
        r == Some(items[index as int].id),
{
    assert(index + 0 == index);
    assert(needs_preload(items, index, 0, cached));
    if let Some(id) = r {
        let i = choose|i: nat| {
            &&& i < preload
            &&& #[trigger] needs_preload(items, index, i, cached)
            &&& entry_at(items, index + i)->0.id == id
            &&& forall|k: nat| k < i ==> !#[trigger] needs_preload(items, index, k, cached)
        };
        if i > 0 {
            assert(!needs_preload(items, index, 0, cached));
        }
    }
}

/// Whether `id` is among the downloaded ids.
fn cached_contains(cached: &Vec<String>, id: &String) -> (r: bool)
    ensures
        r == exists|j: int| 0 <= j < cached@.len() && (#[trigger] cached@[j])@ == id@,
{
    let mut j: usize = 0;
    while j < cached.len()
        invariant
            j <= cached@.len(),
            forall|t: int| 0 <= t < j ==> (#[trigger] cached@[t])@ != id@,
        decreases cached@.len() - j,
    {
        if cached[j] == *id {
            return true;
        }
        j += 1;
    }
    false
}

/// The song the background loader should download next: the first of the
/// `preload` entries from the cursor on whose samples are not downloaded.
pub fn preload_candidate(queue: &Queue<Song>, preload: usize, cached: &Vec<String>) -> (r: Option<Id>)
    requires
        queue.position() + preload <= usize::MAX,
    ensures
        preload_choice(queue.items(), queue.position(), preload as nat, cached@, r),
{
    broadcast use crate::model::lemma_song_clone_exact;
    let mut i: usize = 0;
    while i < preload
        invariant
            i <= preload,
            queue.position() + preload <= usize::MAX,
            forall|k: nat| k < i ==> !#[trigger] needs_preload(queue.items(), queue.position(), k, cached@),
        decreases preload - i,
    {
        let at: usize = queue.index() + i;
        if let Some(song) = queue.get(at) {
            if !cached_contains(cached, &song.id) {
                assert(needs_preload(queue.items(), queue.position(), i as nat, cached@));
                return Some(song.id);
            }
        }
        assert(!needs_preload(queue.items(), queue.position(), i as nat, cached@));
        i += 1;
    }
    None
}

/// Whether a song that has just been downloaded should start playing: it is
/// the song under the cursor and the player has nothing left to play.
pub fn should_start_playback(current: &Option<Song>, id: &String, player_empty: bool) -> (r: bool)
    ensures
        r == (current matches Some(s) && s.id@ == id@ && player_empty),
{
    match current {
        Some(s) => s.id == *id && player_empty,
        None => false,
    }
}

/// Where the samples of song `id` are kept inside the cache directory
/// `base`.
pub fn cache_file_path(base: &String, id: &String) -> (r: String)
    ensures
        r@ == base@ + seq!['/'] + id@,
{
    let mut r = base.clone();
    r.append("/");
    proof { reveal_strlit("/"); }
    r.append(id.as_str());
    r
}

/// The position of a paged listing: where the next page starts and how big
/// pages are.
pub struct Pager {
    pub offset: usize,
    pub size: usize,
}

impl Pager {
    /// A listing read from the start in pages of `size` entries.
    pub fn new(size: usize) -> (r: Self)
        ensures
            r.offset == 0,
            r.size == size,
    {
        Pager { offset: 0, size }
    }

    /// Records a page of `n` entries; the listing goes on only when the page
    /// was full.
    pub fn advance(&mut self, n: usize) -> (more: bool)
        requires
            old(self).offset + n <= usize::MAX,
        ensures
            final(self).offset == old(self).offset + n,
            final(self).size == old(self).size,
            more == (n >= old(self).size),
    {
        self.offset = self.offset + n;
        n >= self.size
    }
}

} // verus!
