//! The library tab: browsing artists, their albums and the albums' songs,
//! with albums ordered by year and songs by track number.

use vstd::prelude::*;
use itertools::Itertools;
use crate::model::{copy_songs, Album, Artist, Song};
use crate::player::PlaybackProgress;
use crate::provider::{enqueue_next_post, go_next_post, play_commands, same_lists, Command, Provider};
use crate::ui::{ignored, magnitude, modifier_magnitude, sat_add, sat_sub, selected_or_first, Event, KeyCode, KeyEvent, Reaction, Tab};

verus! {

/// The field a song list is ordered by.
#[derive(Debug, Clone, Copy, PartialEq, Eq, Structural)]
pub enum SortKey {
    Year,
    Track,
}

/// The ordering value of an optional number: absent values come before
/// every present one, present ones in their own order.
pub open spec fn optional_rank(v: Option<i32>) -> int {
    match v {
        Some(x) => x as int,
        None => i64::MIN as int,
    }
}

/// The ordering value of song `s` under key `k`.
pub open spec fn sort_key(s: Song, k: SortKey) -> int {
    match k {
        SortKey::Year => optional_rank(s.year),
        SortKey::Track => optional_rank(s.track),
    }
}

/// `output` is `input` reordered by `p` (entry `i` of `output` is entry
/// `p[i]` of `input`), with keys in ascending order and entries of equal
/// key in their order in `input`.
pub open spec fn sorts_by(input: Seq<Song>, output: Seq<Song>, k: SortKey, p: Seq<int>) -> bool {
    &&& p.len() == input.len()
    &&& output.len() == input.len()
    &&& forall|i: int| 0 <= i < p.len() ==> 0 <= #[trigger] p[i] < input.len()
    &&& forall|i: int| 0 <= i < p.len() ==> #[trigger] output[i] == input[p[i]]
    &&& forall|i: int, j: int| 0 <= i < j < p.len() ==> #[trigger] p[i] != #[trigger] p[j]
    &&& forall|i: int, j: int|
        0 <= i < j < p.len() ==> sort_key(#[trigger] output[i], k) < sort_key(#[trigger] output[j], k)
            || (sort_key(output[i], k) == sort_key(output[j], k) && p[i] < p[j])
}

/// `output` is the stable sort of `input` by key `k`.
pub open spec fn is_stable_sort(input: Seq<Song>, output: Seq<Song>, k: SortKey) -> bool {
    exists|p: Seq<int>| #[trigger] sorts_by(input, output, k, p)
}

/// Sorts `(key, position)` pairs by key with itertools' `sorted_by_key`,
/// which the crate documents as a stable sort (it calls `slice::sort_by_key`).
/// The positions arrive in increasing order, so a stable sort leaves pairs
/// of equal key in increasing order of position, and the result holds the
/// same pairs.
#[verifier::external_body]
fn sort_by_first(items: Vec<(i64, usize)>) -> (r: Vec<(i64, usize)>)
    requires
        forall|i: int, j: int| 0 <= i < j < items@.len() ==> #[trigger] items@[i].1 < #[trigger] items@[j].1,
    ensures
        r@.to_multiset() == items@.to_multiset(),
        forall|i: int, j: int|
            0 <= i < j < r@.len() ==> #[trigger] r@[i].0 < #[trigger] r@[j].0 || (r@[i].0 == r@[j].0
                && r@[i].1 < r@[j].1),
{
    items.into_iter().sorted_by_key(|p| p.0).collect()
}

/// The ordering value of a song under key `k`.
fn key_code(s: &Song, k: SortKey) -> (r: i64)
    ensures
        r == sort_key(*s, k),
{
    let v = match k {
        SortKey::Year => s.year,
        SortKey::Track => s.track,
    };
    match v {
        Some(x) => x as i64,
        None => i64::MIN,
    }
}

/// Every sorted pair is one of the input pairs, so it names a valid position
/// and carries that position's key.
proof fn lemma_sorted_pairs(items: Seq<Song>, keyed: Seq<(i64, usize)>, sorted: Seq<(i64, usize)>, k: SortKey)
    requires
        keyed.len() == items.len(),
        items.len() <= usize::MAX,
        forall|t: int| 0 <= t < keyed.len() ==> #[trigger] keyed[t] == (sort_key(items[t], k) as i64, t as usize),
        sorted.to_multiset() == keyed.to_multiset(),
    ensures
        sorted.len() == items.len(),
        forall|i: int| 0 <= i < sorted.len() ==> {
            &&& (#[trigger] sorted[i]).1 < items.len()
            &&& sorted[i].0 == sort_key(items[sorted[i].1 as int], k)
        },
{
    broadcast use vstd::seq_lib::group_to_multiset_ensures;
    assert(sorted.len() == sorted.to_multiset().len());
    assert forall|i: int| 0 <= i < sorted.len() implies {
        &&& (#[trigger] sorted[i]).1 < items.len()
        &&& sorted[i].0 == sort_key(items[sorted[i].1 as int], k)
    } by {
        assert(sorted.contains(sorted[i]));
        assert(sorted.to_multiset().count(sorted[i]) > 0);
        assert(keyed.contains(sorted[i]));
        let t = choose|t: int| 0 <= t < keyed.len() && keyed[t] == sorted[i];
        assert(keyed[t] == (sort_key(items[t], k) as i64, t as usize));
        assert((t as usize) as int == t);
        assert((sort_key(items[t], k) as i64) as int == sort_key(items[t], k));
    }
}

/// `items` in ascending order of key `k`, equal keys keeping their order.
pub fn sort_songs(items: &Vec<Song>, k: SortKey) -> (r: Vec<Song>)
    ensures
        is_stable_sort(items@, r@, k),
{
    let mut keyed: Vec<(i64, usize)> = Vec::new();
    let mut j: usize = 0;
    while j < items.len()
        invariant
            j <= items@.len(),
            keyed@.len() == j,
            forall|t: int| 0 <= t < j ==> #[trigger] keyed@[t] == (sort_key(items@[t], k) as i64, t as usize),
        decreases items@.len() - j,
    {
        keyed.push((key_code(&items[j], k), j));
        j += 1;
    }
    let sorted = sort_by_first(keyed);
    proof {
        lemma_sorted_pairs(items@, keyed@, sorted@, k);
    }
    let mut out: Vec<Song> = Vec::new();
    let mut i: usize = 0;
    while i < sorted.len()
        invariant
            i <= sorted@.len(),
            sorted@.len() == items@.len(),
            out@.len() == i,
            forall|t: int| 0 <= t < sorted@.len() ==> {
                &&& (#[trigger] sorted@[t]).1 < items@.len()
                &&& sorted@[t].0 == sort_key(items@[sorted@[t].1 as int], k)
            },
            forall|t: int| 0 <= t < i ==> #[trigger] out@[t] == items@[sorted@[t].1 as int],
        decreases sorted@.len() - i,
    {
        let at: usize = sorted[i].1;
        out.push(items[at].clone());
        i += 1;
    }
    let ghost p = sorted@.map_values(|x: (i64, usize)| x.1 as int);
    assert(sorts_by(items@, out@, k, p)) by {
        assert forall|a: int, b: int| 0 <= a < b < p.len() implies #[trigger] p[a] != #[trigger] p[b] by {
            assert(sorted@[a].0 < sorted@[b].0 || (sorted@[a].0 == sorted@[b].0 && sorted@[a].1 < sorted@[b].1));
        }
        assert forall|a: int, b: int| 0 <= a < b < p.len() implies sort_key(#[trigger] out@[a], k) < sort_key(#[trigger] out@[b], k)
            || (sort_key(out@[a], k) == sort_key(out@[b], k) && p[a] < p[b]) by {
            assert(sorted@[a].0 < sorted@[b].0 || (sorted@[a].0 == sorted@[b].0 && sorted@[a].1 < sorted@[b].1));
        }
    }
    out
}

/// The field that ties a listing entry to its artist or its album.
#[derive(Debug, Clone, Copy, PartialEq, Eq, Structural)]
pub enum LinkField {
    ArtistId,
    AlbumId,
}

/// Whether `s` belongs to the artist or album `id`.
pub open spec fn links_to(s: Song, f: LinkField, id: Seq<char>) -> bool {
    let v = match f {
        LinkField::ArtistId => s.artist_id,
        LinkField::AlbumId => s.album_id,
    };
    v is Some && v->0@ == id
}

/// The entries of `s` that belong to `id`, in their order.
pub open spec fn linked(s: Seq<Song>, f: LinkField, id: Seq<char>) -> Seq<Song>
    decreases s.len(),
{
    if s.len() == 0 {
        Seq::empty()
    } else {
        linked(s.drop_last(), f, id) + if links_to(s.last(), f, id) {
            seq![s.last()]
        } else {
            Seq::<Song>::empty()
        }
    }
}

/// The entries of `items` that belong to `id`, in their order.
pub fn filter_linked(items: &Vec<Song>, f: LinkField, id: &String) -> (r: Vec<Song>)
    ensures
        r@ == linked(items@, f, id@),
{
    let mut out: Vec<Song> = Vec::new();
    let mut i: usize = 0;
    while i < items.len()
        invariant
            i <= items@.len(),
            out@ == linked(items@.take(i as int), f, id@),
        decreases items@.len() - i,
    {
        let s = &items[i];
        let v = match f {
            LinkField::ArtistId => &s.artist_id,
            LinkField::AlbumId => &s.album_id,
        };
        let keep = match v {
            Some(x) => *x == *id,
            None => false,
        };
        assert(items@.take(i + 1).drop_last() =~= items@.take(i as int));
        if keep {
            out.push(s.clone());
        }
        assert(out@ =~= linked(items@.take(i + 1), f, id@));
        i += 1;
    }
    assert(items@.take(items@.len() as int) =~= items@);
    out
}

/// The albums of artist `id`, oldest first.
pub open spec fn albums_of(albums: Seq<Album>, id: Seq<char>, out: Seq<Album>) -> bool {
    is_stable_sort(linked(albums, LinkField::ArtistId, id), out, SortKey::Year)
}

/// The songs of album `id`, in track order.
pub open spec fn songs_of(songs: Seq<Song>, id: Seq<char>, out: Seq<Song>) -> bool {
    is_stable_sort(linked(songs, LinkField::AlbumId, id), out, SortKey::Track)
}

/// The albums of the artist `artist_id` among `albums`, oldest first.
pub fn albums_by_year(albums: &Vec<Album>, artist_id: &String) -> (r: Vec<Album>)
    ensures
        albums_of(albums@, artist_id@, r@),
{
    let mine = filter_linked(albums, LinkField::ArtistId, artist_id);
    sort_songs(&mine, SortKey::Year)
}

/// The songs of the album `album_id` among `songs`, in track order.
pub fn songs_by_track(songs: &Vec<Song>, album_id: &String) -> (r: Vec<Song>)
    ensures
        songs_of(songs@, album_id@, r@),
{
    let mine = filter_linked(songs, LinkField::AlbumId, album_id);
    sort_songs(&mine, SortKey::Track)
}

/// The column of the library tab that has the focus.
#[derive(Debug, Clone, Copy, PartialEq, Eq, Structural)]
pub enum Area {
    Artists,
    Albums,
    Songs,
}

/// The selection in each column of the library tab.
#[derive(Debug, Clone, Copy, PartialEq, Eq, Structural)]
pub struct LibraryState {
    pub artists: Option<usize>,
    pub albums: Option<usize>,
    pub songs: Option<usize>,
}

/// The library tab: the artist list, the albums of the chosen artist and the
/// songs of the chosen album.
pub struct LibraryTab {
    pub selected: Area,
    pub state: LibraryState,
    pub cached_albums: Vec<Album>,
    pub cached_songs: Vec<Song>,
}

/// The selection `sel` moved up (`up`) or down by `m` steps.
pub open spec fn stepped(sel: Option<usize>, up: bool, m: nat) -> Option<usize> {
    let cur = selected_or_first(sel);
    Some((if up { sat_sub(cur, m) } else { sat_add(cur, m) }) as usize)
}

/// The library tab and the provider are unchanged and nothing is handed out.
pub open spec fn library_unchanged(
    old_tab: LibraryTab,
    new_tab: LibraryTab,
    old_p: Provider,
    new_p: Provider,
    r: Reaction,
) -> bool {
    &&& new_tab == old_tab
    &&& new_p == old_p
    &&& r.commands@ == Seq::<Command>::empty()
}

/// Only the selection and focus of the tab changed.
pub open spec fn library_navigated(
    old_tab: LibraryTab,
    new_tab: LibraryTab,
    old_p: Provider,
    new_p: Provider,
    r: Reaction,
) -> bool {
    &&& new_tab.cached_albums == old_tab.cached_albums
    &&& new_tab.cached_songs == old_tab.cached_songs
    &&& new_p == old_p
    &&& r.commands@ == Seq::<Command>::empty()
}

/// What the library tab does with key `ev`.
pub open spec fn library_key(
    old_tab: LibraryTab,
    new_tab: LibraryTab,
    old_p: Provider,
    new_p: Provider,
    progress: PlaybackProgress,
    ev: KeyEvent,
    r: Reaction,
) -> bool {
    let st = old_tab.state;
    match ev.code {
        KeyCode::Esc => match old_tab.selected {
            Area::Songs => {
                &&& library_navigated(old_tab, new_tab, old_p, new_p, r)
                &&& new_tab.selected == Area::Albums
                &&& new_tab.state == LibraryState { songs: None, ..st }
            },
            Area::Albums => {
                &&& library_navigated(old_tab, new_tab, old_p, new_p, r)
                &&& new_tab.selected == Area::Artists
                &&& new_tab.state == LibraryState { albums: None, ..st }
            },
            Area::Artists => library_unchanged(old_tab, new_tab, old_p, new_p, r),
        },
        KeyCode::Up | KeyCode::Down => {
            let up = ev.code == KeyCode::Up;
            &&& library_navigated(old_tab, new_tab, old_p, new_p, r)
            &&& new_tab.selected == old_tab.selected
            &&& new_tab.state == match old_tab.selected {
                Area::Artists => LibraryState { artists: stepped(st.artists, up, magnitude(ev)), ..st },
                Area::Albums => LibraryState { albums: stepped(st.albums, up, magnitude(ev)), ..st },
                Area::Songs => LibraryState { songs: stepped(st.songs, up, magnitude(ev)), ..st },
            }
        },
        KeyCode::Enter => match old_tab.selected {
            Area::Artists => {
                let idx = selected_or_first(st.artists);
                let artists = old_p.artists@@;
                if idx < artists.len() {
                    &&& new_p == old_p
                    &&& r.commands@ == Seq::<Command>::empty()
                    &&& new_tab.cached_songs@ == Seq::<Song>::empty()
                    &&& albums_of(old_p.albums@@, artists[idx as int].id@, new_tab.cached_albums@)
                    &&& new_tab.selected == Area::Albums
                    &&& new_tab.state == LibraryState { albums: None, songs: None, ..st }
                } else {
                    library_unchanged(old_tab, new_tab, old_p, new_p, r)
                }
            },
            Area::Albums => {
                let idx = selected_or_first(st.albums);
                let albums = old_tab.cached_albums@;
                if idx < albums.len() {
                    &&& new_p == old_p
                    &&& r.commands@ == Seq::<Command>::empty()
                    &&& new_tab.cached_albums == old_tab.cached_albums
                    &&& songs_of(old_p.songs@@, albums[idx as int].id@, new_tab.cached_songs@)
                    &&& new_tab.selected == Area::Songs
                    &&& new_tab.state == LibraryState { songs: None, ..st }
                } else {
                    library_unchanged(old_tab, new_tab, old_p, new_p, r)
                }
            },
            Area::Songs => match st.songs {
                Some(sel) if (sel as nat) < old_tab.cached_songs@.len() => {
                    &&& new_tab == old_tab
                    &&& exists|mid: Provider| {
                        &&& #[trigger] enqueue_next_post(old_p, mid, old_tab.cached_songs@[sel as int])
                        &&& if mid.queue.items().len() > 1 {
                            go_next_post(mid, new_p, progress, r.commands@)
                        } else {
                            new_p == mid && r.commands@ == Seq::<Command>::empty()
                        }
                    }
                },
                _ => library_unchanged(old_tab, new_tab, old_p, new_p, r),
            },
        },
        KeyCode::Char(c) => if c == '=' && old_tab.selected == Area::Albums {
            match st.albums {
                Some(sel) if (sel as nat) < old_tab.cached_albums@.len() => {
                    let queued = new_p.queue.items();
                    let first = if queued.len() > 0 {
                        play_commands(queued[0].id)
                    } else {
                        Seq::<Command>::empty()
                    };
                    &&& new_tab == old_tab
                    &&& songs_of(old_p.songs@@, old_tab.cached_albums@[sel as int].id@, queued)
                    &&& new_p.queue.position() == 0
                    &&& same_lists(old_p, new_p)
                    &&& r.commands@ == first + if queued.len() > 0 {
                        play_commands(queued[0].id)
                    } else {
                        seq![Command::ClearPlayer]
                    }
                },
                _ => library_unchanged(old_tab, new_tab, old_p, new_p, r),
            }
        } else {
            library_unchanged(old_tab, new_tab, old_p, new_p, r)
        },
        _ => library_unchanged(old_tab, new_tab, old_p, new_p, r),
    }
}

impl LibraryTab {
    /// The artist column in focus, nothing selected, nothing listed.
    pub fn new() -> (r: Self)
        ensures
            r.selected == Area::Artists,
            r.state == (LibraryState { artists: None, albums: None, songs: None }),
            r.cached_albums@ == Seq::<Album>::empty(),
            r.cached_songs@ == Seq::<Song>::empty(),
    {
        LibraryTab {
            selected: Area::Artists,
            state: LibraryState { artists: None, albums: None, songs: None },
            cached_albums: Vec::new(),
            cached_songs: Vec::new(),
        }
    }

    /// Moves the selection of the focused column.
    fn step(&mut self, up: bool, m: usize)
        ensures
            final(self).selected == old(self).selected,
            final(self).cached_albums == old(self).cached_albums,
            final(self).cached_songs == old(self).cached_songs,
            final(self).state == match old(self).selected {
                Area::Artists => LibraryState { artists: stepped(old(self).state.artists, up, m as nat), ..old(self).state },
                Area::Albums => LibraryState { albums: stepped(old(self).state.albums, up, m as nat), ..old(self).state },
                Area::Songs => LibraryState { songs: stepped(old(self).state.songs, up, m as nat), ..old(self).state },
            },
    {
        let sel = match self.selected {
            Area::Artists => self.state.artists,
            Area::Albums => self.state.albums,
            Area::Songs => self.state.songs,
        };
        let cur: usize = match sel {
            Some(i) => i,
            None => 0,
        };
        let next: usize = if up { cur.saturating_sub(m) } else { cur.saturating_add(m) };
        match self.selected {
            Area::Artists => self.state.artists = Some(next),
            Area::Albums => self.state.albums = Some(next),
            Area::Songs => self.state.songs = Some(next),
        }
    }
}

/// What the LibraryTab does with `event`.
pub open spec fn library_input(
    old_t: LibraryTab,
    new_t: LibraryTab,
    old_p: Provider,
    new_p: Provider,
    progress: PlaybackProgress,
    event: Event,
    r: Reaction,
) -> bool {
    &&& !r.consumed
    &&& match event {
            Event::Key(ev) => library_key(
                old_t,
                new_t,
                old_p,
                new_p,
                progress,
                ev,
                r,
            ),
            Event::Other => library_unchanged(old_t, new_t, old_p, new_p, r)
    }
}

impl Tab for LibraryTab {
    /// Esc moves the focus back one column; Up and Down move the selection
    /// of the focused column; Enter opens the selected artist or album, or
    /// queues the selected song next and moves to it when the queue holds
    /// more than it; `=` on an album replaces the queue with its songs.
    fn handle_input(
        &mut self,
        event: &Event,
        provider: &mut Provider,
        progress: &PlaybackProgress,
    ) -> (r: Reaction)
        ensures
            library_input(*old(self), *final(self), *old(provider), *final(provider), *progress, *event, r),
    {
        if let Event::Key(ev) = event {
            let modifier = modifier_magnitude(ev);
            match ev.code {
                KeyCode::Esc => {
                    match self.selected {
                        Area::Songs => {
                            self.selected = Area::Albums;
                            self.state.songs = None;
                        },
                        Area::Albums => {
                            self.selected = Area::Artists;
                            self.state.albums = None;
                        },
                        Area::Artists => {},
                    }
                },
                KeyCode::Enter => {
                    match self.selected {
                        Area::Artists => {
                            let idx: usize = match self.state.artists {
                                Some(i) => i,
                                None => 0,
                            };
                            let artists = provider.artists.borrow();
                            if idx < artists.len() {
                                let artist = &artists[idx];
                                self.cached_songs = Vec::new();
                                self.cached_albums = albums_by_year(provider.albums.borrow(), &artist.id);
                                self.selected = Area::Albums;
                                self.state.albums = None;
                                self.state.songs = None;
                            }
                        },
                        Area::Albums => {
                            let idx: usize = match self.state.albums {
                                Some(i) => i,
                                None => 0,
                            };
                            if idx < self.cached_albums.len() {
                                let songs = songs_by_track(provider.songs.borrow(), &self.cached_albums[idx].id);
                                self.cached_songs = songs;
                                self.selected = Area::Songs;
                                self.state.songs = None;
                            }
                        },
                        Area::Songs => {
                            if let Some(sel) = self.state.songs {
                                if sel < self.cached_songs.len() {
                                    let song = self.cached_songs[sel].clone();
                                    provider.enqueue_next(song);
                                    let ghost mid = *provider;
                                    if provider.queue.len() > 1 {
                                        let commands = provider.go_next(progress);
                                        return Reaction { consumed: false, commands };
                                    }
                                }
                            }
                        },
                    }
                },
                KeyCode::Up => self.step(true, modifier),
                KeyCode::Down => self.step(false, modifier),
                KeyCode::Char(c) => {
                    if c == '=' && self.selected == Area::Albums {
                        if let Some(sel) = self.state.albums {
                            if sel < self.cached_albums.len() {
                                let songs = songs_by_track(provider.songs.borrow(), &self.cached_albums[sel].id);
                                let mut commands: Vec<Command> = Vec::new();
                                if songs.len() > 0 {
                                    let id = songs[0].id.clone();
                                    commands = provider.play(id);
                                }
                                let mut rest = provider.reset(songs);
                                commands.append(&mut rest);
                                return Reaction { consumed: false, commands };
                            }
                        }
                    }
                },
                _ => {},
            }
        }
        ignored()
    }
}

} // verus!
