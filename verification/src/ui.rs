//! Keyboard input: the keys the player reacts to, the tabs of the screen,
//! and how each tab answers a key press.

use vstd::prelude::*;
use crate::atomic::{entry_at, inserted, position_after_remove, removed};
use crate::model::{copy_songs, Song};
use crate::player::PlaybackProgress;
use crate::provider::{
    enqueue_next_post, enqueue_post, dequeue_post, same_lists, shuffle_liked_post, Command, Provider,
};
use crate::worker::Op;

verus! {

/// A key on the keyboard, as far as the player tells keys apart.
#[derive(Debug, Clone, Copy, PartialEq, Eq, Structural)]
pub enum KeyCode {
    Char(char),
    Esc,
    Enter,
    Up,
    Down,
    Left,
    Right,
    Tab,
    Backspace,
    Other,
}

/// A key press with the state of the modifier keys.
#[derive(Debug, Clone, Copy, PartialEq, Eq, Structural)]
pub struct KeyEvent {
    pub code: KeyCode,
    pub shift: bool,
    pub alt: bool,
}

/// A terminal event: a key press or anything else.
#[derive(Debug, Clone, Copy, PartialEq, Eq, Structural)]
pub enum Event {
    Key(KeyEvent),
    Other,
}

/// How many steps a key press moves: five with Shift, twenty-five with Alt,
/// one otherwise.
pub open spec fn magnitude(ev: KeyEvent) -> nat {
    if ev.shift { 5 } else if ev.alt { 25 } else { 1 }
}

/// How many steps a key press moves.
pub fn modifier_magnitude(ev: &KeyEvent) -> (r: usize)
    ensures
        r == magnitude(*ev),
{
    if ev.shift {
        return 5;
    }
    if ev.alt {
        return 25;
    }
    1
}

/// `a - b`, stopping at zero.
pub open spec fn sat_sub(a: nat, b: nat) -> nat {
    if a >= b { (a - b) as nat } else { 0 }
}

/// `a + b`, stopping at the largest machine word.
pub open spec fn sat_add(a: nat, b: nat) -> nat {
    if a + b <= usize::MAX { a + b } else { usize::MAX as nat }
}

/// The selection a list starts from when nothing is selected.
pub open spec fn selected_or_first(sel: Option<usize>) -> nat {
    match sel {
        Some(i) => i as nat,
        None => 0,
    }
}

/// The tabs of the screen, in order.
#[derive(Debug, Clone, Copy, PartialEq, Eq, Structural)]
pub enum AppTabs {
    Playing,
    Likes,
    Search,
    Library,
    Logs,
}

/// The position of tab `t` in the tab bar.
pub open spec fn tab_index(t: AppTabs) -> nat {
    match t {
        AppTabs::Playing => 0,
        AppTabs::Likes => 1,
        AppTabs::Search => 2,
        AppTabs::Library => 3,
        AppTabs::Logs => 4,
    }
}

/// The tab after `t`, wrapping around to the first.
pub open spec fn tab_after(t: AppTabs) -> AppTabs {
    match t {
        AppTabs::Playing => AppTabs::Likes,
        AppTabs::Likes => AppTabs::Search,
        AppTabs::Search => AppTabs::Library,
        AppTabs::Library => AppTabs::Logs,
        AppTabs::Logs => AppTabs::Playing,
    }
}

/// The title of the tab at position `i` of the tab bar.
pub open spec fn tab_title(i: nat) -> Seq<char> {
    if i == 0 { "playing"@ }
    else if i == 1 { "likes"@ }
    else if i == 2 { "search"@ }
    else if i == 3 { "library"@ }
    else { "logs"@ }
}

impl AppTabs {
    /// The tab after this one, wrapping around to the first.
    pub fn next(self) -> (r: Self)
        ensures
            r == tab_after(self),
    {
        match self {
            AppTabs::Playing => AppTabs::Likes,
            AppTabs::Likes => AppTabs::Search,
            AppTabs::Search => AppTabs::Library,
            AppTabs::Library => AppTabs::Logs,
            AppTabs::Logs => AppTabs::Playing,
        }
    }

    /// The position of this tab in the tab bar.
    pub fn idx(&self) -> (r: usize)
        ensures
            r == tab_index(*self),
    {
        match self {
            AppTabs::Playing => 0,
            AppTabs::Likes => 1,
            AppTabs::Search => 2,
            AppTabs::Library => 3,
            AppTabs::Logs => 4,
        }
    }

    /// The titles of the tabs, in order.
    pub fn titles() -> (r: [&'static str; 5])
        ensures
            forall|i: int| 0 <= i < 5 ==> #[trigger] r[i]@ == tab_title(i as nat),
    {
        proof {
            reveal_strlit("playing");
            reveal_strlit("likes");
            reveal_strlit("search");
            reveal_strlit("library");
            reveal_strlit("logs");
        }
        ["playing", "likes", "search", "library", "logs"]
    }
}

/// Moving to the next tab moves one place to the right in the tab bar,
/// from the last tab back to the first.
pub proof fn lemma_next_tab_index(t: AppTabs)
    ensures
        tab_index(tab_after(t)) == (tab_index(t) + 1) % 5,
{
}

/// Moving to the next tab five times comes back to the same tab.
pub proof fn lemma_next_tab_cycles(t: AppTabs)
    ensures
        tab_after(tab_after(tab_after(tab_after(tab_after(t))))) == t,
{
}

/// Every tab has its own place in the tab bar, among the first five.
pub proof fn lemma_tab_index_distinct(a: AppTabs, b: AppTabs)
    ensures
        tab_index(a) < 5,
        tab_index(a) == tab_index(b) ==> a == b,
{
}

/// The tab titles are pairwise different.
pub proof fn lemma_tab_titles_distinct(i: nat, j: nat)
    requires
        i < 5,
        j < 5,
        i != j,
    ensures
        tab_title(i) != tab_title(j),
{
    reveal_strlit("playing");
    reveal_strlit("likes");
    reveal_strlit("search");
    reveal_strlit("library");
    reveal_strlit("logs");
    if tab_title(i) == tab_title(j) {
        assert(tab_title(i).len() == tab_title(j).len());
        assert(tab_title(i)[0] == tab_title(j)[0]);
        assert(tab_title(i)[1] == tab_title(j)[1]);
    }
}

/// What a tab did with an event: whether it kept the event from the global
/// key bindings, and the work it hands out.
pub struct Reaction {
    pub consumed: bool,
    pub commands: Vec<Command>,
}

/// A reaction that keeps nothing and hands out nothing.
pub fn ignored() -> (r: Reaction)
    ensures
        !r.consumed,
        r.commands@ == Seq::<Command>::empty(),
{
    Reaction { consumed: false, commands: Vec::new() }
}

/// A screen tab that reacts to terminal events.
pub trait Tab {
    /// Reacts to `event`, possibly changing the provider's queue.
    fn handle_input(
        &mut self,
        event: &Event,
        provider: &mut Provider,
        progress: &PlaybackProgress,
    ) -> (r: Reaction)
        requires
            old(provider).queue.position() < usize::MAX,
    ;
}

/// The tab of the application log, scrolled by the arrow keys.
pub struct LogsTab {
    pub scroll: usize,
    pub scroll_position: usize,
}

impl LogsTab {
    /// A log view scrolled to the top.
    pub fn new() -> (r: Self)
        ensures
            r.scroll == 0,
            r.scroll_position == 0,
    {
        LogsTab { scroll: 0, scroll_position: 0 }
    }
}

/// What the LikesTab does with `event`.
pub open spec fn likes_input(
    old_t: LikesTab,
    new_t: LikesTab,
    old_p: Provider,
    new_p: Provider,
    progress: PlaybackProgress,
    event: Event,
    r: Reaction,
) -> bool {
    &&& !r.consumed
    &&& match event {
            Event::Key(ev) => if is_list_key(ev) {
                song_list_key(
                    ev,
                    old_p.likes@@,
                    old_t.state,
                    new_t.state,
                    old_p,
                    new_p,
                    r,
                )
            } else if ev.code == KeyCode::Char('?') {
                &&& shuffle_liked_post(old_p, new_p, r.commands@)
                &&& new_t == old_t
            } else if ev.code == KeyCode::Char('r') {
                &&& r.commands@ == seq![Command::Send(Op::RefreshLikes)]
                &&& new_p == old_p
                &&& new_t == old_t
            } else {
                &&& r.commands@ == Seq::<Command>::empty()
                &&& new_p == old_p
                &&& new_t == old_t
            },
            Event::Other => {
                &&& r.commands@ == Seq::<Command>::empty()
                &&& new_p == old_p
                &&& new_t == old_t
            }
    }
}

/// What the LogsTab does with `event`.
pub open spec fn logs_input(
    old_t: LogsTab,
    new_t: LogsTab,
    old_p: Provider,
    new_p: Provider,
    progress: PlaybackProgress,
    event: Event,
    r: Reaction,
) -> bool {
    &&& !r.consumed
    &&& r.commands@ == Seq::<Command>::empty()
    &&& new_p == old_p
    &&& new_t.scroll_position == new_t.scroll || new_t == old_t
    &&& match event {
            Event::Key(ev) => match ev.code {
                KeyCode::Up => new_t.scroll == sat_sub(old_t.scroll as nat, magnitude(ev))
                    && new_t.scroll_position == new_t.scroll,
                KeyCode::Down => new_t.scroll == sat_add(old_t.scroll as nat, magnitude(ev))
                    && new_t.scroll_position == new_t.scroll,
                KeyCode::Esc => new_t.scroll == 0 && new_t.scroll_position == 0,
                _ => new_t == old_t,
            },
            Event::Other => new_t == old_t
    }
}

impl Tab for LogsTab {
    /// Up and Down scroll by the key's magnitude, Esc goes back to the top.
    fn handle_input(
        &mut self,
        event: &Event,
        provider: &mut Provider,
        progress: &PlaybackProgress,
    ) -> (r: Reaction)
        ensures
            logs_input(*old(self), *final(self), *old(provider), *final(provider), *progress, *event, r),
    {
        if let Event::Key(ev) = event {
            let modifier = modifier_magnitude(ev);
            match ev.code {
                KeyCode::Up => {
                    self.scroll = self.scroll.saturating_sub(modifier);
                    self.scroll_position = self.scroll;
                },
                KeyCode::Down => {
                    self.scroll = self.scroll.saturating_add(modifier);
                    self.scroll_position = self.scroll;
                },
                KeyCode::Esc => {
                    self.scroll = 0;
                    self.scroll_position = 0;
                },
                _ => {},
            }
        }
        ignored()
    }
}

/// Appends one character with `String::push`.
#[verifier::external_body]
fn push_char(s: &mut String, c: char)
    ensures
        final(s)@ == old(s)@.push(c),
{
    s.push(c);
}

/// Removes the last character with `String::pop`, which hands it back; an
/// empty string stays empty.
#[verifier::external_body]
fn pop_char(s: &mut String) -> (r: Option<char>)
    ensures
        old(s)@.len() == 0 ==> r is None && final(s)@ == old(s)@,
        old(s)@.len() > 0 ==> r == Some(old(s)@.last()) && final(s)@ == old(s)@.drop_last(),
{
    s.pop()
}

/// The selection of a table and the position of its scrollbar.
pub struct TableSelection {
    pub selected: Option<usize>,
    pub scroll_position: usize,
}

impl TableSelection {
    /// Nothing selected, scrollbar at the top.
    pub fn new() -> (r: Self)
        ensures
            r.selected is None,
            r.scroll_position == 0,
    {
        TableSelection { selected: None, scroll_position: 0 }
    }
}

/// The selection after Up (`up`) or Down by `m` steps: the scrollbar goes to
/// where the selection was, the selection moves.
pub open spec fn moved_selection(old: TableSelection, new: TableSelection, up: bool, m: nat) -> bool {
    let sel = selected_or_first(old.selected);
    &&& new.scroll_position == sel
    &&& new.selected == Some(
        (if up { sat_sub(sel, m) } else { sat_add(sel, m) }) as usize,
    )
}

/// Moves a table selection up or down by `m` steps.
fn move_selection(sel: &mut TableSelection, up: bool, m: usize)
    ensures
        moved_selection(*old(sel), *final(sel), up, m as nat),
{
    let cur: usize = match sel.selected {
        Some(i) => i,
        None => 0,
    };
    sel.scroll_position = cur;
    if up {
        sel.selected = Some(cur.saturating_sub(m));
    } else {
        sel.selected = Some(cur.saturating_add(m));
    }
}

/// What a song list tab does with a key on a list of `songs` shown with
/// selection `sel`: Up and Down move the selection, `=` queues the selected
/// song next, `+` queues it last.
pub open spec fn song_list_key(
    ev: KeyEvent,
    songs: Seq<Song>,
    old_sel: TableSelection,
    new_sel: TableSelection,
    old: Provider,
    new: Provider,
    r: Reaction,
) -> bool {
    let i = selected_or_first(old_sel.selected);
    if ev.code == KeyCode::Up || ev.code == KeyCode::Down {
        &&& moved_selection(old_sel, new_sel, ev.code == KeyCode::Up, magnitude(ev))
        &&& new == old
        &&& r.commands@ == Seq::<Command>::empty()
    } else if ev.code == KeyCode::Char('=') || ev.code == KeyCode::Char('+') {
        &&& new_sel == old_sel
        &&& r.commands@ == Seq::<Command>::empty()
        &&& if i < songs.len() {
            if ev.code == KeyCode::Char('=') {
                enqueue_next_post(old, new, songs[i as int])
            } else {
                enqueue_post(old, new, songs[i as int])
            }
        } else {
            new == old
        }
    } else {
        false
    }
}

/// Applies the Up, Down, `=` and `+` keys to a song list.
fn song_list_handle(
    ev: &KeyEvent,
    songs: &Vec<Song>,
    sel: &mut TableSelection,
    provider: &mut Provider,
) -> (r: Reaction)
    requires
        old(provider).queue.position() < usize::MAX,
        ev.code == KeyCode::Up || ev.code == KeyCode::Down || ev.code == KeyCode::Char('=')
            || ev.code == KeyCode::Char('+'),
    ensures
        !r.consumed,
        song_list_key(*ev, songs@, *old(sel), *final(sel), *old(provider), *final(provider), r),
{
    let m = modifier_magnitude(ev);
    let i: usize = match sel.selected {
        Some(i) => i,
        None => 0,
    };
    if ev.code == KeyCode::Up {
        move_selection(sel, true, m);
    } else if ev.code == KeyCode::Down {
        move_selection(sel, false, m);
    } else if i < songs.len() {
        let song = songs[i].clone();
        if ev.code == KeyCode::Char('=') {
            provider.enqueue_next(song);
        } else {
            provider.enqueue(song);
        }
    }
    ignored()
}

/// On a song list with song `i` selected, `=` puts that song right after the
/// one being played (at the end when nothing is being played) and `+` puts
/// it at the end of the queue; the song being played stays under the cursor
/// and nothing is handed out.
pub proof fn lemma_song_list_queueing(
    ev: KeyEvent,
    songs: Seq<Song>,
    old_sel: TableSelection,
    new_sel: TableSelection,
    old: Provider,
    new: Provider,
    r: Reaction,
    i: usize,
)
    requires
        song_list_key(ev, songs, old_sel, new_sel, old, new, r),
        old_sel.selected == Some(i),
        i < songs.len(),
    ensures
        ev.code == KeyCode::Char('=') && old.queue.position() < old.queue.items().len() ==> {
            &&& new.queue.items() == old.queue.items().insert((old.queue.position() + 1) as int, songs[i as int])
            &&& new.queue.position() == old.queue.position()
            &&& new.queue.current_spec() == old.queue.current_spec()
        },
        ev.code == KeyCode::Char('=') && old.queue.position() >= old.queue.items().len() ==> {
            &&& new.queue.items() == old.queue.items().push(songs[i as int])
            &&& new.queue.position() == old.queue.position()
        },
        ev.code == KeyCode::Char('+') ==> {
            &&& new.queue.items() == old.queue.items().push(songs[i as int])
            &&& old.queue.position() < old.queue.items().len() ==> new.queue.position() == old.queue.position()
                && new.queue.current_spec() == old.queue.current_spec()
        },
        ev.code == KeyCode::Char('=') || ev.code == KeyCode::Char('+') ==> {
            &&& r.commands@ == Seq::<Command>::empty()
            &&& new_sel == old_sel
        },
{
    let items = old.queue.items();
    let p = old.queue.position();
    if ev.code == KeyCode::Char('=') && p < items.len() {
        assert(new.queue.items()[p as int] == items[p as int]);
    }
    if ev.code == KeyCode::Char('=') && p >= items.len() {
        assert(items.insert(items.len() as int, songs[i as int]) =~= items.push(songs[i as int]));
    }
    if ev.code == KeyCode::Char('+') && p < items.len() {
        assert(new.queue.items()[p as int] == items[p as int]);
    }
}

/// Whether `ev` is one of the keys every song list handles.
pub open spec fn is_list_key(ev: KeyEvent) -> bool {
    ev.code == KeyCode::Up || ev.code == KeyCode::Down || ev.code == KeyCode::Char('=')
        || ev.code == KeyCode::Char('+')
}

/// The tab of liked songs.
pub struct LikesTab {
    pub state: TableSelection,
}

impl LikesTab {
    /// A likes tab with nothing selected.
    pub fn new() -> (r: Self)
        ensures
            r.state.selected is None,
            r.state.scroll_position == 0,
    {
        LikesTab { state: TableSelection::new() }
    }
}

/// What the SearchTab does with `event`.
pub open spec fn search_input(
    old_t: SearchTab,
    new_t: SearchTab,
    old_p: Provider,
    new_p: Provider,
    progress: PlaybackProgress,
    event: Event,
    r: Reaction,
) -> bool {
    &&& match event {
            Event::Key(ev) => if old_t.inserting {
                &&& r.consumed
                &&& new_p == old_p
                &&& new_t.state == old_t.state
                &&& match ev.code {
                    KeyCode::Esc => {
                        &&& !new_t.inserting
                        &&& new_t.query == old_t.query
                        &&& r.commands@ == Seq::<Command>::empty()
                    },
                    KeyCode::Char(c) => {
                        &&& new_t.inserting
                        &&& new_t.query@ == old_t.query@.push(c)
                        &&& r.commands@ == Seq::<Command>::empty()
                    },
                    KeyCode::Backspace => {
                        &&& new_t.inserting
                        &&& new_t.query@ == (if old_t.query@.len() > 0 {
                            old_t.query@.drop_last()
                        } else {
                            old_t.query@
                        })
                        &&& r.commands@ == Seq::<Command>::empty()
                    },
                    KeyCode::Enter => {
                        &&& !new_t.inserting
                        &&& new_t.query == old_t.query
                        &&& r.commands@ == seq![Command::Send(Op::Search(old_t.query))]
                    },
                    _ => {
                        &&& new_t == old_t
                        &&& r.commands@ == Seq::<Command>::empty()
                    },
                }
            } else {
                &&& !r.consumed
                &&& new_t.query == old_t.query
                &&& if is_list_key(ev) {
                    &&& new_t.inserting == old_t.inserting
                    &&& song_list_key(
                        ev,
                        old_p.search@@,
                        old_t.state,
                        new_t.state,
                        old_p,
                        new_p,
                        r,
                    )
                } else {
                    &&& r.commands@ == Seq::<Command>::empty()
                    &&& new_p == old_p
                    &&& new_t.state == old_t.state
                    &&& new_t.inserting == (ev.code == KeyCode::Esc)
                }
            },
            Event::Other => {
                &&& !r.consumed
                &&& r.commands@ == Seq::<Command>::empty()
                &&& new_p == old_p
                &&& new_t == old_t
            }
    }
}

/// Esc while typing a query stops typing: the query stays as it is, the
/// table and the queue are untouched and nothing is sent; the key goes no
/// further.
pub proof fn lemma_search_esc_stops_typing(
    old_t: SearchTab,
    new_t: SearchTab,
    old_p: Provider,
    new_p: Provider,
    progress: PlaybackProgress,
    ev: KeyEvent,
    r: Reaction,
)
    requires
        search_input(old_t, new_t, old_p, new_p, progress, Event::Key(ev), r),
        old_t.inserting,
        ev.code == KeyCode::Esc,
    ensures
        !new_t.inserting,
        new_t.query@ == old_t.query@,
        new_t.state == old_t.state,
        new_p == old_p,
        r.commands@ == Seq::<Command>::empty(),
        r.consumed,
{
}

impl Tab for LikesTab {
    /// Up and Down move the selection, `=` and `+` queue the selected liked
    /// song next or last, `?` shuffles the liked songs into the queue, `r`
    /// fetches them again.
    fn handle_input(
        &mut self,
        event: &Event,
        provider: &mut Provider,
        progress: &PlaybackProgress,
    ) -> (r: Reaction)
        ensures
            likes_input(*old(self), *final(self), *old(provider), *final(provider), *progress, *event, r),
    {
        if let Event::Key(ev) = event {
            if ev.code == KeyCode::Up || ev.code == KeyCode::Down || ev.code == KeyCode::Char('=')
                || ev.code == KeyCode::Char('+') {
                let likes = provider.likes();
                return song_list_handle(ev, &likes, &mut self.state, provider);
            } else if ev.code == KeyCode::Char('?') {
                let commands = provider.shuffle_liked();
                return Reaction { consumed: false, commands };
            } else if ev.code == KeyCode::Char('r') {
                let commands = provider.refresh_likes();
                return Reaction { consumed: false, commands };
            }
        }
        ignored()
    }
}

/// The search tab: a query line and the songs found.
pub struct SearchTab {
    pub query: String,
    pub state: TableSelection,
    pub inserting: bool,
}

impl SearchTab {
    /// An empty query, not being typed, nothing selected.
    pub fn new() -> (r: Self)
        ensures
            r.query@ == Seq::<char>::empty(),
            r.state.selected is None,
            r.state.scroll_position == 0,
            !r.inserting,
    {
        SearchTab { query: String::new(), state: TableSelection::new(), inserting: false }
    }
}

/// What the PlayingTab does with `event`.
pub open spec fn playing_input(
    old_t: PlayingTab,
    new_t: PlayingTab,
    old_p: Provider,
    new_p: Provider,
    progress: PlaybackProgress,
    event: Event,
    r: Reaction,
) -> bool {
    &&& !r.consumed
    &&& match event {
            Event::Key(ev) => {
                let idx = selected_or_first(old_t.selected);
                if ev.code == KeyCode::Char('s') {
                    &&& shuffle_liked_post(old_p, new_p, r.commands@)
                    &&& new_t == old_t
                } else {
                    &&& r.commands@ == Seq::<Command>::empty()
                    &&& match ev.code {
                        KeyCode::Up => {
                            &&& new_t.selected == Some(sat_sub(idx, magnitude(ev)) as usize)
                            &&& new_p == old_p
                        },
                        KeyCode::Down => {
                            &&& new_t.selected == Some(sat_add(idx, magnitude(ev)) as usize)
                            &&& new_p == old_p
                        },
                        KeyCode::Esc => {
                            &&& new_t.selected is None
                            &&& new_p == old_p
                        },
                        KeyCode::Backspace => {
                            &&& new_t == old_t
                            &&& dequeue_post(old_p, new_p, idx)
                        },
                        KeyCode::Enter => {
                            &&& new_t == old_t
                            &&& if idx < old_p.queue.items().len() {
                                move_to_next_post(old_p, new_p, idx)
                            } else {
                                new_p == old_p
                            }
                        },
                        _ => {
                            &&& new_t == old_t
                            &&& new_p == old_p
                        },
                    }
                }
            },
            Event::Other => {
                &&& r.commands@ == Seq::<Command>::empty()
                &&& new_p == old_p
                &&& new_t == old_t
            }
    }
}

impl Tab for SearchTab {
    /// While typing, every key goes to the query: characters are added,
    /// Backspace removes the last one, Enter runs the search and Esc stops
    /// typing. Otherwise Up and Down move the selection, `=` and `+` queue
    /// the selected result next or last, and Esc starts typing.
    fn handle_input(
        &mut self,
        event: &Event,
        provider: &mut Provider,
        progress: &PlaybackProgress,
    ) -> (r: Reaction)
        ensures
            search_input(*old(self), *final(self), *old(provider), *final(provider), *progress, *event, r),
    {
        if let Event::Key(ev) = event {
            if self.inserting {
                let mut commands: Vec<Command> = Vec::new();
                match ev.code {
                    KeyCode::Esc => self.inserting = false,
                    KeyCode::Char(c) => push_char(&mut self.query, c),
                    KeyCode::Backspace => {
                        pop_char(&mut self.query);
                    },
                    KeyCode::Enter => {
                        commands = provider.search(self.query.clone());
                        self.inserting = false;
                    },
                    _ => {},
                }
                return Reaction { consumed: true, commands };
            } else {
                if ev.code == KeyCode::Up || ev.code == KeyCode::Down || ev.code == KeyCode::Char(
                    '=',
                ) || ev.code == KeyCode::Char('+') {
                    let results = provider.search_results();
                    return song_list_handle(ev, &results, &mut self.state, provider);
                } else if ev.code == KeyCode::Esc {
                    self.inserting = true;
                }
                return ignored();
            }
        }
        ignored()
    }
}

/// `new` is `old` after the queue entry at `idx` was taken out and put back
/// right after the cursor.
pub open spec fn move_to_next_post(old: Provider, new: Provider, idx: nat) -> bool {
    let pos = position_after_remove(old.queue.items().len(), old.queue.position(), idx);
    &&& idx < old.queue.items().len()
    &&& new.queue.items() == inserted(
        removed(old.queue.items(), idx),
        pos + 1,
        old.queue.items()[idx as int],
    )
    &&& new.queue.position() == pos
    &&& same_lists(old, new)
}

/// Moving an entry other than the one being played to play next keeps the
/// song being played, and the moved entry comes right after it.
pub proof fn lemma_move_to_next_keeps_current(items: Seq<Song>, index: nat, idx: nat)
    requires
        idx < items.len(),
        index < items.len(),
        idx != index,
    ensures
        ({
            let p = position_after_remove(items.len(), index, idx);
            let moved = inserted(removed(items, idx), p + 1, items[idx as int]);
            &&& entry_at(moved, p) == entry_at(items, index)
            &&& entry_at(moved, p + 1) == Some(items[idx as int])
        }),
{
    let p = position_after_remove(items.len(), index, idx);
    crate::atomic::lemma_remove_keeps_current(items, index, idx);
    crate::atomic::lemma_insert_keeps_current(removed(items, idx), p, p + 1, items[idx as int]);
}

/// The tab of the song being played and the queue around it.
pub struct PlayingTab {
    pub selected: Option<usize>,
}

impl PlayingTab {
    /// Nothing selected in the queue.
    pub fn new() -> (r: Self)
        ensures
            r.selected is None,
    {
        PlayingTab { selected: None }
    }
}

impl Tab for PlayingTab {
    /// `s` shuffles the liked songs into the queue; Up and Down move the
    /// selection in the queue and Esc clears it; Backspace removes the
    /// selected entry; Enter moves it to play next.
    fn handle_input(
        &mut self,
        event: &Event,
        provider: &mut Provider,
        progress: &PlaybackProgress,
    ) -> (r: Reaction)
        ensures
            playing_input(*old(self), *final(self), *old(provider), *final(provider), *progress, *event, r),
    {
        if let Event::Key(ev) = event {
            let modifier = modifier_magnitude(ev);
            let idx: usize = match self.selected {
                Some(i) => i,
                None => 0,
            };
            if ev.code == KeyCode::Char('s') {
                let commands = provider.shuffle_liked();
                return Reaction { consumed: false, commands };
            }
            match ev.code {
                KeyCode::Up => self.selected = Some(idx.saturating_sub(modifier)),
                KeyCode::Down => self.selected = Some(idx.saturating_add(modifier)),
                KeyCode::Backspace => {
                    provider.dequeue(idx);
                },
                KeyCode::Esc => self.selected = None,
                KeyCode::Enter => {
                    if let Some(s) = provider.get_at(idx) {
                        provider.dequeue(idx);
                        provider.enqueue_next(s);
                    }
                },
                _ => {},
            }
        }
        ignored()
    }
}

} // verus!
