//! The application screen: which tab is shown, and how key presses that no
//! tab keeps are handled.

use vstd::prelude::*;
use crate::library::{library_input, Area, LibraryState, LibraryTab};
use crate::model::{Album, Song};
use crate::player::PlaybackProgress;
use crate::provider::{go_next_post, go_previous_post, Command, Provider};
use crate::ui::{
    likes_input, logs_input, magnitude, modifier_magnitude, playing_input, search_input, tab_after, tab_index,
    AppTabs, Event, KeyCode, KeyEvent, LikesTab, LogsTab, PlayingTab, Reaction, SearchTab, Tab,
};

verus! {

/// The state of the screen: the tab shown, the state of every tab, and the
/// blink phase of the title.
pub struct App {
    pub tab: AppTabs,
    pub playing_tab: PlayingTab,
    pub likes_tab: LikesTab,
    pub search_tab: SearchTab,
    pub library_tab: LibraryTab,
    pub logs_tab: LogsTab,
    pub flip_flop: bool,
}

/// What the screen did with an event: whether the application should quit,
/// and the work it hands out.
pub struct AppReaction {
    pub quit: bool,
    pub commands: Vec<Command>,
}

/// The tab a digit key selects.
pub open spec fn tab_for_digit(c: char) -> Option<AppTabs> {
    if c == '1' { Some(AppTabs::Playing) }
    else if c == '2' { Some(AppTabs::Likes) }
    else if c == '3' { Some(AppTabs::Search) }
    else if c == '4' { Some(AppTabs::Library) }
    else if c == '5' { Some(AppTabs::Logs) }
    else { None }
}

/// The tabs other than the one shown are left as they were.
pub open spec fn other_tabs_kept(old: App, new: App) -> bool {
    &&& (old.tab != AppTabs::Playing ==> new.playing_tab == old.playing_tab)
    &&& (old.tab != AppTabs::Likes ==> new.likes_tab == old.likes_tab)
    &&& (old.tab != AppTabs::Search ==> new.search_tab == old.search_tab)
    &&& (old.tab != AppTabs::Library ==> new.library_tab == old.library_tab)
    &&& (old.tab != AppTabs::Logs ==> new.logs_tab == old.logs_tab)
}

/// The tab states are all left as they were.
pub open spec fn tabs_kept(old: App, new: App) -> bool {
    &&& new.playing_tab == old.playing_tab
    &&& new.likes_tab == old.likes_tab
    &&& new.search_tab == old.search_tab
    &&& new.library_tab == old.library_tab
    &&& new.logs_tab == old.logs_tab
}

/// What a key that the shown tab did not keep does: `q` quits, `1` to `5`
/// pick a tab and Tab the next one, space pauses or resumes, `n` or `$`
/// moves to the next song and `b` or `^` back, `r` starts the song over,
/// Right and Left skip forward
/// and back by the key's magnitude in hundredths of the song.
pub open spec fn global_key(
    ev: KeyEvent,
    old_app: App,
    new_app: App,
    old_p: Provider,
    new_p: Provider,
    progress: PlaybackProgress,
    quit: bool,
    r: Seq<Command>,
) -> bool {
    let keep_p = new_p == old_p;
    let keep_tab = new_app.tab == old_app.tab;
    match ev.code {
        KeyCode::Char(c) => if c == 'q' {
            quit && r == Seq::<Command>::empty() && keep_p && keep_tab
        } else if tab_for_digit(c) is Some {
            !quit && r == Seq::<Command>::empty() && keep_p && new_app.tab == tab_for_digit(c)->0
        } else if c == ' ' {
            !quit && r == seq![Command::TogglePause] && keep_p && keep_tab
        } else if c == 'n' || c == '$' {
            !quit && go_next_post(old_p, new_p, progress, r) && keep_tab
        } else if c == 'b' || c == '^' {
            !quit && go_previous_post(old_p, new_p, progress, r) && keep_tab
        } else if c == 'r' {
            !quit && r == seq![Command::RestartPlayer] && keep_p && keep_tab
        } else {
            !quit && r == Seq::<Command>::empty() && keep_p && keep_tab
        },
        KeyCode::Right => !quit && r == seq![Command::Skip(magnitude(ev) as i64)] && keep_p && keep_tab,
        KeyCode::Left => !quit && r == seq![Command::Skip((-(magnitude(ev) as int)) as i64)] && keep_p && keep_tab,
        KeyCode::Tab => !quit && r == Seq::<Command>::empty() && keep_p && new_app.tab == tab_after(old_app.tab),
        _ => !quit && r == Seq::<Command>::empty() && keep_p && keep_tab,
    }
}

/// What the shown tab does with `event`; the other tabs and the choice of
/// tab stay as they were.
pub open spec fn tab_input(
    old: App,
    new: App,
    old_p: Provider,
    new_p: Provider,
    progress: PlaybackProgress,
    event: Event,
    r: Reaction,
) -> bool {
    &&& new.tab == old.tab
    &&& new.flip_flop == old.flip_flop
    &&& other_tabs_kept(old, new)
    &&& match old.tab {
        AppTabs::Playing => playing_input(old.playing_tab, new.playing_tab, old_p, new_p, progress, event, r),
        AppTabs::Likes => likes_input(old.likes_tab, new.likes_tab, old_p, new_p, progress, event, r),
        AppTabs::Search => search_input(old.search_tab, new.search_tab, old_p, new_p, progress, event, r),
        AppTabs::Library => library_input(old.library_tab, new.library_tab, old_p, new_p, progress, event, r),
        AppTabs::Logs => logs_input(old.logs_tab, new.logs_tab, old_p, new_p, progress, event, r),
    }
}

/// The digit key's tab.
fn digit_tab(c: char) -> (r: Option<AppTabs>)
    ensures
        r == tab_for_digit(c),
{
    if c == '1' { Some(AppTabs::Playing) }
    else if c == '2' { Some(AppTabs::Likes) }
    else if c == '3' { Some(AppTabs::Search) }
    else if c == '4' { Some(AppTabs::Library) }
    else if c == '5' { Some(AppTabs::Logs) }
    else { None }
}

/// A single command.
fn one(c: Command) -> (r: Vec<Command>)
    ensures
        r@ == seq![c],
{
    let mut r: Vec<Command> = Vec::new();
    r.push(c);
    r
}

/// The digit keys `1` to `5` show the tab at that place in the tab bar:
/// digit `d` shows the tab whose index is `d - 1`, whose title is the
/// `d`-th one. Nothing is handed out and the queue is left alone.
pub proof fn lemma_digit_selects_tab_at_its_place(
    ev: KeyEvent,
    c: char,
    old_app: App,
    new_app: App,
    old_p: Provider,
    new_p: Provider,
    progress: PlaybackProgress,
    quit: bool,
    r: Seq<Command>,
)
    requires
        global_key(ev, old_app, new_app, old_p, new_p, progress, quit, r),
        ev.code == KeyCode::Char(c),
        ('1' as int) <= (c as int) <= ('5' as int),
    ensures
        tab_index(new_app.tab) == (c as int) - ('1' as int),
        !quit,
        r == Seq::<Command>::empty(),
        new_p == old_p,
{
    assert('1' as int == 49 && '2' as int == 50 && '3' as int == 51 && '4' as int == 52 && '5' as int == 53);
    assert(c == '1' || c == '2' || c == '3' || c == '4' || c == '5');
}

impl App {
    /// The playing tab shown, every tab fresh, the title in its first phase.
    pub fn new() -> (r: Self)
        ensures
            r.tab == AppTabs::Playing,
            !r.flip_flop,
            r.playing_tab.selected is None,
            r.likes_tab.state.selected is None,
            r.likes_tab.state.scroll_position == 0,
            r.search_tab.query@ == Seq::<char>::empty(),
            r.search_tab.state.selected is None,
            r.search_tab.state.scroll_position == 0,
            !r.search_tab.inserting,
            r.library_tab.selected == Area::Artists,
            r.library_tab.state == (LibraryState { artists: None, albums: None, songs: None }),
            r.library_tab.cached_albums@ == Seq::<Album>::empty(),
            r.library_tab.cached_songs@ == Seq::<Song>::empty(),
            r.logs_tab.scroll == 0,
            r.logs_tab.scroll_position == 0,
    {
        App {
            playing_tab: PlayingTab::new(),
            likes_tab: LikesTab::new(),
            search_tab: SearchTab::new(),
            library_tab: LibraryTab::new(),
            logs_tab: LogsTab::new(),
            tab: AppTabs::Playing,
            flip_flop: false,
        }
    }

    /// Hands `event` to the tab shown.
    pub fn tab(&mut self, event: &Event, provider: &mut Provider, progress: &PlaybackProgress) -> (r: Reaction)
        requires
            old(provider).queue.position() < usize::MAX,
        ensures
            tab_input(*old(self), *final(self), *old(provider), *final(provider), *progress, *event, r),
            *event matches Event::Key(ev) && (ev.code == KeyCode::Char('n') || ev.code == KeyCode::Char('$'))
                ==> r.consumed || *final(provider) == *old(provider),
    {
        match self.tab {
            AppTabs::Playing => self.playing_tab.handle_input(event, provider, progress),
            AppTabs::Likes => self.likes_tab.handle_input(event, provider, progress),
            AppTabs::Search => self.search_tab.handle_input(event, provider, progress),
            AppTabs::Library => self.library_tab.handle_input(event, provider, progress),
            AppTabs::Logs => self.logs_tab.handle_input(event, provider, progress),
        }
    }

    /// Handles a key that the shown tab did not keep.
    fn global(&mut self, ev: &KeyEvent, provider: &mut Provider, progress: &PlaybackProgress) -> (r: AppReaction)
        requires
            ev.code == KeyCode::Char('n') || ev.code == KeyCode::Char('$') ==> old(provider).queue.position() < usize::MAX,
        ensures
            final(self).flip_flop == old(self).flip_flop,
            tabs_kept(*old(self), *final(self)),
            global_key(*ev, *old(self), *final(self), *old(provider), *final(provider), *progress, r.quit, r.commands@),
    {
        let modifier = modifier_magnitude(ev);
        let mut commands: Vec<Command> = Vec::new();
        match ev.code {
            KeyCode::Char(c) => {
                if c == 'q' {
                    return AppReaction { quit: true, commands };
                }
                match digit_tab(c) {
                    Some(t) => self.tab = t,
                    None => {
                        if c == ' ' {
                            commands = one(Command::TogglePause);
                        } else if c == 'n' || c == '$' {
                            commands = provider.go_next(progress);
                        } else if c == 'b' || c == '^' {
                            commands = provider.go_previous(progress);
                        } else if c == 'r' {
                            commands = one(Command::RestartPlayer);
                        }
                    },
                }
            },
            KeyCode::Right => commands = one(Command::Skip(modifier as i64)),
            KeyCode::Left => commands = one(Command::Skip(-(modifier as i64))),
            KeyCode::Tab => self.tab = self.tab.next(),
            _ => {},
        }
        AppReaction { quit: false, commands }
    }

    /// Handles a terminal event: the shown tab sees it first; a key it does
    /// not keep then goes to the global bindings, and their work follows
    /// the tab's.
    pub fn handle_event(&mut self, event: &Event, provider: &mut Provider, progress: &PlaybackProgress) -> (r: AppReaction)
        requires
            old(provider).queue.position() < usize::MAX,
        ensures
            final(self).flip_flop == old(self).flip_flop,
            other_tabs_kept(*old(self), *final(self)),
            exists|mid_app: App, mid_p: Provider, tab_r: Reaction| {
                &&& #[trigger] tab_input(*old(self), mid_app, *old(provider), mid_p, *progress, *event, tab_r)
                &&& if tab_r.consumed || !(*event is Key) {
                    &&& !r.quit
                    &&& r.commands@ == tab_r.commands@
                    &&& *final(self) == mid_app
                    &&& *final(provider) == mid_p
                } else {
                    exists|tail: Seq<Command>| {
                        &&& #[trigger] global_key(event->0, mid_app, *final(self), mid_p, *final(provider), *progress, r.quit, tail)
                        &&& r.commands@ == tab_r.commands@ + tail
                        &&& tabs_kept(mid_app, *final(self))
                        &&& final(self).flip_flop == mid_app.flip_flop
                    }
                }
            },
    {
        let tab_r = self.tab(event, provider, progress);
        let ghost mid_app = *self;
        let ghost mid_p = *provider;
        let ghost tab_r_copy = tab_r;
        let mut commands = tab_r.commands;
        if !tab_r.consumed {
            if let Event::Key(ev) = event {
                let mut g = self.global(ev, provider, progress);
                let ghost tail = g.commands@;
                commands.append(&mut g.commands);
                assert(commands@ =~= tab_r_copy.commands@ + tail);
                let r = AppReaction { quit: g.quit, commands };
                assert(global_key(event->0, mid_app, *self, mid_p, *provider, *progress, r.quit, tail));
                return r;
            }
        }
        AppReaction { quit: false, commands }
    }

    /// One turn of the main loop before drawing: the title blinks, and a
    /// song played through makes way for the next one.
    pub fn tick(&mut self, provider: &mut Provider, progress: &PlaybackProgress) -> (r: Vec<Command>)
        requires
            old(provider).queue.position() < usize::MAX,
        ensures
            final(self).flip_flop == !old(self).flip_flop,
            final(self).tab == old(self).tab,
            tabs_kept(*old(self), *final(self)),
            progress.head >= progress.len ==> go_next_post(*old(provider), *final(provider), *progress, r@),
            progress.head < progress.len ==> *final(provider) == *old(provider) && r@ == Seq::<Command>::empty(),
    {
        self.flip_flop = !self.flip_flop;
        if progress.finished() {
            provider.go_next(progress)
        } else {
            Vec::new()
        }
    }
}

} // verus!
