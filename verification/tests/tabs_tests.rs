use navrs::app::App;
use navrs::library::{albums_by_year, songs_by_track, Area, LibraryTab};
use navrs::model::{Artist, Song};
use navrs::player::PlaybackProgress;
use navrs::provider::{Command, Provider};
use navrs::ui::{modifier_magnitude, AppTabs, Event, KeyCode, KeyEvent, LikesTab, LogsTab, PlayingTab, SearchTab, Tab};
use navrs::worker::Op;

fn song(id: &str) -> Song {
    Song {
        id: id.to_string(),
        title: format!("title {id}"),
        name: format!("name {id}"),
        album: None,
        artist: None,
        album_id: None,
        artist_id: None,
        track: None,
        year: None,
        duration: None,
        play_count: None,
        content_type: None,
    }
}

fn key(code: KeyCode) -> Event {
    Event::Key(KeyEvent { code, shift: false, alt: false })
}

fn ids(v: &[Song]) -> Vec<String> {
    v.iter().map(|s| s.id.clone()).collect()
}

const STILL: PlaybackProgress = PlaybackProgress { head: 0, len: 100 };

#[test]
fn tab_order_and_titles() {
    let mut t = AppTabs::Playing;
    let mut seen = vec![];
    for _ in 0..5 {
        seen.push(t.idx());
        t = t.next();
    }
    assert_eq!(seen, vec![0, 1, 2, 3, 4]);
    assert_eq!(t, AppTabs::Playing);
    assert_eq!(AppTabs::titles(), ["playing", "likes", "search", "library", "logs"]);
    assert_eq!(AppTabs::Logs.next(), AppTabs::Playing);
}

#[test]
fn magnitudes() {
    assert_eq!(modifier_magnitude(&KeyEvent { code: KeyCode::Up, shift: false, alt: false }), 1);
    assert_eq!(modifier_magnitude(&KeyEvent { code: KeyCode::Up, shift: true, alt: true }), 5);
    assert_eq!(modifier_magnitude(&KeyEvent { code: KeyCode::Up, shift: false, alt: true }), 25);
}

#[test]
fn logs_tab_scrolls() {
    let mut t = LogsTab::new();
    let mut p = Provider::new();
    let shift_down = Event::Key(KeyEvent { code: KeyCode::Down, shift: true, alt: false });
    let r = t.handle_input(&shift_down, &mut p, &STILL);
    assert!(!r.consumed);
    assert_eq!(t.scroll, 5);
    t.handle_input(&key(KeyCode::Up), &mut p, &STILL);
    assert_eq!(t.scroll, 4);
    assert_eq!(t.scroll_position, 4);
    t.handle_input(&Event::Key(KeyEvent { code: KeyCode::Up, shift: false, alt: true }), &mut p, &STILL);
    assert_eq!(t.scroll, 0);
    t.scroll = usize::MAX;
    t.handle_input(&key(KeyCode::Down), &mut p, &STILL);
    assert_eq!(t.scroll, usize::MAX);
    assert_eq!(t.scroll_position, usize::MAX);
    t.handle_input(&key(KeyCode::Esc), &mut p, &STILL);
    assert_eq!((t.scroll, t.scroll_position), (0, 0));
}

#[test]
fn likes_tab_queues_and_shuffles() {
    let mut t = LikesTab::new();
    let mut p = Provider::new();
    p.likes.set(vec![song("a"), song("b")]);
    t.handle_input(&key(KeyCode::Down), &mut p, &STILL);
    assert_eq!(t.state.selected, Some(1));
    assert_eq!(t.state.scroll_position, 0);
    t.handle_input(&key(KeyCode::Char('+')), &mut p, &STILL);
    assert_eq!(ids(&p.view()), vec!["b"]);
    t.handle_input(&key(KeyCode::Up), &mut p, &STILL);
    t.handle_input(&key(KeyCode::Char('=')), &mut p, &STILL);
    assert_eq!(ids(&p.view()), vec!["b", "a"]);
    let r = t.handle_input(&key(KeyCode::Char('r')), &mut p, &STILL);
    assert_eq!(r.commands, vec![Command::Send(Op::RefreshLikes)]);
    let r = t.handle_input(&key(KeyCode::Char('?')), &mut p, &STILL);
    assert_eq!(r.commands.len(), 2);
    let mut q = ids(&p.view());
    q.sort();
    assert_eq!(q, vec!["a", "b"]);
}

#[test]
fn search_tab_typing_and_results() {
    let mut t = SearchTab::new();
    let mut p = Provider::new();
    let r = t.handle_input(&key(KeyCode::Esc), &mut p, &STILL);
    assert!(!r.consumed);
    assert!(t.inserting);
    for c in ['a', 'b', 'q'] {
        let r = t.handle_input(&key(KeyCode::Char(c)), &mut p, &STILL);
        assert!(r.consumed);
    }
    t.handle_input(&key(KeyCode::Backspace), &mut p, &STILL);
    assert_eq!(t.query, "ab");
    let r = t.handle_input(&key(KeyCode::Enter), &mut p, &STILL);
    assert!(r.consumed);
    assert_eq!(r.commands, vec![Command::Send(Op::Search("ab".to_string()))]);
    assert!(!t.inserting);
    p.search.set(vec![song("r1")]);
    t.handle_input(&key(KeyCode::Char('+')), &mut p, &STILL);
    assert_eq!(ids(&p.view()), vec!["r1"]);
    let mut empty = SearchTab::new();
    empty.inserting = true;
    empty.handle_input(&key(KeyCode::Backspace), &mut p, &STILL);
    assert_eq!(empty.query, "");
}

#[test]
fn playing_tab_moves_entry_to_next() {
    let mut t = PlayingTab::new();
    let mut p = Provider::new();
    p.reset(vec![song("a"), song("b"), song("c")]);
    t.handle_input(&key(KeyCode::Down), &mut p, &STILL);
    t.handle_input(&key(KeyCode::Down), &mut p, &STILL);
    assert_eq!(t.selected, Some(2));
    t.handle_input(&key(KeyCode::Enter), &mut p, &STILL);
    assert_eq!(ids(&p.view()), vec!["a", "c", "b"]);
    assert_eq!(p.current(), Some(song("a")));
    t.handle_input(&key(KeyCode::Backspace), &mut p, &STILL);
    assert_eq!(ids(&p.view()), vec!["a", "c"]);
    t.handle_input(&key(KeyCode::Esc), &mut p, &STILL);
    assert_eq!(t.selected, None);
}

fn album(id: &str, artist: &str, year: Option<i32>) -> Song {
    let mut s = song(id);
    s.artist_id = Some(artist.to_string());
    s.year = year;
    s
}

fn track(id: &str, album: &str, n: Option<i32>) -> Song {
    let mut s = song(id);
    s.album_id = Some(album.to_string());
    s.track = n;
    s
}

#[test]
fn albums_sorted_by_year_stably() {
    let albums = vec![
        album("x", "art", Some(2001)),
        album("y", "other", Some(1990)),
        album("z", "art", None),
        album("w", "art", Some(1999)),
        album("v", "art", Some(2001)),
    ];
    let r = albums_by_year(&albums, &"art".to_string());
    assert_eq!(ids(&r), vec!["z", "w", "x", "v"]);
}

#[test]
fn songs_sorted_by_track() {
    let songs = vec![track("s3", "al", Some(3)), track("s1", "al", Some(1)), track("o", "zz", Some(0)), track("s2", "al", Some(2))];
    let r = songs_by_track(&songs, &"al".to_string());
    assert_eq!(ids(&r), vec!["s1", "s2", "s3"]);
}

#[test]
fn library_tab_browses_and_plays() {
    let mut t = LibraryTab::new();
    let mut p = Provider::new();
    p.artists.set(vec![Artist { id: "art".to_string(), name: "Artist".to_string() }]);
    p.albums.set(vec![album("al", "art", Some(2000))]);
    p.songs.set(vec![track("s2", "al", Some(2)), track("s1", "al", Some(1))]);
    t.handle_input(&key(KeyCode::Enter), &mut p, &STILL);
    assert_eq!(t.selected, Area::Albums);
    assert_eq!(ids(&t.cached_albums), vec!["al"]);
    t.handle_input(&key(KeyCode::Enter), &mut p, &STILL);
    assert_eq!(t.selected, Area::Songs);
    assert_eq!(ids(&t.cached_songs), vec!["s1", "s2"]);
    t.handle_input(&key(KeyCode::Enter), &mut p, &STILL);
    assert!(p.view().is_empty());
    t.handle_input(&key(KeyCode::Down), &mut p, &STILL);
    assert_eq!(t.state.songs, Some(1));
    let r = t.handle_input(&key(KeyCode::Enter), &mut p, &STILL);
    assert_eq!(ids(&p.view()), vec!["s2"]);
    assert!(r.commands.is_empty());
    t.handle_input(&key(KeyCode::Up), &mut p, &STILL);
    let r = t.handle_input(&key(KeyCode::Enter), &mut p, &STILL);
    assert_eq!(ids(&p.view()), vec!["s2", "s1"]);
    assert_eq!(p.index(), 1);
    assert_eq!(r.commands.last(), Some(&Command::Notify(track("s1", "al", Some(1)))));
    t.handle_input(&key(KeyCode::Esc), &mut p, &STILL);
    assert_eq!(t.selected, Area::Albums);
    assert_eq!(t.state.songs, None);
    t.handle_input(&key(KeyCode::Down), &mut p, &STILL);
    t.handle_input(&key(KeyCode::Up), &mut p, &STILL);
    let r = t.handle_input(&key(KeyCode::Char('=')), &mut p, &STILL);
    assert_eq!(ids(&p.view()), vec!["s1", "s2"]);
    assert_eq!(
        r.commands,
        vec![
            Command::Send(Op::UpdateMPRIS),
            Command::PlayCached("s1".to_string()),
            Command::Send(Op::UpdateMPRIS),
            Command::PlayCached("s1".to_string()),
        ]
    );
    t.handle_input(&key(KeyCode::Esc), &mut p, &STILL);
    assert_eq!(t.selected, Area::Artists);
    t.handle_input(&key(KeyCode::Esc), &mut p, &STILL);
    assert_eq!(t.selected, Area::Artists);
}

#[test]
fn app_global_keys() {
    let mut app = App::new();
    let mut p = Provider::new();
    p.reset(vec![song("a"), song("b")]);
    let r = app.handle_event(&key(KeyCode::Char('3')), &mut p, &STILL);
    assert!(!r.quit);
    assert_eq!(app.tab, AppTabs::Search);
    app.handle_event(&key(KeyCode::Tab), &mut p, &STILL);
    assert_eq!(app.tab, AppTabs::Library);
    let r = app.handle_event(&key(KeyCode::Char(' ')), &mut p, &STILL);
    assert_eq!(r.commands, vec![Command::TogglePause]);
    let r = app.handle_event(&Event::Key(KeyEvent { code: KeyCode::Left, shift: true, alt: false }), &mut p, &STILL);
    assert_eq!(r.commands, vec![Command::Skip(-5)]);
    let r = app.handle_event(&key(KeyCode::Right), &mut p, &STILL);
    assert_eq!(r.commands, vec![Command::Skip(1)]);
    let r = app.handle_event(&key(KeyCode::Char('n')), &mut p, &STILL);
    assert_eq!(p.index(), 1);
    assert_eq!(r.commands.len(), 3);
    app.handle_event(&key(KeyCode::Char('b')), &mut p, &STILL);
    assert_eq!(p.index(), 0);
    let r = app.handle_event(&key(KeyCode::Char('q')), &mut p, &STILL);
    assert!(r.quit);
}

#[test]
fn app_search_typing_keeps_global_keys_away() {
    let mut app = App::new();
    let mut p = Provider::new();
    app.handle_event(&key(KeyCode::Char('3')), &mut p, &STILL);
    app.handle_event(&key(KeyCode::Esc), &mut p, &STILL);
    let r = app.handle_event(&key(KeyCode::Char('q')), &mut p, &STILL);
    assert!(!r.quit);
    assert_eq!(app.search_tab.query, "q");
}

#[test]
fn app_tick_moves_on_at_song_end() {
    let mut app = App::new();
    let mut p = Provider::new();
    p.reset(vec![song("a"), song("b")]);
    let r = app.tick(&mut p, &PlaybackProgress { head: 10, len: 100 });
    assert!(r.is_empty());
    assert!(app.flip_flop);
    let r = app.tick(&mut p, &PlaybackProgress { head: 100, len: 100 });
    assert_eq!(p.index(), 1);
    assert_eq!(r[0], Command::Send(Op::Scrobble("a".to_string())));
    assert!(!app.flip_flop);
}

#[test]
fn app_restart_and_digit_keys() {
    let mut app = App::new();
    let mut p = Provider::new();
    let r = app.handle_event(&key(KeyCode::Char('r')), &mut p, &STILL);
    assert_eq!(r.commands, vec![Command::RestartPlayer]);
    assert!(!r.quit);
    app.handle_event(&key(KeyCode::Char('5')), &mut p, &STILL);
    assert_eq!(app.tab, AppTabs::Logs);
    app.handle_event(&key(KeyCode::Char('1')), &mut p, &STILL);
    assert_eq!(app.tab, AppTabs::Playing);
    let r = app.handle_event(&Event::Other, &mut p, &STILL);
    assert!(r.commands.is_empty());
    assert!(!r.quit);
}
