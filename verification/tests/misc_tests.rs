use navrs::atomic::Queue;
use navrs::logger::{all, Level, SimpleLogger};
use navrs::model::Song;
use navrs::mpris::{metadata_for, mpris_update};
use navrs::screen::{album_label, likes_row, newest_first, queue_line, song_card, tabularize, title_style, track_label, Playbar, TitleStyle};
use navrs::worker::{cache_file_path, likes_refresh_due, preload_candidate, should_start_playback, Pager};

fn song(id: &str) -> Song {
    Song {
        id: id.to_string(),
        title: format!("T{id}"),
        name: format!("N{id}"),
        album: None,
        artist: None,
        album_id: None,
        artist_id: None,
        track: None,
        year: None,
        duration: None,
        play_count: None,
        content_type: None,
    }
}

fn full(id: &str) -> Song {
    let mut s = song(id);
    s.album = Some("Alb".to_string());
    s.artist = Some("Art".to_string());
    s.track = Some(3);
    s.year = Some(1999);
    s.duration = Some(185);
    s.play_count = Some(42);
    s.content_type = Some("audio/mpeg".to_string());
    s
}

#[test]
fn logger_keeps_up_to_debug() {
    let mut l = SimpleLogger::new();
    l.log(Level::Info, "hello");
    l.log(Level::Trace, "hidden");
    l.log(Level::Error, "bad");
    l.flush();
    assert!(l.enabled(Level::Debug));
    assert!(!l.enabled(Level::Trace));
    assert_eq!(all(&l), vec!["INFO - hello".to_string(), "ERROR - bad".to_string()]);
    assert_eq!(newest_first(&all(&l)), vec!["ERROR - bad".to_string(), "INFO - hello".to_string()]);
}

#[test]
fn logger_only_appends() {
    let mut l = SimpleLogger::new();
    l.log(Level::Warn, "first");
    let earlier = all(&l);
    l.log(Level::Debug, "second");
    l.log(Level::Trace, "dropped");
    l.log(Level::Info, "third");
    let later = all(&l);
    assert_eq!(later.len(), 3);
    assert_eq!(&later[..earlier.len()], &earlier[..]);
    assert_eq!(all(&l), later);
}

#[test]
fn song_texts() {
    assert_eq!(queue_line(&full("1")), "T1 - Art (Alb)");
    assert_eq!(queue_line(&song("1")), "T1 -  ()");
    assert_eq!(song_card(&Some(full("1"))), vec!["T1", "Art", "Alb", "", "#3 - 1999", "audio/mpeg"]);
    assert_eq!(song_card(&Some(song("2"))), vec!["T2", "?", "?", "", "#0 - 0", ""]);
    assert!(song_card(&None).is_empty());
    assert_eq!(album_label(&full("1")), "1999 - N1");
    assert_eq!(track_label(&full("1")), "#03 T1");
    assert_eq!(likes_row(&full("1")), vec!["T1", "Art", "Alb", "42"]);
    assert_eq!(likes_row(&song("1")), vec!["T1", "", "", "0"]);
    let t = tabularize(&vec![full("1"), song("2")]);
    assert_eq!(t.header, vec!["TITLE", "ARTIST", "ALBUM"]);
    assert_eq!(t.rows, vec![vec!["T1".to_string(), "Art".to_string(), "Alb".to_string()], vec!["T2".to_string(), String::new(), String::new()]]);
    assert_eq!(t.widths, [30, 15, 15]);
}

#[test]
fn playbar_text() {
    let b = Playbar::new(false, &Some(full("1")), 65);
    assert_eq!(b.status, " |> playing ");
    assert_eq!((b.artist.as_str(), b.album.as_str(), b.title.as_str()), ("Art", "Alb", "T1"));
    assert_eq!((b.elapsed.as_str(), b.total.as_str(), b.remaining.as_str()), ("1.05", "3.05", "2.00"));
    let b = Playbar::new(true, &None, 0);
    assert_eq!(b.status, " || paused ");
    assert_eq!(b.total, "0.00");
}

#[test]
fn title_blinks_while_working() {
    assert_eq!(title_style(true, true), TitleStyle::DarkGray);
    assert_eq!(title_style(true, false), TitleStyle::Red);
    assert_eq!(title_style(false, true), TitleStyle::RedBold);
}

#[test]
fn mpris_texts() {
    let m = metadata_for(&song("1"));
    assert_eq!(m.artists, vec![String::new()]);
    assert_eq!(m.length_secs, 0);
    let u = mpris_update(false, &Some(song("1")));
    assert!(u.playing);
    assert!(u.track.as_ref().unwrap().artists.is_empty());
    let u = mpris_update(true, &Some(full("1")));
    assert!(!u.playing);
    let t = u.track.unwrap();
    assert_eq!((t.title.as_str(), t.album.as_str(), t.length_secs), ("T1", "Alb", 185));
    assert_eq!(t.artists, vec!["Art".to_string()]);
    assert!(mpris_update(false, &None).track.is_none());
}

#[test]
fn worker_decisions() {
    assert!(!likes_refresh_due(1000, 301_000));
    assert!(likes_refresh_due(1000, 301_001));
    assert!(!likes_refresh_due(5000, 10));
    assert_eq!(cache_file_path(&"/tmp/c".to_string(), &"id9".to_string()), "/tmp/c/id9");
    let mut q = Queue::new(vec![song("a"), song("b"), song("c"), song("d")]);
    q.set_index(1);
    let cached = vec!["b".to_string(), "c".to_string()];
    assert_eq!(preload_candidate(&q, 5, &cached), Some("d".to_string()));
    assert_eq!(preload_candidate(&q, 2, &cached), None);
    q.set_index(9);
    assert_eq!(preload_candidate(&q, 3, &cached), None);
    assert!(should_start_playback(&Some(song("a")), &"a".to_string(), true));
    assert!(!should_start_playback(&Some(song("a")), &"a".to_string(), false));
    assert!(!should_start_playback(&Some(song("a")), &"b".to_string(), true));
    assert!(!should_start_playback(&None, &"a".to_string(), true));
    let mut pg = Pager::new(50);
    assert!(pg.advance(50));
    assert!(!pg.advance(7));
    assert_eq!(pg.offset, 57);
}
