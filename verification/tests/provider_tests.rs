use navrs::model::Song;
use navrs::player::{PlaybackProgress, PlaybackState, Player};
use navrs::provider::{Command, Provider};
use navrs::worker::Op;

fn song(id: &str) -> Song {
    Song {
        id: id.to_string(),
        title: format!("title {id}"),
        name: String::new(),
        album: None,
        artist: None,
        album_id: None,
        artist_id: None,
        track: None,
        year: None,
        duration: None,
        play_count: None,
        content_type: None,
    }
}

fn ids(v: &[Song]) -> Vec<String> {
    v.iter().map(|s| s.id.clone()).collect()
}

fn play(id: &str) -> Vec<Command> {
    vec![Command::Send(Op::UpdateMPRIS), Command::PlayCached(id.to_string())]
}

#[test]
fn go_next_plays_and_announces_next() {
    let mut p = Provider::new();
    p.reset(vec![song("a"), song("b")]);
    let early = PlaybackProgress { head: 1, len: 10 };
    let r = p.go_next(&early);
    let mut expected = play("b");
    expected.push(Command::Notify(song("b")));
    assert_eq!(r, expected);
    assert_eq!(p.index(), 1);
}

#[test]
fn go_next_scrobbles_mostly_played_song() {
    let mut p = Provider::new();
    p.reset(vec![song("a")]);
    let late = PlaybackProgress { head: 8, len: 10 };
    let r = p.go_next(&late);
    assert_eq!(r, vec![Command::Send(Op::Scrobble("a".to_string())), Command::ClearPlayer]);
    let exact = PlaybackProgress { head: 75, len: 100 };
    p.queue.set_index(0);
    let r = p.go_next(&exact);
    assert_eq!(r, vec![Command::ClearPlayer]);
}

#[test]
fn go_previous_steps_back_or_restarts() {
    let mut p = Provider::new();
    p.reset(vec![song("a"), song("b")]);
    p.queue.set_index(1);
    let start = PlaybackProgress { head: 0, len: 1000 };
    let r = p.go_previous(&start);
    let mut expected = play("a");
    expected.push(Command::Notify(song("a")));
    assert_eq!(r, expected);
    assert_eq!(p.index(), 0);
    let r = p.go_previous(&start);
    assert_eq!(r, vec![]);
    assert_eq!(p.index(), 0);
    let later = PlaybackProgress { head: 10, len: 1000 };
    let r = p.go_previous(&later);
    assert_eq!(r, vec![Command::RestartPlayer]);
    assert_eq!(p.index(), 0);
}

#[test]
fn next_then_previous_returns() {
    let mut p = Provider::new();
    p.reset(vec![song("a"), song("b"), song("c")]);
    p.queue.set_index(1);
    p.go_next(&PlaybackProgress { head: 0, len: 10 });
    p.go_previous(&PlaybackProgress { head: 0, len: 10 });
    assert_eq!(p.index(), 1);
    assert_eq!(p.current(), Some(song("b")));
}

#[test]
fn reset_plays_first_or_clears() {
    let mut p = Provider::new();
    assert_eq!(p.reset(vec![song("x"), song("y")]), play("x"));
    assert_eq!(ids(&p.view()), vec!["x", "y"]);
    assert_eq!(p.reset(vec![]), vec![Command::ClearPlayer]);
    assert!(p.view().is_empty());
}

#[test]
fn shuffle_liked_keeps_the_liked_songs() {
    let mut p = Provider::new();
    p.likes.set(vec![song("1"), song("2"), song("3"), song("4")]);
    let r = p.shuffle_liked();
    let mut got = ids(&p.view());
    assert_eq!(p.index(), 0);
    assert_eq!(r, play(&got[0]));
    got.sort();
    assert_eq!(got, vec!["1", "2", "3", "4"]);
    assert_eq!(ids(&p.likes()), vec!["1", "2", "3", "4"]);
}

#[test]
fn shuffle_of_no_likes_plays_nothing() {
    let mut p = Provider::new();
    assert_eq!(p.shuffle_liked(), vec![]);
    assert!(p.view().is_empty());
}

#[test]
fn requests_to_the_worker() {
    let p = Provider::new();
    assert_eq!(p.refresh_likes(), vec![Command::Send(Op::RefreshLikes)]);
    assert_eq!(
        p.refresh_library(),
        vec![Command::Send(Op::RefreshArtists), Command::Send(Op::RefreshAlbums), Command::Send(Op::RefreshSongs)]
    );
    assert_eq!(p.search("q".to_string()), vec![Command::Send(Op::Search("q".to_string()))]);
    assert_eq!(p.scrobble("s".to_string()), vec![Command::Send(Op::Scrobble("s".to_string()))]);
    assert_eq!(p.play("z".to_string()), play("z"));
}

#[test]
fn queue_delegates() {
    let mut p = Provider::new();
    p.enqueue(song("a"));
    p.enqueue(song("b"));
    // appending to a queue whose cursor stands at its end pushes the cursor on
    assert_eq!(p.index(), 2);
    p.enqueue_next(song("n"));
    assert_eq!(ids(&p.view()), vec!["a", "b", "n"]);
    assert_eq!(p.get_at(2), Some(song("n")));
    assert_eq!(p.get_at(5), None);
    p.dequeue(0);
    assert_eq!(ids(&p.view()), vec!["b", "n"]);
    assert_eq!(p.index(), 1);
    assert_eq!(p.current(), Some(song("n")));
}

#[test]
fn progress_thresholds() {
    let p = PlaybackProgress { head: 76, len: 100 };
    assert!(p.above(3, 4));
    assert!(!PlaybackProgress { head: 75, len: 100 }.above(3, 4));
    assert!(PlaybackProgress { head: 0, len: 101 }.below(1, 100));
    assert!(!PlaybackProgress { head: 1, len: 100 }.below(1, 100));
    assert!(PlaybackProgress { head: 0, len: 0 }.finished());
    assert!(!PlaybackProgress { head: 3, len: 4 }.finished());
}

#[test]
fn playback_state_fill_and_pause() {
    let mut st: PlaybackState<u8> = PlaybackState::new();
    st.load(vec![1, 2, 3, 4]);
    assert_eq!(st.fill(2), Some(vec![1, 2]));
    st.pause();
    assert!(st.paused());
    assert_eq!(st.fill(1), None);
    st.play_pause();
    assert!(!st.paused());
    assert_eq!(st.fill(2), Some(vec![0, 0]));
    assert!(st.is_empty());
    st.restart();
    assert_eq!(st.progress().head, 0);
    st.clear();
    assert_eq!(st.progress().len, 0);
    st.resume();
    assert!(!st.paused());
}

#[test]
fn sample_rates() {
    let ranges = vec![(8000u32, 48000u32), (88200, 96000)];
    assert!(navrs::player::sample_rate_supported(&ranges, 44100));
    assert!(navrs::player::sample_rate_supported(&ranges, 96000));
    assert!(!navrs::player::sample_rate_supported(&ranges, 50000));
    assert!(!navrs::player::sample_rate_supported(&vec![], 44100));
}
