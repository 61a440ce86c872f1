//! What the player reports to desktop media controls (MPRIS).

use vstd::prelude::*;
use crate::model::Song;
use crate::screen::{or_text, text_or};

verus! {

/// The description of a track for the media controls.
pub struct TrackInfo {
    pub title: String,
    pub artists: Vec<String>,
    pub album: String,
    pub length_secs: i64,
}

/// A song's length in seconds, zero when unknown.
pub open spec fn length_of(s: Song) -> int {
    match s.duration {
        Some(d) => d as int,
        None => 0,
    }
}

/// The length of `s` in seconds.
fn song_length_secs(s: &Song) -> (r: i64)
    ensures
        r == length_of(*s),
{
    match s.duration {
        Some(d) => d as i64,
        None => 0,
    }
}

/// The track description answered when the media controls ask for the
/// metadata: title, a single artist (empty when unknown), album (empty when
/// unknown) and length.
pub fn metadata_for(s: &Song) -> (r: TrackInfo)
    ensures
        r.title@ == s.title@,
        r.artists@.len() == 1,
        r.artists@[0]@ == or_text(s.artist, Seq::empty()),
        r.album@ == or_text(s.album, Seq::empty()),
        r.length_secs == length_of(*s),
{
    proof { reveal_strlit(""); }
    let mut artists: Vec<String> = Vec::new();
    artists.push(text_or(&s.artist, ""));
    TrackInfo {
        title: s.title.clone(),
        artists,
        album: text_or(&s.album, ""),
        length_secs: song_length_secs(s),
    }
}

/// What the worker pushes to the media controls: whether the player plays,
/// and the track under the cursor if there is one.
pub struct MprisUpdate {
    pub playing: bool,
    pub track: Option<TrackInfo>,
}

/// The update pushed to the media controls for a player that is `paused`
/// or not, on song `current`. The artist list is empty when the artist is
/// unknown.
pub fn mpris_update(paused: bool, current: &Option<Song>) -> (r: MprisUpdate)
    ensures
        r.playing == !paused,
        r.track is Some <==> current is Some,
        *current matches Some(s) ==> {
            let t = r.track->0;
            &&& t.title@ == s.title@
            &&& t.album@ == or_text(s.album, Seq::empty())
            &&& t.length_secs == length_of(s)
            &&& match s.artist {
                Some(a) => t.artists@.len() == 1 && t.artists@[0]@ == a@,
                None => t.artists@.len() == 0,
            }
        },
{
    proof { reveal_strlit(""); }
    let track = match current {
        Some(s) => {
            let mut artists: Vec<String> = Vec::new();
            if let Some(a) = &s.artist {
                artists.push(a.clone());
            }
            Some(
                TrackInfo {
                    title: s.title.clone(),
                    artists,
                    album: text_or(&s.album, ""),
                    length_secs: song_length_secs(s),
                },
            )
        },
        None => None,
    };
    MprisUpdate { playing: !paused, track }
}

} // verus!
