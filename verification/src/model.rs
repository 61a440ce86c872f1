//! The records the player handles: songs, albums and artists as the server
//! describes them, reduced to the fields the player reads.

use vstd::prelude::*;

verus! {

/// The server's identifier of a song, album or artist.
pub type Id = String;

/// A song (or, for albums, a directory entry) as listed by the server.
#[derive(Debug, PartialEq)]
pub struct Song {
    pub id: String,
    pub title: String,
    pub name: String,
    pub album: Option<String>,
    pub artist: Option<String>,
    pub album_id: Option<String>,
    pub artist_id: Option<String>,
    pub track: Option<i32>,
    pub year: Option<i32>,
    pub duration: Option<i32>,
    pub play_count: Option<i64>,
    pub content_type: Option<String>,
}

/// Albums are listed by the server as directory entries, like songs.
pub type Album = Song;

/// An artist as listed by the server.
#[derive(Debug, PartialEq)]
pub struct Artist {
    pub id: String,
    pub name: String,
}

/// An exact copy of an optional text.
pub fn copy_text(o: &Option<String>) -> (r: Option<String>)
    ensures
        r == *o,
{
    match o {
        Some(s) => Some(s.clone()),
        None => None,
    }
}

impl Clone for Song {
    fn clone(&self) -> (r: Self)
        ensures
            r == *self,
    {
        Song {
            id: self.id.clone(),
            title: self.title.clone(),
            name: self.name.clone(),
            album: copy_text(&self.album),
            artist: copy_text(&self.artist),
            album_id: copy_text(&self.album_id),
            artist_id: copy_text(&self.artist_id),
            track: self.track,
            year: self.year,
            duration: self.duration,
            play_count: self.play_count,
            content_type: copy_text(&self.content_type),
        }
    }
}

impl Clone for Artist {
    fn clone(&self) -> (r: Self)
        ensures
            r == *self,
    {
        Artist { id: self.id.clone(), name: self.name.clone() }
    }
}

/// Copies of songs are the songs themselves.
pub broadcast proof fn lemma_song_clone_exact(a: Song, b: Song)
    requires
        #[trigger] cloned(a, b),
    ensures
        a == b,
{
}

/// An exact copy of a list of songs.
pub fn copy_songs(v: &Vec<Song>) -> (r: Vec<Song>)
    ensures
        r@ == v@,
{
    broadcast use lemma_song_clone_exact;
    let r = v.clone();
    assert(r@ =~= v@);
    r
}

} // verus!
