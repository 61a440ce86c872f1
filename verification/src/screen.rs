//! The text the screen shows: table rows, list lines, the song card, the
//! play bar and the title colour.

use vstd::prelude::*;
use crate::model::{Album, Song};
use crate::text::{decimal, decimal_i64, decimal_i64_width2, decimal_width2, format_minutes_seconds, minutes_seconds};

verus! {

/// `o`'s text, or `d` when there is none.
pub open spec fn or_text(o: Option<String>, d: Seq<char>) -> Seq<char> {
    match o {
        Some(s) => s@,
        None => d,
    }
}

/// `o`'s number, or zero when there is none.
pub open spec fn or_zero(o: Option<i32>) -> int {
    match o {
        Some(x) => x as int,
        None => 0,
    }
}

/// A copy of `o`'s text, or `d` when there is none.
pub fn text_or(o: &Option<String>, d: &str) -> (r: String)
    ensures
        r@ == or_text(*o, d@),
{
    match o {
        Some(s) => s.clone(),
        None => String::from_str(d),
    }
}

/// The line of a song in the queue: `title - artist (album)`.
pub open spec fn queue_line_text(s: Song) -> Seq<char> {
    s.title@ + " - "@ + or_text(s.artist, Seq::empty()) + " ("@ + or_text(s.album, Seq::empty()) + ")"@
}

/// The line of a song in the queue.
pub fn queue_line(s: &Song) -> (r: String)
    ensures
        r@ == queue_line_text(*s),
{
    let artist = text_or(&s.artist, "");
    let album = text_or(&s.album, "");
    let mut r = s.title.clone();
    r.append(" - ");
    r.append(artist.as_str());
    r.append(" (");
    r.append(album.as_str());
    r.append(")");
    proof {
        reveal_strlit("");
    }
    assert(r@ =~= queue_line_text(*s));
    r
}

/// The song card: title, artist, album, a blank line, track and year, and
/// the file type.
pub open spec fn song_card_text(s: Song) -> Seq<Seq<char>> {
    seq![
        s.title@,
        or_text(s.artist, "?"@),
        or_text(s.album, "?"@),
        Seq::<char>::empty(),
        "#"@ + decimal(or_zero(s.track)) + " - "@ + decimal(or_zero(s.year)),
        or_text(s.content_type, Seq::empty()),
    ]
}

/// The lines of the song card, or none without a song.
pub fn song_card(song: &Option<Song>) -> (r: Vec<String>)
    ensures
        r@.map_values(|l: String| l@) == match *song {
            Some(s) => song_card_text(s),
            None => Seq::<Seq<char>>::empty(),
        },
{
    let mut r: Vec<String> = Vec::new();
    if let Some(s) = song {
        r.push(s.title.clone());
        r.push(text_or(&s.artist, "?"));
        r.push(text_or(&s.album, "?"));
        r.push(String::new());
        let track: i64 = match s.track {
            Some(t) => t as i64,
            None => 0,
        };
        let year: i64 = match s.year {
            Some(y) => y as i64,
            None => 0,
        };
        let mut line = String::from_str("#");
        let t = decimal_i64(track);
        line.append(t.as_str());
        line.append(" - ");
        let y = decimal_i64(year);
        line.append(y.as_str());
        proof {
            reveal_strlit("#");
            reveal_strlit(" - ");
        }
        assert(line@ =~= "#"@ + decimal(or_zero(s.track)) + " - "@ + decimal(or_zero(s.year)));
        r.push(line);
        r.push(text_or(&s.content_type, ""));
        proof {
            reveal_strlit("");
            reveal_strlit("#");
            reveal_strlit(" - ");
        }
        assert(r@.map_values(|l: String| l@)[0] == song_card_text(*s)[0]);
        assert(r@.map_values(|l: String| l@)[1] == song_card_text(*s)[1]);
        assert(r@.map_values(|l: String| l@)[2] == song_card_text(*s)[2]);
        assert(r@.map_values(|l: String| l@)[3] == song_card_text(*s)[3]);
        assert(r@.map_values(|l: String| l@)[4] == song_card_text(*s)[4]);
        assert(r@.map_values(|l: String| l@)[5] == song_card_text(*s)[5]);
        assert(r@.map_values(|l: String| l@) =~= song_card_text(*s));
    } else {
        assert(r@.map_values(|l: String| l@) =~= Seq::<Seq<char>>::empty());
    }
    r
}

/// The line of an album in the library: `year - name`.
pub open spec fn album_label_text(a: Album) -> Seq<char> {
    decimal(or_zero(a.year)) + " - "@ + a.name@
}

/// The line of an album in the library.
pub fn album_label(a: &Album) -> (r: String)
    ensures
        r@ == album_label_text(*a),
{
    let year: i64 = match a.year {
        Some(y) => y as i64,
        None => 0,
    };
    let mut r = decimal_i64(year);
    r.append(" - ");
    r.append(a.name.as_str());
    proof { reveal_strlit(" - "); }
    assert(r@ =~= album_label_text(*a));
    r
}

/// The line of a song in an album: `#track title`, the track on two
/// digits.
pub open spec fn track_label_text(s: Song) -> Seq<char> {
    "#"@ + decimal_width2(or_zero(s.track)) + " "@ + s.title@
}

/// The line of a song in an album.
pub fn track_label(s: &Song) -> (r: String)
    ensures
        r@ == track_label_text(*s),
{
    let track: i64 = match s.track {
        Some(t) => t as i64,
        None => 0,
    };
    let mut r = String::from_str("#");
    let t = decimal_i64_width2(track);
    r.append(t.as_str());
    r.append(" ");
    r.append(s.title.as_str());
    proof {
        reveal_strlit("#");
        reveal_strlit(" ");
    }
    assert(r@ =~= track_label_text(*s));
    r
}

/// The cells of a liked song: title, artist, album and play count.
pub open spec fn likes_row_text(s: Song) -> Seq<Seq<char>> {
    seq![
        s.title@,
        or_text(s.artist, Seq::empty()),
        or_text(s.album, Seq::empty()),
        decimal(match s.play_count {
            Some(n) => n as int,
            None => 0,
        }),
    ]
}

/// The cells of a liked song in the likes table.
pub fn likes_row(s: &Song) -> (r: Vec<String>)
    ensures
        r@.map_values(|c: String| c@) == likes_row_text(*s),
{
    let count: i64 = match s.play_count {
        Some(n) => n,
        None => 0,
    };
    let mut r: Vec<String> = Vec::new();
    r.push(s.title.clone());
    r.push(text_or(&s.artist, ""));
    r.push(text_or(&s.album, ""));
    r.push(decimal_i64(count));
    proof { reveal_strlit(""); }
    assert(r@.map_values(|c: String| c@)[1] == likes_row_text(*s)[1]);
    assert(r@.map_values(|c: String| c@)[2] == likes_row_text(*s)[2]);
    assert(r@.map_values(|c: String| c@) =~= likes_row_text(*s));
    r
}

/// The headings of the likes table.
pub open spec fn likes_header_text() -> Seq<Seq<char>> {
    seq!["TITLE"@, "ARTIST"@, "ALBUM"@, "PLAY COUNT"@]
}

/// The headings of a song table.
pub open spec fn song_header_text() -> Seq<Seq<char>> {
    seq!["TITLE"@, "ARTIST"@, "ALBUM"@]
}

/// The cells of a song in a song table: title, artist and album.
pub open spec fn song_row_text(s: Song) -> Seq<Seq<char>> {
    seq![s.title@, or_text(s.artist, Seq::empty()), or_text(s.album, Seq::empty())]
}

/// A song table: headings, one row per song, and the least width of each
/// column.
pub struct SongTable {
    pub header: Vec<String>,
    pub rows: Vec<Vec<String>>,
    pub widths: [u16; 3],
}

/// The cells of a song in a song table.
fn song_row(s: &Song) -> (r: Vec<String>)
    ensures
        r@.map_values(|c: String| c@) == song_row_text(*s),
{
    let mut r: Vec<String> = Vec::new();
    r.push(s.title.clone());
    r.push(text_or(&s.artist, ""));
    r.push(text_or(&s.album, ""));
    proof { reveal_strlit(""); }
    assert(r@.map_values(|c: String| c@)[1] == song_row_text(*s)[1]);
    assert(r@.map_values(|c: String| c@)[2] == song_row_text(*s)[2]);
    assert(r@.map_values(|c: String| c@) =~= song_row_text(*s));
    r
}

/// The table of `songs`: headings TITLE, ARTIST and ALBUM, a row per song,
/// and columns at least 30, 15 and 15 wide.
pub fn tabularize(songs: &Vec<Song>) -> (r: SongTable)
    ensures
        r.header@.map_values(|c: String| c@) == song_header_text(),
        r.rows@.len() == songs@.len(),
        forall|i: int| 0 <= i < songs@.len() ==> (#[trigger] r.rows@[i])@.map_values(|c: String| c@)
            == song_row_text(songs@[i]),
        r.widths@ == seq![30u16, 15u16, 15u16],
{
    let mut header: Vec<String> = Vec::new();
    header.push(String::from_str("TITLE"));
    header.push(String::from_str("ARTIST"));
    header.push(String::from_str("ALBUM"));
    assert(header@.map_values(|c: String| c@) =~= song_header_text());
    let mut rows: Vec<Vec<String>> = Vec::new();
    let mut i: usize = 0;
    while i < songs.len()
        invariant
            i <= songs@.len(),
            rows@.len() == i,
            forall|k: int| 0 <= k < i ==> (#[trigger] rows@[k])@.map_values(|c: String| c@)
                == song_row_text(songs@[k]),
        decreases songs@.len() - i,
    {
        rows.push(song_row(&songs[i]));
        i += 1;
    }
    let widths: [u16; 3] = [30, 15, 15];
    assert(widths@ =~= seq![30u16, 15u16, 15u16]);
    SongTable { header, rows, widths }
}

/// The text of the play bar.
pub struct Playbar {
    pub status: String,
    pub artist: String,
    pub album: String,
    pub title: String,
    pub elapsed: String,
    pub total: String,
    pub remaining: String,
}

/// The play bar's heading: playing or paused.
pub open spec fn playbar_status_text(paused: bool) -> Seq<char> {
    if paused { " || paused "@ } else { " |> playing "@ }
}

/// The length in seconds of `song`, zero without a song or a length.
pub open spec fn song_length(song: Option<Song>) -> int {
    match song {
        Some(s) => or_zero(s.duration),
        None => 0,
    }
}

impl Playbar {
    /// The play bar for `song` at `current_time` seconds into it: the
    /// heading, the song's artist, album and title (empty when unknown), and
    /// the elapsed, total and remaining time as `minutes.seconds`.
    pub fn new(paused: bool, song: &Option<Song>, current_time: i32) -> (r: Self)
        requires
            i32::MIN <= song_length(*song) - current_time <= i32::MAX,
        ensures
            r.status@ == playbar_status_text(paused),
            r.artist@ == match *song {
                Some(s) => or_text(s.artist, Seq::empty()),
                None => Seq::<char>::empty(),
            },
            r.album@ == match *song {
                Some(s) => or_text(s.album, Seq::empty()),
                None => Seq::<char>::empty(),
            },
            r.title@ == match *song {
                Some(s) => s.title@,
                None => Seq::<char>::empty(),
            },
            r.elapsed@ == minutes_seconds(current_time as int, seq!['.']),
            r.total@ == minutes_seconds(song_length(*song), seq!['.']),
            r.remaining@ == minutes_seconds(song_length(*song) - current_time, seq!['.']),
    {
        proof {
            reveal_strlit(" || paused ");
            reveal_strlit(" |> playing ");
            reveal_strlit(".");
            reveal_strlit("");
        }
        let status = if paused {
            String::from_str(" || paused ")
        } else {
            String::from_str(" |> playing ")
        };
        let (artist, album, title, duration) = match song {
            Some(s) => (
                text_or(&s.artist, ""),
                text_or(&s.album, ""),
                s.title.clone(),
                match s.duration {
                    Some(d) => d,
                    None => 0,
                },
            ),
            None => (String::new(), String::new(), String::new(), 0i32),
        };
        let remaining: i32 = duration - current_time;
        Playbar {
            status,
            artist,
            album,
            title,
            elapsed: format_minutes_seconds(current_time, "."),
            total: format_minutes_seconds(duration, "."),
            remaining: format_minutes_seconds(remaining, "."),
        }
    }
}

/// The colour of the title banner.
#[derive(Debug, Clone, Copy, PartialEq, Eq, Structural)]
pub enum TitleStyle {
    DarkGray,
    Red,
    RedBold,
}

/// The banner blinks between dark grey and red while a download is in
/// progress, and stays bold red otherwise.
pub fn title_style(working: bool, flip_flop: bool) -> (r: TitleStyle)
    ensures
        r == (if working {
            if flip_flop { TitleStyle::DarkGray } else { TitleStyle::Red }
        } else {
            TitleStyle::RedBold
        }),
{
    if working {
        if flip_flop { TitleStyle::DarkGray } else { TitleStyle::Red }
    } else {
        TitleStyle::RedBold
    }
}

/// The log lines, newest first.
pub fn newest_first(lines: &Vec<String>) -> (r: Vec<String>)
    ensures
        r@ == lines@.reverse(),
{
    let mut r: Vec<String> = Vec::new();
    let mut i: usize = lines.len();
    while i > 0
        invariant
            i <= lines@.len(),
            r@ == lines@.subrange(i as int, lines@.len() as int).reverse(),
        decreases i,
    {
        i -= 1;
        r.push(lines[i].clone());
        assert(r@ =~= lines@.subrange(i as int, lines@.len() as int).reverse());
    }
    assert(lines@.subrange(0, lines@.len() as int) =~= lines@);
    r
}

} // verus!
