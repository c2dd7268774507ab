//! Shared music domain models, independent of any backend.

use vstd::prelude::*;

verus! {

/// One playable track.
#[derive(Debug, PartialEq, Eq)]
pub struct Track {
    pub video_id: String,
    pub title: String,
    /// Display string, artists already joined ("A / B").
    pub artists: String,
    pub album: Option<String>,
    pub duration_secs: Option<u32>,
    /// Album art, shown on the now-playing page when the terminal can.
    pub cover_url: Option<String>,
}

pub(crate) fn clone_opt_string(o: &Option<String>) -> (r: Option<String>)
    ensures
        r == *o,
{
    match o {
        Some(s) => Some(s.clone()),
        None => None,
    }
}

impl Clone for Track {
    fn clone(&self) -> (r: Self)
        ensures
            r == *self,
    {
        Track {
            video_id: self.video_id.clone(),
            title: self.title.clone(),
            artists: self.artists.clone(),
            album: clone_opt_string(&self.album),
            duration_secs: self.duration_secs,
            cover_url: clone_opt_string(&self.cover_url),
        }
    }
}


#[derive(Debug)]
pub struct AlbumSummary {
    pub id: String,
    pub title: String,
    pub artists: String,
    pub year: Option<u16>,
}

impl Clone for AlbumSummary {
    fn clone(&self) -> (r: Self)
        ensures
            r == *self,
    {
        AlbumSummary {
            id: self.id.clone(),
            title: self.title.clone(),
            artists: self.artists.clone(),
            year: self.year,
        }
    }
}

#[derive(Debug)]
pub struct ArtistSummary {
    pub id: String,
    pub name: String,
}

impl Clone for ArtistSummary {
    fn clone(&self) -> (r: Self)
        ensures
            r == *self,
    {
        ArtistSummary { id: self.id.clone(), name: self.name.clone() }
    }
}

#[derive(Debug)]
pub struct PlaylistSummary {
    pub id: String,
    pub title: String,
    pub track_count: Option<u32>,
}

impl Clone for PlaylistSummary {
    fn clone(&self) -> (r: Self)
        ensures
            r == *self,
    {
        PlaylistSummary { id: self.id.clone(), title: self.title.clone(), track_count: self.track_count }
    }
}

#[derive(Debug, Clone, Copy, PartialEq, Eq, Structural)]
pub enum SearchKind {
    Songs,
    Albums,
    Artists,
    Playlists,
}

/// The search kinds in tab order.
pub open spec fn kind_at(i: int) -> SearchKind {
    if i == 0 {
        SearchKind::Songs
    } else if i == 1 {
        SearchKind::Albums
    } else if i == 2 {
        SearchKind::Artists
    } else {
        SearchKind::Playlists
    }
}

impl SearchKind {
    /// Number of search kinds (tabs).
    pub const COUNT: usize = 4;

    /// The kind on tab `i` (songs, albums, artists, playlists).
    pub fn at(i: usize) -> (r: SearchKind)
        requires
            i < 4,
        ensures
            r == kind_at(i as int),
    {
        if i == 0 {
            SearchKind::Songs
        } else if i == 1 {
            SearchKind::Albums
        } else if i == 2 {
            SearchKind::Artists
        } else {
            SearchKind::Playlists
        }
    }

    /// All kinds in tab order.
    pub fn all() -> (r: Vec<SearchKind>)
        ensures
            r@ == seq![SearchKind::Songs, SearchKind::Albums, SearchKind::Artists, SearchKind::Playlists],
    {
        vec![SearchKind::Songs, SearchKind::Albums, SearchKind::Artists, SearchKind::Playlists]
    }

    pub fn label(&self) -> (r: &'static str)
        ensures
            *self == SearchKind::Songs ==> r@ == "歌曲"@,
            *self == SearchKind::Albums ==> r@ == "专辑"@,
            *self == SearchKind::Artists ==> r@ == "歌手"@,
            *self == SearchKind::Playlists ==> r@ == "歌单"@,
    {
        match self {
            SearchKind::Songs => "歌曲",
            SearchKind::Albums => "专辑",
            SearchKind::Artists => "歌手",
            SearchKind::Playlists => "歌单",
        }
    }
}

/// One search response - only the vector matching the queried kind is filled.
#[derive(Debug)]
pub struct SearchResults {
    pub tracks: Vec<Track>,
    pub albums: Vec<AlbumSummary>,
    pub artists: Vec<ArtistSummary>,
    pub playlists: Vec<PlaylistSummary>,
}

impl Default for SearchResults {
    fn default() -> (r: Self)
        ensures
            r.tracks@.len() == 0,
            r.albums@.len() == 0,
            r.artists@.len() == 0,
            r.playlists@.len() == 0,
    {
        SearchResults { tracks: Vec::new(), albums: Vec::new(), artists: Vec::new(), playlists: Vec::new() }
    }
}

#[derive(Debug)]
pub struct AlbumDetail {
    pub title: String,
    pub artists: String,
    pub year: Option<u16>,
    pub tracks: Vec<Track>,
}

#[derive(Debug)]
pub struct ArtistDetail {
    pub name: String,
    pub top_tracks: Vec<Track>,
    pub albums: Vec<AlbumSummary>,
}

#[derive(Debug)]
pub struct PlaylistDetail {
    pub title: String,
    pub tracks: Vec<Track>,
}

/// The decimal digit character for `d` (0..=9).
pub open spec fn digit(d: int) -> char {
    (48 + d) as char
}

/// Decimal representation of `n`, without leading zeros.
pub open spec fn decimal(n: nat) -> Seq<char>
    decreases n,
{
    if n < 10 {
        seq![digit(n as int)]
    } else {
        decimal(n / 10).push(digit((n % 10) as int))
    }
}

/// `m:ss` - whole minutes, then seconds as two digits.
pub open spec fn duration_text(secs: nat) -> Seq<char> {
    decimal(secs / 60) + seq![':', digit(((secs % 60) / 10) as int), digit(((secs % 60) % 10) as int)]
}

fn digit_char(d: u64) -> (c: char)
    requires
        d < 10,
    ensures
        c == digit(d as int),
{
    let b: u8 = 48u8 + d as u8;
    b as char
}

/// Appends the decimal digits of `n` to `out`.
pub fn push_decimal(out: &mut Vec<char>, n: u64)
    ensures
        final(out)@ == old(out)@ + decimal(n as nat),
    decreases n,
{
    if n < 10 {
        out.push(digit_char(n));
    } else {
        push_decimal(out, n / 10);
        out.push(digit_char(n % 10));
        proof {
            assert(old(out)@ + decimal((n / 10) as nat) + seq![digit((n % 10) as int)] =~= old(out)@ + decimal(n as nat));
        }
    }
}

/// `m:ss`, e.g. 269 seconds -> "4:29".
pub fn format_duration(secs: u32) -> (r: String)
    ensures
        r@ == duration_text(secs as nat),
{
    let mut out: Vec<char> = Vec::new();
    push_decimal(&mut out, (secs / 60) as u64);
    out.push(':');
    let s = (secs % 60) as u64;
    out.push(digit_char(s / 10));
    out.push(digit_char(s % 10));
    proof {
        assert(out@ =~= duration_text(secs as nat));
    }
    crate::text::string_of(&out)
}

} // verus!
