//! Turning what the YouTube Music backend returns into the shared models.
//!
//! The backend's items are read into the plain records below (ids, names,
//! thumbnail widths) so that every rule applied to them - how artists are
//! joined, which cover is picked and how its URL is rewritten, how album
//! pages fill in missing fields - is stated and proved here.

use vstd::prelude::*;

use crate::login::{carries_credential, has_auth_credential, header_of, netscape_rows, HeaderError};
use crate::models::{
    clone_opt_string, decimal, push_decimal, AlbumDetail, AlbumSummary, ArtistSummary,
    PlaylistSummary, Track,
};
use crate::text::{
    chars_of, extend_chars, extend_str, has_prefix, lemma_split_nonempty, lines, lines_of, split_chars,
    split_on, string_of, sub_chars, trim, trim_ws,
};

verus! {

/// One thumbnail offered for an item: where it is and how wide.
pub struct Thumbnail {
    pub url: String,
    pub width: u32,
}

/// A track as the backend lists it.
pub struct TrackItem {
    pub id: String,
    pub name: String,
    /// Names of the credited artists, in order.
    pub artists: Vec<String>,
    /// Name of the album, when the listing says.
    pub album: Option<String>,
    pub duration: Option<u32>,
    pub cover: Vec<Thumbnail>,
}

/// An album as the backend lists it.
pub struct AlbumItem {
    pub id: String,
    pub name: String,
    pub artists: Vec<String>,
    pub year: Option<u16>,
}

/// An artist as the backend lists it.
pub struct ArtistItem {
    pub id: String,
    pub name: String,
}

/// A playlist as the backend lists it.
pub struct PlaylistItem {
    pub id: String,
    pub name: String,
    pub track_count: Option<u64>,
}

/// Shown when a listing credits nobody.
pub open spec fn unknown_artist() -> Seq<char> {
    "未知歌手"@
}

/// The names joined by `" / "`.
pub open spec fn join_names(names: Seq<Seq<char>>) -> Seq<char>
    decreases names.len(),
{
    if names.len() == 0 {
        Seq::empty()
    } else if names.len() == 1 {
        names[0]
    } else {
        join_names(names.drop_last()) + " / "@ + names.last()
    }
}

/// The views of a list of strings.
pub open spec fn string_views(v: Seq<String>) -> Seq<Seq<char>> {
    v.map_values(|s: String| s@)
}

/// The display string for a list of artists.
pub open spec fn artists_text(names: Seq<Seq<char>>) -> Seq<char> {
    if names.len() == 0 {
        unknown_artist()
    } else {
        join_names(names)
    }
}

pub fn join_artists(artists: &Vec<String>) -> (r: String)
    ensures
        r@ == artists_text(string_views(artists@)),
{
    if artists.len() == 0 {
        return "未知歌手".to_owned();
    }
    let ghost names = string_views(artists@);
    let mut out: Vec<char> = Vec::new();
    let mut i: usize = 0;
    while i < artists.len()
        invariant
            i <= artists@.len(),
            names == string_views(artists@),
            out@ == join_names(names.take(i as int)),
        decreases artists.len() - i,
    {
        proof {
            assert(names.take(i + 1).drop_last() =~= names.take(i as int));
            assert(names.take(i + 1).last() == names[i as int]);
        }
        if i > 0 {
            extend_str(&mut out, " / ");
        }
        let name = chars_of(artists[i].as_str());
        extend_chars(&mut out, &name);
        proof {
            if i == 0 {
                assert(out@ =~= names.take(1)[0]);
            } else {
                assert(out@ =~= join_names(names.take(i as int)) + " / "@ + names[i as int]);
            }
        }
        i = i + 1;
    }
    proof {
        assert(names.take(i as int) =~= names);
    }
    string_of(&out)
}

/// Cover art size we ask for - plenty for any terminal, still small enough
/// to fetch and decode quickly.
pub const COVER_PX: u32 = 544;

/// Position of the widest thumbnail among the first `n`; on a tie the later
/// one wins.
pub open spec fn widest_upto(covers: Seq<Thumbnail>, n: int) -> int
    decreases n,
{
    if n <= 1 {
        0
    } else {
        let b = widest_upto(covers, n - 1);
        if covers[n - 1].width >= covers[b].width {
            n - 1
        } else {
            b
        }
    }
}

proof fn lemma_widest_in_range(covers: Seq<Thumbnail>, n: int)
    requires
        1 <= n <= covers.len(),
    ensures
        0 <= widest_upto(covers, n) < n,
        forall|k: int| 0 <= k < n ==> #[trigger] covers[k].width <= covers[widest_upto(covers, n)].width,
    decreases n,
{
    if n > 1 {
        lemma_widest_in_range(covers, n - 1);
    }
}

/// Is `c` an ASCII digit?
pub open spec fn ascii_digit(c: char) -> bool {
    '0' <= c <= '9'
}

/// One `-`-separated part of a size group: a `w`, `h` or `s` followed by
/// digits becomes that letter followed by the target size.
pub open spec fn rewrite_part(p: Seq<char>, target: nat) -> Seq<char> {
    if p.len() >= 2 && (p[0] == 'w' || p[0] == 'h' || p[0] == 's') && (forall|k: int|
        1 <= k < p.len() ==> ascii_digit(#[trigger] p[k])) {
        seq![p[0]] + decimal(target)
    } else {
        p
    }
}

/// The parts joined by `sep`.
pub open spec fn join_on(parts: Seq<Seq<char>>, sep: char) -> Seq<char>
    decreases parts.len(),
{
    if parts.len() == 0 {
        Seq::empty()
    } else if parts.len() == 1 {
        parts[0]
    } else {
        join_on(parts.drop_last(), sep).push(sep) + parts.last()
    }
}

/// Position of the last `c` in `s`.
pub open spec fn last_index(s: Seq<char>, c: char) -> Option<int> {
    if exists|k: int| 0 <= k < s.len() && s[k] == c && forall|j: int| k < j < s.len() ==> s[j] != c {
        Some(choose|k: int| 0 <= k < s.len() && s[k] == c && forall|j: int| k < j < s.len() ==> s[j] != c)
    } else {
        None
    }
}

/// The cover URL with its trailing size group (`=w120-h120-..`) asking for
/// `target` pixels; URLs without such a group are left alone.
pub open spec fn upscaled(url: Seq<char>, target: nat) -> Seq<char> {
    match last_index(url, '=') {
        None => url,
        Some(e) => {
            let params = url.skip(e + 1);
            if params.len() > 0 && (params[0] == 'w' || params[0] == 's') {
                url.take(e + 1) + join_on(
                    split_on(params, '-').map_values(|p: Seq<char>| rewrite_part(p, target)),
                    '-',
                )
            } else {
                url
            }
        },
    }
}

fn rewrite_part_exec(p: &Vec<char>, target: u32) -> (r: Vec<char>)
    ensures
        r@ == rewrite_part(p@, target as nat),
{
    if p.len() >= 2 && (p[0] == 'w' || p[0] == 'h' || p[0] == 's') {
        let mut k: usize = 1;
        while k < p.len()
            invariant
                1 <= k <= p@.len(),
                forall|j: int| 1 <= j < k ==> ascii_digit(#[trigger] p@[j]),
            decreases p.len() - k,
        {
            if !('0' <= p[k] && p[k] <= '9') {
                let r = sub_chars(p, 0, p.len());
                proof { assert(r@ =~= p@); }
                return r;
            }
            k = k + 1;
        }
        let mut r: Vec<char> = Vec::new();
        r.push(p[0]);
        push_decimal(&mut r, target as u64);
        proof { assert(r@ =~= seq![p@[0]] + decimal(target as nat)); }
        r
    } else {
        let r = sub_chars(p, 0, p.len());
        proof { assert(r@ =~= p@); }
        r
    }
}

/// Rewrite the size hint of a Google-hosted image URL so that it asks for
/// `target` pixels. Only the trailing size-parameter group is touched;
/// fixed-size hosts and query strings are left alone.
pub fn upscale_cover_url(url: &str, target: u32) -> (r: String)
    ensures
        r@ == upscaled(url@, target as nat),
{
    let cs = chars_of(url);
    // find the last '='
    let mut j: usize = cs.len();
    while j > 0 && cs[j - 1] != '='
        invariant
            j <= cs@.len(),
            forall|k: int| j <= k < cs@.len() ==> cs@[k] != '=',
        decreases j,
    {
        j = j - 1;
    }
    if j == 0 {
        proof {
            if last_index(url@, '=') is Some {
                let w = choose|k: int| 0 <= k < cs@.len() && cs@[k] == '=' && forall|i: int| k < i < cs@.len() ==> cs@[i] != '=';
                assert(cs@[w] != '=');
            }
        }
        return string_of(&cs);
    }
    let eq = j - 1;
    proof {
        assert(0 <= eq < cs@.len() && cs@[eq as int] == '=' && forall|i: int| eq < i < cs@.len() ==> cs@[i] != '=');
        let w = choose|k: int| 0 <= k < cs@.len() && cs@[k] == '=' && forall|i: int| k < i < cs@.len() ==> cs@[i] != '=';
        if w < eq {
            assert(cs@[eq as int] != '=');
        } else if w > eq {
            assert(cs@[w] != '=');
        }
        assert(last_index(url@, '=') == Some(eq as int));
    }
    let params = sub_chars(&cs, eq + 1, cs.len());
    proof { assert(params@ =~= url@.skip(eq + 1)); }
    if !(params.len() > 0 && (params[0] == 'w' || params[0] == 's')) {
        return string_of(&cs);
    }
    let parts = split_chars(&params, '-');
    let ghost sp = split_on(params@, '-');
    let ghost rw = sp.map_values(|p: Seq<char>| rewrite_part(p, target as nat));
    let mut out = sub_chars(&cs, 0, eq + 1);
    proof { assert(out@ =~= url@.take(eq + 1)); }
    let ghost head = out@;
    let mut i: usize = 0;
    while i < parts.len()
        invariant
            i <= parts@.len(),
            parts@.len() == sp.len(),
            forall|k: int| 0 <= k < parts@.len() ==> #[trigger] parts@[k]@ == sp[k],
            rw == sp.map_values(|p: Seq<char>| rewrite_part(p, target as nat)),
            out@ == head + join_on(rw.take(i as int), '-'),
        decreases parts.len() - i,
    {
        proof {
            assert(rw.take(i + 1).drop_last() =~= rw.take(i as int));
            assert(rw.take(i + 1).last() == rw[i as int]);
        }
        if i > 0 {
            out.push('-');
        }
        let piece = rewrite_part_exec(&parts[i], target);
        extend_chars(&mut out, &piece);
        proof {
            if i == 0 {
                assert(out@ =~= head + rw.take(1)[0]);
            } else {
                assert(out@ =~= head + (join_on(rw.take(i as int), '-').push('-') + rw[i as int]));
            }
        }
        i = i + 1;
    }
    proof {
        assert(rw.take(i as int) =~= rw);
    }
    string_of(&out)
}

/// The cover to show: the widest thumbnail, its URL asking for
/// [`COVER_PX`] pixels; none when there is no thumbnail.
pub open spec fn cover_choice(covers: Seq<Thumbnail>) -> Option<Seq<char>> {
    if covers.len() == 0 {
        None
    } else {
        Some(upscaled(covers[widest_upto(covers, covers.len() as int)].url@, COVER_PX as nat))
    }
}

/// Pick a cover and ask the image host for a usable size.
///
/// Search results often only advertise 60-120px thumbnails, which look like
/// mush once scaled up; the size hint in the URL is rewritten instead.
pub fn pick_cover(covers: &Vec<Thumbnail>) -> (r: Option<String>)
    ensures
        match cover_choice(covers@) {
            Some(u) => r matches Some(s) && s@ == u,
            None => r is None,
        },
{
    if covers.len() == 0 {
        return None;
    }
    let mut best: usize = 0;
    let mut i: usize = 1;
    while i < covers.len()
        invariant
            1 <= i <= covers@.len(),
            best as int == widest_upto(covers@, i as int),
            best < i,
        decreases covers.len() - i,
    {
        if covers[i].width >= covers[best].width {
            best = i;
        }
        i = i + 1;
    }
    Some(upscale_cover_url(covers[best].url.as_str(), COVER_PX))
}

/// `t` is the track model of the listing `i`: ids, names and numbers carried
/// over, artists joined, cover picked and upscaled.
pub open spec fn is_track_of(t: Track, i: TrackItem) -> bool {
    &&& t.video_id == i.id
    &&& t.title == i.name
    &&& t.artists@ == artists_text(string_views(i.artists@))
    &&& t.album == i.album
    &&& t.duration_secs == i.duration
    &&& match cover_choice(i.cover@) {
        Some(u) => t.cover_url matches Some(c) && c@ == u,
        None => t.cover_url is None,
    }
}

pub fn conv_track(t: TrackItem) -> (r: Track)
    ensures
        is_track_of(r, t),
{
    let artists = join_artists(&t.artists);
    let cover_url = pick_cover(&t.cover);
    Track {
        artists,
        video_id: t.id,
        title: t.name,
        album: t.album,
        duration_secs: t.duration,
        cover_url,
    }
}

pub fn conv_album(a: AlbumItem) -> (r: AlbumSummary)
    ensures
        r.id == a.id,
        r.title == a.name,
        r.artists@ == artists_text(string_views(a.artists@)),
        r.year == a.year,
{
    let artists = join_artists(&a.artists);
    AlbumSummary { artists, id: a.id, title: a.name, year: a.year }
}

pub fn conv_artist(a: ArtistItem) -> (r: ArtistSummary)
    ensures
        r.id == a.id,
        r.name == a.name,
{
    ArtistSummary { id: a.id, name: a.name }
}

pub fn conv_playlist(p: PlaylistItem) -> (r: PlaylistSummary)
    ensures
        r.id == p.id,
        r.title == p.name,
        r.track_count == match p.track_count {
            Some(n) => Some(n as u32),
            None => None::<u32>,
        },
{
    let track_count = match p.track_count {
        Some(n) => Some(n as u32),
        None => None,
    };
    PlaylistSummary { id: p.id, title: p.name, track_count }
}


/// Converts every listing, in order.
pub fn conv_tracks(items: Vec<TrackItem>) -> (r: Vec<Track>)
    ensures
        r@.len() == items@.len(),
        forall|k: int| 0 <= k < r@.len() ==> is_track_of(#[trigger] r@[k], items@[k]),
{
    let ghost orig = items@;
    let mut rest = items;
    let mut out: Vec<Track> = Vec::new();
    while rest.len() > 0
        invariant
            out@.len() + rest@.len() == orig.len(),
            rest@ == orig.skip(out@.len() as int),
            forall|k: int| 0 <= k < out@.len() ==> is_track_of(#[trigger] out@[k], orig[k]),
        decreases rest@.len(),
    {
        let ghost n = out@.len();
        let t = rest.remove(0);
        proof {
            assert(t == orig[n as int]);
            assert(rest@ =~= orig.skip(n as int + 1));
        }
        out.push(conv_track(t));
    }
    out
}

/// The album track `t` after the album page's gaps are filled: a missing
/// album name becomes the album's, an unknown artist the album's artists.
pub open spec fn album_track_ok(t: Track, i: TrackItem, album: Seq<char>, album_artists: Seq<char>) -> bool {
    let base_artists = artists_text(string_views(i.artists@));
    &&& t.video_id == i.id
    &&& t.title == i.name
    &&& t.duration_secs == i.duration
    &&& t.artists@ == (if base_artists == unknown_artist() { album_artists } else { base_artists })
    &&& match i.album {
        Some(a) => t.album == Some(a),
        None => t.album matches Some(x) && x@ == album,
    }
    &&& match cover_choice(i.cover@) {
        Some(u) => t.cover_url matches Some(c) && c@ == u,
        None => t.cover_url is None,
    }
}

/// An album page: the tracks carry the album's name and artists where the
/// listing leaves them out.
pub fn album_detail(name: String, artists: Vec<String>, year: Option<u16>, tracks: Vec<TrackItem>) -> (r: AlbumDetail)
    ensures
        r.title == name,
        r.artists@ == artists_text(string_views(artists@)),
        r.year == year,
        r.tracks@.len() == tracks@.len(),
        forall|k: int|
            0 <= k < r.tracks@.len() ==> album_track_ok(
                #[trigger] r.tracks@[k],
                tracks@[k],
                name@,
                artists_text(string_views(artists@)),
            ),
{
    let album_artists = join_artists(&artists);
    let unknown = "未知歌手".to_owned();
    let converted = conv_tracks(tracks);
    let mut out: Vec<Track> = Vec::new();
    let mut i: usize = 0;
    while i < converted.len()
        invariant
            i <= converted@.len(),
            converted@.len() == tracks@.len(),
            out@.len() == i,
            unknown@ == unknown_artist(),
            album_artists@ == artists_text(string_views(artists@)),
            forall|k: int| 0 <= k < converted@.len() ==> is_track_of(#[trigger] converted@[k], tracks@[k]),
            forall|k: int|
                0 <= k < i ==> album_track_ok(#[trigger] out@[k], tracks@[k], name@, album_artists@),
        decreases converted.len() - i,
    {
        let mut t = converted[i].clone();
        if t.album.is_none() {
            t.album = Some(name.clone());
        }
        if t.artists == unknown {
            t.artists = album_artists.clone();
        }
        proof {
            assert(is_track_of(converted@[i as int], tracks@[i as int]));
        }
        out.push(t);
        i = i + 1;
    }
    AlbumDetail { title: name, artists: album_artists, year, tracks: out }
}

/// The home page's chart list: the top tracks, or the trending ones when the
/// chart has no top list.
pub fn chart_tracks(top: Vec<TrackItem>, trending: Vec<TrackItem>) -> (r: Vec<Track>)
    ensures
        ({
            let src = if top@.len() == 0 { trending@ } else { top@ };
            &&& r@.len() == src.len()
            &&& forall|k: int| 0 <= k < r@.len() ==> is_track_of(#[trigger] r@[k], src[k])
        }),
{
    if top.len() == 0 {
        conv_tracks(trending)
    } else {
        conv_tracks(top)
    }
}

/// Why the home page could not be filled.
#[derive(Debug, Clone, Copy, PartialEq, Eq, Structural)]
pub enum HomeError {
    /// Neither the charts nor the new releases came back.
    NothingLoaded,
}

impl HomeError {
    pub fn message(&self) -> (r: String)
        ensures
            r@ == "获取推荐内容失败（网络不可达？）"@,
    {
        "获取推荐内容失败（网络不可达？）".to_owned()
    }
}

/// Combine the two home requests; either failing alone (`None`) is
/// tolerated, but nothing at all is an error.
pub fn home_content(charts: Option<Vec<Track>>, albums: Option<Vec<AlbumSummary>>) -> (r: Result<(Vec<Track>, Vec<AlbumSummary>), HomeError>)
    ensures
        ({
            let t = match charts { Some(v) => v@, None => Seq::empty() };
            let a = match albums { Some(v) => v@, None => Seq::empty() };
            &&& (t.len() == 0 && a.len() == 0) ==> r == Err::<(Vec<Track>, Vec<AlbumSummary>), HomeError>(HomeError::NothingLoaded)
            &&& !(t.len() == 0 && a.len() == 0) ==> (r matches Ok((rt, ra)) && rt@ == t && ra@ == a)
        }),
{
    let tracks = match charts {
        Some(v) => v,
        None => Vec::new(),
    };
    let albums = match albums {
        Some(v) => v,
        None => Vec::new(),
    };
    if tracks.len() == 0 && albums.len() == 0 {
        return Err(HomeError::NothingLoaded);
    }
    Ok((tracks, albums))
}

/// Why an imported cookie could not be used to log in.
#[derive(Debug, Clone, Copy, PartialEq, Eq, Structural)]
pub enum LoginError {
    /// Nothing was entered.
    EmptyInput,
    /// A cookies.txt without a single YouTube cookie.
    NoYoutubeCookies,
    /// Cookies present, but not the credential requests are signed with.
    NoCredential,
}

impl LoginError {
    pub fn message(&self) -> (r: String)
        ensures
            *self == LoginError::EmptyInput ==> r@ == "输入为空"@,
            *self == LoginError::NoYoutubeCookies ==> r@ == "没有找到 YouTube 的登录信息"@,
            *self == LoginError::NoCredential ==> r@
                == "这份 Cookie 里没有 YouTube 的登录凭据。\n请确认浏览器已登录 music.youtube.com 后再导入。"@,
    {
        match self {
            LoginError::EmptyInput => "输入为空".to_owned(),
            LoginError::NoYoutubeCookies => "没有找到 YouTube 的登录信息".to_owned(),
            LoginError::NoCredential => "这份 Cookie 里没有 YouTube 的登录凭据。\n请确认浏览器已登录 music.youtube.com 后再导入。".to_owned(),
        }
    }
}

/// The login input with surrounding white space removed; empty input is
/// refused.
pub fn login_input(input: &str) -> (r: Result<String, LoginError>)
    ensures
        trim_ws(input@).len() == 0 ==> r == Err::<String, LoginError>(LoginError::EmptyInput),
        trim_ws(input@).len() > 0 ==> (r matches Ok(s) && s@ == trim_ws(input@)),
{
    let cs = chars_of(input);
    let t = trim(&cs);
    if t.len() == 0 {
        return Err(LoginError::EmptyInput);
    }
    Ok(string_of(&t))
}

/// A short single-line input may name a cookies.txt file (byte length
/// under 500, no newline); whether it does is for the file system to say.
pub open spec fn may_name_file(text: &str) -> bool {
    text.len() < 500 && !text@.contains('\n')
}

pub fn may_be_cookie_file(text: &str) -> (r: bool)
    ensures
        r == may_name_file(text),
{
    if text.len() >= 500 {
        return false;
    }
    let cs = chars_of(text);
    let mut i: usize = 0;
    while i < cs.len()
        invariant
            i <= cs@.len(),
            cs@ == text@,
            forall|k: int| 0 <= k < i ==> cs@[k] != '\n',
        decreases cs.len() - i,
    {
        if cs[i] == '\n' {
            proof { assert(text@[i as int] == '\n'); }
            return false;
        }
        i = i + 1;
    }
    proof {
        assert forall|k: int| 0 <= k < text@.len() implies text@[k] != '\n' by {
            assert(cs@[k] != '\n');
        }
    }
    true
}

/// Does the text look like a Netscape cookies.txt (some line has at least
/// seven tab-separated columns, or it starts with one of the usual headers)?
pub open spec fn netscape_like(text: Seq<char>) -> bool {
    ||| exists|k: int| 0 <= k < lines_of(text).len() && #[trigger] split_on(lines_of(text)[k], '\t').len() >= 7
    ||| has_prefix(text, "# Netscape"@)
    ||| has_prefix(text, "# HTTP Cookie"@)
}

pub fn is_netscape_text(text: &str) -> (r: bool)
    ensures
        r == netscape_like(text@),
{
    let cs = chars_of(text);
    let ls = lines(&cs);
    let ghost lv = lines_of(text@);
    let mut i: usize = 0;
    while i < ls.len()
        invariant
            i <= ls@.len(),
            lv == lines_of(text@),
            ls@.len() == lv.len(),
            forall|k: int| 0 <= k < ls@.len() ==> #[trigger] ls@[k]@ == lv[k],
            forall|k: int| 0 <= k < i ==> #[trigger] split_on(lv[k], '\t').len() < 7,
        decreases ls.len() - i,
    {
        let cols = split_chars(&ls[i], '\t');
        if cols.len() >= 7 {
            proof { assert(split_on(lv[i as int], '\t').len() >= 7); }
            return true;
        }
        i = i + 1;
    }
    let a = chars_of("# Netscape");
    let b = chars_of("# HTTP Cookie");
    crate::text::starts_with(&cs, &a) || crate::text::starts_with(&cs, &b)
}

/// The `Cookie` header a login input amounts to: cookies.txt text is parsed
/// into a header, anything else is taken as a header as it is.
pub open spec fn login_header_of(content: Seq<char>) -> Option<Seq<char>> {
    if netscape_like(content) {
        header_of(netscape_rows(lines_of(content)))
    } else {
        Some(content)
    }
}

/// Turn cookie text (a raw `Cookie` header or cookies.txt content) into the
/// header to log in with, refusing it when it cannot authenticate.
pub fn login_header(content: &str) -> (r: Result<String, LoginError>)
    ensures
        match login_header_of(content@) {
            None => r == Err::<String, LoginError>(LoginError::NoYoutubeCookies),
            Some(h) => if carries_credential(h) {
                r matches Ok(s) && s@ == h
            } else {
                r == Err::<String, LoginError>(LoginError::NoCredential)
            },
        },
{
    let header = if is_netscape_text(content) {
        match crate::login::cookie_header_from_netscape(content) {
            Ok(h) => h,
            Err(_) => return Err(LoginError::NoYoutubeCookies),
        }
    } else {
        content.to_owned()
    };
    if !has_auth_credential(header.as_str()) {
        return Err(LoginError::NoCredential);
    }
    Ok(header)
}

/// Lists arrive a page at a time; a playlist is followed up to this many
/// tracks.
pub const PLAYLIST_LIMIT: usize = 1000;

/// Library lists (saved playlists, albums, artists, history) are followed
/// up to this many items.
pub const LIBRARY_LIMIT: usize = 500;

/// Search results are followed up to this many items.
pub const SEARCH_LIMIT: usize = 60;

/// While collecting the listening history page by page: the continuation
/// to fetch next, if any. Pages are followed while fewer than
/// `LIBRARY_LIMIT` tracks have been collected and the last page offered a
/// continuation; a page that comes back empty or fails ends the walk.
pub fn next_history_page(collected: usize, continuation: Option<String>, last_page_empty: bool) -> (r: Option<String>)
    ensures
        r == (if collected < LIBRARY_LIMIT && !last_page_empty { continuation } else { None::<String> }),
{
    if collected < LIBRARY_LIMIT && !last_page_empty {
        continuation
    } else {
        None
    }
}

/// `c` occurs nowhere in `s`.
pub open spec fn lacks(s: Seq<char>, c: char) -> bool {
    forall|k: int| 0 <= k < s.len() ==> s[k] != c
}

proof fn lemma_digit_is_ascii_digit(d: int)
    requires
        0 <= d < 10,
    ensures
        ascii_digit(crate::models::digit(d)),
{
    assert(('0' as int) == 48);
    assert(('9' as int) == 57);
}

proof fn lemma_decimal_digits(n: nat)
    ensures
        decimal(n).len() >= 1,
        forall|k: int| 0 <= k < decimal(n).len() ==> ascii_digit(#[trigger] decimal(n)[k]),
    decreases n,
{
    if n < 10 {
        lemma_digit_is_ascii_digit(n as int);
    } else {
        lemma_decimal_digits(n / 10);
        lemma_digit_is_ascii_digit((n % 10) as int);
        let d = decimal(n / 10);
        assert forall|k: int| 0 <= k < decimal(n).len() implies ascii_digit(#[trigger] decimal(n)[k]) by {
            if k < d.len() {
                assert(decimal(n)[k] == d[k]);
            }
        }
    }
}

/// A rewritten part holds a character of the original part, or a digit.
proof fn lemma_rewrite_part_chars(p: Seq<char>, target: nat, c: char)
    requires
        lacks(p, c),
        !ascii_digit(c),
    ensures
        lacks(rewrite_part(p, target), c),
{
    lemma_decimal_digits(target);
    let r = rewrite_part(p, target);
    if r != p {
        assert forall|k: int| 0 <= k < r.len() implies r[k] != c by {
            if k > 0 {
                assert(r[k] == decimal(target)[k - 1]);
            }
        }
    }
}

/// Rewriting a part a second time changes nothing.
proof fn lemma_rewrite_part_idempotent(p: Seq<char>, target: nat)
    ensures
        rewrite_part(rewrite_part(p, target), target) == rewrite_part(p, target),
        p.len() > 0 ==> rewrite_part(p, target).len() > 0 && rewrite_part(p, target)[0] == p[0],
{
    lemma_decimal_digits(target);
    let r = rewrite_part(p, target);
    if r != p {
        assert forall|k: int| 1 <= k < r.len() implies ascii_digit(#[trigger] r[k]) by {
            assert(r[k] == decimal(target)[k - 1]);
        }
    }
}

/// Splitting `a`, `sep`, `b` gives the pieces of `a` followed by those of `b`.
proof fn lemma_split_concat(a: Seq<char>, b: Seq<char>, sep: char)
    ensures
        split_on(a + seq![sep] + b, sep) == split_on(a, sep) + split_on(b, sep),
    decreases a.len(),
{
    let s = a + seq![sep] + b;
    if a.len() == 0 {
        assert(s.drop_first() =~= b);
    } else {
        assert(s.drop_first() =~= a.drop_first() + seq![sep] + b);
        lemma_split_concat(a.drop_first(), b, sep);
        lemma_split_nonempty(a.drop_first(), sep);
        if a[0] == sep {
            assert(split_on(s, sep) =~= split_on(a, sep) + split_on(b, sep));
        } else {
            let ra = split_on(a.drop_first(), sep);
            let rb = split_on(b, sep);
            assert((ra + rb).update(0, seq![a[0]] + (ra + rb)[0]) =~= ra.update(0, seq![a[0]] + ra[0]) + rb);
        }
    }
}

/// A text without `sep` is a single piece.
proof fn lemma_split_without_sep(p: Seq<char>, sep: char)
    requires
        lacks(p, sep),
    ensures
        split_on(p, sep) == seq![p],
    decreases p.len(),
{
    if p.len() > 0 {
        let t = p.drop_first();
        assert(lacks(t, sep)) by {
            assert forall|k: int| 0 <= k < t.len() implies t[k] != sep by {
                assert(t[k] == p[k + 1]);
            }
        }
        lemma_split_without_sep(t, sep);
        assert(p[0] != sep);
        assert(split_on(p, sep) == split_on(t, sep).update(0, seq![p[0]] + split_on(t, sep)[0]));
        assert(seq![p[0]] + t =~= p);
        assert(seq![t].update(0, seq![p[0]] + t) =~= seq![p]);
    } else {
        assert(p =~= Seq::<char>::empty());
    }
}

/// Splitting a join of pieces without `sep` gives the pieces back.
proof fn lemma_split_join(parts: Seq<Seq<char>>, sep: char)
    requires
        parts.len() >= 1,
        forall|i: int| 0 <= i < parts.len() ==> lacks(#[trigger] parts[i], sep),
    ensures
        split_on(join_on(parts, sep), sep) == parts,
    decreases parts.len(),
{
    if parts.len() == 1 {
        lemma_split_without_sep(parts[0], sep);
        assert(seq![parts[0]] =~= parts);
    } else {
        let dl = parts.drop_last();
        lemma_split_join(dl, sep);
        assert(join_on(parts, sep) == join_on(dl, sep) + seq![sep] + parts.last());
        lemma_split_concat(join_on(dl, sep), parts.last(), sep);
        lemma_split_without_sep(parts.last(), sep);
        assert(dl + seq![parts.last()] =~= parts);
    }
}

/// A join of pieces without `c` (other than the separator) has no `c`, and
/// it starts with its first piece.
proof fn lemma_join_chars(parts: Seq<Seq<char>>, sep: char, c: char)
    requires
        parts.len() >= 1,
        c != sep,
        forall|i: int| 0 <= i < parts.len() ==> lacks(#[trigger] parts[i], c),
    ensures
        lacks(join_on(parts, sep), c),
        join_on(parts, sep).len() >= parts[0].len(),
        forall|k: int| 0 <= k < parts[0].len() ==> join_on(parts, sep)[k] == #[trigger] parts[0][k],
    decreases parts.len(),
{
    if parts.len() > 1 {
        let dl = parts.drop_last();
        lemma_join_chars(dl, sep, c);
        let j = join_on(dl, sep).push(sep) + parts.last();
        assert forall|k: int| 0 <= k < j.len() implies j[k] != c by {
            if k < join_on(dl, sep).len() {
                assert(j[k] == join_on(dl, sep)[k]);
            } else if k > join_on(dl, sep).len() {
                assert(j[k] == parts.last()[k - join_on(dl, sep).len() - 1]);
            }
        }
        assert forall|k: int| 0 <= k < parts[0].len() implies j[k] == #[trigger] parts[0][k] by {
            assert(dl[0] == parts[0]);
            assert(j[k] == join_on(dl, sep)[k]);
        }
    }
}

/// The pieces of a text without `c` have no `c` (nor the separator).
proof fn lemma_split_pieces_lack(s: Seq<char>, sep: char, c: char)
    requires
        lacks(s, c),
    ensures
        forall|i: int| 0 <= i < split_on(s, sep).len() ==> lacks(#[trigger] split_on(s, sep)[i], c)
            && lacks(split_on(s, sep)[i], sep),
    decreases s.len(),
{
    if s.len() > 0 {
        lemma_split_pieces_lack(s.drop_first(), sep, c);
        lemma_split_nonempty(s.drop_first(), sep);
        let rest = split_on(s.drop_first(), sep);
        if s[0] != sep {
            assert forall|i: int| 0 <= i < split_on(s, sep).len() implies lacks(#[trigger] split_on(s, sep)[i], c)
                && lacks(split_on(s, sep)[i], sep) by {
                if i == 0 {
                    let p = seq![s[0]] + rest[0];
                    assert(split_on(s, sep)[0] == p);
                    assert forall|k: int| 0 <= k < p.len() implies p[k] != c && p[k] != sep by {
                        if k > 0 {
                            assert(p[k] == rest[0][k - 1]);
                        }
                    }
                }
            }
        } else {
            assert forall|i: int| 0 <= i < split_on(s, sep).len() implies lacks(#[trigger] split_on(s, sep)[i], c)
                && lacks(split_on(s, sep)[i], sep) by {
                if i > 0 {
                    assert(split_on(s, sep)[i] == rest[i - 1]);
                }
            }
        }
    }
}

/// The last `c` of `s` is at `e` when `s[e]` is `c` and none follows.
proof fn lemma_last_index_at(s: Seq<char>, c: char, e: int)
    requires
        0 <= e < s.len(),
        s[e] == c,
        forall|j: int| e < j < s.len() ==> s[j] != c,
    ensures
        last_index(s, c) == Some(e),
{
    let w = choose|k: int| 0 <= k < s.len() && s[k] == c && forall|j: int| k < j < s.len() ==> s[j] != c;
    assert(0 <= w < s.len() && s[w] == c && forall|j: int| w < j < s.len() ==> s[j] != c);
    if w < e {
        assert(s[e] != c);
    } else if w > e {
        assert(s[w] != c);
    }
}

/// Upscaling a cover URL leaves everything up to and including its last
/// `=` as it was; a URL without `=`, or whose text after the last `=` does
/// not start with `w` or `s`, is left alone altogether.
pub proof fn law_upscale_keeps_prefix(url: Seq<char>, target: nat)
    ensures
        match last_index(url, '=') {
            Some(e) => {
                let r = upscaled(url, target);
                &&& r.len() > e
                &&& r.take(e + 1) == url.take(e + 1)
                &&& (url.skip(e + 1).len() == 0 || (url.skip(e + 1)[0] != 'w' && url.skip(e + 1)[0] != 's')) ==> r == url
            },
            None => upscaled(url, target) == url,
        },
{
    if let Some(e) = last_index(url, '=') {
        let w = choose|k: int| 0 <= k < url.len() && url[k] == '=' && forall|j: int| k < j < url.len() ==> url[j] != '=';
        assert(0 <= e < url.len());
        let r = upscaled(url, target);
        assert(r.take(e + 1) =~= url.take(e + 1));
    }
}

/// Upscaling a cover URL a second time changes nothing.
pub proof fn law_upscale_idempotent(url: Seq<char>, target: nat)
    ensures
        upscaled(upscaled(url, target), target) == upscaled(url, target),
{
    if let Some(e) = last_index(url, '=') {
        let params = url.skip(e + 1);
        if params.len() > 0 && (params[0] == 'w' || params[0] == 's') {
            assert(0 <= e < url.len() && url[e] == '=' && forall|j: int| e < j < url.len() ==> url[j] != '=');
            assert(lacks(params, '=')) by {
                assert forall|k: int| 0 <= k < params.len() implies params[k] != '=' by {
                    assert(params[k] == url[e + 1 + k]);
                }
            }
            let parts = split_on(params, '-');
            let rp = parts.map_values(|p: Seq<char>| rewrite_part(p, target));
            lemma_split_nonempty(params, '-');
            lemma_split_pieces_lack(params, '-', '=');
            assert('=' != '-' && !ascii_digit('=') && !ascii_digit('-'));
            assert forall|i: int| 0 <= i < rp.len() implies lacks(#[trigger] rp[i], '=') && lacks(rp[i], '-') by {
                lemma_rewrite_part_chars(parts[i], target, '=');
                lemma_rewrite_part_chars(parts[i], target, '-');
            }
            let j = join_on(rp, '-');
            lemma_join_chars(rp, '-', '=');
            // the first piece starts with the first character of the parameters
            let rest = split_on(params.drop_first(), '-');
            assert(params[0] != '-');
            lemma_split_nonempty(params.drop_first(), '-');
            assert(parts == rest.update(0, seq![params[0]] + rest[0]));
            assert(parts[0] == seq![params[0]] + rest[0]);
            lemma_rewrite_part_idempotent(parts[0], target);
            assert(rp[0][0] == params[0]);
            assert(j[0] == rp[0][0]);
            let r = url.take(e + 1) + j;
            assert(r == upscaled(url, target));
            assert(r[e] == '=');
            assert forall|k: int| e < k < r.len() implies r[k] != '=' by {
                assert(r[k] == j[k - e - 1]);
            }
            lemma_last_index_at(r, '=', e);
            assert(r.skip(e + 1) =~= j);
            lemma_split_join(rp, '-');
            let rp2 = split_on(j, '-').map_values(|p: Seq<char>| rewrite_part(p, target));
            assert forall|i: int| 0 <= i < rp.len() implies #[trigger] rp2[i] == rp[i] by {
                lemma_rewrite_part_idempotent(parts[i], target);
            }
            assert(rp2 =~= rp);
            assert(r.take(e + 1) =~= url.take(e + 1));
        }
    }
}

} // verus!
