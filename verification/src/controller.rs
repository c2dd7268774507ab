//! The interface's decisions: what a key, a finished request or a player
//! event does to the screens, the queue and the status line, and which
//! outside work it asks for.
//!
//! Every handler takes the event and appends the work it asks for to `out`
//! (a search, a stream to resolve, a command for the player, ..); the caller
//! performs that work and hands the results back as [`ApiReply`] and
//! [`PlayerNote`] events. Timing, drawing and the playback clock stay with
//! the caller.

use vstd::prelude::*;

use crate::app_state::{
    build_keymap, keymap_of, Action, BrowsePage, Focus, HomeState, InputMode, Keymap, LibraryState,
    LoginMethod, LoginState, MainView, SearchState, ViewNav,
};
use crate::config::KeyName;
use crate::cookies::BrowserProfile;
use crate::history::{recorded, PlaybackHistory};
use crate::models::{
    decimal, kind_at, push_decimal, AlbumDetail, AlbumSummary, ArtistDetail, ArtistSummary,
    PlaylistDetail, PlaylistSummary, SearchKind, SearchResults, Track,
};
use crate::queue::{next_mode, on_end, on_next, on_prev, upcoming, Advance, Queue, RepeatMode};
use crate::text::{chars_of, extend_str, string_of};

pub mod keys;

verus! {

/// Ticks a status message stays on screen.
pub const TOAST_TICKS: u8 = 12;

/// Below this many upcoming tracks, radio refills the queue.
pub const RADIO_LOW_WATER: usize = 3;

/// A command for the player.
#[derive(Debug, Clone, Copy, PartialEq, Eq, Structural)]
pub enum PlayerRequest {
    TogglePause,
    ToggleMute,
    /// Five seconds back.
    SeekBack,
    /// Five seconds forward.
    SeekForward,
    /// Volume down five percent.
    VolumeDown,
    /// Volume up five percent.
    VolumeUp,
    /// Back to the start of the track.
    SeekToStart,
}

/// Outside work a handler asks for.
#[derive(Debug)]
pub enum Request {
    /// Search `query` among `kind`; the reply carries `seq`.
    Search { seq: u64, kind: SearchKind, query: String },
    /// Fetch an album page; the reply carries `seq`.
    Album { seq: u64, id: String },
    Artist { seq: u64, id: String },
    Playlist { seq: u64, id: String },
    /// Fetch radio continuations seeded by `seed`.
    Radio { seed: String },
    /// Resolve the stream of `video_id`; a retry waits half a second first.
    ResolveStream { video_id: String, attempt: u8, retry: bool },
    /// Load this URL in the player.
    Load(String),
    /// A track starts: reset the playback clock and fetch its lyrics,
    /// cover and segments.
    TrackStarted(Track),
    /// Playback stopped: reset the playback clock.
    Stopped,
    /// Fetch the home page.
    Home,
    /// Log in with a cookie header or cookies.txt text or path.
    Login(String),
    /// Read the cookies of a browser profile and log in with them.
    LoginWithBrowser(BrowserProfile),
    /// Open music.youtube.com in the browser.
    OpenLoginPage,
    Logout,
    /// Fetch library list `i` (liked, playlists, albums, artists, history).
    Library(usize),
    Player(PlayerRequest),
    /// Start a new player process.
    RestartPlayer,
}

/// A finished request.
#[allow(inconsistent_fields)]
pub enum ApiReply {
    SearchDone { seq: u64, kind: SearchKind, result: Result<SearchResults, String> },
    AlbumDone { seq: u64, result: Result<AlbumDetail, String> },
    ArtistDone { seq: u64, result: Result<ArtistDetail, String> },
    PlaylistDone { seq: u64, result: Result<PlaylistDetail, String> },
    RadioDone { result: Result<Vec<Track>, String> },
    StreamResolved { video_id: String, attempt: u8, result: Result<String, String> },
    HomeDone { result: Result<(Vec<Track>, Vec<AlbumSummary>), String> },
    LibraryTracks { title: String, result: Result<Vec<Track>, String> },
    LibraryPlaylists { result: Result<Vec<PlaylistSummary>, String> },
    LibraryAlbums { result: Result<Vec<AlbumSummary>, String> },
    LibraryArtists { result: Result<Vec<ArtistSummary>, String> },
    LoginDone { result: Result<(), String> },
    LogoutDone { result: Result<(), String> },
}

/// What the player reports, as far as decisions depend on it.
pub enum PlayerNote {
    Ready,
    InitFailed(String),
    FileLoaded,
    TrackEnded,
    LoadFailed(String),
    Died,
}

/// The interface state the decisions work on.
pub struct Controller {
    pub nav: ViewNav,
    /// The text being typed, and what it is for.
    pub input: Option<(InputMode, String)>,
    pub help_visible: bool,
    pub should_quit: bool,
    pub player_restart_requested: bool,
    pub search: SearchState,
    /// Sequence number of the latest search; older replies are dropped.
    pub search_seq: u64,
    pub home: HomeState,
    pub library: LibraryState,
    pub login: LoginState,
    pub browse_stack: Vec<BrowsePage>,
    /// Sequence number of the latest page request.
    pub browse_seq: u64,
    pub queue: Queue,
    pub queue_selected: usize,
    pub radio_on: bool,
    pub radio_inflight: bool,
    pub status: Option<String>,
    pub status_ttl: u8,
    pub now_playing: Option<Track>,
    pub history: PlaybackHistory,
    /// The track the player is meant to play.
    pub current_video_id: Option<String>,
    pub stream_attempt: u8,
    /// "title - artists" of what plays; `None` when nothing does.
    pub playing_title: Option<String>,
    /// The player is loading the track.
    pub loading: bool,
    pub player_alive: bool,
    /// Manual scroll offset of plain lyrics.
    pub lyrics_scroll: u16,
    /// The player can resolve a page URL itself when resolution fails.
    pub ytdl_fallback: bool,
    pub keymap: Keymap,
}

/// `title - artists`.
pub open spec fn title_line(t: Track) -> Seq<char> {
    t.title@ + " - "@ + t.artists@
}

/// The first line of an error message (the whole message when it has no
/// line at all).
pub open spec fn first_line(e: Seq<char>) -> Seq<char> {
    if crate::text::lines_of(e).len() > 0 {
        crate::text::lines_of(e)[0]
    } else {
        e
    }
}

/// The status message after starting `idx` of a `count`-track list.
pub open spec fn playing_list_text(count: nat, idx: nat) -> Seq<char> {
    "播放中 - 队列 "@ + decimal(count) + " 首（第 "@ + decimal(idx + 1) + " 首）"@
}


/// `a` with the selected search results replaced by those of `r` for `kind`.
pub open spec fn results_with(a: SearchResults, kind: SearchKind, r: SearchResults) -> SearchResults {
    match kind {
        SearchKind::Songs => SearchResults { tracks: r.tracks, ..a },
        SearchKind::Albums => SearchResults { albums: r.albums, ..a },
        SearchKind::Artists => SearchResults { artists: r.artists, ..a },
        SearchKind::Playlists => SearchResults { playlists: r.playlists, ..a },
    }
}

/// `b` is `a` with the status line showing `msg`.
pub open spec fn toasted(a: Controller, b: Controller, msg: Seq<char>) -> bool {
    &&& b.status matches Some(m) && m@ == msg
    &&& b.status_ttl == TOAST_TICKS
}

/// A search reply: stale ones (another search was started since) are
/// dropped; otherwise the list of that kind is replaced and, when that is
/// the tab on screen, its selection goes back to the top. A failure is
/// reported on the status line.
pub open spec fn search_done_post(
    a: Controller,
    b: Controller,
    seq: u64,
    kind: SearchKind,
    result: Result<SearchResults, String>,
) -> bool {
    if seq != a.search_seq {
        b == a
    } else {
        match result {
            Ok(r) => b == Controller {
                search: SearchState {
                    loading: false,
                    results: results_with(a.search.results, kind, r),
                    selected: if kind_at(a.search.kind_idx as int) == kind {
                        0
                    } else {
                        a.search.selected
                    },
                    ..a.search
                },
                ..a
            },
            Err(e) => toasted(a, b, "搜索失败: "@ + e@) && b == Controller {
                search: SearchState { loading: false, ..a.search },
                status: b.status,
                status_ttl: TOAST_TICKS,
                ..a
            },
        }
    }
}

/// The page on top of the stack with its data filled in, when it is the
/// kind of page the data is for.
pub open spec fn filled_album(stack: Seq<BrowsePage>, d: AlbumDetail) -> Seq<BrowsePage> {
    if stack.len() > 0 {
        match stack.last() {
            BrowsePage::Album { title, selected, .. } => stack.drop_last().push(
                BrowsePage::Album { title, data: Some(d), selected },
            ),
            _ => stack,
        }
    } else {
        stack
    }
}

pub open spec fn filled_artist(stack: Seq<BrowsePage>, d: ArtistDetail) -> Seq<BrowsePage> {
    if stack.len() > 0 {
        match stack.last() {
            BrowsePage::Artist { name, selected, .. } => stack.drop_last().push(
                BrowsePage::Artist { name, data: Some(d), selected },
            ),
            _ => stack,
        }
    } else {
        stack
    }
}

pub open spec fn filled_playlist(stack: Seq<BrowsePage>, d: PlaylistDetail) -> Seq<BrowsePage> {
    if stack.len() > 0 {
        match stack.last() {
            BrowsePage::Playlist { title, selected, .. } => stack.drop_last().push(
                BrowsePage::Playlist { title, data: Some(d), selected },
            ),
            _ => stack,
        }
    } else {
        stack
    }
}

/// The stack without its top page (unchanged when empty).
pub open spec fn popped(stack: Seq<BrowsePage>) -> Seq<BrowsePage> {
    if stack.len() > 0 {
        stack.drop_last()
    } else {
        stack
    }
}

/// The main view once the browse stack is `stack`: with no page left it
/// falls back to the search results, or home when nothing was searched.
pub open spec fn view_after_pop(v: MainView, stack: Seq<BrowsePage>, query: Seq<char>) -> MainView {
    if stack.len() == 0 {
        if query.len() == 0 {
            MainView::Home
        } else {
            MainView::Search
        }
    } else {
        v
    }
}

/// A failed page request: the page that waited for it is closed and the
/// failure reported.
pub open spec fn page_failed_post(a: Controller, b: Controller, msg: Seq<char>) -> bool {
    &&& toasted(a, b, msg)
    &&& b.browse_stack@ == popped(a.browse_stack@)
    &&& b == Controller {
        browse_stack: b.browse_stack,
        nav: ViewNav {
            main_view: view_after_pop(a.nav.main_view, popped(a.browse_stack@), a.search.query@),
            ..a.nav
        },
        status: b.status,
        status_ttl: TOAST_TICKS,
        ..a
    }
}

/// A page reply: stale ones are dropped; data fills the page waiting for
/// it; a failure closes it.
pub open spec fn page_done_post(a: Controller, b: Controller, seq: u64, filled: Option<Seq<BrowsePage>>, err: Option<Seq<char>>) -> bool {
    if seq != a.browse_seq {
        b == a
    } else {
        match err {
            Some(msg) => page_failed_post(a, b, msg),
            None => match filled {
                Some(st) => b.browse_stack@ == st && b == Controller { browse_stack: b.browse_stack, ..a },
                None => b == a,
            },
        }
    }
}

/// The status message after radio added `n` tracks.
pub open spec fn radio_added_text(n: nat) -> Seq<char> {
    "电台已补充 "@ + decimal(n) + " 首"@
}

/// The status message of the `n`-th stream resolution retry.
pub open spec fn retry_text(n: nat) -> Seq<char> {
    "解析播放地址失败，正在重试 ("@ + decimal(n) + "/2)"@
}

/// The page URL the player resolves by itself.
pub open spec fn watch_url(video_id: Seq<char>) -> Seq<char> {
    "https://music.youtube.com/watch?v="@ + video_id
}

/// A library list arrived: it opens as a browse page on top of the stack.
pub open spec fn opened_page(a: Controller, b: Controller) -> bool {
    &&& b.browse_stack@.len() == a.browse_stack@.len() + 1
    &&& b.browse_stack@.drop_last() == a.browse_stack@
    &&& b == Controller {
        library: LibraryState { loading: false, ..a.library },
        browse_stack: b.browse_stack,
        nav: ViewNav { focus: Focus::Main, main_view: MainView::Browse, ..a.nav },
        ..a
    }
}

/// A library list failed to load.
pub open spec fn library_failed(a: Controller, b: Controller, e: Seq<char>) -> bool {
    &&& toasted(a, b, "加载失败: "@ + e)
    &&& b == Controller {
        library: LibraryState { loading: false, ..a.library },
        status: b.status,
        status_ttl: TOAST_TICKS,
        ..a
    }
}

/// What a library list reply does: `page_ok` describes the page it opens.
pub open spec fn library_done_post(a: Controller, b: Controller, failed: Option<Seq<char>>, page_ok: bool) -> bool {
    match failed {
        Some(e) => library_failed(a, b, e),
        None => opened_page(a, b) && page_ok,
    }
}

/// What the home reply does.
pub open spec fn home_done_post(a: Controller, b: Controller, result: Result<(Vec<Track>, Vec<AlbumSummary>), String>) -> bool {
    match result {
        Ok((t, al)) => b == Controller { home: HomeState { tracks: t, albums: al, selected: 0, loading: false }, ..a },
        Err(e) => toasted(a, b, "加载推荐失败: "@ + e@) && b == Controller {
            home: HomeState { loading: false, ..a.home },
            status: b.status,
            status_ttl: TOAST_TICKS,
            ..a
        },
    }
}

/// What the login reply does.
pub open spec fn login_done_post(a: Controller, b: Controller, result: Result<(), String>) -> bool {
    match result {
        Ok(()) => toasted(a, b, "登录成功 - Enter 打开音乐库"@) && b == Controller {
            library: LibraryState { loading: false, selected: 0 },
            login: LoginState { busy: false, ..a.login },
            status: b.status,
            status_ttl: TOAST_TICKS,
            ..a
        },
        Err(e) => toasted(a, b, "登录失败: "@ + first_line(e@)) && b == Controller {
            library: LibraryState { loading: false, ..a.library },
            login: LoginState { busy: false, ..a.login },
            status: b.status,
            status_ttl: TOAST_TICKS,
            ..a
        },
    }
}

/// What the logout reply does.
pub open spec fn logout_done_post(a: Controller, b: Controller, result: Result<(), String>) -> bool {
    match result {
        Ok(()) => toasted(a, b, "已退出登录"@) && b == Controller {
            login: LoginState { selected: 0, ..a.login },
            status: b.status,
            status_ttl: TOAST_TICKS,
            ..a
        },
        Err(e) => toasted(a, b, "退出失败: "@ + e@) && b == Controller { status: b.status, status_ttl: TOAST_TICKS, ..a },
    }
}

/// What a radio reply does (see [`Controller::on_radio_done`]).
pub open spec fn radio_done_post(a: Controller, b: Controller, oa: Seq<Request>, ob: Seq<Request>, result: Result<Vec<Track>, String>) -> bool {
    match result {
        Ok(tracks) => {
            let items = crate::queue::dedup_append(a.queue@.items, tracks@);
            let added = items.len() - a.queue@.items.len();
            let filled = Controller { queue: b.queue, radio_inflight: false, status: b.status, status_ttl: b.status_ttl, ..a };
            &&& added > 0 ==> toasted(a, b, radio_added_text(added as nat))
            &&& added == 0 ==> b.status == a.status && b.status_ttl == a.status_ttl
            &&& if added > 0 && a.playing_title is None {
                let m = crate::queue::QueueModel { items, ..a.queue@ };
                let next = on_next(m);
                &&& b.queue@ == crate::queue::QueueModel { current: next.0, ..m }
                &&& match next.1 {
                    Advance::Play(i) => track_started(filled, b, oa, ob, items[i as int]),
                    Advance::Stop => b == filled && ob == oa,
                }
            } else {
                &&& b.queue@ == crate::queue::QueueModel { items, ..a.queue@ }
                &&& b == filled
                &&& ob == oa
            }
        },
        Err(e) => {
            &&& b == (Controller { radio_inflight: false, status: b.status, status_ttl: b.status_ttl, ..a })
            &&& ob == oa
            &&& a.radio_on ==> toasted(a, b, "电台获取失败: "@ + e@)
            &&& !a.radio_on ==> b.status == a.status && b.status_ttl == a.status_ttl
        },
    }
}

/// What a stream reply does (see [`Controller::on_stream_resolved`]).
pub open spec fn stream_resolved_post(
    a: Controller,
    b: Controller,
    oa: Seq<Request>,
    ob: Seq<Request>,
    video_id: String,
    attempt: u8,
    result: Result<String, String>,
) -> bool {
    &&& !(a.current_video_id matches Some(c) && c@ == video_id@ && attempt == a.stream_attempt) ==> {
        b == a && ob == oa
    }
    &&& (a.current_video_id matches Some(c) && c@ == video_id@ && attempt == a.stream_attempt) ==> match result {
        Ok(url) => b == a && ob == oa.push(Request::Load(url)),
        Err(e) => if a.stream_attempt < 2 {
            &&& toasted(a, b, retry_text((a.stream_attempt + 1) as nat))
            &&& b == (Controller {
                stream_attempt: (a.stream_attempt + 1) as u8,
                status: b.status,
                status_ttl: TOAST_TICKS,
                ..a
            })
            &&& ob == oa.push(Request::ResolveStream { video_id, attempt: (a.stream_attempt + 1) as u8, retry: true })
        } else if a.ytdl_fallback {
            &&& b == a
            &&& ob.len() == oa.len() + 1
            &&& ob.drop_last() == oa
            &&& ob.last() matches Request::Load(u) && u@ == watch_url(video_id@)
        } else {
            failure_skipped(a, b, oa, ob, "解析播放地址失败，跳到下一首: "@ + e@)
        },
    }
}

/// The name of a repeat mode on the status line.
pub open spec fn repeat_text(m: RepeatMode) -> Seq<char> {
    match m {
        RepeatMode::Off => "关"@,
        RepeatMode::All => "全部循环"@,
        RepeatMode::One => "单曲循环"@,
    }
}

/// Actions that only change what is on screen.
pub open spec fn is_view_action(a: Action) -> bool {
    a == Action::Quit || a == Action::Search || a == Action::Library || a == Action::Help
        || a == Action::FocusToggle || a == Action::LyricsToggle || a == Action::History
}

/// Actions that command the player.
pub open spec fn is_player_action(a: Action) -> bool {
    a == Action::PlayPause || a == Action::Mute || a == Action::SeekBack || a == Action::SeekFwd
        || a == Action::VolDown || a == Action::VolUp || a == Action::RestartPlayer
}

fn is_view_action_exec(a: Action) -> (r: bool)
    ensures
        r == is_view_action(a),
{
    a == Action::Quit || a == Action::Search || a == Action::Library || a == Action::Help
        || a == Action::FocusToggle || a == Action::LyricsToggle || a == Action::History
}

fn is_player_action_exec(a: Action) -> (r: bool)
    ensures
        r == is_player_action(a),
{
    a == Action::PlayPause || a == Action::Mute || a == Action::SeekBack || a == Action::SeekFwd
        || a == Action::VolDown || a == Action::VolUp || a == Action::RestartPlayer
}

/// The sequence counters can still be incremented.
pub open spec fn counters_ok(c: Controller) -> bool {
    c.search_seq < u64::MAX && c.browse_seq < u64::MAX
}

/// The search tab a digit key `1`..`4` selects.
pub open spec fn digit_tab(c: char) -> Option<usize> {
    if '1' <= c <= '4' {
        Some(((c as u32) - ('1' as u32)) as usize)
    } else {
        None
    }
}

/// The selected search result, when the songs tab is on screen.
pub open spec fn selected_search(c: Controller) -> Option<Track> {
    if kind_at(c.search.kind_idx as int) == SearchKind::Songs && c.search.selected < c.search.results.tracks@.len() {
        Some(c.search.results.tracks@[c.search.selected as int])
    } else {
        None
    }
}

/// Track `t` starts: it becomes what plays (its title line shown, loading),
/// it is recorded in the history (at the time it started), its stream is
/// asked for and the interface is told; then radio may be topped up.
/// Nothing else changes.
pub open spec fn track_started(s0: Controller, s1: Controller, o0: Seq<Request>, o1: Seq<Request>, t: Track) -> bool {
    let mid = Controller {
        now_playing: Some(t),
        history: s1.history,
        playing_title: s1.playing_title,
        loading: true,
        current_video_id: Some(t.video_id),
        stream_attempt: 0,
        lyrics_scroll: 0,
        ..s0
    };
    let sent = o0 + seq![
        Request::ResolveStream { video_id: t.video_id, attempt: 0, retry: false },
        Request::TrackStarted(t),
    ];
    &&& exists|at: u64| s1.history@ == recorded(s0.history@, t, at)
    &&& s1.playing_title matches Some(l) && l@ == title_line(t)
    &&& radio_refilled(mid, s1, sent, o1)
}

/// A list is played from `start`: it replaces the queue and track `start`
/// starts; the status line gives the list's length and the position when
/// the list has more than one track. An empty list, or a start past its
/// end, leaves everything as it was but for a status line saying so.
pub open spec fn context_played(s0: Controller, s1: Controller, o0: Seq<Request>, o1: Seq<Request>, tracks: Seq<Track>, start: usize) -> bool {
    if tracks.len() == 0 || start >= tracks.len() {
        &&& s1 == (Controller { queue: s1.queue, status: s1.status, status_ttl: s1.status_ttl, ..s0 })
        &&& s1.queue@ == s0.queue@
        &&& toasted(s0, s1, "列表为空"@)
        &&& o1 == o0
    } else {
        &&& s1.queue@ == crate::queue::QueueModel { items: tracks, current: Some(start), ..s0.queue@ }
        &&& track_started(
            Controller { queue: s1.queue, ..s0 },
            Controller { status: s0.status, status_ttl: s0.status_ttl, ..s1 },
            o0,
            o1,
            tracks[start as int],
        )
        &&& tracks.len() > 1 ==> toasted(s0, s1, playing_list_text(tracks.len(), start as nat))
        &&& tracks.len() == 1 ==> s1.status == s0.status && s1.status_ttl == s0.status_ttl
    }
}

/// Page `page` opens on top of the browse stack and is asked for by
/// `req`, which carries the next page request number.
pub open spec fn page_requested(s0: Controller, s1: Controller, o0: Seq<Request>, o1: Seq<Request>, page: BrowsePage, req: Request) -> bool {
    &&& s1 == (Controller {
        browse_stack: s1.browse_stack,
        browse_seq: (s0.browse_seq + 1) as u64,
        nav: ViewNav { main_view: MainView::Browse, ..s0.nav },
        ..s0
    })
    &&& s1.browse_stack@ == s0.browse_stack@.push(page)
    &&& o1 == o0.push(req)
}

/// Enter on a search result: a song plays with the whole result list
/// queued; an album, artist or playlist opens its page.
pub open spec fn search_activated(s0: Controller, s1: Controller, o0: Seq<Request>, o1: Seq<Request>) -> bool {
    let sel = s0.search.selected;
    let r = s0.search.results;
    let seq = (s0.browse_seq + 1) as u64;
    match kind_at(s0.search.kind_idx as int) {
        SearchKind::Songs => context_played(s0, s1, o0, o1, r.tracks@, sel),
        SearchKind::Albums => if sel < r.albums@.len() {
            let a = r.albums@[sel as int];
            page_requested(s0, s1, o0, o1, BrowsePage::Album { title: a.title, data: None, selected: 0 }, Request::Album { seq, id: a.id })
        } else {
            s1 == s0 && o1 == o0
        },
        SearchKind::Artists => if sel < r.artists@.len() {
            let a = r.artists@[sel as int];
            page_requested(s0, s1, o0, o1, BrowsePage::Artist { name: a.name, data: None, selected: 0 }, Request::Artist { seq, id: a.id })
        } else {
            s1 == s0 && o1 == o0
        },
        SearchKind::Playlists => if sel < r.playlists@.len() {
            let p = r.playlists@[sel as int];
            page_requested(s0, s1, o0, o1, BrowsePage::Playlist { title: p.title, data: None, selected: 0 }, Request::Playlist { seq, id: p.id })
        } else {
            s1 == s0 && o1 == o0
        },
    }
}

/// A search for `query` starts: the page shows the search tab with empty
/// results selected from the top, under a new search number, and the tab
/// on screen is searched.
pub open spec fn search_submitted(s0: Controller, s1: Controller, o0: Seq<Request>, o1: Seq<Request>, query: Seq<char>) -> bool {
    let r = s1.search.results;
    let mid = Controller {
        search: SearchState { loading: s0.search.loading, ..s1.search },
        search_seq: (s0.search_seq + 1) as u64,
        nav: ViewNav { focus: Focus::Main, main_view: MainView::Search, ..s0.nav },
        ..s0
    };
    &&& s1.search.query@ == query
    &&& r.tracks@.len() == 0 && r.albums@.len() == 0 && r.artists@.len() == 0 && r.playlists@.len() == 0
    &&& s1.search.selected == 0
    &&& s1.search.kind_idx == s0.search.kind_idx
    &&& kind_search_fired(mid, s1, o0, o1)
}

/// A login with `input` starts: the library shows it loading, the status
/// line says it is being checked, and the login is asked for.
pub open spec fn login_submitted(s0: Controller, s1: Controller, o0: Seq<Request>, o1: Seq<Request>, input: Seq<char>) -> bool {
    &&& toasted(s0, s1, "正在验证登录.."@)
    &&& s1 == (Controller {
        library: LibraryState { loading: true, ..s0.library },
        status: s1.status,
        status_ttl: TOAST_TICKS,
        ..s0
    })
    &&& o1.len() == o0.len() + 1
    &&& o1.drop_last() == o0
    &&& o1.last() matches Request::Login(x) && x@ == input
}

/// The queue moved on (its cursor already set): track `i` starts, or
/// playback stops and the status line says the queue is finished.
pub open spec fn advanced(s0: Controller, s1: Controller, o0: Seq<Request>, o1: Seq<Request>, adv: Advance) -> bool {
    match adv {
        Advance::Play(i) => if i < s0.queue@.items.len() {
            track_started(s0, s1, o0, o1, s0.queue@.items[i as int])
        } else {
            s1 == s0 && o1 == o0
        },
        Advance::Stop => {
            &&& toasted(s0, s1, "队列播放完毕"@)
            &&& s1 == (Controller {
                playing_title: None,
                loading: false,
                current_video_id: None,
                status: s1.status,
                status_ttl: TOAST_TICKS,
                ..s0
            })
            &&& o1 == o0.push(Request::Stopped)
        },
    }
}

/// The queue's cursor was moved by `step` (the new cursor and what to do
/// next), then the queue moved on accordingly.
pub open spec fn stepped(s0: Controller, s1: Controller, o0: Seq<Request>, o1: Seq<Request>, step: (Option<usize>, Advance)) -> bool {
    &&& s1.queue@ == crate::queue::QueueModel { current: step.0, ..s0.queue@ }
    &&& advanced(Controller { queue: s1.queue, ..s0 }, s1, o0, o1, step.1)
}

/// The tracks after the playing one (all of them when none plays) are put
/// in some new order; the played ones, the playing one, the cursor and the
/// repeat mode stay.
pub open spec fn upcoming_shuffled(m0: crate::queue::QueueModel, m1: crate::queue::QueueModel) -> bool {
    let start: int = match m0.current {
        Some(c) => c + 1,
        None => 0,
    };
    &&& m1.current == m0.current
    &&& m1.repeat == m0.repeat
    &&& m1.items.len() == m0.items.len()
    &&& m1.items.subrange(0, start) == m0.items.subrange(0, start)
    &&& m1.items.subrange(start, m1.items.len() as int).to_multiset() == m0.items.subrange(start, m0.items.len() as int).to_multiset()
}

/// The player could not load the track (error `e`): the status line says
/// so and the queue skips to the next track as a manual "next" would.
pub open spec fn load_failed(s0: Controller, s1: Controller, o0: Seq<Request>, o1: Seq<Request>, e: Seq<char>) -> bool {
    failure_skipped(s0, s1, o0, o1, "加载失败，跳到下一首: "@ + e)
}

/// The playing track failed: loading stops, the status line says `msg`,
/// and the queue skips to the next track as a manual "next" would (its own
/// status line winning when the queue is finished).
pub open spec fn failure_skipped(s0: Controller, s1: Controller, o0: Seq<Request>, o1: Seq<Request>, msg: Seq<char>) -> bool {
    let n = on_next(s0.queue@);
    &&& stepped(Controller { loading: false, status: s1.status, status_ttl: TOAST_TICKS, ..s0 }, s1, o0, o1, n)
    &&& n.1 is Play ==> toasted(s0, s1, msg)
}

/// `l` twice from any page but the now-playing one comes back to that
/// page, with nothing else changed.
pub proof fn law_lyrics_toggle_round_trip(a: Controller, b: Controller, c: Controller, oa: Seq<Request>, ob: Seq<Request>, oc: Seq<Request>, past_start: bool)
    requires
        a.nav.main_view != MainView::NowPlaying,
        action_post(a, b, oa, ob, Action::LyricsToggle, past_start),
        action_post(b, c, ob, oc, Action::LyricsToggle, past_start),
    ensures
        c == (Controller { nav: ViewNav { prev_main_view: a.nav.main_view, ..a.nav }, ..a }),
        oc == oa,
{
}

/// Typing a character and then Backspace gives back the text being typed,
/// with nothing else changed.
pub proof fn law_backspace_undoes_typing(a: Controller, b: Controller, c: Controller, oa: Seq<Request>, ob: Seq<Request>, oc: Seq<Request>, ch: char)
    requires
        a.input is Some,
        input_key_post(a, b, oa, ob, KeyName::Char(ch)),
        input_key_post(b, c, ob, oc, KeyName::Backspace),
    ensures
        match a.input {
            Some((m0, t0)) => c.input matches Some((m, t)) && m == m0 && t@ == t0@,
            None => false,
        },
        c == (Controller { input: c.input, ..a }),
        oc == oa,
{
    if let Some((_, t0)) = a.input {
        assert(t0@.push(ch).drop_last() =~= t0@);
    }
}

/// Once a new search has started, the reply to any earlier one changes
/// nothing.
pub proof fn law_replies_to_older_searches_are_ignored(
    s0: Controller,
    s1: Controller,
    s2: Controller,
    o0: Seq<Request>,
    o1: Seq<Request>,
    query: Seq<char>,
    seq: u64,
    kind: SearchKind,
    result: Result<SearchResults, String>,
)
    requires
        s0.search_seq < u64::MAX,
        search_submitted(s0, s1, o0, o1, query),
        seq <= s0.search_seq,
        search_done_post(s1, s2, seq, kind, result),
    ensures
        s2 == s1,
{
}

/// Once a new page has been asked for, the reply to any earlier page
/// request changes nothing.
pub proof fn law_replies_to_older_pages_are_ignored(
    s0: Controller,
    s1: Controller,
    s2: Controller,
    o0: Seq<Request>,
    o1: Seq<Request>,
    page: BrowsePage,
    req: Request,
    seq: u64,
    filled: Option<Seq<BrowsePage>>,
    err: Option<Seq<char>>,
)
    requires
        s0.browse_seq < u64::MAX,
        page_requested(s0, s1, o0, o1, page, req),
        seq <= s0.browse_seq,
        page_done_post(s1, s2, seq, filled, err),
    ensures
        s2 == s1,
{
}

/// The search of the tab on screen is sent: nothing happens without a
/// query; otherwise the page shows it loading and the request carries the
/// current search number, the tab's kind and the query.
pub open spec fn kind_search_fired(s0: Controller, s1: Controller, o0: Seq<Request>, o1: Seq<Request>) -> bool {
    if s0.search.query@.len() == 0 {
        s1 == s0 && o1 == o0
    } else {
        &&& s1 == (Controller { search: SearchState { loading: true, ..s0.search }, ..s0 })
        &&& o1.len() == o0.len() + 1
        &&& o1.drop_last() == o0
        &&& o1.last() matches Request::Search { seq, kind, query } && seq == s0.search_seq
            && kind == kind_at(s0.search.kind_idx as int) && query@ == s0.search.query@
    }
}

/// Search tab `idx` is selected from the top; its results are fetched when
/// it has none.
pub open spec fn tab_selected(s0: Controller, s1: Controller, o0: Seq<Request>, o1: Seq<Request>, idx: usize) -> bool {
    let mid = Controller { search: SearchState { kind_idx: idx, selected: 0, ..s0.search }, ..s0 };
    if crate::app_state::results_len(s0.search.results, kind_at(idx as int)) > 0 {
        s1 == mid && o1 == o0
    } else {
        kind_search_fired(mid, s1, o0, o1)
    }
}

/// Radio tracks are asked for when radio is on, no request is out, fewer
/// than three tracks are left to play and the queue is not empty; the last
/// queued track seeds the request. Otherwise nothing changes.
pub open spec fn radio_refilled(s0: Controller, s1: Controller, o0: Seq<Request>, o1: Seq<Request>) -> bool {
    let fire = s0.radio_on && !s0.radio_inflight && upcoming(s0.queue@.items, s0.queue@.current) < RADIO_LOW_WATER
        && s0.queue@.items.len() > 0;
    if fire {
        s1 == (Controller { radio_inflight: true, ..s0 }) && o1 == o0.push(
            Request::Radio { seed: s0.queue@.items.last().video_id },
        )
    } else {
        s1 == s0 && o1 == o0
    }
}

/// Track `t` is queued at the end (then radio may be topped up), or right
/// after the playing track when `next`; the status line says which.
pub open spec fn track_queued(s0: Controller, s1: Controller, o0: Seq<Request>, o1: Seq<Request>, t: Track, next: bool) -> bool {
    let items = if next {
        s0.queue@.items.insert(
            match s0.queue@.current {
                Some(c) => c + 1,
                None => s0.queue@.items.len() as int,
            },
            t,
        )
    } else {
        s0.queue@.items.push(t)
    };
    let mid = Controller { queue: s1.queue, status: s1.status, status_ttl: s1.status_ttl, ..s0 };
    &&& s1.queue@ == crate::queue::QueueModel { items, ..s0.queue@ }
    &&& toasted(s0, s1, if next { "将作为下一首播放"@ } else { "已加入队列"@ })
    &&& next ==> s1 == mid && o1 == o0
    &&& !next ==> radio_refilled(mid, s1, o0, o1)
}

/// A key while a line is being typed: edit it, cancel it, or submit it.
/// (`s0`, `o0`: the controller and the requests out before; `s1`, `o1`: after.)
pub open spec fn input_key_post(s0: Controller, s1: Controller, o0: Seq<Request>, o1: Seq<Request>, key: KeyName) -> bool {
    match s0.input {
        None => s1 == s0 && o1 == o0,
        Some((mode, buf)) => match key {
            KeyName::Esc => s1 == (Controller { input: None, ..s0 }) && o1 == o0,
            KeyName::Enter => {
                let t = crate::text::trim_ws(buf@);
                let closed = Controller { input: None, ..s0 };
                if t.len() == 0 {
                    s1 == closed && o1 == o0
                } else if mode == InputMode::Search {
                    search_submitted(closed, s1, o0, o1, t)
                } else {
                    login_submitted(closed, s1, o0, o1, t)
                }
            },
            KeyName::Backspace => {
                &&& o1 == o0
                &&& s1.input matches Some((m, b)) && m == mode
                    && b@ == (if buf@.len() > 0 { buf@.drop_last() } else { buf@ })
                &&& s1 == (Controller { input: s1.input, ..s0 })
            },
            KeyName::Char(c) => {
                &&& o1 == o0
                &&& s1.input matches Some((m, b)) && m == mode && b@ == buf@.push(c)
                &&& s1 == (Controller { input: s1.input, ..s0 })
            },
            _ => s1 == s0 && o1 == o0,
        },
    }
}

/// A key on the search page: move, switch tabs, queue, open, or leave.
/// (`s0`, `o0`: the controller and the requests out before; `s1`, `o1`: after.)
pub open spec fn search_key_post(s0: Controller, s1: Controller, o0: Seq<Request>, o1: Seq<Request>, key: KeyName) -> bool {
    let len = crate::app_state::results_len(s0.search.results, kind_at(s0.search.kind_idx as int));
    match crate::app_state::nav_target(s0.search.selected as int, len, key) {
        Some(t) => s1 == (Controller { search: SearchState { selected: t as usize, ..s0.search }, ..s0 }) && o1 == o0,
        None => match key {
            KeyName::Char(c) => if digit_tab(c) is Some {
                tab_selected(s0, s1, o0, o1, digit_tab(c)->0)
            } else if c == ']' {
                tab_selected(s0, s1, o0, o1, ((s0.search.kind_idx + 1) % 4) as usize)
            } else if c == '[' {
                tab_selected(s0, s1, o0, o1, ((s0.search.kind_idx + 3) % 4) as usize)
            } else if c == 'a' || c == 'A' {
                match selected_search(s0) {
                    Some(t) => track_queued(s0, s1, o0, o1, t, c == 'A'),
                    None => s1 == s0 && o1 == o0,
                }
            } else {
                s1 == s0 && o1 == o0
            },
            KeyName::Esc => s1 == (Controller { nav: ViewNav { main_view: MainView::Home, ..s0.nav }, ..s0 }) && o1 == o0,
            KeyName::Enter => search_activated(s0, s1, o0, o1),
            _ => s1 == s0 && o1 == o0,
        },
    }
}

/// What a global action does: `a`, `oa` are the controller and the
/// requests out before, `b`, `ob` after.
pub open spec fn action_post(a: Controller, b: Controller, oa: Seq<Request>, ob: Seq<Request>, action: Action, past_start: bool) -> bool {
    match action {
        Action::Quit => b == Controller { should_quit: true, ..a } && ob == oa,
        Action::Search => {
            &&& ob == oa
            &&& b.input matches Some((m, q)) && m == InputMode::Search && q@ == a.search.query@
            &&& b == Controller { input: b.input, ..a }
        },
        Action::Library => ob == oa && b == Controller {
            nav: ViewNav { focus: Focus::Main, main_view: MainView::Library, ..a.nav },
            ..a
        },
        Action::Help => ob == oa && b == Controller { help_visible: true, ..a },
        Action::FocusToggle => ob == oa && b == Controller {
            nav: ViewNav { focus: if a.nav.focus == Focus::Main { Focus::Queue } else { Focus::Main }, ..a.nav },
            ..a
        },
        Action::PlayPause => b == a && ob == oa.push(Request::Player(PlayerRequest::TogglePause)),
        Action::Mute => b == a && ob == oa.push(Request::Player(PlayerRequest::ToggleMute)),
        Action::SeekBack => b == a && ob == oa.push(Request::Player(PlayerRequest::SeekBack)),
        Action::SeekFwd => b == a && ob == oa.push(Request::Player(PlayerRequest::SeekForward)),
        Action::VolDown => b == a && ob == oa.push(Request::Player(PlayerRequest::VolumeDown)),
        Action::VolUp => b == a && ob == oa.push(Request::Player(PlayerRequest::VolumeUp)),
        Action::NextTrack => stepped(a, b, oa, ob, on_next(a.queue@)),
        Action::PrevTrack => if past_start {
            b == a && ob == oa.push(Request::Player(PlayerRequest::SeekToStart))
        } else {
            stepped(a, b, oa, ob, on_prev(a.queue@))
        },
        Action::RepeatCycle => ob == oa && toasted(a, b, "循环模式: "@ + repeat_text(next_mode(a.queue@.repeat)))
            && b.queue@ == crate::queue::QueueModel { repeat: next_mode(a.queue@.repeat), ..a.queue@ }
            && b == Controller { queue: b.queue, status: b.status, status_ttl: TOAST_TICKS, ..a },
        Action::RadioToggle => {
            &&& toasted(a, b, if !a.radio_on { "电台续播: 开"@ } else { "电台续播: 关"@ })
            &&& radio_refilled(Controller { radio_on: !a.radio_on, status: b.status, status_ttl: b.status_ttl, ..a }, b, oa, ob)
        },
        Action::Shuffle => {
            &&& ob == oa
            &&& toasted(a, b, "已打乱待播队列"@)
            &&& upcoming_shuffled(a.queue@, b.queue@)
            &&& b.queue@.items.to_multiset() == a.queue@.items.to_multiset()
            &&& b == Controller { queue: b.queue, status: b.status, status_ttl: TOAST_TICKS, ..a }
        },
        Action::LyricsToggle => ob == oa && b == Controller {
            nav: if a.nav.main_view == MainView::NowPlaying {
                ViewNav { main_view: a.nav.prev_main_view, ..a.nav }
            } else {
                ViewNav { prev_main_view: a.nav.main_view, main_view: MainView::NowPlaying, ..a.nav }
            },
            ..a
        },
        Action::RestartPlayer => ob == oa && b == Controller {
            player_restart_requested: a.player_restart_requested || !a.player_alive,
            ..a
        },
        Action::History => ob == oa && b == Controller {
            nav: ViewNav { focus: Focus::Main, main_view: MainView::History, ..a.nav },
            ..a
        },
    }
}

/// The player keys send the player their own fixed command and change
/// nothing else: seek back sends a backward seek, seek forward a forward
/// one, volume down lowers the volume, volume up raises it, and play/pause
/// and mute toggle.
pub proof fn law_player_keys_send_their_command(
    a: Controller,
    b: Controller,
    oa: Seq<Request>,
    ob: Seq<Request>,
    past_start: bool,
)
    ensures
        action_post(a, b, oa, ob, Action::SeekBack, past_start) ==> b == a && ob == oa.push(
            Request::Player(PlayerRequest::SeekBack),
        ),
        action_post(a, b, oa, ob, Action::SeekFwd, past_start) ==> b == a && ob == oa.push(
            Request::Player(PlayerRequest::SeekForward),
        ),
        action_post(a, b, oa, ob, Action::VolDown, past_start) ==> b == a && ob == oa.push(
            Request::Player(PlayerRequest::VolumeDown),
        ),
        action_post(a, b, oa, ob, Action::VolUp, past_start) ==> b == a && ob == oa.push(
            Request::Player(PlayerRequest::VolumeUp),
        ),
        action_post(a, b, oa, ob, Action::PlayPause, past_start) ==> b == a && ob == oa.push(
            Request::Player(PlayerRequest::TogglePause),
        ),
        action_post(a, b, oa, ob, Action::Mute, past_start) ==> b == a && ob == oa.push(
            Request::Player(PlayerRequest::ToggleMute),
        ),
{
}

/// None of the requests sent after `o0` asks for radio tracks.
pub open spec fn asks_no_radio(o0: Seq<Request>, o1: Seq<Request>) -> bool {
    &&& o1.len() >= o0.len()
    &&& o1.subrange(0, o0.len() as int) == o0
    &&& forall|k: int| o0.len() <= k < o1.len() ==> !(#[trigger] o1[k] is Radio)
}

/// With radio off, a top-up check does nothing at all.
pub proof fn law_radio_off_never_refills(s0: Controller, s1: Controller, o0: Seq<Request>, o1: Seq<Request>)
    requires
        radio_refilled(s0, s1, o0, o1),
        !s0.radio_on,
    ensures
        s1 == s0,
        o1 == o0,
{
}

/// With radio on, nothing asked for yet, and fewer than three tracks left
/// to play in a queue that is not empty, the last queued track seeds a
/// radio request and one is now out.
pub proof fn law_radio_on_refills_when_low(s0: Controller, s1: Controller, o0: Seq<Request>, o1: Seq<Request>)
    requires
        radio_refilled(s0, s1, o0, o1),
        s0.radio_on,
        !s0.radio_inflight,
        upcoming(s0.queue@.items, s0.queue@.current) < RADIO_LOW_WATER,
        s0.queue@.items.len() > 0,
    ensures
        o1 == o0.push(Request::Radio { seed: s0.queue@.items.last().video_id }),
        s1.radio_inflight,
{
}

/// With radio off, starting a track asks for its stream and tells the
/// interface, and nothing more: no radio request, nothing newly in flight.
pub proof fn law_radio_off_start_asks_no_radio(
    s0: Controller,
    s1: Controller,
    o0: Seq<Request>,
    o1: Seq<Request>,
    t: Track,
)
    requires
        track_started(s0, s1, o0, o1, t),
        !s0.radio_on,
    ensures
        o1 == o0 + seq![
            Request::ResolveStream { video_id: t.video_id, attempt: 0, retry: false },
            Request::TrackStarted(t),
        ],
        asks_no_radio(o0, o1),
        s1.radio_inflight == s0.radio_inflight,
        !s1.radio_on,
{
    let sent = o0 + seq![
        Request::ResolveStream { video_id: t.video_id, attempt: 0, retry: false },
        Request::TrackStarted(t),
    ];
    assert(sent.subrange(0, o0.len() as int) =~= o0);
    assert forall|k: int| o0.len() <= k < sent.len() implies !(#[trigger] sent[k] is Radio) by {
        assert(k == o0.len() || k == o0.len() + 1);
    }
}

/// With radio off, playing a list sends no radio request and leaves
/// nothing newly in flight.
pub proof fn law_radio_off_play_list_asks_no_radio(
    s0: Controller,
    s1: Controller,
    o0: Seq<Request>,
    o1: Seq<Request>,
    tracks: Seq<Track>,
    start: usize,
)
    requires
        context_played(s0, s1, o0, o1, tracks, start),
        !s0.radio_on,
    ensures
        asks_no_radio(o0, o1),
        s1.radio_inflight == s0.radio_inflight,
{
    if tracks.len() == 0 || start >= tracks.len() {
        assert(o0.subrange(0, o0.len() as int) =~= o0);
    } else {
        law_radio_off_start_asks_no_radio(
            Controller { queue: s1.queue, ..s0 },
            Controller { status: s0.status, status_ttl: s0.status_ttl, ..s1 },
            o0,
            o1,
            tracks[start as int],
        );
    }
}

/// With radio off, queueing a track sends nothing and leaves nothing newly
/// in flight.
pub proof fn law_radio_off_queueing_asks_nothing(
    s0: Controller,
    s1: Controller,
    o0: Seq<Request>,
    o1: Seq<Request>,
    t: Track,
    next: bool,
)
    requires
        track_queued(s0, s1, o0, o1, t, next),
        !s0.radio_on,
    ensures
        o1 == o0,
        s1.radio_inflight == s0.radio_inflight,
{
}

/// A copy of a track list.
pub(crate) fn clone_tracks(v: &Vec<Track>) -> (r: Vec<Track>)
    ensures
        r@ == v@,
{
    let mut r: Vec<Track> = Vec::new();
    let mut i: usize = 0;
    while i < v.len()
        invariant
            i <= v@.len(),
            r@ == v@.take(i as int),
        decreases v.len() - i,
    {
        r.push(v[i].clone());
        proof {
            assert(r@ =~= v@.take(i + 1));
        }
        i = i + 1;
    }
    proof {
        assert(v@.take(i as int) =~= v@);
    }
    r
}

/// `prefix` followed by `detail`.
pub(crate) fn join_text(prefix: &str, detail: &str) -> (r: String)
    ensures
        r@ == prefix@ + detail@,
{
    let mut out: Vec<char> = Vec::new();
    extend_str(&mut out, prefix);
    extend_str(&mut out, detail);
    string_of(&out)
}

fn first_line_of(e: &str) -> (r: String)
    ensures
        r@ == first_line(e@),
{
    let cs = chars_of(e);
    let ls = crate::text::lines(&cs);
    if ls.len() > 0 {
        string_of(&ls[0])
    } else {
        e.to_owned()
    }
}

/// What an `end-file` event of the player means: `eof` is the natural end
/// of a track, `error` a track that failed to load (with the player's
/// reason, or "unknown error"); other reasons (stop, quit, redirect) come
/// from our own commands and mean nothing.
pub fn end_file_note(reason: &str, file_error: Option<String>) -> (r: Option<PlayerNote>)
    ensures
        reason@ == "eof"@ ==> r matches Some(PlayerNote::TrackEnded),
        reason@ == "error"@ ==> (r matches Some(PlayerNote::LoadFailed(e)) && e@ == match file_error {
            Some(f) => f@,
            None => "unknown error"@,
        }),
        reason@ != "eof"@ && reason@ != "error"@ ==> r is None,
{
    let rc = chars_of(reason);
    let eof = chars_of("eof");
    let error = chars_of("error");
    proof {
        reveal_strlit("eof");
        reveal_strlit("error");
        assert(eof@.len() == 3);
        assert(error@.len() == 5);
    }
    if crate::text::chars_eq(&rc, &eof) {
        Some(PlayerNote::TrackEnded)
    } else if crate::text::chars_eq(&rc, &error) {
        match file_error {
            Some(f) => Some(PlayerNote::LoadFailed(f)),
            None => Some(PlayerNote::LoadFailed("unknown error".to_owned())),
        }
    } else {
        None
    }
}

impl Controller {
    /// The invariant: the queue is well formed and the search tab exists.
    pub open spec fn wf(&self) -> bool {
        &&& self.queue.wf()
        &&& self.search.kind_idx < SearchKind::COUNT
    }

    /// The state at start-up: home page, empty queue, radio as configured,
    /// key bindings built from `[keys]`, `methods` on the login page.
    pub fn new(radio_auto: bool, ytdl_fallback: bool, keys: &Vec<(String, String)>, methods: Vec<LoginMethod>) -> (r: Self)
        ensures
            r.wf(),
            r.nav == (ViewNav { focus: Focus::Main, main_view: MainView::Home, prev_main_view: MainView::Home }),
            r.input is None,
            r.radio_on == radio_auto,
            r.ytdl_fallback == ytdl_fallback,
            r.queue@.items.len() == 0,
            r.queue@.current is None,
            r.login.methods@ == methods@,
            r.keymap@ == keymap_of(keys@),
            r.status is None,
            r.playing_title is None,
            r.browse_stack@.len() == 0,
            r.search.query@.len() == 0,
            r.search.kind_idx == 0,
            r.search.selected == 0,
            !r.search.loading,
            r.search.results.tracks@.len() == 0 && r.search.results.albums@.len() == 0,
            r.search.results.artists@.len() == 0 && r.search.results.playlists@.len() == 0,
            !r.help_visible && !r.should_quit && !r.player_restart_requested,
            r.search_seq == 0 && r.browse_seq == 0,
            r.home.tracks@.len() == 0 && r.home.albums@.len() == 0 && r.home.selected == 0 && !r.home.loading,
            r.library == (LibraryState { selected: 0, loading: false }),
            r.login.selected == 0 && !r.login.busy,
            r.queue@.repeat == RepeatMode::Off,
            r.queue_selected == 0,
            !r.radio_inflight,
            r.status_ttl == 0,
            r.now_playing is None,
            r.history@.len() == 0,
            r.current_video_id is None,
            r.stream_attempt == 0,
            !r.loading,
            !r.player_alive,
            r.lyrics_scroll == 0,
    {
        Controller {
            nav: ViewNav { focus: Focus::Main, main_view: MainView::Home, prev_main_view: MainView::Home },
            input: None,
            help_visible: false,
            should_quit: false,
            player_restart_requested: false,
            search: SearchState {
                query: String::new(),
                kind_idx: 0,
                results: SearchResults::default(),
                selected: 0,
                loading: false,
            },
            search_seq: 0,
            home: HomeState { tracks: Vec::new(), albums: Vec::new(), selected: 0, loading: false },
            library: LibraryState { selected: 0, loading: false },
            login: LoginState { methods, selected: 0, busy: false },
            browse_stack: Vec::new(),
            browse_seq: 0,
            queue: Queue::new(),
            queue_selected: 0,
            radio_on: radio_auto,
            radio_inflight: false,
            status: None,
            status_ttl: 0,
            now_playing: None,
            history: PlaybackHistory::default(),
            current_video_id: None,
            stream_attempt: 0,
            playing_title: None,
            loading: false,
            player_alive: false,
            lyrics_scroll: 0,
            ytdl_fallback,
            keymap: build_keymap(keys),
        }
    }

    /// Show `msg` on the status line for a while.
    pub fn toast(&mut self, msg: String)
        ensures
            *final(self) == (Controller { status: Some(msg), status_ttl: TOAST_TICKS, ..*old(self) }),
    {
        self.status = Some(msg);
        self.status_ttl = TOAST_TICKS;
    }

    /// A clock tick: the status message ages and disappears when it expires.
    pub fn tick(&mut self)
        ensures
            old(self).status_ttl > 0 ==> final(self).status_ttl == old(self).status_ttl - 1,
            old(self).status_ttl == 0 ==> final(self).status_ttl == 0,
            old(self).status_ttl == 1 ==> final(self).status is None,
            old(self).status_ttl != 1 ==> final(self).status == old(self).status,
    {
        if self.status_ttl > 0 {
            self.status_ttl = self.status_ttl - 1;
            if self.status_ttl == 0 {
                self.status = None;
            }
        }
    }

    /// While the key help is shown the mouse only closes it (with a
    /// button press). Returns whether the event was taken by the help.
    pub fn help_takes_mouse(&mut self, pressed: bool) -> (taken: bool)
        ensures
            taken == old(self).help_visible,
            (old(self).help_visible && pressed) ==> *final(self) == (Controller { help_visible: false, ..*old(self) }),
            !(old(self).help_visible && pressed) ==> *final(self) == *old(self),
    {
        if !self.help_visible {
            return false;
        }
        if pressed {
            self.help_visible = false;
        }
        true
    }

    /// Pasted text goes to the end of the line being typed (a multi-line
    /// cookie paste arrives as one piece); without one it is dropped.
    pub fn on_paste(&mut self, text: &str)
        ensures
            match old(self).input {
                Some((m, b)) => final(self).input matches Some((m1, b1)) && m1 == m && b1@ == b@ + text@
                    && *final(self) == (Controller { input: final(self).input, ..*old(self) }),
                None => *final(self) == *old(self),
            },
    {
        let (mode, buf) = match &self.input {
            Some((m, b)) => (*m, b.clone()),
            None => return,
        };
        let mut cs = chars_of(buf.as_str());
        extend_str(&mut cs, text);
        self.input = Some((mode, string_of(&cs)));
    }

    /// Ask for radio tracks when radio is on, no request is out and fewer
    /// than three tracks are left to play; the last queued track seeds it.
    pub fn maybe_refill_radio(&mut self, out: &mut Vec<Request>)
        requires
            old(self).wf(),
        ensures
            final(self).wf(),
            radio_refilled(*old(self), *final(self), old(out)@, final(out)@),
            !old(self).radio_on ==> *final(self) == *old(self) && final(out)@ == old(out)@,
    {
        if !self.radio_on || self.radio_inflight || self.queue.upcoming_count() >= RADIO_LOW_WATER {
            return;
        }
        let n = self.queue.len();
        if n == 0 {
            return;
        }
        let seed = self.queue.items()[n - 1].video_id.clone();
        self.radio_inflight = true;
        out.push(Request::Radio { seed });
    }

    /// Start playing `track`: it becomes what plays and is recorded in the
    /// history, its stream is resolved (first attempt), the caller is told
    /// so it can fetch lyrics, cover and segments, and radio may refill.
    pub fn start_track(&mut self, track: Track, out: &mut Vec<Request>)
        requires
            old(self).wf(),
        ensures
            final(self).wf(),
            track_started(*old(self), *final(self), old(out)@, final(out)@, track),
    {
        let ghost start = out@;
        self.now_playing = Some(track.clone());
        self.history.record(track.clone());
        let mut line: Vec<char> = chars_of(track.title.as_str());
        extend_str(&mut line, " - ");
        extend_str(&mut line, track.artists.as_str());
        self.playing_title = Some(string_of(&line));
        self.loading = true;
        self.current_video_id = Some(track.video_id.clone());
        self.stream_attempt = 0;
        self.lyrics_scroll = 0;
        out.push(Request::ResolveStream { video_id: track.video_id.clone(), attempt: 0, retry: false });
        out.push(Request::TrackStarted(track));
        proof {
            assert(out@ =~= start + seq![
                Request::ResolveStream { video_id: track.video_id, attempt: 0, retry: false },
                Request::TrackStarted(track),
            ]);
        }
        self.maybe_refill_radio(out);
    }

    /// Start the queued track at `index`, if there is one.
    pub fn start_track_at(&mut self, index: usize, out: &mut Vec<Request>)
        requires
            old(self).wf(),
        ensures
            final(self).wf(),
            index >= old(self).queue@.items.len() ==> final(out)@ == old(out)@ && *final(self) == *old(self),
            index < old(self).queue@.items.len() ==> track_started(
                *old(self),
                *final(self),
                old(out)@,
                final(out)@,
                old(self).queue@.items[index as int],
            ),
    {
        let t = match self.queue.track_at(index) {
            Some(t) => t.clone(),
            None => return,
        };
        self.start_track(t, out);
    }

    /// Playback stopped: nothing plays or loads any more.
    pub fn stop_playback(&mut self, out: &mut Vec<Request>)
        ensures
            final(self).playing_title is None,
            !final(self).loading,
            final(self).current_video_id is None,
            *final(self) == (Controller { playing_title: None, loading: false, current_video_id: None, ..*old(self) }),
            final(out)@ == old(out)@.push(Request::Stopped),
    {
        self.playing_title = None;
        self.loading = false;
        self.current_video_id = None;
        out.push(Request::Stopped);
    }

    /// Act on what the queue decided: play a track, or stop and say the
    /// queue is done.
    pub fn advance(&mut self, adv: Advance, out: &mut Vec<Request>)
        requires
            old(self).wf(),
        ensures
            final(self).wf(),
            advanced(*old(self), *final(self), old(out)@, final(out)@, adv),
    {
        match adv {
            Advance::Play(i) => self.start_track_at(i, out),
            Advance::Stop => {
                self.stop_playback(out);
                self.toast("队列播放完毕".to_owned());
            },
        }
    }

    /// Open `page` on top of the browse stack and show it.
    pub fn push_browse(&mut self, page: BrowsePage)
        ensures
            final(self).browse_stack@ == old(self).browse_stack@.push(page),
            *final(self) == (Controller {
                browse_stack: final(self).browse_stack,
                nav: ViewNav { focus: Focus::Main, main_view: MainView::Browse, ..old(self).nav },
                ..*old(self)
            }),
    {
        self.browse_stack.push(page);
        self.nav.main_view = MainView::Browse;
        self.nav.focus = Focus::Main;
    }

    /// With no browse page left, fall back to the search results, or home
    /// when nothing was searched.
    pub fn sync_view_after_pop(&mut self)
        ensures
            *final(self) == (Controller {
                nav: ViewNav {
                    main_view: view_after_pop(old(self).nav.main_view, old(self).browse_stack@, old(self).search.query@),
                    ..old(self).nav
                },
                ..*old(self)
            }),
    {
        if self.browse_stack.len() == 0 {
            self.nav.main_view = if self.search.query.as_str().unicode_len() == 0 {
                MainView::Home
            } else {
                MainView::Search
            };
        }
    }

    /// Close the top browse page after its request failed, and say why.
    fn page_failed(&mut self, msg: String)
        ensures
            page_failed_post(*old(self), *final(self), msg@),
    {
        self.browse_stack.pop();
        self.sync_view_after_pop();
        self.toast(msg);
    }

    /// A search finished.
    pub fn on_search_done(&mut self, seq: u64, kind: SearchKind, result: Result<SearchResults, String>)
        requires
            old(self).wf(),
        ensures
            final(self).wf(),
            search_done_post(*old(self), *final(self), seq, kind, result),
    {
        if seq != self.search_seq {
            return;
        }
        self.search.loading = false;
        match result {
            Ok(r) => {
                match kind {
                    SearchKind::Songs => self.search.results.tracks = r.tracks,
                    SearchKind::Albums => self.search.results.albums = r.albums,
                    SearchKind::Artists => self.search.results.artists = r.artists,
                    SearchKind::Playlists => self.search.results.playlists = r.playlists,
                }
                if self.search.kind() == kind {
                    self.search.selected = 0;
                }
            },
            Err(e) => self.toast(join_text("搜索失败: ", e.as_str())),
        }
    }

    /// An album page finished loading.
    pub fn on_album_done(&mut self, seq: u64, result: Result<AlbumDetail, String>)
        ensures
            page_done_post(*old(self), *final(self), seq, match result {
                Ok(d) => Some(filled_album(old(self).browse_stack@, d)),
                Err(_) => None,
            }, match result {
                Ok(_) => None,
                Err(e) => Some("加载专辑失败: "@ + e@),
            }),
    {
        if seq != self.browse_seq {
            return;
        }
        match result {
            Ok(d) => {
                let ghost st = self.browse_stack@;
                match self.browse_stack.pop() {
                    Some(BrowsePage::Album { title, data: _, selected }) => {
                        self.browse_stack.push(BrowsePage::Album { title, data: Some(d), selected });
                    },
                    Some(p) => {
                        self.browse_stack.push(p);
                        proof { assert(self.browse_stack@ =~= st); }
                    },
                    None => {},
                }
            },
            Err(e) => self.page_failed(join_text("加载专辑失败: ", e.as_str())),
        }
    }

    /// An artist page finished loading.
    pub fn on_artist_done(&mut self, seq: u64, result: Result<ArtistDetail, String>)
        ensures
            page_done_post(*old(self), *final(self), seq, match result {
                Ok(d) => Some(filled_artist(old(self).browse_stack@, d)),
                Err(_) => None,
            }, match result {
                Ok(_) => None,
                Err(e) => Some("加载歌手失败: "@ + e@),
            }),
    {
        if seq != self.browse_seq {
            return;
        }
        match result {
            Ok(d) => {
                let ghost st = self.browse_stack@;
                match self.browse_stack.pop() {
                    Some(BrowsePage::Artist { name, data: _, selected }) => {
                        self.browse_stack.push(BrowsePage::Artist { name, data: Some(d), selected });
                    },
                    Some(p) => {
                        self.browse_stack.push(p);
                        proof { assert(self.browse_stack@ =~= st); }
                    },
                    None => {},
                }
            },
            Err(e) => self.page_failed(join_text("加载歌手失败: ", e.as_str())),
        }
    }

    /// A playlist page finished loading.
    pub fn on_playlist_done(&mut self, seq: u64, result: Result<PlaylistDetail, String>)
        ensures
            page_done_post(*old(self), *final(self), seq, match result {
                Ok(d) => Some(filled_playlist(old(self).browse_stack@, d)),
                Err(_) => None,
            }, match result {
                Ok(_) => None,
                Err(e) => Some("加载歌单失败: "@ + e@),
            }),
    {
        if seq != self.browse_seq {
            return;
        }
        match result {
            Ok(d) => {
                let ghost st = self.browse_stack@;
                match self.browse_stack.pop() {
                    Some(BrowsePage::Playlist { title, data: _, selected }) => {
                        self.browse_stack.push(BrowsePage::Playlist { title, data: Some(d), selected });
                    },
                    Some(p) => {
                        self.browse_stack.push(p);
                        proof { assert(self.browse_stack@ =~= st); }
                    },
                    None => {},
                }
            },
            Err(e) => self.page_failed(join_text("加载歌单失败: ", e.as_str())),
        }
    }

    /// Radio tracks arrived: the new ones (not queued yet) are appended and
    /// counted on the status line; when the queue had run dry meanwhile,
    /// playback resumes with the first of them. A failure is reported only
    /// while radio is still on.
    pub fn on_radio_done(&mut self, result: Result<Vec<Track>, String>, out: &mut Vec<Request>)
        requires
            old(self).wf(),
        ensures
            final(self).wf(),
            radio_done_post(*old(self), *final(self), old(out)@, final(out)@, result),
    {
        self.radio_inflight = false;
        match result {
            Ok(tracks) => {
                let added = self.queue.append_unique(tracks);
                if added > 0 {
                    let mut msg: Vec<char> = Vec::new();
                    extend_str(&mut msg, "电台已补充 ");
                    push_decimal(&mut msg, added as u64);
                    extend_str(&mut msg, " 首");
                    self.toast(string_of(&msg));
                }
                if self.playing_title.is_none() && added > 0 {
                    let adv = self.queue.next_manual();
                    match adv {
                        Advance::Play(i) => self.start_track_at(i, out),
                        Advance::Stop => {},
                    }
                }
            },
            Err(e) => {
                if self.radio_on {
                    self.toast(join_text("电台获取失败: ", e.as_str()));
                }
            },
        }
    }

    /// A stream URL was resolved, or not. Replies for another track or an
    /// older attempt are dropped. A URL is loaded; a failure is retried
    /// twice, then the page URL is handed to the player when it can resolve
    /// it itself, and otherwise playback skips to the next track.
    pub fn on_stream_resolved(&mut self, video_id: String, attempt: u8, result: Result<String, String>, out: &mut Vec<Request>)
        requires
            old(self).wf(),
        ensures
            final(self).wf(),
            stream_resolved_post(*old(self), *final(self), old(out)@, final(out)@, video_id, attempt, result),
    {
        let same = match &self.current_video_id {
            Some(c) => *c == video_id,
            None => false,
        };
        if !same || attempt != self.stream_attempt {
            return;
        }
        match result {
            Ok(url) => out.push(Request::Load(url)),
            Err(e) => {
                if self.stream_attempt < 2 {
                    self.stream_attempt = self.stream_attempt + 1;
                    let mut msg: Vec<char> = Vec::new();
                    extend_str(&mut msg, "解析播放地址失败，正在重试 (");
                    push_decimal(&mut msg, self.stream_attempt as u64);
                    extend_str(&mut msg, "/2)");
                    self.toast(string_of(&msg));
                    out.push(Request::ResolveStream { video_id, attempt: self.stream_attempt, retry: true });
                } else if self.ytdl_fallback {
                    out.push(Request::Load(join_text("https://music.youtube.com/watch?v=", video_id.as_str())));
                    proof {
                        assert(out@.drop_last() =~= old(out)@);
                    }
                } else {
                    self.loading = false;
                    self.toast(join_text("解析播放地址失败，跳到下一首: ", e.as_str()));
                    let adv = self.queue.next_manual();
                    self.advance(adv, out);
                }
            },
        }
    }

    /// The home page arrived: its lists replace the old ones, selection at
    /// the top; a failure is reported.
    pub fn on_home_done(&mut self, result: Result<(Vec<Track>, Vec<AlbumSummary>), String>)
        ensures
            home_done_post(*old(self), *final(self), result),
    {
        self.home.loading = false;
        match result {
            Ok((tracks, albums)) => {
                self.home.tracks = tracks;
                self.home.albums = albums;
                self.home.selected = 0;
            },
            Err(e) => self.toast(join_text("加载推荐失败: ", e.as_str())),
        }
    }

    /// A library list arrived as `page`, or failed with `err`.
    fn on_library_page(&mut self, page: Option<BrowsePage>, err: String)
        ensures
            match page {
                Some(p) => opened_page(*old(self), *final(self)) && final(self).browse_stack@.last() == p,
                None => library_failed(*old(self), *final(self), err@),
            },
    {
        self.library.loading = false;
        match page {
            Some(p) => {
                self.push_browse(p);
                proof {
                    assert(self.browse_stack@.drop_last() =~= old(self).browse_stack@);
                }
            },
            None => self.toast(join_text("加载失败: ", err.as_str())),
        }
    }

    /// A track list of the library (liked music, history) arrived.
    pub fn on_library_tracks(&mut self, title: String, result: Result<Vec<Track>, String>)
        ensures
            library_done_post(*old(self), *final(self), match result {
                Ok(_) => None,
                Err(e) => Some(e@),
            }, match result {
                Ok(v) => final(self).browse_stack@.last() == (BrowsePage::Tracks { title, tracks: v, selected: 0 }),
                Err(_) => true,
            }),
    {
        match result {
            Ok(tracks) => self.on_library_page(Some(BrowsePage::Tracks { title, tracks, selected: 0 }), String::new()),
            Err(e) => self.on_library_page(None, e),
        }
    }

    /// The saved playlists arrived.
    pub fn on_library_playlists(&mut self, result: Result<Vec<PlaylistSummary>, String>)
        ensures
            library_done_post(*old(self), *final(self), match result {
                Ok(_) => None,
                Err(e) => Some(e@),
            }, match result {
                Ok(v) => final(self).browse_stack@.last() matches BrowsePage::Playlists { title, items, selected }
                    && title@ == "我的歌单"@ && items == v && selected == 0,
                Err(_) => true,
            }),
    {
        match result {
            Ok(items) => self.on_library_page(
                Some(BrowsePage::Playlists { title: "我的歌单".to_owned(), items, selected: 0 }),
                String::new(),
            ),
            Err(e) => self.on_library_page(None, e),
        }
    }

    /// The saved albums arrived.
    pub fn on_library_albums(&mut self, result: Result<Vec<AlbumSummary>, String>)
        ensures
            library_done_post(*old(self), *final(self), match result {
                Ok(_) => None,
                Err(e) => Some(e@),
            }, match result {
                Ok(v) => final(self).browse_stack@.last() matches BrowsePage::Albums { title, items, selected }
                    && title@ == "收藏的专辑"@ && items == v && selected == 0,
                Err(_) => true,
            }),
    {
        match result {
            Ok(items) => self.on_library_page(
                Some(BrowsePage::Albums { title: "收藏的专辑".to_owned(), items, selected: 0 }),
                String::new(),
            ),
            Err(e) => self.on_library_page(None, e),
        }
    }

    /// The followed artists arrived.
    pub fn on_library_artists(&mut self, result: Result<Vec<ArtistSummary>, String>)
        ensures
            library_done_post(*old(self), *final(self), match result {
                Ok(_) => None,
                Err(e) => Some(e@),
            }, match result {
                Ok(v) => final(self).browse_stack@.last() matches BrowsePage::Artists { title, items, selected }
                    && title@ == "关注的歌手"@ && items == v && selected == 0,
                Err(_) => true,
            }),
    {
        match result {
            Ok(items) => self.on_library_page(
                Some(BrowsePage::Artists { title: "关注的歌手".to_owned(), items, selected: 0 }),
                String::new(),
            ),
            Err(e) => self.on_library_page(None, e),
        }
    }

    /// The login finished: success resets the library menu; a failure shows
    /// the first line of its message (which carries the actionable part).
    pub fn on_login_done(&mut self, result: Result<(), String>)
        ensures
            login_done_post(*old(self), *final(self), result),
    {
        self.library.loading = false;
        self.login.busy = false;
        match result {
            Ok(()) => {
                self.library.selected = 0;
                self.toast("登录成功 - Enter 打开音乐库".to_owned());
            },
            Err(e) => {
                let first = first_line_of(e.as_str());
                self.toast(join_text("登录失败: ", first.as_str()));
            },
        }
    }

    /// The logout finished.
    pub fn on_logout_done(&mut self, result: Result<(), String>)
        ensures
            logout_done_post(*old(self), *final(self), result),
    {
        match result {
            Ok(()) => {
                self.login.selected = 0;
                self.toast("已退出登录".to_owned());
            },
            Err(e) => self.toast(join_text("退出失败: ", e.as_str())),
        }
    }

    /// A finished request, dispatched to its handler above.
    pub fn on_api(&mut self, msg: ApiReply, out: &mut Vec<Request>)
        requires
            old(self).wf(),
        ensures
            final(self).wf(),
            match msg {
                ApiReply::SearchDone { seq, kind, result } => search_done_post(*old(self), *final(self), seq, kind, result)
                    && final(out)@ == old(out)@,
                ApiReply::AlbumDone { seq, result } => final(out)@ == old(out)@ && page_done_post(
                    *old(self),
                    *final(self),
                    seq,
                    match result {
                        Ok(d) => Some(filled_album(old(self).browse_stack@, d)),
                        Err(_) => None,
                    },
                    match result {
                        Ok(_) => None,
                        Err(e) => Some("加载专辑失败: "@ + e@),
                    },
                ),
                ApiReply::ArtistDone { seq, result } => final(out)@ == old(out)@ && page_done_post(
                    *old(self),
                    *final(self),
                    seq,
                    match result {
                        Ok(d) => Some(filled_artist(old(self).browse_stack@, d)),
                        Err(_) => None,
                    },
                    match result {
                        Ok(_) => None,
                        Err(e) => Some("加载歌手失败: "@ + e@),
                    },
                ),
                ApiReply::PlaylistDone { seq, result } => final(out)@ == old(out)@ && page_done_post(
                    *old(self),
                    *final(self),
                    seq,
                    match result {
                        Ok(d) => Some(filled_playlist(old(self).browse_stack@, d)),
                        Err(_) => None,
                    },
                    match result {
                        Ok(_) => None,
                        Err(e) => Some("加载歌单失败: "@ + e@),
                    },
                ),
                ApiReply::RadioDone { result } => radio_done_post(*old(self), *final(self), old(out)@, final(out)@, result),
                ApiReply::StreamResolved { video_id, attempt, result } => stream_resolved_post(
                    *old(self),
                    *final(self),
                    old(out)@,
                    final(out)@,
                    video_id,
                    attempt,
                    result,
                ),
                ApiReply::HomeDone { result } => home_done_post(*old(self), *final(self), result) && final(out)@ == old(out)@,
                ApiReply::LibraryTracks { title, result } => final(out)@ == old(out)@ && library_done_post(
                    *old(self),
                    *final(self),
                    match result {
                        Ok(_) => None,
                        Err(e) => Some(e@),
                    },
                    match result {
                        Ok(v) => final(self).browse_stack@.last() == (BrowsePage::Tracks { title, tracks: v, selected: 0 }),
                        Err(_) => true,
                    },
                ),
                ApiReply::LibraryPlaylists { result } => final(out)@ == old(out)@ && library_done_post(
                    *old(self),
                    *final(self),
                    match result {
                        Ok(_) => None,
                        Err(e) => Some(e@),
                    },
                    match result {
                        Ok(v) => final(self).browse_stack@.last() matches BrowsePage::Playlists { title, items, selected }
                            && title@ == "我的歌单"@ && items == v && selected == 0,
                        Err(_) => true,
                    },
                ),
                ApiReply::LibraryAlbums { result } => final(out)@ == old(out)@ && library_done_post(
                    *old(self),
                    *final(self),
                    match result {
                        Ok(_) => None,
                        Err(e) => Some(e@),
                    },
                    match result {
                        Ok(v) => final(self).browse_stack@.last() matches BrowsePage::Albums { title, items, selected }
                            && title@ == "收藏的专辑"@ && items == v && selected == 0,
                        Err(_) => true,
                    },
                ),
                ApiReply::LibraryArtists { result } => final(out)@ == old(out)@ && library_done_post(
                    *old(self),
                    *final(self),
                    match result {
                        Ok(_) => None,
                        Err(e) => Some(e@),
                    },
                    match result {
                        Ok(v) => final(self).browse_stack@.last() matches BrowsePage::Artists { title, items, selected }
                            && title@ == "关注的歌手"@ && items == v && selected == 0,
                        Err(_) => true,
                    },
                ),
                ApiReply::LoginDone { result } => login_done_post(*old(self), *final(self), result) && final(out)@ == old(out)@,
                ApiReply::LogoutDone { result } => logout_done_post(*old(self), *final(self), result) && final(out)@ == old(out)@,
            },
    {
        match msg {
            ApiReply::SearchDone { seq, kind, result } => self.on_search_done(seq, kind, result),
            ApiReply::AlbumDone { seq, result } => self.on_album_done(seq, result),
            ApiReply::ArtistDone { seq, result } => self.on_artist_done(seq, result),
            ApiReply::PlaylistDone { seq, result } => self.on_playlist_done(seq, result),
            ApiReply::RadioDone { result } => self.on_radio_done(result, out),
            ApiReply::StreamResolved { video_id, attempt, result } => self.on_stream_resolved(video_id, attempt, result, out),
            ApiReply::HomeDone { result } => self.on_home_done(result),
            ApiReply::LibraryTracks { title, result } => self.on_library_tracks(title, result),
            ApiReply::LibraryPlaylists { result } => self.on_library_playlists(result),
            ApiReply::LibraryAlbums { result } => self.on_library_albums(result),
            ApiReply::LibraryArtists { result } => self.on_library_artists(result),
            ApiReply::LoginDone { result } => self.on_login_done(result),
            ApiReply::LogoutDone { result } => self.on_logout_done(result),
        }
    }

    /// What the player reported.
    pub fn on_player_note(&mut self, note: PlayerNote, out: &mut Vec<Request>)
        requires
            old(self).wf(),
        ensures
            final(self).wf(),
            match note {
                PlayerNote::Ready => *final(self) == (Controller { player_alive: true, ..*old(self) })
                    && final(out)@ == old(out)@,
                PlayerNote::InitFailed(e) => toasted(*old(self), *final(self), "播放器启动失败: "@ + e@)
                    && *final(self) == (Controller {
                    player_alive: false,
                    status: final(self).status,
                    status_ttl: TOAST_TICKS,
                    ..*old(self)
                }) && final(out)@ == old(out)@,
                PlayerNote::FileLoaded => *final(self) == (Controller { loading: false, ..*old(self) })
                    && final(out)@ == old(out)@,
                PlayerNote::TrackEnded => stepped(*old(self), *final(self), old(out)@, final(out)@, on_end(old(self).queue@)),
                PlayerNote::LoadFailed(e) => load_failed(*old(self), *final(self), old(out)@, final(out)@, e@),
                PlayerNote::Died => toasted(*old(self), *final(self), "mpv 已退出 - 按 R 重启播放器"@)
                    && *final(self) == (Controller {
                    player_alive: false,
                    status: final(self).status,
                    status_ttl: TOAST_TICKS,
                    ..*old(self)
                }) && final(out)@ == old(out)@,
            },
    {
        match note {
            PlayerNote::Ready => self.player_alive = true,
            PlayerNote::InitFailed(e) => {
                self.player_alive = false;
                self.toast(join_text("播放器启动失败: ", e.as_str()));
            },
            PlayerNote::FileLoaded => self.loading = false,
            PlayerNote::TrackEnded => {
                let adv = self.queue.advance_on_end();
                self.advance(adv, out);
            },
            PlayerNote::LoadFailed(e) => self.skip_failed(e, out),
            PlayerNote::Died => {
                self.player_alive = false;
                self.toast("mpv 已退出 - 按 R 重启播放器".to_owned());
            },
        }
    }

    /// The track could not be loaded: say so and skip to the next one.
    fn skip_failed(&mut self, e: String, out: &mut Vec<Request>)
        requires
            old(self).wf(),
        ensures
            final(self).wf(),
            load_failed(*old(self), *final(self), old(out)@, final(out)@, e@),
    {
        self.loading = false;
        self.toast(join_text("加载失败，跳到下一首: ", e.as_str()));
        let adv = self.queue.next_manual();
        self.advance(adv, out);
    }

    /// Fetch the home page unless it is already loading.
    pub fn load_home(&mut self, out: &mut Vec<Request>)
        ensures
            old(self).home.loading ==> *final(self) == *old(self) && final(out)@ == old(out)@,
            !old(self).home.loading ==> *final(self) == (Controller {
                home: HomeState { loading: true, ..old(self).home },
                ..*old(self)
            }) && final(out)@ == old(out)@.push(Request::Home),
    {
        if self.home.loading {
            return;
        }
        self.home.loading = true;
        out.push(Request::Home);
    }

    /// Search the current query among the kind of the selected tab (nothing
    /// without a query).
    pub fn fire_kind_search(&mut self, out: &mut Vec<Request>)
        requires
            old(self).wf(),
        ensures
            final(self).wf(),
            kind_search_fired(*old(self), *final(self), old(out)@, final(out)@),
    {
        if self.search.query.as_str().unicode_len() == 0 {
            return;
        }
        self.search.loading = true;
        let kind = self.search.kind();
        out.push(Request::Search { seq: self.search_seq, kind, query: self.search.query.clone() });
        proof {
            assert(out@.drop_last() =~= old(out)@);
        }
    }

    /// Start a new search for `query`: fresh results, search page in front.
    pub fn submit_search(&mut self, query: String, out: &mut Vec<Request>)
        requires
            old(self).wf(),
            old(self).search_seq < u64::MAX,
        ensures
            final(self).wf(),
            final(self).search.query == query,
            search_submitted(*old(self), *final(self), old(out)@, final(out)@, query@),
    {
        self.search.query = query;
        self.search.results = SearchResults::default();
        self.search.selected = 0;
        self.nav.main_view = MainView::Search;
        self.nav.focus = Focus::Main;
        self.search_seq = self.search_seq + 1;
        self.fire_kind_search(out);
    }

    /// Log in with `input` (a cookie header, cookies.txt text or path).
    pub fn submit_login(&mut self, input: String, out: &mut Vec<Request>)
        ensures
            login_submitted(*old(self), *final(self), old(out)@, final(out)@, input@),
            final(out)@ == old(out)@.push(Request::Login(input)),
    {
        self.library.loading = true;
        self.toast("正在验证登录..".to_owned());
        out.push(Request::Login(input));
        proof {
            assert(out@.drop_last() =~= old(out)@);
        }
    }

    /// Open an album page, to be filled when its request returns.
    pub fn open_album(&mut self, id: String, title: String, out: &mut Vec<Request>)
        requires
            old(self).browse_seq < u64::MAX,
        ensures
            final(self).browse_stack@ == old(self).browse_stack@.push(BrowsePage::Album { title, data: None, selected: 0 }),
            final(self).browse_seq == old(self).browse_seq + 1,
            *final(self) == (Controller {
                browse_stack: final(self).browse_stack,
                browse_seq: final(self).browse_seq,
                nav: ViewNav { main_view: MainView::Browse, ..old(self).nav },
                ..*old(self)
            }),
            final(out)@ == old(out)@.push(Request::Album { seq: final(self).browse_seq, id }),
    {
        self.browse_stack.push(BrowsePage::Album { title, data: None, selected: 0 });
        self.nav.main_view = MainView::Browse;
        self.browse_seq = self.browse_seq + 1;
        out.push(Request::Album { seq: self.browse_seq, id });
    }

    /// Open an artist page.
    pub fn open_artist(&mut self, id: String, name: String, out: &mut Vec<Request>)
        requires
            old(self).browse_seq < u64::MAX,
        ensures
            final(self).browse_stack@ == old(self).browse_stack@.push(BrowsePage::Artist { name, data: None, selected: 0 }),
            final(self).browse_seq == old(self).browse_seq + 1,
            *final(self) == (Controller {
                browse_stack: final(self).browse_stack,
                browse_seq: final(self).browse_seq,
                nav: ViewNav { main_view: MainView::Browse, ..old(self).nav },
                ..*old(self)
            }),
            final(out)@ == old(out)@.push(Request::Artist { seq: final(self).browse_seq, id }),
    {
        self.browse_stack.push(BrowsePage::Artist { name, data: None, selected: 0 });
        self.nav.main_view = MainView::Browse;
        self.browse_seq = self.browse_seq + 1;
        out.push(Request::Artist { seq: self.browse_seq, id });
    }

    /// Open a playlist page.
    pub fn open_playlist(&mut self, id: String, title: String, out: &mut Vec<Request>)
        requires
            old(self).browse_seq < u64::MAX,
        ensures
            final(self).browse_stack@ == old(self).browse_stack@.push(BrowsePage::Playlist { title, data: None, selected: 0 }),
            final(self).browse_seq == old(self).browse_seq + 1,
            *final(self) == (Controller {
                browse_stack: final(self).browse_stack,
                browse_seq: final(self).browse_seq,
                nav: ViewNav { main_view: MainView::Browse, ..old(self).nav },
                ..*old(self)
            }),
            final(out)@ == old(out)@.push(Request::Playlist { seq: final(self).browse_seq, id }),
    {
        self.browse_stack.push(BrowsePage::Playlist { title, data: None, selected: 0 });
        self.nav.main_view = MainView::Browse;
        self.browse_seq = self.browse_seq + 1;
        out.push(Request::Playlist { seq: self.browse_seq, id });
    }

    /// Shuffle what is still to play and say so.
    fn shuffle(&mut self)
        requires
            old(self).wf(),
        ensures
            final(self).wf(),
            toasted(*old(self), *final(self), "已打乱待播队列"@),
            upcoming_shuffled(old(self).queue@, final(self).queue@),
            final(self).queue@.items.to_multiset() == old(self).queue@.items.to_multiset(),
            *final(self) == (Controller { queue: final(self).queue, status: final(self).status, status_ttl: TOAST_TICKS, ..*old(self) }),
    {
        self.queue.shuffle_upcoming();
        proof {
            let q0 = old(self).queue@.items;
            let q1 = self.queue@.items;
            let st: int = match old(self).queue@.current {
                Some(c) => c + 1,
                None => 0,
            };
            assert(q0 =~= q0.subrange(0, st) + q0.subrange(st, q0.len() as int));
            assert(q1 =~= q1.subrange(0, st) + q1.subrange(st, q1.len() as int));
            vstd::seq_lib::lemma_multiset_commutative(q0.subrange(0, st), q0.subrange(st, q0.len() as int));
            vstd::seq_lib::lemma_multiset_commutative(q1.subrange(0, st), q1.subrange(st, q1.len() as int));
        }
        self.toast("已打乱待播队列".to_owned());
    }

    /// A global action (see [`Action`]); `past_start` says whether playback
    /// is more than three seconds into the track (then "previous" restarts
    /// it instead).
    /// The actions that only change what is on screen.
    fn run_view_action(&mut self, action: Action, out: &mut Vec<Request>)
        requires
            old(self).wf(),
            is_view_action(action),
        ensures
            final(self).wf(),
            action_post(*old(self), *final(self), old(out)@, final(out)@, action, false),
    {
        match action {
            Action::Quit => self.should_quit = true,
            Action::Search => {
                self.input = Some((InputMode::Search, self.search.query.clone()));
            },
            Action::Library => {
                self.nav.focus = Focus::Main;
                self.nav.main_view = MainView::Library;
            },
            Action::Help => self.help_visible = true,
            Action::FocusToggle => {
                self.nav.focus = match self.nav.focus {
                    Focus::Main => Focus::Queue,
                    Focus::Queue => Focus::Main,
                };
            },
            Action::LyricsToggle => {
                if self.nav.main_view == MainView::NowPlaying {
                    self.nav.main_view = self.nav.prev_main_view;
                } else {
                    self.nav.prev_main_view = self.nav.main_view;
                    self.nav.main_view = MainView::NowPlaying;
                }
            },
            _ => {
                self.nav.focus = Focus::Main;
                self.nav.main_view = MainView::History;
            },
        }
    }

    /// The actions that command the player.
    fn run_player_action(&mut self, action: Action, out: &mut Vec<Request>)
        requires
            old(self).wf(),
            is_player_action(action),
        ensures
            final(self).wf(),
            action_post(*old(self), *final(self), old(out)@, final(out)@, action, false),
    {
        match action {
            Action::PlayPause => out.push(Request::Player(PlayerRequest::TogglePause)),
            Action::Mute => out.push(Request::Player(PlayerRequest::ToggleMute)),
            Action::SeekBack => out.push(Request::Player(PlayerRequest::SeekBack)),
            Action::SeekFwd => out.push(Request::Player(PlayerRequest::SeekForward)),
            Action::VolDown => out.push(Request::Player(PlayerRequest::VolumeDown)),
            Action::VolUp => out.push(Request::Player(PlayerRequest::VolumeUp)),
            _ => {
                if !self.player_alive {
                    self.player_restart_requested = true;
                }
            },
        }
    }

    /// A global action (see [`Action`]); `past_start` says whether playback
    /// is more than three seconds into the track (then "previous" restarts
    /// it instead).
    pub fn run_action(&mut self, action: Action, past_start: bool, out: &mut Vec<Request>)
        requires
            old(self).wf(),
        ensures
            final(self).wf(),
            action_post(*old(self), *final(self), old(out)@, final(out)@, action, past_start),
            action == Action::SeekBack ==> final(out)@ == old(out)@.push(Request::Player(PlayerRequest::SeekBack)),
            action == Action::SeekFwd ==> final(out)@ == old(out)@.push(Request::Player(PlayerRequest::SeekForward)),
            action == Action::VolDown ==> final(out)@ == old(out)@.push(Request::Player(PlayerRequest::VolumeDown)),
            action == Action::VolUp ==> final(out)@ == old(out)@.push(Request::Player(PlayerRequest::VolumeUp)),
    {
        if is_view_action_exec(action) {
            self.run_view_action(action, out);
        } else if is_player_action_exec(action) {
            self.run_player_action(action, out);
        } else {
            match action {
                Action::NextTrack => {
                    let adv = self.queue.next_manual();
                    self.advance(adv, out);
                },
                Action::PrevTrack => {
                    if past_start {
                        out.push(Request::Player(PlayerRequest::SeekToStart));
                    } else {
                        let adv = self.queue.prev_manual();
                        self.advance(adv, out);
                    }
                },
                Action::RepeatCycle => {
                    let mode = self.queue.repeat_mode().cycle();
                    self.queue.set_repeat(mode);
                    let label = mode.label();
                    self.toast(join_text("循环模式: ", label));
                },
                Action::RadioToggle => {
                    self.radio_on = !self.radio_on;
                    if self.radio_on {
                        self.toast("电台续播: 开".to_owned());
                    } else {
                        self.toast("电台续播: 关".to_owned());
                    }
                    self.maybe_refill_radio(out);
                },
                _ => self.shuffle(),
            }
        }
    }

    /// A key while text is being typed: Esc cancels, Enter submits the
    /// trimmed text (nothing when it is empty), Backspace deletes the last
    /// character, characters are typed.
    pub fn on_input_key(&mut self, key: KeyName, out: &mut Vec<Request>)
        requires
            old(self).wf(),
            counters_ok(*old(self)),
        ensures
            final(self).wf(),
            input_key_post(*old(self), *final(self), old(out)@, final(out)@, key),
    {
        let (mode, buf) = match &self.input {
            Some((m, b)) => (*m, b.clone()),
            None => return,
        };
        match key {
            KeyName::Esc => self.input = None,
            KeyName::Enter => {
                self.input = None;
                let cs = chars_of(buf.as_str());
                let t = crate::text::trim(&cs);
                if t.len() == 0 {
                    return;
                }
                let text = string_of(&t);
                match mode {
                    InputMode::Search => self.submit_search(text, out),
                    InputMode::Login => self.submit_login(text, out),
                }
            },
            KeyName::Backspace => {
                let cs = chars_of(buf.as_str());
                let n = cs.len();
                let kept = if n > 0 {
                    crate::text::sub_chars(&cs, 0, n - 1)
                } else {
                    cs
                };
                proof {
                    if n > 0 {
                        assert(kept@ =~= buf@.drop_last());
                    }
                }
                self.input = Some((mode, string_of(&kept)));
            },
            KeyName::Char(c) => {
                let mut b = buf;
                crate::text::push_char(&mut b, c);
                self.input = Some((mode, b));
            },
            _ => {},
        }
    }

    /// The selected search result, when the songs tab is on screen.
    pub fn selected_search_track(&self) -> (r: Option<Track>)
        requires
            self.wf(),
        ensures
            r == selected_search(*self),
    {
        if self.search.kind() == SearchKind::Songs && self.search.selected < self.search.results.tracks.len() {
            Some(self.search.results.tracks[self.search.selected].clone())
        } else {
            None
        }
    }

    /// Enter on a search result: a song plays with the rest of the results
    /// queued after it; an album, artist or playlist opens its page.
    pub fn activate_search_selection(&mut self, out: &mut Vec<Request>)
        requires
            old(self).wf(),
            counters_ok(*old(self)),
        ensures
            final(self).wf(),
            final(self).nav.focus == old(self).nav.focus,
            search_activated(*old(self), *final(self), old(out)@, final(out)@),
    {
        let sel = self.search.selected;
        match self.search.kind() {
            SearchKind::Songs => {
                let list = clone_tracks(&self.search.results.tracks);
                self.play_context(list, sel, out);
            },
            SearchKind::Albums => {
                if sel < self.search.results.albums.len() {
                    let id = self.search.results.albums[sel].id.clone();
                    let title = self.search.results.albums[sel].title.clone();
                    self.open_album(id, title, out);
                }
            },
            SearchKind::Artists => {
                if sel < self.search.results.artists.len() {
                    let id = self.search.results.artists[sel].id.clone();
                    let name = self.search.results.artists[sel].name.clone();
                    self.open_artist(id, name, out);
                }
            },
            SearchKind::Playlists => {
                if sel < self.search.results.playlists.len() {
                    let id = self.search.results.playlists[sel].id.clone();
                    let title = self.search.results.playlists[sel].title.clone();
                    self.open_playlist(id, title, out);
                }
            },
        }
    }

    /// Switch the search tab; its results are fetched when it has none.
    fn select_search_tab(&mut self, idx: usize, out: &mut Vec<Request>)
        requires
            old(self).wf(),
            idx < SearchKind::COUNT,
        ensures
            final(self).wf(),
            tab_selected(*old(self), *final(self), old(out)@, final(out)@, idx),
    {
        self.search.kind_idx = idx;
        self.search.selected = 0;
        if self.search.list_len() == 0 {
            self.fire_kind_search(out);
        }
    }

    /// Queue the selected song at the end, or right after the playing one.
    fn queue_track(&mut self, t: Track, next: bool, out: &mut Vec<Request>)
        requires
            old(self).wf(),
        ensures
            final(self).wf(),
            track_queued(*old(self), *final(self), old(out)@, final(out)@, t, next),
    {
        if next {
            self.queue.play_next(t);
            self.toast("将作为下一首播放".to_owned());
        } else {
            self.queue.append(t);
            self.toast("已加入队列".to_owned());
            self.maybe_refill_radio(out);
        }
    }

    /// A key on the search page: list navigation, `1`-`4` and `[`/`]` to
    /// switch tabs, Enter to play or open, `a`/`A` to queue a song at the
    /// end or next, Esc back home.
    pub fn on_search_key(&mut self, key: KeyName, out: &mut Vec<Request>)
        requires
            old(self).wf(),
            counters_ok(*old(self)),
        ensures
            final(self).wf(),
            search_key_post(*old(self), *final(self), old(out)@, final(out)@, key),
    {
        let len = self.search.list_len();
        let mut sel = self.search.selected;
        if crate::app_state::nav_list(&mut sel, len, key) {
            self.search.selected = sel;
            return;
        }
        match key {
            KeyName::Char(c) => {
                if '1' <= c && c <= '4' {
                    let idx = ((c as u32) - ('1' as u32)) as usize;
                    self.select_search_tab(idx, out);
                } else if c == ']' {
                    let idx = (self.search.kind_idx + 1) % 4;
                    self.select_search_tab(idx, out);
                } else if c == '[' {
                    let idx = (self.search.kind_idx + 3) % 4;
                    self.select_search_tab(idx, out);
                } else if c == 'a' || c == 'A' {
                    match self.selected_search_track() {
                        Some(t) => self.queue_track(t, c == 'A', out),
                        None => {},
                    }
                }
            },
            KeyName::Esc => self.nav.main_view = MainView::Home,
            KeyName::Enter => self.activate_search_selection(out),
            _ => {},
        }
    }

    /// Play `tracks` from `start`, making that list the queue so playback
    /// continues in list order (an album keeps playing as an album).
    pub fn play_context(&mut self, tracks: Vec<Track>, start: usize, out: &mut Vec<Request>)
        requires
            old(self).wf(),
        ensures
            final(self).wf(),
            context_played(*old(self), *final(self), old(out)@, final(out)@, tracks@, start),
    {
        let count = tracks.len();
        let ghost tv = tracks@;
        match self.queue.set_context(tracks, start) {
            Some(idx) => {
                self.start_track_at(idx, out);
                if count > 1 {
                    let mut msg: Vec<char> = Vec::new();
                    extend_str(&mut msg, "播放中 - 队列 ");
                    push_decimal(&mut msg, count as u64);
                    extend_str(&mut msg, " 首（第 ");
                    push_decimal(&mut msg, (idx as u64) + 1);
                    extend_str(&mut msg, " 首）");
                    proof {
                        assert(msg@ =~= playing_list_text(tv.len(), start as nat));
                    }
                    self.toast(string_of(&msg));
                }
            },
            None => self.toast("列表为空".to_owned()),
        }
    }
}

} // verus!
