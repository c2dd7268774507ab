//! What keys, clicks and the mouse wheel do on each page.

use vstd::prelude::*;

use crate::app_state::{
    nav_list, nav_target, page_rows, page_selected, scroll_step, scrolled, with_selected,
    BrowsePage, Focus, HomeState, InputMode, LibraryState, LoginState, LoginMethod, MainView, ViewNav, LIBRARY_MENU_LEN,
};
use crate::config::KeyName;
use crate::controller::{
    clone_tracks, counters_ok, join_text, toasted, view_after_pop,
    context_played, input_key_post, page_requested, search_key_post, tab_selected, track_queued, track_started,
    Controller, Request,
};
use crate::models::Track;
use crate::ui::{in_area, offsets_fit, Area, HitMap, MainListKind};

verus! {

/// The rows of a page as a `usize`, saturated (a page cannot hold that many).
pub open spec fn rows_of(p: BrowsePage) -> usize {
    if page_rows(p) <= usize::MAX {
        page_rows(p) as usize
    } else {
        usize::MAX
    }
}

fn page_row_count(p: &BrowsePage) -> (r: usize)
    ensures
        r == rows_of(*p),
{
    match p {
        BrowsePage::Album { data, .. } => match data {
            Some(d) => d.tracks.len(),
            None => 0,
        },
        BrowsePage::Playlist { data, .. } => match data {
            Some(d) => d.tracks.len(),
            None => 0,
        },
        BrowsePage::Artist { data, .. } => match data {
            Some(d) => d.top_tracks.len().saturating_add(d.albums.len()),
            None => 0,
        },
        BrowsePage::Tracks { tracks, .. } => tracks.len(),
        BrowsePage::Albums { items, .. } => items.len(),
        BrowsePage::Artists { items, .. } => items.len(),
        BrowsePage::Playlists { items, .. } => items.len(),
    }
}

/// The track selected on a page, when a track row is selected.
pub open spec fn page_track(p: BrowsePage) -> Option<Track> {
    match p {
        BrowsePage::Album { data: Some(d), selected, .. } => if selected < d.tracks@.len() {
            Some(d.tracks@[selected as int])
        } else {
            None
        },
        BrowsePage::Playlist { data: Some(d), selected, .. } => if selected < d.tracks@.len() {
            Some(d.tracks@[selected as int])
        } else {
            None
        },
        BrowsePage::Artist { data: Some(d), selected, .. } => if selected < d.top_tracks@.len() {
            Some(d.top_tracks@[selected as int])
        } else {
            None
        },
        BrowsePage::Tracks { tracks, selected, .. } => if selected < tracks@.len() {
            Some(tracks@[selected as int])
        } else {
            None
        },
        _ => None,
    }
}

/// The track list a page plays with `P` (empty for lists of albums,
/// artists or playlists, and for pages still loading).
pub open spec fn page_tracks(p: BrowsePage) -> Seq<Track> {
    match p {
        BrowsePage::Album { data: Some(d), .. } => d.tracks@,
        BrowsePage::Playlist { data: Some(d), .. } => d.tracks@,
        BrowsePage::Artist { data: Some(d), .. } => d.top_tracks@,
        BrowsePage::Tracks { tracks, .. } => tracks@,
        _ => Seq::empty(),
    }
}

/// The row a click on physical row `row` of the home list selects: the
/// two section headers (above the tracks and above the albums) select
/// nothing.
pub open spec fn home_row(row: int, tracks: int) -> Option<int> {
    if row == 0 || row == tracks + 1 {
        None
    } else if row <= tracks {
        Some(row - 1)
    } else {
        Some(row - 2)
    }
}

/// Which list the mouse wheel turned over.
#[derive(Debug, Clone, Copy, PartialEq, Eq, Structural)]
pub enum ScrollTarget {
    Queue,
    Main(MainListKind),
    /// The lyrics of the now-playing page.
    Lyrics,
}

/// The search tab under a click `offset` columns into a tab bar `width`
/// columns wide (the bar is split in even quarters).
pub open spec fn tab_at(offset: int, width: int) -> int {
    let w = if width < 1 { 1 } else { width };
    let q = offset * 4 / w;
    if q > 3 { 3 } else { q }
}

/// The search tab under a click `offset` columns into the tab bar.
pub fn search_tab_at(offset: u16, width: u16) -> (r: usize)
    ensures
        r == tab_at(offset as int, width as int),
        r < 4,
{
    let w: u32 = if width < 1 { 1 } else { width as u32 };
    let q: u32 = (offset as u32) * 4 / w;
    if q > 3 { 3 } else { q as usize }
}

/// A key on a browse page: move, go back, queue, play or open.
/// (`s0`, `o0`: the controller and the requests out before; `s1`, `o1`: after.)
pub open spec fn browse_key_post(s0: Controller, s1: Controller, o0: Seq<Request>, o1: Seq<Request>, key: KeyName) -> bool {
    let unchanged = s1 == s0 && o1 == o0;
    if s0.browse_stack@.len() == 0 {
        s1 == (Controller {
            nav: ViewNav { main_view: view_after_pop(s0.nav.main_view, s0.browse_stack@, s0.search.query@), ..s0.nav },
            ..s0
        }) && o1 == o0
    } else {
        let p = s0.browse_stack@.last();
        match nav_target(page_selected(p) as int, rows_of(p) as int, key) {
            Some(t) => {
                &&& s1 == (Controller { browse_stack: s1.browse_stack, ..s0 })
                &&& s1.browse_stack@.len() == s0.browse_stack@.len()
                &&& s1.browse_stack@.drop_last() == s0.browse_stack@.drop_last()
                &&& with_selected(p, s1.browse_stack@.last(), t as usize)
                &&& o1 == o0
            },
            None => match key {
                KeyName::Esc | KeyName::Backspace => {
                    &&& s1 == (Controller {
                        browse_stack: s1.browse_stack,
                        nav: ViewNav {
                            main_view: view_after_pop(s0.nav.main_view, s0.browse_stack@.drop_last(), s0.search.query@),
                            ..s0.nav
                        },
                        ..s0
                    })
                    &&& s1.browse_stack@ == s0.browse_stack@.drop_last()
                    &&& o1 == o0
                },
                KeyName::Enter => browse_activated(s0, s1, o0, o1, false),
                KeyName::Char(c) => if c == 'a' {
                    browse_activated(s0, s1, o0, o1, true)
                } else if c == 'A' {
                    match page_track(p) {
                        Some(t) => track_queued(s0, s1, o0, o1, t, true),
                        None => unchanged,
                    }
                } else if c == 'P' {
                    context_played(s0, s1, o0, o1, page_tracks(p), 0)
                } else {
                    unchanged
                },
                _ => unchanged,
            },
        }
    }
}

/// A key on the home page: move, retry loading, queue, play or open.
/// (`s0`, `o0`: the controller and the requests out before; `s1`, `o1`: after.)
pub open spec fn home_key_post(s0: Controller, s1: Controller, o0: Seq<Request>, o1: Seq<Request>, key: KeyName) -> bool {
    let t = s0.home.tracks@;
    let rows = if t.len() + s0.home.albums@.len() <= usize::MAX {
        (t.len() + s0.home.albums@.len()) as int
    } else {
        usize::MAX as int
    };
    let sel = s0.home.selected as int;
    let unchanged = s1 == s0 && o1 == o0;
    if rows == 0 && key == KeyName::Char('g') {
        if s0.home.loading {
            unchanged
        } else {
            s1 == (Controller { home: HomeState { loading: true, ..s0.home }, ..s0 }) && o1 == o0.push(Request::Home)
        }
    } else {
        match nav_target(sel, rows, key) {
            Some(n) => s1 == (Controller { home: HomeState { selected: n as usize, ..s0.home }, ..s0 }) && o1 == o0,
            None => match key {
                KeyName::Enter => home_activated(s0, s1, o0, o1),
                KeyName::Char(c) => if (c == 'a' || c == 'A') && sel < t.len() {
                    track_queued(s0, s1, o0, o1, t[sel], c == 'A')
                } else {
                    unchanged
                },
                _ => unchanged,
            },
        }
    }
}

/// Enter on the home page: a chart track plays with the whole chart
/// queued; a new album opens its page.
pub open spec fn home_activated(s0: Controller, s1: Controller, o0: Seq<Request>, o1: Seq<Request>) -> bool {
    let sel = s0.home.selected as int;
    let t = s0.home.tracks@;
    let al = s0.home.albums@;
    if sel < t.len() {
        context_played(s0, s1, o0, o1, t, sel as usize)
    } else if sel - t.len() < al.len() {
        let a = al[sel - t.len()];
        page_requested(
            s0,
            s1,
            o0,
            o1,
            BrowsePage::Album { title: a.title, data: None, selected: 0 },
            Request::Album { seq: (s0.browse_seq + 1) as u64, id: a.id },
        )
    } else {
        s1 == s0 && o1 == o0
    }
}

/// A key on the local history page: move, play, or leave.
/// (`s0`, `o0`: the controller and the requests out before; `s1`, `o1`: after.)
pub open spec fn history_key_post(s0: Controller, s1: Controller, o0: Seq<Request>, o1: Seq<Request>, key: KeyName) -> bool {
    let sel = s0.library.selected as int;
    let n = s0.history@.len() as int;
    let up = if sel >= 1 { sel - 1 } else { 0 };
    let last = if n > 0 { n - 1 } else { 0 };
    let down = if sel < last { sel + 1 } else { last };
    let unchanged = s1 == s0 && o1 == o0;
    match key {
        KeyName::Up | KeyName::Char('k') => library_row_selected(s0, s1, o0, o1, up),
        KeyName::Down | KeyName::Char('j') => library_row_selected(s0, s1, o0, o1, down),
        KeyName::Enter => if sel < n {
            let t = s0.history@[sel].track;
            &&& s1.queue@ == crate::queue::QueueModel { items: seq![t], current: Some(0usize), ..s0.queue@ }
            &&& track_started(Controller { queue: s1.queue, ..s0 }, s1, o0, o1, t)
        } else {
            unchanged
        },
        KeyName::Esc => s1 == (Controller { nav: ViewNav { main_view: MainView::Home, ..s0.nav }, ..s0 }) && o1 == o0,
        _ => unchanged,
    }
}

/// Row `row` of the library menu (or of the history list) is selected;
/// nothing else changes.
pub open spec fn library_row_selected(s0: Controller, s1: Controller, o0: Seq<Request>, o1: Seq<Request>, row: int) -> bool {
    s1 == (Controller { library: LibraryState { selected: row as usize, ..s0.library }, ..s0 }) && o1 == o0
}

/// A key on the library page: the login methods when logged out, the library menu when logged in.
/// (`s0`, `o0`: the controller and the requests out before; `s1`, `o1`: after.)
pub open spec fn library_key_post(s0: Controller, s1: Controller, o0: Seq<Request>, o1: Seq<Request>, key: KeyName, logged_in: bool) -> bool {
    if logged_in {
        library_menu_key_post(s0, s1, o0, o1, key)
    } else {
        login_key_post(s0, s1, o0, o1, key)
    }
}

/// A key on the login page: move among the login methods, choose one, or
/// leave.
pub open spec fn login_key_post(s0: Controller, s1: Controller, o0: Seq<Request>, o1: Seq<Request>, key: KeyName) -> bool {
    match nav_target(s0.login.selected as int, s0.login.methods@.len() as int, key) {
        Some(t) => s1 == (Controller { login: LoginState { selected: t as usize, ..s0.login }, ..s0 }) && o1 == o0,
        None => match key {
            KeyName::Enter => login_method_activated(s0, s1, o0, o1, s0.login.selected),
            KeyName::Esc => s1 == (Controller { nav: ViewNav { main_view: MainView::Home, ..s0.nav }, ..s0 }) && o1 == o0,
            _ => s1 == s0 && o1 == o0,
        },
    }
}

/// A key on the library menu: move, open an entry, log out, or leave.
pub open spec fn library_menu_key_post(s0: Controller, s1: Controller, o0: Seq<Request>, o1: Seq<Request>, key: KeyName) -> bool {
    let sel = s0.library.selected as int;
    let up = if sel >= 1 { sel - 1 } else { 0 };
    let down = if sel < LIBRARY_MENU_LEN - 1 { sel + 1 } else { LIBRARY_MENU_LEN - 1 };
    match key {
        KeyName::Up | KeyName::Char('k') => library_row_selected(s0, s1, o0, o1, up),
        KeyName::Down | KeyName::Char('j') => library_row_selected(s0, s1, o0, o1, down),
        KeyName::Char('x') => s1 == s0 && o1 == o0.push(Request::Logout),
        KeyName::Enter => library_item_opened(s0, s1, o0, o1, s0.library.selected),
        KeyName::Esc => s1 == (Controller { nav: ViewNav { main_view: MainView::Home, ..s0.nav }, ..s0 }) && o1 == o0,
        _ => s1 == s0 && o1 == o0,
    }
}

/// A key in the queue pane: move, play, remove, reorder, or leave.
/// (`s0`, `o0`: the controller and the requests out before; `s1`, `o1`: after.)
pub open spec fn queue_key_post(s0: Controller, s1: Controller, o0: Seq<Request>, o1: Seq<Request>, key: KeyName) -> bool {
    let n = s0.queue@.items.len();
    match nav_target(s0.queue_selected as int, n as int, key) {
        Some(t) => s1 == (Controller { queue_selected: t as usize, ..s0 }) && o1 == o0,
        None => match key {
            KeyName::Enter => queue_row_played(s0, s1, o0, o1),
            KeyName::Char('x') => queue_row_removed(s0, s1) && o1 == o0,
            KeyName::Char('K') => queue_row_moved(s0, s1, true) && o1 == o0,
            KeyName::Char('J') => queue_row_moved(s0, s1, false) && o1 == o0,
            KeyName::Esc => s1 == (Controller { nav: ViewNav { focus: Focus::Main, ..s0.nav }, ..s0 }) && o1 == o0,
            _ => s1 == s0 && o1 == o0,
        },
    }
}

/// Enter in the queue pane: the selected row plays.
pub open spec fn queue_row_played(s0: Controller, s1: Controller, o0: Seq<Request>, o1: Seq<Request>) -> bool {
    let sel = s0.queue_selected;
    let q = s0.queue@;
    if sel < q.items.len() {
        &&& s1.queue@ == crate::queue::QueueModel { current: Some(sel), ..q }
        &&& track_started(Controller { queue: s1.queue, ..s0 }, s1, o0, o1, q.items[sel as int])
    } else {
        s1 == s0 && o1 == o0
    }
}

/// `x` in the queue pane: the selected row is removed, unless it is the one
/// playing (the status line then says it cannot be); the selection stays
/// on the last row when that was removed.
pub open spec fn queue_row_removed(s0: Controller, s1: Controller) -> bool {
    let sel = s0.queue_selected;
    let q = s0.queue@;
    let n = q.items.len();
    if sel < n && q.current != Some(sel) {
        &&& s1.queue@ == crate::queue::QueueModel {
            items: q.items.remove(sel as int),
            current: match q.current {
                Some(c) => if sel < c { Some((c - 1) as usize) } else { Some(c) },
                None => None,
            },
            ..q
        }
        &&& s1 == (Controller {
            queue: s1.queue,
            queue_selected: if sel >= n - 1 && sel > 0 { (sel - 1) as usize } else { sel },
            ..s0
        })
    } else if sel < n {
        toasted(s0, s1, "不能移除正在播放的曲目"@) && s1 == (Controller { status: s1.status, status_ttl: s1.status_ttl, ..s0 })
    } else {
        s1 == s0
    }
}

/// `K` (`up`) or `J` in the queue pane: the selected row trades places with
/// the one above or below it, the playing mark and the selection following
/// the rows; nothing happens at either end.
pub open spec fn queue_row_moved(s0: Controller, s1: Controller, up: bool) -> bool {
    let i = s0.queue_selected as int;
    let q = s0.queue@;
    let j = if up { i - 1 } else { i + 1 };
    if 0 <= j < q.items.len() && i < q.items.len() {
        &&& s1.queue@ == crate::queue::QueueModel {
            items: q.items.update(i, q.items[j]).update(j, q.items[i]),
            current: match q.current {
                Some(c) => if c == i { Some(j as usize) } else if c == j { Some(i as usize) } else { Some(c) },
                None => None,
            },
            ..q
        }
        &&& s1 == (Controller { queue: s1.queue, queue_selected: j as usize, ..s0 })
    } else {
        s1 == s0
    }
}

/// A key on the now-playing page: leave it, or scroll plain lyrics.
/// (`s0`: the controller before; `s1`: after.)
pub open spec fn lyrics_key_post(s0: Controller, s1: Controller, key: KeyName) -> bool {
    let up: u16 = if s0.lyrics_scroll >= 1 { (s0.lyrics_scroll - 1) as u16 } else { 0 };
    let down: u16 = if s0.lyrics_scroll < u16::MAX { (s0.lyrics_scroll + 1) as u16 } else { u16::MAX };
    match key {
        KeyName::Esc => s1 == (Controller { nav: ViewNav { main_view: s0.nav.prev_main_view, ..s0.nav }, ..s0 }),
        KeyName::Up | KeyName::Char('k') => s1 == (Controller { lyrics_scroll: up, ..s0 }),
        KeyName::Down | KeyName::Char('j') => s1 == (Controller { lyrics_scroll: down, ..s0 }),
        _ => s1 == s0,
    }
}

/// Row `sel` of track list `list` is acted on: with `append` the track is
/// queued at the end, otherwise the list plays from it. Nothing happens
/// past the end of the list.
pub open spec fn track_acted(s0: Controller, s1: Controller, o0: Seq<Request>, o1: Seq<Request>, list: Seq<Track>, sel: usize, append: bool) -> bool {
    if sel >= list.len() {
        s1 == s0 && o1 == o0
    } else if append {
        track_queued(s0, s1, o0, o1, list[sel as int], false)
    } else {
        context_played(s0, s1, o0, o1, list, sel)
    }
}

/// Enter (`append` false) or `a` (`append` true) on the browse page on
/// top: a track row plays with the page's list, or is queued at the end;
/// an album, artist or playlist row opens its page (whichever key).
pub open spec fn browse_activated(s0: Controller, s1: Controller, o0: Seq<Request>, o1: Seq<Request>, append: bool) -> bool {
    let unchanged = s1 == s0 && o1 == o0;
    let seq = (s0.browse_seq + 1) as u64;
    if s0.browse_stack@.len() == 0 {
        unchanged
    } else {
        match s0.browse_stack@.last() {
            BrowsePage::Album { data, selected, .. } => match data {
                Some(d) => track_acted(s0, s1, o0, o1, d.tracks@, selected, append),
                None => unchanged,
            },
            BrowsePage::Playlist { data, selected, .. } => match data {
                Some(d) => track_acted(s0, s1, o0, o1, d.tracks@, selected, append),
                None => unchanged,
            },
            BrowsePage::Tracks { tracks, selected, .. } => track_acted(s0, s1, o0, o1, tracks@, selected, append),
            BrowsePage::Artist { data, selected, .. } => match data {
                Some(d) => if selected < d.top_tracks@.len() {
                    track_acted(s0, s1, o0, o1, d.top_tracks@, selected, append)
                } else if selected - d.top_tracks@.len() < d.albums@.len() {
                    let a = d.albums@[selected - d.top_tracks@.len()];
                    page_requested(s0, s1, o0, o1, BrowsePage::Album { title: a.title, data: None, selected: 0 }, Request::Album { seq, id: a.id })
                } else {
                    unchanged
                },
                None => unchanged,
            },
            BrowsePage::Albums { items, selected, .. } => if selected < items@.len() {
                let a = items@[selected as int];
                page_requested(s0, s1, o0, o1, BrowsePage::Album { title: a.title, data: None, selected: 0 }, Request::Album { seq, id: a.id })
            } else {
                unchanged
            },
            BrowsePage::Artists { items, selected, .. } => if selected < items@.len() {
                let a = items@[selected as int];
                page_requested(s0, s1, o0, o1, BrowsePage::Artist { name: a.name, data: None, selected: 0 }, Request::Artist { seq, id: a.id })
            } else {
                unchanged
            },
            BrowsePage::Playlists { items, selected, .. } => if selected < items@.len() {
                let p = items@[selected as int];
                page_requested(s0, s1, o0, o1, BrowsePage::Playlist { title: p.title, data: None, selected: 0 }, Request::Playlist { seq, id: p.id })
            } else {
                unchanged
            },
        }
    }
}

/// Entry `index` of the library menu is opened: its list is asked for,
/// unless a list is already loading.
pub open spec fn library_item_opened(s0: Controller, s1: Controller, o0: Seq<Request>, o1: Seq<Request>, index: usize) -> bool {
    &&& s0.library.loading ==> s1 == s0 && o1 == o0
    &&& !s0.library.loading ==> s1 == (Controller {
        library: crate::app_state::LibraryState { loading: true, ..s0.library },
        ..s0
    }) && o1 == o0.push(Request::Library(index))
}

/// Login method `index` is chosen: manual entry opens the cookie editor,
/// the web page is opened in the browser, or a browser's cookies are read;
/// nothing happens while a login is under way or past the last method.
pub open spec fn login_method_activated(s0: Controller, s1: Controller, o0: Seq<Request>, o1: Seq<Request>, index: usize) -> bool {
    &&& (s0.login.busy || index >= s0.login.methods@.len()) ==> s1 == s0
        && o1 == o0
    &&& (!s0.login.busy && index < s0.login.methods@.len()) ==> match s0.login.methods@[index as int] {
        LoginMethod::Manual => {
            &&& o1 == o0
            &&& s1.input matches Some((m, b)) && m == InputMode::Login && b@.len() == 0
            &&& s1 == (Controller { input: s1.input, ..s0 })
        },
        LoginMethod::OpenBrowser => s1 == s0 && o1 == o0.push(Request::OpenLoginPage),
        LoginMethod::Browser { display, profile } => {
            &&& toasted(s0, s1, "正在从 "@ + display@ + " 读取登录信息.."@)
            &&& s1 == (Controller {
                login: crate::app_state::LoginState { busy: true, ..s0.login },
                status: s1.status,
                status_ttl: s1.status_ttl,
                ..s0
            })
            &&& o1 == o0.push(Request::LoginWithBrowser(*profile))
        },
    }
}

/// A click on row `idx` of the queue pane: the pane takes the focus and
/// the row is selected; a double click plays it.
pub open spec fn queue_clicked(s0: Controller, s1: Controller, o0: Seq<Request>, o1: Seq<Request>, idx: usize, double: bool) -> bool {
    let focused = Controller { nav: ViewNav { focus: Focus::Queue, ..s0.nav }, ..s0 };
    let selected = Controller { queue_selected: idx, ..focused };
    if idx >= s0.queue@.items.len() {
        s1 == focused && o1 == o0
    } else if double {
        queue_row_played(selected, s1, o0, o1)
    } else {
        s1 == selected && o1 == o0
    }
}

/// Page `view` is shown in the main pane, which takes the focus; the
/// now-playing page remembers where it was entered from, and the search
/// page opens the query editor when there is no query yet.
pub open spec fn view_entered(s0: Controller, s1: Controller, view: MainView) -> bool {
    let prev = if view == MainView::NowPlaying && s0.nav.main_view != MainView::NowPlaying {
        s0.nav.main_view
    } else {
        s0.nav.prev_main_view
    };
    let nav = ViewNav { focus: Focus::Main, main_view: view, prev_main_view: prev };
    if view == MainView::Search && s0.search.query@.len() == 0 {
        &&& s1 == (Controller { nav, input: s1.input, ..s0 })
        &&& s1.input matches Some((m, b)) && m == InputMode::Search && b@.len() == 0
    } else {
        s1 == (Controller { nav, ..s0 })
    }
}

/// A click on physical row `row` of the main pane's list: the main pane
/// takes the focus and the row's item is selected; a double click also
/// activates it as Enter would.
pub open spec fn main_clicked(
    s0: Controller,
    s1: Controller,
    o0: Seq<Request>,
    o1: Seq<Request>,
    kind: MainListKind,
    row: usize,
    double: bool,
    logged_in: bool,
) -> bool {
    let f = Controller { nav: ViewNav { focus: Focus::Main, ..s0.nav }, ..s0 };
    match kind {
        MainListKind::Search => search_row_clicked(f, s1, o0, o1, row, double),
        MainListKind::Library => library_row_clicked(f, s1, o0, o1, row, double, logged_in),
        MainListKind::Home => home_row_clicked(f, s1, o0, o1, row, double),
        MainListKind::Browse => browse_row_clicked(f, s1, o0, o1, row, double),
    }
}

/// Row `row` of the search results is clicked (`double`: twice).
pub open spec fn search_row_clicked(s0: Controller, s1: Controller, o0: Seq<Request>, o1: Seq<Request>, row: usize, double: bool) -> bool {
    if row < crate::app_state::results_len(s0.search.results, crate::models::kind_at(s0.search.kind_idx as int)) {
        let sel = Controller { search: crate::app_state::SearchState { selected: row, ..s0.search }, ..s0 };
        if double { crate::controller::search_activated(sel, s1, o0, o1) } else { s1 == sel && o1 == o0 }
    } else {
        s1 == s0 && o1 == o0
    }
}

/// Row `row` of the library page is clicked: a menu entry when logged in,
/// a login method otherwise.
pub open spec fn library_row_clicked(
    s0: Controller,
    s1: Controller,
    o0: Seq<Request>,
    o1: Seq<Request>,
    row: usize,
    double: bool,
    logged_in: bool,
) -> bool {
    if logged_in {
        if row < LIBRARY_MENU_LEN {
            let sel = Controller { library: LibraryState { selected: row, ..s0.library }, ..s0 };
            if double { library_item_opened(sel, s1, o0, o1, row) } else { s1 == sel && o1 == o0 }
        } else {
            s1 == s0 && o1 == o0
        }
    } else {
        if row < s0.login.methods@.len() {
            let sel = Controller { login: LoginState { selected: row, ..s0.login }, ..s0 };
            if double { login_method_activated(sel, s1, o0, o1, row) } else { s1 == sel && o1 == o0 }
        } else {
            s1 == s0 && o1 == o0
        }
    }
}

/// Physical row `row` of the home list is clicked; the section headers
/// select nothing.
pub open spec fn home_row_clicked(s0: Controller, s1: Controller, o0: Seq<Request>, o1: Seq<Request>, row: usize, double: bool) -> bool {
    match home_row(row as int, s0.home.tracks@.len() as int) {
        Some(i) => if i < s0.home.tracks@.len() + s0.home.albums@.len() {
            let sel = Controller { home: HomeState { selected: i as usize, ..s0.home }, ..s0 };
            if double { home_activated(sel, s1, o0, o1) } else { s1 == sel && o1 == o0 }
        } else {
            s1 == s0 && o1 == o0
        },
        None => s1 == s0 && o1 == o0,
    }
}

/// Row `row` of the browse page on top is clicked.
pub open spec fn browse_row_clicked(s0: Controller, s1: Controller, o0: Seq<Request>, o1: Seq<Request>, row: usize, double: bool) -> bool {
    if s0.browse_stack@.len() > 0 && row < rows_of(s0.browse_stack@.last()) {
        exists|sel: Controller| {
            &&& #[trigger] sel.browse_stack@.len() == s0.browse_stack@.len()
            &&& sel == (Controller { browse_stack: sel.browse_stack, ..s0 })
            &&& sel.browse_stack@.drop_last() == s0.browse_stack@.drop_last()
            &&& with_selected(s0.browse_stack@.last(), sel.browse_stack@.last(), row)
            &&& if double { browse_activated(sel, s1, o0, o1, false) } else { s1 == sel && o1 == o0 }
        }
    } else {
        s1 == s0 && o1 == o0
    }
}

/// The wheel turned `delta` rows over the browse page on top: its
/// selection moves within the page.
pub open spec fn browse_scrolled(s0: Controller, s1: Controller, delta: i32) -> bool {
    if s0.browse_stack@.len() > 0 {
        &&& s1 == (Controller { browse_stack: s1.browse_stack, ..s0 })
        &&& s1.browse_stack@.len() == s0.browse_stack@.len()
        &&& s1.browse_stack@.drop_last() == s0.browse_stack@.drop_last()
        &&& with_selected(
            s0.browse_stack@.last(),
            s1.browse_stack@.last(),
            scrolled(
                page_selected(s0.browse_stack@.last()) as int,
                rows_of(s0.browse_stack@.last()) as int,
                delta as int,
            ) as usize,
        )
    } else {
        s1 == s0
    }
}

/// The wheel turned `delta` rows over plain lyrics: they scroll, within
/// the range of the offset.
pub open spec fn lyrics_scrolled(s0: Controller, s1: Controller, delta: i32) -> bool {
    s1 == (Controller {
        lyrics_scroll: (if delta < 0 {
            let d = (-(delta as int)) % 65536;
            if s0.lyrics_scroll >= d { s0.lyrics_scroll - d } else { 0 }
        } else {
            let d = (delta as int) % 65536;
            if s0.lyrics_scroll + d <= u16::MAX { s0.lyrics_scroll + d } else { u16::MAX as int }
        }) as u16,
        ..s0
    })
}

/// Opening a page and then pressing Esc (or Backspace) closes it again:
/// the browse stack is back to what it was and nothing more is asked for.
pub proof fn law_back_closes_opened_page(
    s0: Controller,
    s1: Controller,
    s2: Controller,
    o0: Seq<Request>,
    o1: Seq<Request>,
    o2: Seq<Request>,
    page: BrowsePage,
    req: Request,
    key: KeyName,
)
    requires
        page_requested(s0, s1, o0, o1, page, req),
        key == KeyName::Esc || key == KeyName::Backspace,
        browse_key_post(s1, s2, o1, o2, key),
    ensures
        s2.browse_stack@ == s0.browse_stack@,
        o2 == o1,
        s2.nav.main_view == view_after_pop(MainView::Browse, s0.browse_stack@, s0.search.query@),
{
    assert(s1.browse_stack@.drop_last() =~= s0.browse_stack@);
}

/// What a click lands on.
#[derive(Debug, Clone, Copy, PartialEq, Eq, Structural)]
pub enum ClickTarget {
    /// A tab of the navigation bar.
    NavTab(MainView),
    /// The progress bar, `offset` cells into it, `width` cells wide.
    Seek { offset: u16, width: u16 },
    /// A search tab.
    SearchTab(usize),
    /// A row of the queue (it may be past the last track).
    QueueRow(usize),
    /// The queue pane outside its rows.
    QueuePane,
    /// A row of the main pane's list (it may be past the last item).
    MainRow(MainListKind, usize),
    Nothing,
}

/// The first tab of `tabs` that holds cell (`x`, `y`).
pub open spec fn tab_under(tabs: Seq<(Area, MainView)>, x: int, y: int) -> Option<MainView>
    decreases tabs.len(),
{
    if tabs.len() == 0 {
        None
    } else if in_area(tabs[0].0, x, y) {
        Some(tabs[0].1)
    } else {
        tab_under(tabs.drop_first(), x, y)
    }
}

/// What a click on cell (`x`, `y`) lands on: the navigation bar first, then
/// the progress bar (when there is something to seek in), the search tabs
/// (on the search page), the queue's rows, the rest of the queue pane, and
/// the main pane's list.
pub open spec fn clicked_target(h: HitMap, x: int, y: int, can_seek: bool, on_search: bool) -> ClickTarget {
    match tab_under(h.nav_tabs@, x, y) {
        Some(v) => ClickTarget::NavTab(v),
        None => if h.gauge matches Some(g) && in_area(g, x, y) && can_seek {
            let g = h.gauge.unwrap();
            ClickTarget::Seek { offset: (x - g.x) as u16, width: g.width }
        } else if h.search_tabs matches Some(t) && in_area(t, x, y) && on_search {
            let t = h.search_tabs.unwrap();
            ClickTarget::SearchTab(tab_at(x - t.x, t.width as int) as usize)
        } else if h.queue_list matches Some((q, _)) && in_area(q, x, y) {
            let (q, off) = h.queue_list.unwrap();
            ClickTarget::QueueRow((y - q.y + off) as usize)
        } else if h.queue_pane matches Some(p) && in_area(p, x, y) {
            ClickTarget::QueuePane
        } else if h.main_list matches Some((_, a, _)) && in_area(a, x, y) {
            let (k, a, off) = h.main_list.unwrap();
            ClickTarget::MainRow(k, (y - a.y + off) as usize)
        } else {
            ClickTarget::Nothing
        },
    }
}

/// Longest gap, in milliseconds, between the two clicks of a double-click.
pub const DOUBLE_CLICK_MS: u64 = 400;

/// Whether a click on cell (`x`, `y`) completes a double-click: the
/// previous click still on record (`last`) hit the same cell, `since_ms`
/// milliseconds ago, at most `DOUBLE_CLICK_MS`. A completed double-click
/// is forgotten, so a third click starts afresh; any other click is the
/// one to remember.
pub fn is_double_click(last: Option<(u16, u16)>, since_ms: u64, x: u16, y: u16) -> (r: bool)
    ensures
        r == (last == Some((x, y)) && since_ms <= DOUBLE_CLICK_MS),
{
    match last {
        Some((lx, ly)) => lx == x && ly == y && since_ms <= DOUBLE_CLICK_MS,
        None => false,
    }
}

/// What a click on cell (`x`, `y`) lands on. `can_seek`: a track with a
/// known length plays; `on_search`: the search page is shown.
pub fn click_target(h: &HitMap, x: u16, y: u16, can_seek: bool, on_search: bool) -> (r: ClickTarget)
    requires
        offsets_fit(*h),
    ensures
        r == clicked_target(*h, x as int, y as int, can_seek, on_search),
{
    let mut i: usize = 0;
    proof {
        assert(h.nav_tabs@.skip(0) =~= h.nav_tabs@);
    }
    while i < h.nav_tabs.len()
        invariant
            i <= h.nav_tabs@.len(),
            tab_under(h.nav_tabs@, x as int, y as int) == tab_under(h.nav_tabs@.skip(i as int), x as int, y as int),
        decreases h.nav_tabs.len() - i,
    {
        proof {
            assert(h.nav_tabs@.skip(i as int).drop_first() =~= h.nav_tabs@.skip(i + 1));
        }
        let (a, v) = h.nav_tabs[i];
        if a.contains(x, y) {
            return ClickTarget::NavTab(v);
        }
        i = i + 1;
    }
    proof {
        assert(h.nav_tabs@.skip(i as int).len() == 0);
    }
    match h.gauge {
        Some(g) => {
            if g.contains(x, y) && can_seek {
                return ClickTarget::Seek { offset: x - g.x, width: g.width };
            }
        },
        None => {},
    }
    match h.search_tabs {
        Some(t) => {
            if t.contains(x, y) && on_search {
                return ClickTarget::SearchTab(search_tab_at(x - t.x, t.width));
            }
        },
        None => {},
    }
    match h.queue_list {
        Some((q, off)) => {
            if q.contains(x, y) {
                return ClickTarget::QueueRow((y - q.y) as usize + off);
            }
        },
        None => {},
    }
    match h.queue_pane {
        Some(p) => {
            if p.contains(x, y) {
                return ClickTarget::QueuePane;
            }
        },
        None => {},
    }
    match h.main_list {
        Some((k, a, off)) => {
            if a.contains(x, y) {
                return ClickTarget::MainRow(k, (y - a.y) as usize + off);
            }
        },
        None => {},
    }
    ClickTarget::Nothing
}

/// Which list the wheel turns over cell (`x`, `y`): the queue's rows, else
/// the main pane's list when there is one, else the lyrics on the
/// now-playing page.
pub open spec fn scrolled_target(h: HitMap, x: int, y: int, now_playing: bool) -> Option<ScrollTarget> {
    if h.queue_list matches Some((q, _)) && in_area(q, x, y) {
        Some(ScrollTarget::Queue)
    } else {
        match h.main_list {
            Some((k, a, _)) => if in_area(a, x, y) { Some(ScrollTarget::Main(k)) } else { None },
            None => if now_playing { Some(ScrollTarget::Lyrics) } else { None },
        }
    }
}

/// Which list the wheel turns over cell (`x`, `y`) (`now_playing`: the
/// now-playing page is shown).
pub fn scroll_target(h: &HitMap, x: u16, y: u16, now_playing: bool) -> (r: Option<ScrollTarget>)
    ensures
        r == scrolled_target(*h, x as int, y as int, now_playing),
{
    match h.queue_list {
        Some((q, _)) => {
            if q.contains(x, y) {
                return Some(ScrollTarget::Queue);
            }
        },
        None => {},
    }
    match h.main_list {
        Some((k, a, _)) => if a.contains(x, y) { Some(ScrollTarget::Main(k)) } else { None },
        None => if now_playing { Some(ScrollTarget::Lyrics) } else { None },
    }
}

/// What a click that landed on `target` does (`double`: the second click
/// of a double click). Seeking is the player's business and changes
/// nothing here.
pub open spec fn click_post(
    s0: Controller,
    s1: Controller,
    o0: Seq<Request>,
    o1: Seq<Request>,
    target: ClickTarget,
    double: bool,
    logged_in: bool,
) -> bool {
    let unchanged = s1 == s0 && o1 == o0;
    match target {
        ClickTarget::NavTab(v) => view_entered(s0, s1, v) && o1 == o0,
        ClickTarget::SearchTab(i) => if i >= 4 || i == s0.search.kind_idx {
            unchanged
        } else {
            tab_selected(s0, s1, o0, o1, i)
        },
        ClickTarget::QueueRow(i) => queue_clicked(s0, s1, o0, o1, i, double),
        ClickTarget::QueuePane => s1 == (Controller { nav: ViewNav { focus: Focus::Queue, ..s0.nav }, ..s0 }) && o1 == o0,
        ClickTarget::MainRow(k, row) => main_clicked(s0, s1, o0, o1, k, row, double, logged_in),
        _ => unchanged,
    }
}

impl Controller {
    /// The selected track of the top browse page.
    pub fn selected_browse_track(&self) -> (r: Option<Track>)
        ensures
            self.browse_stack@.len() == 0 ==> r is None,
            self.browse_stack@.len() > 0 ==> r == page_track(self.browse_stack@.last()),
    {
        let n = self.browse_stack.len();
        if n == 0 {
            return None;
        }
        match &self.browse_stack[n - 1] {
            BrowsePage::Album { data: Some(d), selected, .. } => if *selected < d.tracks.len() {
                Some(d.tracks[*selected].clone())
            } else {
                None
            },
            BrowsePage::Playlist { data: Some(d), selected, .. } => if *selected < d.tracks.len() {
                Some(d.tracks[*selected].clone())
            } else {
                None
            },
            BrowsePage::Artist { data: Some(d), selected, .. } => if *selected < d.top_tracks.len() {
                Some(d.top_tracks[*selected].clone())
            } else {
                None
            },
            BrowsePage::Tracks { tracks, selected, .. } => if *selected < tracks.len() {
                Some(tracks[*selected].clone())
            } else {
                None
            },
            _ => None,
        }
    }

    /// Play the track list `list` from `sel`, or queue `list[sel]` at the
    /// end when `append`.
    fn track_act(&mut self, list: &Vec<Track>, sel: usize, append: bool, out: &mut Vec<Request>)
        requires
            old(self).wf(),
        ensures
            final(self).wf(),
            track_acted(*old(self), *final(self), old(out)@, final(out)@, list@, sel, append),
    {
        if sel >= list.len() {
            return;
        }
        if append {
            let t = list[sel].clone();
            self.queue_track(t, false, out);
        } else {
            let l = clone_tracks(list);
            self.play_context(l, sel, out);
        }
    }

    /// Enter (`append` false) or `a` (`append` true) on a browse page: a
    /// track plays with the page's list queued from it, or is appended to
    /// the queue; an album, artist or playlist row opens its page.
    pub fn activate_browse_selection(&mut self, append: bool, out: &mut Vec<Request>)
        requires
            old(self).wf(),
            counters_ok(*old(self)),
        ensures
            final(self).wf(),
            final(self).nav.focus == old(self).nav.focus,
            browse_activated(*old(self), *final(self), old(out)@, final(out)@, append),
    {
        let n = self.browse_stack.len();
        if n == 0 {
            return;
        }
        let page = &self.browse_stack[n - 1];
        match page {
            BrowsePage::Album { data, selected, .. } => {
                let sel = *selected;
                match data {
                    Some(d) => {
                        let list = clone_tracks(&d.tracks);
                        self.track_act(&list, sel, append, out);
                    },
                    None => {},
                }
            },
            BrowsePage::Playlist { data, selected, .. } => {
                let sel = *selected;
                match data {
                    Some(d) => {
                        let list = clone_tracks(&d.tracks);
                        self.track_act(&list, sel, append, out);
                    },
                    None => {},
                }
            },
            BrowsePage::Tracks { tracks, selected, .. } => {
                let sel = *selected;
                let list = clone_tracks(tracks);
                self.track_act(&list, sel, append, out);
            },
            BrowsePage::Artist { data, selected, .. } => {
                let sel = *selected;
                match data {
                    Some(d) => {
                        if sel < d.top_tracks.len() {
                            let list = clone_tracks(&d.top_tracks);
                            self.track_act(&list, sel, append, out);
                        } else if sel - d.top_tracks.len() < d.albums.len() {
                            let a = &d.albums[sel - d.top_tracks.len()];
                            let id = a.id.clone();
                            let title = a.title.clone();
                            self.open_album(id, title, out);
                        }
                    },
                    None => {},
                }
            },
            BrowsePage::Albums { items, selected, .. } => {
                let sel = *selected;
                if sel < items.len() {
                    let id = items[sel].id.clone();
                    let title = items[sel].title.clone();
                    self.open_album(id, title, out);
                }
            },
            BrowsePage::Artists { items, selected, .. } => {
                let sel = *selected;
                if sel < items.len() {
                    let id = items[sel].id.clone();
                    let name = items[sel].name.clone();
                    self.open_artist(id, name, out);
                }
            },
            BrowsePage::Playlists { items, selected, .. } => {
                let sel = *selected;
                if sel < items.len() {
                    let id = items[sel].id.clone();
                    let title = items[sel].title.clone();
                    self.open_playlist(id, title, out);
                }
            },
        }
    }

    /// `P` on a browse page: play every track of the page from the first.
    pub fn play_all_browse(&mut self, out: &mut Vec<Request>)
        requires
            old(self).wf(),
        ensures
            final(self).wf(),
            old(self).browse_stack@.len() == 0 ==> *final(self) == *old(self) && final(out)@ == old(out)@,
            old(self).browse_stack@.len() > 0 ==> context_played(
                *old(self),
                *final(self),
                old(out)@,
                final(out)@,
                page_tracks(old(self).browse_stack@.last()),
                0,
            ),
    {
        let n = self.browse_stack.len();
        if n == 0 {
            return;
        }
        let tracks: Vec<Track> = match &self.browse_stack[n - 1] {
            BrowsePage::Album { data: Some(d), .. } => clone_tracks(&d.tracks),
            BrowsePage::Playlist { data: Some(d), .. } => clone_tracks(&d.tracks),
            BrowsePage::Artist { data: Some(d), .. } => clone_tracks(&d.top_tracks),
            BrowsePage::Tracks { tracks, .. } => clone_tracks(tracks),
            _ => Vec::new(),
        };
        self.play_context(tracks, 0, out);
    }

    /// Move the selection of the top browse page with a navigation key.
    fn nav_browse(&mut self, key: KeyName) -> (r: bool)
        requires
            old(self).browse_stack@.len() > 0,
        ensures
            ({
                let p = old(self).browse_stack@.last();
                match nav_target(page_selected(p) as int, rows_of(p) as int, key) {
                    Some(t) => r && final(self).browse_stack@.len() == old(self).browse_stack@.len()
                        && final(self).browse_stack@.drop_last() == old(self).browse_stack@.drop_last()
                        && with_selected(p, final(self).browse_stack@.last(), t as usize)
                        && *final(self) == (Controller { browse_stack: final(self).browse_stack, ..*old(self) }),
                    None => !r && *final(self) == *old(self),
                }
            }),
    {
        let n = self.browse_stack.len();
        let rows = page_row_count(&self.browse_stack[n - 1]);
        let mut sel = self.browse_stack[n - 1].selected();
        if !nav_list(&mut sel, rows, key) {
            return false;
        }
        let ghost st = self.browse_stack@;
        let mut page = self.browse_stack.pop().unwrap();
        *page.selected_mut() = sel;
        self.browse_stack.push(page);
        proof {
            assert(self.browse_stack@.drop_last() =~= st.drop_last());
        }
        true
    }

    /// A key on a browse page: list navigation, Esc/Backspace closes the
    /// page, Enter plays or opens, `a` queues at the end, `A` queues next,
    /// `P` plays the whole page.
    pub fn on_browse_key(&mut self, key: KeyName, out: &mut Vec<Request>)
        requires
            old(self).wf(),
            counters_ok(*old(self)),
        ensures
            final(self).wf(),
            browse_key_post(*old(self), *final(self), old(out)@, final(out)@, key),
    {
        if self.browse_stack.len() == 0 {
            self.sync_view_after_pop();
            return;
        }
        if self.nav_browse(key) {
            return;
        }
        match key {
            KeyName::Esc | KeyName::Backspace => {
                self.browse_stack.pop();
                self.sync_view_after_pop();
            },
            KeyName::Enter => self.activate_browse_selection(false, out),
            KeyName::Char(c) => {
                if c == 'a' {
                    self.activate_browse_selection(true, out);
                } else if c == 'A' {
                    match self.selected_browse_track() {
                        Some(t) => self.queue_track(t, true, out),
                        None => {},
                    }
                } else if c == 'P' {
                    self.play_all_browse(out);
                }
            },
            _ => {},
        }
    }

    /// Enter on the home page: a chart track plays with the charts queued
    /// from it; an album row opens the album.
    pub fn activate_home_selection(&mut self, out: &mut Vec<Request>)
        requires
            old(self).wf(),
            counters_ok(*old(self)),
        ensures
            final(self).wf(),
            final(self).nav.focus == old(self).nav.focus,
            home_activated(*old(self), *final(self), old(out)@, final(out)@),
    {
        let sel = self.home.selected;
        let n = self.home.tracks.len();
        if sel < n {
            let list = clone_tracks(&self.home.tracks);
            self.play_context(list, sel, out);
        } else if sel - n < self.home.albums.len() {
            let id = self.home.albums[sel - n].id.clone();
            let title = self.home.albums[sel - n].title.clone();
            self.open_album(id, title, out);
        }
    }

    /// A key on the home page: `g` on an empty page retries loading it,
    /// list navigation, Enter plays or opens, `a`/`A` queue a chart track
    /// at the end or next.
    pub fn on_home_key(&mut self, key: KeyName, out: &mut Vec<Request>)
        requires
            old(self).wf(),
            counters_ok(*old(self)),
        ensures
            final(self).wf(),
            home_key_post(*old(self), *final(self), old(out)@, final(out)@, key),
    {
        let rows = self.home.tracks.len().saturating_add(self.home.albums.len());
        if rows == 0 && key == KeyName::Char('g') {
            self.load_home(out);
            return;
        }
        let mut sel = self.home.selected;
        if nav_list(&mut sel, rows, key) {
            self.home.selected = sel;
            return;
        }
        match key {
            KeyName::Enter => self.activate_home_selection(out),
            KeyName::Char(c) => {
                if c == 'a' || c == 'A' {
                    let sel = self.home.selected;
                    if sel < self.home.tracks.len() {
                        let t = self.home.tracks[sel].clone();
                        self.queue_track(t, c == 'A', out);
                    }
                }
            },
            _ => {},
        }
    }

    /// A key on the history page: up/down move the selection, Enter plays
    /// the selected entry on its own, Esc goes home.
    pub fn on_history_key(&mut self, key: KeyName, out: &mut Vec<Request>)
        requires
            old(self).wf(),
        ensures
            final(self).wf(),
            history_key_post(*old(self), *final(self), old(out)@, final(out)@, key),
    {
        let sel = self.library.selected;
        let n = self.history.entries().len();
        match key {
            KeyName::Up => self.library.selected = if sel >= 1 { sel - 1 } else { 0 },
            KeyName::Down => {
                let last = if n > 0 { n - 1 } else { 0 };
                self.library.selected = if sel < last { sel + 1 } else { last };
            },
            KeyName::Char(c) => {
                if c == 'k' {
                    self.library.selected = if sel >= 1 { sel - 1 } else { 0 };
                } else if c == 'j' {
                    let last = if n > 0 { n - 1 } else { 0 };
                    self.library.selected = if sel < last { sel + 1 } else { last };
                }
            },
            KeyName::Enter => {
                if sel < n {
                    let t = self.history.entries()[sel].track.clone();
                    let mut v: Vec<Track> = Vec::new();
                    v.push(t);
                    self.queue.set_context(v, 0);
                    self.start_track_at(0, out);
                }
            },
            KeyName::Esc => self.nav.main_view = MainView::Home,
            _ => {},
        }
    }


    /// Library list `index` (liked, playlists, albums, artists, history) is
    /// requested, unless one is already loading.
    pub fn open_library_item(&mut self, index: usize, out: &mut Vec<Request>)
        ensures
            library_item_opened(*old(self), *final(self), old(out)@, final(out)@, index),
    {
        if self.library.loading {
            return;
        }
        self.library.loading = true;
        out.push(Request::Library(index));
    }

    /// Enter on a login row: paste by hand opens the input line, the web
    /// row opens the sign-in page, a browser row reads that profile's
    /// cookies. Nothing happens while a login is under way.
    pub fn activate_login_method(&mut self, index: usize, out: &mut Vec<Request>)
        ensures
            login_method_activated(*old(self), *final(self), old(out)@, final(out)@, index),
    {
        if self.login.busy || index >= self.login.methods.len() {
            return;
        }
        match &self.login.methods[index] {
            LoginMethod::Manual => {
                self.input = Some((InputMode::Login, String::new()));
            },
            LoginMethod::OpenBrowser => {
                out.push(Request::OpenLoginPage);
            },
            LoginMethod::Browser { display, profile } => {
                let msg = crate::controller::join_text("正在从 ", display.as_str());
                let msg = join_text(msg.as_str(), " 读取登录信息..");
                let p = (**profile).clone();
                self.login.busy = true;
                self.toast(msg);
                out.push(Request::LoginWithBrowser(p));
            },
        }
    }

    /// The sign-in page was opened in the browser, or could not be.
    pub fn on_login_page_opened(&mut self, result: Result<(), String>)
        ensures
            match result {
                Ok(()) => toasted(*old(self), *final(self), "已打开浏览器 - 登录后回来选择「从 .. 导入登录」"@),
                Err(e) => toasted(*old(self), *final(self), "打开浏览器失败: "@ + e@),
            },
            *final(self) == (Controller { status: final(self).status, status_ttl: final(self).status_ttl, ..*old(self) }),
    {
        match result {
            Ok(()) => self.toast("已打开浏览器 - 登录后回来选择「从 .. 导入登录」".to_owned()),
            Err(e) => self.toast(join_text("打开浏览器失败: ", e.as_str())),
        }
    }

    /// A key on the library page. Signed out it is the login page: list
    /// navigation over the login rows, Enter picks one. Signed in: up/down
    /// over the menu, Enter opens an entry, `x` signs out. Esc goes home.
    pub fn on_library_key(&mut self, key: KeyName, logged_in: bool, out: &mut Vec<Request>)
        requires
            old(self).wf(),
        ensures
            final(self).wf(),
            library_key_post(*old(self), *final(self), old(out)@, final(out)@, key, logged_in),
    {
        if logged_in {
            self.on_library_menu_key(key, out);
        } else {
            self.on_login_key(key, out);
        }
    }

    /// A key on the login page (the library page while logged out).
    fn on_login_key(&mut self, key: KeyName, out: &mut Vec<Request>)
        requires
            old(self).wf(),
        ensures
            final(self).wf(),
            login_key_post(*old(self), *final(self), old(out)@, final(out)@, key),
    {
        let len = self.login.methods.len();
        let mut sel = self.login.selected;
        if nav_list(&mut sel, len, key) {
            self.login.selected = sel;
            return;
        }
        match key {
            KeyName::Enter => self.activate_login_method(self.login.selected, out),
            KeyName::Esc => self.nav.main_view = MainView::Home,
            _ => {},
        }
    }

    /// A key on the library menu (the library page while logged in).
    fn on_library_menu_key(&mut self, key: KeyName, out: &mut Vec<Request>)
        requires
            old(self).wf(),
        ensures
            final(self).wf(),
            library_menu_key_post(*old(self), *final(self), old(out)@, final(out)@, key),
    {
        let sel = self.library.selected;
        let up = if sel >= 1 { sel - 1 } else { 0 };
        let down = if sel < LIBRARY_MENU_LEN - 1 { sel + 1 } else { LIBRARY_MENU_LEN - 1 };
        match key {
            KeyName::Up => self.library.selected = up,
            KeyName::Down => self.library.selected = down,
            KeyName::Enter => self.open_library_item(sel, out),
            KeyName::Char(c) => {
                if c == 'k' {
                    self.library.selected = up;
                } else if c == 'j' {
                    self.library.selected = down;
                } else if c == 'x' {
                    out.push(Request::Logout);
                }
            },
            KeyName::Esc => self.nav.main_view = MainView::Home,
            _ => {},
        }
    }

    /// A key in the queue pane: list navigation, Enter jumps to the selected
    /// track, `x` removes it (never the playing one), `K`/`J` move it up or
    /// down, Esc back to the main pane.
    pub fn on_queue_key(&mut self, key: KeyName, out: &mut Vec<Request>)
        requires
            old(self).wf(),
        ensures
            final(self).wf(),
            queue_key_post(*old(self), *final(self), old(out)@, final(out)@, key),
    {
        let len = self.queue.len();
        let mut sel = self.queue_selected;
        if nav_list(&mut sel, len, key) {
            self.queue_selected = sel;
            return;
        }
        match key {
            KeyName::Enter => self.play_queue_row(out),
            KeyName::Char(c) => {
                if c == 'x' {
                    self.remove_queue_row();
                } else if c == 'K' {
                    self.move_queue_row(true);
                } else if c == 'J' {
                    self.move_queue_row(false);
                }
            },
            KeyName::Esc => self.nav.focus = Focus::Main,
            _ => {},
        }
    }

    fn play_queue_row(&mut self, out: &mut Vec<Request>)
        requires
            old(self).wf(),
        ensures
            final(self).wf(),
            queue_row_played(*old(self), *final(self), old(out)@, final(out)@),
    {
        match self.queue.jump_to(self.queue_selected) {
            Some(i) => self.start_track_at(i, out),
            None => {},
        }
    }

    fn remove_queue_row(&mut self)
        requires
            old(self).wf(),
        ensures
            final(self).wf(),
            queue_row_removed(*old(self), *final(self)),
    {
        let sel = self.queue_selected;
        if !self.queue.remove(sel) {
            if self.queue.current_index() == Some(sel) && sel < self.queue.len() {
                self.toast("不能移除正在播放的曲目".to_owned());
            }
        } else if sel >= self.queue.len() && sel > 0 {
            self.queue_selected = sel - 1;
        }
    }

    fn move_queue_row(&mut self, up: bool)
        requires
            old(self).wf(),
        ensures
            final(self).wf(),
            queue_row_moved(*old(self), *final(self), up),
    {
        let sel = self.queue_selected;
        if sel < self.queue.len() {
            match self.queue.swap(sel, up) {
                Some(j) => self.queue_selected = j,
                None => {},
            }
        }
    }

    /// A key on the now-playing page: Esc returns to the previous page,
    /// up/down scroll plain lyrics.
    pub fn on_lyrics_key(&mut self, key: KeyName)
        ensures
            lyrics_key_post(*old(self), *final(self), key),
    {
        let s = self.lyrics_scroll;
        let up: u16 = if s >= 1 { s - 1 } else { 0 };
        let down: u16 = if s < u16::MAX { s + 1 } else { u16::MAX };
        match key {
            KeyName::Esc => self.nav.main_view = self.nav.prev_main_view,
            KeyName::Up => self.lyrics_scroll = up,
            KeyName::Down => self.lyrics_scroll = down,
            KeyName::Char(c) => {
                if c == 'k' {
                    self.lyrics_scroll = up;
                } else if c == 'j' {
                    self.lyrics_scroll = down;
                }
            },
            _ => {},
        }
    }

    /// Jump to a top-level page (navigation bar); the search page without
    /// a query opens the query editor.
    pub fn goto_view(&mut self, view: MainView)
        ensures
            view_entered(*old(self), *final(self), view),
    {
        let empty = self.search.query.as_str().unicode_len() == 0;
        if self.nav.goto_view(view, empty) {
            self.input = Some((InputMode::Search, String::new()));
        }
    }

    /// A key press. Ctrl-C quits; a key closes the help overlay; while
    /// typing keys go to the input line; globally bound keys run their
    /// action (see [`crate::controller::action_post`]); anything else goes to
    /// the focused pane or page. `logged_in` says whether the library is
    /// signed in, `past_start` whether playback is past its first seconds.
    pub fn on_key(&mut self, key: KeyName, ctrl: bool, logged_in: bool, past_start: bool, out: &mut Vec<Request>)
        requires
            old(self).wf(),
            counters_ok(*old(self)),
        ensures
            final(self).wf(),
            (ctrl && key == KeyName::Char('c')) ==> *final(self) == (Controller { should_quit: true, ..*old(self) })
                && final(out)@ == old(out)@,
            !(ctrl && key == KeyName::Char('c')) && old(self).help_visible ==> *final(self) == (Controller {
                help_visible: false,
                ..*old(self)
            }) && final(out)@ == old(out)@,
            (!(ctrl && key == KeyName::Char('c')) && !old(self).help_visible && old(self).input is None) ==> match crate::app_state::bound_action(
                old(self).keymap@,
                key,
            ) {
                Some(a) => crate::controller::action_post(*old(self), *final(self), old(out)@, final(out)@, a, past_start),
                None => match old(self).nav.focus {
                    Focus::Queue => queue_key_post(*old(self), *final(self), old(out)@, final(out)@, key),
                    Focus::Main => match old(self).nav.main_view {
                        MainView::Search => search_key_post(*old(self), *final(self), old(out)@, final(out)@, key),
                        MainView::Browse => browse_key_post(*old(self), *final(self), old(out)@, final(out)@, key),
                        MainView::NowPlaying => lyrics_key_post(*old(self), *final(self), key) && final(out)@ == old(out)@,
                        MainView::Home => home_key_post(*old(self), *final(self), old(out)@, final(out)@, key),
                        MainView::Library => library_key_post(*old(self), *final(self), old(out)@, final(out)@, key, logged_in),
                        MainView::History => history_key_post(*old(self), *final(self), old(out)@, final(out)@, key),
                    },
                },
            },
            (!(ctrl && key == KeyName::Char('c')) && !old(self).help_visible && old(self).input is Some)
                ==> input_key_post(*old(self), *final(self), old(out)@, final(out)@, key),
    {
        if ctrl && key == KeyName::Char('c') {
            self.should_quit = true;
            return;
        }
        if self.help_visible {
            self.help_visible = false;
            return;
        }
        if self.input.is_some() {
            self.on_input_key(key, out);
            return;
        }
        match self.keymap.get(key) {
            Some(a) => {
                self.run_action(a, past_start, out);
                return;
            },
            None => {},
        }
        match self.nav.focus {
            Focus::Queue => self.on_queue_key(key, out),
            Focus::Main => match self.nav.main_view {
                MainView::Search => self.on_search_key(key, out),
                MainView::Browse => self.on_browse_key(key, out),
                MainView::NowPlaying => self.on_lyrics_key(key),
                MainView::Home => self.on_home_key(key, out),
                MainView::Library => self.on_library_key(key, logged_in, out),
                MainView::History => self.on_history_key(key, out),
            },
        }
    }

    /// The mouse wheel turned `delta` rows over a list: its selection moves
    /// (see [`scrolled`]), or the lyrics scroll.
    pub fn on_scroll(&mut self, target: ScrollTarget, delta: i32, logged_in: bool)
        requires
            old(self).wf(),
        ensures
            final(self).wf(),
            match target {
                ScrollTarget::Queue => *final(self) == (Controller {
                    queue_selected: scrolled(old(self).queue_selected as int, old(self).queue@.items.len() as int, delta as int) as usize,
                    ..*old(self)
                }),
                ScrollTarget::Main(MainListKind::Search) => *final(self) == (Controller {
                    search: crate::app_state::SearchState {
                        selected: scrolled(
                            old(self).search.selected as int,
                            crate::app_state::results_len(old(self).search.results, crate::models::kind_at(old(self).search.kind_idx as int)),
                            delta as int,
                        ) as usize,
                        ..old(self).search
                    },
                    ..*old(self)
                }),
                ScrollTarget::Main(MainListKind::Library) => if logged_in {
                    *final(self) == (Controller {
                        library: LibraryState {
                            selected: scrolled(old(self).library.selected as int, LIBRARY_MENU_LEN as int, delta as int) as usize,
                            ..old(self).library
                        },
                        ..*old(self)
                    })
                } else {
                    *final(self) == (Controller {
                        login: LoginState {
                            selected: scrolled(old(self).login.selected as int, old(self).login.methods@.len() as int, delta as int) as usize,
                            ..old(self).login
                        },
                        ..*old(self)
                    })
                },
                ScrollTarget::Main(MainListKind::Browse) => browse_scrolled(*old(self), *final(self), delta),
                ScrollTarget::Main(MainListKind::Home) => *final(self) == (Controller {
                    home: HomeState {
                        selected: scrolled(
                            old(self).home.selected as int,
                            if old(self).home.tracks@.len() + old(self).home.albums@.len() <= usize::MAX {
                                (old(self).home.tracks@.len() + old(self).home.albums@.len()) as int
                            } else {
                                usize::MAX as int
                            },
                            delta as int,
                        ) as usize,
                        ..old(self).home
                    },
                    ..*old(self)
                }),
                ScrollTarget::Lyrics => lyrics_scrolled(*old(self), *final(self), delta),
            },
    {
        match target {
            ScrollTarget::Queue => {
                self.queue_selected = scroll_step(self.queue_selected, self.queue.len(), delta);
            },
            ScrollTarget::Main(MainListKind::Search) => {
                let len = self.search.list_len();
                self.search.selected = scroll_step(self.search.selected, len, delta);
            },
            ScrollTarget::Main(MainListKind::Library) => {
                if logged_in {
                    self.library.selected = scroll_step(self.library.selected, LIBRARY_MENU_LEN, delta);
                } else {
                    let len = self.login.methods.len();
                    self.login.selected = scroll_step(self.login.selected, len, delta);
                }
            },
            ScrollTarget::Main(MainListKind::Browse) => self.scroll_browse(delta),
            ScrollTarget::Main(MainListKind::Home) => {
                let rows = self.home.tracks.len().saturating_add(self.home.albums.len());
                self.home.selected = scroll_step(self.home.selected, rows, delta);
            },
            ScrollTarget::Lyrics => self.scroll_lyrics(delta),
        }
    }

    fn scroll_browse(&mut self, delta: i32)
        ensures
            browse_scrolled(*old(self), *final(self), delta),
    {
        let n = self.browse_stack.len();
        if n > 0 {
            let ghost st = self.browse_stack@;
            let mut page = self.browse_stack.pop().unwrap();
            let rows = page_row_count(&page);
            let sel = page.selected_mut();
            *sel = scroll_step(*sel, rows, delta);
            self.browse_stack.push(page);
            proof {
                assert(self.browse_stack@.drop_last() =~= st.drop_last());
            }
        }
    }

    fn scroll_lyrics(&mut self, delta: i32)
        ensures
            lyrics_scrolled(*old(self), *final(self), delta),
    {
        let s = self.lyrics_scroll;
        self.lyrics_scroll = if delta < 0 {
            let d: u32 = ((0i64 - (delta as i64)) % 65536) as u32;
            if (s as u32) >= d { ((s as u32) - d) as u16 } else { 0 }
        } else {
            let d: u32 = ((delta as i64) % 65536) as u32;
            if (s as u32) + d <= 65535 { ((s as u32) + d) as u16 } else { u16::MAX }
        };
    }

    /// A click that landed on `target`.
    pub fn on_click(&mut self, target: ClickTarget, double: bool, logged_in: bool, out: &mut Vec<Request>)
        requires
            old(self).wf(),
            counters_ok(*old(self)),
        ensures
            final(self).wf(),
            click_post(*old(self), *final(self), old(out)@, final(out)@, target, double, logged_in),
    {
        match target {
            ClickTarget::NavTab(v) => self.goto_view(v),
            ClickTarget::SearchTab(i) => {
                if i < 4 {
                    self.on_search_tab_click(i, out);
                }
            },
            ClickTarget::QueueRow(i) => self.on_queue_click(i, double, out),
            ClickTarget::QueuePane => self.nav.focus = Focus::Queue,
            ClickTarget::MainRow(k, row) => self.on_main_click(k, row, double, logged_in, out),
            _ => {},
        }
    }

    /// A click on row `idx` of the queue: the queue gets the focus and the
    /// row is selected; a double click plays it.
    pub fn on_queue_click(&mut self, idx: usize, double: bool, out: &mut Vec<Request>)
        requires
            old(self).wf(),
        ensures
            final(self).wf(),
            queue_clicked(*old(self), *final(self), old(out)@, final(out)@, idx, double),
    {
        self.nav.focus = Focus::Queue;
        if idx < self.queue.len() {
            self.queue_selected = idx;
            if double {
                match self.queue.jump_to(idx) {
                    Some(i) => self.start_track_at(i, out),
                    None => {},
                }
            }
        }
    }

    /// A click on a search tab: another tab becomes the selected one, its
    /// results fetched when it has none.
    pub fn on_search_tab_click(&mut self, idx: usize, out: &mut Vec<Request>)
        requires
            old(self).wf(),
            idx < 4,
        ensures
            final(self).wf(),
            idx == old(self).search.kind_idx ==> *final(self) == *old(self) && final(out)@ == old(out)@,
            idx != old(self).search.kind_idx ==> tab_selected(*old(self), *final(self), old(out)@, final(out)@, idx),
    {
        if idx != self.search.kind_idx {
            self.select_search_tab(idx, out);
        }
    }

    /// A click on physical row `row` of a main-pane list: the main pane gets
    /// the focus and the row is selected; a double click activates it as
    /// Enter would.
    pub fn on_main_click(&mut self, kind: MainListKind, row: usize, double: bool, logged_in: bool, out: &mut Vec<Request>)
        requires
            old(self).wf(),
            counters_ok(*old(self)),
        ensures
            final(self).wf(),
            main_clicked(*old(self), *final(self), old(out)@, final(out)@, kind, row, double, logged_in),
    {
        self.nav.focus = Focus::Main;
        match kind {
            MainListKind::Search => self.click_search_row(row, double, out),
            MainListKind::Browse => self.click_browse_row(row, double, out),
            MainListKind::Library => self.click_library_row(row, double, logged_in, out),
            MainListKind::Home => self.click_home_row(row, double, out),
        }
    }

    fn click_search_row(&mut self, row: usize, double: bool, out: &mut Vec<Request>)
        requires
            old(self).wf(),
            counters_ok(*old(self)),
        ensures
            final(self).wf(),
            search_row_clicked(*old(self), *final(self), old(out)@, final(out)@, row, double),
    {
        if row < self.search.list_len() {
            self.search.selected = row;
            if double {
                self.activate_search_selection(out);
            }
        }
    }

    fn click_browse_row(&mut self, row: usize, double: bool, out: &mut Vec<Request>)
        requires
            old(self).wf(),
            counters_ok(*old(self)),
        ensures
            final(self).wf(),
            browse_row_clicked(*old(self), *final(self), old(out)@, final(out)@, row, double),
    {
        let n = self.browse_stack.len();
        if n > 0 {
            let rows = page_row_count(&self.browse_stack[n - 1]);
            if row < rows {
                let ghost st = self.browse_stack@;
                let mut page = self.browse_stack.pop().unwrap();
                *page.selected_mut() = row;
                self.browse_stack.push(page);
                let ghost sel = *self;
                proof {
                    assert(sel.browse_stack@.drop_last() =~= st.drop_last());
                }
                if double {
                    self.activate_browse_selection(false, out);
                }
                proof {
                    assert(sel.browse_stack@.len() == old(self).browse_stack@.len());
                }
            }
        }
    }

    fn click_library_row(&mut self, row: usize, double: bool, logged_in: bool, out: &mut Vec<Request>)
        requires
            old(self).wf(),
        ensures
            final(self).wf(),
            library_row_clicked(*old(self), *final(self), old(out)@, final(out)@, row, double, logged_in),
    {
        if logged_in {
            if row < LIBRARY_MENU_LEN {
                self.library.selected = row;
                if double {
                    self.open_library_item(row, out);
                }
            }
        } else if row < self.login.methods.len() {
            self.login.selected = row;
            if double {
                self.activate_login_method(row, out);
            }
        }
    }

    fn click_home_row(&mut self, row: usize, double: bool, out: &mut Vec<Request>)
        requires
            old(self).wf(),
            counters_ok(*old(self)),
        ensures
            final(self).wf(),
            home_row_clicked(*old(self), *final(self), old(out)@, final(out)@, row, double),
    {
        let t = self.home.tracks.len();
        let rows = t.saturating_add(self.home.albums.len());
        let logical: Option<usize> = if row == 0 || (t < usize::MAX && row == t + 1) {
            None
        } else if row <= t {
            Some(row - 1)
        } else {
            Some(row - 2)
        };
        match logical {
            Some(i) => {
                if i < rows {
                    self.home.selected = i;
                    if double {
                        self.activate_home_selection(out);
                    }
                }
            },
            None => {},
        }
    }

}

} // verus!
