//! The interface's state that does not depend on the terminal: screens,
//! list selections, global key bindings and where navigation goes.

use vstd::prelude::*;

use crate::config::{key_named, key_override, override_of, parse_key, KeyName};
use crate::cookies::BrowserProfile;
use crate::models::{
    kind_at, AlbumDetail, AlbumSummary, ArtistDetail, ArtistSummary, PlaylistDetail,
    PlaylistSummary, SearchKind, SearchResults, Track,
};
use crate::text::{chars_of, extend_str, string_of};

verus! {

/// Remappable global actions. List navigation keys are fixed; only playback
/// and mode keys can be overridden in `[keys]`, by the action's name.
#[derive(Debug, Clone, Copy, PartialEq, Eq, Hash, Structural)]
pub enum Action {
    Quit,
    Search,
    Library,
    Help,
    FocusToggle,
    PlayPause,
    Mute,
    NextTrack,
    PrevTrack,
    SeekBack,
    SeekFwd,
    VolDown,
    VolUp,
    RepeatCycle,
    RadioToggle,
    Shuffle,
    LyricsToggle,
    RestartPlayer,
    History,
}

/// The actions in binding order.
pub open spec fn action_at(i: int) -> Action {
    if i == 0 {
        Action::Quit
    } else if i == 1 {
        Action::Search
    } else if i == 2 {
        Action::Library
    } else if i == 3 {
        Action::Help
    } else if i == 4 {
        Action::FocusToggle
    } else if i == 5 {
        Action::PlayPause
    } else if i == 6 {
        Action::Mute
    } else if i == 7 {
        Action::NextTrack
    } else if i == 8 {
        Action::PrevTrack
    } else if i == 9 {
        Action::SeekBack
    } else if i == 10 {
        Action::SeekFwd
    } else if i == 11 {
        Action::VolDown
    } else if i == 12 {
        Action::VolUp
    } else if i == 13 {
        Action::RepeatCycle
    } else if i == 14 {
        Action::RadioToggle
    } else if i == 15 {
        Action::Shuffle
    } else if i == 16 {
        Action::LyricsToggle
    } else if i == 17 {
        Action::RestartPlayer
    } else {
        Action::History
    }
}

/// The name an action is configured by in `[keys]`.
pub open spec fn action_name(a: Action) -> Seq<char> {
    match a {
        Action::Quit => "quit"@,
        Action::Search => "search"@,
        Action::Library => "library"@,
        Action::Help => "help"@,
        Action::FocusToggle => "focus"@,
        Action::PlayPause => "play_pause"@,
        Action::Mute => "mute"@,
        Action::NextTrack => "next"@,
        Action::PrevTrack => "prev"@,
        Action::SeekBack => "seek_back"@,
        Action::SeekFwd => "seek_fwd"@,
        Action::VolDown => "vol_down"@,
        Action::VolUp => "vol_up"@,
        Action::RepeatCycle => "repeat"@,
        Action::RadioToggle => "radio"@,
        Action::Shuffle => "shuffle"@,
        Action::LyricsToggle => "lyrics"@,
        Action::RestartPlayer => "restart_player"@,
        Action::History => "history"@,
    }
}

/// The key an action is bound to unless overridden.
pub open spec fn default_key_of(a: Action) -> KeyName {
    match a {
        Action::Quit => KeyName::Char('q'),
        Action::Search => KeyName::Char('/'),
        Action::Library => KeyName::Char('L'),
        Action::Help => KeyName::Char('?'),
        Action::FocusToggle => KeyName::Tab,
        Action::PlayPause => KeyName::Char(' '),
        Action::Mute => KeyName::Char('m'),
        Action::NextTrack => KeyName::Char('n'),
        Action::PrevTrack => KeyName::Char('p'),
        Action::SeekBack => KeyName::Left,
        Action::SeekFwd => KeyName::Right,
        Action::VolDown => KeyName::Char('-'),
        Action::VolUp => KeyName::Char('='),
        Action::RepeatCycle => KeyName::Char('r'),
        Action::RadioToggle => KeyName::Char('t'),
        Action::Shuffle => KeyName::Char('s'),
        Action::LyricsToggle => KeyName::Char('l'),
        Action::RestartPlayer => KeyName::Char('R'),
        Action::History => KeyName::Char('H'),
    }
}

impl Action {
    /// Number of remappable actions.
    pub const COUNT: usize = 19;

    /// The action at position `i` of the binding order.
    pub fn at(i: usize) -> (r: Action)
        requires
            i < 19,
        ensures
            r == action_at(i as int),
    {
        if i == 0 {
            Action::Quit
        } else if i == 1 {
            Action::Search
        } else if i == 2 {
            Action::Library
        } else if i == 3 {
            Action::Help
        } else if i == 4 {
            Action::FocusToggle
        } else if i == 5 {
            Action::PlayPause
        } else if i == 6 {
            Action::Mute
        } else if i == 7 {
            Action::NextTrack
        } else if i == 8 {
            Action::PrevTrack
        } else if i == 9 {
            Action::SeekBack
        } else if i == 10 {
            Action::SeekFwd
        } else if i == 11 {
            Action::VolDown
        } else if i == 12 {
            Action::VolUp
        } else if i == 13 {
            Action::RepeatCycle
        } else if i == 14 {
            Action::RadioToggle
        } else if i == 15 {
            Action::Shuffle
        } else if i == 16 {
            Action::LyricsToggle
        } else if i == 17 {
            Action::RestartPlayer
        } else {
            Action::History
        }
    }

    /// The name this action is configured by in `[keys]`.
    pub fn name(&self) -> (r: &'static str)
        ensures
            r@ == action_name(*self),
    {
        match self {
            Action::Quit => "quit",
            Action::Search => "search",
            Action::Library => "library",
            Action::Help => "help",
            Action::FocusToggle => "focus",
            Action::PlayPause => "play_pause",
            Action::Mute => "mute",
            Action::NextTrack => "next",
            Action::PrevTrack => "prev",
            Action::SeekBack => "seek_back",
            Action::SeekFwd => "seek_fwd",
            Action::VolDown => "vol_down",
            Action::VolUp => "vol_up",
            Action::RepeatCycle => "repeat",
            Action::RadioToggle => "radio",
            Action::Shuffle => "shuffle",
            Action::LyricsToggle => "lyrics",
            Action::RestartPlayer => "restart_player",
            Action::History => "history",
        }
    }

    /// The key this action is bound to unless overridden.
    pub fn default_key(&self) -> (r: KeyName)
        ensures
            r == default_key_of(*self),
    {
        match self {
            Action::Quit => KeyName::Char('q'),
            Action::Search => KeyName::Char('/'),
            Action::Library => KeyName::Char('L'),
            Action::Help => KeyName::Char('?'),
            Action::FocusToggle => KeyName::Tab,
            Action::PlayPause => KeyName::Char(' '),
            Action::Mute => KeyName::Char('m'),
            Action::NextTrack => KeyName::Char('n'),
            Action::PrevTrack => KeyName::Char('p'),
            Action::SeekBack => KeyName::Left,
            Action::SeekFwd => KeyName::Right,
            Action::VolDown => KeyName::Char('-'),
            Action::VolUp => KeyName::Char('='),
            Action::RepeatCycle => KeyName::Char('r'),
            Action::RadioToggle => KeyName::Char('t'),
            Action::Shuffle => KeyName::Char('s'),
            Action::LyricsToggle => KeyName::Char('l'),
            Action::RestartPlayer => KeyName::Char('R'),
            Action::History => KeyName::Char('H'),
        }
    }
}

/// The key `a` ends up bound to: its override when that parses as a key,
/// its default otherwise.
pub open spec fn bound_key(overrides: Seq<(String, String)>, a: Action) -> KeyName {
    match override_of(overrides, action_name(a)) {
        Some(v) => match key_named(v) {
            Some(k) => k,
            None => default_key_of(a),
        },
        None => default_key_of(a),
    }
}

/// The action bound to `key` in the bindings `es`: the last binding of
/// that key wins.
pub open spec fn bound_action(es: Seq<(KeyName, Action)>, key: KeyName) -> Option<Action>
    decreases es.len(),
{
    if es.len() == 0 {
        None
    } else if es.last().0 == key {
        Some(es.last().1)
    } else {
        bound_action(es.drop_last(), key)
    }
}

/// Global key bindings; a later binding of a key replaces an earlier one.
pub struct Keymap {
    bindings: Vec<(KeyName, Action)>,
}

impl View for Keymap {
    type V = Seq<(KeyName, Action)>;

    closed spec fn view(&self) -> Seq<(KeyName, Action)> {
        self.bindings@
    }
}

impl Keymap {
    /// No key bound.
    pub fn new() -> (r: Keymap)
        ensures
            r@.len() == 0,
    {
        Keymap { bindings: Vec::new() }
    }

    /// Bind `key` to `action`, replacing what it was bound to.
    pub fn insert(&mut self, key: KeyName, action: Action)
        ensures
            final(self)@ == old(self)@.push((key, action)),
    {
        self.bindings.push((key, action));
    }

    /// The action bound to `key`.
    pub fn get(&self, key: KeyName) -> (r: Option<Action>)
        ensures
            r == bound_action(self@, key),
    {
        let mut i: usize = self.bindings.len();
        proof {
            assert(self@.take(i as int) =~= self@);
        }
        while i > 0
            invariant
                i <= self@.len(),
                bound_action(self@, key) == bound_action(self@.take(i as int), key),
            decreases i,
        {
            proof {
                assert(self@.take(i as int).drop_last() =~= self@.take(i - 1));
                assert(self@.take(i as int).last() == self@[i - 1]);
            }
            if self.bindings[i - 1].0 == key {
                return Some(self.bindings[i - 1].1);
            }
            i = i - 1;
        }
        None
    }
}

/// The bindings built from `[keys]`: every action in binding order, bound to
/// its configured or default key.
pub open spec fn keymap_of(overrides: Seq<(String, String)>) -> Seq<(KeyName, Action)> {
    Seq::new(19, |i: int| (bound_key(overrides, action_at(i)), action_at(i)))
}

/// Build the global key bindings from the `[keys]` overrides.
pub fn build_keymap(overrides: &Vec<(String, String)>) -> (r: Keymap)
    ensures
        r@ == keymap_of(overrides@),
{
    let mut map = Keymap::new();
    let mut i: usize = 0;
    while i < Action::COUNT
        invariant
            i <= 19,
            map@ == keymap_of(overrides@).take(i as int),
        decreases 19 - i,
    {
        let action = Action::at(i);
        let key = match key_override(overrides, action.name()) {
            Some(s) => match parse_key(s.as_str()) {
                Some(k) => k,
                None => action.default_key(),
            },
            None => action.default_key(),
        };
        map.insert(key, action);
        proof {
            assert(map@ =~= keymap_of(overrides@).take(i + 1));
        }
        i = i + 1;
    }
    proof {
        assert(keymap_of(overrides@).take(19) =~= keymap_of(overrides@));
    }
    map
}

/// The position of `a` in the binding order.
pub open spec fn action_index(a: Action) -> int {
    match a {
        Action::Quit => 0,
        Action::Search => 1,
        Action::Library => 2,
        Action::Help => 3,
        Action::FocusToggle => 4,
        Action::PlayPause => 5,
        Action::Mute => 6,
        Action::NextTrack => 7,
        Action::PrevTrack => 8,
        Action::SeekBack => 9,
        Action::SeekFwd => 10,
        Action::VolDown => 11,
        Action::VolUp => 12,
        Action::RepeatCycle => 13,
        Action::RadioToggle => 14,
        Action::Shuffle => 15,
        Action::LyricsToggle => 16,
        Action::RestartPlayer => 17,
        Action::History => 18,
    }
}

/// A key bound at position `i` and never again later is bound to that
/// binding's action.
proof fn lemma_last_binding_wins(es: Seq<(KeyName, Action)>, i: int, k: KeyName)
    requires
        0 <= i < es.len(),
        es[i].0 == k,
        forall|j: int| i < j < es.len() ==> #[trigger] es[j].0 != k,
    ensures
        bound_action(es, k) == Some(es[i].1),
    decreases es.len(),
{
    if i < es.len() - 1 {
        lemma_last_binding_wins(es.drop_last(), i, k);
    }
}

/// With no overrides every action is reached through its default key: the
/// default keys are pairwise different, so none shadows another.
pub proof fn law_default_keys_reach_every_action(a: Action)
    ensures
        bound_action(keymap_of(Seq::empty()), default_key_of(a)) == Some(a),
{
    let es = keymap_of(Seq::empty());
    let i = action_index(a);
    assert(action_at(i) == a);
    assert forall|j: int| 0 <= j < 19 implies #[trigger] es[j] == (default_key_of(action_at(j)), action_at(j)) by {
        assert(override_of(Seq::<(String, String)>::empty(), action_name(action_at(j))) is None);
    }
    assert forall|j: int| i < j < es.len() implies #[trigger] es[j].0 != default_key_of(a) by {
        assert(es[j] == (default_key_of(action_at(j)), action_at(j)));
    }
    lemma_last_binding_wins(es, i, default_key_of(a));
}

/// With no overrides the bindings are the shipped table: `q` quits, `/`
/// searches, `L` opens the library, `?` the help, Tab switches focus,
/// space plays or pauses, `m` mutes, `n` / `p` go to the next / previous
/// track, Left / Right seek back / forward, `-` / `=` turn the volume down /
/// up, `r` cycles the repeat mode, `t` toggles radio, `s` shuffles, `l`
/// shows the lyrics, `R` restarts the player and `H` opens the history.
pub proof fn law_default_keymap_is_the_shipped_table()
    ensures
        bound_action(keymap_of(Seq::empty()), KeyName::Char('q')) == Some(Action::Quit),
        bound_action(keymap_of(Seq::empty()), KeyName::Char('/')) == Some(Action::Search),
        bound_action(keymap_of(Seq::empty()), KeyName::Char('L')) == Some(Action::Library),
        bound_action(keymap_of(Seq::empty()), KeyName::Char('?')) == Some(Action::Help),
        bound_action(keymap_of(Seq::empty()), KeyName::Tab) == Some(Action::FocusToggle),
        bound_action(keymap_of(Seq::empty()), KeyName::Char(' ')) == Some(Action::PlayPause),
        bound_action(keymap_of(Seq::empty()), KeyName::Char('m')) == Some(Action::Mute),
        bound_action(keymap_of(Seq::empty()), KeyName::Char('n')) == Some(Action::NextTrack),
        bound_action(keymap_of(Seq::empty()), KeyName::Char('p')) == Some(Action::PrevTrack),
        bound_action(keymap_of(Seq::empty()), KeyName::Left) == Some(Action::SeekBack),
        bound_action(keymap_of(Seq::empty()), KeyName::Right) == Some(Action::SeekFwd),
        bound_action(keymap_of(Seq::empty()), KeyName::Char('-')) == Some(Action::VolDown),
        bound_action(keymap_of(Seq::empty()), KeyName::Char('=')) == Some(Action::VolUp),
        bound_action(keymap_of(Seq::empty()), KeyName::Char('r')) == Some(Action::RepeatCycle),
        bound_action(keymap_of(Seq::empty()), KeyName::Char('t')) == Some(Action::RadioToggle),
        bound_action(keymap_of(Seq::empty()), KeyName::Char('s')) == Some(Action::Shuffle),
        bound_action(keymap_of(Seq::empty()), KeyName::Char('l')) == Some(Action::LyricsToggle),
        bound_action(keymap_of(Seq::empty()), KeyName::Char('R')) == Some(Action::RestartPlayer),
        bound_action(keymap_of(Seq::empty()), KeyName::Char('H')) == Some(Action::History),
{
    law_default_keys_reach_every_action(Action::Quit);
    law_default_keys_reach_every_action(Action::Search);
    law_default_keys_reach_every_action(Action::Library);
    law_default_keys_reach_every_action(Action::Help);
    law_default_keys_reach_every_action(Action::FocusToggle);
    law_default_keys_reach_every_action(Action::PlayPause);
    law_default_keys_reach_every_action(Action::Mute);
    law_default_keys_reach_every_action(Action::NextTrack);
    law_default_keys_reach_every_action(Action::PrevTrack);
    law_default_keys_reach_every_action(Action::SeekBack);
    law_default_keys_reach_every_action(Action::SeekFwd);
    law_default_keys_reach_every_action(Action::VolDown);
    law_default_keys_reach_every_action(Action::VolUp);
    law_default_keys_reach_every_action(Action::RepeatCycle);
    law_default_keys_reach_every_action(Action::RadioToggle);
    law_default_keys_reach_every_action(Action::Shuffle);
    law_default_keys_reach_every_action(Action::LyricsToggle);
    law_default_keys_reach_every_action(Action::RestartPlayer);
    law_default_keys_reach_every_action(Action::History);
}

/// The selection a navigation key leads to, or `None` for other keys.
/// Up/`k` and PageUp stop at the top; Down/`j`, PageDown and `G` stop at the
/// last row; `g` goes to the top.
pub open spec fn nav_target(sel: int, len: int, key: KeyName) -> Option<int> {
    let last = if len == 0 { 0 } else { len - 1 };
    match key {
        KeyName::Up => Some(if sel >= 1 { sel - 1 } else { 0 }),
        KeyName::Down => Some(if sel + 1 <= last { sel + 1 } else { last }),
        KeyName::PageUp => Some(if sel >= 10 { sel - 10 } else { 0 }),
        KeyName::PageDown => Some(if sel + 10 <= last { sel + 10 } else { last }),
        KeyName::Char(c) => if c == 'k' {
            Some(if sel >= 1 { sel - 1 } else { 0 })
        } else if c == 'j' {
            Some(if sel + 1 <= last { sel + 1 } else { last })
        } else if c == 'g' {
            Some(0)
        } else if c == 'G' {
            Some(last)
        } else {
            None
        },
        _ => None,
    }
}

/// Shared list navigation: j/k, arrows, PageUp/PageDown, g/G. Returns
/// whether `key` is a navigation key (even on an empty list).
pub fn nav_list(selected: &mut usize, len: usize, key: KeyName) -> (r: bool)
    ensures
        match nav_target(*old(selected) as int, len as int, key) {
            Some(t) => r && *final(selected) == t,
            None => !r && *final(selected) == *old(selected),
        },
{
    let last: usize = if len == 0 { 0 } else { len - 1 };
    let sel = *selected;
    let up = if sel >= 1 { sel - 1 } else { 0 };
    let down = if sel < last { sel + 1 } else { last };
    let page_up = if sel >= 10 { sel - 10 } else { 0 };
    let page_down = if last >= 10 && sel <= last - 10 { sel + 10 } else { last };
    match key {
        KeyName::Up => {
            *selected = up;
            true
        },
        KeyName::Down => {
            *selected = down;
            true
        },
        KeyName::PageUp => {
            *selected = page_up;
            true
        },
        KeyName::PageDown => {
            *selected = page_down;
            true
        },
        KeyName::Char(c) => {
            if c == 'k' {
                *selected = up;
                true
            } else if c == 'j' {
                *selected = down;
                true
            } else if c == 'g' {
                *selected = 0;
                true
            } else if c == 'G' {
                *selected = last;
                true
            } else {
                false
            }
        },
        _ => false,
    }
}

/// Navigation never leaves the list: a selection on a row stays on a row,
/// and on an empty list it stays at the top.
pub proof fn law_navigation_stays_in_list(sel: int, len: int, key: KeyName)
    requires
        0 <= sel,
        0 <= len,
        sel < len || (len == 0 && sel == 0),
    ensures
        match nav_target(sel, len, key) {
            Some(t) => 0 <= t && (t < len || (len == 0 && t == 0)),
            None => true,
        },
{
}

/// Where a mouse wheel step of `delta` rows moves a selection in a list of
/// `len` rows: never above the top nor below the last row.
pub open spec fn scrolled(sel: int, len: int, delta: int) -> int {
    if len == 0 {
        0
    } else if delta < 0 {
        if sel + delta >= 0 { sel + delta } else { 0 }
    } else if sel + delta <= len - 1 {
        sel + delta
    } else {
        len - 1
    }
}

/// The wheel never moves a selection off the list: from a row it lands on a
/// row, and an empty list keeps it at the top.
pub proof fn law_scroll_stays_in_list(sel: int, len: int, delta: int)
    requires
        0 <= sel,
        0 <= len,
        len > 0 ==> sel < len,
    ensures
        len == 0 ==> scrolled(sel, len, delta) == 0,
        len > 0 ==> 0 <= scrolled(sel, len, delta) < len,
{
}

/// Move a list selection by a mouse wheel step.
pub fn scroll_step(sel: usize, len: usize, delta: i32) -> (r: usize)
    ensures
        r == scrolled(sel as int, len as int, delta as int),
{
    if len == 0 {
        return 0;
    }
    if delta < 0 {
        let d: u64 = (0i64 - (delta as i64)) as u64;
        if (sel as u64) >= d {
            sel - (d as usize)
        } else {
            0
        }
    } else {
        let d: u64 = delta as u64;
        if sel <= len - 1 && (len - 1 - sel) as u64 >= d {
            sel + (d as usize)
        } else {
            len - 1
        }
    }
}

#[derive(Debug, Clone, Copy, PartialEq, Eq, Structural)]
pub enum Focus {
    Main,
    Queue,
}

#[derive(Debug, Clone, Copy, PartialEq, Eq, Structural)]
pub enum MainView {
    Home,
    Search,
    Browse,
    /// Full-page player: cover art, metadata and synced lyrics.
    NowPlaying,
    Library,
    History,
}

#[derive(Debug, Clone, Copy, PartialEq, Eq, Structural)]
pub enum InputMode {
    Search,
    Login,
}

/// Which pane has the keyboard and which page the main pane shows.
#[derive(Debug, Clone, Copy, PartialEq, Eq, Structural)]
pub struct ViewNav {
    pub focus: Focus,
    pub main_view: MainView,
    /// The page to return to when the now-playing page is left.
    pub prev_main_view: MainView,
}

impl ViewNav {
    /// Jump to a top-level page (navigation bar). The search page without a
    /// query opens the query editor instead (the result says so); entering
    /// the now-playing page remembers where it came from.
    pub fn goto_view(&mut self, view: MainView, query_empty: bool) -> (open_editor: bool)
        ensures
            final(self).focus == Focus::Main,
            open_editor == (view == MainView::Search && query_empty),
            view == MainView::NowPlaying && old(self).main_view != MainView::NowPlaying
                ==> final(self).prev_main_view == old(self).main_view,
            !(view == MainView::NowPlaying && old(self).main_view != MainView::NowPlaying)
                ==> final(self).prev_main_view == old(self).prev_main_view,
            final(self).main_view == view,
    {
        self.focus = Focus::Main;
        match view {
            MainView::Search => {
                self.main_view = MainView::Search;
                query_empty
            },
            MainView::NowPlaying => {
                if self.main_view != MainView::NowPlaying {
                    self.prev_main_view = self.main_view;
                    self.main_view = MainView::NowPlaying;
                }
                false
            },
            v => {
                self.main_view = v;
                false
            },
        }
    }
}

/// Charts and new releases shown on the home screen.
pub struct HomeState {
    pub tracks: Vec<Track>,
    pub albums: Vec<AlbumSummary>,
    pub selected: usize,
    pub loading: bool,
}

impl HomeState {
    /// Selectable rows: tracks, then albums.
    pub fn row_count(&self) -> (r: usize)
        requires
            self.tracks@.len() + self.albums@.len() <= usize::MAX,
        ensures
            r == self.tracks@.len() + self.albums@.len(),
    {
        self.tracks.len() + self.albums.len()
    }
}

/// Number of entries of the library menu.
pub const LIBRARY_MENU_LEN: usize = 5;

/// The entries of the library menu.
pub open spec fn library_menu(i: int) -> Seq<char> {
    if i == 0 {
        "喜欢的音乐"@
    } else if i == 1 {
        "我的歌单"@
    } else if i == 2 {
        "收藏的专辑"@
    } else if i == 3 {
        "关注的歌手"@
    } else {
        "播放历史"@
    }
}

/// Entry `i` of the library menu.
pub fn library_menu_item(i: usize) -> (r: &'static str)
    requires
        i < LIBRARY_MENU_LEN,
    ensures
        r@ == library_menu(i as int),
{
    if i == 0 {
        "喜欢的音乐"
    } else if i == 1 {
        "我的歌单"
    } else if i == 2 {
        "收藏的专辑"
    } else if i == 3 {
        "关注的歌手"
    } else {
        "播放历史"
    }
}

pub struct LibraryState {
    pub selected: usize,
    pub loading: bool,
}

/// One row on the login screen.
#[derive(Debug)]
pub enum LoginMethod {
    /// Import cookies from an installed browser's own cookie database.
    Browser { display: String, profile: Box<BrowserProfile> },
    /// Open music.youtube.com so the user can sign in first.
    OpenBrowser,
    /// Paste a cookie header or a cookies.txt path.
    Manual,
}

impl Clone for LoginMethod {
    fn clone(&self) -> (r: Self)
        ensures
            r == *self,
    {
        match self {
            LoginMethod::Browser { display, profile } => LoginMethod::Browser {
                display: display.clone(),
                profile: Box::new((**profile).clone()),
            },
            LoginMethod::OpenBrowser => LoginMethod::OpenBrowser,
            LoginMethod::Manual => LoginMethod::Manual,
        }
    }
}

/// The text of a login row.
pub open spec fn method_label(m: LoginMethod) -> Seq<char> {
    match m {
        LoginMethod::Browser { display, .. } => "从 "@ + display@ + " 导入登录"@,
        LoginMethod::OpenBrowser => "先在浏览器登录 music.youtube.com（打开网页）"@,
        LoginMethod::Manual => "手动粘贴 Cookie 或 cookies.txt 路径"@,
    }
}

impl LoginMethod {
    pub fn label(&self) -> (r: String)
        ensures
            r@ == method_label(*self),
    {
        match self {
            LoginMethod::Browser { display, .. } => {
                let mut out: Vec<char> = Vec::new();
                extend_str(&mut out, "从 ");
                extend_str(&mut out, display.as_str());
                extend_str(&mut out, " 导入登录");
                string_of(&out)
            },
            LoginMethod::OpenBrowser => "先在浏览器登录 music.youtube.com（打开网页）".to_owned(),
            LoginMethod::Manual => "手动粘贴 Cookie 或 cookies.txt 路径".to_owned(),
        }
    }
}

/// The login rows: one per detected browser profile (the one-keystroke
/// path), then opening the browser, then pasting by hand.
pub fn login_methods(profiles: Vec<BrowserProfile>) -> (r: Vec<LoginMethod>)
    ensures
        r@.len() == profiles@.len() + 2,
        forall|i: int| 0 <= i < profiles@.len() ==> ((#[trigger] r@[i]) matches LoginMethod::Browser {
            display,
            profile,
        } && display@ == profiles@[i].display@ && *profile == profiles@[i]),
        r@[profiles@.len() as int] == LoginMethod::OpenBrowser,
        r@[profiles@.len() as int + 1] == LoginMethod::Manual,
{
    let ghost all = profiles@;
    let n = profiles.len();
    let mut rest = profiles;
    let mut out: Vec<LoginMethod> = Vec::new();
    let mut k: usize = 0;
    proof {
        assert(rest@.skip(0) =~= all);
    }
    while k < n
        invariant
            k <= n,
            n == all.len(),
            rest@ == all.skip(k as int),
            out@.len() == k,
            forall|i: int| 0 <= i < k ==> ((#[trigger] out@[i]) matches LoginMethod::Browser {
                display,
                profile,
            } && display@ == all[i].display@ && *profile == all[i]),
        decreases n - k,
    {
        let p = rest.remove(0);
        proof {
            assert(p == all[k as int]);
            assert(rest@ =~= all.skip(k + 1));
        }
        let display = p.display.clone();
        out.push(LoginMethod::Browser { display, profile: Box::new(p) });
        k = k + 1;
    }
    out.push(LoginMethod::OpenBrowser);
    out.push(LoginMethod::Manual);
    out
}

pub struct LoginState {
    pub methods: Vec<LoginMethod>,
    pub selected: usize,
    pub busy: bool,
}

pub struct SearchState {
    pub query: String,
    /// Index of the selected kind tab.
    pub kind_idx: usize,
    pub results: SearchResults,
    pub selected: usize,
    pub loading: bool,
}

/// How many rows the results of `kind` hold.
pub open spec fn results_len(r: SearchResults, kind: SearchKind) -> int {
    match kind {
        SearchKind::Songs => r.tracks@.len() as int,
        SearchKind::Albums => r.albums@.len() as int,
        SearchKind::Artists => r.artists@.len() as int,
        SearchKind::Playlists => r.playlists@.len() as int,
    }
}

impl SearchState {
    /// The kind of the selected tab.
    pub fn kind(&self) -> (r: SearchKind)
        requires
            self.kind_idx < SearchKind::COUNT,
        ensures
            r == kind_at(self.kind_idx as int),
    {
        SearchKind::at(self.kind_idx)
    }

    /// Rows in the result list of the selected tab.
    pub fn list_len(&self) -> (r: usize)
        requires
            self.kind_idx < SearchKind::COUNT,
        ensures
            r == results_len(self.results, kind_at(self.kind_idx as int)),
    {
        match self.kind() {
            SearchKind::Songs => self.results.tracks.len(),
            SearchKind::Albums => self.results.albums.len(),
            SearchKind::Artists => self.results.artists.len(),
            SearchKind::Playlists => self.results.playlists.len(),
        }
    }
}

/// A page on the browse stack.
#[allow(inconsistent_fields)]
pub enum BrowsePage {
    Album { title: String, data: Option<AlbumDetail>, selected: usize },
    Artist { name: String, data: Option<ArtistDetail>, selected: usize },
    Playlist { title: String, data: Option<PlaylistDetail>, selected: usize },
    /// Pre-fetched flat pages (library lists, history, liked music).
    Tracks { title: String, tracks: Vec<Track>, selected: usize },
    Albums { title: String, items: Vec<AlbumSummary>, selected: usize },
    Artists { title: String, items: Vec<ArtistSummary>, selected: usize },
    Playlists { title: String, items: Vec<PlaylistSummary>, selected: usize },
}

/// Selectable rows of a page (an artist page: top tracks, then albums); a
/// page still loading has none.
pub open spec fn page_rows(p: BrowsePage) -> int {
    match p {
        BrowsePage::Album { data, .. } => match data {
            Some(d) => d.tracks@.len() as int,
            None => 0,
        },
        BrowsePage::Playlist { data, .. } => match data {
            Some(d) => d.tracks@.len() as int,
            None => 0,
        },
        BrowsePage::Artist { data, .. } => match data {
            Some(d) => (d.top_tracks@.len() + d.albums@.len()) as int,
            None => 0,
        },
        BrowsePage::Tracks { tracks, .. } => tracks@.len() as int,
        BrowsePage::Albums { items, .. } => items@.len() as int,
        BrowsePage::Artists { items, .. } => items@.len() as int,
        BrowsePage::Playlists { items, .. } => items@.len() as int,
    }
}

/// The selected row of a page.
pub open spec fn page_selected(p: BrowsePage) -> usize {
    match p {
        BrowsePage::Album { selected, .. } => selected,
        BrowsePage::Artist { selected, .. } => selected,
        BrowsePage::Playlist { selected, .. } => selected,
        BrowsePage::Tracks { selected, .. } => selected,
        BrowsePage::Albums { selected, .. } => selected,
        BrowsePage::Artists { selected, .. } => selected,
        BrowsePage::Playlists { selected, .. } => selected,
    }
}

/// `q` is `p` with the selection `s`, everything else unchanged.
pub open spec fn with_selected(p: BrowsePage, q: BrowsePage, s: usize) -> bool {
    match (p, q) {
        (BrowsePage::Album { title, data, .. }, BrowsePage::Album { title: t, data: d, selected }) =>
            t == title && d == data && selected == s,
        (BrowsePage::Artist { name, data, .. }, BrowsePage::Artist { name: t, data: d, selected }) =>
            t == name && d == data && selected == s,
        (BrowsePage::Playlist { title, data, .. }, BrowsePage::Playlist { title: t, data: d, selected }) =>
            t == title && d == data && selected == s,
        (BrowsePage::Tracks { title, tracks, .. }, BrowsePage::Tracks { title: t, tracks: d, selected }) =>
            t == title && d == tracks && selected == s,
        (BrowsePage::Albums { title, items, .. }, BrowsePage::Albums { title: t, items: d, selected }) =>
            t == title && d == items && selected == s,
        (BrowsePage::Artists { title, items, .. }, BrowsePage::Artists { title: t, items: d, selected }) =>
            t == title && d == items && selected == s,
        (BrowsePage::Playlists { title, items, .. }, BrowsePage::Playlists { title: t, items: d, selected }) =>
            t == title && d == items && selected == s,
        _ => false,
    }
}

impl BrowsePage {
    /// Number of selectable rows (artist pages: top tracks then albums).
    pub fn row_count(&self) -> (r: usize)
        requires
            page_rows(*self) <= usize::MAX,
        ensures
            r == page_rows(*self),
    {
        match self {
            BrowsePage::Album { data, .. } => match data {
                Some(d) => d.tracks.len(),
                None => 0,
            },
            BrowsePage::Playlist { data, .. } => match data {
                Some(d) => d.tracks.len(),
                None => 0,
            },
            BrowsePage::Artist { data, .. } => match data {
                Some(d) => d.top_tracks.len() + d.albums.len(),
                None => 0,
            },
            BrowsePage::Tracks { tracks, .. } => tracks.len(),
            BrowsePage::Albums { items, .. } => items.len(),
            BrowsePage::Artists { items, .. } => items.len(),
            BrowsePage::Playlists { items, .. } => items.len(),
        }
    }

    /// The page's selected row.
    pub fn selected(&self) -> (r: usize)
        ensures
            r == page_selected(*self),
    {
        match self {
            BrowsePage::Album { selected, .. } => *selected,
            BrowsePage::Artist { selected, .. } => *selected,
            BrowsePage::Playlist { selected, .. } => *selected,
            BrowsePage::Tracks { selected, .. } => *selected,
            BrowsePage::Albums { selected, .. } => *selected,
            BrowsePage::Artists { selected, .. } => *selected,
            BrowsePage::Playlists { selected, .. } => *selected,
        }
    }

    /// The page's selection, to move it in place.
    pub fn selected_mut(&mut self) -> (r: &mut usize)
        ensures
            *r == page_selected(*old(self)),
            with_selected(*old(self), *final(self), *final(r)),
    {
        match self {
            BrowsePage::Album { selected, .. } => selected,
            BrowsePage::Artist { selected, .. } => selected,
            BrowsePage::Playlist { selected, .. } => selected,
            BrowsePage::Tracks { selected, .. } => selected,
            BrowsePage::Albums { selected, .. } => selected,
            BrowsePage::Artists { selected, .. } => selected,
            BrowsePage::Playlists { selected, .. } => selected,
        }
    }
}

} // verus!
