//! Text layout for the terminal interface: column widths, truncation to
//! display columns, badges and markers. Everything is measured in display
//! columns (CJK characters are two wide), as `unicode-width` reports them.

use vstd::prelude::*;

use unicode_width::{UnicodeWidthChar, UnicodeWidthStr};

use crate::app_state::MainView;
use crate::models::Track;
use crate::text::{chars_of, string_of};

verus! {

/// Which list a mouse hit area belongs to.
#[derive(Debug, Clone, Copy, PartialEq, Eq, Structural)]
pub enum MainListKind {
    Home,
    Search,
    Browse,
    Library,
}

/// Item-type badges. Track rows carry no badge - they are always inside a
/// track list, so the column layout already says what they are.
#[derive(Debug, Clone, Copy, PartialEq, Eq, Structural)]
pub enum BadgeKind {
    Album,
    Artist,
    Playlist,
}

/// The colour a badge is drawn in.
#[derive(Debug, Clone, Copy, PartialEq, Eq, Structural)]
pub enum BadgeColor {
    Cyan,
    Magenta,
    Yellow,
}

/// Width of every badge, in columns.
///
/// Deliberately ASCII: terminals disagree on how many columns an emoji
/// occupies, which silently breaks column alignment. A fixed 4-column badge
/// plus colour reads consistently everywhere.
pub const BADGE_W: usize = 4;

/// The text of a badge: four ASCII columns.
pub fn badge_text(kind: BadgeKind) -> (r: &'static str)
    ensures
        kind == BadgeKind::Album ==> r@ == "ALB "@,
        kind == BadgeKind::Artist ==> r@ == "ART "@,
        kind == BadgeKind::Playlist ==> r@ == "LST "@,
        r@.len() == BADGE_W,
{
    proof {
        reveal_strlit("ALB ");
        reveal_strlit("ART ");
        reveal_strlit("LST ");
    }
    match kind {
        BadgeKind::Album => "ALB ",
        BadgeKind::Artist => "ART ",
        BadgeKind::Playlist => "LST ",
    }
}

/// The colour of a badge: albums cyan, artists magenta, playlists yellow.
pub fn badge_color(kind: BadgeKind) -> (r: BadgeColor)
    ensures
        kind == BadgeKind::Album ==> r == BadgeColor::Cyan,
        kind == BadgeKind::Artist ==> r == BadgeColor::Magenta,
        kind == BadgeKind::Playlist ==> r == BadgeColor::Yellow,
{
    match kind {
        BadgeKind::Album => BadgeColor::Cyan,
        BadgeKind::Artist => BadgeColor::Magenta,
        BadgeKind::Playlist => BadgeColor::Yellow,
    }
}

/// Playback state marker for the player bar - ASCII for the same reason.
pub fn state_marker(loading: bool, paused: bool) -> (r: &'static str)
    ensures
        loading ==> r@ == ".."@,
        !loading && paused ==> r@ == "||"@,
        !loading && !paused ==> r@ == "> "@,
{
    if loading {
        ".."
    } else if paused {
        "||"
    } else {
        "> "
    }
}

/// Column widths for a track row, derived from the available width.
#[derive(Debug, Clone, Copy)]
pub struct TrackCols {
    pub title: usize,
    /// 0 means the artist column does not fit and is dropped.
    pub artist: usize,
    /// 0 means the duration column is dropped.
    pub duration: usize,
}

impl TrackCols {
    /// `width` is the list's inner width; 2 columns are reserved for the
    /// selection marker. Under 24 usable columns only the title is shown;
    /// otherwise the artist gets a third of the row (8 to 24 columns), the
    /// duration 5, two gaps separate them, and the title takes the rest.
    pub fn new(width: u16) -> (r: Self)
        ensures
            ({
                let usable: int = if width >= 2 { width - 2 } else { 0 };
                &&& usable < 24 ==> r.title == usable && r.artist == 0 && r.duration == 0
                &&& usable >= 24 ==> {
                    &&& r.duration == 5
                    &&& r.artist == (if usable / 3 < 8 { 8 } else if usable / 3 > 24 { 24 } else { usable / 3 })
                    &&& r.title == usable - (r.artist + 5 + 2)
                    &&& r.title + r.artist + r.duration + 2 == usable
                }
            }),
    {
        let usable: usize = if width >= 2 { (width - 2) as usize } else { 0 };
        if usable < 24 {
            return TrackCols { title: usable, artist: 0, duration: 0 };
        }
        let duration: usize = 5;
        let third = usable / 3;
        let artist: usize = if third < 8 { 8 } else if third > 24 { 24 } else { third };
        let title = usable - (artist + duration + 2);
        TrackCols { title, artist, duration }
    }
}

/// Display width of one character as `unicode-width` reports it: `None`
/// for control characters.
pub uninterp spec fn char_width(c: char) -> Option<usize>;

/// Display width of a string as `unicode-width` reports it (which accounts
/// for some multi-character sequences, so it need not be the sum of the
/// character widths).
pub uninterp spec fn str_width(s: Seq<char>) -> usize;

/// A printable ASCII character (U+0020..U+007E) or a CJK unified
/// ideograph (U+4E00..U+9FFF).
pub open spec fn plain_char(c: char) -> bool {
    (0x20 <= (c as u32) && (c as u32) < 0x7F) || (0x4E00 <= (c as u32) && (c as u32) <= 0x9FFF)
}

/// Columns of a text made of plain characters: one for each ASCII
/// character, two for each ideograph.
pub open spec fn plain_cols(s: Seq<char>) -> int
    decreases s.len(),
{
    if s.len() == 0 {
        0
    } else {
        plain_width(s[0]) + plain_cols(s.drop_first())
    }
}

/// Columns of a plain character: one for ASCII, two for an ideograph.
pub open spec fn plain_width(c: char) -> int {
    if (c as u32) < 0x7F {
        1
    } else {
        2
    }
}

/// `fit_prefix` for plain text, counted with `plain_width`.
pub open spec fn fit_plain(s: Seq<char>, budget: int) -> Seq<char>
    decreases s.len(),
{
    if s.len() == 0 || plain_width(s[0]) > budget {
        Seq::empty()
    } else {
        seq![s[0]] + fit_plain(s.drop_first(), budget - plain_width(s[0]))
    }
}

/// `truncated` for plain text, with the column counts written out.
pub open spec fn truncated_plain(s: Seq<char>, max: int) -> Seq<char> {
    if max == 0 {
        Seq::empty()
    } else if plain_cols(s) <= max {
        s
    } else {
        let budget = if max > 2 { max - 2 } else { max };
        if budget < max {
            fit_plain(s, budget) + ellipsis()
        } else {
            fit_plain(s, budget)
        }
    }
}

/// `UnicodeWidthChar::width`. Claimed: the result depends on the character
/// alone (it is named `char_width`); control characters (below U+0020, and
/// U+007F..U+009F) have no width, printable ASCII is one column wide, and
/// CJK unified ideographs (U+4E00..U+9FFF) two. The rest of the Unicode
/// width tables is not restated.
#[verifier::external_body]
fn width_of_char(c: char) -> (r: Option<usize>)
    ensures
        r == char_width(c),
        (c as u32) < 0x20 || (0x7F <= (c as u32) && (c as u32) < 0xA0) ==> r is None,
        0x20 <= (c as u32) && (c as u32) < 0x7F ==> r == Some(1usize),
        0x4E00 <= (c as u32) && (c as u32) <= 0x9FFF ==> r == Some(2usize),
{
    c.width()
}

/// `UnicodeWidthStr::width`. Claimed: the result depends on the text alone
/// (it is named `str_width`), and a text of printable ASCII characters and
/// CJK unified ideographs is as wide as its characters together (one column
/// each for ASCII, two for ideographs). The rules for other characters and
/// for multi-character sequences are not restated.
#[verifier::external_body]
fn width_of_str(s: &str) -> (r: usize)
    ensures
        r == str_width(s@),
        (forall|k: int| 0 <= k < s@.len() ==> plain_char(#[trigger] s@[k])) ==> r == plain_cols(s@),
{
    s.width()
}

/// Display width of `s` in columns.
pub fn display_width(s: &str) -> (r: usize)
    ensures
        r == str_width(s@),
        (forall|k: int| 0 <= k < s@.len() ==> plain_char(#[trigger] s@[k])) ==> r == plain_cols(s@),
{
    width_of_str(s)
}

/// Columns a character takes while truncating (control characters: none).
pub open spec fn col_width(c: char) -> int {
    match char_width(c) {
        Some(w) => w as int,
        None => 0,
    }
}

/// The longest prefix of `s` whose characters fit in `budget` columns,
/// stopping at the first character that would not fit.
pub open spec fn fit_prefix(s: Seq<char>, budget: int) -> Seq<char>
    decreases s.len(),
{
    if s.len() == 0 || col_width(s[0]) > budget {
        Seq::empty()
    } else {
        seq![s[0]] + fit_prefix(s.drop_first(), budget - col_width(s[0]))
    }
}

/// Marker for truncated text. Plain ASCII on purpose: the real ellipsis is
/// East-Asian *ambiguous* width and drifts in CJK terminals.
pub open spec fn ellipsis() -> Seq<char> {
    ".."@
}

/// The result of truncating `s` to `max` display columns: unchanged when it
/// fits; otherwise cut to `max - 2` columns plus `..`, or hard-cut to `max`
/// columns when the budget is too small for the marker.
pub open spec fn truncated(s: Seq<char>, max: int) -> Seq<char> {
    if max == 0 {
        Seq::empty()
    } else if str_width(s) <= max {
        s
    } else {
        let budget = if max > 2 { max - 2 } else { max };
        if budget < max {
            fit_prefix(s, budget) + ellipsis()
        } else {
            fit_prefix(s, budget)
        }
    }
}

/// Every character of `s` is plain (see `plain_char`).
pub open spec fn plain_text(s: Seq<char>) -> bool {
    forall|k: int| 0 <= k < s.len() ==> plain_char(#[trigger] s[k])
}

proof fn lemma_plain_cols_concat(a: Seq<char>, b: Seq<char>)
    ensures
        plain_cols(a + b) == plain_cols(a) + plain_cols(b),
    decreases a.len(),
{
    if a.len() > 0 {
        assert((a + b).drop_first() =~= a.drop_first() + b);
        lemma_plain_cols_concat(a.drop_first(), b);
    } else {
        assert(a + b =~= b);
    }
}

/// Truncate to `max` display columns, marking the cut. A text of plain
/// characters stays plain and, counted column by column, fits in `max`.
pub fn truncate_w(s: &str, max: usize) -> (r: String)
    ensures
        r@ == truncated(s@, max as int),
        plain_text(s@) ==> plain_text(r@) && plain_cols(r@) <= max && r@ == truncated_plain(s@, max as int),
{
    if max == 0 {
        proof { assert(plain_cols(Seq::<char>::empty()) == 0); }
        return String::new();
    }
    if width_of_str(s) <= max {
        return s.to_owned();
    }
    let budget: usize = if max > 2 { max - 2 } else { max };
    let cs = chars_of(s);
    let mut out: Vec<char> = Vec::new();
    let mut w: usize = 0;
    let mut i: usize = 0;
    let mut stopped = false;
    proof { assert(cs@.skip(0) =~= cs@); }
    while i < cs.len() && !stopped
        invariant
            i <= cs@.len(),
            w <= budget,
            cs@ == s@,
            fit_prefix(s@, budget as int) == out@ + fit_prefix(cs@.skip(i as int), budget - w),
            stopped ==> fit_prefix(cs@.skip(i as int), budget - w) == Seq::<char>::empty(),
            out@ == cs@.take(i as int),
            plain_text(s@) ==> plain_cols(out@) == w,
            plain_text(s@) ==> fit_plain(s@, budget as int) == out@ + fit_plain(cs@.skip(i as int), budget - w),
            plain_text(s@) && stopped ==> fit_plain(cs@.skip(i as int), budget - w) == Seq::<char>::empty(),
        decreases cs.len() - i, if stopped { 0int } else { 1int },
    {
        let ghost rest = cs@.skip(i as int);
        proof {
            assert(rest[0] == cs@[i as int]);
            assert(rest.drop_first() =~= cs@.skip(i + 1));
        }
        let cw: usize = match width_of_char(cs[i]) {
            Some(x) => x,
            None => 0,
        };
        proof {
            assert(cw as int == col_width(cs@[i as int]));
            if plain_text(s@) {
                assert(plain_char(cs@[i as int]));
                assert(cw == plain_width(cs@[i as int]));
            }
        }
        if cw > budget - w {
            stopped = true;
        } else {
            proof {
                assert(out@.push(cs@[i as int]) + fit_prefix(rest.drop_first(), budget - w - cw) =~= out@ + (
                seq![rest[0]] + fit_prefix(rest.drop_first(), budget - w - cw)));
                assert(cs@.take(i + 1) =~= out@.push(cs@[i as int]));
                if plain_text(s@) {
                    assert(out@.push(cs@[i as int]) + fit_plain(rest.drop_first(), budget - w - cw) =~= out@ + (
                    seq![rest[0]] + fit_plain(rest.drop_first(), budget - w - cw)));
                    let c = cs@[i as int];
                    assert(plain_char(c));
                    lemma_plain_cols_concat(out@, seq![c]);
                    assert(seq![c].drop_first() =~= Seq::<char>::empty());
                    assert(seq![c][0] == c);
                    assert(plain_cols(Seq::<char>::empty()) == 0);
                    assert(plain_cols(seq![c]) == (if (c as u32) < 0x7F { 1int } else { 2int }) + plain_cols(
                        seq![c].drop_first(),
                    ));
                    assert(cw == (if (c as u32) < 0x7F { 1int } else { 2int }));
                    assert(out@ + seq![c] =~= out@.push(c));
                }
            }
            out.push(cs[i]);
            w = w + cw;
            i = i + 1;
        }
    }
    proof {
        let rest = cs@.skip(i as int);
        if !stopped {
            assert(rest =~= Seq::<char>::empty());
        }
        assert(out@ + Seq::<char>::empty() =~= out@);
        assert(fit_prefix(s@, budget as int) == out@);
        if plain_text(s@) {
            assert(fit_plain(s@, budget as int) == out@);
        }
    }
    let ghost kept = out@;
    if budget < max {
        out.push('.');
        out.push('.');
        proof {
            reveal_strlit("..");
            assert(out@ =~= fit_prefix(s@, budget as int) + ellipsis());
            if plain_text(s@) {
                lemma_plain_cols_concat(kept, seq!['.', '.']);
                let dots = seq!['.', '.'];
                assert(dots.drop_first() =~= seq!['.']);
                assert(seq!['.'].drop_first() =~= Seq::<char>::empty());
                assert(('.' as u32) == 46);
                assert(seq!['.'][0] == '.');
                assert(plain_cols(Seq::<char>::empty()) == 0);
                assert(plain_cols(seq!['.']) == 1 + plain_cols(seq!['.'].drop_first()));
                assert(dots[0] == '.');
                assert(plain_cols(dots) == 1 + plain_cols(dots.drop_first()));
                assert(plain_cols(dots) == 2);
                assert(kept + seq!['.', '.'] =~= out@);
            }
        }
    }
    proof {
        if plain_text(s@) {
            assert forall|k: int| 0 <= k < out@.len() implies plain_char(#[trigger] out@[k]) by {
                if k < kept.len() {
                    assert(out@[k] == cs@[k]);
                }
            }
        }
    }
    string_of(&out)
}

/// Columns of `s`, character by character.
pub open spec fn cols_of(s: Seq<char>) -> int
    decreases s.len(),
{
    if s.len() == 0 {
        0
    } else {
        col_width(s[0]) + cols_of(s.drop_first())
    }
}

/// What truncation keeps of a text is a prefix of it whose characters,
/// column by column, fit in the budget.
pub proof fn law_kept_text_fits_budget(s: Seq<char>, budget: int)
    requires
        budget >= 0,
    ensures
        cols_of(fit_prefix(s, budget)) <= budget,
        fit_prefix(s, budget).len() <= s.len(),
        fit_prefix(s, budget) =~= s.subrange(0, fit_prefix(s, budget).len() as int),
    decreases s.len(),
{
    if s.len() == 0 || col_width(s[0]) > budget {
    } else {
        let rest = s.drop_first();
        law_kept_text_fits_budget(rest, budget - col_width(s[0]));
        let k = fit_prefix(s, budget);
        assert(k.drop_first() =~= fit_prefix(rest, budget - col_width(s[0])));
        assert(cols_of(k) == col_width(s[0]) + cols_of(k.drop_first()));
    }
}

/// Text cut by truncation ends in `..`, and what comes before it is a
/// prefix of the text whose characters fit in `max - 2` columns.
pub proof fn law_truncation_marks_the_cut(s: Seq<char>, max: int)
    requires
        max > 2,
        str_width(s) > max,
    ensures
        ({
            let r = truncated(s, max);
            let kept = r.subrange(0, r.len() - 2);
            &&& r.len() >= 2
            &&& r.subrange(r.len() - 2, r.len() as int) =~= ellipsis()
            &&& kept =~= s.subrange(0, kept.len() as int)
            &&& cols_of(kept) <= max - 2
        }),
{
    law_kept_text_fits_budget(s, max - 2);
    let k = fit_prefix(s, max - 2);
    let r = truncated(s, max);
    assert(r == k + ellipsis());
    reveal_strlit("..");
    assert(r.subrange(0, r.len() - 2) =~= k);
}

/// `n` spaces.
pub open spec fn spaces(n: int) -> Seq<char> {
    Seq::new(n as nat, |_i: int| ' ')
}

/// `s` truncated to `max` columns, then padded with spaces up to `max`
/// columns as `unicode-width` measures the truncated text.
pub open spec fn fitted(s: Seq<char>, max: int) -> Seq<char> {
    let t = truncated(s, max);
    let w = str_width(t);
    t + spaces(if w < max { max - w } else { 0 })
}

proof fn lemma_plain_spaces(n: int)
    requires
        n >= 0,
    ensures
        plain_text(spaces(n)),
        plain_cols(spaces(n)) == n,
    decreases n,
{
    assert((' ' as u32) == 32);
    if n > 0 {
        lemma_plain_spaces(n - 1);
        assert(spaces(n).drop_first() =~= spaces(n - 1));
        assert(spaces(n)[0] == ' ');
    } else {
        assert(spaces(n) =~= Seq::<char>::empty());
    }
}

/// Truncate to `max` columns, then pad with spaces so the next column
/// always starts at the same offset: a text of plain characters comes out
/// exactly `max` columns wide.
pub fn fit_w(s: &str, max: usize) -> (r: String)
    ensures
        r@ == fitted(s@, max as int),
        plain_text(s@) ==> plain_text(r@) && plain_cols(r@) == max,
{
    let t = truncate_w(s, max);
    let w = width_of_str(t.as_str());
    let pad: usize = if w < max { max - w } else { 0 };
    let mut out = chars_of(t.as_str());
    let mut k: usize = 0;
    while k < pad
        invariant
            k <= pad,
            out@ == t@ + spaces(k as int),
        decreases pad - k,
    {
        out.push(' ');
        proof { assert(t@ + spaces(k + 1) =~= (t@ + spaces(k as int)).push(' ')); }
        k = k + 1;
    }
    proof {
        if plain_text(s@) {
            lemma_plain_spaces(pad as int);
            lemma_plain_cols_concat(t@, spaces(pad as int));
            assert forall|j: int| 0 <= j < out@.len() implies plain_char(#[trigger] out@[j]) by {
                if j < t@.len() {
                    assert(out@[j] == t@[j]);
                } else {
                    assert(out@[j] == spaces(pad as int)[j - t@.len()]);
                }
            }
        }
    }
    string_of(&out)
}

/// Rows a cover `cols` columns wide needs to look square in pixels:
/// `cols * font_w / font_h`, rounded, at least 1 (and cut to 16 bits as
/// the terminal coordinates are).
pub open spec fn rows_for(cols: int, font_w: int, font_h: int) -> int {
    let q = (cols * font_w + font_h / 2) / font_h;
    if q < 1 { 1 } else { q }
}

/// How many rows a `cols`-wide square cover needs. `font` is the cell size
/// in pixels when the terminal reports it; a 1:2 cell is assumed otherwise,
/// and zero sizes count as 1.
pub fn cover_rows(cols: u16, font: Option<(u16, u16)>) -> (r: u16)
    ensures
        ({
            let (fw, fh) = match font {
                Some((w, h)) => (if w == 0 { 1int } else { w as int }, if h == 0 { 1int } else { h as int }),
                None => (1int, 2int),
            };
            r == rows_for(cols as int, fw, fh) as u16
        }),
{
    let (fw, fh): (u32, u32) = match font {
        Some((w, h)) => (if w == 0 { 1 } else { w as u32 }, if h == 0 { 1 } else { h as u32 }),
        None => (1, 2),
    };
    proof {
        assert((cols as int) * (fw as int) <= 65535 * 65535) by (nonlinear_arith)
            requires cols <= 65535, fw <= 65535;
    }
    let num: u32 = cols as u32 * fw + fh / 2;
    let q: u32 = num / fh;
    let rows: u32 = if q < 1 { 1 } else { q };
    rows as u16
}

/// The cover block is square within one cell: the rows times the cell
/// height is never more than one cell height away from the columns times
/// the cell width.
pub proof fn law_cover_block_square(cols: int, font_w: int, font_h: int)
    requires
        cols >= 0,
        font_w >= 1,
        font_h >= 1,
    ensures
        ({
            let px_w = cols * font_w;
            let px_h = rows_for(cols, font_w, font_h) * font_h;
            -font_h <= px_w - px_h <= font_h
        }),
{
    let n = cols * font_w + font_h / 2;
    let q = n / font_h;
    assert(cols * font_w >= 0) by (nonlinear_arith)
        requires cols >= 0, font_w >= 1;
    assert(q * font_h <= n && n < q * font_h + font_h) by (nonlinear_arith)
        requires font_h >= 1, n >= 0, q == n / font_h;
    let r = rows_for(cols, font_w, font_h);
    if q < 1 {
        assert(q == 0) by (nonlinear_arith)
            requires n >= 0, font_h >= 1, q == n / font_h, q < 1;
        assert(r == 1);
        assert(q * font_h == 0) by (nonlinear_arith)
            requires q == 0;
        assert(r * font_h == font_h);
        assert(cols * font_w < font_h);
    } else {
        assert(r == q);
        assert(r * font_h == q * font_h);
    }
}

/// Number of destinations in the navigation bar.
pub const NAV_TAB_COUNT: usize = 5;

/// The navigation bar: label, the key that reaches the page, the page.
pub open spec fn nav_tab_spec(i: int) -> (Seq<char>, Seq<char>, MainView) {
    if i == 0 {
        ("首页"@, "Esc"@, MainView::Home)
    } else if i == 1 {
        ("搜索"@, "/"@, MainView::Search)
    } else if i == 2 {
        ("音乐库"@, "L"@, MainView::Library)
    } else if i == 3 {
        ("历史"@, "H"@, MainView::History)
    } else {
        ("正在播放"@, "l"@, MainView::NowPlaying)
    }
}

/// Destination `i` of the navigation bar. Showing the keys in the bar is
/// what makes them discoverable.
pub fn nav_tab(i: usize) -> (r: (&'static str, &'static str, MainView))
    requires
        i < NAV_TAB_COUNT,
    ensures
        (r.0@, r.1@, r.2) == nav_tab_spec(i as int),
{
    if i == 0 {
        ("首页", "Esc", MainView::Home)
    } else if i == 1 {
        ("搜索", "/", MainView::Search)
    } else if i == 2 {
        ("音乐库", "L", MainView::Library)
    } else if i == 3 {
        ("历史", "H", MainView::History)
    } else {
        ("正在播放", "l", MainView::NowPlaying)
    }
}

/// Whether the tab for `view` is lit while `current` is shown: browsing is
/// reached from search results, so that keeps the search tab lit.
pub fn nav_tab_active(current: MainView, view: MainView) -> (r: bool)
    ensures
        r == (current == view || (current == MainView::Browse && view == MainView::Search)),
{
    current == view || (current == MainView::Browse && view == MainView::Search)
}

/// Whether the queue pane is shown beside the main pane: only when the
/// screen is wide enough, and never on the now-playing page, which wants
/// every column for cover art and lyrics.
pub fn show_queue(width: u16, view: MainView) -> (r: bool)
    ensures
        r == (width >= 84 && view != MainView::NowPlaying),
{
    width >= 84 && view != MainView::NowPlaying
}

/// The text of one track row, column by column.
pub struct TrackCells {
    pub title: String,
    /// Present when the artist column fits; starts with the gap.
    pub artist: Option<String>,
    /// Present when the duration column fits; starts with the gap.
    pub duration: Option<String>,
}

/// `s` right-aligned in `w` characters.
pub open spec fn right_aligned(s: Seq<char>, w: int) -> Seq<char> {
    spaces(if s.len() < w { w - s.len() } else { 0 }) + s
}

/// The duration text of a track (empty when unknown).
pub open spec fn duration_cell(d: Option<u32>) -> Seq<char> {
    match d {
        Some(secs) => crate::models::duration_text(secs as nat),
        None => Seq::empty(),
    }
}

/// One track row laid out in columns: title | artist | duration, each cut
/// or padded to its column so every list lines up.
pub fn track_cells(t: &Track, cols: TrackCols) -> (r: TrackCells)
    ensures
        r.title@ == fitted(t.title@, cols.title as int),
        cols.artist == 0 ==> r.artist is None,
        cols.artist > 0 ==> (r.artist matches Some(a) && a@ == seq![' '] + fitted(t.artists@, cols.artist as int)),
        cols.duration == 0 ==> r.duration is None,
        cols.duration > 0 ==> (r.duration matches Some(d) && d@ == seq![' '] + right_aligned(
            duration_cell(t.duration_secs),
            cols.duration as int,
        )),
{
    let title = fit_w(t.title.as_str(), cols.title);
    let artist = if cols.artist > 0 {
        let a = fit_w(t.artists.as_str(), cols.artist);
        let mut out: Vec<char> = Vec::new();
        out.push(' ');
        crate::text::extend_str(&mut out, a.as_str());
        Some(string_of(&out))
    } else {
        None
    };
    let duration = if cols.duration > 0 {
        let d = match t.duration_secs {
            Some(secs) => crate::models::format_duration(secs),
            None => String::new(),
        };
        let dc = chars_of(d.as_str());
        let pad: usize = if dc.len() < cols.duration { cols.duration - dc.len() } else { 0 };
        let mut out: Vec<char> = Vec::new();
        out.push(' ');
        let mut k: usize = 0;
        while k < pad
            invariant
                k <= pad,
                out@ == seq![' '] + spaces(k as int),
            decreases pad - k,
        {
            out.push(' ');
            proof {
                assert(seq![' '] + spaces(k + 1) =~= (seq![' '] + spaces(k as int)).push(' '));
            }
            k = k + 1;
        }
        crate::text::extend_chars(&mut out, &dc);
        proof {
            assert(out@ =~= seq![' '] + right_aligned(duration_cell(t.duration_secs), cols.duration as int));
        }
        Some(string_of(&out))
    } else {
        None
    };
    TrackCells { title, artist, duration }
}

/// A rectangle of terminal cells.
#[derive(Debug, Clone, Copy, PartialEq, Eq, Structural)]
pub struct Area {
    pub x: u16,
    pub y: u16,
    pub width: u16,
    pub height: u16,
}

/// Cell (`x`, `y`) lies in `a`.
pub open spec fn in_area(a: Area, x: int, y: int) -> bool {
    a.x <= x < a.x + a.width && a.y <= y < a.y + a.height
}

impl Area {
    /// Whether cell (`x`, `y`) lies in the rectangle.
    pub fn contains(&self, x: u16, y: u16) -> (r: bool)
        ensures
            r == in_area(*self, x as int, y as int),
    {
        (self.x as u32) <= (x as u32) && (x as u32) < (self.x as u32) + (self.width as u32)
            && (self.y as u32) <= (y as u32) && (y as u32) < (self.y as u32) + (self.height as u32)
    }
}

/// Where the clickable things ended up on screen in a frame.
pub struct HitMap {
    /// The navigation bar's tabs, left to right.
    pub nav_tabs: Vec<(Area, MainView)>,
    /// The progress bar.
    pub gauge: Option<Area>,
    /// The search page's tab row.
    pub search_tabs: Option<Area>,
    /// The queue's rows, and the queue row shown first.
    pub queue_list: Option<(Area, usize)>,
    /// The whole queue pane.
    pub queue_pane: Option<Area>,
    /// The main pane's list, its kind, and the row shown first.
    pub main_list: Option<(MainListKind, Area, usize)>,
}

/// The list offsets leave room for the rows of a screen (a list shows
/// far fewer rows than it could ever hold).
pub open spec fn offsets_fit(h: HitMap) -> bool {
    &&& h.queue_list matches Some((_, off)) ==> off <= usize::MAX - 65536
    &&& h.main_list matches Some((_, _, off)) ==> off <= usize::MAX - 65536
}

} // verus!
