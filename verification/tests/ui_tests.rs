use unicode_width::UnicodeWidthStr;

use ytbm_tui::app_state::MainView;
use ytbm_tui::models::Track;
use ytbm_tui::ui::{
    badge_color, badge_text, display_width, fit_w, nav_tab, nav_tab_active, show_queue, state_marker,
    track_cells, truncate_w, BadgeColor, BadgeKind, TrackCols, BADGE_W, NAV_TAB_COUNT,
};

#[test]
fn truncate_counts_display_columns_not_chars() {
    // CJK characters occupy two columns each.
    assert_eq!(truncate_w("晴天", 10), "晴天");
    assert_eq!(truncate_w("晴天七里香", 6), "晴天..");
    assert_eq!(truncate_w("abcdef", 4), "ab..");
    assert_eq!(truncate_w("abc", 0), "");
    // The result never exceeds the budget, marker included.
    for max in 1..12 {
        assert!(truncate_w("晴天七里香abc", max).width() <= max, "max={max}");
    }
}

#[test]
fn ui_text_avoids_ambiguous_width_characters() {
    // These render two columns wide in CJK terminals while
    // unicode-width reports one, so they must never reach the screen.
    const AMBIGUOUS: [char; 6] = [
        '\u{2026}', // …
        '\u{2014}', // —
        '\u{00B7}', // ·
        '\u{2192}', // →
        '\u{2713}', // ✓
        '\u{25B6}', // ▶
    ];
    for bad in AMBIGUOUS {
        assert!(
            !truncate_w("a much longer text", 5).contains(bad),
            "truncation marker uses ambiguous-width {bad:?}"
        );
    }
    for (name, text) in [
        ("badge", badge_text(BadgeKind::Album).to_string()),
        ("marker", state_marker(false, false).to_string()),
    ] {
        for bad in AMBIGUOUS {
            assert!(!text.contains(bad), "{name} contains {bad:?}");
        }
    }
}

#[test]
fn fit_pads_to_exact_column_width() {
    assert_eq!(fit_w("ab", 5).width(), 5);
    assert_eq!(fit_w("晴天", 5).width(), 5);
    assert_eq!(fit_w("very long text here", 6).width(), 6);
}

#[test]
fn columns_shrink_gracefully_on_narrow_terminals() {
    let wide = TrackCols::new(80);
    assert!(wide.title > 30 && wide.artist > 0 && wide.duration == 5);
    // Everything must still fit inside the row.
    assert!(wide.title + wide.artist + wide.duration + 2 <= 78);

    let narrow = TrackCols::new(20);
    assert_eq!(narrow.artist, 0, "artist column must be dropped when tight");
    assert_eq!(narrow.duration, 0);
}

#[test]
fn column_widths_are_exact() {
    let c = TrackCols::new(80);
    assert_eq!((c.title, c.artist, c.duration), (47, 24, 5));
    let c = TrackCols::new(40);
    assert_eq!((c.title, c.artist, c.duration), (19, 12, 5));
    let c = TrackCols::new(1);
    assert_eq!((c.title, c.artist, c.duration), (0, 0, 0));
}

#[test]
fn badges_are_four_ascii_columns_in_their_colour() {
    for (kind, text, colour) in [
        (BadgeKind::Album, "ALB ", BadgeColor::Cyan),
        (BadgeKind::Artist, "ART ", BadgeColor::Magenta),
        (BadgeKind::Playlist, "LST ", BadgeColor::Yellow),
    ] {
        assert_eq!(badge_text(kind), text);
        assert_eq!(badge_text(kind).width(), BADGE_W);
        assert_eq!(badge_color(kind), colour);
    }
    assert_eq!(state_marker(true, true), "..");
    assert_eq!(state_marker(false, true), "||");
    assert_eq!(state_marker(false, false), "> ");
}

#[test]
fn widths_come_from_unicode_width() {
    assert_eq!(display_width("晴天ab"), 6);
    assert_eq!(display_width(""), 0);
}

#[test]
fn tiny_budgets_cut_without_a_marker() {
    assert_eq!(truncate_w("abcdef", 2), "ab");
    assert_eq!(truncate_w("晴天", 3), "..");
    assert_eq!(truncate_w("晴天", 1), "");
}

fn track(title: &str, artists: &str, secs: u32) -> Track {
    Track {
        video_id: "id".into(),
        title: title.into(),
        artists: artists.into(),
        album: None,
        duration_secs: Some(secs),
        cover_url: None,
    }
}

#[test]
fn track_rows_keep_their_columns() {
    let cols = TrackCols::new(60);
    let long = track("这是一个非常非常长的中文歌曲标题用来测试截断行为是否正确", "某位歌手", 225);
    let cells = track_cells(&long, cols);
    assert_eq!(cells.title.width(), cols.title);
    assert!(cells.title.contains(".."));
    assert_eq!(cells.artist.as_ref().unwrap().width(), cols.artist + 1);
    assert_eq!(cells.duration.as_deref(), Some("  3:45"));
    let narrow = track_cells(&track("晴天", "周杰伦", 269), TrackCols::new(20));
    assert!(narrow.artist.is_none() && narrow.duration.is_none());
    assert!(narrow.title.starts_with("晴天"));
}

#[test]
fn nav_bar_lists_every_destination_with_its_key() {
    let tabs: Vec<_> = (0..NAV_TAB_COUNT).map(nav_tab).collect();
    assert_eq!(tabs[0], ("首页", "Esc", MainView::Home));
    assert_eq!(tabs[4], ("正在播放", "l", MainView::NowPlaying));
    assert!(nav_tab_active(MainView::Browse, MainView::Search));
    assert!(!nav_tab_active(MainView::Browse, MainView::Home));
    assert!(show_queue(100, MainView::Home));
    assert!(!show_queue(100, MainView::NowPlaying));
    assert!(!show_queue(80, MainView::Home));
}

#[test]
fn plain_text_fits_its_columns_exactly() {
    for s in ["", "abc", "晴天", "晴天七里香 Jay Chou", "a周b杰c伦d", "0123456789abcdef"] {
        for max in 0..12usize {
            let t = truncate_w(s, max);
            assert!(display_width(&t) <= max, "{s:?} cut to {max}: {t:?}");
            assert_eq!(display_width(&fit_w(s, max)), max, "{s:?} fitted to {max}");
        }
    }
}
