use ratatui::backend::TestBackend;
use ratatui::layout::Rect;
use ratatui::text::{Line, Span};
use ratatui::widgets::{List, ListItem, ListState, Paragraph};
use ratatui::Terminal;
use unicode_width::UnicodeWidthStr;

use ytbm_tui::models::Track;
use ytbm_tui::ui::{badge_text, fit_w, nav_tab, track_cells, BadgeKind, TrackCols, BADGE_W, NAV_TAB_COUNT};

fn track(title: &str, artists: &str, secs: u32) -> Track {
    Track {
        video_id: "id".into(),
        title: title.into(),
        artists: artists.into(),
        album: None,
        duration_secs: Some(secs),
        cover_url: None,
    }
}

fn track_item(t: &Track, cols: TrackCols) -> ListItem<'static> {
    let cells = track_cells(t, cols);
    let mut spans = vec![Span::raw(cells.title)];
    if let Some(a) = cells.artist {
        spans.push(Span::raw(a));
    }
    if let Some(d) = cells.duration {
        spans.push(Span::raw(d));
    }
    ListItem::new(Line::from(spans))
}

fn buffer_lines(terminal: &Terminal<TestBackend>) -> Vec<String> {
    let buf = terminal.backend().buffer().clone();
    (0..buf.area.height).map(|y| (0..buf.area.width).map(|x| buf[(x, y)].symbol()).collect::<String>()).collect()
}

/// Render real rows through ratatui, as the track lists draw them.
fn render_rows(width: u16) -> Vec<String> {
    let tracks = [
        track("晴天", "周杰伦", 269),
        track("这是一个非常非常长的中文歌曲标题用来测试截断行为是否正确", "某位歌手", 225),
        track("An Extremely Long English Song Title That Should Be Truncated", "Some Artist", 194),
    ];
    let cols = TrackCols::new(width);
    let items: Vec<ListItem> = tracks.iter().map(|t| track_item(t, cols)).collect();
    let mut terminal = Terminal::new(TestBackend::new(width, 3)).unwrap();
    terminal
        .draw(|f| {
            let list = List::new(items).highlight_symbol("> ");
            let mut state = ListState::default();
            state.select(Some(0));
            f.render_stateful_widget(list, f.area(), &mut state);
        })
        .unwrap();
    buffer_lines(&terminal)
}

/// A wide char occupies two terminal cells, the second of which reads back
/// as a blank - drop spaces before matching CJK text.
fn squeeze(s: &str) -> String {
    s.chars().filter(|c| *c != ' ').collect()
}

#[test]
fn nav_bar_shows_all_destinations_with_keys() {
    let mut terminal = Terminal::new(TestBackend::new(80, 1)).unwrap();
    let mut rects: Vec<Rect> = Vec::new();
    terminal
        .draw(|f| {
            let mut spans = Vec::new();
            let mut x = 0u16;
            for i in 0..NAV_TAB_COUNT {
                let (label, key, _) = nav_tab(i);
                let text = format!(" {label} {key} ");
                let w = text.as_str().width() as u16;
                spans.push(Span::raw(text));
                rects.push(Rect::new(x, 0, w, 1));
                x += w;
            }
            f.render_widget(Paragraph::new(Line::from(spans)), f.area());
        })
        .unwrap();
    let line = buffer_lines(&terminal).remove(0);
    let squeezed = squeeze(&line);
    for i in 0..NAV_TAB_COUNT {
        let (label, key, _) = nav_tab(i);
        assert!(squeezed.contains(&squeeze(label)), "missing tab {label}");
        assert!(squeezed.contains(key), "missing key hint for {label}");
    }
    // Tabs must not overlap, or clicks would land on the wrong one.
    for pair in rects.windows(2) {
        assert!(pair[0].right() <= pair[1].x, "nav tabs overlap");
    }
}

#[test]
fn long_titles_never_hide_artist_and_duration() {
    let lines = render_rows(60);
    assert!(lines[0].contains("4:29"), "row 0 lost its duration: {}", lines[0]);
    assert!(lines[1].contains("3:45"), "row 1 lost its duration: {}", lines[1]);
    assert!(lines[2].contains("3:14"), "row 2 lost its duration: {}", lines[2]);
    assert!(squeeze(&lines[0]).contains("周杰伦"));
    assert!(squeeze(&lines[1]).contains("某位歌手"));
    assert!(lines[2].contains("Some Artist"));
    // Overlong titles are cut with a marker rather than overflowing.
    assert!(lines[1].contains(".."));
    assert!(lines[2].contains(".."));
    // Durations all start at the same column.
    let col = |s: &String, pat: &str| s.find(pat).map(|i| s[..i].chars().count());
    assert_eq!(col(&lines[0], "4:29"), col(&lines[1], "3:45"));
    assert_eq!(col(&lines[1], "3:45"), col(&lines[2], "3:14"));
}

#[test]
fn badges_are_fixed_width_and_keep_rows_aligned() {
    let cols = TrackCols::new(50);
    let row = |kind: BadgeKind, title: &str| {
        ListItem::new(Line::from(vec![Span::raw(badge_text(kind)), Span::raw(fit_w(title, cols.title - BADGE_W))]))
    };
    let rows = vec![
        row(BadgeKind::Album, "某张专辑"),
        row(BadgeKind::Artist, "Some Artist"),
        row(BadgeKind::Playlist, "我的歌单"),
    ];
    let mut terminal = Terminal::new(TestBackend::new(50, 3)).unwrap();
    terminal.draw(|f| f.render_widget(List::new(rows), f.area())).unwrap();
    let lines = buffer_lines(&terminal);
    for l in &lines {
        assert_eq!(l[..BADGE_W].width(), BADGE_W, "badge width drifted: {l}");
    }
    assert!(lines[0].starts_with("ALB "));
    assert!(lines[1].starts_with("ART "));
    assert!(lines[2].starts_with("LST "));
    assert!(lines[1][BADGE_W..].starts_with("Some Artist"));
}

#[test]
fn narrow_terminal_still_renders_titles() {
    let lines = render_rows(24);
    for l in &lines {
        assert_eq!(l.chars().count(), 24, "row overflowed the viewport");
    }
    assert!(squeeze(&lines[0]).contains("晴天"));
}
