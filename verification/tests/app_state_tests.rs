use ytbm_tui::config::{preflight, tool_candidates, PreflightError};
use ytbm_tui::app_state::{
    build_keymap, library_menu_item, login_methods, nav_list, scroll_step, Action, BrowsePage,
    Focus, HomeState, LoginMethod, MainView, SearchState, ViewNav, LIBRARY_MENU_LEN,
};
use ytbm_tui::config::{key_override, parse_key, Config, KeyName};
use ytbm_tui::cookies::{BrowserProfile, CookieStore};
use ytbm_tui::models::{SearchKind, SearchResults, Track};
use ytbm_tui::sponsorblock::category_label;

#[test]
fn key_names_parse() {
    assert_eq!(parse_key("space"), Some(KeyName::Char(' ')));
    assert_eq!(parse_key("  Tab "), Some(KeyName::Tab));
    assert_eq!(parse_key("ENTER"), Some(KeyName::Enter));
    assert_eq!(parse_key("escape"), Some(KeyName::Esc));
    assert_eq!(parse_key("Esc"), Some(KeyName::Esc));
    assert_eq!(parse_key("left"), Some(KeyName::Left));
    assert_eq!(parse_key("Right"), Some(KeyName::Right));
    assert_eq!(parse_key("up"), Some(KeyName::Up));
    assert_eq!(parse_key("down"), Some(KeyName::Down));
    // Single characters keep their case.
    assert_eq!(parse_key("B"), Some(KeyName::Char('B')));
    assert_eq!(parse_key(" 晴 "), Some(KeyName::Char('晴')));
    assert_eq!(parse_key(""), None);
    assert_eq!(parse_key("ab"), None);
}

#[test]
fn defaults_match_the_shipped_config() {
    let c = Config::default();
    assert_eq!(c.playback.mpv_path, "mpv");
    assert_eq!(c.playback.volume, 70);
    assert!(c.playback.radio_auto);
    assert!(c.sponsorblock.enabled);
    assert_eq!(c.sponsorblock.categories, ["sponsor", "selfpromo", "interaction", "music_offtopic"]);
    assert!(c.lyrics.enabled);
    assert!(c.keys.is_empty());
    assert!(c.ytdlp_path.is_none());
}

fn keys(pairs: &[(&str, &str)]) -> Vec<(String, String)> {
    pairs.iter().map(|(a, b)| (a.to_string(), b.to_string())).collect()
}

#[test]
fn overrides_are_looked_up_by_action_name() {
    let k = keys(&[("next", "b"), ("quit", "x")]);
    assert_eq!(key_override(&k, "quit").as_deref(), Some("x"));
    assert_eq!(key_override(&k, "prev"), None);
}

#[test]
fn default_keymap_binds_every_action() {
    let map = build_keymap(&vec![]);
    for i in 0..Action::COUNT {
        let a = Action::at(i);
        assert_eq!(map.get(a.default_key()), Some(a), "{}", a.name());
    }
    assert_eq!(map.get(KeyName::Char('q')), Some(Action::Quit));
    assert_eq!(map.get(KeyName::Char(' ')), Some(Action::PlayPause));
    assert_eq!(map.get(KeyName::Char('x')), None);
}

#[test]
fn overrides_replace_default_keys() {
    let map = build_keymap(&keys(&[("next", "b"), ("play_pause", "Enter"), ("prev", "nonsense")]));
    assert_eq!(map.get(KeyName::Char('b')), Some(Action::NextTrack));
    assert_eq!(map.get(KeyName::Enter), Some(Action::PlayPause));
    assert_eq!(map.get(KeyName::Char('n')), None);
    // An unparsable override keeps the default.
    assert_eq!(map.get(KeyName::Char('p')), Some(Action::PrevTrack));
    // Binding a key another action uses: the later action in binding order wins.
    let map = build_keymap(&keys(&[("quit", "s")]));
    assert_eq!(map.get(KeyName::Char('s')), Some(Action::Shuffle));
}

#[test]
fn list_navigation_stays_in_range() {
    let mut sel = 0;
    assert!(nav_list(&mut sel, 3, KeyName::Down));
    assert_eq!(sel, 1);
    assert!(nav_list(&mut sel, 3, KeyName::Char('j')));
    assert!(nav_list(&mut sel, 3, KeyName::Char('j')));
    assert_eq!(sel, 2);
    assert!(nav_list(&mut sel, 3, KeyName::Char('k')));
    assert_eq!(sel, 1);
    assert!(nav_list(&mut sel, 3, KeyName::Char('G')));
    assert_eq!(sel, 2);
    assert!(nav_list(&mut sel, 3, KeyName::Char('g')));
    assert_eq!(sel, 0);
    assert!(nav_list(&mut sel, 3, KeyName::Up));
    assert_eq!(sel, 0);
    assert!(nav_list(&mut sel, 30, KeyName::PageDown));
    assert_eq!(sel, 10);
    assert!(nav_list(&mut sel, 12, KeyName::PageDown));
    assert_eq!(sel, 11);
    assert!(nav_list(&mut sel, 12, KeyName::PageUp));
    assert_eq!(sel, 1);
    // Other keys are not navigation and change nothing.
    assert!(!nav_list(&mut sel, 12, KeyName::Enter));
    assert!(!nav_list(&mut sel, 12, KeyName::Char('x')));
    assert_eq!(sel, 1);
    // An empty list still swallows navigation keys.
    let mut e = 0;
    assert!(nav_list(&mut e, 0, KeyName::Down));
    assert_eq!(e, 0);
}

#[test]
fn wheel_steps_are_clamped() {
    assert_eq!(scroll_step(5, 10, 3), 8);
    assert_eq!(scroll_step(8, 10, 3), 9);
    assert_eq!(scroll_step(5, 10, -3), 2);
    assert_eq!(scroll_step(1, 10, -3), 0);
    assert_eq!(scroll_step(4, 0, 1), 0);
    assert_eq!(scroll_step(3, 10, i32::MIN), 0);
}

#[test]
fn navigation_bar_destinations() {
    let mut nav = ViewNav { focus: Focus::Queue, main_view: MainView::Home, prev_main_view: MainView::Home };
    assert!(nav.goto_view(MainView::Search, true));
    assert_eq!((nav.focus, nav.main_view), (Focus::Main, MainView::Search));
    assert!(!nav.goto_view(MainView::Library, false));
    assert!(!nav.goto_view(MainView::NowPlaying, false));
    assert_eq!((nav.main_view, nav.prev_main_view), (MainView::NowPlaying, MainView::Library));
    // Entering it again keeps where it came from.
    nav.goto_view(MainView::NowPlaying, false);
    assert_eq!(nav.prev_main_view, MainView::Library);
    assert!(!nav.goto_view(MainView::Search, false));
    assert_eq!(nav.main_view, MainView::Search);
}

fn track(id: &str) -> Track {
    Track { video_id: id.into(), title: id.into(), artists: "a".into(), album: None, duration_secs: None, cover_url: None }
}

#[test]
fn row_counts() {
    let home = HomeState { tracks: vec![track("a")], albums: vec![], selected: 0, loading: false };
    assert_eq!(home.row_count(), 1);
    let mut page = BrowsePage::Tracks { title: "t".into(), tracks: vec![track("a"), track("b")], selected: 0 };
    assert_eq!(page.row_count(), 2);
    *page.selected_mut() = 1;
    match &page {
        BrowsePage::Tracks { selected, tracks, .. } => assert_eq!((*selected, tracks.len()), (1, 2)),
        _ => panic!("page kind changed"),
    }
    let loading = BrowsePage::Album { title: "x".into(), data: None, selected: 0 };
    assert_eq!(loading.row_count(), 0);
}

#[test]
fn search_lists_follow_the_selected_tab() {
    let mut results = SearchResults::default();
    results.tracks = vec![track("a"), track("b")];
    let s = SearchState { query: "q".into(), kind_idx: 0, results, selected: 0, loading: false };
    assert_eq!(s.kind(), SearchKind::Songs);
    assert_eq!(s.list_len(), 2);
    let s = SearchState { kind_idx: 1, ..s };
    assert_eq!(s.kind(), SearchKind::Albums);
    assert_eq!(s.list_len(), 0);
}

#[test]
fn login_rows_list_profiles_then_fallbacks() {
    let p = BrowserProfile { display: "Firefox (default)".into(), store: CookieStore::Firefox, db: "/f/cookies.sqlite".into(), local_state: None };
    let methods = login_methods(vec![p]);
    assert_eq!(methods.len(), 3);
    let labels: Vec<_> = methods.iter().map(|m| m.label()).collect();
    assert_eq!(
        labels,
        [
            "从 Firefox (default) 导入登录",
            "先在浏览器登录 music.youtube.com（打开网页）",
            "手动粘贴 Cookie 或 cookies.txt 路径",
        ]
    );
    assert!(matches!(methods[2], LoginMethod::Manual));
}

#[test]
fn library_menu_entries() {
    let items: Vec<_> = (0..LIBRARY_MENU_LEN).map(library_menu_item).collect();
    assert_eq!(items, ["喜欢的音乐", "我的歌单", "收藏的专辑", "关注的歌手", "播放历史"]);
}

#[test]
fn sponsor_categories_have_chinese_labels() {
    assert_eq!(category_label("sponsor"), "广告推广");
    assert_eq!(category_label("music_offtopic"), "非音乐片段");
    assert_eq!(category_label("filler"), "闲聊填充");
    assert_eq!(category_label("unknown_cat"), "unknown_cat");
}

#[test]
fn tool_candidates_are_tried_in_order() {
    let c = tool_candidates("mpv", "mpv", "mpv", Some("/s".into()), Some("C:\\PF".into()), None);
    assert_eq!(c, ["mpv", "/s/apps/mpv/current/mpv.exe", "/s/shims/mpv.exe", "C:\\PF\\mpv\\mpv.exe"]);
    let c = tool_candidates("/opt/mpv", "mpv", "mpv", None, None, Some("L".into()));
    assert_eq!(c, ["/opt/mpv", "mpv", "L\\Microsoft\\WinGet\\Links\\mpv.exe"]);
}

#[test]
fn preflight_needs_mpv_only() {
    let mut c = Config::default();
    assert_eq!(preflight(&mut c, None, Some("yt".into())), Err(PreflightError::MpvMissing));
    assert!(PreflightError::MpvMissing.message().contains("scoop install mpv"));
    assert_eq!(preflight(&mut c, Some("/bin/mpv".into()), None), Ok(None));
    assert_eq!(c.playback.mpv_path, "/bin/mpv");
    assert!(c.ytdlp_path.is_none());
    assert_eq!(preflight(&mut c, Some("/bin/mpv".into()), Some("/bin/yt-dlp".into())), Ok(None));
    assert_eq!(c.ytdlp_path.as_deref(), Some("/bin/yt-dlp"));
}
