use ytbm_tui::controller::end_file_note;
use ytbm_tui::app_state::{Action, BrowsePage, Focus, InputMode, MainView};
use ytbm_tui::config::KeyName;
use ytbm_tui::controller::keys::{
    click_target, is_double_click, scroll_target, search_tab_at, ClickTarget, ScrollTarget,
};
use ytbm_tui::controller::{ApiReply, Controller, PlayerNote, PlayerRequest, Request};
use ytbm_tui::models::{AlbumDetail, AlbumSummary, SearchKind, SearchResults, Track};
use ytbm_tui::queue::RepeatMode;
use ytbm_tui::ui::{Area, HitMap, MainListKind};

fn t(id: &str) -> Track {
    Track {
        video_id: id.into(),
        title: format!("song {id}"),
        artists: "artist".into(),
        album: None,
        duration_secs: Some(200),
        cover_url: None,
    }
}

fn ctl() -> Controller {
    Controller::new(false, false, &vec![], vec![])
}

fn status(c: &Controller) -> &str {
    c.status.as_deref().unwrap_or("")
}

fn type_text(c: &mut Controller, text: &str, out: &mut Vec<Request>) {
    for ch in text.chars() {
        c.on_key(KeyName::Char(ch), false, false, false, out);
    }
}

#[test]
fn typing_a_query_starts_a_search() {
    let mut c = ctl();
    let mut out = Vec::new();
    c.on_key(KeyName::Char('/'), false, false, false, &mut out);
    assert!(matches!(c.input, Some((InputMode::Search, _))));
    type_text(&mut c, "abd", &mut out);
    c.on_key(KeyName::Backspace, false, false, false, &mut out);
    type_text(&mut c, "c ", &mut out);
    c.on_key(KeyName::Enter, false, false, false, &mut out);
    assert!(c.input.is_none());
    assert_eq!(c.search.query, "abc");
    assert_eq!(c.nav.main_view, MainView::Search);
    assert_eq!(c.search_seq, 1);
    match out.last() {
        Some(Request::Search { seq, kind, query }) => {
            assert_eq!((*seq, *kind, query.as_str()), (1, SearchKind::Songs, "abc"));
        }
        other => panic!("unexpected {other:?}"),
    }
}

#[test]
fn stale_search_replies_are_dropped() {
    let mut c = ctl();
    let mut out = Vec::new();
    c.submit_search("x".into(), &mut out);
    c.submit_search("y".into(), &mut out);
    let mut r = SearchResults::default();
    r.tracks = vec![t("old")];
    c.on_api(ApiReply::SearchDone { seq: 1, kind: SearchKind::Songs, result: Ok(r) }, &mut out);
    assert!(c.search.results.tracks.is_empty());
    let mut r = SearchResults::default();
    r.tracks = vec![t("a"), t("b")];
    c.on_api(ApiReply::SearchDone { seq: 2, kind: SearchKind::Songs, result: Ok(r) }, &mut out);
    assert_eq!(c.search.results.tracks.len(), 2);
    assert!(!c.search.loading);
    c.on_api(ApiReply::SearchDone { seq: 2, kind: SearchKind::Albums, result: Err("boom".into()) }, &mut out);
    assert_eq!(status(&c), "搜索失败: boom");
}

#[test]
fn enter_on_a_song_plays_the_results_in_order() {
    let mut c = ctl();
    let mut out = Vec::new();
    c.submit_search("x".into(), &mut out);
    let mut r = SearchResults::default();
    r.tracks = vec![t("a"), t("b"), t("c")];
    c.on_api(ApiReply::SearchDone { seq: 1, kind: SearchKind::Songs, result: Ok(r) }, &mut out);
    c.on_key(KeyName::Down, false, false, false, &mut out);
    out.clear();
    c.on_key(KeyName::Enter, false, false, false, &mut out);
    assert_eq!(c.queue.len(), 3);
    assert_eq!(c.queue.current_index(), Some(1));
    assert_eq!(c.now_playing.as_ref().unwrap().video_id, "b");
    assert_eq!(c.playing_title.as_deref(), Some("song b - artist"));
    assert_eq!(status(&c), "播放中 - 队列 3 首（第 2 首）");
    assert!(matches!(&out[0], Request::ResolveStream { video_id, attempt: 0, retry: false } if video_id == "b"));
    assert!(matches!(&out[1], Request::TrackStarted(tr) if tr.video_id == "b"));
    assert_eq!(c.history.entries()[0].track.video_id, "b");
}

#[test]
fn track_end_follows_the_repeat_mode() {
    let mut c = ctl();
    let mut out = Vec::new();
    c.play_context(vec![t("a"), t("b")], 1, &mut out);
    c.on_player_note(PlayerNote::TrackEnded, &mut out);
    assert_eq!(status(&c), "队列播放完毕");
    assert!(c.playing_title.is_none());
    assert!(matches!(out.last(), Some(Request::Stopped)));
    c.run_action(Action::RepeatCycle, false, &mut out);
    assert_eq!(c.queue.repeat_mode(), RepeatMode::All);
    assert_eq!(status(&c), "循环模式: 全部循环");
    c.on_player_note(PlayerNote::TrackEnded, &mut out);
    assert_eq!(c.queue.current_index(), Some(0));
    assert_eq!(c.now_playing.as_ref().unwrap().video_id, "a");
}

#[test]
fn stream_failures_retry_twice_then_skip() {
    let mut c = ctl();
    let mut out = Vec::new();
    c.play_context(vec![t("a"), t("b")], 0, &mut out);
    // A reply for another track is ignored.
    c.on_api(ApiReply::StreamResolved { video_id: "zz".into(), attempt: 0, result: Ok("u".into()) }, &mut out);
    assert!(!matches!(out.last(), Some(Request::Load(_))));
    c.on_api(ApiReply::StreamResolved { video_id: "a".into(), attempt: 0, result: Err("x".into()) }, &mut out);
    assert_eq!(c.stream_attempt, 1);
    assert_eq!(status(&c), "解析播放地址失败，正在重试 (1/2)");
    assert!(matches!(out.last(), Some(Request::ResolveStream { attempt: 1, retry: true, .. })));
    c.on_api(ApiReply::StreamResolved { video_id: "a".into(), attempt: 1, result: Err("x".into()) }, &mut out);
    assert_eq!(c.stream_attempt, 2);
    c.on_api(ApiReply::StreamResolved { video_id: "a".into(), attempt: 2, result: Err("gone".into()) }, &mut out);
    assert_eq!(c.now_playing.as_ref().unwrap().video_id, "b");
    assert_eq!(status(&c), "解析播放地址失败，跳到下一首: gone");
    c.on_api(ApiReply::StreamResolved { video_id: "b".into(), attempt: 0, result: Ok("http://s".into()) }, &mut out);
    assert!(matches!(out.last(), Some(Request::Load(u)) if u == "http://s"));
}

#[test]
fn the_player_can_resolve_page_urls_itself() {
    let mut c = Controller::new(false, true, &vec![], vec![]);
    let mut out = Vec::new();
    c.play_context(vec![t("a")], 0, &mut out);
    c.stream_attempt = 2;
    c.on_api(ApiReply::StreamResolved { video_id: "a".into(), attempt: 2, result: Err("x".into()) }, &mut out);
    assert!(matches!(out.last(), Some(Request::Load(u)) if u == "https://music.youtube.com/watch?v=a"));
}

#[test]
fn radio_refills_a_short_queue() {
    let mut c = Controller::new(true, false, &vec![], vec![]);
    let mut out = Vec::new();
    c.play_context(vec![t("a"), t("b")], 0, &mut out);
    assert!(c.radio_inflight);
    assert!(out.iter().any(|r| matches!(r, Request::Radio { seed } if seed == "b")));
    c.on_api(ApiReply::RadioDone { result: Ok(vec![t("b"), t("c"), t("d")]) }, &mut out);
    assert!(!c.radio_inflight);
    assert_eq!(c.queue.len(), 4);
    assert_eq!(status(&c), "电台已补充 2 首");
    c.run_action(Action::RadioToggle, false, &mut out);
    assert!(!c.radio_on);
    assert_eq!(status(&c), "电台续播: 关");
}

#[test]
fn album_pages_open_fill_and_play() {
    let mut c = ctl();
    let mut out = Vec::new();
    c.open_album("al".into(), "Album".into(), &mut out);
    assert_eq!(c.nav.main_view, MainView::Browse);
    assert!(matches!(out.last(), Some(Request::Album { seq: 1, id }) if id == "al"));
    // A reply to an older request is ignored.
    let detail = || AlbumDetail { title: "Album".into(), artists: "X".into(), year: None, tracks: vec![t("1"), t("2")] };
    c.on_api(ApiReply::AlbumDone { seq: 0, result: Ok(detail()) }, &mut out);
    assert!(matches!(&c.browse_stack[0], BrowsePage::Album { data: None, .. }));
    c.on_api(ApiReply::AlbumDone { seq: 1, result: Ok(detail()) }, &mut out);
    assert!(matches!(&c.browse_stack[0], BrowsePage::Album { data: Some(_), .. }));
    c.on_key(KeyName::Char('j'), false, false, false, &mut out);
    c.on_key(KeyName::Enter, false, false, false, &mut out);
    assert_eq!(c.now_playing.as_ref().unwrap().video_id, "2");
    c.on_key(KeyName::Esc, false, false, false, &mut out);
    assert!(c.browse_stack.is_empty());
    assert_eq!(c.nav.main_view, MainView::Home);
}

#[test]
fn failed_pages_close_again() {
    let mut c = ctl();
    let mut out = Vec::new();
    c.submit_search("q".into(), &mut out);
    c.open_playlist("pl".into(), "List".into(), &mut out);
    c.on_api(ApiReply::PlaylistDone { seq: 1, result: Err("404".into()) }, &mut out);
    assert!(c.browse_stack.is_empty());
    assert_eq!(c.nav.main_view, MainView::Search);
    assert_eq!(status(&c), "加载歌单失败: 404");
}

#[test]
fn queue_keys_edit_the_queue() {
    let mut c = ctl();
    let mut out = Vec::new();
    c.play_context(vec![t("a"), t("b"), t("c")], 0, &mut out);
    c.on_key(KeyName::Tab, false, false, false, &mut out);
    assert_eq!(c.nav.focus, Focus::Queue);
    c.on_key(KeyName::Char('x'), false, false, false, &mut out);
    assert_eq!(status(&c), "不能移除正在播放的曲目");
    c.on_key(KeyName::Char('G'), false, false, false, &mut out);
    assert_eq!(c.queue_selected, 2);
    c.on_key(KeyName::Char('K'), false, false, false, &mut out);
    assert_eq!(c.queue_selected, 1);
    let ids: Vec<_> = c.queue.items().iter().map(|x| x.video_id.as_str()).collect();
    assert_eq!(ids, ["a", "c", "b"]);
    c.on_key(KeyName::Char('x'), false, false, false, &mut out);
    assert_eq!(c.queue.len(), 2);
    c.on_key(KeyName::Enter, false, false, false, &mut out);
    assert_eq!(c.now_playing.as_ref().unwrap().video_id, "b");
}

#[test]
fn global_keys_and_overlays() {
    let mut c = Controller::new(false, false, &vec![("quit".into(), "x".into())], vec![]);
    let mut out = Vec::new();
    c.on_key(KeyName::Char('?'), false, false, false, &mut out);
    assert!(c.help_visible);
    c.on_key(KeyName::Char('x'), false, false, false, &mut out);
    assert!(!c.help_visible && !c.should_quit);
    c.on_key(KeyName::Char(' '), false, false, false, &mut out);
    assert!(matches!(out.last(), Some(Request::Player(PlayerRequest::TogglePause))));
    c.on_key(KeyName::Char('p'), false, false, true, &mut out);
    assert!(matches!(out.last(), Some(Request::Player(PlayerRequest::SeekToStart))));
    c.on_key(KeyName::Char('l'), false, false, false, &mut out);
    assert_eq!(c.nav.main_view, MainView::NowPlaying);
    c.on_key(KeyName::Esc, false, false, false, &mut out);
    assert_eq!(c.nav.main_view, MainView::Home);
    c.on_key(KeyName::Char('x'), false, false, false, &mut out);
    assert!(c.should_quit);
    let mut d = ctl();
    d.on_key(KeyName::Char('c'), true, false, false, &mut out);
    assert!(d.should_quit);
}

#[test]
fn library_menu_and_login_rows() {
    let mut c = ctl();
    let mut out = Vec::new();
    c.goto_view(MainView::Library);
    c.on_key(KeyName::Down, false, true, false, &mut out);
    c.on_key(KeyName::Enter, false, true, false, &mut out);
    assert!(c.library.loading);
    assert!(matches!(out.last(), Some(Request::Library(1))));
    c.on_api(
        ApiReply::LibraryAlbums { result: Ok(vec![AlbumSummary { id: "x".into(), title: "X".into(), artists: "A".into(), year: None }]) },
        &mut out,
    );
    assert!(!c.library.loading);
    assert!(matches!(c.browse_stack.last(), Some(BrowsePage::Albums { title, .. }) if title == "收藏的专辑"));
    c.on_api(ApiReply::LoginDone { result: Err("bad cookie\nsecond line".into()) }, &mut out);
    assert_eq!(status(&c), "登录失败: bad cookie");
    c.on_api(ApiReply::LogoutDone { result: Ok(()) }, &mut out);
    assert_eq!(status(&c), "已退出登录");
}

#[test]
fn mouse_scrolls_and_clicks() {
    let mut c = ctl();
    let mut out = Vec::new();
    c.play_context(vec![t("a"), t("b"), t("c")], 0, &mut out);
    c.on_scroll(ScrollTarget::Queue, 3, false);
    assert_eq!(c.queue_selected, 2);
    c.on_scroll(ScrollTarget::Lyrics, -3, false);
    assert_eq!(c.lyrics_scroll, 0);
    c.on_scroll(ScrollTarget::Lyrics, 3, false);
    assert_eq!(c.lyrics_scroll, 3);
    c.on_queue_click(1, true, &mut out);
    assert_eq!(c.nav.focus, Focus::Queue);
    assert_eq!(c.now_playing.as_ref().unwrap().video_id, "b");
    c.home.tracks = vec![t("h1"), t("h2")];
    c.on_main_click(MainListKind::Home, 0, false, false, &mut out);
    assert_eq!(c.home.selected, 0);
    c.on_main_click(MainListKind::Home, 2, false, false, &mut out);
    assert_eq!(c.home.selected, 1);
    assert_eq!(search_tab_at(0, 40), 0);
    assert_eq!(search_tab_at(25, 40), 2);
    assert_eq!(search_tab_at(80, 40), 3);
}

#[test]
fn status_messages_expire() {
    let mut c = ctl();
    c.toast("hi".into());
    for _ in 0..11 {
        c.tick();
    }
    assert_eq!(status(&c), "hi");
    c.tick();
    assert!(c.status.is_none());
}

#[test]
fn end_of_file_reasons() {
    assert!(matches!(end_file_note("eof", None), Some(PlayerNote::TrackEnded)));
    assert!(matches!(end_file_note("error", Some("403".into())), Some(PlayerNote::LoadFailed(e)) if e == "403"));
    assert!(matches!(end_file_note("error", None), Some(PlayerNote::LoadFailed(e)) if e == "unknown error"));
    assert!(end_file_note("stop", None).is_none());
}

#[test]
fn lyrics_page_scrolls_with_vim_keys_and_goes_back() {
    let mut c = ctl();
    let mut out = Vec::new();
    c.nav.main_view = MainView::NowPlaying;
    c.nav.prev_main_view = MainView::Search;
    c.on_key(KeyName::Char('j'), false, false, false, &mut out);
    c.on_key(KeyName::Char('j'), false, false, false, &mut out);
    assert_eq!(c.lyrics_scroll, 2);
    c.on_key(KeyName::Char('k'), false, false, false, &mut out);
    assert_eq!(c.lyrics_scroll, 1);
    c.on_key(KeyName::Esc, false, false, false, &mut out);
    assert_eq!(c.nav.main_view, MainView::Search);
    assert!(out.is_empty());
}

#[test]
fn search_tabs_wrap_around_and_fetch_when_empty() {
    let mut c = ctl();
    let mut out = Vec::new();
    c.nav.main_view = MainView::Search;
    c.search.query = "x".into();
    c.on_key(KeyName::Char('['), false, false, false, &mut out);
    assert_eq!(c.search.kind_idx, 3);
    assert!(c.search.loading);
    match out.last() {
        Some(Request::Search { seq, kind, query }) => {
            assert_eq!((*seq, *kind, query.as_str()), (0, SearchKind::Playlists, "x"));
        }
        other => panic!("unexpected {other:?}"),
    }
    c.on_key(KeyName::Char(']'), false, false, false, &mut out);
    assert_eq!(c.search.kind_idx, 0);
}

#[test]
fn moving_the_top_queue_row_up_does_nothing() {
    let mut c = ctl();
    let mut out = Vec::new();
    c.queue.append(t("a"));
    c.queue.append(t("b"));
    c.nav.focus = Focus::Queue;
    c.queue_selected = 0;
    c.on_key(KeyName::Char('K'), false, false, false, &mut out);
    assert_eq!(c.queue_selected, 0);
    assert_eq!(c.queue.items()[0].video_id, "a");
    c.on_key(KeyName::Char('J'), false, false, false, &mut out);
    assert_eq!(c.queue_selected, 1);
    assert_eq!(c.queue.items()[1].video_id, "a");
    assert!(out.is_empty());
}

#[test]
fn lyrics_key_twice_comes_back() {
    let mut c = ctl();
    let mut out = Vec::new();
    c.nav.main_view = MainView::Library;
    c.on_key(KeyName::Char('l'), false, false, false, &mut out);
    assert_eq!(c.nav.main_view, MainView::NowPlaying);
    c.on_key(KeyName::Char('l'), false, false, false, &mut out);
    assert_eq!(c.nav.main_view, MainView::Library);
    assert!(out.is_empty());
}

#[test]
fn backspace_undoes_a_typed_character() {
    let mut c = ctl();
    let mut out = Vec::new();
    c.input = Some((InputMode::Login, "ab".into()));
    c.on_key(KeyName::Char('z'), false, false, false, &mut out);
    c.on_key(KeyName::Backspace, false, false, false, &mut out);
    assert!(matches!(&c.input, Some((InputMode::Login, t)) if t == "ab"));
    assert!(out.is_empty());
}

#[test]
fn esc_closes_the_page_just_opened() {
    let mut c = ctl();
    let mut out = Vec::new();
    c.open_album("al1".into(), "Album".into(), &mut out);
    assert_eq!(c.browse_stack.len(), 1);
    assert_eq!(c.nav.main_view, MainView::Browse);
    let sent = out.len();
    c.on_key(KeyName::Esc, false, false, false, &mut out);
    assert!(c.browse_stack.is_empty());
    assert_eq!(c.nav.main_view, MainView::Home);
    assert_eq!(out.len(), sent);
}

fn hit_map() -> HitMap {
    HitMap {
        nav_tabs: vec![
            (Area { x: 0, y: 0, width: 8, height: 1 }, MainView::Home),
            (Area { x: 8, y: 0, width: 6, height: 1 }, MainView::Search),
        ],
        gauge: Some(Area { x: 40, y: 20, width: 20, height: 1 }),
        search_tabs: Some(Area { x: 1, y: 3, width: 40, height: 1 }),
        queue_list: Some((Area { x: 50, y: 2, width: 30, height: 10 }, 5)),
        queue_pane: Some(Area { x: 49, y: 1, width: 32, height: 12 }),
        main_list: Some((MainListKind::Search, Area { x: 1, y: 4, width: 40, height: 10 }, 2)),
    }
}

#[test]
fn clicks_land_on_the_right_target() {
    let h = hit_map();
    assert_eq!(click_target(&h, 9, 0, true, true), ClickTarget::NavTab(MainView::Search));
    assert_eq!(click_target(&h, 45, 20, true, true), ClickTarget::Seek { offset: 5, width: 20 });
    assert_eq!(click_target(&h, 45, 20, false, true), ClickTarget::Nothing);
    assert_eq!(click_target(&h, 21, 3, true, true), ClickTarget::SearchTab(2));
    assert_eq!(click_target(&h, 21, 3, true, false), ClickTarget::Nothing);
    assert_eq!(click_target(&h, 55, 4, true, true), ClickTarget::QueueRow(7));
    assert_eq!(click_target(&h, 49, 1, true, true), ClickTarget::QueuePane);
    assert_eq!(click_target(&h, 10, 6, true, true), ClickTarget::MainRow(MainListKind::Search, 4));
    assert_eq!(click_target(&h, 100, 30, true, true), ClickTarget::Nothing);
}

#[test]
fn the_wheel_turns_the_list_under_it() {
    let mut h = hit_map();
    assert_eq!(scroll_target(&h, 55, 4, false), Some(ScrollTarget::Queue));
    assert_eq!(scroll_target(&h, 10, 6, false), Some(ScrollTarget::Main(MainListKind::Search)));
    assert_eq!(scroll_target(&h, 10, 19, true), None);
    h.main_list = None;
    assert_eq!(scroll_target(&h, 10, 19, true), Some(ScrollTarget::Lyrics));
    assert_eq!(scroll_target(&h, 10, 19, false), None);
}

#[test]
fn a_click_on_a_nav_tab_goes_there() {
    let mut c = ctl();
    let mut out = Vec::new();
    c.nav.focus = Focus::Queue;
    c.on_click(ClickTarget::NavTab(MainView::Library), false, false, &mut out);
    assert_eq!(c.nav.main_view, MainView::Library);
    assert_eq!(c.nav.focus, Focus::Main);
    c.on_click(ClickTarget::QueuePane, false, false, &mut out);
    assert_eq!(c.nav.focus, Focus::Queue);
    assert!(out.is_empty());
}

#[test]
fn pasted_text_goes_to_the_line_being_typed() {
    let mut c = ctl();
    c.on_paste("dropped");
    assert!(c.input.is_none());
    c.input = Some((InputMode::Login, "a=1".into()));
    c.on_paste("; b=2\nc=3");
    assert!(matches!(&c.input, Some((InputMode::Login, t)) if t == "a=1; b=2\nc=3"));
}

#[test]
fn a_press_closes_the_help_and_the_wheel_does_not() {
    let mut c = ctl();
    assert!(!c.help_takes_mouse(true));
    c.help_visible = true;
    assert!(c.help_takes_mouse(false));
    assert!(c.help_visible);
    assert!(c.help_takes_mouse(true));
    assert!(!c.help_visible);
}

#[test]
fn double_click_needs_same_cell_within_400_ms() {
    assert!(is_double_click(Some((3, 4)), 400, 3, 4));
    assert!(!is_double_click(Some((3, 4)), 401, 3, 4));
    assert!(!is_double_click(Some((3, 5)), 10, 3, 4));
    assert!(!is_double_click(None, 0, 3, 4));
}
