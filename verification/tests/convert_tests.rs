use ytbm_tui::text::trim;
use ytbm_tui::convert::{
    album_detail, chart_tracks, conv_album, conv_artist, conv_playlist, conv_track, home_content,
    join_artists, login_header, login_input, pick_cover, upscale_cover_url, AlbumItem, ArtistItem,
    next_history_page, HomeError, LoginError, PlaylistItem, Thumbnail, TrackItem, LIBRARY_LIMIT,
};
use ytbm_tui::models::{format_duration, SearchKind};

#[test]
fn upscales_google_image_size_hints() {
    assert_eq!(
        upscale_cover_url("https://lh3.googleusercontent.com/abc=w120-h120-l90-rj", 544),
        "https://lh3.googleusercontent.com/abc=w544-h544-l90-rj"
    );
    assert_eq!(
        upscale_cover_url("https://yt3.googleusercontent.com/x=s88-c-k-c0x00ffffff", 544),
        "https://yt3.googleusercontent.com/x=s544-c-k-c0x00ffffff"
    );
}

#[test]
fn leaves_urls_without_size_hints_alone() {
    let fixed = "https://i.ytimg.com/vi/abc/maxresdefault.jpg";
    assert_eq!(upscale_cover_url(fixed, 544), fixed);
    // A query string must not be mistaken for a size group.
    let query = "https://example.com/img.jpg?v=2";
    assert_eq!(upscale_cover_url(query, 544), query);
}

fn item(id: &str, artists: &[&str]) -> TrackItem {
    TrackItem {
        id: id.into(),
        name: format!("song {id}"),
        artists: artists.iter().map(|a| a.to_string()).collect(),
        album: None,
        duration: Some(269),
        cover: vec![
            Thumbnail { url: "https://x/a=w60-h60".into(), width: 60 },
            Thumbnail { url: "https://x/a=w120-h120".into(), width: 120 },
        ],
    }
}

#[test]
fn artists_are_joined_with_slashes() {
    assert_eq!(join_artists(&vec!["A".into(), "B".into()]), "A / B");
    assert_eq!(join_artists(&vec!["周杰伦".into()]), "周杰伦");
    assert_eq!(join_artists(&vec![]), "未知歌手");
}

#[test]
fn the_widest_cover_is_picked_and_upscaled() {
    let covers = item("a", &["A"]).cover;
    assert_eq!(pick_cover(&covers).as_deref(), Some("https://x/a=w544-h544"));
    assert_eq!(pick_cover(&vec![]), None);
}

#[test]
fn tracks_keep_their_fields() {
    let t = conv_track(item("v1", &["A", "B"]));
    assert_eq!(t.video_id, "v1");
    assert_eq!(t.title, "song v1");
    assert_eq!(t.artists, "A / B");
    assert_eq!(t.duration_secs, Some(269));
    assert_eq!(t.cover_url.as_deref(), Some("https://x/a=w544-h544"));
}

#[test]
fn summaries_keep_their_fields() {
    let a = conv_album(AlbumItem { id: "al".into(), name: "Album".into(), artists: vec!["X".into()], year: Some(2003) });
    assert_eq!((a.id.as_str(), a.title.as_str(), a.artists.as_str(), a.year), ("al", "Album", "X", Some(2003)));
    let r = conv_artist(ArtistItem { id: "ar".into(), name: "Artist".into() });
    assert_eq!((r.id.as_str(), r.name.as_str()), ("ar", "Artist"));
    let p = conv_playlist(PlaylistItem { id: "pl".into(), name: "List".into(), track_count: Some(12) });
    assert_eq!((p.id.as_str(), p.title.as_str(), p.track_count), ("pl", "List", Some(12)));
}

#[test]
fn album_pages_fill_in_album_and_artists() {
    let d = album_detail("Album".into(), vec!["X".into()], Some(2001), vec![item("a", &[]), item("b", &["Y"])]);
    assert_eq!(d.title, "Album");
    assert_eq!(d.artists, "X");
    assert_eq!(d.tracks.len(), 2);
    assert_eq!(d.tracks[0].album.as_deref(), Some("Album"));
    assert_eq!(d.tracks[0].artists, "X");
    assert_eq!(d.tracks[1].artists, "Y");
}

#[test]
fn charts_fall_back_to_trending() {
    let v = chart_tracks(vec![item("a", &["A"])], vec![item("b", &["B"])]);
    let ids: Vec<_> = v.iter().map(|t| t.video_id.as_str()).collect();
    assert_eq!(ids, ["a"]);
    let v = chart_tracks(vec![], vec![item("b", &["B"])]);
    let ids: Vec<_> = v.iter().map(|t| t.video_id.as_str()).collect();
    assert_eq!(ids, ["b"]);
}

#[test]
fn home_needs_at_least_one_list() {
    assert!(matches!(home_content(None, None), Err(HomeError::NothingLoaded)));
    assert_eq!(HomeError::NothingLoaded.message(), "获取推荐内容失败（网络不可达？）");
    let (t, a) = home_content(Some(vec![conv_track(item("a", &["A"]))]), None).unwrap();
    assert_eq!((t.len(), a.len()), (1, 0));
}

#[test]
fn login_input_is_trimmed_and_must_not_be_empty() {
    assert_eq!(login_input("  SAPISID=x  ").unwrap(), "SAPISID=x");
    assert_eq!(login_input(" \n ").unwrap_err(), LoginError::EmptyInput);
    assert_eq!(LoginError::EmptyInput.message(), "输入为空");
}

#[test]
fn login_header_needs_the_signing_credential() {
    assert_eq!(login_header("SID=a; SAPISID=b").unwrap(), "SID=a; SAPISID=b");
    assert_eq!(login_header("SID=a").unwrap_err(), LoginError::NoCredential);
}

#[test]
fn durations_read_minutes_and_seconds() {
    assert_eq!(format_duration(269), "4:29");
    assert_eq!(format_duration(5), "0:05");
    assert_eq!(format_duration(3600), "60:00");
}

#[test]
fn search_kinds_have_labels_in_tab_order() {
    let labels: Vec<_> = SearchKind::all().iter().map(|k| k.label()).collect();
    assert_eq!(labels, ["歌曲", "专辑", "歌手", "歌单"]);
    assert_eq!(SearchKind::at(2), SearchKind::Artists);
}

#[test]
fn history_pages_are_followed_up_to_the_library_limit() {
    let tok = || Some("ct".to_string());
    assert_eq!(next_history_page(0, tok(), false), tok());
    assert_eq!(next_history_page(LIBRARY_LIMIT - 1, tok(), false), tok());
    assert_eq!(next_history_page(LIBRARY_LIMIT, tok(), false), None);
    assert_eq!(next_history_page(10, None, false), None);
    assert_eq!(next_history_page(10, tok(), true), None);
}

#[test]
fn upscaling_twice_is_upscaling_once() {
    for url in [
        "https://lh3.googleusercontent.com/abc=w120-h120-l90-rj",
        "https://yt3.googleusercontent.com/x=s88-c-k-c0x00ffffff",
        "https://i.ytimg.com/vi/abc/hqdefault.jpg",
        "https://example.com/a=b=w60-h60",
        "https://example.com/a=",
    ] {
        let once = upscale_cover_url(url, 544);
        assert_eq!(upscale_cover_url(&once, 544), once);
        if let Some(e) = url.rfind('=') {
            assert_eq!(&once[..=e], &url[..=e]);
        } else {
            assert_eq!(once, url);
        }
    }
    assert_eq!(upscale_cover_url("https://example.com/a=b=w60-h60", 544), "https://example.com/a=b=w544-h544");
}

#[test]
fn unicode_white_space_is_trimmed() {
    let s: Vec<char> = "\u{3000}\t SID=1\u{A0}\u{2009}\n".chars().collect();
    assert_eq!(trim(&s).into_iter().collect::<String>(), "SID=1");
    // Zero-width space is not white space.
    let z: Vec<char> = "\u{200B}x".chars().collect();
    assert_eq!(trim(&z).into_iter().collect::<String>(), "\u{200B}x");
}
