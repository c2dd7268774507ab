use ytbm_tui::history::{HistoryEntry, PlaybackHistory, MAX_ENTRIES};
use ytbm_tui::models::Track;

fn track(id: &str) -> Track {
    Track {
        video_id: id.into(),
        title: id.into(),
        artists: "artist".into(),
        album: None,
        duration_secs: None,
        cover_url: None,
    }
}

#[test]
fn record_moves_duplicates_to_front() {
    let mut history = PlaybackHistory::default();
    history.record(track("a"));
    history.record(track("b"));
    history.record(track("a"));
    assert_eq!(history.entries().len(), 2);
    assert_eq!(history.entries()[0].track.video_id, "a");
}

#[test]
fn record_at_keeps_order_of_the_others_and_the_time() {
    let mut history = PlaybackHistory::default();
    history.record_at(track("a"), 10);
    history.record_at(track("b"), 20);
    history.record_at(track("c"), 30);
    history.record_at(track("b"), 40);
    let ids: Vec<_> = history.entries().iter().map(|e| e.track.video_id.as_str()).collect();
    assert_eq!(ids, ["b", "c", "a"]);
    let times: Vec<_> = history.entries().iter().map(|e| e.played_at).collect();
    assert_eq!(times, [40, 30, 10]);
}

#[test]
fn history_is_capped() {
    let mut history = PlaybackHistory::default();
    for i in 0..(MAX_ENTRIES + 5) {
        history.record_at(track(&format!("t{i}")), i as u64);
    }
    assert_eq!(history.entries().len(), MAX_ENTRIES);
    assert_eq!(history.entries()[0].track.video_id, format!("t{}", MAX_ENTRIES + 4));
    assert_eq!(history.entries()[MAX_ENTRIES - 1].track.video_id, "t5");
}

#[test]
fn loaded_entries_are_kept_as_they_are() {
    let history = PlaybackHistory::from_entries(vec![
        HistoryEntry { track: track("x"), played_at: 5 },
        HistoryEntry { track: track("y"), played_at: 3 },
    ]);
    assert_eq!(history.entries().len(), 2);
    assert_eq!(history.entries()[1].track.video_id, "y");
}

#[test]
fn clock_reads_after_the_epoch() {
    assert!(ytbm_tui::history::unix_seconds() > 1_600_000_000);
}
