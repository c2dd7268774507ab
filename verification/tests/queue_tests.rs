use ytbm_tui::models::Track;
use ytbm_tui::queue::{Advance, Queue, RepeatMode};

fn t(id: &str) -> Track {
    Track {
        video_id: id.into(),
        title: format!("song {id}"),
        artists: "artist".into(),
        album: None,
        duration_secs: Some(200),
        cover_url: None,
    }
}

#[test]
fn play_next_keeps_cursor() {
    let mut q = Queue::default();
    q.append(t("a"));
    q.jump_to(0);
    q.play_next(t("b"));
    q.play_next(t("c"));
    let order: Vec<_> = q.items().iter().map(|x| x.video_id.as_str()).collect();
    assert_eq!(order, ["a", "c", "b"]);
    assert_eq!(q.current_index(), Some(0));
}

#[test]
fn advance_repeat_modes() {
    let mut q = Queue::default();
    q.append(t("a"));
    q.append(t("b"));
    q.jump_to(1);

    q.repeat = RepeatMode::Off;
    assert_eq!(q.advance_on_end(), Advance::Stop);

    q.repeat = RepeatMode::All;
    assert_eq!(q.advance_on_end(), Advance::Play(0));

    q.repeat = RepeatMode::One;
    assert_eq!(q.advance_on_end(), Advance::Play(0));
}

#[test]
fn manual_next_skips_repeat_one() {
    let mut q = Queue::default();
    q.append(t("a"));
    q.append(t("b"));
    q.jump_to(0);
    q.repeat = RepeatMode::One;
    assert_eq!(q.next_manual(), Advance::Play(1));
}

#[test]
fn remove_adjusts_cursor_and_protects_current() {
    let mut q = Queue::default();
    q.append(t("a"));
    q.append(t("b"));
    q.append(t("c"));
    q.jump_to(1);
    assert!(!q.remove(1), "removing current must be refused");
    assert!(q.remove(0));
    assert_eq!(q.current_index(), Some(0));
    assert_eq!(q.current_track().unwrap().video_id, "b");
}

#[test]
fn swap_moves_cursor_with_items() {
    let mut q = Queue::default();
    q.append(t("a"));
    q.append(t("b"));
    q.jump_to(0);
    q.swap(0, false);
    assert_eq!(q.current_index(), Some(1));
    assert_eq!(q.current_track().unwrap().video_id, "a");
}

#[test]
fn append_unique_dedupes() {
    let mut q = Queue::default();
    q.append(t("a"));
    q.append(t("b"));
    let added = q.append_unique(vec![t("b"), t("c"), t("c"), t("d")]);
    assert_eq!(added, 2);
    assert_eq!(q.len(), 4);
}

#[test]
fn set_context_queues_whole_list_and_plays_in_order() {
    let mut q = Queue::default();
    q.append(t("old"));
    q.jump_to(0);

    let list = vec![t("a"), t("b"), t("c"), t("d")];
    assert_eq!(q.set_context(list, 1), Some(1));
    assert_eq!(q.current_track().unwrap().video_id, "b");
    // The previous one-off queue is replaced by the new context.
    assert_eq!(q.len(), 4);
    // Playing on continues down the list rather than running dry.
    assert_eq!(q.advance_on_end(), Advance::Play(2));
    assert_eq!(q.current_track().unwrap().video_id, "c");
    assert_eq!(q.upcoming_count(), 1);
    // Previous walks back up the same list.
    assert_eq!(q.prev_manual(), Advance::Play(1));
}

#[test]
fn set_context_rejects_bad_input() {
    let mut q = Queue::default();
    assert_eq!(q.set_context(vec![], 0), None);
    assert_eq!(q.set_context(vec![t("a")], 5), None);
    assert!(q.is_empty(), "a rejected context must not touch the queue");
}

#[test]
fn upcoming_count_counts_after_current() {
    let mut q = Queue::default();
    q.append(t("a"));
    q.append(t("b"));
    q.append(t("c"));
    q.jump_to(0);
    assert_eq!(q.upcoming_count(), 2);
    q.jump_to(2);
    assert_eq!(q.upcoming_count(), 0);
}

#[test]
fn shuffle_preserves_history_and_current() {
    let mut q = Queue::default();
    for id in ["a", "b", "c", "d", "e"] {
        q.append(t(id));
    }
    q.jump_to(1);
    q.shuffle_upcoming();
    assert_eq!(q.items()[0].video_id, "a");
    assert_eq!(q.items()[1].video_id, "b");
    assert_eq!(q.current_track().unwrap().video_id, "b");
    let mut rest: Vec<_> = q.items()[2..].iter().map(|x| x.video_id.clone()).collect();
    rest.sort();
    assert_eq!(rest, ["c", "d", "e"]);
}

/// Guards the cover-aspect maths: rows = cols * font_width / font_height,
/// rounded.
#[test]
fn cover_rows_math_keeps_the_block_square_in_pixels() {
    fn rows(cols: u32, fw: u32, fh: u32) -> u32 {
        ytbm_tui::ui::cover_rows(cols as u16, Some((fw as u16, fh as u16))) as u32
    }
    // Classic 1:2 cell.
    assert_eq!(rows(34, 10, 20), 17);
    assert_eq!(rows(34, 8, 16), 17);
    // Taller cells need fewer rows, or the art would be stretched.
    assert_eq!(rows(34, 9, 21), 15);
    assert_eq!(rows(20, 7, 15), 9);
    // The resulting block is square within one cell of tolerance.
    for (fw, fh) in [(10, 20), (8, 16), (9, 21), (7, 15), (6, 13)] {
        let cols = 34;
        let r = rows(cols, fw, fh);
        let (px_w, px_h) = (cols * fw, r * fh);
        let err = (px_w as i64 - px_h as i64).abs();
        assert!(
            err <= fh as i64,
            "font {fw}x{fh}: {px_w}x{px_h} is not square (off by {err}px)"
        );
    }
}

#[test]
fn cover_rows_without_font_size_assumes_one_by_two_cells() {
    assert_eq!(ytbm_tui::ui::cover_rows(34, None), 17);
    assert_eq!(ytbm_tui::ui::cover_rows(0, None), 1);
}

#[test]
fn previous_undoes_next_with_repeat_all() {
    let mut q = Queue::new();
    q.set_context(vec![t("a"), t("b"), t("c")], 2);
    q.set_repeat(RepeatMode::All);
    assert_eq!(q.next_manual(), Advance::Play(0));
    assert_eq!(q.prev_manual(), Advance::Play(2));
    assert_eq!(q.current_index(), Some(2));
    q.jump_to(0);
    q.next_manual();
    q.prev_manual();
    assert_eq!(q.current_index(), Some(0));
}

#[test]
fn repeat_all_goes_round_the_queue() {
    let mut q = Queue::new();
    q.set_context(vec![t("a"), t("b"), t("c")], 1);
    q.set_repeat(RepeatMode::All);
    let mut seen = Vec::new();
    for _ in 0..3 {
        match q.advance_on_end() {
            Advance::Play(i) => seen.push(i),
            Advance::Stop => panic!("repeat-all never stops"),
        }
    }
    assert_eq!(seen, vec![2, 0, 1]);
    assert_eq!(q.current_index(), Some(1));
}

#[test]
fn known_ids_lists_each_id_once() {
    let mut q = Queue::default();
    for id in ["a", "b", "a", "c", "b"] {
        q.append(t(id));
    }
    assert_eq!(q.known_ids(), vec!["a".to_string(), "b".to_string(), "c".to_string()]);
    assert!(Queue::default().known_ids().is_empty());
}
