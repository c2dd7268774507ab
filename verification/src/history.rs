//! Local playback history: most recent first, one entry per track, capped.

use vstd::prelude::*;

use std::time::{SystemTime, UNIX_EPOCH};

use crate::models::Track;

verus! {

/// How many entries the history keeps.
pub const MAX_ENTRIES: usize = 100;

#[derive(Debug)]
pub struct HistoryEntry {
    pub track: Track,
    pub played_at: u64,
}

#[derive(Debug)]
pub struct PlaybackHistory {
    entries: Vec<HistoryEntry>,
}

#[verifier::external_type_specification]
#[verifier::external_body]
pub struct ExSystemTime(SystemTime);

/// `SystemTime::now`: the current wall-clock time. Nothing is claimed of it.
#[verifier::external_body]
fn system_now() -> SystemTime {
    SystemTime::now()
}

/// `SystemTime::duration_since(UNIX_EPOCH)` in whole seconds, 0 for a time
/// before the epoch. Nothing is claimed of the value.
#[verifier::external_body]
fn seconds_since_epoch(t: &SystemTime) -> u64 {
    t.duration_since(UNIX_EPOCH).unwrap_or_default().as_secs()
}

/// Seconds since the Unix epoch, now (0 if the clock is before it).
pub fn unix_seconds() -> u64 {
    let now = system_now();
    seconds_since_epoch(&now)
}

/// `es` without the entries for video id `id`, order kept.
pub open spec fn without_id(es: Seq<HistoryEntry>, id: Seq<char>) -> Seq<HistoryEntry>
    decreases es.len(),
{
    if es.len() == 0 {
        Seq::empty()
    } else {
        let prev = without_id(es.drop_last(), id);
        if es.last().track.video_id@ == id {
            prev
        } else {
            prev.push(es.last())
        }
    }
}

/// The history after playing `track` at time `at`: its entry first, any
/// older entry for the same video dropped, at most [`MAX_ENTRIES`] kept.
pub open spec fn recorded(es: Seq<HistoryEntry>, track: Track, at: u64) -> Seq<HistoryEntry> {
    let all = seq![HistoryEntry { track, played_at: at }] + without_id(es, track.video_id@);
    if all.len() > MAX_ENTRIES {
        all.take(MAX_ENTRIES as int)
    } else {
        all
    }
}

/// No two entries are for the same video.
pub open spec fn distinct_videos(es: Seq<HistoryEntry>) -> bool {
    forall|a: int, b: int|
        0 <= a < b < es.len() ==> #[trigger] es[a].track.video_id@ != #[trigger] es[b].track.video_id@
}

impl Default for PlaybackHistory {
    fn default() -> (r: Self)
        ensures
            r@.len() == 0,
    {
        PlaybackHistory { entries: Vec::new() }
    }
}

impl View for PlaybackHistory {
    type V = Seq<HistoryEntry>;

    closed spec fn view(&self) -> Seq<HistoryEntry> {
        self.entries@
    }
}

impl PlaybackHistory {
    /// A history holding `entries` as they are (e.g. loaded from disk).
    pub fn from_entries(entries: Vec<HistoryEntry>) -> (r: Self)
        ensures
            r@ == entries@,
    {
        PlaybackHistory { entries }
    }

    /// Record that `track` was played now.
    pub fn record(&mut self, track: Track)
        ensures
            exists|at: u64| final(self)@ == recorded(old(self)@, track, at),
    {
        let at = unix_seconds();
        self.record_at(track, at);
    }

    pub fn entries(&self) -> (r: &[HistoryEntry])
        ensures
            r@ == self@,
    {
        self.entries.as_slice()
    }

    /// Record that `track` was played at `played_at` (seconds since epoch).
    pub fn record_at(&mut self, track: Track, played_at: u64)
        ensures
            final(self)@ == recorded(old(self)@, track, played_at),
    {
        let ghost old_es = self.entries@;
        let ghost id = track.video_id@;
        let mut kept: Vec<HistoryEntry> = Vec::new();
        let mut rest: Vec<HistoryEntry> = Vec::new();
        std::mem::swap(&mut rest, &mut self.entries);
        let ghost mut k: int = 0;
        proof { assert(old_es.skip(0) =~= old_es); }
        // keep every entry for another video, in order
        while rest.len() > 0
            invariant
                0 <= k <= old_es.len(),
                rest@ == old_es.skip(k),
                kept@ == without_id(old_es.take(k), id),
                id == track.video_id@,
            decreases rest@.len(),
        {
            let e = rest.remove(0);
            proof {
                assert(e == old_es[k]);
                assert(old_es.take(k + 1).drop_last() =~= old_es.take(k));
                assert(old_es.take(k + 1).last() == old_es[k]);
            }
            if e.track.video_id != track.video_id {
                kept.push(e);
            }
            proof {
                assert(rest@ =~= old_es.skip(k + 1));
                k = k + 1;
            }
        }
        proof {
            assert(old_es.take(k) =~= old_es);
        }
        kept.insert(0, HistoryEntry { track, played_at });
        if kept.len() > MAX_ENTRIES {
            kept.truncate(MAX_ENTRIES);
        }
        self.entries = kept;
    }
}


/// `e` is one of the entries of `es`.
spec fn holds_entry(es: Seq<HistoryEntry>, e: HistoryEntry) -> bool {
    exists|j: int| 0 <= j < es.len() && es[j] == e
}

/// Every entry kept by `without_id` is an entry of `es` for another video.
proof fn lemma_without_id(es: Seq<HistoryEntry>, id: Seq<char>)
    ensures
        forall|k: int| #![trigger without_id(es, id)[k]]
            0 <= k < without_id(es, id).len() ==> without_id(es, id)[k].track.video_id@ != id
                && holds_entry(es, without_id(es, id)[k]),
        without_id(es, id).len() <= es.len(),
        distinct_videos(es) ==> distinct_videos(without_id(es, id)),
    decreases es.len(),
{
    if es.len() > 0 {
        let pre = es.drop_last();
        lemma_without_id(pre, id);
        let w = without_id(es, id);
        let wp = without_id(pre, id);
        assert forall|k: int| 0 <= k < w.len() implies w[k].track.video_id@ != id
            && holds_entry(es, w[k]) by {
            if k < wp.len() {
                assert(w[k] == wp[k]);
                assert(holds_entry(pre, wp[k]));
                let j = choose|j: int| 0 <= j < pre.len() && pre[j] == wp[k];
                assert(es[j] == w[k]);
            } else {
                assert(es[es.len() - 1] == w[k]);
            }
        }
        if distinct_videos(es) && es.last().track.video_id@ != id {
            assert forall|a: int, b: int| 0 <= a < b < w.len() implies
                #[trigger] w[a].track.video_id@ != #[trigger] w[b].track.video_id@ by {
                if b == wp.len() {
                    assert(w[a] == wp[a]);
                    assert(holds_entry(pre, wp[a]));
                    let j = choose|j: int| 0 <= j < pre.len() && pre[j] == wp[a];
                    assert(es[j] == w[a]);
                    assert(es[j].track.video_id@ != es[es.len() - 1].track.video_id@);
                } else {
                    assert(w[a] == wp[a] && w[b] == wp[b]);
                }
            }
        }
    }
}

/// Recording a play puts that track first, keeps exactly one entry per
/// video and never lets the history grow past [`MAX_ENTRIES`].
pub proof fn law_record_keeps_one_entry_per_video(es: Seq<HistoryEntry>, track: Track, at: u64)
    requires
        distinct_videos(es),
    ensures
        ({
            let r = recorded(es, track, at);
            &&& r.len() >= 1
            &&& r[0].track == track
            &&& r[0].played_at == at
            &&& r.len() <= MAX_ENTRIES
            &&& r.len() <= es.len() + 1
            &&& distinct_videos(r)
            &&& forall|k: int| 1 <= k < r.len() ==> (#[trigger] r[k]).track.video_id@ != track.video_id@
        }),
{
    let id = track.video_id@;
    lemma_without_id(es, id);
    let w = without_id(es, id);
    let all = seq![HistoryEntry { track, played_at: at }] + w;
    assert forall|a: int, b: int| 0 <= a < b < all.len() implies
        #[trigger] all[a].track.video_id@ != #[trigger] all[b].track.video_id@ by {
        if a == 0 {
            assert(all[b] == w[b - 1]);
        } else {
            assert(all[a] == w[a - 1] && all[b] == w[b - 1]);
        }
    }
    assert forall|k: int| 1 <= k < all.len() implies (#[trigger] all[k]).track.video_id@ != id by {
        assert(all[k] == w[k - 1]);
    }
}

} // verus!
