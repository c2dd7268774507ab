//! Play queue state machine. Pure data structure - no I/O - so the
//! repeat/radio/reorder rules are stated and proved here.
//!
//! Model: one sequence of tracks plus a `current` cursor. Items before
//! `current` are history (kept visible), items after are upcoming.

use vstd::prelude::*;

use crate::models::Track;
use rand::seq::SliceRandom;

verus! {

#[derive(Debug, Clone, Copy, PartialEq, Eq, Structural)]
pub enum RepeatMode {
    Off,
    All,
    One,
}

impl Default for RepeatMode {
    fn default() -> (r: Self)
        ensures
            r == RepeatMode::Off,
    {
        RepeatMode::Off
    }
}

/// The mode that follows `m` in the Off -> All -> One -> Off cycle.
pub open spec fn next_mode(m: RepeatMode) -> RepeatMode {
    match m {
        RepeatMode::Off => RepeatMode::All,
        RepeatMode::All => RepeatMode::One,
        RepeatMode::One => RepeatMode::Off,
    }
}

impl RepeatMode {
    pub fn cycle(self) -> (r: Self)
        ensures
            r == next_mode(self),
    {
        match self {
            RepeatMode::Off => RepeatMode::All,
            RepeatMode::All => RepeatMode::One,
            RepeatMode::One => RepeatMode::Off,
        }
    }

    pub fn label(self) -> (r: &'static str)
        ensures
            self == RepeatMode::Off ==> r@ == "关"@,
            self == RepeatMode::All ==> r@ == "全部循环"@,
            self == RepeatMode::One ==> r@ == "单曲循环"@,
    {
        match self {
            RepeatMode::Off => "关",
            RepeatMode::All => "全部循环",
            RepeatMode::One => "单曲循环",
        }
    }
}

/// Cycling the repeat mode three times gives back the mode it started from.
pub proof fn law_repeat_cycle_period_three(m: RepeatMode)
    ensures
        next_mode(next_mode(next_mode(m))) == m,
        next_mode(m) != m,
{
}

/// With repeat-all (or away from the last track), a manual "previous"
/// undoes a manual "next": the cursor is back on the track it was on.
pub proof fn law_prev_undoes_next(m: QueueModel, c: usize)
    requires
        m.current == Some(c),
        c < m.items.len() <= usize::MAX,
        c + 1 < m.items.len() || m.repeat == RepeatMode::All,
    ensures
        on_prev(QueueModel { current: on_next(m).0, ..m }).0 == Some(c),
{
}

/// With repeat-one, a track that ends naturally is played again, wherever
/// it stands in the queue (the last track included); the cursor stays.
pub proof fn law_repeat_one_replays_the_track(m: QueueModel, c: usize)
    requires
        m.repeat == RepeatMode::One,
        m.current == Some(c),
    ensures
        on_end(m) == (Some(c), Advance::Play(c)),
{
}

/// At the last track, a natural end or a manual "next" wraps round to the
/// first track only under repeat-all. A manual "next" otherwise stops and
/// leaves the cursor; so does a natural end with repeat off.
pub proof fn law_last_track_wraps_only_with_repeat_all(m: QueueModel, c: usize)
    requires
        m.current == Some(c),
        c + 1 == m.items.len(),
    ensures
        m.repeat == RepeatMode::All ==> on_next(m) == (Some(0usize), Advance::Play(0)) && on_end(m) == (
            Some(0usize),
            Advance::Play(0),
        ),
        m.repeat != RepeatMode::All ==> on_next(m) == (Some(c), Advance::Stop),
        m.repeat == RepeatMode::Off ==> on_end(m) == (Some(c), Advance::Stop),
{
}

/// Away from the last track, a manual "next" and (unless repeat-one) a
/// natural end move the cursor to the following track and play it.
pub proof fn law_next_moves_one_track_on(m: QueueModel, c: usize)
    requires
        m.current == Some(c),
        c + 1 < m.items.len(),
    ensures
        on_next(m) == (Some((c + 1) as usize), Advance::Play((c + 1) as usize)),
        m.repeat != RepeatMode::One ==> on_end(m) == (Some((c + 1) as usize), Advance::Play((c + 1) as usize)),
{
}

/// The queue after `k` tracks in a row ended naturally.
pub open spec fn ended(m: QueueModel, k: nat) -> QueueModel
    decreases k,
{
    if k == 0 {
        m
    } else {
        ended(QueueModel { current: on_end(m).0, ..m }, (k - 1) as nat)
    }
}

/// With repeat-all, natural ends walk the queue round: after `k` of them
/// the cursor is `k` tracks further on, counted modulo the queue's length.
pub proof fn law_repeat_all_steps(m: QueueModel, c: usize, k: nat)
    requires
        m.repeat == RepeatMode::All,
        m.current == Some(c),
        c < m.items.len() <= usize::MAX,
    ensures
        ended(m, k).current == Some(((c + k) % (m.items.len() as int)) as usize),
    decreases k,
{
    let n = m.items.len() as int;
    if k == 0 {
        vstd::arithmetic::div_mod::lemma_small_mod(c as nat, n as nat);
    } else {
        let next = QueueModel { current: on_end(m).0, ..m };
        let c1: usize = if c + 1 < n { (c + 1) as usize } else { 0 };
        assert(next.current == Some(c1));
        law_repeat_all_steps(next, c1, (k - 1) as nat);
        let b: int = k - 1;
        if c + 1 >= n {
            assert(c1 == 0);
            vstd::arithmetic::div_mod::lemma_mod_add_multiples_vanish(b, n);
            assert((n + b) % n == b % n);
            assert(c + k == n + b);
            assert((c1 + b) % n == (c + k) % n);
        } else {
            assert(c1 + b == c + k);
        }
    }
}

/// With repeat-all, after as many natural ends as there are tracks the
/// cursor is back on the track it started from.
pub proof fn law_repeat_all_goes_round(m: QueueModel, c: usize)
    requires
        m.repeat == RepeatMode::All,
        m.current == Some(c),
        c < m.items.len() <= usize::MAX,
    ensures
        ended(m, m.items.len()).current == Some(c),
{
    let n = m.items.len() as int;
    law_repeat_all_steps(m, c, m.items.len());
    vstd::arithmetic::div_mod::lemma_mod_add_multiples_vanish(c as int, n);
    vstd::arithmetic::div_mod::lemma_small_mod(c as nat, n as nat);
    assert(c + n == n + c);
}

/// What the app should do after a track ends or a manual skip.
#[derive(Debug, Clone, Copy, PartialEq, Eq, Structural)]
pub enum Advance {
    Play(usize),
    Stop,
}

/// Abstract state of a queue: the tracks, the cursor and the repeat mode.
pub struct QueueModel {
    pub items: Seq<Track>,
    pub current: Option<usize>,
    pub repeat: RepeatMode,
}

pub struct Queue {
    items: Vec<Track>,
    current: Option<usize>,
    pub repeat: RepeatMode,
}

impl View for Queue {
    type V = QueueModel;

    closed spec fn view(&self) -> QueueModel {
        QueueModel { items: self.items@, current: self.current, repeat: self.repeat }
    }
}

/// The cursor, when set, points at a track of the queue.
pub open spec fn cursor_valid(items: Seq<Track>, current: Option<usize>) -> bool {
    match current {
        Some(c) => c < items.len(),
        None => true,
    }
}

/// Does some track of `items` carry the video id `id`?
pub open spec fn has_id(items: Seq<Track>, id: Seq<char>) -> bool {
    exists|k: int| 0 <= k < items.len() && #[trigger] items[k].video_id@ == id
}

/// The queue after appending `new` one by one, skipping every track whose id
/// is already queued (including ones appended earlier in the same batch).
pub open spec fn dedup_append(items: Seq<Track>, new: Seq<Track>) -> Seq<Track>
    decreases new.len(),
{
    if new.len() == 0 {
        items
    } else {
        let t = new[0];
        let next = if has_id(items, t.video_id@) {
            items
        } else {
            items.push(t)
        };
        dedup_append(next, new.drop_first())
    }
}

/// Number of tracks after the cursor.
pub open spec fn upcoming(items: Seq<Track>, current: Option<usize>) -> int {
    match current {
        Some(c) => if c + 1 <= items.len() { items.len() - (c + 1) } else { 0 },
        None => items.len() as int,
    }
}

/// Result of a natural end of track: (new cursor, what to do).
pub open spec fn on_end(m: QueueModel) -> (Option<usize>, Advance) {
    match m.current {
        None => (None, Advance::Stop),
        Some(c) => if m.repeat == RepeatMode::One {
            (Some(c), Advance::Play(c))
        } else if c + 1 < m.items.len() {
            (Some((c + 1) as usize), Advance::Play((c + 1) as usize))
        } else if m.repeat == RepeatMode::All && m.items.len() > 0 {
            (Some(0), Advance::Play(0))
        } else {
            (Some(c), Advance::Stop)
        },
    }
}

/// Result of a manual "next": the repeat-one mode is ignored.
pub open spec fn on_next(m: QueueModel) -> (Option<usize>, Advance) {
    match m.current {
        None => if m.items.len() == 0 {
            (None, Advance::Stop)
        } else {
            (Some(0), Advance::Play(0))
        },
        Some(c) => if c + 1 < m.items.len() {
            (Some((c + 1) as usize), Advance::Play((c + 1) as usize))
        } else if m.repeat == RepeatMode::All && m.items.len() > 0 {
            (Some(0), Advance::Play(0))
        } else {
            (Some(c), Advance::Stop)
        },
    }
}

/// Result of a manual "previous": at the head it wraps (repeat-all) or
/// restarts the first track.
pub open spec fn on_prev(m: QueueModel) -> (Option<usize>, Advance) {
    match m.current {
        None => (None, Advance::Stop),
        Some(c) => if c > 0 {
            (Some((c - 1) as usize), Advance::Play((c - 1) as usize))
        } else if m.repeat == RepeatMode::All && m.items.len() > 0 {
            (Some((m.items.len() - 1) as usize), Advance::Play((m.items.len() - 1) as usize))
        } else {
            (Some(c), Advance::Play(c))
        },
    }
}

impl Default for Queue {
    fn default() -> (q: Self)
        ensures
            q.wf(),
            q@.items.len() == 0,
            q@.current is None,
            q@.repeat == RepeatMode::Off,
    {
        Queue::new()
    }
}

impl Queue {
    /// The queue's invariant: the cursor points inside the track list.
    pub open spec fn wf(&self) -> bool {
        cursor_valid(self@.items, self@.current)
    }

    /// An empty queue with no cursor and repeat off.
    pub fn new() -> (q: Self)
        ensures
            q.wf(),
            q@.items.len() == 0,
            q@.current is None,
            q@.repeat == RepeatMode::Off,
    {
        Queue { items: Vec::new(), current: None, repeat: RepeatMode::Off }
    }

    pub fn items(&self) -> (r: &[Track])
        ensures
            r@ == self@.items,
    {
        self.items.as_slice()
    }

    pub fn len(&self) -> (r: usize)
        ensures
            r == self@.items.len(),
    {
        self.items.len()
    }

    pub fn is_empty(&self) -> (r: bool)
        ensures
            r == (self@.items.len() == 0),
    {
        self.items.len() == 0
    }

    pub fn current_index(&self) -> (r: Option<usize>)
        ensures
            r == self@.current,
    {
        self.current
    }

    pub fn current_track(&self) -> (r: Option<&Track>)
        requires
            self.wf(),
        ensures
            match self@.current {
                Some(c) => r == Some(&self@.items[c as int]),
                None => r is None,
            },
    {
        match self.current {
            Some(c) => Some(&self.items[c]),
            None => None,
        }
    }

    pub fn track_at(&self, i: usize) -> (r: Option<&Track>)
        ensures
            i < self@.items.len() ==> r == Some(&self@.items[i as int]),
            i >= self@.items.len() ==> r is None,
    {
        if i < self.items.len() {
            Some(&self.items[i])
        } else {
            None
        }
    }

    /// Number of tracks after the current one (radio refill trigger input).
    pub fn upcoming_count(&self) -> (r: usize)
        ensures
            r == upcoming(self@.items, self@.current),
    {
        match self.current {
            Some(c) => if c < self.items.len() {
                self.items.len() - (c + 1)
            } else {
                0
            },
            None => self.items.len(),
        }
    }

    /// The repeat mode.
    pub fn repeat_mode(&self) -> (r: RepeatMode)
        ensures
            r == self@.repeat,
    {
        self.repeat
    }

    /// Switch the repeat mode; tracks and cursor stay.
    pub fn set_repeat(&mut self, mode: RepeatMode)
        requires
            old(self).wf(),
        ensures
            final(self).wf(),
            final(self)@ == (QueueModel { repeat: mode, ..old(self)@ }),
    {
        self.repeat = mode;
    }

    /// The set of video ids in the queue - used to dedupe radio
    /// continuations. Each id is listed once, in the order it first occurs.
    pub fn known_ids(&self) -> (r: Vec<String>)
        ensures
            distinct_texts(r@),
            forall|k: int| 0 <= k < self@.items.len() ==> text_in(r@, #[trigger] self@.items[k].video_id@),
            forall|j: int| 0 <= j < r@.len() ==> has_id(self@.items, #[trigger] r@[j]@),
    {
        let mut out: Vec<String> = Vec::new();
        let mut i: usize = 0;
        while i < self.items.len()
            invariant
                i <= self.items@.len(),
                distinct_texts(out@),
                forall|k: int| 0 <= k < i ==> text_in(out@, #[trigger] self.items@[k].video_id@),
                forall|j: int| 0 <= j < out@.len() ==> has_id(self.items@, #[trigger] out@[j]@),
            decreases self.items.len() - i,
        {
            let id = &self.items[i].video_id;
            proof {
                assert(self.items@[i as int].video_id@ == id@);
            }
            if !contains_text(&out, id) {
                let ghost before = out@;
                out.push(id.clone());
                proof {
                    assert forall|a: int, b: int| 0 <= a < b < out@.len() implies
                        #[trigger] out@[a]@ != #[trigger] out@[b]@ by {
                        if b == before.len() {
                            assert(out@[a] == before[a]);
                        } else {
                            assert(out@[a] == before[a] && out@[b] == before[b]);
                        }
                    }
                    assert forall|k: int| 0 <= k <= i implies text_in(out@, #[trigger] self.items@[k].video_id@) by {
                        if k < i {
                            let j = choose|j: int| 0 <= j < before.len() && #[trigger] before[j]@ == self.items@[k].video_id@;
                            assert(out@[j] == before[j]);
                        } else {
                            assert(out@[before.len() as int]@ == id@);
                        }
                    }
                    assert forall|j: int| 0 <= j < out@.len() implies has_id(self.items@, #[trigger] out@[j]@) by {
                        if j < before.len() {
                            assert(out@[j] == before[j]);
                        } else {
                            assert(out@[j]@ == self.items@[i as int].video_id@);
                        }
                    }
                }
            }
            i = i + 1;
        }
        out
    }
}

/// No two texts of `v` are equal.
pub open spec fn distinct_texts(v: Seq<String>) -> bool {
    forall|a: int, b: int| 0 <= a < b < v.len() ==> #[trigger] v[a]@ != #[trigger] v[b]@
}

/// `v` holds the text `t`.
pub open spec fn text_in(v: Seq<String>, t: Seq<char>) -> bool {
    exists|j: int| 0 <= j < v.len() && #[trigger] v[j]@ == t
}

/// Does `v` hold the text of `t`?
fn contains_text(v: &Vec<String>, t: &String) -> (r: bool)
    ensures
        r == text_in(v@, t@),
{
    let mut i: usize = 0;
    while i < v.len()
        invariant
            i <= v@.len(),
            forall|k: int| 0 <= k < i ==> v@[k]@ != t@,
        decreases v.len() - i,
    {
        if v[i] == *t {
            return true;
        }
        i = i + 1;
    }
    false
}

/// Shuffles `v[start..]` in place with the thread-local random generator
/// (`rand::seq::SliceRandom::shuffle`, a Fisher-Yates shuffle made of swaps).
/// Claimed: the length and the prefix before `start` are unchanged and the
/// tail holds the same tracks as before; which order comes out is not stated.
#[verifier::external_body]
fn shuffle_tail(v: &mut Vec<Track>, start: usize)
    requires
        start <= old(v)@.len(),
    ensures
        final(v)@.len() == old(v)@.len(),
        final(v)@.subrange(0, start as int) == old(v)@.subrange(0, start as int),
        final(v)@.subrange(start as int, final(v)@.len() as int).to_multiset()
            == old(v)@.subrange(start as int, old(v)@.len() as int).to_multiset(),
{
    v[start..].shuffle(&mut rand::rng());
}

/// Does `items` hold a track whose video id is `id`?
fn contains_id(items: &Vec<Track>, id: &String) -> (r: bool)
    ensures
        r == has_id(items@, id@),
{
    let mut i: usize = 0;
    while i < items.len()
        invariant
            i <= items@.len(),
            forall|k: int| 0 <= k < i ==> items@[k].video_id@ != id@,
        decreases items.len() - i,
    {
        if items[i].video_id == *id {
            return true;
        }
        i = i + 1;
    }
    false
}

impl Queue {
    /// Make `tracks` the playback context and start at `start`.
    ///
    /// This is what picking a song inside an album/playlist does: the rest
    /// of that list becomes the queue, so playback continues in order
    /// instead of running dry and being filled with radio suggestions.
    /// Returns the index to load, or None if the input is unusable (and the
    /// queue is then left untouched).
    pub fn set_context(&mut self, tracks: Vec<Track>, start: usize) -> (r: Option<usize>)
        requires
            old(self).wf(),
        ensures
            final(self).wf(),
            final(self)@.repeat == old(self)@.repeat,
            (tracks@.len() == 0 || start >= tracks@.len()) ==> {
                &&& r is None
                &&& final(self)@.items == old(self)@.items
                &&& final(self)@.current == old(self)@.current
            },
            (tracks@.len() > 0 && start < tracks@.len()) ==> {
                &&& r == Some(start)
                &&& final(self)@.items == tracks@
                &&& final(self)@.current == Some(start)
            },
    {
        if tracks.len() == 0 || start >= tracks.len() {
            return None;
        }
        self.items = tracks;
        self.current = Some(start);
        Some(start)
    }

    /// Replace the whole queue with a saved one, cursor at `current`.
    /// Refused (returns false, queue untouched) when `current` does not
    /// point into `tracks`.
    pub fn restore(&mut self, tracks: Vec<Track>, current: usize, repeat: RepeatMode) -> (r: bool)
        requires
            old(self).wf(),
        ensures
            final(self).wf(),
            r == (current < tracks@.len()),
            r ==> final(self)@.items == tracks@ && final(self)@.current == Some(current)
                && final(self)@.repeat == repeat,
            !r ==> final(self)@.items == old(self)@.items && final(self)@.current
                == old(self)@.current && final(self)@.repeat == old(self)@.repeat,
    {
        if current >= tracks.len() {
            return false;
        }
        self.items = tracks;
        self.current = Some(current);
        self.repeat = repeat;
        true
    }

    /// Insert right after current without moving the cursor.
    pub fn play_next(&mut self, track: Track)
        requires
            old(self).wf(),
        ensures
            final(self).wf(),
            final(self)@.items == old(self)@.items.insert(
                match old(self)@.current {
                    Some(c) => c + 1,
                    None => old(self)@.items.len() as int,
                },
                track,
            ),
            final(self)@.current == old(self)@.current,
            final(self)@.repeat == old(self)@.repeat,
    {
        self.insert_after_current(track);
    }

    pub fn append(&mut self, track: Track)
        requires
            old(self).wf(),
        ensures
            final(self).wf(),
            final(self)@.items == old(self)@.items.push(track),
            final(self)@.current == old(self)@.current,
            final(self)@.repeat == old(self)@.repeat,
    {
        self.items.push(track);
    }

    /// Append with dedupe against everything already queued.
    /// Returns how many were actually added.
    pub fn append_unique(&mut self, tracks: Vec<Track>) -> (r: usize)
        requires
            old(self).wf(),
        ensures
            final(self).wf(),
            final(self)@.items == dedup_append(old(self)@.items, tracks@),
            r == final(self)@.items.len() - old(self)@.items.len(),
            final(self)@.current == old(self)@.current,
            final(self)@.repeat == old(self)@.repeat,
    {
        let ghost old_items = self.items@;
        let mut added: usize = 0;
        let mut i: usize = 0;
        proof { assert(tracks@.skip(0) =~= tracks@); }
        while i < tracks.len()
            invariant
                i <= tracks@.len(),
                added <= i,
                cursor_valid(self.items@, self.current),
                self.current == old(self).current,
                self.repeat == old(self).repeat,
                dedup_append(old_items, tracks@) == dedup_append(
                    self.items@,
                    tracks@.skip(i as int),
                ),
                self.items@.len() == old_items.len() + added,
            decreases tracks.len() - i,
        {
            let ghost rest = tracks@.skip(i as int);
            proof {
                assert(rest[0] == tracks@[i as int]);
                assert(rest.drop_first() =~= tracks@.skip(i + 1));
            }
            if !contains_id(&self.items, &tracks[i].video_id) {
                self.items.push(tracks[i].clone());
                added = added + 1;
            }
            i = i + 1;
        }
        proof { assert(tracks@.skip(i as int) =~= Seq::<Track>::empty()); }
        added
    }

    fn insert_after_current(&mut self, track: Track) -> (at: usize)
        requires
            old(self).wf(),
        ensures
            final(self).wf(),
            at == match old(self)@.current {
                Some(c) => c + 1,
                None => old(self)@.items.len() as int,
            },
            final(self)@.items == old(self)@.items.insert(at as int, track),
            final(self)@.current == old(self)@.current,
            final(self)@.repeat == old(self)@.repeat,
    {
        let len = self.items.len();
        let at = match self.current {
            Some(c) => c + 1,
            None => len,
        };
        self.items.insert(at, track);
        at
    }

    /// Jump to an arbitrary queue position (Enter on the queue panel).
    pub fn jump_to(&mut self, i: usize) -> (r: Option<usize>)
        requires
            old(self).wf(),
        ensures
            final(self).wf(),
            final(self)@.items == old(self)@.items,
            final(self)@.repeat == old(self)@.repeat,
            i < old(self)@.items.len() ==> r == Some(i) && final(self)@.current == Some(i),
            i >= old(self)@.items.len() ==> r is None && *final(self) == *old(self),
    {
        if i < self.items.len() {
            self.current = Some(i);
            Some(i)
        } else {
            None
        }
    }

    /// Remove a non-current item. Removing the playing track is refused
    /// (returns false) to keep cursor/playback consistent.
    pub fn remove(&mut self, i: usize) -> (r: bool)
        requires
            old(self).wf(),
        ensures
            final(self).wf(),
            final(self)@.repeat == old(self)@.repeat,
            r == (i < old(self)@.items.len() && old(self)@.current != Some(i)),
            !r ==> *final(self) == *old(self),
            r ==> final(self)@.items == old(self)@.items.remove(i as int),
            r ==> final(self)@.current == match old(self)@.current {
                Some(c) => if i < c {
                    Some((c - 1) as usize)
                } else {
                    Some(c)
                },
                None => None,
            },
    {
        if i >= self.items.len() || self.current == Some(i) {
            return false;
        }
        self.items.remove(i);
        if let Some(c) = self.current {
            if i < c {
                self.current = Some(c - 1);
            }
        }
        true
    }

    /// Swap item `i` with `i-1` (up=true) or `i+1`, fixing the cursor.
    pub fn swap(&mut self, i: usize, up: bool) -> (r: Option<usize>)
        requires
            old(self).wf(),
            up && i > 0 ==> i < old(self)@.items.len(),
            !up ==> i < usize::MAX,
        ensures
            final(self).wf(),
            final(self)@.repeat == old(self)@.repeat,
            (if up { i == 0 } else { i + 1 >= old(self)@.items.len() }) ==> r is None
                && *final(self) == *old(self),
            !(if up { i == 0 } else { i + 1 >= old(self)@.items.len() }) ==> {
                let j: usize = if up { (i - 1) as usize } else { (i + 1) as usize };
                &&& r == Some(j)
                &&& final(self)@.items == old(self)@.items.update(i as int, old(self)@.items[j as int]).update(
                    j as int,
                    old(self)@.items[i as int],
                )
                &&& final(self)@.current == match old(self)@.current {
                    Some(c) => if c == i {
                        Some(j)
                    } else if c == j {
                        Some(i)
                    } else {
                        Some(c)
                    },
                    None => None,
                }
            },
    {
        let j = if up {
            if i == 0 {
                return None;
            }
            i - 1
        } else {
            if i + 1 >= self.items.len() {
                return None;
            }
            i + 1
        };
        let a = self.items[i].clone();
        let b = self.items[j].clone();
        self.items.set(i, b);
        self.items.set(j, a);
        if let Some(c) = self.current {
            if c == i {
                self.current = Some(j);
            } else if c == j {
                self.current = Some(i);
            }
        }
        Some(j)
    }

    /// Shuffle only the upcoming part; history and current stay in place.
    pub fn shuffle_upcoming(&mut self)
        requires
            old(self).wf(),
        ensures
            final(self).wf(),
            final(self)@.current == old(self)@.current,
            final(self)@.repeat == old(self)@.repeat,
            final(self)@.items.len() == old(self)@.items.len(),
            ({
                let start: int = match old(self)@.current {
                    Some(c) => c + 1,
                    None => 0,
                };
                &&& final(self)@.items.subrange(0, start) == old(self)@.items.subrange(0, start)
                &&& final(self)@.items.subrange(start, final(self)@.items.len() as int).to_multiset()
                    == old(self)@.items.subrange(start, old(self)@.items.len() as int).to_multiset()
            }),
    {
        let len = self.items.len();
        let start = match self.current {
            Some(c) => c + 1,
            None => 0,
        };
        if start < len {
            shuffle_tail(&mut self.items, start);
        } else {
            proof {
                assert(self.items@.subrange(start as int, self.items@.len() as int) =~= Seq::<Track>::empty());
                assert(self.items@.subrange(0, start as int) =~= self.items@);
            }
        }
    }

    /// Track finished naturally (end-file: eof).
    pub fn advance_on_end(&mut self) -> (r: Advance)
        requires
            old(self).wf(),
        ensures
            final(self).wf(),
            final(self)@.items == old(self)@.items,
            final(self)@.repeat == old(self)@.repeat,
            (final(self)@.current, r) == on_end(old(self)@),
            old(self)@.repeat == RepeatMode::One && old(self)@.current is Some ==> r == Advance::Play(
                old(self)@.current->0,
            ) && final(self)@.current == old(self)@.current,
    {
        let Some(c) = self.current else {
            return Advance::Stop;
        };
        match self.repeat {
            RepeatMode::One => Advance::Play(c),
            _ => {
                let len = self.items.len();
                if c + 1 < len {
                    self.current = Some(c + 1);
                    Advance::Play(c + 1)
                } else if self.repeat == RepeatMode::All && len > 0 {
                    self.current = Some(0);
                    Advance::Play(0)
                } else {
                    Advance::Stop
                }
            }
        }
    }

    /// Manual next ("n") - RepeatMode::One is intentionally ignored here.
    pub fn next_manual(&mut self) -> (r: Advance)
        requires
            old(self).wf(),
        ensures
            final(self).wf(),
            final(self)@.items == old(self)@.items,
            final(self)@.repeat == old(self)@.repeat,
            (final(self)@.current, r) == on_next(old(self)@),
            old(self)@.repeat != RepeatMode::All && old(self)@.current is Some && old(self)@.current->0 + 1
                == old(self)@.items.len() ==> r == Advance::Stop && final(self)@.current == old(self)@.current,
    {
        let len = self.items.len();
        let Some(c) = self.current else {
            return if len == 0 {
                Advance::Stop
            } else {
                self.current = Some(0);
                Advance::Play(0)
            };
        };
        if c + 1 < len {
            self.current = Some(c + 1);
            Advance::Play(c + 1)
        } else if self.repeat == RepeatMode::All && len > 0 {
            self.current = Some(0);
            Advance::Play(0)
        } else {
            Advance::Stop
        }
    }

    /// Manual previous ("p"). The caller handles the restart-if-mid-track UX.
    pub fn prev_manual(&mut self) -> (r: Advance)
        requires
            old(self).wf(),
        ensures
            final(self).wf(),
            final(self)@.items == old(self)@.items,
            final(self)@.repeat == old(self)@.repeat,
            (final(self)@.current, r) == on_prev(old(self)@),
    {
        let Some(c) = self.current else {
            return Advance::Stop;
        };
        if c > 0 {
            self.current = Some(c - 1);
            Advance::Play(c - 1)
        } else if self.repeat == RepeatMode::All && self.items.len() > 0 {
            let last = self.items.len() - 1;
            self.current = Some(last);
            Advance::Play(last)
        } else {
            Advance::Play(c)
        }
    }
}

/// The batch append never shrinks the queue.
proof fn lemma_dedup_len(items: Seq<Track>, new: Seq<Track>)
    ensures
        dedup_append(items, new).len() >= items.len(),
    decreases new.len(),
{
    if new.len() > 0 {
        let t = new[0];
        let next = if has_id(items, t.video_id@) { items } else { items.push(t) };
        lemma_dedup_len(next, new.drop_first());
    }
}


/// No two tracks of `items` share a video id.
pub open spec fn distinct_ids(items: Seq<Track>) -> bool {
    forall|a: int, b: int|
        0 <= a < b < items.len() ==> #[trigger] items[a].video_id@ != #[trigger] items[b].video_id@
}

/// Batch-appending with dedupe keeps the existing queue as a prefix, never
/// introduces a duplicate video id, and leaves every offered id queued.
pub proof fn law_dedup_append(items: Seq<Track>, new: Seq<Track>)
    requires
        distinct_ids(items),
    ensures
        dedup_append(items, new).subrange(0, items.len() as int) == items,
        distinct_ids(dedup_append(items, new)),
        forall|k: int| 0 <= k < new.len() ==> has_id(dedup_append(items, new), #[trigger] new[k].video_id@),
    decreases new.len(),
{
    lemma_dedup_len(items, new);
    if new.len() > 0 {
        let t = new[0];
        let next = if has_id(items, t.video_id@) { items } else { items.push(t) };
        if !has_id(items, t.video_id@) {
            assert forall|a: int, b: int| 0 <= a < b < next.len() implies
                #[trigger] next[a].video_id@ != #[trigger] next[b].video_id@ by {
                if b == items.len() {
                    assert(items[a].video_id@ != t.video_id@);
                }
            }
        }
        law_dedup_append(next, new.drop_first());
        let r = dedup_append(items, new);
        assert(r == dedup_append(next, new.drop_first()));
        lemma_dedup_len(next, new.drop_first());
        assert(r.subrange(0, items.len() as int) =~= r.subrange(0, next.len() as int).subrange(0, items.len() as int));
        assert(next.subrange(0, items.len() as int) =~= items);
        assert forall|k: int| 0 <= k < new.len() implies has_id(r, #[trigger] new[k].video_id@) by {
            if k == 0 {
                lemma_has_id_prefix(next, r, t.video_id@);
                if !has_id(items, t.video_id@) {
                    assert(next[items.len() as int] == t);
                } else {
                    let w = choose|w: int| 0 <= w < items.len() && #[trigger] items[w].video_id@ == t.video_id@;
                    assert(next[w].video_id@ == t.video_id@);
                }
            } else {
                assert(new.drop_first()[k - 1] == new[k]);
            }
        }
    }
}

/// An id present in a prefix of `b` is present in `b`.
proof fn lemma_has_id_prefix(a: Seq<Track>, b: Seq<Track>, id: Seq<char>)
    requires
        a.len() <= b.len(),
        b.subrange(0, a.len() as int) == a,
        has_id(a, id),
    ensures
        has_id(b, id),
{
    let w = choose|w: int| 0 <= w < a.len() && #[trigger] a[w].video_id@ == id;
    assert(b.subrange(0, a.len() as int)[w] == b[w]);
    assert(b[w].video_id@ == id);
}

/// "Play next" inserts behind the playing track: the cursor keeps pointing
/// at the same track and the inserted one comes right after it.
pub proof fn law_play_next_keeps_playing_track(items: Seq<Track>, c: usize, t: Track)
    requires
        c < items.len(),
    ensures
        items.insert(c + 1, t)[c as int] == items[c as int],
        items.insert(c + 1, t)[c + 1] == t,
        items.insert(c + 1, t).len() == items.len() + 1,
{
}

/// Removing another track never changes which track is playing: the
/// adjusted cursor points at the same track as before.
pub proof fn law_remove_keeps_playing_track(items: Seq<Track>, c: usize, i: usize)
    requires
        c < items.len(),
        i < items.len(),
        i != c,
    ensures
        ({
            let c2: int = if i < c { c - 1 } else { c as int };
            &&& 0 <= c2 < items.remove(i as int).len()
            &&& items.remove(i as int)[c2] == items[c as int]
        }),
{
}

/// Reordering moves the cursor with the tracks: after a swap the cursor
/// still points at the track that was playing.
pub proof fn law_swap_cursor_follows_track(items: Seq<Track>, c: usize, i: usize, j: usize)
    requires
        c < items.len(),
        i < items.len(),
        j < items.len(),
    ensures
        ({
            let swapped = items.update(i as int, items[j as int]).update(j as int, items[i as int]);
            let c2: int = if c == i { j as int } else if c == j { i as int } else { c as int };
            swapped[c2] == items[c as int]
        }),
{
}

/// Shuffling the upcoming part keeps history and the playing track in
/// place and keeps the same multiset of tracks overall.
pub proof fn law_shuffle_keeps_history_and_current(old_items: Seq<Track>, new_items: Seq<Track>, c: usize)
    requires
        c < old_items.len(),
        new_items.len() == old_items.len(),
        new_items.subrange(0, c + 1) == old_items.subrange(0, c + 1),
        new_items.subrange(c + 1, new_items.len() as int).to_multiset()
            == old_items.subrange(c + 1, old_items.len() as int).to_multiset(),
    ensures
        forall|k: int| 0 <= k <= c ==> #[trigger] new_items[k] == old_items[k],
        new_items.to_multiset() == old_items.to_multiset(),
{
    assert forall|k: int| 0 <= k <= c implies #[trigger] new_items[k] == old_items[k] by {
        assert(new_items.subrange(0, c + 1)[k] == new_items[k]);
        assert(old_items.subrange(0, c + 1)[k] == old_items[k]);
    }
    let n = new_items.len() as int;
    assert(new_items =~= new_items.subrange(0, c + 1) + new_items.subrange(c + 1, n));
    assert(old_items =~= old_items.subrange(0, c + 1) + old_items.subrange(c + 1, n));
    vstd::seq_lib::lemma_multiset_commutative(new_items.subrange(0, c + 1), new_items.subrange(c + 1, n));
    vstd::seq_lib::lemma_multiset_commutative(old_items.subrange(0, c + 1), old_items.subrange(c + 1, n));
}

} // verus!
