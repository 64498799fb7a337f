//! A monotonic millisecond clock with an ordered queue of delayed task
//! activations.

use vstd::prelude::*;
use crate::task::{Payload, TaskId};

verus! {

/// A task activation waiting for its due time.
#[derive(Clone, Copy, Debug, PartialEq, Eq, Structural)]
pub struct TimerEntry {
    /// Due time on the monotonic clock, in milliseconds.
    pub due: u64,
    pub task: TaskId,
    pub payload: Payload,
}

/// What a timer queue is: the clock as last seen, and the waiting entries
/// from the one that fires first to the one that fires last.
pub struct TimerQueueView {
    pub now: u64,
    pub entries: Seq<TimerEntry>,
}

/// The entries are in ascending order of due time.
pub open spec fn sorted_by_due(s: Seq<TimerEntry>) -> bool {
    forall|i: int, j: int| 0 <= i <= j < s.len() ==> s[i].due <= s[j].due
}

/// How many entries at the head of `s` are due at time `t`. In a sorted
/// queue these are all the entries that are due at `t`, and a new entry due
/// at `t` goes right behind them.
pub open spec fn due_prefix(s: Seq<TimerEntry>, t: u64) -> int
    decreases s.len(),
{
    if s.len() == 0 || s[0].due > t {
        0
    } else {
        1 + due_prefix(s.skip(1), t)
    }
}

/// The later of two clock readings.
pub open spec fn later(a: u64, b: u64) -> u64 {
    if a >= b {
        a
    } else {
        b
    }
}

/// `k` entries at the head of `s` are due at `t`, and entry `k`, if there is
/// one, is not: then `k` is the due prefix.
pub proof fn lemma_due_prefix_at(s: Seq<TimerEntry>, t: u64, k: int)
    requires
        0 <= k <= s.len(),
        forall|i: int| 0 <= i < k ==> s[i].due <= t,
        k < s.len() ==> s[k].due > t,
    ensures
        due_prefix(s, t) == k,
    decreases s.len(),
{
    if k > 0 {
        let rest = s.skip(1);
        assert forall|i: int| 0 <= i < k - 1 implies rest[i].due <= t by {
            assert(rest[i] == s[i + 1]);
        }
        if k - 1 < rest.len() {
            assert(rest[k - 1] == s[k]);
        }
        lemma_due_prefix_at(rest, t, k - 1);
    }
}

/// The due prefix lies within the queue and holds only due entries; in a
/// sorted queue nothing behind it is due.
pub proof fn lemma_due_prefix_splits(s: Seq<TimerEntry>, t: u64)
    ensures
        0 <= due_prefix(s, t) <= s.len(),
        forall|i: int| 0 <= i < due_prefix(s, t) ==> s[i].due <= t,
        sorted_by_due(s) ==> forall|i: int| due_prefix(s, t) <= i < s.len() ==> s[i].due > t,
    decreases s.len(),
{
    if s.len() == 0 || s[0].due > t {
    } else {
        let rest = s.skip(1);
        lemma_due_prefix_splits(rest, t);
        let k = due_prefix(s, t);
        assert forall|i: int| 0 <= i < k implies s[i].due <= t by {
            if i > 0 {
                assert(rest[i - 1] == s[i]);
            }
        }
        if sorted_by_due(s) {
            assert(sorted_by_due(rest)) by {
                assert forall|i: int, j: int| 0 <= i <= j < rest.len() implies rest[i].due
                    <= rest[j].due by {
                    assert(rest[i] == s[i + 1]);
                    assert(rest[j] == s[j + 1]);
                }
            }
            assert forall|i: int| k <= i < s.len() implies s[i].due > t by {
                assert(rest[i - 1] == s[i]);
            }
        }
    }
}

/// No entry fires twice: once the entries that are due at `t` have been
/// taken out of a sorted queue, nothing in what is left is due at `t` or
/// any earlier time.
pub proof fn lemma_fired_entries_are_gone(s: Seq<TimerEntry>, t: u64, earlier: u64)
    requires
        sorted_by_due(s),
        earlier <= t,
    ensures
        due_prefix(s.skip(due_prefix(s, t)), earlier) == 0,
{
    lemma_due_prefix_splits(s, t);
    let k = due_prefix(s, t);
    let rest = s.skip(k);
    if rest.len() > 0 {
        assert(rest[0] == s[k]);
    }
    lemma_due_prefix_at(rest, earlier, 0);
}

/// Putting an entry right behind those that are due no later keeps a sorted
/// queue sorted.
pub proof fn lemma_insert_keeps_sorted(s: Seq<TimerEntry>, e: TimerEntry)
    requires
        sorted_by_due(s),
    ensures
        sorted_by_due(s.insert(due_prefix(s, e.due), e)),
{
    lemma_due_prefix_splits(s, e.due);
    let k = due_prefix(s, e.due);
    let r = s.insert(k, e);
    assert forall|i: int, j: int| 0 <= i <= j < r.len() implies r[i].due <= r[j].due by {
        if i < k {
            assert(r[i] == s[i]);
        } else if i > k {
            assert(r[i] == s[i - 1]);
        }
        if j < k {
            assert(r[j] == s[j]);
        } else if j > k {
            assert(r[j] == s[j - 1]);
        }
    }
}

/// A monotonic millisecond clock and the activations that wait on it.
pub struct TimerQueue {
    now: u64,
    entries: Vec<TimerEntry>,
}

impl View for TimerQueue {
    type V = TimerQueueView;

    closed spec fn view(&self) -> TimerQueueView {
        TimerQueueView { now: self.now, entries: self.entries@ }
    }
}

impl TimerQueue {
    /// The queue's invariant: entries stand in ascending order of due time.
    /// Entries with equal due times stand in the order they were scheduled.
    pub open spec fn wf(&self) -> bool {
        sorted_by_due(self@.entries)
    }

    /// An empty queue with the clock at zero.
    pub fn new() -> (q: Self)
        ensures
            q.wf(),
            q@.now == 0,
            q@.entries == Seq::<TimerEntry>::empty(),
    {
        TimerQueue { now: 0, entries: Vec::new() }
    }

    /// The clock as of the latest tick.
    pub fn now(&self) -> (now: u64)
        ensures
            now == self@.now,
    {
        self.now
    }

    /// Number of activations that wait.
    pub fn len(&self) -> (n: usize)
        ensures
            n == self@.entries.len(),
    {
        self.entries.len()
    }

    /// The due time of the entry that fires first, if any waits.
    pub fn next_due(&self) -> (due: Option<u64>)
        requires
            self.wf(),
        ensures
            self@.entries.len() == 0 ==> due is None,
            self@.entries.len() > 0 ==> due == Some(self@.entries[0].due),
            due matches Some(d) ==> forall|i: int|
                0 <= i < self@.entries.len() ==> d <= self@.entries[i].due,
    {
        if self.entries.len() == 0 {
            None
        } else {
            Some(self.entries[0].due)
        }
    }

    /// Schedules `task` to fire `delay_ms` after the current clock. The new
    /// entry goes behind every entry that is due no later, so entries with
    /// the same due time fire in the order they were scheduled. A delay of
    /// zero is due at the next tick.
    pub fn schedule(&mut self, task: TaskId, delay_ms: u64, payload: Payload)
        requires
            old(self).wf(),
            old(self)@.now + delay_ms <= u64::MAX,
        ensures
            final(self).wf(),
            final(self)@.now == old(self)@.now,
            final(self)@.entries == old(self)@.entries.insert(
                due_prefix(old(self)@.entries, (old(self)@.now + delay_ms) as u64),
                (TimerEntry { due: (old(self)@.now + delay_ms) as u64, task, payload }),
            ),
    {
        let due: u64 = self.now + delay_ms;
        let entry = TimerEntry { due, task, payload };
        let n: usize = self.entries.len();
        let mut k: usize = 0;
        while k < n && self.entries[k].due <= due
            invariant
                n == self.entries.len(),
                k <= n,
                forall|i: int| 0 <= i < k ==> self.entries@[i].due <= due,
            decreases n - k,
        {
            k = k + 1;
        }
        proof {
            lemma_due_prefix_at(self.entries@, due, k as int);
            lemma_insert_keeps_sorted(self.entries@, entry);
        }
        self.entries.insert(k, entry);
    }

    /// Advances the clock to `now_ms` and takes out every entry that is due
    /// by then. They come back in ascending order of due time, equal due
    /// times in the order they were scheduled; what stays in the queue is due
    /// later. The clock never runs backwards: a reading older than the clock
    /// leaves the clock where it is.
    pub fn tick(&mut self, now_ms: u64) -> (fired: Vec<TimerEntry>)
        requires
            old(self).wf(),
        ensures
            final(self).wf(),
            final(self)@.now == later(old(self)@.now, now_ms),
            fired@ == old(self)@.entries.take(due_prefix(old(self)@.entries, final(self)@.now)),
            final(self)@.entries == old(self)@.entries.skip(
                due_prefix(old(self)@.entries, final(self)@.now),
            ),
            fired@ + final(self)@.entries == old(self)@.entries,
            sorted_by_due(fired@),
            forall|i: int| 0 <= i < fired@.len() ==> fired@[i].due <= final(self)@.now,
            forall|i: int|
                0 <= i < final(self)@.entries.len() ==> final(self)@.now < final(self)@.entries[i].due,
    {
        if now_ms > self.now {
            self.now = now_ms;
        }
        let t: u64 = self.now;
        let n: usize = self.entries.len();
        let mut k: usize = 0;
        while k < n && self.entries[k].due <= t
            invariant
                n == self.entries.len(),
                k <= n,
                forall|i: int| 0 <= i < k ==> self.entries@[i].due <= t,
            decreases n - k,
        {
            k = k + 1;
        }
        let ghost before = self.entries@;
        proof {
            lemma_due_prefix_at(before, t, k as int);
            lemma_due_prefix_splits(before, t);
        }
        let mut fired = self.entries.split_off(k);
        std::mem::swap(&mut self.entries, &mut fired);
        proof {
            assert(fired@ =~= before.take(k as int));
            assert(self.entries@ =~= before.skip(k as int));
            assert(fired@ + self.entries@ =~= before);
            assert forall|i: int, j: int| 0 <= i <= j < fired@.len() implies fired@[i].due
                <= fired@[j].due by {
                assert(fired@[i] == before[i]);
                assert(fired@[j] == before[j]);
            }
            assert forall|i: int, j: int| 0 <= i <= j < self.entries@.len() implies self.entries@[i].due
                <= self.entries@[j].due by {
                assert(self.entries@[i] == before[i + k]);
                assert(self.entries@[j] == before[j + k]);
            }
            assert forall|i: int| 0 <= i < self.entries@.len() implies self.entries@[i].due
                > t by {
                assert(self.entries@[i] == before[i + k]);
            }
        }
        fired
    }
}

} // verus!
