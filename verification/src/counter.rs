//! The admission-control counter and the laws of its event history.
//!
//! A pool shares one uncapped-or-capped counter between submitters and
//! workers, and each scope adds one of its own. The host guards a [`Counter`]
//! with a mutex and a condition variable; under the lock it drives the
//! verified transitions below. [`Counter::inc`] is one admission attempt
//! (the host waits and retries while it returns `false`), [`Counter::dec`]
//! releases a slot, and [`Counter::join`] is one check of the join
//! condition.
//!
//! Every transition is recorded in a ghost event log, so that the guarantees
//! the pool rests on — a drained counter accounts for every submission, and
//! a capped counter never admits past its bound — can be stated and proved
//! over whole histories.

use vstd::prelude::*;

verus! {

/// One record in the life of a [`Counter`]: a submission took a slot (under
/// the bound it was admitted with), or a completion released one.
pub enum CounterEvent {
    Inc { bound: Option<u16> },
    Dec,
}

/// The net number of slots held after the events of `h`.
pub open spec fn replay(h: Seq<CounterEvent>) -> int
    decreases h.len(),
{
    if h.len() == 0 {
        0
    } else {
        replay(h.drop_last()) + match h.last() {
            CounterEvent::Inc { .. } => 1,
            CounterEvent::Dec => -1,
        }
    }
}

/// How many submissions `h` records.
pub open spec fn n_incs(h: Seq<CounterEvent>) -> int
    decreases h.len(),
{
    if h.len() == 0 {
        0
    } else {
        n_incs(h.drop_last()) + if h.last() is Inc {
            1int
        } else {
            0int
        }
    }
}

/// How many completions `h` records.
pub open spec fn n_decs(h: Seq<CounterEvent>) -> int
    decreases h.len(),
{
    if h.len() == 0 {
        0
    } else {
        n_decs(h.drop_last()) + if h.last() is Dec {
            1int
        } else {
            0int
        }
    }
}

/// Whether a submission is admitted when `pending` jobs are counted and the
/// cap is `max`.
pub open spec fn admits(pending: int, max: Option<u16>) -> bool {
    match max {
        Some(m) => pending < m,
        None => true,
    }
}

/// Whether event `e` was legal after the events of `h`: an admission
/// happened below its bound (and below the counter's capacity when
/// uncapped), and a release had a slot to give back.
pub open spec fn step_ok(h: Seq<CounterEvent>, e: CounterEvent) -> bool {
    match e {
        CounterEvent::Inc { bound } => replay(h) < u16::MAX && admits(replay(h), bound),
        CounterEvent::Dec => replay(h) >= 1,
    }
}

/// Every event of `h` was legal when it happened.
pub open spec fn valid_history(h: Seq<CounterEvent>) -> bool {
    forall|i: int| 0 <= i < h.len() ==> step_ok(h.take(i), #[trigger] h[i])
}

/// A counter: the number of jobs currently in flight, together with the
/// ghost log of how it got there.
pub struct Counter {
    value: u16,
    history: Ghost<Seq<CounterEvent>>,
}

impl Counter {
    /// The events this counter has seen, oldest first.
    pub closed spec fn log(self) -> Seq<CounterEvent> {
        self.history@
    }

    /// The number of jobs currently counted.
    pub closed spec fn pending(self) -> int {
        self.value as int
    }

    /// The counter's invariant: the stored value replays the event log, and
    /// every event was legal when it happened.
    pub closed spec fn wf(self) -> bool {
        valid_history(self.history@) && self.value == replay(self.history@)
    }

    /// A fresh counter: nothing in flight, empty log.
    pub fn new() -> (c: Counter)
        ensures
            c.wf(),
            c.pending() == 0,
            c.log() == Seq::<CounterEvent>::empty(),
    {
        Counter { value: 0, history: Ghost(Seq::empty()) }
    }

    /// One admission attempt under the cap `max`. When the count is below
    /// the cap the slot is taken; otherwise nothing changes and the host
    /// must wait for a release and retry. An uncapped counter must not be
    /// driven past `u16::MAX` in-flight jobs.
    pub fn inc(&mut self, max: Option<u16>) -> (admitted: bool)
        requires
            old(self).wf(),
            max is None ==> old(self).pending() < u16::MAX,
        ensures
            final(self).wf(),
            admitted == admits(old(self).pending(), max),
            admitted ==> final(self).pending() == old(self).pending() + 1 && final(self).log()
                == old(self).log().push(CounterEvent::Inc { bound: max }),
            !admitted ==> *final(self) == *old(self),
    {
        if let Some(m) = max {
            if self.value >= m {
                return false;
            }
        }
        self.value = self.value + 1;
        proof {
            let h = old(self).history@;
            let e = CounterEvent::Inc { bound: max };
            lemma_push_valid(h, e);
        }
        self.history = Ghost(self.history@.push(CounterEvent::Inc { bound: max }));
        true
    }

    /// Instantaneous snapshot of the count; advisory only once the lock is
    /// released.
    pub fn count(&self) -> (n: u16)
        ensures
            n == self.pending(),
    {
        self.value
    }

    /// Releases one slot and wakes a waiter. A correct host calls it exactly
    /// once per admitted submission, so the count cannot underflow.
    pub fn dec(&mut self)
        requires
            old(self).wf(),
            old(self).pending() >= 1,
        ensures
            final(self).wf(),
            final(self).pending() == old(self).pending() - 1,
            final(self).log() == old(self).log().push(CounterEvent::Dec),
    {
        self.value = self.value - 1;
        proof {
            lemma_push_valid(old(self).history@, CounterEvent::Dec);
        }
        self.history = Ghost(self.history@.push(CounterEvent::Dec));
    }

    /// One check of the join condition: true exactly when nothing is in
    /// flight. The host blocks on its condition variable and re-checks after
    /// every release until this holds.
    pub fn join(&self) -> (drained: bool)
        ensures
            drained <==> self.pending() == 0,
    {
        self.value == 0
    }
}

/// Appending a legal event to a valid history keeps it valid and moves the
/// replayed count by that event's step.
proof fn lemma_push_valid(h: Seq<CounterEvent>, e: CounterEvent)
    requires
        valid_history(h),
        step_ok(h, e),
    ensures
        valid_history(h.push(e)),
        replay(h.push(e)) == replay(h) + (if e is Inc {
            1int
        } else {
            -1int
        }),
{
    let h2 = h.push(e);
    assert(h2.drop_last() =~= h);
    assert forall|i: int| 0 <= i < h2.len() implies step_ok(h2.take(i), #[trigger] h2[i]) by {
        if i < h.len() {
            assert(h2.take(i) =~= h.take(i));
        } else {
            assert(h2.take(i) =~= h);
        }
    }
}

/// What a well-formed counter's closed invariant gives its callers: the
/// count replays a valid event log, so it equals submissions minus
/// completions and can never be negative. This is the bridge from a live
/// [`Counter`] to the history laws below (and it is why a host that has
/// released fewer slots than it acquired still has one to release).
pub proof fn lemma_counter_invariant(c: Counter)
    requires
        c.wf(),
    ensures
        valid_history(c.log()),
        c.pending() == replay(c.log()),
        c.pending() == n_incs(c.log()) - n_decs(c.log()),
        c.pending() >= 0,
{
    lemma_replay_counts(c.log());
}

/// The count is always the difference between submissions and completions.
pub proof fn lemma_replay_counts(h: Seq<CounterEvent>)
    ensures
        replay(h) == n_incs(h) - n_decs(h),
    decreases h.len(),
{
    if h.len() > 0 {
        lemma_replay_counts(h.drop_last());
    }
}

/// No lost jobs: a history that has drained to zero records exactly as many
/// completions as submissions.
pub proof fn lemma_no_lost_jobs(h: Seq<CounterEvent>)
    requires
        replay(h) == 0,
    ensures
        n_incs(h) == n_decs(h),
{
    lemma_replay_counts(h);
}

/// A drained counter accounts for every job: when the count reads zero,
/// every submission it admitted has been matched by a completion. This is
/// what a pool's `join` (on the global counter) and a scope's exit (on the
/// scope counter) wait for.
pub proof fn lemma_drained_counter(c: Counter)
    requires
        c.wf(),
        c.pending() == 0,
    ensures
        n_incs(c.log()) == n_decs(c.log()),
{
    lemma_no_lost_jobs(c.log());
}

/// A prefix of a valid history is itself valid.
pub proof fn lemma_valid_history_prefix(h: Seq<CounterEvent>, k: int)
    requires
        valid_history(h),
        0 <= k <= h.len(),
    ensures
        valid_history(h.take(k)),
{
    let p = h.take(k);
    assert forall|i: int| 0 <= i < p.len() implies step_ok(p.take(i), #[trigger] p[i]) by {
        assert(p.take(i) =~= h.take(i));
        assert(p[i] == h[i]);
    }
}

/// The count never underflows: at every point of a valid history the
/// replayed count is nonnegative.
pub proof fn lemma_count_nonnegative(h: Seq<CounterEvent>)
    requires
        valid_history(h),
    ensures
        forall|i: int| 0 <= i <= h.len() ==> replay(#[trigger] h.take(i)) >= 0,
    decreases h.len(),
{
    if h.len() > 0 {
        let h0 = h.drop_last();
        lemma_valid_history_prefix(h, h.len() - 1);
        assert(h0 =~= h.take(h.len() - 1));
        lemma_count_nonnegative(h0);
        assert forall|i: int| 0 <= i <= h.len() implies replay(#[trigger] h.take(i)) >= 0 by {
            if i < h.len() {
                assert(h.take(i) =~= h0.take(i));
            } else {
                assert(h.take(i) =~= h);
                assert(step_ok(h.take(h.len() - 1), h[h.len() - 1]));
                assert(h.drop_last() =~= h.take(h.len() - 1));
            }
        }
    }
}

/// Admission bound: when every submission in a valid history was admitted
/// under the same cap `m`, the count never exceeded `m` at any point.
pub proof fn lemma_admission_bound(h: Seq<CounterEvent>, m: u16)
    requires
        valid_history(h),
        forall|i: int| 0 <= i < h.len() ==> ((#[trigger] h[i]) matches CounterEvent::Inc { bound }
            ==> bound == Some(m)),
    ensures
        forall|i: int| 0 <= i <= h.len() ==> replay(#[trigger] h.take(i)) <= m,
    decreases h.len(),
{
    if h.len() > 0 {
        let h0 = h.drop_last();
        lemma_valid_history_prefix(h, h.len() - 1);
        assert(h0 =~= h.take(h.len() - 1));
        lemma_admission_bound(h0, m);
        assert forall|i: int| 0 <= i <= h.len() implies replay(#[trigger] h.take(i)) <= m by {
            if i < h.len() {
                assert(h.take(i) =~= h0.take(i));
            } else {
                assert(h.take(i) =~= h);
                assert(step_ok(h.take(h.len() - 1), h[h.len() - 1]));
                assert(h.drop_last() =~= h.take(h.len() - 1));
                assert(replay(h0) <= m);
            }
        }
    }
}

/// With a cap of one, submissions are strictly serialized: at no point of
/// the history is more than one job in flight.
pub proof fn lemma_serialized_submissions(h: Seq<CounterEvent>)
    requires
        valid_history(h),
        forall|i: int| 0 <= i < h.len() ==> ((#[trigger] h[i]) matches CounterEvent::Inc { bound }
            ==> bound == Some(1u16)),
    ensures
        forall|i: int| 0 <= i <= h.len() ==> replay(#[trigger] h.take(i)) <= 1,
{
    lemma_admission_bound(h, 1);
}

} // verus!
