//! When to call the service: a pacing pacer between calls and a cadence
//! between sweeps over all queries.
//!
//! Times are milliseconds on a clock that only moves forward. The caller
//! sleeps until the time an action names, then performs it.
use vstd::prelude::*;

verus! {

/// Milliseconds between two calls for a budget of calls per minute. The
/// spacing is computed in microseconds first and truncated twice.
pub open spec fn call_spacing_spec(max_calls_per_minute: u16) -> u64 {
    ((60000int * 1000 / (max_calls_per_minute as int)) / 1000) as u64
}

pub fn call_spacing_millis(max_calls_per_minute: u16) -> (r: u64)
    requires
        max_calls_per_minute > 0,
    ensures
        r == call_spacing_spec(max_calls_per_minute),
{
    (60000u64 * 1000u64 / (max_calls_per_minute as u64)) / 1000u64
}

/// `t + d`, or the largest time when that does not fit.
pub open spec fn later(t: u64, d: u64) -> u64 {
    if t + d > u64::MAX {
        u64::MAX
    } else {
        (t + d) as u64
    }
}

pub open spec fn max_time(a: u64, b: u64) -> u64 {
    if a >= b {
        a
    } else {
        b
    }
}

/// A recurring signal that, when behind, delays rather than catches up: it
/// fires at the later of its deadline and now, and its next deadline is one
/// period after that firing.
#[derive(Clone, Copy, Debug, PartialEq, Eq, Structural)]
pub struct Pacer {
    pub period: u64,
    pub next: u64,
}

impl Pacer {
    /// The time at which the pacer fires when asked at `now`, and the pacer after.
    pub open spec fn fire_spec(self, now: u64) -> (Pacer, u64) {
        let t = max_time(now, self.next);
        (Pacer { period: self.period, next: later(t, self.period) }, t)
    }

    /// A pacer whose first firing is at `now`.
    pub fn starting_at(period: u64, now: u64) -> (r: Pacer)
        ensures
            r == (Pacer { period, next: now }),
    {
        Pacer { period, next: now }
    }

    /// A pacer whose first firing is one period after `now`.
    pub fn after_one_period(period: u64, now: u64) -> (r: Pacer)
        ensures
            r == (Pacer { period, next: later(now, period) }),
    {
        Pacer { period, next: now.saturating_add(period) }
    }

    /// Fires the pacer for a caller that arrives at `now`.
    pub fn fire(&mut self, now: u64) -> (t: u64)
        ensures
            (*final(self), t) == old(self).fire_spec(now),
    {
        let t = if now >= self.next {
            now
        } else {
            self.next
        };
        self.next = t.saturating_add(self.period);
        t
    }
}

/// What the loop does next.
#[derive(Clone, Copy, Debug, PartialEq, Eq, Structural)]
pub enum Action {
    /// Call the service for the query at `index`, at time `at`.
    Fetch { index: usize, at: u64 },
    /// The sweep is over: wait until `until` before the next one.
    Sleep { until: u64 },
}

/// The state of the polling loop: which query comes next, and the two pacers.
#[derive(Clone, Copy, Debug, PartialEq, Eq, Structural)]
pub struct Scheduler {
    pub n_queries: usize,
    /// Index of the next query; equal to `n_queries` once the sweep is done.
    pub position: usize,
    pub pacing: Pacer,
    pub cadence: Pacer,
}

impl Scheduler {
    pub open spec fn wf(self) -> bool {
        self.position <= self.n_queries
    }

    /// One decision of the loop at time `now`.
    pub open spec fn step_spec(self, now: u64) -> (Scheduler, Action) {
        if self.position < self.n_queries {
            let (g, t) = self.pacing.fire_spec(now);
            (
                Scheduler { position: (self.position + 1) as usize, pacing: g, ..self },
                Action::Fetch { index: self.position, at: t },
            )
        } else {
            let (g, t) = self.cadence.fire_spec(now);
            (Scheduler { position: 0, cadence: g, ..self }, Action::Sleep { until: t })
        }
    }

    /// A loop over `n_queries` queries that starts at `now`: the first call
    /// may go at once, and the first sweep is followed by a full poll interval.
    pub fn new(n_queries: usize, max_calls_per_minute: u16, poll_interval_millis: u64, now: u64) -> (r: Scheduler)
        requires
            max_calls_per_minute > 0,
        ensures
            r.wf(),
            r.n_queries == n_queries,
            r.position == 0,
            r.pacing == (Pacer { period: call_spacing_spec(max_calls_per_minute), next: now }),
            r.cadence == (Pacer { period: poll_interval_millis, next: later(now, poll_interval_millis) }),
    {
        Scheduler {
            n_queries,
            position: 0,
            pacing: Pacer::starting_at(call_spacing_millis(max_calls_per_minute), now),
            cadence: Pacer::after_one_period(poll_interval_millis, now),
        }
    }

    /// Decides what to do at time `now`: the next query of the sweep, paced
    /// by the pacer, or the wait for the next sweep.
    pub fn next_action(&mut self, now: u64) -> (a: Action)
        requires
            old(self).wf(),
        ensures
            final(self).wf(),
            (*final(self), a) == old(self).step_spec(now),
    {
        if self.position < self.n_queries {
            let at = self.pacing.fire(now);
            let index = self.position;
            self.position = self.position + 1;
            Action::Fetch { index, at }
        } else {
            let until = self.cadence.fire(now);
            self.position = 0;
            Action::Sleep { until }
        }
    }
}

/// The state and the actions after deciding at each time of `nows` in turn.
pub open spec fn run(s: Scheduler, nows: Seq<u64>) -> (Scheduler, Seq<Action>)
    decreases nows.len(),
{
    if nows.len() == 0 {
        (s, Seq::empty())
    } else {
        let (s1, acts) = run(s, nows.drop_last());
        let (s2, a) = s1.step_spec(nows.last());
        (s2, acts.push(a))
    }
}

proof fn lemma_run_invariant(s: Scheduler, nows: Seq<u64>)
    requires
        s.wf(),
    ensures
        run(s, nows).0.wf(),
        run(s, nows).1.len() == nows.len(),
        run(s, nows).0.pacing.period == s.pacing.period,
        run(s, nows).0.pacing.next >= s.pacing.next,
        forall|i: int|
            0 <= i < nows.len() ==> (#[trigger] run(s, nows).1[i] matches Action::Fetch { at, .. }
                ==> later(at, s.pacing.period) <= run(s, nows).0.pacing.next),
    decreases nows.len(),
{
    if nows.len() > 0 {
        let prev = nows.drop_last();
        lemma_run_invariant(s, prev);
        let (s1, acts) = run(s, prev);
        let (s2, a) = s1.step_spec(nows.last());
        assert(run(s, nows).1 == acts.push(a));
        assert forall|i: int| 0 <= i < nows.len() implies (#[trigger] run(s, nows).1[i] matches Action::Fetch {
            at,
            ..
        } ==> later(at, s.pacing.period) <= run(s, nows).0.pacing.next) by {
            if i < prev.len() {
                assert(run(s, nows).1[i] == acts[i]);
            }
        }
    }
}

/// Calls are paced: whatever the times at which the loop decides, a call
/// comes at least one pacing period after any earlier call (or at the
/// largest time, where the clock saturates). A late caller is served at
/// once, and the pacer re-arms from that moment, so no burst follows.
pub proof fn lemma_fetches_spaced(s: Scheduler, nows: Seq<u64>, i: int, j: int)
    requires
        s.wf(),
        0 <= i < j < nows.len(),
        run(s, nows).1[i] is Fetch,
        run(s, nows).1[j] is Fetch,
    ensures
        run(s, nows).1[j]->Fetch_at >= later(run(s, nows).1[i]->Fetch_at, s.pacing.period),
{
    let before = nows.subrange(0, j);
    let upto = nows.subrange(0, j + 1);
    lemma_run_prefix(s, nows, j);
    lemma_run_prefix(s, nows, j + 1);
    lemma_run_invariant(s, before);
    let (sj, acts) = run(s, before);
    assert(acts[i] == run(s, nows).1[i]);
    assert(upto.drop_last() =~= before);
    assert(upto.last() == nows[j]);
    let (s2, a) = sj.step_spec(nows[j]);
    assert(run(s, upto).1 == acts.push(a));
    assert(run(s, nows).1[j] == a);
}

proof fn lemma_run_position(s: Scheduler, nows: Seq<u64>)
    requires
        s.wf(),
        s.position == 0,
    ensures
        run(s, nows).0.n_queries == s.n_queries,
        run(s, nows).0.position == (nows.len() as int) % (s.n_queries + 1),
    decreases nows.len(),
{
    let c = s.n_queries + 1;
    if nows.len() == 0 {
        vstd::arithmetic::div_mod::lemma_fundamental_div_mod_converse(0, c, 0, 0);
    } else {
        let prev = nows.drop_last();
        lemma_run_position(s, prev);
        let k = prev.len() as int;
        assert(nows.len() == k + 1);
        let q = k / c;
        let r = k % c;
        assert(k == q * c + r && 0 <= r < c) by {
            vstd::arithmetic::div_mod::lemma_fundamental_div_mod(k, c);
            vstd::arithmetic::div_mod::lemma_mod_bound(k, c);
        }
        let s1 = run(s, prev).0;
        assert(s1.position == r);
        assert(run(s, nows).0 == s1.step_spec(nows.last()).0);
        if r < s.n_queries {
            vstd::arithmetic::div_mod::lemma_fundamental_div_mod_converse(k + 1, c, q, r + 1);
        } else {
            assert((q + 1) * c == q * c + c) by (nonlinear_arith);
            vstd::arithmetic::div_mod::lemma_fundamental_div_mod_converse(k + 1, c, q + 1, 0);
        }
    }
}

/// Each sweep calls every query once, in the order given, and then waits:
/// from the start of a sweep, decision `i` is the call for query
/// `i mod (n + 1)`, or the wait for the next sweep when that is `n`.
pub proof fn lemma_sweep_order(s: Scheduler, nows: Seq<u64>, i: int)
    requires
        s.wf(),
        s.position == 0,
        0 <= i < nows.len(),
    ensures
        i % (s.n_queries + 1) < s.n_queries ==> (run(s, nows).1[i] matches Action::Fetch { index, .. }
            && index == i % (s.n_queries + 1)),
        i % (s.n_queries + 1) == s.n_queries ==> run(s, nows).1[i] is Sleep,
{
    let before = nows.subrange(0, i);
    let upto = nows.subrange(0, i + 1);
    lemma_run_prefix(s, nows, i + 1);
    lemma_run_position(s, before);
    assert(upto.drop_last() =~= before);
    let (si, acts) = run(s, before);
    let (s2, a) = si.step_spec(upto.last());
    assert(run(s, upto).1 == acts.push(a));
    lemma_run_len(s, before);
    assert(run(s, nows).1[i] == a);
    assert(0 <= i % (s.n_queries + 1) <= s.n_queries) by {
        vstd::arithmetic::div_mod::lemma_mod_bound(i, s.n_queries + 1);
    }
}

/// Deciding at a prefix of the times gives a prefix of the actions.
proof fn lemma_run_prefix(s: Scheduler, nows: Seq<u64>, k: int)
    requires
        0 <= k <= nows.len(),
    ensures
        run(s, nows.subrange(0, k)).1.len() == k,
        forall|i: int| 0 <= i < k ==> #[trigger] run(s, nows).1[i] == run(s, nows.subrange(0, k)).1[i],
    decreases nows.len(),
{
    if nows.len() > 0 {
        if k == nows.len() {
            assert(nows.subrange(0, k) =~= nows);
            lemma_run_prefix(s, nows.drop_last(), k - 1);
        } else {
            lemma_run_prefix(s, nows.drop_last(), k);
            assert(nows.drop_last().subrange(0, k) =~= nows.subrange(0, k));
        }
        lemma_run_len(s, nows.drop_last());
    }
}

proof fn lemma_run_len(s: Scheduler, nows: Seq<u64>)
    ensures
        run(s, nows).1.len() == nows.len(),
    decreases nows.len(),
{
    if nows.len() > 0 {
        lemma_run_len(s, nows.drop_last());
    }
}

} // verus!
