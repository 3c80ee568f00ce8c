//! A repeating countdown timer measured in whole nanoseconds.
//!
//! The timer accumulates elapsed time; every time the accumulator reaches the
//! interval it counts one completed cycle and keeps the remainder, so a single
//! large delta can complete several cycles at once.

use vstd::prelude::*;

verus! {

/// A repeating countdown with a fixed positive interval. On each tick it
/// reports how many cycle boundaries were crossed and keeps the remainder
/// toward the next boundary.
#[derive(Clone, Copy, PartialEq, Eq, Debug)]
pub struct RepeatingTimer {
    /// Length of one cycle, in nanoseconds; always positive.
    pub interval_ns: u64,
    /// Time accumulated toward the next completion; always below the interval.
    pub elapsed_ns: u64,
}

impl RepeatingTimer {
    /// A timer is well formed when its interval is positive and its
    /// accumulator has not yet reached the next boundary.
    pub open spec fn wf(self) -> bool {
        0 < self.interval_ns && self.elapsed_ns < self.interval_ns
    }

    /// Number of cycle boundaries crossed when `delta_ns` more nanoseconds pass.
    pub open spec fn cycles_after(self, delta_ns: u64) -> int {
        (self.elapsed_ns + delta_ns) / self.interval_ns as int
    }

    /// Accumulator left over after `delta_ns` more nanoseconds pass.
    pub open spec fn carry_after(self, delta_ns: u64) -> int {
        (self.elapsed_ns + delta_ns) % self.interval_ns as int
    }

    /// The timer as it stands after one tick of `delta_ns`.
    pub open spec fn ticked(self, delta_ns: u64) -> RepeatingTimer {
        RepeatingTimer { elapsed_ns: self.carry_after(delta_ns) as u64, ..self }
    }

    /// A fresh repeating timer with the given interval and an empty accumulator.
    pub fn new(interval_ns: u64) -> (t: RepeatingTimer)
        requires
            0 < interval_ns,
        ensures
            t.wf(),
            t.interval_ns == interval_ns,
            t.elapsed_ns == 0,
    {
        RepeatingTimer { interval_ns, elapsed_ns: 0 }
    }

    /// Advance the timer by `delta_ns` nanoseconds and return how many cycles
    /// completed during this tick; the remainder stays in the accumulator.
    pub fn tick(&mut self, delta_ns: u64) -> (completions: u64)
        requires
            old(self).wf(),
            old(self).elapsed_ns + delta_ns <= u64::MAX,
        ensures
            final(self).wf(),
            *final(self) == old(self).ticked(delta_ns),
            final(self).interval_ns == old(self).interval_ns,
            final(self).elapsed_ns == old(self).carry_after(delta_ns),
            completions == old(self).cycles_after(delta_ns),
    {
        let total: u64 = self.elapsed_ns + delta_ns;
        let completions: u64 = total / self.interval_ns;
        self.elapsed_ns = total % self.interval_ns;
        completions
    }
}

/// Total of a sequence of nanosecond deltas, as a mathematical integer.
pub open spec fn sum_ns(deltas: Seq<u64>) -> int
    decreases deltas.len(),
{
    if deltas.len() == 0 {
        0
    } else {
        deltas[0] + sum_ns(deltas.drop_first())
    }
}

/// The timer left after ticking once per delta, in order.
pub open spec fn timer_after_run(t: RepeatingTimer, deltas: Seq<u64>) -> RepeatingTimer
    decreases deltas.len(),
{
    if deltas.len() == 0 {
        t
    } else {
        timer_after_run(t.ticked(deltas[0]), deltas.drop_first())
    }
}

/// Total number of cycle completions reported across the run.
pub open spec fn cycles_in_run(t: RepeatingTimer, deltas: Seq<u64>) -> int
    decreases deltas.len(),
{
    if deltas.len() == 0 {
        0
    } else {
        t.cycles_after(deltas[0]) + cycles_in_run(t.ticked(deltas[0]), deltas.drop_first())
    }
}

/// A sum of unsigned deltas is never negative.
pub proof fn lemma_sum_ns_nonneg(deltas: Seq<u64>)
    ensures
        0 <= sum_ns(deltas),
    decreases deltas.len(),
{
    if deltas.len() > 0 {
        lemma_sum_ns_nonneg(deltas.drop_first());
    }
}

/// Law: however a span of time is split into frame deltas, the timer ends in
/// the same state, and the completions it reports add up to exactly the number
/// of interval boundaries the total elapsed time crossed. In particular the
/// count never exceeds `(elapsed_ns + sum) / interval_ns`.
pub proof fn lemma_run_closed_form(t: RepeatingTimer, deltas: Seq<u64>)
    requires
        t.wf(),
    ensures
        timer_after_run(t, deltas).wf(),
        timer_after_run(t, deltas).interval_ns == t.interval_ns,
        timer_after_run(t, deltas).elapsed_ns == (t.elapsed_ns + sum_ns(deltas)) % t.interval_ns as int,
        cycles_in_run(t, deltas) == (t.elapsed_ns + sum_ns(deltas)) / t.interval_ns as int,
    decreases deltas.len(),
{
    let iv = t.interval_ns as int;
    let e = t.elapsed_ns as int;
    if deltas.len() == 0 {
        vstd::arithmetic::div_mod::lemma_small_mod(t.elapsed_ns as nat, t.interval_ns as nat);
        vstd::arithmetic::div_mod::lemma_basic_div(e, iv);
    } else {
        let d0 = deltas[0] as int;
        let rest = deltas.drop_first();
        let t1 = t.ticked(deltas[0]);
        vstd::arithmetic::div_mod::lemma_mod_bound(e + d0, iv);
        assert(t1.wf());
        lemma_run_closed_form(t1, rest);
        lemma_sum_ns_nonneg(rest);
        let s = sum_ns(rest);
        let q1 = (e + d0) / iv;
        let e1 = (e + d0) % iv;
        let q2 = (e1 + s) / iv;
        let r = (e1 + s) % iv;
        vstd::arithmetic::div_mod::lemma_fundamental_div_mod(e + d0, iv);
        vstd::arithmetic::div_mod::lemma_fundamental_div_mod(e1 + s, iv);
        vstd::arithmetic::div_mod::lemma_mod_bound(e1 + s, iv);
        assert(iv * q1 + iv * q2 == iv * (q1 + q2)) by (nonlinear_arith);
        assert(e + d0 + s == (q1 + q2) * iv + r) by (nonlinear_arith)
            requires
                e + d0 == iv * q1 + e1,
                e1 + s == iv * q2 + r,
        ;
        vstd::arithmetic::div_mod::lemma_fundamental_div_mod_converse(e + d0 + s, iv, q1 + q2, r);
    }
}

/// Law: a run that starts on a cycle boundary (empty accumulator) completes
/// exactly `floor(sum / interval)` cycles — one per boundary crossed, never more.
pub proof fn lemma_fresh_run_counts_boundaries(t: RepeatingTimer, deltas: Seq<u64>)
    requires
        t.wf(),
        t.elapsed_ns == 0,
    ensures
        cycles_in_run(t, deltas) == sum_ns(deltas) / t.interval_ns as int,
{
    lemma_run_closed_form(t, deltas);
}

/// Law: a run from a fresh timer whose deltas sum to exactly `k` whole
/// intervals completes exactly `k` cycles.
pub proof fn lemma_whole_intervals_complete_exactly(t: RepeatingTimer, deltas: Seq<u64>, k: int)
    requires
        t.wf(),
        t.elapsed_ns == 0,
        0 <= k,
        sum_ns(deltas) == k * t.interval_ns,
    ensures
        cycles_in_run(t, deltas) == k,
{
    lemma_run_closed_form(t, deltas);
    vstd::arithmetic::div_mod::lemma_div_by_multiple(k, t.interval_ns as int);
}

} // verus!
