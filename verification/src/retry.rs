use vstd::prelude::*;

use vstd::arithmetic::div_mod::{lemma_div_is_ordered, lemma_div_multiples_vanish};
use vstd::arithmetic::mul::lemma_mul_inequality;

use crate::error::{is_fatal, spec_is_fatal, FailureKind};

verus! {

/// A bounded exponential backoff schedule: a pure configuration value from
/// which successive wait durations are derived. Durations are in
/// milliseconds; the jitter half-width and the growth factor are in
/// thousandths, so a factor of 1500 grows each interval by half and a
/// randomization of 150 spreads each wait by up to 15 percent either way.
#[derive(Clone, Copy, PartialEq, Eq, Structural, Debug)]
pub struct RetrySchedule {
    /// The first wait, in milliseconds.
    pub initial_interval_ms: u64,
    /// Jitter half-width, in thousandths of the interval.
    pub randomization_permille: u64,
    /// Growth per attempt, in thousandths; 1000 means no growth.
    pub multiplier_permille: u64,
    /// Cap on a single nominal wait, in milliseconds.
    pub max_interval_ms: u64,
    /// Total budget: once this much time has elapsed since the first
    /// attempt, the operation gives up.
    pub max_elapsed_ms: u64,
}

impl RetrySchedule {
    /// A schedule is usable when waits never shrink (growth at least
    /// 1000 permille), the jitter stays within the interval itself, the
    /// first wait is positive and within the cap, and the cap leaves room
    /// for the jittered wait to be counted in milliseconds.
    pub open spec fn wf(self) -> bool {
        &&& self.multiplier_permille >= 1000
        &&& self.randomization_permille <= 1000
        &&& 1 <= self.initial_interval_ms
        &&& self.initial_interval_ms <= self.max_interval_ms
        &&& self.max_interval_ms <= u64::MAX / 2
    }

    /// The reference schedule: first wait 500 ms, 15 percent jitter, growth
    /// by half each attempt, 5 s cap, 120 s total budget.
    pub fn new() -> (s: RetrySchedule)
        ensures
            s.initial_interval_ms == 500,
            s.randomization_permille == 150,
            s.multiplier_permille == 1500,
            s.max_interval_ms == 5000,
            s.max_elapsed_ms == 120_000,
            s.wf(),
    {
        RetrySchedule {
            initial_interval_ms: 500,
            randomization_permille: 150,
            multiplier_permille: 1500,
            max_interval_ms: 5000,
            max_elapsed_ms: 120_000,
        }
    }
}

impl Default for RetrySchedule {
    fn default() -> (s: RetrySchedule)
        ensures
            s.initial_interval_ms == 500,
            s.randomization_permille == 150,
            s.multiplier_permille == 1500,
            s.max_interval_ms == 5000,
            s.max_elapsed_ms == 120_000,
            s.wf(),
    {
        RetrySchedule::new()
    }
}

/// The nominal interval that follows `cur`: grown by the schedule's factor
/// and clipped at the cap.
pub open spec fn spec_grown(s: RetrySchedule, cur: int) -> int {
    let g = cur * s.multiplier_permille / 1000;
    if g > s.max_interval_ms {
        s.max_interval_ms as int
    } else {
        g
    }
}

/// A wait spread by jitter: the interval scaled by a factor drawn from
/// `[1000 - randomization, 1000 + randomization]` permille. The draw is
/// handed in as `draw_permille` over `[0, 2 * randomization]`.
pub open spec fn spec_jittered(interval: int, randomization_permille: int, draw_permille: int) -> int {
    interval * (1000 - randomization_permille + draw_permille) / 1000
}

/// Computes the nominal interval that follows `cur`: grown by the
/// schedule's factor, clipped at the cap, never below its predecessor.
pub fn next_interval(s: &RetrySchedule, cur: u64) -> (r: u64)
    requires
        s.wf(),
        cur <= s.max_interval_ms,
    ensures
        r == spec_grown(*s, cur as int),
        cur <= r <= s.max_interval_ms,
{
    proof {
        lemma_backoff_growth(*s, cur as int);
        assert((cur as int) * (s.multiplier_permille as int) <= u128::MAX) by (nonlinear_arith)
            requires
                cur <= u64::MAX,
                s.multiplier_permille <= u64::MAX,
        ;
    }
    let prod: u128 = (cur as u128) * (s.multiplier_permille as u128);
    let g: u128 = prod / 1000;
    if g > s.max_interval_ms as u128 {
        s.max_interval_ms
    } else {
        g as u64
    }
}

/// Computes the jittered wait for one interval, from a random draw in
/// `[0, 2 * randomization]` permille supplied by the caller. The result
/// stays within the jitter band around the interval and below twice it.
pub fn jittered_wait(s: &RetrySchedule, interval: u64, draw_permille: u64) -> (r: u64)
    requires
        s.wf(),
        interval <= s.max_interval_ms,
        draw_permille <= 2 * s.randomization_permille,
    ensures
        r == spec_jittered(interval as int, s.randomization_permille as int, draw_permille as int),
        r <= 2 * interval,
{
    proof {
        lemma_jitter_bounds(*s, interval as int, draw_permille as int);
        assert((interval as int) * 2000 <= u128::MAX) by (nonlinear_arith)
            requires
                interval <= u64::MAX,
        ;
    }
    let factor: u64 = 1000 - s.randomization_permille + draw_permille;
    let prod: u128 = (interval as u128) * (factor as u128);
    (prod / 1000) as u64
}

/// The jittered wait never leaves `[0, 2 * interval]`.
proof fn lemma_jitter_bounds(s: RetrySchedule, interval: int, draw_permille: int)
    requires
        s.wf(),
        0 <= interval,
        0 <= draw_permille <= 2 * s.randomization_permille,
    ensures
        0 <= spec_jittered(interval, s.randomization_permille as int, draw_permille) <= 2
            * interval,
{
    let factor = 1000 - s.randomization_permille + draw_permille;
    assert(0 <= factor <= 2000);
    lemma_mul_inequality(0, interval, factor);
    lemma_mul_inequality(factor, 2000, interval);
    assert(interval * factor == factor * interval) by (nonlinear_arith);
    assert(interval * 2000 == 1000 * (2 * interval)) by (nonlinear_arith);
    lemma_div_is_ordered(0, interval * factor, 1000);
    lemma_div_is_ordered(interval * factor, interval * 2000, 1000);
    lemma_div_multiples_vanish(2 * interval, 1000);
}

/// Backoff growth: the nominal interval that follows a lawful one is never
/// smaller and never passes the cap — successive nominal waits are
/// non-decreasing up to the configured cap.
pub proof fn lemma_backoff_growth(s: RetrySchedule, cur: int)
    requires
        s.wf(),
        0 <= cur <= s.max_interval_ms,
    ensures
        cur <= spec_grown(s, cur) <= s.max_interval_ms,
{
    lemma_mul_inequality(1000, s.multiplier_permille as int, cur);
    assert(cur * 1000 == 1000 * cur) by (nonlinear_arith);
    assert(1000 * cur <= cur * s.multiplier_permille) by {
        assert(cur * 1000 <= cur * s.multiplier_permille) by (nonlinear_arith)
            requires
                0 <= cur,
                1000 <= s.multiplier_permille,
        ;
    }
    lemma_div_is_ordered(1000 * cur, cur * s.multiplier_permille, 1000);
    lemma_div_multiples_vanish(cur, 1000);
}

/// What the retry driver must do after one failed attempt.
#[derive(Clone, Copy, PartialEq, Eq, Structural, Debug)]
pub enum RetryDecision {
    /// Stop at once and surface the failure: retrying cannot heal it.
    Abort,
    /// The retry budget is spent: surface the last transient failure.
    GiveUp,
    /// Sleep for `wait_ms`, then try again, carrying `next_interval_ms`
    /// into the following decision.
    RetryAfter { wait_ms: u64, next_interval_ms: u64 },
}

/// The decision after one failed attempt: abort on a fatal failure, give up
/// on a transient one once the elapsed time has passed the budget, and
/// otherwise wait out the jittered current interval and grow it.
pub open spec fn spec_retry_decision(
    s: RetrySchedule,
    kind: FailureKind,
    elapsed_ms: u64,
    interval_ms: u64,
    draw_permille: u64,
) -> RetryDecision {
    if spec_is_fatal(kind) {
        RetryDecision::Abort
    } else if elapsed_ms > s.max_elapsed_ms {
        RetryDecision::GiveUp
    } else {
        RetryDecision::RetryAfter {
            wait_ms: spec_jittered(
                interval_ms as int,
                s.randomization_permille as int,
                draw_permille as int,
            ) as u64,
            next_interval_ms: spec_grown(s, interval_ms as int) as u64,
        }
    }
}

/// Decides what follows one failed attempt. `elapsed_ms` is the time since
/// the first attempt began, `interval_ms` the current nominal interval, and
/// `draw_permille` a random draw in `[0, 2 * randomization]` supplied by
/// the caller. A fatal failure aborts; a transient one retries exactly as
/// long as the elapsed time is within the budget, with the wait jittered
/// around the interval and the interval grown toward the cap.
pub fn retry_decision(
    s: &RetrySchedule,
    kind: FailureKind,
    elapsed_ms: u64,
    interval_ms: u64,
    draw_permille: u64,
) -> (d: RetryDecision)
    requires
        s.wf(),
        1 <= interval_ms <= s.max_interval_ms,
        draw_permille <= 2 * s.randomization_permille,
    ensures
        d == spec_retry_decision(*s, kind, elapsed_ms, interval_ms, draw_permille),
        d is Abort <==> spec_is_fatal(kind),
        !spec_is_fatal(kind) ==> (d is GiveUp <==> elapsed_ms > s.max_elapsed_ms),
        d is RetryAfter ==> elapsed_ms <= s.max_elapsed_ms,
        d matches RetryDecision::RetryAfter { wait_ms, next_interval_ms } ==> {
            &&& wait_ms <= 2 * s.max_interval_ms
            &&& interval_ms <= next_interval_ms <= s.max_interval_ms
        },
{
    if is_fatal(kind) {
        RetryDecision::Abort
    } else if elapsed_ms > s.max_elapsed_ms {
        RetryDecision::GiveUp
    } else {
        let wait_ms = jittered_wait(s, interval_ms, draw_permille);
        let next_interval_ms = next_interval(s, interval_ms);
        RetryDecision::RetryAfter { wait_ms, next_interval_ms }
    }
}

/// Backoff bound: a wait is granted only while the elapsed time is within
/// the budget, and every granted wait is at most twice the cap (the cap
/// widened by the jitter allowance) — so a continuously failing transient
/// operation gives up no later than the budget plus one jittered interval
/// of wall-clock time.
pub proof fn lemma_backoff_total_bound(
    s: RetrySchedule,
    kind: FailureKind,
    elapsed_ms: u64,
    interval_ms: u64,
    draw_permille: u64,
)
    requires
        s.wf(),
        1 <= interval_ms <= s.max_interval_ms,
        draw_permille <= 2 * s.randomization_permille,
        spec_retry_decision(s, kind, elapsed_ms, interval_ms, draw_permille) is RetryAfter,
    ensures
        elapsed_ms <= s.max_elapsed_ms,
        elapsed_ms + spec_retry_decision(
            s,
            kind,
            elapsed_ms,
            interval_ms,
            draw_permille,
        )->RetryAfter_wait_ms <= s.max_elapsed_ms + 2 * s.max_interval_ms,
{
    lemma_jitter_bounds(s, interval_ms as int, draw_permille as int);
}

} // verus!
