//! The tick rate, the tick period and the deadline schedule.
//!
//! Time is counted in whole nanoseconds on a monotonic clock whose origin the
//! caller chooses.

use vstd::prelude::*;

verus! {

/// The rate that stands for a requested rate of 0.
pub const DEFAULT_RATE_HZ: u32 = 30;

/// The highest rate that is served.
pub const MAX_RATE_HZ: u32 = 240;

/// Nanoseconds in a second.
pub const NANOS_PER_SECOND: u64 = 1_000_000_000;

/// The rate that is served for a requested rate: 30 Hz for a request of 0,
/// else the request, capped at 240 Hz.
pub open spec fn served_rate(requested_hz: u32) -> u32 {
    if requested_hz == 0 {
        DEFAULT_RATE_HZ
    } else if requested_hz > MAX_RATE_HZ {
        MAX_RATE_HZ
    } else {
        requested_hz
    }
}

/// The rate that is served for a requested rate.
pub fn effective_rate(requested_hz: u32) -> (rate: u32)
    ensures
        rate == served_rate(requested_hz),
        1 <= rate <= MAX_RATE_HZ,
{
    if requested_hz == 0 {
        DEFAULT_RATE_HZ
    } else if requested_hz > MAX_RATE_HZ {
        MAX_RATE_HZ
    } else {
        requested_hz
    }
}

/// Whether `period` is the whole number of nanoseconds nearest to one second
/// divided by `rate`, a half counting upwards.
pub open spec fn is_period_of(period: int, rate: int) -> bool {
    2 * period * rate - rate <= 2 * NANOS_PER_SECOND < 2 * period * rate + rate
}

/// The tick period of a rate, in nanoseconds.
pub open spec fn period_of(rate: int) -> int
    recommends
        rate > 0,
{
    (2 * NANOS_PER_SECOND + rate) / (2 * rate)
}

/// `period_of` gives the nearest whole number of nanoseconds, and no other
/// number is nearest.
pub proof fn lemma_period_nearest(rate: int, other: int)
    requires
        rate > 0,
    ensures
        is_period_of(period_of(rate), rate),
        is_period_of(other, rate) ==> other == period_of(rate),
{
    let n = 2 * NANOS_PER_SECOND + rate;
    let d = 2 * rate;
    let q = n / d;
    assert(n == d * q + n % d && 0 <= n % d < d) by {
        vstd::arithmetic::div_mod::lemma_fundamental_div_mod(n, d);
        vstd::arithmetic::div_mod::lemma_mod_bound(n, d);
    }
    assert(d * q == 2 * q * rate) by (nonlinear_arith)
        requires
            d == 2 * rate,
    ;
    if is_period_of(other, rate) {
        assert(other == q) by (nonlinear_arith)
            requires
                rate > 0,
                2 * other * rate - rate <= n - rate < 2 * other * rate + rate,
                2 * q * rate - rate <= n - rate < 2 * q * rate + rate,
        ;
    }
}

/// The tick period, in nanoseconds, for a requested rate: one second divided
/// by the served rate, to the nearest nanosecond.
pub fn tick_period_nanos(requested_hz: u32) -> (period: u64)
    ensures
        period == period_of(served_rate(requested_hz) as int),
        is_period_of(period as int, served_rate(requested_hz) as int),
        period > 0,
{
    let rate: u64 = effective_rate(requested_hz) as u64;
    proof {
        lemma_period_nearest(rate as int, 0);
    }
    let period: u64 = (2 * NANOS_PER_SECOND + rate) / (2 * rate);
    assert(period > 0) by (nonlinear_arith)
        requires
            1 <= rate <= 240,
            2 * period * rate + rate > 2_000_000_000,
    ;
    period
}

/// The schedule of one sender loop: the period, and the deadline of the tick
/// that is due next.
#[derive(Clone, Copy, Debug, PartialEq, Eq, Structural)]
pub struct Pacer {
    pub period: u64,
    pub deadline: u64,
}

/// The deadline after a tick that ended at `now`: the previous deadline plus
/// one period while that still lies ahead, else `now` itself. Missed ticks are
/// dropped, never made up in a burst.
pub open spec fn next_deadline(deadline: int, period: int, now: int) -> int {
    if deadline + period > now {
        deadline + period
    } else {
        now
    }
}

/// The deadline after a run of ticks that ended at the instants `nows`.
pub open spec fn deadline_after(deadline: int, period: int, nows: Seq<int>) -> int
    decreases nows.len(),
{
    if nows.len() == 0 {
        deadline
    } else {
        next_deadline(deadline_after(deadline, period, nows.drop_last()), period, nows.last())
    }
}

/// Whether each tick of a run ended before its own next deadline.
pub open spec fn all_on_time(deadline: int, period: int, nows: Seq<int>) -> bool
    decreases nows.len(),
{
    nows.len() > 0 ==> {
        &&& all_on_time(deadline, period, nows.drop_last())
        &&& nows.last() < deadline_after(deadline, period, nows.drop_last()) + period
    }
}

impl Pacer {
    /// The schedule of a loop that starts at `now`: the first tick is due at
    /// once.
    pub fn start(requested_hz: u32, now: u64) -> (p: Pacer)
        ensures
            p.period == period_of(served_rate(requested_hz) as int),
            is_period_of(p.period as int, served_rate(requested_hz) as int),
            p.period > 0,
            p.deadline == now,
    {
        Pacer { period: tick_period_nanos(requested_hz), deadline: now }
    }

    /// Moves the schedule on after a tick that ended at `now`, and says how
    /// long to sleep.
    ///
    /// The deadline moves by one period from the previous deadline, not from
    /// `now`, so a late tick shortens the sleep and no delay adds up. A tick
    /// that ran past the new deadline sets the schedule back to `now` and
    /// sleeps not at all.
    pub fn advance(&mut self, now: u64) -> (sleep_nanos: u64)
        requires
            old(self).deadline + old(self).period <= u64::MAX,
        ensures
            final(self).period == old(self).period,
            final(self).deadline == next_deadline(
                old(self).deadline as int,
                old(self).period as int,
                now as int,
            ),
            sleep_nanos == final(self).deadline - now,
    {
        let next: u64 = self.deadline + self.period;
        if next > now {
            self.deadline = next;
            next - now
        } else {
            self.deadline = now;
            0
        }
    }
}

/// No drift: over a run of ticks that each ended on time, the deadline has
/// moved by exactly one period per tick, however unevenly the ticks ended.
pub proof fn lemma_no_drift(deadline: int, period: int, nows: Seq<int>)
    requires
        all_on_time(deadline, period, nows),
    ensures
        deadline_after(deadline, period, nows) == deadline + nows.len() * period,
    decreases nows.len(),
{
    if nows.len() > 0 {
        lemma_no_drift(deadline, period, nows.drop_last());
        assert(deadline + (nows.len() - 1) * period + period == deadline + nows.len() * period)
            by (nonlinear_arith);
    }
}

/// Steady cadence. A request of 0 is served at 30 Hz and any other at the
/// request itself, up to 240 Hz. While the ticks end on time, the `n`-th
/// deadline lies `n` periods after the start, so the mean interval between
/// ticks is the period; and the time that `n` ticks take differs from `n`
/// seconds divided by the rate by at most half a nanosecond per tick.
pub proof fn lemma_steady_cadence(requested_hz: u32, start: int, nows: Seq<int>)
    requires
        all_on_time(start, period_of(served_rate(requested_hz) as int), nows),
    ensures
        requested_hz == 0 ==> served_rate(requested_hz) == 30,
        0 < requested_hz <= 240 ==> served_rate(requested_hz) == requested_hz,
        ({
            let rate = served_rate(requested_hz) as int;
            let elapsed = deadline_after(start, period_of(rate), nows) - start;
            let n = nows.len() as int;
            &&& elapsed == n * period_of(rate)
            &&& -(n * rate) <= 2 * (n * NANOS_PER_SECOND - elapsed * rate) <= n * rate
        }),
{
    let rate = served_rate(requested_hz) as int;
    let period = period_of(rate);
    let n = nows.len() as int;
    lemma_no_drift(start, period, nows);
    lemma_period_nearest(rate, 0);
    let slack = 2 * NANOS_PER_SECOND - 2 * period * rate;
    assert(-rate <= slack <= rate);
    assert(2 * (n * NANOS_PER_SECOND - (n * period) * rate) == n * slack) by (nonlinear_arith)
        requires
            slack == 2 * NANOS_PER_SECOND - 2 * period * rate,
    ;
    assert(-(n * rate) <= n * slack <= n * rate) by (nonlinear_arith)
        requires
            n >= 0,
            -rate <= slack <= rate,
    ;
}

/// No burst: after a tick that ran past its deadline, the next tick is due at
/// the instant the late one ended, and from there the schedule is regular
/// again.
pub proof fn lemma_overrun_resets(deadline: int, period: int, now: int)
    requires
        deadline + period <= now,
    ensures
        next_deadline(deadline, period, now) == now,
{
}

} // verus!
