//! Boundary arithmetic on UNIX-epoch millisecond timestamps.
//!
//! A boundary of a period is a timestamp that is an exact multiple of the
//! period, counted from the epoch. Everything here is a pure function of the
//! timestamps handed in; nothing reads a clock.

use crate::error::TimingError;
use crate::timelength::{get_timelength_in_ms, Timelength};
use vstd::arithmetic::div_mod::{
    lemma_fundamental_div_mod, lemma_fundamental_div_mod_converse, lemma_mod_bound,
    lemma_mod_multiples_basic, lemma_small_mod,
};
use vstd::prelude::*;

verus! {

/// The latest boundary of `period` at or before `ts`.
pub open spec fn last_boundary(ts: int, period: int) -> int {
    ts - ts % period
}

/// The window between the two latest boundaries of `period` at or before `ts`,
/// as `(start, end)`.
pub open spec fn last_interval(ts: int, period: int) -> (int, int) {
    (last_boundary(ts, period) - period, last_boundary(ts, period))
}

/// `(start, end)` is a window of `period`: it ends on a boundary and is one
/// period long.
pub open spec fn is_interval(period: int, start: int, end: int) -> bool {
    end % period == 0 && end - start == period
}

/// No boundary of `period` lies after `earlier` and at or before `later`.
pub open spec fn no_boundary_between(period: int, earlier: int, later: int) -> bool {
    forall|b: int| earlier < b <= later ==> #[trigger] (b % period) != 0
}

/// How long to wait at `ts` for the next boundary of `period` shifted by
/// `additional`. While the shifted boundary of the running period is still
/// ahead, that one is waited for; otherwise the one of the next period.
pub open spec fn time_to_wait(ts: int, period: int, additional: int) -> int {
    let time_after = ts % period;
    if time_after < additional {
        additional - time_after
    } else {
        period - time_after + additional
    }
}

/// The latest boundary at or before a timestamp is a multiple of the period,
/// is not after the timestamp, and lies less than one period before it.
pub proof fn lemma_last_boundary_aligned(ts: int, period: int)
    requires
        period > 0,
    ensures
        last_boundary(ts, period) % period == 0,
        last_boundary(ts, period) <= ts < last_boundary(ts, period) + period,
{
    lemma_fundamental_div_mod(ts, period);
    lemma_mod_bound(ts, period);
    lemma_mod_multiples_basic(ts / period, period);
    assert(last_boundary(ts, period) == (ts / period) * period) by (nonlinear_arith)
        requires
            ts == period * (ts / period) + ts % period,
            last_boundary(ts, period) == ts - ts % period,
    ;
}

/// The latest boundary at or before `ts` is the only boundary that is not after
/// `ts` and less than one period before it.
pub proof fn lemma_last_boundary_unique(ts: int, period: int, b: int)
    requires
        period > 0,
        b % period == 0,
        b <= ts < b + period,
    ensures
        last_boundary(ts, period) == b,
{
    lemma_fundamental_div_mod(b, period);
    assert(ts == (b / period) * period + (ts - b)) by (nonlinear_arith)
        requires
            b == period * (b / period) + b % period,
            b % period == 0,
    ;
    lemma_fundamental_div_mod_converse(ts, period, b / period, ts - b);
}

/// The window reported at any timestamp is a window of the period, and it has
/// closed by then: its end is not after the timestamp.
pub proof fn lemma_last_interval_is_interval(ts: int, period: int)
    requires
        period > 0,
    ensures
        is_interval(period, last_interval(ts, period).0, last_interval(ts, period).1),
        last_interval(ts, period).1 <= ts,
{
    lemma_last_boundary_aligned(ts, period);
}

/// Exactly on the boundary `k * period` the window that has just closed is
/// reported, from `(k - 1) * period` to `k * period`; the period that begins
/// there is left out.
pub proof fn lemma_last_interval_on_boundary(k: int, period: int)
    requires
        period > 0,
    ensures
        last_interval(k * period, period) == ((k - 1) * period, k * period),
{
    lemma_mod_multiples_basic(k, period);
    assert((k - 1) * period == k * period - period) by (nonlinear_arith);
}

/// Two timestamps with no boundary crossed between them report the same
/// window.
pub proof fn lemma_last_interval_stable(period: int, earlier: int, later: int)
    requires
        period > 0,
        earlier <= later,
        no_boundary_between(period, earlier, later),
    ensures
        last_interval(earlier, period) == last_interval(later, period),
{
    let b = last_boundary(later, period);
    lemma_last_boundary_aligned(later, period);
    if earlier < b {
        assert(b % period != 0);
    }
    lemma_last_boundary_unique(earlier, period, b);
}

/// A wait for a shifted boundary is never empty and never longer than one
/// period, or than the shift where that is longer; it ends on a boundary plus
/// the shift.
pub proof fn lemma_time_to_wait_lands_on_shifted_boundary(ts: int, period: int, additional: int)
    requires
        period > 0,
        additional >= 0,
    ensures
        0 < time_to_wait(ts, period, additional),
        time_to_wait(ts, period, additional) <= period || time_to_wait(ts, period, additional)
            <= additional,
        (ts + time_to_wait(ts, period, additional) - additional) % period == 0,
{
    lemma_last_boundary_aligned(ts, period);
    let b = last_boundary(ts, period);
    if ts % period < additional {
        assert(ts + time_to_wait(ts, period, additional) - additional == b);
    } else {
        assert(ts + time_to_wait(ts, period, additional) - additional == b + period);
        lemma_fundamental_div_mod(b, period);
        assert(b + period == (b / period + 1) * period) by (nonlinear_arith)
            requires
                b == period * (b / period) + b % period,
                b % period == 0,
        ;
        lemma_mod_multiples_basic(b / period + 1, period);
    }
}

/// Without a shift the wait runs to the next boundary strictly after the
/// timestamp: a whole period when the timestamp is itself a boundary.
pub proof fn lemma_time_to_wait_without_shift(ts: int, period: int)
    requires
        period > 0,
    ensures
        time_to_wait(ts, period, 0) == last_boundary(ts, period) + period - ts,
        ts % period == 0 ==> time_to_wait(ts, period, 0) == period,
{
    lemma_mod_bound(ts, period);
}

/// What a wait amounts to: how long to suspend, and the timestamp that the
/// wait reports to its caller.
#[derive(Debug, PartialEq, Eq, Structural, Clone, Copy)]
pub struct Wait {
    /// Milliseconds to suspend for; `None` where the caller is not to suspend
    /// at all.
    pub delay_ms: Option<u128>,
    /// The timestamp reported once the wait is over. It is derived from the
    /// clock reading taken before the wait, never from a second reading.
    pub timestamp_ms: u128,
}

impl Wait {
    /// The delay as a 64-bit timer takes it: the low 64 bits of `delay_ms`,
    /// which is all of it for any delay below 2^64 ms.
    pub fn sleep_ms(&self) -> (ms: Option<u64>)
        ensures
            ms == match self.delay_ms {
                Some(delay) => Some((delay % 0x1_0000_0000_0000_0000) as u64),
                None => None,
            },
            self.delay_ms matches Some(delay) ==> delay <= u64::MAX ==> ms == Some(delay as u64),
    {
        match self.delay_ms {
            Some(delay) => Some((delay % 0x1_0000_0000_0000_0000u128) as u64),
            None => None,
        }
    }
}

/// The latest boundary of `timelength` at or before `ts`.
pub fn boundary_at_or_before(ts: u128, timelength: Timelength) -> (end: u128)
    ensures
        end == last_boundary(ts as int, timelength.millis()),
        end as int % timelength.millis() == 0,
        end <= ts < end + timelength.millis(),
{
    let period: u128 = get_timelength_in_ms(timelength);
    proof {
        lemma_last_boundary_aligned(ts as int, period as int);
    }
    ts - ts % period
}

/// The most recent complete interval of `timelength` at the timestamp `ts`:
/// the window that ends on the latest boundary at or before `ts`. There is
/// none while `ts` lies in the first period after the epoch, since that window
/// would begin before the epoch.
pub fn interval_before(ts: u128, timelength: Timelength) -> (window: Result<
    (u128, u128),
    TimingError,
>)
    ensures
        ts < timelength.millis() ==> window == Err::<(u128, u128), TimingError>(
            TimingError::NoCompleteInterval,
        ),
        ts >= timelength.millis() ==> window is Ok,
        window matches Ok((start, end)) ==> (start as int, end as int) == last_interval(
            ts as int,
            timelength.millis(),
        ),
{
    let period: u128 = get_timelength_in_ms(timelength);
    let end: u128 = boundary_at_or_before(ts, timelength);
    proof {
        if end < period {
            lemma_small_mod(end as nat, period as nat);
        }
    }
    if end < period {
        Err(TimingError::NoCompleteInterval)
    } else {
        Ok((end - period, end))
    }
}

/// Plans a wait until the absolute timestamp `target_ts_ms`, read at the clock
/// reading `now`. A target that has already passed asks for no suspension.
/// Either way the wait reports `now`.
pub fn plan_wait_until(now: u128, target_ts_ms: u128) -> (wait: Wait)
    ensures
        wait.timestamp_ms == now,
        target_ts_ms < now ==> wait.delay_ms is None,
        target_ts_ms >= now ==> wait.delay_ms == Some((target_ts_ms - now) as u128),
{
    if target_ts_ms < now {
        Wait { delay_ms: None, timestamp_ms: now }
    } else {
        Wait { delay_ms: Some(target_ts_ms - now), timestamp_ms: now }
    }
}

/// Plans a wait until the next boundary of `timelength` plus `additional_ms`,
/// read at the clock reading `now`. The wait reports `now` plus the delay.
/// There is no plan where that timestamp does not fit in 128 bits.
pub fn plan_wait_until_timelength(now: u128, timelength: Timelength, additional_ms: u128) -> (wait:
    Option<Wait>)
    ensures
        ({
            let delay = time_to_wait(now as int, timelength.millis(), additional_ms as int);
            &&& wait is Some <==> now + delay <= u128::MAX
            &&& wait matches Some(w) ==> w.delay_ms == Some(delay as u128) && w.timestamp_ms == now
                + delay
        }),
{
    let period: u128 = get_timelength_in_ms(timelength);
    let time_after: u128 = now % period;
    proof {
        lemma_mod_bound(now as int, period as int);
    }
    let delay: u128 = if time_after < additional_ms {
        additional_ms - time_after
    } else {
        period - time_after + additional_ms
    };
    match now.checked_add(delay) {
        Some(timestamp_ms) => Some(Wait { delay_ms: Some(delay), timestamp_ms }),
        None => None,
    }
}

} // verus!
