//! When the periodic ATR refresh of an instrument runs, and which bars it reads.
use vstd::prelude::*;
use crate::decider::{MarketInfo, MINUTE};

verus! {

/// First refresh this long after the open.
pub const ATR_START_AFTER_OPEN: i64 = 15 * MINUTE;

/// Time between refreshes.
pub const ATR_PERIOD: i64 = 30 * MINUTE;

/// Refreshes stop this long before the close.
pub const ATR_STOP_BEFORE_CLOSE: i64 = 5 * MINUTE;

/// Length of the bar window an ATR refresh reads.
pub const ATR_WINDOW: i64 = 15 * MINUTE;

/// The timing of an instrument's ATR refreshes, in UTC seconds.
#[derive(Clone, Copy, Debug, PartialEq, Eq, Structural)]
pub struct AtrSchedule {
    pub first_tick: i64,
    pub period: i64,
    pub stop_at: i64,
}

/// Ticks start fifteen minutes after the open, or now if that has passed, and
/// repeat every thirty minutes until five minutes before the close. A market
/// already past that point gets no schedule.
pub open spec fn atr_schedule_spec(info: MarketInfo, now: int) -> Option<AtrSchedule> {
    let stop_at = info.utc_close_time - ATR_STOP_BEFORE_CLOSE;
    let start = info.utc_open_time + ATR_START_AFTER_OPEN;
    if now > stop_at {
        None
    } else {
        Some(
            AtrSchedule {
                first_tick: (if now < start { start } else { now }) as i64,
                period: ATR_PERIOD,
                stop_at: stop_at as i64,
            },
        )
    }
}

impl AtrSchedule {
    pub fn for_market(info: &MarketInfo, now: i64) -> (r: Option<AtrSchedule>)
        ensures
            r == atr_schedule_spec(*info, now as int),
    {
        let stop_at = info.utc_close_time as i128 - ATR_STOP_BEFORE_CLOSE as i128;
        let start = info.utc_open_time as i128 + ATR_START_AFTER_OPEN as i128;
        if now as i128 > stop_at {
            None
        } else {
            let first_tick: i64 = if (now as i128) < start {
                start as i64
            } else {
                now
            };
            Some(AtrSchedule { first_tick, period: ATR_PERIOD, stop_at: stop_at as i64 })
        }
    }
}

/// The window of bars an ATR refresh at `now`, a time after the epoch, reads:
/// the fifteen minutes before the start of the current minute.
pub fn atr_fetch_window(now: i64) -> (r: (i64, i64))
    requires
        now >= 0,
    ensures
        r.0 == now - (now % MINUTE) - ATR_WINDOW,
        r.1 == ATR_WINDOW,
{
    let minute_start = (now as u64 - now as u64 % MINUTE as u64) as i64;
    (minute_start - ATR_WINDOW, ATR_WINDOW)
}

} // verus!
