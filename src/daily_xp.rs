use vstd::prelude::*;

use crate::errors::AcademyError;
use crate::streak::{day_index, day_of};

verus! {

/// Reward accrued by a learner on the current day.
#[derive(Clone, Copy, Debug, PartialEq, Eq, Structural)]
pub struct DailyXpState {
    pub xp_earned_today: u32,
    /// Day index of the last accrual.
    pub last_xp_day: i64,
}

/// What counts as already earned today: nothing once a new day has begun.
pub open spec fn earned_before(s: DailyXpState, now: int) -> int {
    if day_of(now) > s.last_xp_day {
        0
    } else {
        s.xp_earned_today as int
    }
}

/// The day's total if `amount` is accrued at `now`.
pub open spec fn daily_total(s: DailyXpState, amount: int, now: int) -> int {
    earned_before(s, now) + amount
}

/// The error that accruing `amount` at `now` under the cap `max` reports, if
/// any: an overflow of the total first, then the cap.
pub open spec fn daily_error(s: DailyXpState, max: int, amount: int, now: int) -> Option<AcademyError> {
    if daily_total(s, amount, now) > u32::MAX {
        Some(AcademyError::Overflow)
    } else if daily_total(s, amount, now) > max {
        Some(AcademyError::DailyCapExceeded)
    } else {
        None
    }
}

/// The state after a successful accrual: the new total, and the day moved
/// forward to today when a new day has begun.
pub open spec fn daily_after(s: DailyXpState, amount: int, now: int) -> DailyXpState {
    DailyXpState {
        xp_earned_today: daily_total(s, amount, now) as u32,
        last_xp_day: if day_of(now) > s.last_xp_day {
            day_of(now) as i64
        } else {
            s.last_xp_day
        },
    }
}

/// Accrues `xp_amount` at `now` under the cap `max_daily_xp` and returns the
/// new total for the day. A request past the cap is refused, not clamped, and
/// a refused request leaves the state exactly as it was.
pub fn check_daily_xp(state: &mut DailyXpState, max_daily_xp: u32, xp_amount: u32, now: i64) -> (r:
    Result<u32, AcademyError>)
    ensures
        match daily_error(*old(state), max_daily_xp as int, xp_amount as int, now as int) {
            Some(e) => r == Err::<u32, AcademyError>(e) && *final(state) == *old(state),
            None => r == Ok::<u32, AcademyError>(
                daily_total(*old(state), xp_amount as int, now as int) as u32,
            ) && *final(state) == daily_after(*old(state), xp_amount as int, now as int),
        },
{
    let today = day_index(now);
    let base: u32 = if today > state.last_xp_day {
        0
    } else {
        state.xp_earned_today
    };
    let new_total = match base.checked_add(xp_amount) {
        Some(v) => v,
        None => {
            return Err(AcademyError::Overflow);
        },
    };
    if new_total > max_daily_xp {
        return Err(AcademyError::DailyCapExceeded);
    }
    if today > state.last_xp_day {
        state.last_xp_day = today;
    }
    state.xp_earned_today = new_total;
    Ok(new_total)
}

/// The cap is a hard limit that starts over each day: with 900 of 1000
/// already earned today, 100 more is granted and makes 1000, 101 more is
/// refused and leaves the state as it was, and on a later day 100 is granted
/// and makes 100.
pub proof fn lemma_daily_cap_by_day(s: DailyXpState, now: i64)
    requires
        s.xp_earned_today == 900,
    ensures
        ({
            let today = day_of(now as int);
            let granted = daily_after(s, 100, now as int);
            &&& today == s.last_xp_day ==> daily_error(s, 1000, 100, now as int) is None
                && granted.xp_earned_today == 1000
            &&& today == s.last_xp_day ==> daily_error(s, 1000, 101, now as int) == Some(
                AcademyError::DailyCapExceeded,
            )
            &&& today > s.last_xp_day ==> daily_error(s, 1000, 100, now as int) is None
                && granted.xp_earned_today == 100 && granted.last_xp_day == today
        }),
{
}

} // verus!
