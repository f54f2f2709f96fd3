use vstd::prelude::*;

use crate::errors::AcademyError;

verus! {

/// Seconds in a calendar day.
pub const SECONDS_PER_DAY: i64 = 86400;

/// The day a timestamp falls in: `floor(ts / 86400)`.
pub open spec fn day_of(ts: int) -> int {
    ts / 86400
}

/// The day index of a unix timestamp, rounding towards negative infinity.
pub fn day_index(ts: i64) -> (r: i64)
    ensures
        r as int == day_of(ts as int),
{
    if ts >= 0 {
        let d = (ts as u64 / 86400u64) as i64;
        d
    } else {
        let m: i64 = -(ts + 1);
        let q: i64 = (m as u64 / 86400u64) as i64;
        proof {
            let mi = m as int;
            let qi = q as int;
            let ri = mi % 86400;
            assert(mi == qi * 86400 + ri && 0 <= ri < 86400) by (nonlinear_arith)
                requires
                    qi == mi / 86400,
                    ri == mi % 86400,
                    mi >= 0,
            ;
            assert(ts as int == (-qi - 1) * 86400 + (86400 - ri - 1));
            vstd::arithmetic::div_mod::lemma_fundamental_div_mod_converse(
                ts as int,
                86400,
                -qi - 1,
                86400 - ri - 1,
            );
        }
        -q - 1
    }
}

/// Consecutive-day activity of a learner.
#[derive(Clone, Copy, Debug, PartialEq, Eq, Structural)]
pub struct StreakState {
    pub current_streak: u16,
    pub longest_streak: u16,
    /// Timestamp of the last recorded activity.
    pub last_activity_ts: i64,
}

/// Streak lengths that are celebrated with a milestone event.
pub open spec fn milestone(streak: int) -> bool {
    streak == 7 || streak == 30 || streak == 100 || streak == 365
}

pub fn is_milestone(streak: u16) -> (r: bool)
    ensures
        r == milestone(streak as int),
{
    streak == 7 || streak == 30 || streak == 100 || streak == 365
}

/// The streak length after activity at `now`, before the overflow check:
/// unchanged on the same (or an earlier) day, one more on the next day, and
/// back to one after a longer gap.
pub open spec fn next_streak(s: StreakState, now: int) -> int {
    let today = day_of(now);
    let last = day_of(s.last_activity_ts as int);
    if today <= last {
        s.current_streak as int
    } else if today == last + 1 {
        s.current_streak + 1
    } else {
        1
    }
}

/// Whether recording activity at `now` would take the streak past `u16::MAX`.
pub open spec fn streak_overflows(s: StreakState, now: int) -> bool {
    day_of(now) > day_of(s.last_activity_ts as int) && next_streak(s, now) > u16::MAX
}

/// The streak state after activity at `now`, when it does not overflow: on a
/// new day the streak moves as `next_streak` says, the longest streak is the
/// running maximum and the activity time is `now`; on the same day nothing
/// changes.
pub open spec fn streak_after(s: StreakState, now: int) -> StreakState {
    if day_of(now) > day_of(s.last_activity_ts as int) {
        let n = next_streak(s, now);
        StreakState {
            current_streak: n as u16,
            longest_streak: if n > s.longest_streak {
                n as u16
            } else {
                s.longest_streak
            },
            last_activity_ts: now as i64,
        }
    } else {
        s
    }
}

/// Whether activity at `now` moves the streak to a milestone length.
pub open spec fn reaches_milestone(s: StreakState, now: int) -> bool {
    day_of(now) > day_of(s.last_activity_ts as int) && milestone(next_streak(s, now))
}

/// Records activity at `now`. Returns whether the streak reached a milestone
/// length on this call.
pub fn update_streak(state: &mut StreakState, now: i64) -> (r: Result<bool, AcademyError>)
    ensures
        streak_overflows(*old(state), now as int) ==> r == Err::<bool, AcademyError>(
            AcademyError::Overflow,
        ) && *final(state) == *old(state),
        !streak_overflows(*old(state), now as int) ==> r == Ok::<bool, AcademyError>(
            reaches_milestone(*old(state), now as int),
        ) && *final(state) == streak_after(*old(state), now as int),
{
    let today = day_index(now);
    let last_day = day_index(state.last_activity_ts);
    if today <= last_day {
        return Ok(false);
    }
    let next: u16 = if today - last_day == 1 {
        match state.current_streak.checked_add(1) {
            Some(v) => v,
            None => {
                return Err(AcademyError::Overflow);
            },
        }
    } else {
        1
    };
    state.current_streak = next;
    if next > state.longest_streak {
        state.longest_streak = next;
    }
    state.last_activity_ts = now;
    Ok(is_milestone(next))
}

/// The longest streak is a running maximum: if it bounds the current streak
/// before an update, it still does after, and it never shrinks.
pub proof fn lemma_longest_bounds_current(s: StreakState, now: i64)
    requires
        s.longest_streak >= s.current_streak,
        !streak_overflows(s, now as int),
    ensures
        streak_after(s, now as int).longest_streak >= streak_after(s, now as int).current_streak,
        streak_after(s, now as int).longest_streak >= s.longest_streak,
{
}

/// Streak moves by calendar day: from a streak of 3 (longest 5) last active on
/// day `d`, activity later on day `d` leaves (3, 5), activity on day `d + 1`
/// gives (4, 5), and activity on day `d + 3` starts over at (1, 5).
pub proof fn lemma_streak_by_day(s: StreakState, now: i64)
    requires
        s.current_streak == 3,
        s.longest_streak == 5,
    ensures
        ({
            let today = day_of(now as int);
            let last = day_of(s.last_activity_ts as int);
            let n = streak_after(s, now as int);
            &&& !streak_overflows(s, now as int)
            &&& today == last ==> n.current_streak == 3 && n.longest_streak == 5
            &&& today == last + 1 ==> n.current_streak == 4 && n.longest_streak == 5
            &&& today == last + 3 ==> n.current_streak == 1 && n.longest_streak == 5
        }),
{
}

} // verus!
