use superteam_academy::daily_xp::{check_daily_xp, DailyXpState};
use superteam_academy::errors::AcademyError;

#[test]
fn daily_xp_new_day_resets() {
    let mut state = DailyXpState {
        xp_earned_today: 500,
        last_xp_day: 100,
    };
    // Day 101 => reset
    let result = check_daily_xp(&mut state, 1000, 50, 86400 * 101);
    assert_eq!(result, Ok(50));
    assert_eq!(state.xp_earned_today, 50);
    assert_eq!(state.last_xp_day, 101);
}

#[test]
fn daily_xp_same_day_accumulates() {
    let mut state = DailyXpState {
        xp_earned_today: 0,
        last_xp_day: 100,
    };
    let _ = check_daily_xp(&mut state, 1000, 200, 86400 * 100);
    assert_eq!(state.xp_earned_today, 200);

    let _ = check_daily_xp(&mut state, 1000, 300, 86400 * 100);
    assert_eq!(state.xp_earned_today, 500);
}

#[test]
fn daily_xp_at_cap_succeeds() {
    let mut state = DailyXpState {
        xp_earned_today: 900,
        last_xp_day: 100,
    };
    let result = check_daily_xp(&mut state, 1000, 100, 86400 * 100);
    assert_eq!(result, Ok(1000));
    assert_eq!(state.xp_earned_today, 1000);
}

#[test]
fn daily_xp_exceeds_cap_fails() {
    let mut state = DailyXpState {
        xp_earned_today: 900,
        last_xp_day: 100,
    };
    let result = check_daily_xp(&mut state, 1000, 101, 86400 * 100);
    assert_eq!(result, Err(AcademyError::DailyCapExceeded));
    // state should NOT be updated on failure
    assert_eq!(state.xp_earned_today, 900);
}

#[test]
fn daily_xp_overflow_handling() {
    let mut state = DailyXpState {
        xp_earned_today: u32::MAX,
        last_xp_day: 100,
    };
    let result = check_daily_xp(&mut state, u32::MAX, 1, 86400 * 100);
    assert_eq!(result, Err(AcademyError::Overflow));
}

#[test]
fn daily_xp_zero_amount() {
    let mut state = DailyXpState {
        xp_earned_today: 500,
        last_xp_day: 100,
    };
    let result = check_daily_xp(&mut state, 1000, 0, 86400 * 100);
    assert_eq!(result, Ok(500));
}

#[test]
fn daily_xp_reset_then_full_cap() {
    let mut state = DailyXpState {
        xp_earned_today: 999,
        last_xp_day: 100,
    };
    // New day, earn full cap
    let result = check_daily_xp(&mut state, 1000, 1000, 86400 * 101);
    assert_eq!(result, Ok(1000));
    // One more should fail
    let result2 = check_daily_xp(&mut state, 1000, 1, 86400 * 101);
    assert_eq!(result2, Err(AcademyError::DailyCapExceeded));
}

#[test]
fn daily_xp_cap_scenario_same_and_next_day() {
    let start = DailyXpState {
        xp_earned_today: 900,
        last_xp_day: 100,
    };

    let mut exact = start;
    assert_eq!(check_daily_xp(&mut exact, 1000, 100, 86400 * 100 + 1), Ok(1000));
    assert_eq!(exact.xp_earned_today, 1000);

    let mut over = start;
    assert_eq!(
        check_daily_xp(&mut over, 1000, 101, 86400 * 100 + 1),
        Err(AcademyError::DailyCapExceeded)
    );
    assert_eq!(over, start);

    let mut next_day = start;
    assert_eq!(check_daily_xp(&mut next_day, 1000, 100, 86400 * 101 + 5), Ok(100));
    assert_eq!(next_day.xp_earned_today, 100);
    assert_eq!(next_day.last_xp_day, 101);
}

#[test]
fn daily_xp_refused_on_new_day_keeps_old_day() {
    let mut state = DailyXpState {
        xp_earned_today: 700,
        last_xp_day: 100,
    };
    let before = state;
    assert_eq!(
        check_daily_xp(&mut state, 1000, 1001, 86400 * 105),
        Err(AcademyError::DailyCapExceeded)
    );
    assert_eq!(state, before);
}
