use superteam_academy::errors::AcademyError;
use superteam_academy::streak::{day_index, is_milestone, update_streak, StreakState};

#[test]
fn streak_same_day_noop() {
    let mut state = StreakState {
        current_streak: 3,
        longest_streak: 5,
        last_activity_ts: 86400 * 100, // day 100
    };
    // Same day, different second
    update_streak(&mut state, 86400 * 100 + 3600).unwrap();
    assert_eq!(state.current_streak, 3);
    assert_eq!(state.longest_streak, 5);
}

#[test]
fn streak_consecutive_day_increments() {
    let mut state = StreakState {
        current_streak: 1,
        longest_streak: 1,
        last_activity_ts: 86400 * 100,
    };
    // Next day
    update_streak(&mut state, 86400 * 101).unwrap();
    assert_eq!(state.current_streak, 2);
    assert_eq!(state.longest_streak, 2);
}

#[test]
fn streak_gap_resets_to_one() {
    let mut state = StreakState {
        current_streak: 10,
        longest_streak: 10,
        last_activity_ts: 86400 * 100,
    };
    // Skip a day (day 102, gap = 102 - 100 - 1 = 1 > 0)
    update_streak(&mut state, 86400 * 102).unwrap();
    assert_eq!(state.current_streak, 1);
    assert_eq!(state.longest_streak, 10);
}

#[test]
fn streak_large_gap_resets_to_one() {
    let mut state = StreakState {
        current_streak: 50,
        longest_streak: 50,
        last_activity_ts: 86400 * 100,
    };
    update_streak(&mut state, 86400 * 200).unwrap();
    assert_eq!(state.current_streak, 1);
    assert_eq!(state.longest_streak, 50);
}

#[test]
fn streak_milestone_detection() {
    assert!(is_milestone(7));
    assert!(is_milestone(30));
    assert!(is_milestone(100));
    assert!(is_milestone(365));
    assert!(!is_milestone(1));
    assert!(!is_milestone(6));
    assert!(!is_milestone(8));
    assert!(!is_milestone(29));
    assert!(!is_milestone(31));
    assert!(!is_milestone(99));
    assert!(!is_milestone(366));
}

#[test]
fn streak_longest_updates_only_when_exceeded() {
    let mut state = StreakState {
        current_streak: 3,
        longest_streak: 10,
        last_activity_ts: 86400 * 100,
    };
    update_streak(&mut state, 86400 * 101).unwrap();
    assert_eq!(state.current_streak, 4);
    assert_eq!(state.longest_streak, 10); // unchanged

    // Build streak to 11
    for day in 102..=107 {
        update_streak(&mut state, 86400 * day).unwrap();
    }
    assert_eq!(state.current_streak, 10);
    assert_eq!(state.longest_streak, 10); // still tied

    update_streak(&mut state, 86400 * 108).unwrap();
    assert_eq!(state.current_streak, 11);
    assert_eq!(state.longest_streak, 11); // now updated
}

#[test]
fn streak_rebuild_after_break() {
    let mut state = StreakState {
        current_streak: 5,
        longest_streak: 5,
        last_activity_ts: 86400 * 100,
    };
    // Break streak
    update_streak(&mut state, 86400 * 103).unwrap();
    assert_eq!(state.current_streak, 1);

    // Rebuild
    for day in 104..=110 {
        update_streak(&mut state, 86400 * day).unwrap();
    }
    assert_eq!(state.current_streak, 8);
    assert_eq!(state.longest_streak, 8);
}

#[test]
fn streak_from_zero() {
    let mut state = StreakState {
        current_streak: 0,
        longest_streak: 0,
        last_activity_ts: 0, // epoch
    };
    // First activity on day 100
    update_streak(&mut state, 86400 * 100).unwrap();
    // gap = 100 - 0 - 1 = 99, so streak resets to 1
    assert_eq!(state.current_streak, 1);
    assert_eq!(state.longest_streak, 1);
}

#[test]
fn streak_day_d_plus_zero_one_three() {
    let d: i64 = 19_000;
    let start = StreakState {
        current_streak: 3,
        longest_streak: 5,
        last_activity_ts: 86400 * d + 500,
    };

    let mut same = start;
    assert_eq!(update_streak(&mut same, 86400 * d + 80_000), Ok(false));
    assert_eq!((same.current_streak, same.longest_streak), (3, 5));

    let mut next = start;
    update_streak(&mut next, 86400 * (d + 1)).unwrap();
    assert_eq!((next.current_streak, next.longest_streak), (4, 5));
    assert_eq!(next.last_activity_ts, 86400 * (d + 1));

    let mut gap = start;
    update_streak(&mut gap, 86400 * (d + 3) + 10).unwrap();
    assert_eq!((gap.current_streak, gap.longest_streak), (1, 5));
}

#[test]
fn streak_reports_milestone_when_reached() {
    let mut state = StreakState {
        current_streak: 6,
        longest_streak: 6,
        last_activity_ts: 86400 * 100,
    };
    assert_eq!(update_streak(&mut state, 86400 * 101), Ok(true));
    assert_eq!(state.current_streak, 7);
    assert_eq!(update_streak(&mut state, 86400 * 102), Ok(false));
}

#[test]
fn streak_overflow_is_refused() {
    let mut state = StreakState {
        current_streak: u16::MAX,
        longest_streak: u16::MAX,
        last_activity_ts: 86400 * 100,
    };
    let before = state;
    assert_eq!(update_streak(&mut state, 86400 * 101), Err(AcademyError::Overflow));
    assert_eq!(state, before);
}

#[test]
fn day_index_rounds_down() {
    assert_eq!(day_index(0), 0);
    assert_eq!(day_index(86399), 0);
    assert_eq!(day_index(86400), 1);
    assert_eq!(day_index(-1), -1);
    assert_eq!(day_index(-86400), -1);
    assert_eq!(day_index(-86401), -2);
}
