use vstd::prelude::*;

use crate::address::Address;
use crate::daily_xp::DailyXpState;
use crate::streak::StreakState;

verus! {

/// Longest course identifier, in bytes.
pub const MAX_COURSE_ID_LEN: usize = 32;

/// Platform-wide settings: who administers the platform, who certifies lesson
/// completions, which token pays rewards, and the reward caps.
#[derive(Clone, Copy, Debug)]
pub struct Config {
    pub authority: Address,
    pub backend_signer: Address,
    pub xp_mint: Address,
    pub max_daily_xp: u32,
    pub max_achievement_xp: u32,
    pub reserved: [u8; 32],
    pub bump: u8,
}

/// A course definition.
#[derive(Clone, Debug)]
pub struct Course {
    pub course_id: String,
    pub creator: Address,
    pub authority: Address,
    /// Digest of the course content.
    pub content_tx_id: [u8; 32],
    pub version: u16,
    pub lesson_count: u8,
    pub difficulty: u8,
    pub xp_per_lesson: u32,
    pub track_id: u16,
    pub track_level: u8,
    /// Address of a course the learner must have completed first.
    pub prerequisite: Option<Address>,
    pub completion_bonus_xp: u32,
    pub creator_reward_xp: u32,
    pub min_completions_for_reward: u16,
    pub total_completions: u32,
    pub total_enrollments: u32,
    pub is_active: bool,
    pub created_at: i64,
    pub updated_at: i64,
    pub reserved: [u8; 16],
    pub bump: u8,
}

/// The record of one learner in one course.
#[derive(Clone, Copy, Debug)]
pub struct Enrollment {
    /// Address of the course.
    pub course: Address,
    pub learner: Address,
    /// The course version at enrollment time.
    pub enrolled_version: u16,
    pub enrolled_at: i64,
    /// Set once, when the course is finalized for this learner.
    pub completed_at: Option<i64>,
    /// One bit per lesson index.
    pub lesson_flags: [u64; 4],
    pub credential_asset: Option<Address>,
    pub bonus_claimed: bool,
    pub reserved: [u8; 7],
    pub bump: u8,
}

/// Engagement state of one learner.
#[derive(Clone, Copy, Debug)]
pub struct LearnerProfile {
    pub authority: Address,
    pub streak: StreakState,
    pub daily_xp: DailyXpState,
    pub streak_freezes: u8,
    pub achievement_flags: [u64; 4],
    pub referral_count: u16,
    pub has_referrer: bool,
    pub reserved: [u8; 16],
    pub bump: u8,
}

/// Byte length of a string in UTF-8, as `str::len` reports it.
pub open spec fn byte_len(s: Seq<char>) -> int {
    (vstd::utf8::encode_utf8(s).len() as usize) as int
}

/// A fresh learner profile: every counter at zero.
pub fn new_learner_profile(learner: Address, bump: u8) -> (r: LearnerProfile)
    ensures
        r.authority == learner,
        r.bump == bump,
        r.streak == (StreakState { current_streak: 0, longest_streak: 0, last_activity_ts: 0 }),
        r.daily_xp == (DailyXpState { xp_earned_today: 0, last_xp_day: 0 }),
        r.streak_freezes == 0,
        r.achievement_flags@ == seq![0u64, 0u64, 0u64, 0u64],
        r.referral_count == 0,
        !r.has_referrer,
        r.reserved@ == Seq::new(16, |i: int| 0u8),
{
    let r = LearnerProfile {
        authority: learner,
        streak: StreakState { current_streak: 0, longest_streak: 0, last_activity_ts: 0 },
        daily_xp: DailyXpState { xp_earned_today: 0, last_xp_day: 0 },
        streak_freezes: 0,
        achievement_flags: [0u64; 4],
        referral_count: 0,
        has_referrer: false,
        reserved: [0u8; 16],
        bump,
    };
    assert(r.achievement_flags@ =~= seq![0u64, 0u64, 0u64, 0u64]);
    assert(r.reserved@ =~= Seq::new(16, |i: int| 0u8));
    r
}

} // verus!
