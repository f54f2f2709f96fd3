use vstd::prelude::*;

use crate::address::Address;
use crate::bitmap::{
    bitmap_count_ones, bitmap_is_set, bitmap_set, flag_set, lemma_popcount_of_first, popcount,
};
use crate::daily_xp::{check_daily_xp, daily_after, daily_error};
use crate::errors::AcademyError;
use crate::state::{Config, Course, Enrollment, LearnerProfile};
use crate::streak::{reaches_milestone, streak_after, streak_overflows, update_streak};

verus! {

/// Seconds an unfinished enrollment must exist before it may be closed.
pub const CLOSE_COOLDOWN_SECONDS: i64 = 86400;

/// Whether `prerequisite` is a finalized enrollment of `learner` in the course
/// at address `course`.
pub open spec fn prerequisite_met(course: Address, learner: Address, prerequisite: Option<Enrollment>) -> bool {
    prerequisite matches Some(p) && p.course@ == course@ && p.learner@ == learner@
        && p.completed_at is Some
}

/// The error that `enroll` reports, if any.
pub open spec fn enroll_error(course: Course, learner: Address, prerequisite: Option<Enrollment>) -> Option<
    AcademyError,
> {
    if !course.is_active {
        Some(AcademyError::CourseNotActive)
    } else if course.prerequisite matches Some(p) && !prerequisite_met(p, learner, prerequisite) {
        Some(AcademyError::PrerequisiteNotMet)
    } else if course.total_enrollments == u32::MAX {
        Some(AcademyError::Overflow)
    } else {
        None
    }
}

/// Whether a bitmap has no lesson marked.
pub open spec fn no_lessons(flags: [u64; 4]) -> bool {
    flags@ == seq![0u64, 0u64, 0u64, 0u64]
}

/// The record that `enroll` creates for `learner` in `course`.
pub open spec fn fresh_enrollment(
    e: Enrollment,
    course: Course,
    course_key: Address,
    learner: Address,
    now: i64,
    bump: u8,
) -> bool {
    &&& e.course == course_key
    &&& e.learner == learner
    &&& e.enrolled_version == course.version
    &&& e.enrolled_at == now
    &&& e.completed_at is None
    &&& no_lessons(e.lesson_flags)
    &&& e.credential_asset is None
    &&& !e.bonus_claimed
    &&& e.reserved@ == Seq::new(7, |i: int| 0u8)
    &&& e.bump == bump
}

/// Enrolls `learner` in the course at address `course_key`. When the course
/// names a prerequisite, `prerequisite` must be the learner's finalized
/// enrollment in it. On success the course counts one more enrollment and the
/// new record starts with no lesson completed.
pub fn enroll(
    course: &mut Course,
    course_key: &Address,
    learner: &Address,
    prerequisite: Option<Enrollment>,
    now: i64,
    bump: u8,
) -> (r: Result<Enrollment, AcademyError>)
    ensures
        match enroll_error(*old(course), *learner, prerequisite) {
            Some(e) => r == Err::<Enrollment, AcademyError>(e) && *final(course) == *old(course),
            None => r matches Ok(e) && fresh_enrollment(e, *old(course), *course_key, *learner, now, bump)
                && *final(course) == (Course {
                total_enrollments: (old(course).total_enrollments + 1) as u32,
                ..*old(course)
            }),
        },
{
    if !course.is_active {
        return Err(AcademyError::CourseNotActive);
    }
    if let Some(p) = course.prerequisite {
        match prerequisite {
            Some(pe) => {
                if !pe.course.same_as(&p) || !pe.learner.same_as(learner) || pe.completed_at.is_none() {
                    return Err(AcademyError::PrerequisiteNotMet);
                }
            },
            None => {
                return Err(AcademyError::PrerequisiteNotMet);
            },
        }
    }
    let total = match course.total_enrollments.checked_add(1) {
        Some(v) => v,
        None => {
            return Err(AcademyError::Overflow);
        },
    };
    course.total_enrollments = total;
    let e = Enrollment {
        course: *course_key,
        learner: *learner,
        enrolled_version: course.version,
        enrolled_at: now,
        completed_at: None,
        lesson_flags: [0u64; 4],
        credential_asset: None,
        bonus_claimed: false,
        reserved: [0u8; 7],
        bump,
    };
    assert(e.lesson_flags@ =~= seq![0u64, 0u64, 0u64, 0u64]);
    assert(e.reserved@ =~= Seq::new(7, |i: int| 0u8));
    Ok(e)
}

/// What a completed lesson yields: the reward to mint to the learner, and
/// whether the learner's streak reached a milestone length.
#[derive(Clone, Copy, Debug, PartialEq, Eq, Structural)]
pub struct LessonOutcome {
    pub xp_earned: u32,
    pub streak_milestone: bool,
}

/// The error that `complete_lesson` reports, if any, in the order the checks
/// are made.
pub open spec fn complete_lesson_error(
    config: Config,
    course: Course,
    course_key: Address,
    enrollment: Enrollment,
    profile: LearnerProfile,
    signer: Address,
    lesson_index: u8,
    now: int,
) -> Option<AcademyError> {
    if enrollment.course@ != course_key@ {
        Some(AcademyError::EnrollmentCourseMismatch)
    } else if lesson_index >= course.lesson_count {
        Some(AcademyError::LessonOutOfBounds)
    } else if flag_set(enrollment.lesson_flags, lesson_index as int) {
        Some(AcademyError::LessonAlreadyCompleted)
    } else if signer@ != config.backend_signer@ || profile.authority@ != enrollment.learner@ {
        Some(AcademyError::Unauthorized)
    } else if daily_error(
        profile.daily_xp,
        config.max_daily_xp as int,
        course.xp_per_lesson as int,
        now,
    ) is Some {
        daily_error(profile.daily_xp, config.max_daily_xp as int, course.xp_per_lesson as int, now)
    } else if streak_overflows(profile.streak, now) {
        Some(AcademyError::Overflow)
    } else {
        None
    }
}

/// `after` is `before` with lesson `lesson_index` marked and nothing else
/// changed.
pub open spec fn lesson_recorded(before: Enrollment, after: Enrollment, lesson_index: u8) -> bool {
    &&& forall|j: int|
        0 <= j < 256 ==> #[trigger] flag_set(after.lesson_flags, j) == (j == lesson_index
            || flag_set(before.lesson_flags, j))
    &&& after == (Enrollment { lesson_flags: after.lesson_flags, ..before })
}

/// The learner profile after a completed lesson of `course` at `now`: the
/// lesson's reward accrued for the day and the day's activity in the streak.
pub open spec fn profile_after_lesson(p: LearnerProfile, course: Course, now: int) -> LearnerProfile {
    LearnerProfile {
        daily_xp: daily_after(p.daily_xp, course.xp_per_lesson as int, now),
        streak: streak_after(p.streak, now),
        ..p
    }
}

/// Marks lesson `lesson_index` as completed on the backend signer's word
/// (`profile` must be the enrolled learner's),
/// accrues the lesson's reward under the daily cap and records the day's
/// activity in the streak. Either all of that happens or, on an error, none.
pub fn complete_lesson(
    config: &Config,
    course: &Course,
    course_key: &Address,
    enrollment: &mut Enrollment,
    profile: &mut LearnerProfile,
    signer: &Address,
    lesson_index: u8,
    now: i64,
) -> (r: Result<LessonOutcome, AcademyError>)
    ensures
        match complete_lesson_error(
            *config,
            *course,
            *course_key,
            *old(enrollment),
            *old(profile),
            *signer,
            lesson_index,
            now as int,
        ) {
            Some(e) => r == Err::<LessonOutcome, AcademyError>(e) && *final(enrollment) == *old(
                enrollment,
            ) && *final(profile) == *old(profile),
            None => {
                &&& r == Ok::<LessonOutcome, AcademyError>(
                    LessonOutcome {
                        xp_earned: course.xp_per_lesson,
                        streak_milestone: reaches_milestone(old(profile).streak, now as int),
                    },
                )
                &&& lesson_recorded(*old(enrollment), *final(enrollment), lesson_index)
                &&& *final(profile) == profile_after_lesson(*old(profile), *course, now as int)
            },
        },
        flag_set(old(enrollment).lesson_flags, lesson_index as int) ==> r is Err && *final(enrollment)
            == *old(enrollment) && *final(profile) == *old(profile),
{
    if !enrollment.course.same_as(course_key) {
        return Err(AcademyError::EnrollmentCourseMismatch);
    }
    if lesson_index >= course.lesson_count {
        return Err(AcademyError::LessonOutOfBounds);
    }
    if bitmap_is_set(&enrollment.lesson_flags, lesson_index) {
        return Err(AcademyError::LessonAlreadyCompleted);
    }
    if !signer.same_as(&config.backend_signer) || !profile.authority.same_as(&enrollment.learner) {
        return Err(AcademyError::Unauthorized);
    }
    let mut daily = profile.daily_xp;
    match check_daily_xp(&mut daily, config.max_daily_xp, course.xp_per_lesson, now) {
        Ok(_) => {},
        Err(e) => {
            return Err(e);
        },
    }
    let mut streak = profile.streak;
    let milestone = match update_streak(&mut streak, now) {
        Ok(m) => m,
        Err(e) => {
            return Err(e);
        },
    };
    bitmap_set(&mut enrollment.lesson_flags, lesson_index);
    profile.daily_xp = daily;
    profile.streak = streak;
    Ok(LessonOutcome { xp_earned: course.xp_per_lesson, streak_milestone: milestone })
}

/// What finalizing a course yields: the reward the learner earned over all
/// lessons, and the reward to mint to the creator (zero when none is due).
#[derive(Clone, Copy, Debug)]
pub struct FinalizeOutcome {
    pub total_xp: u64,
    pub creator: Address,
    pub creator_xp: u32,
}

/// The error that `finalize_course` reports, if any.
pub open spec fn finalize_error(
    config: Config,
    course: Course,
    course_key: Address,
    enrollment: Enrollment,
    signer: Address,
) -> Option<AcademyError> {
    if enrollment.course@ != course_key@ {
        Some(AcademyError::EnrollmentCourseMismatch)
    } else if signer@ != config.backend_signer@ {
        Some(AcademyError::Unauthorized)
    } else if enrollment.completed_at is Some {
        Some(AcademyError::CourseAlreadyFinalized)
    } else if popcount(enrollment.lesson_flags) != course.lesson_count {
        Some(AcademyError::CourseNotCompleted)
    } else if course.total_completions == u32::MAX {
        Some(AcademyError::Overflow)
    } else {
        None
    }
}

/// The creator reward due once a course has `total_completions` completions.
pub open spec fn creator_reward_due(course: Course, total_completions: int) -> u32 {
    if total_completions >= course.min_completions_for_reward && course.creator_reward_xp > 0 {
        course.creator_reward_xp
    } else {
        0
    }
}

/// Finalizes the enrollment once every lesson is marked: records the
/// completion time for good and counts one more completion of the course. The
/// completion bonus is not paid here but by `claim_completion_bonus`.
pub fn finalize_course(
    config: &Config,
    course: &mut Course,
    course_key: &Address,
    enrollment: &mut Enrollment,
    signer: &Address,
    now: i64,
) -> (r: Result<FinalizeOutcome, AcademyError>)
    ensures
        match finalize_error(*config, *old(course), *course_key, *old(enrollment), *signer) {
            Some(e) => r == Err::<FinalizeOutcome, AcademyError>(e) && *final(course) == *old(course)
                && *final(enrollment) == *old(enrollment),
            None => r matches Ok(o) && {
                let total = old(course).total_completions + 1;
                &&& o.total_xp == old(course).lesson_count * old(course).xp_per_lesson
                &&& o.creator == old(course).creator
                &&& o.creator_xp == creator_reward_due(*old(course), total)
                &&& *final(course) == (Course { total_completions: total as u32, ..*old(course) })
                &&& *final(enrollment) == (Enrollment { completed_at: Some(now), ..*old(enrollment) })
            },
        },
{
    if !enrollment.course.same_as(course_key) {
        return Err(AcademyError::EnrollmentCourseMismatch);
    }
    if !signer.same_as(&config.backend_signer) {
        return Err(AcademyError::Unauthorized);
    }
    if enrollment.completed_at.is_some() {
        return Err(AcademyError::CourseAlreadyFinalized);
    }
    let completed = bitmap_count_ones(&enrollment.lesson_flags);
    if completed != course.lesson_count as u32 {
        return Err(AcademyError::CourseNotCompleted);
    }
    let total = match course.total_completions.checked_add(1) {
        Some(v) => v,
        None => {
            return Err(AcademyError::Overflow);
        },
    };
    enrollment.completed_at = Some(now);
    course.total_completions = total;
    let creator_xp: u32 = if total >= course.min_completions_for_reward as u32
        && course.creator_reward_xp > 0 {
        course.creator_reward_xp
    } else {
        0
    };
    let lessons = course.lesson_count as u64;
    let per_lesson = course.xp_per_lesson as u64;
    assert(lessons * per_lesson <= 255 * 0xffff_ffffu64) by (nonlinear_arith)
        requires
            lessons <= 255,
            per_lesson <= 0xffff_ffffu64,
    ;
    Ok(
        FinalizeOutcome {
            total_xp: lessons * per_lesson,
            creator: course.creator,
            creator_xp,
        },
    )
}

/// The error that `claim_completion_bonus` reports, if any.
pub open spec fn claim_error(course_key: Address, enrollment: Enrollment, learner: Address) -> Option<
    AcademyError,
> {
    if enrollment.course@ != course_key@ {
        Some(AcademyError::EnrollmentCourseMismatch)
    } else if enrollment.learner@ != learner@ {
        Some(AcademyError::Unauthorized)
    } else if enrollment.completed_at is None {
        Some(AcademyError::CourseNotFinalized)
    } else if enrollment.bonus_claimed {
        Some(AcademyError::AlreadyClaimed)
    } else {
        None
    }
}

/// Pays the completion bonus of a finalized enrollment, once: returns the
/// bonus to mint to the learner and marks it claimed.
pub fn claim_completion_bonus(
    course: &Course,
    course_key: &Address,
    enrollment: &mut Enrollment,
    learner: &Address,
) -> (r: Result<u32, AcademyError>)
    ensures
        match claim_error(*course_key, *old(enrollment), *learner) {
            Some(e) => r == Err::<u32, AcademyError>(e) && *final(enrollment) == *old(enrollment),
            None => r == Ok::<u32, AcademyError>(course.completion_bonus_xp) && *final(enrollment) == (
            Enrollment { bonus_claimed: true, ..*old(enrollment) }),
        },
{
    if !enrollment.course.same_as(course_key) {
        return Err(AcademyError::EnrollmentCourseMismatch);
    }
    if !enrollment.learner.same_as(learner) {
        return Err(AcademyError::Unauthorized);
    }
    if enrollment.completed_at.is_none() {
        return Err(AcademyError::CourseNotFinalized);
    }
    if enrollment.bonus_claimed {
        return Err(AcademyError::AlreadyClaimed);
    }
    enrollment.bonus_claimed = true;
    Ok(course.completion_bonus_xp)
}

/// The error that `close_enrollment` reports, if any.
pub open spec fn close_error(enrollment: Enrollment, learner: Address, now: int) -> Option<AcademyError> {
    if enrollment.learner@ != learner@ {
        Some(AcademyError::Unauthorized)
    } else if enrollment.completed_at is Some {
        None
    } else if now - enrollment.enrolled_at < i64::MIN || now - enrollment.enrolled_at > i64::MAX {
        Some(AcademyError::Overflow)
    } else if now - enrollment.enrolled_at <= CLOSE_COOLDOWN_SECONDS {
        Some(AcademyError::CooldownNotMet)
    } else {
        None
    }
}

/// Decides whether the learner may close the enrollment and reclaim its
/// storage: at once when it is finalized, otherwise only after the cooldown.
/// Returns whether the enrollment was finalized.
pub fn close_enrollment(enrollment: &Enrollment, learner: &Address, now: i64) -> (r: Result<
    bool,
    AcademyError,
>)
    ensures
        match close_error(*enrollment, *learner, now as int) {
            Some(e) => r == Err::<bool, AcademyError>(e),
            None => r == Ok::<bool, AcademyError>(enrollment.completed_at is Some),
        },
{
    if !enrollment.learner.same_as(learner) {
        return Err(AcademyError::Unauthorized);
    }
    if enrollment.completed_at.is_none() {
        let elapsed = match now.checked_sub(enrollment.enrolled_at) {
            Some(v) => v,
            None => {
                return Err(AcademyError::Overflow);
            },
        };
        if elapsed <= CLOSE_COOLDOWN_SECONDS {
            return Err(AcademyError::CooldownNotMet);
        }
        return Ok(false);
    }
    Ok(true)
}

/// Finalization waits for every lesson: for an unfinalized enrollment of the
/// right course, presented by the backend signer, finalizing is refused
/// exactly when the population count of the bitmap differs from the lesson
/// count; in particular it is granted once lessons `0..lesson_count`, and no
/// others, are marked.
pub proof fn lemma_finalize_needs_every_lesson(
    config: Config,
    course: Course,
    course_key: Address,
    enrollment: Enrollment,
    signer: Address,
)
    requires
        enrollment.course@ == course_key@,
        signer@ == config.backend_signer@,
        enrollment.completed_at is None,
        course.total_completions < u32::MAX,
    ensures
        (finalize_error(config, course, course_key, enrollment, signer) is None) <==> popcount(
            enrollment.lesson_flags,
        ) == course.lesson_count,
        (forall|j: int|
            0 <= j < 256 ==> #[trigger] flag_set(enrollment.lesson_flags, j) == (j
                < course.lesson_count)) ==> finalize_error(
            config,
            course,
            course_key,
            enrollment,
            signer,
        ) is None,
{
    if forall|j: int|
        0 <= j < 256 ==> #[trigger] flag_set(enrollment.lesson_flags, j) == (j < course.lesson_count) {
        lemma_popcount_of_first(enrollment.lesson_flags, course.lesson_count as nat);
    }
}

/// The completion bonus is paid once. Before finalization a claim is refused;
/// once the enrollment is finalized (only `completed_at` changes), a first
/// claim is granted; after a granted claim (only `bonus_claimed` changes),
/// every further claim is refused as already claimed.
pub proof fn lemma_bonus_paid_once(course_key: Address, enrollment: Enrollment, learner: Address, now: i64)
    requires
        enrollment.course@ == course_key@,
        enrollment.learner@ == learner@,
    ensures
        enrollment.completed_at is None ==> claim_error(course_key, enrollment, learner) == Some(
            AcademyError::CourseNotFinalized,
        ),
        !enrollment.bonus_claimed ==> claim_error(
            course_key,
            Enrollment { completed_at: Some(now), ..enrollment },
            learner,
        ) is None,
        claim_error(
            course_key,
            Enrollment { completed_at: Some(now), bonus_claimed: true, ..enrollment },
            learner,
        ) == Some(AcademyError::AlreadyClaimed),
{
}

/// Closing is gated by the cooldown only while the enrollment is unfinished:
/// the learner's unfinalized enrollment cannot be closed within a day of
/// enrolling, and a finalized one can be closed at any time.
pub proof fn lemma_close_after_cooldown_or_finalize(enrollment: Enrollment, learner: Address, now: i64)
    requires
        enrollment.learner@ == learner@,
    ensures
        enrollment.completed_at is None && now - enrollment.enrolled_at <= CLOSE_COOLDOWN_SECONDS
            ==> close_error(enrollment, learner, now as int) is Some,
        enrollment.completed_at is Some ==> close_error(enrollment, learner, now as int) is None,
{
}

} // verus!
