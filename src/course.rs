use vstd::prelude::*;

use crate::address::{same_bytes, Address};
use crate::errors::AcademyError;
use crate::state::{byte_len, Config, Course, MAX_COURSE_ID_LEN};

verus! {

/// The definition of a new course.
#[derive(Clone, Debug)]
pub struct CreateCourseParams {
    pub course_id: String,
    pub creator: Address,
    pub content_tx_id: [u8; 32],
    pub lesson_count: u8,
    pub difficulty: u8,
    pub xp_per_lesson: u32,
    pub track_id: u16,
    pub track_level: u8,
    pub prerequisite: Option<Address>,
    pub completion_bonus_xp: u32,
    pub creator_reward_xp: u32,
    pub min_completions_for_reward: u16,
}

/// Changes to a course; `None` leaves a field as it is.
#[derive(Clone, Copy, Debug)]
pub struct UpdateCourseParams {
    pub new_content_tx_id: Option<[u8; 32]>,
    pub new_is_active: Option<bool>,
    pub new_authority: Option<Address>,
    pub new_xp_per_lesson: Option<u32>,
    pub new_completion_bonus_xp: Option<u32>,
    pub new_creator_reward_xp: Option<u32>,
    pub new_min_completions_for_reward: Option<u16>,
}

/// The first error that `create_course` reports for these inputs, if any.
pub open spec fn create_course_error(config: Config, caller: Address, params: CreateCourseParams) -> Option<
    AcademyError,
> {
    if caller@ != config.authority@ {
        Some(AcademyError::Unauthorized)
    } else if byte_len(params.course_id@) == 0 || byte_len(params.course_id@) > MAX_COURSE_ID_LEN {
        Some(AcademyError::InvalidId)
    } else if params.lesson_count == 0 {
        Some(AcademyError::InvalidLessonCount)
    } else if params.difficulty < 1 || params.difficulty > 3 {
        Some(AcademyError::InvalidDifficulty)
    } else {
        None
    }
}

/// The course that `create_course` makes from `params`.
pub open spec fn created_course(c: Course, caller: Address, params: CreateCourseParams, now: i64, bump: u8) -> bool {
    &&& c.course_id@ == params.course_id@
    &&& c.creator == params.creator
    &&& c.authority == caller
    &&& c.content_tx_id == params.content_tx_id
    &&& c.version == 1
    &&& c.lesson_count == params.lesson_count
    &&& c.difficulty == params.difficulty
    &&& c.xp_per_lesson == params.xp_per_lesson
    &&& c.track_id == params.track_id
    &&& c.track_level == params.track_level
    &&& c.prerequisite == params.prerequisite
    &&& c.completion_bonus_xp == params.completion_bonus_xp
    &&& c.creator_reward_xp == params.creator_reward_xp
    &&& c.min_completions_for_reward == params.min_completions_for_reward
    &&& c.total_completions == 0
    &&& c.total_enrollments == 0
    &&& c.is_active
    &&& c.created_at == now
    &&& c.updated_at == now
    &&& c.reserved@ == Seq::new(16, |i: int| 0u8)
    &&& c.bump == bump
}

/// Creates a course on behalf of the platform authority, who becomes the
/// course's authority. The course starts at version 1, active, with no
/// enrollments and no completions.
pub fn create_course(config: &Config, caller: &Address, params: CreateCourseParams, now: i64, bump: u8) -> (r:
    Result<Course, AcademyError>)
    ensures
        match create_course_error(*config, *caller, params) {
            Some(e) => r == Err::<Course, AcademyError>(e),
            None => r matches Ok(c) && created_course(c, *caller, params, now, bump),
        },
{
    if !caller.same_as(&config.authority) {
        return Err(AcademyError::Unauthorized);
    }
    let id = params.course_id.as_str();
    let id_len = id.len();
    assert(id_len == byte_len(params.course_id@));
    if id_len == 0 || id_len > MAX_COURSE_ID_LEN {
        return Err(AcademyError::InvalidId);
    }
    if params.lesson_count == 0 {
        return Err(AcademyError::InvalidLessonCount);
    }
    if params.difficulty < 1 || params.difficulty > 3 {
        return Err(AcademyError::InvalidDifficulty);
    }
    let c = Course {
        course_id: params.course_id,
        creator: params.creator,
        authority: *caller,
        content_tx_id: params.content_tx_id,
        version: 1,
        lesson_count: params.lesson_count,
        difficulty: params.difficulty,
        xp_per_lesson: params.xp_per_lesson,
        track_id: params.track_id,
        track_level: params.track_level,
        prerequisite: params.prerequisite,
        completion_bonus_xp: params.completion_bonus_xp,
        creator_reward_xp: params.creator_reward_xp,
        min_completions_for_reward: params.min_completions_for_reward,
        total_completions: 0,
        total_enrollments: 0,
        is_active: true,
        created_at: now,
        updated_at: now,
        reserved: [0u8; 16],
        bump,
    };
    assert(c.reserved@ =~= Seq::new(16, |i: int| 0u8));
    Ok(c)
}

/// Whether `params` replaces the content digest of `course` with another one.
pub open spec fn content_changes(course: Course, params: UpdateCourseParams) -> bool {
    params.new_content_tx_id matches Some(t) && t@ != course.content_tx_id@
}

/// The error that `update_course` reports, if any.
pub open spec fn update_course_error(course: Course, caller: Address, params: UpdateCourseParams) -> Option<
    AcademyError,
> {
    if caller@ != course.authority@ {
        Some(AcademyError::Unauthorized)
    } else if content_changes(course, params) && course.version == u16::MAX {
        Some(AcademyError::Overflow)
    } else {
        None
    }
}

/// The course after a successful update: each field given in `params` takes
/// its new value, the version goes up by one when the content digest
/// changes, and `updated_at` becomes `now`.
pub open spec fn updated_course(c: Course, params: UpdateCourseParams, now: i64) -> Course {
    Course {
        content_tx_id: match params.new_content_tx_id {
            Some(t) => t,
            None => c.content_tx_id,
        },
        version: if content_changes(c, params) {
            (c.version + 1) as u16
        } else {
            c.version
        },
        is_active: match params.new_is_active {
            Some(v) => v,
            None => c.is_active,
        },
        authority: match params.new_authority {
            Some(v) => v,
            None => c.authority,
        },
        xp_per_lesson: match params.new_xp_per_lesson {
            Some(v) => v,
            None => c.xp_per_lesson,
        },
        completion_bonus_xp: match params.new_completion_bonus_xp {
            Some(v) => v,
            None => c.completion_bonus_xp,
        },
        creator_reward_xp: match params.new_creator_reward_xp {
            Some(v) => v,
            None => c.creator_reward_xp,
        },
        min_completions_for_reward: match params.new_min_completions_for_reward {
            Some(v) => v,
            None => c.min_completions_for_reward,
        },
        updated_at: now,
        ..c
    }
}

/// Applies `params` when `caller` is the course authority. The version goes up
/// by one exactly when the content digest changes; `updated_at` is refreshed
/// on every successful update.
pub fn update_course(course: &mut Course, caller: &Address, params: UpdateCourseParams, now: i64) -> (r:
    Result<(), AcademyError>)
    ensures
        match update_course_error(*old(course), *caller, params) {
            Some(e) => r == Err::<(), AcademyError>(e) && *final(course) == *old(course),
            None => r is Ok && *final(course) == updated_course(*old(course), params, now),
        },
{
    if !caller.same_as(&course.authority) {
        return Err(AcademyError::Unauthorized);
    }
    let mut new_version = course.version;
    if let Some(t) = params.new_content_tx_id {
        if !same_bytes(&t, &course.content_tx_id) {
            new_version = match course.version.checked_add(1) {
                Some(v) => v,
                None => {
                    return Err(AcademyError::Overflow);
                },
            };
        }
        course.content_tx_id = t;
    }
    course.version = new_version;
    if let Some(v) = params.new_is_active {
        course.is_active = v;
    }
    if let Some(v) = params.new_authority {
        course.authority = v;
    }
    if let Some(v) = params.new_xp_per_lesson {
        course.xp_per_lesson = v;
    }
    if let Some(v) = params.new_completion_bonus_xp {
        course.completion_bonus_xp = v;
    }
    if let Some(v) = params.new_creator_reward_xp {
        course.creator_reward_xp = v;
    }
    if let Some(v) = params.new_min_completions_for_reward {
        course.min_completions_for_reward = v;
    }
    course.updated_at = now;
    Ok(())
}

} // verus!
