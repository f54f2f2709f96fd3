use vstd::prelude::*;

use crate::address::Address;
use crate::errors::AcademyError;
use crate::state::{Config, Course, Enrollment};

verus! {

/// The attributes a credential carries.
#[derive(Clone, Copy, Debug, PartialEq, Eq, Structural)]
pub struct CredentialAttributes {
    pub track_id: u16,
    pub level: u8,
    pub courses_completed: u32,
    pub total_xp: u64,
}

/// What the credential service is asked to do: create a new credential, or
/// upgrade the one recorded on the enrollment, with these attributes.
#[derive(Clone, Copy, Debug, PartialEq, Eq, Structural)]
pub struct CredentialRequest {
    pub create: bool,
    pub attributes: CredentialAttributes,
}

/// The error that `issue_credential` reports, if any.
pub open spec fn credential_error(
    config: Config,
    course_key: Address,
    enrollment: Enrollment,
    signer: Address,
    asset: Address,
) -> Option<AcademyError> {
    if enrollment.course@ != course_key@ {
        Some(AcademyError::EnrollmentCourseMismatch)
    } else if signer@ != config.backend_signer@ {
        Some(AcademyError::Unauthorized)
    } else if enrollment.completed_at is None {
        Some(AcademyError::CourseNotFinalized)
    } else if enrollment.credential_asset matches Some(a) && a@ != asset@ {
        Some(AcademyError::CredentialAssetMismatch)
    } else {
        None
    }
}

/// The reward a course pays over all its lessons.
pub open spec fn course_total_xp(course: Course) -> int {
    course.xp_per_lesson * course.lesson_count
}

/// The attributes written to a credential: the course's track and level, the
/// reward over all its lessons, and one completed course on creation or the
/// course's running completion tally on upgrade.
pub open spec fn credential_attributes(course: Course, create: bool) -> CredentialAttributes {
    CredentialAttributes {
        track_id: course.track_id,
        level: course.track_level,
        courses_completed: if create {
            1
        } else {
            course.total_completions
        },
        total_xp: course_total_xp(course) as u64,
    }
}

/// Decides between creating and upgrading the learner's credential for a
/// finalized enrollment. A first call creates: the credential at `asset` is
/// recorded on the enrollment and counts one completed course. A later call
/// must present that same credential and upgrades it with the course's
/// running completion tally.
pub fn issue_credential(
    config: &Config,
    course: &Course,
    course_key: &Address,
    enrollment: &mut Enrollment,
    signer: &Address,
    asset: &Address,
) -> (r: Result<CredentialRequest, AcademyError>)
    ensures
        match credential_error(*config, *course_key, *old(enrollment), *signer, *asset) {
            Some(e) => r == Err::<CredentialRequest, AcademyError>(e) && *final(enrollment) == *old(
                enrollment,
            ),
            None => r matches Ok(q) && {
                &&& q.create == old(enrollment).credential_asset is None
                &&& q.attributes == credential_attributes(*course, q.create)
                &&& *final(enrollment) == if q.create {
                    Enrollment { credential_asset: Some(*asset), ..*old(enrollment) }
                } else {
                    *old(enrollment)
                }
            },
        },
{
    if !enrollment.course.same_as(course_key) {
        return Err(AcademyError::EnrollmentCourseMismatch);
    }
    if !signer.same_as(&config.backend_signer) {
        return Err(AcademyError::Unauthorized);
    }
    if enrollment.completed_at.is_none() {
        return Err(AcademyError::CourseNotFinalized);
    }
    let per_lesson = course.xp_per_lesson as u64;
    let lessons = course.lesson_count as u64;
    assert(per_lesson * lessons <= 0xffff_ffffu64 * 255) by (nonlinear_arith)
        requires
            lessons <= 255,
            per_lesson <= 0xffff_ffffu64,
    ;
    let total_xp = per_lesson * lessons;
    match enrollment.credential_asset {
        None => {
            enrollment.credential_asset = Some(*asset);
            Ok(
                CredentialRequest {
                    create: true,
                    attributes: CredentialAttributes {
                        track_id: course.track_id,
                        level: course.track_level,
                        courses_completed: 1,
                        total_xp,
                    },
                },
            )
        },
        Some(existing) => {
            if !existing.same_as(asset) {
                return Err(AcademyError::CredentialAssetMismatch);
            }
            Ok(
                CredentialRequest {
                    create: false,
                    attributes: CredentialAttributes {
                        track_id: course.track_id,
                        level: course.track_level,
                        courses_completed: course.total_completions,
                        total_xp,
                    },
                },
            )
        },
    }
}

} // verus!
