use vstd::prelude::*;

verus! {

/// Every way an operation of the academy can fail. A failed operation leaves
/// every record it was given as it found it.
#[derive(Clone, Copy, Debug, PartialEq, Eq, Structural)]
pub enum AcademyError {
    /// The caller is not the signer or authority that the record names.
    Unauthorized,
    /// The course is deactivated.
    CourseNotActive,
    /// An enrollment record already exists for this course and learner.
    AlreadyEnrolled,
    /// No enrollment record exists for this course and learner.
    NotEnrolled,
    /// The lesson index is not below the course's lesson count.
    LessonOutOfBounds,
    /// The lesson is already marked as completed.
    LessonAlreadyCompleted,
    /// Not every lesson of the course is marked as completed.
    CourseNotCompleted,
    /// The enrollment is already finalized.
    CourseAlreadyFinalized,
    /// The enrollment is not finalized yet.
    CourseNotFinalized,
    /// The prerequisite course has not been completed by the learner.
    PrerequisiteNotMet,
    /// An unfinished enrollment may only be closed after a day has passed.
    CooldownNotMet,
    /// The enrollment belongs to another course.
    EnrollmentCourseMismatch,
    /// A checked arithmetic operation would overflow.
    Overflow,
    /// The course identifier is empty or longer than its maximum length.
    InvalidId,
    /// A course needs at least one lesson.
    InvalidLessonCount,
    /// The difficulty must be 1, 2 or 3.
    InvalidDifficulty,
    /// The credential presented is not the one recorded on the enrollment.
    CredentialAssetMismatch,
    /// The credential service refused the request.
    CredentialCpiFailed,
    /// The reward would take the learner past the daily cap.
    DailyCapExceeded,
    /// The completion bonus was already claimed.
    AlreadyClaimed,
    /// The configuration record already exists.
    AlreadyInitialized,
    /// The record store already holds a record at this key.
    RecordExists,
    /// The record store holds no record at this key.
    RecordNotFound,
}

} // verus!
