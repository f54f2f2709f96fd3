use vstd::prelude::*;

use crate::address::Address;
use crate::course::{
    create_course, create_course_error, created_course, update_course, update_course_error,
    updated_course, CreateCourseParams, UpdateCourseParams,
};
use crate::credential::{credential_attributes, credential_error, issue_credential, CredentialRequest};
use crate::streak::reaches_milestone;
use crate::enrollment::{
    claim_completion_bonus, claim_error, close_enrollment, close_error, complete_lesson,
    complete_lesson_error, creator_reward_due, enroll, finalize_course, finalize_error,
    fresh_enrollment, lesson_recorded, profile_after_lesson, FinalizeOutcome, LessonOutcome,
};
use crate::config::{update_config, updated_config, UpdateConfigParams};
use crate::errors::AcademyError;
use crate::state::{Config, Course, Enrollment, LearnerProfile};

verus! {

/// A course record together with the address it is known by.
#[derive(Debug)]
pub struct CourseEntry {
    pub key: Address,
    pub course: Course,
}

/// An enrollment record stored under its course's identifier.
#[derive(Debug)]
pub struct EnrollmentEntry {
    pub course_id: String,
    pub record: Enrollment,
}

/// The record store. Every record sits at a key made of stable identity
/// fields: the configuration at a single fixed key, a course at its
/// identifier, an enrollment at (course identifier, learner) and a learner
/// profile at the learner. Creating a record at an occupied key fails.
#[derive(Debug)]
pub struct Ledger {
    pub config: Option<Config>,
    pub courses: Vec<CourseEntry>,
    pub enrollments: Vec<EnrollmentEntry>,
    pub profiles: Vec<LearnerProfile>,
}

impl Ledger {
    /// No two records share a key.
    pub open spec fn wf(&self) -> bool {
        &&& forall|i: int, j: int|
            0 <= i < j < self.courses@.len() ==> #[trigger] self.courses@[i].course.course_id@
                != #[trigger] self.courses@[j].course.course_id@
        &&& forall|i: int, j: int|
            0 <= i < j < self.enrollments@.len() ==> !Self::same_enrollment_key(
                #[trigger] self.enrollments@[i],
                #[trigger] self.enrollments@[j],
            )
        &&& forall|i: int, j: int|
            0 <= i < j < self.profiles@.len() ==> #[trigger] self.profiles@[i].authority@
                != #[trigger] self.profiles@[j].authority@
    }

    pub open spec fn same_enrollment_key(a: EnrollmentEntry, b: EnrollmentEntry) -> bool {
        a.course_id@ == b.course_id@ && a.record.learner@ == b.record.learner@
    }

    pub open spec fn course_has_id(self, i: int, id: Seq<char>) -> bool {
        0 <= i < self.courses@.len() && self.courses@[i].course.course_id@ == id
    }

    pub open spec fn has_course(self, id: Seq<char>) -> bool {
        exists|i: int| #[trigger] self.course_has_id(i, id)
    }

    /// The position of the course stored at `id`.
    pub open spec fn course_index(self, id: Seq<char>) -> int {
        choose|i: int| #[trigger] self.course_has_id(i, id)
    }

    pub open spec fn course_of(self, id: Seq<char>) -> CourseEntry {
        self.courses@[self.course_index(id)]
    }

    pub open spec fn enrollment_has_key(self, i: int, id: Seq<char>, learner: Seq<u8>) -> bool {
        0 <= i < self.enrollments@.len() && self.enrollments@[i].course_id@ == id
            && self.enrollments@[i].record.learner@ == learner
    }

    pub open spec fn has_enrollment(self, id: Seq<char>, learner: Seq<u8>) -> bool {
        exists|i: int| #[trigger] self.enrollment_has_key(i, id, learner)
    }

    /// The position of the enrollment stored at (`id`, `learner`).
    pub open spec fn enrollment_index(self, id: Seq<char>, learner: Seq<u8>) -> int {
        choose|i: int| #[trigger] self.enrollment_has_key(i, id, learner)
    }

    pub open spec fn enrollment_of(self, id: Seq<char>, learner: Seq<u8>) -> Enrollment {
        self.enrollments@[self.enrollment_index(id, learner)].record
    }

    /// Whether some finalized enrollment of `learner` refers to the course at
    /// address `course`.
    pub open spec fn completed(self, course: Address, learner: Address) -> bool {
        exists|i: int|
            0 <= i < self.enrollments@.len() && #[trigger] self.enrollments@[i].record.course@
                == course@ && self.enrollments@[i].record.learner@ == learner@
                && self.enrollments@[i].record.completed_at is Some
    }

    /// Both stores hold the same records.
    pub open spec fn same_records(self, other: Ledger) -> bool {
        &&& self.config == other.config
        &&& self.courses@ == other.courses@
        &&& self.enrollments@ == other.enrollments@
        &&& self.profiles@ == other.profiles@
    }

    /// An empty store.
    pub fn new() -> (r: Ledger)
        ensures
            r.wf(),
            r.config is None,
            r.courses@.len() == 0,
            r.enrollments@.len() == 0,
            r.profiles@.len() == 0,
    {
        Ledger { config: None, courses: Vec::new(), enrollments: Vec::new(), profiles: Vec::new() }
    }

    fn find_course(&self, id: &String) -> (r: Option<usize>)
        requires
            self.wf(),
        ensures
            match r {
                Some(i) => self.course_has_id(i as int, id@) && self.course_index(id@) == i,
                None => !self.has_course(id@),
            },
    {
        let mut i: usize = 0;
        while i < self.courses.len()
            invariant
                self.wf(),
                0 <= i <= self.courses@.len(),
                forall|k: int| 0 <= k < i ==> !#[trigger] self.course_has_id(k, id@),
            decreases self.courses@.len() - i,
        {
            if self.courses[i].course.course_id == *id {
                assert(self.course_has_id(i as int, id@));
                let ghost c = self.course_index(id@);
                assert(self.course_has_id(c, id@));
                assert(c == i) by {
                    if c < i {
                        assert(!self.course_has_id(c, id@));
                    } else if c > i {
                        assert(self.courses@[i as int].course.course_id@ != self.courses@[c].course.course_id@);
                    }
                }
                return Some(i);
            }
            i = i + 1;
        }
        None
    }

    fn find_enrollment(&self, id: &String, learner: &Address) -> (r: Option<usize>)
        requires
            self.wf(),
        ensures
            match r {
                Some(i) => self.enrollment_has_key(i as int, id@, learner@) && self.enrollment_index(
                    id@,
                    learner@,
                ) == i,
                None => !self.has_enrollment(id@, learner@),
            },
    {
        let mut i: usize = 0;
        while i < self.enrollments.len()
            invariant
                self.wf(),
                0 <= i <= self.enrollments@.len(),
                forall|k: int| 0 <= k < i ==> !#[trigger] self.enrollment_has_key(k, id@, learner@),
            decreases self.enrollments@.len() - i,
        {
            let e = &self.enrollments[i];
            if e.course_id == *id && e.record.learner.same_as(learner) {
                assert(self.enrollment_has_key(i as int, id@, learner@));
                let ghost c = self.enrollment_index(id@, learner@);
                assert(self.enrollment_has_key(c, id@, learner@));
                assert(c == i) by {
                    if c < i {
                        assert(!self.enrollment_has_key(c, id@, learner@));
                    } else if c > i {
                        assert(!Self::same_enrollment_key(self.enrollments@[i as int], self.enrollments@[c]));
                    }
                }
                return Some(i);
            }
            i = i + 1;
        }
        None
    }

    fn find_completed(&self, course: &Address, learner: &Address) -> (r: Option<Enrollment>)
        ensures
            match r {
                Some(e) => e.course@ == course@ && e.learner@ == learner@ && e.completed_at is Some
                    && self.completed(*course, *learner),
                None => !self.completed(*course, *learner),
            },
    {
        let mut i: usize = 0;
        while i < self.enrollments.len()
            invariant
                0 <= i <= self.enrollments@.len(),
                forall|k: int|
                    0 <= k < i ==> !(#[trigger] self.enrollments@[k].record.course@ == course@
                        && self.enrollments@[k].record.learner@ == learner@
                        && self.enrollments@[k].record.completed_at is Some),
            decreases self.enrollments@.len() - i,
        {
            let e = &self.enrollments[i].record;
            if e.course.same_as(course) && e.learner.same_as(learner) && e.completed_at.is_some() {
                assert(self.enrollments@[i as int].record.course@ == course@);
                return Some(*e);
            }
            i = i + 1;
        }
        None
    }

    /// Stores the configuration record, once.
    pub fn initialize(&mut self, config: Config) -> (r: Result<(), AcademyError>)
        requires
            old(self).wf(),
        ensures
            final(self).wf(),
            old(self).config is Some ==> r == Err::<(), AcademyError>(AcademyError::AlreadyInitialized)
                && final(self).same_records(*old(self)),
            old(self).config is None ==> r is Ok && *final(self) == (Ledger {
                config: Some(config),
                ..*old(self)
            }),
    {
        if self.config.is_some() {
            return Err(AcademyError::AlreadyInitialized);
        }
        self.config = Some(config);
        Ok(())
    }

    /// Creates the profile of `learner`, once.
    pub fn init_learner(&mut self, profile: LearnerProfile) -> (r: Result<(), AcademyError>)
        requires
            old(self).wf(),
        ensures
            final(self).wf(),
            (exists|i: int|
                0 <= i < old(self).profiles@.len() && #[trigger] old(self).profiles@[i].authority@
                    == profile.authority@) ==> r == Err::<(), AcademyError>(
                AcademyError::RecordExists,
            ) && final(self).same_records(*old(self)),
            r is Ok ==> final(self).profiles@ == old(self).profiles@.push(profile)
                && final(self).config == old(self).config && final(self).courses@ == old(
                self,
            ).courses@ && final(self).enrollments@ == old(self).enrollments@,
            (forall|i: int|
                0 <= i < old(self).profiles@.len() ==> #[trigger] old(self).profiles@[i].authority@
                    != profile.authority@) ==> r is Ok,
    {
        let mut i: usize = 0;
        while i < self.profiles.len()
            invariant
                self.wf(),
                self == old(self),
                0 <= i <= self.profiles@.len(),
                forall|k: int| 0 <= k < i ==> #[trigger] self.profiles@[k].authority@ != profile.authority@,
            decreases self.profiles@.len() - i,
        {
            if self.profiles[i].authority.same_as(&profile.authority) {
                return Err(AcademyError::RecordExists);
            }
            i = i + 1;
        }
        let ghost before = self.profiles@;
        self.profiles.push(profile);
        assert forall|i: int, j: int|
            0 <= i < j < self.profiles@.len() implies #[trigger] self.profiles@[i].authority@
                != #[trigger] self.profiles@[j].authority@ by {
            if j < before.len() {
                assert(before[i].authority@ != before[j].authority@);
            }
        }
        Ok(())
    }

    /// The error that `create_course` reports, if any.
    pub open spec fn create_course_refusal(self, caller: Address, params: CreateCourseParams) -> Option<
        AcademyError,
    > {
        match self.config {
            None => Some(AcademyError::RecordNotFound),
            Some(c) => if self.has_course(params.course_id@) {
                Some(AcademyError::RecordExists)
            } else {
                create_course_error(c, caller, params)
            },
        }
    }

    /// Creates a course at its identifier, known by the address `course_key`.
    pub fn create_course(
        &mut self,
        caller: &Address,
        course_key: Address,
        params: CreateCourseParams,
        now: i64,
        bump: u8,
    ) -> (r: Result<(), AcademyError>)
        requires
            old(self).wf(),
        ensures
            final(self).wf(),
            match old(self).create_course_refusal(*caller, params) {
                Some(e) => r == Err::<(), AcademyError>(e) && final(self).same_records(*old(self)),
                None => {
                    &&& r is Ok
                    &&& final(self).courses@.len() == old(self).courses@.len() + 1
                    &&& final(self).courses@.drop_last() == old(self).courses@
                    &&& final(self).courses@.last().key == course_key
                    &&& created_course(final(self).courses@.last().course, *caller, params, now, bump)
                    &&& final(self).config == old(self).config
                    &&& final(self).enrollments@ == old(self).enrollments@
                    &&& final(self).profiles@ == old(self).profiles@
                },
            },
    {
        let config = match &self.config {
            Some(c) => c,
            None => {
                return Err(AcademyError::RecordNotFound);
            },
        };
        if self.find_course(&params.course_id).is_some() {
            return Err(AcademyError::RecordExists);
        }
        let course = match create_course(config, caller, params, now, bump) {
            Ok(c) => c,
            Err(e) => {
                return Err(e);
            },
        };
        let ghost old_courses = self.courses@;
        let ghost new_id = course.course_id@;
        assert(new_id == params.course_id@);
        self.courses.push(CourseEntry { key: course_key, course });
        assert(self.courses@.drop_last() =~= old_courses);
        assert forall|i: int, j: int|
            0 <= i < j < self.courses@.len() implies #[trigger] self.courses@[i].course.course_id@
                != #[trigger] self.courses@[j].course.course_id@ by {
            if j < old_courses.len() {
                assert(old_courses[i].course.course_id@ != old_courses[j].course.course_id@);
            } else {
                assert(!old(self).course_has_id(i, new_id));
            }
        }
        Ok(())
    }

    /// The error that `enroll` reports, if any: the course must exist and the
    /// learner must hold no enrollment in it yet.
    pub open spec fn enroll_refusal(self, course_id: Seq<char>, learner: Address) -> Option<AcademyError> {
        if !self.has_course(course_id) {
            Some(AcademyError::RecordNotFound)
        } else if self.has_enrollment(course_id, learner@) {
            Some(AcademyError::AlreadyEnrolled)
        } else {
            let course = self.course_of(course_id).course;
            if !course.is_active {
                Some(AcademyError::CourseNotActive)
            } else if course.prerequisite matches Some(p) && !self.completed(p, learner) {
                Some(AcademyError::PrerequisiteNotMet)
            } else if course.total_enrollments == u32::MAX {
                Some(AcademyError::Overflow)
            } else {
                None
            }
        }
    }

    /// Enrolls `learner` in the course stored at `course_id`.
    pub fn enroll(&mut self, course_id: &String, learner: &Address, now: i64, bump: u8) -> (r: Result<
        (),
        AcademyError,
    >)
        requires
            old(self).wf(),
        ensures
            final(self).wf(),
            match old(self).enroll_refusal(course_id@, *learner) {
                Some(e) => r == Err::<(), AcademyError>(e) && final(self).same_records(*old(self)),
                None => {
                    let ci = old(self).course_index(course_id@);
                    let entry = old(self).courses@[ci];
                    &&& r is Ok
                    &&& final(self).has_enrollment(course_id@, learner@)
                    &&& final(self).enrollments@.drop_last() == old(self).enrollments@
                    &&& final(self).enrollments@.last().course_id@ == course_id@
                    &&& fresh_enrollment(
                        final(self).enrollments@.last().record,
                        entry.course,
                        entry.key,
                        *learner,
                        now,
                        bump,
                    )
                    &&& final(self).enrollment_of(course_id@, learner@)
                        == final(self).enrollments@.last().record
                    &&& final(self).courses@ == old(self).courses@.update(
                        ci,
                        CourseEntry {
                            course: Course {
                                total_enrollments: (entry.course.total_enrollments + 1) as u32,
                                ..entry.course
                            },
                            ..entry
                        },
                    )
                    &&& final(self).config == old(self).config
                    &&& final(self).profiles@ == old(self).profiles@
                },
            },
    {
        let ci = match self.find_course(course_id) {
            Some(i) => i,
            None => {
                return Err(AcademyError::RecordNotFound);
            },
        };
        if self.find_enrollment(course_id, learner).is_some() {
            return Err(AcademyError::AlreadyEnrolled);
        }
        let prerequisite = match self.courses[ci].course.prerequisite {
            Some(p) => self.find_completed(&p, learner),
            None => None,
        };
        let ghost old_self = *self;
        let key = self.courses[ci].key;
        let record = match enroll(&mut self.courses[ci].course, &key, learner, prerequisite, now, bump) {
            Ok(e) => e,
            Err(e) => {
                assert(self.courses@ =~= old_self.courses@);
                return Err(e);
            },
        };
        let ghost mid = self.enrollments@;
        self.enrollments.push(EnrollmentEntry { course_id: course_id.clone(), record });
        let n = self.enrollments.len() - 1;
        assert(self.enrollments@.drop_last() =~= mid);
        assert(self.courses@ =~= old_self.courses@.update(ci as int, self.courses@[ci as int]));
        assert forall|i: int, j: int|
            0 <= i < j < self.courses@.len() implies #[trigger] self.courses@[i].course.course_id@
                != #[trigger] self.courses@[j].course.course_id@ by {
            assert(old_self.courses@[i].course.course_id@ != old_self.courses@[j].course.course_id@);
        }
        assert(self.enrollment_has_key(n as int, course_id@, learner@));
        assert forall|i: int, j: int|
            0 <= i < j < self.enrollments@.len() implies !Self::same_enrollment_key(
                #[trigger] self.enrollments@[i],
                #[trigger] self.enrollments@[j],
            ) by {
            if j == n {
                assert(!old_self.enrollment_has_key(i, course_id@, learner@));
            }
        }
        let ghost c = self.enrollment_index(course_id@, learner@);
        assert(self.enrollment_has_key(c, course_id@, learner@));
        assert(c == n) by {
            if c < n {
                assert(!old_self.enrollment_has_key(c, course_id@, learner@));
            }
        }
        Ok(())
    }

    pub open spec fn profile_has_key(self, i: int, learner: Seq<u8>) -> bool {
        0 <= i < self.profiles@.len() && self.profiles@[i].authority@ == learner
    }

    pub open spec fn has_profile(self, learner: Seq<u8>) -> bool {
        exists|i: int| #[trigger] self.profile_has_key(i, learner)
    }

    /// The position of the profile stored at `learner`.
    pub open spec fn profile_index(self, learner: Seq<u8>) -> int {
        choose|i: int| #[trigger] self.profile_has_key(i, learner)
    }

    pub open spec fn profile_of(self, learner: Seq<u8>) -> LearnerProfile {
        self.profiles@[self.profile_index(learner)]
    }

    fn find_profile(&self, learner: &Address) -> (r: Option<usize>)
        requires
            self.wf(),
        ensures
            match r {
                Some(i) => self.profile_has_key(i as int, learner@) && self.profile_index(learner@)
                    == i,
                None => !self.has_profile(learner@),
            },
    {
        let mut i: usize = 0;
        while i < self.profiles.len()
            invariant
                self.wf(),
                0 <= i <= self.profiles@.len(),
                forall|k: int| 0 <= k < i ==> !#[trigger] self.profile_has_key(k, learner@),
            decreases self.profiles@.len() - i,
        {
            if self.profiles[i].authority.same_as(learner) {
                assert(self.profile_has_key(i as int, learner@));
                let ghost c = self.profile_index(learner@);
                assert(self.profile_has_key(c, learner@));
                assert(c == i) by {
                    if c < i {
                        assert(!self.profile_has_key(c, learner@));
                    } else if c > i {
                        assert(self.profiles@[i as int].authority@ != self.profiles@[c].authority@);
                    }
                }
                return Some(i);
            }
            i = i + 1;
        }
        None
    }

    /// The error that `complete_lesson` reports, if any: the configuration,
    /// the course, the enrollment and the learner's profile must exist.
    pub open spec fn lesson_refusal(
        self,
        course_id: Seq<char>,
        learner: Address,
        signer: Address,
        lesson_index: u8,
        now: int,
    ) -> Option<AcademyError> {
        if self.config is None || !self.has_course(course_id) {
            Some(AcademyError::RecordNotFound)
        } else if !self.has_enrollment(course_id, learner@) {
            Some(AcademyError::NotEnrolled)
        } else if !self.has_profile(learner@) {
            Some(AcademyError::RecordNotFound)
        } else {
            complete_lesson_error(
                self.config->Some_0,
                self.course_of(course_id).course,
                self.course_of(course_id).key,
                self.enrollment_of(course_id, learner@),
                self.profile_of(learner@),
                signer,
                lesson_index,
                now,
            )
        }
    }

    /// Completes lesson `lesson_index` of `learner` in the course stored at
    /// `course_id`, on the word of `signer`.
    pub fn complete_lesson(
        &mut self,
        course_id: &String,
        learner: &Address,
        signer: &Address,
        lesson_index: u8,
        now: i64,
    ) -> (r: Result<LessonOutcome, AcademyError>)
        requires
            old(self).wf(),
        ensures
            final(self).wf(),
            match old(self).lesson_refusal(course_id@, *learner, *signer, lesson_index, now as int) {
                Some(e) => r == Err::<LessonOutcome, AcademyError>(e) && final(self).same_records(
                    *old(self),
                ),
                None => {
                    let ei = old(self).enrollment_index(course_id@, learner@);
                    let pi = old(self).profile_index(learner@);
                    let course = old(self).course_of(course_id@).course;
                    let before = old(self).enrollments@[ei];
                    let after = final(self).enrollments@[ei];
                    &&& r == Ok::<LessonOutcome, AcademyError>(
                        LessonOutcome {
                            xp_earned: course.xp_per_lesson,
                            streak_milestone: reaches_milestone(old(self).profiles@[pi].streak, now as int),
                        },
                    )
                    &&& lesson_recorded(before.record, after.record, lesson_index)
                    &&& final(self).enrollments@ == old(self).enrollments@.update(
                        ei,
                        EnrollmentEntry { record: after.record, ..before },
                    )
                    &&& final(self).profiles@ == old(self).profiles@.update(
                        pi,
                        profile_after_lesson(old(self).profiles@[pi], course, now as int),
                    )
                    &&& final(self).config == old(self).config
                    &&& final(self).courses@ == old(self).courses@
                },
            },
    {
        if self.config.is_none() {
            return Err(AcademyError::RecordNotFound);
        }
        let ci = match self.find_course(course_id) {
            Some(i) => i,
            None => {
                return Err(AcademyError::RecordNotFound);
            },
        };
        let ei = match self.find_enrollment(course_id, learner) {
            Some(i) => i,
            None => {
                return Err(AcademyError::NotEnrolled);
            },
        };
        let pi = match self.find_profile(learner) {
            Some(i) => i,
            None => {
                return Err(AcademyError::RecordNotFound);
            },
        };
        let ghost old_self = *self;
        let config = match &self.config {
            Some(c) => c,
            None => {
                return Err(AcademyError::RecordNotFound);
            },
        };
        let entry = &self.courses[ci];
        let outcome = complete_lesson(
            config,
            &entry.course,
            &entry.key,
            &mut self.enrollments[ei].record,
            &mut self.profiles[pi],
            signer,
            lesson_index,
            now,
        );
        assert(self.enrollments@ =~= old_self.enrollments@.update(
            ei as int,
            EnrollmentEntry { record: self.enrollments@[ei as int].record, ..old_self.enrollments@[ei as int] },
        ));
        proof {
            if outcome is Err {
                assert(self.enrollments@ =~= old_self.enrollments@);
                assert(self.profiles@ =~= old_self.profiles@);
            }
            assert forall|i: int, j: int|
                0 <= i < j < self.enrollments@.len() implies !Self::same_enrollment_key(
                    #[trigger] self.enrollments@[i],
                    #[trigger] self.enrollments@[j],
                ) by {
                assert(!Self::same_enrollment_key(old_self.enrollments@[i], old_self.enrollments@[j]));
            }
            assert forall|i: int, j: int|
                0 <= i < j < self.profiles@.len() implies #[trigger] self.profiles@[i].authority@
                    != #[trigger] self.profiles@[j].authority@ by {
                assert(old_self.profiles@[i].authority@ != old_self.profiles@[j].authority@);
            }
        }
        outcome
    }

    /// The error that `finalize_course` reports, if any.
    pub open spec fn finalize_refusal(self, course_id: Seq<char>, learner: Address, signer: Address) -> Option<
        AcademyError,
    > {
        if self.config is None || !self.has_course(course_id) {
            Some(AcademyError::RecordNotFound)
        } else if !self.has_enrollment(course_id, learner@) {
            Some(AcademyError::NotEnrolled)
        } else {
            finalize_error(
                self.config->Some_0,
                self.course_of(course_id).course,
                self.course_of(course_id).key,
                self.enrollment_of(course_id, learner@),
                signer,
            )
        }
    }

    /// Finalizes the enrollment of `learner` in the course stored at
    /// `course_id`.
    pub fn finalize_course(&mut self, course_id: &String, learner: &Address, signer: &Address, now: i64) -> (r:
        Result<FinalizeOutcome, AcademyError>)
        requires
            old(self).wf(),
        ensures
            final(self).wf(),
            match old(self).finalize_refusal(course_id@, *learner, *signer) {
                Some(e) => r == Err::<FinalizeOutcome, AcademyError>(e) && final(self).same_records(
                    *old(self),
                ),
                None => {
                    let ci = old(self).course_index(course_id@);
                    let ei = old(self).enrollment_index(course_id@, learner@);
                    let ce = old(self).courses@[ci];
                    let ee = old(self).enrollments@[ei];
                    let total = ce.course.total_completions + 1;
                    &&& r matches Ok(o) && o.creator == ce.course.creator && o.creator_xp
                        == creator_reward_due(ce.course, total) && o.total_xp == ce.course.lesson_count
                        * ce.course.xp_per_lesson
                    &&& final(self).courses@ == old(self).courses@.update(
                        ci,
                        CourseEntry {
                            course: Course { total_completions: total as u32, ..ce.course },
                            ..ce
                        },
                    )
                    &&& final(self).enrollments@ == old(self).enrollments@.update(
                        ei,
                        EnrollmentEntry {
                            record: Enrollment { completed_at: Some(now), ..ee.record },
                            ..ee
                        },
                    )
                    &&& final(self).config == old(self).config
                    &&& final(self).profiles@ == old(self).profiles@
                },
            },
    {
        if self.config.is_none() {
            return Err(AcademyError::RecordNotFound);
        }
        let ci = match self.find_course(course_id) {
            Some(i) => i,
            None => {
                return Err(AcademyError::RecordNotFound);
            },
        };
        let ei = match self.find_enrollment(course_id, learner) {
            Some(i) => i,
            None => {
                return Err(AcademyError::NotEnrolled);
            },
        };
        let ghost old_self = *self;
        let config = match &self.config {
            Some(c) => c,
            None => {
                return Err(AcademyError::RecordNotFound);
            },
        };
        let key = self.courses[ci].key;
        let outcome = finalize_course(
            config,
            &mut self.courses[ci].course,
            &key,
            &mut self.enrollments[ei].record,
            signer,
            now,
        );
        proof {
            if outcome is Err {
                assert(self.enrollments@ =~= old_self.enrollments@);
                assert(self.courses@ =~= old_self.courses@);
            } else {
                assert(self.enrollments@ =~= old_self.enrollments@.update(
                    ei as int,
                    EnrollmentEntry {
                        record: Enrollment { completed_at: Some(now), ..old_self.enrollments@[ei as int].record },
                        ..old_self.enrollments@[ei as int]
                    },
                ));
                assert(self.courses@ =~= old_self.courses@.update(
                    ci as int,
                    CourseEntry {
                        course: Course {
                            total_completions: (old_self.courses@[ci as int].course.total_completions + 1) as u32,
                            ..old_self.courses@[ci as int].course
                        },
                        ..old_self.courses@[ci as int]
                    },
                ));
            }
            assert forall|i: int, j: int|
                0 <= i < j < self.enrollments@.len() implies !Self::same_enrollment_key(
                    #[trigger] self.enrollments@[i],
                    #[trigger] self.enrollments@[j],
                ) by {
                assert(!Self::same_enrollment_key(old_self.enrollments@[i], old_self.enrollments@[j]));
            }
            assert forall|i: int, j: int|
                0 <= i < j < self.courses@.len() implies #[trigger] self.courses@[i].course.course_id@
                    != #[trigger] self.courses@[j].course.course_id@ by {
                assert(old_self.courses@[i].course.course_id@ != old_self.courses@[j].course.course_id@);
            }
        }
        outcome
    }

    /// The error that `claim_completion_bonus` reports, if any.
    pub open spec fn claim_refusal(self, course_id: Seq<char>, learner: Address) -> Option<AcademyError> {
        if !self.has_course(course_id) {
            Some(AcademyError::RecordNotFound)
        } else if !self.has_enrollment(course_id, learner@) {
            Some(AcademyError::NotEnrolled)
        } else {
            claim_error(self.course_of(course_id).key, self.enrollment_of(course_id, learner@), learner)
        }
    }

    /// Pays the completion bonus of `learner` in the course stored at
    /// `course_id`, once.
    pub fn claim_completion_bonus(&mut self, course_id: &String, learner: &Address) -> (r: Result<
        u32,
        AcademyError,
    >)
        requires
            old(self).wf(),
        ensures
            final(self).wf(),
            match old(self).claim_refusal(course_id@, *learner) {
                Some(e) => r == Err::<u32, AcademyError>(e) && final(self).same_records(*old(self)),
                None => {
                    let ei = old(self).enrollment_index(course_id@, learner@);
                    let ee = old(self).enrollments@[ei];
                    &&& r == Ok::<u32, AcademyError>(old(self).course_of(course_id@).course.completion_bonus_xp)
                    &&& final(self).enrollments@ == old(self).enrollments@.update(
                        ei,
                        EnrollmentEntry { record: Enrollment { bonus_claimed: true, ..ee.record }, ..ee },
                    )
                    &&& final(self).config == old(self).config
                    &&& final(self).courses@ == old(self).courses@
                    &&& final(self).profiles@ == old(self).profiles@
                },
            },
    {
        let ci = match self.find_course(course_id) {
            Some(i) => i,
            None => {
                return Err(AcademyError::RecordNotFound);
            },
        };
        let ei = match self.find_enrollment(course_id, learner) {
            Some(i) => i,
            None => {
                return Err(AcademyError::NotEnrolled);
            },
        };
        let ghost old_self = *self;
        let entry = &self.courses[ci];
        let outcome = claim_completion_bonus(
            &entry.course,
            &entry.key,
            &mut self.enrollments[ei].record,
            learner,
        );
        proof {
            if outcome is Err {
                assert(self.enrollments@ =~= old_self.enrollments@);
            } else {
                assert(self.enrollments@ =~= old_self.enrollments@.update(
                    ei as int,
                    EnrollmentEntry {
                        record: Enrollment { bonus_claimed: true, ..old_self.enrollments@[ei as int].record },
                        ..old_self.enrollments@[ei as int]
                    },
                ));
            }
            assert forall|i: int, j: int|
                0 <= i < j < self.enrollments@.len() implies !Self::same_enrollment_key(
                    #[trigger] self.enrollments@[i],
                    #[trigger] self.enrollments@[j],
                ) by {
                assert(!Self::same_enrollment_key(old_self.enrollments@[i], old_self.enrollments@[j]));
            }
        }
        outcome
    }

    /// The error that `close_enrollment` reports, if any.
    pub open spec fn close_refusal(self, course_id: Seq<char>, learner: Address, now: int) -> Option<
        AcademyError,
    > {
        if !self.has_enrollment(course_id, learner@) {
            Some(AcademyError::NotEnrolled)
        } else {
            close_error(self.enrollment_of(course_id, learner@), learner, now)
        }
    }

    /// Removes the enrollment of `learner` in the course stored at
    /// `course_id`, returning whether it was finalized.
    pub fn close_enrollment(&mut self, course_id: &String, learner: &Address, now: i64) -> (r: Result<
        bool,
        AcademyError,
    >)
        requires
            old(self).wf(),
        ensures
            final(self).wf(),
            match old(self).close_refusal(course_id@, *learner, now as int) {
                Some(e) => r == Err::<bool, AcademyError>(e) && final(self).same_records(*old(self)),
                None => {
                    &&& r == Ok::<bool, AcademyError>(
                        old(self).enrollment_of(course_id@, learner@).completed_at is Some,
                    )
                    &&& final(self).enrollments@ == old(self).enrollments@.remove(
                        old(self).enrollment_index(course_id@, learner@),
                    )
                    &&& !final(self).has_enrollment(course_id@, learner@)
                    &&& final(self).config == old(self).config
                    &&& final(self).courses@ == old(self).courses@
                    &&& final(self).profiles@ == old(self).profiles@
                },
            },
    {
        let ei = match self.find_enrollment(course_id, learner) {
            Some(i) => i,
            None => {
                return Err(AcademyError::NotEnrolled);
            },
        };
        let completed = match close_enrollment(&self.enrollments[ei].record, learner, now) {
            Ok(c) => c,
            Err(e) => {
                return Err(e);
            },
        };
        let ghost before = self.enrollments@;
        self.enrollments.remove(ei);
        proof {
            assert forall|i: int, j: int|
                0 <= i < j < self.enrollments@.len() implies !Self::same_enrollment_key(
                    #[trigger] self.enrollments@[i],
                    #[trigger] self.enrollments@[j],
                ) by {
                let oi = if i < ei { i } else { i + 1 };
                let oj = if j < ei { j } else { j + 1 };
                assert(self.enrollments@[i] == before[oi]);
                assert(self.enrollments@[j] == before[oj]);
                assert(!Self::same_enrollment_key(before[oi], before[oj]));
            }
            assert forall|k: int| !#[trigger] self.enrollment_has_key(k, course_id@, learner@) by {
                if 0 <= k < self.enrollments@.len() {
                    let ok = if k < ei { k } else { k + 1 };
                    assert(self.enrollments@[k] == before[ok]);
                    assert(ok != ei);
                    if ok < ei {
                        assert(!Self::same_enrollment_key(before[ok], before[ei as int]));
                    } else {
                        assert(!Self::same_enrollment_key(before[ei as int], before[ok]));
                    }
                }
            }
        }
        Ok(completed)
    }

    /// The course stored at `course_id`, if any.
    pub fn course(&self, course_id: &String) -> (r: Option<&Course>)
        requires
            self.wf(),
        ensures
            self.has_course(course_id@) ==> r == Some(&self.course_of(course_id@).course),
            !self.has_course(course_id@) ==> r is None,
    {
        match self.find_course(course_id) {
            Some(i) => Some(&self.courses[i].course),
            None => None,
        }
    }

    /// The address the course stored at `course_id` is known by, if any.
    pub fn course_key(&self, course_id: &String) -> (r: Option<Address>)
        requires
            self.wf(),
        ensures
            self.has_course(course_id@) ==> r == Some(self.course_of(course_id@).key),
            !self.has_course(course_id@) ==> r is None,
    {
        match self.find_course(course_id) {
            Some(i) => Some(self.courses[i].key),
            None => None,
        }
    }

    /// The enrollment stored at (`course_id`, `learner`), if any.
    pub fn enrollment(&self, course_id: &String, learner: &Address) -> (r: Option<Enrollment>)
        requires
            self.wf(),
        ensures
            self.has_enrollment(course_id@, learner@) ==> r == Some(
                self.enrollment_of(course_id@, learner@),
            ),
            !self.has_enrollment(course_id@, learner@) ==> r is None,
    {
        match self.find_enrollment(course_id, learner) {
            Some(i) => Some(self.enrollments[i].record),
            None => None,
        }
    }

    /// The profile stored at `learner`, if any.
    pub fn profile(&self, learner: &Address) -> (r: Option<LearnerProfile>)
        requires
            self.wf(),
        ensures
            self.has_profile(learner@) ==> r == Some(self.profile_of(learner@)),
            !self.has_profile(learner@) ==> r is None,
    {
        match self.find_profile(learner) {
            Some(i) => Some(self.profiles[i]),
            None => None,
        }
    }

    /// Updates the course stored at `course_id` on behalf of `caller`.
    pub fn update_course(
        &mut self,
        course_id: &String,
        caller: &Address,
        params: UpdateCourseParams,
        now: i64,
    ) -> (r: Result<(), AcademyError>)
        requires
            old(self).wf(),
        ensures
            final(self).wf(),
            !old(self).has_course(course_id@) ==> r == Err::<(), AcademyError>(
                AcademyError::RecordNotFound,
            ) && final(self).same_records(*old(self)),
            old(self).has_course(course_id@) ==> {
                let ci = old(self).course_index(course_id@);
                let ce = old(self).courses@[ci];
                match update_course_error(ce.course, *caller, params) {
                    Some(e) => r == Err::<(), AcademyError>(e) && final(self).same_records(*old(self)),
                    None => {
                        &&& r is Ok
                        &&& final(self).courses@ == old(self).courses@.update(
                            ci,
                            CourseEntry { course: updated_course(ce.course, params, now), ..ce },
                        )
                        &&& final(self).config == old(self).config
                        &&& final(self).enrollments@ == old(self).enrollments@
                        &&& final(self).profiles@ == old(self).profiles@
                    },
                }
            },
    {
        let ci = match self.find_course(course_id) {
            Some(i) => i,
            None => {
                return Err(AcademyError::RecordNotFound);
            },
        };
        let ghost old_self = *self;
        let outcome = update_course(&mut self.courses[ci].course, caller, params, now);
        proof {
            if outcome is Err {
                assert(self.courses@ =~= old_self.courses@);
            } else {
                assert(self.courses@ =~= old_self.courses@.update(
                    ci as int,
                    CourseEntry {
                        course: updated_course(old_self.courses@[ci as int].course, params, now),
                        ..old_self.courses@[ci as int]
                    },
                ));
            }
            assert forall|i: int, j: int|
                0 <= i < j < self.courses@.len() implies #[trigger] self.courses@[i].course.course_id@
                    != #[trigger] self.courses@[j].course.course_id@ by {
                assert(old_self.courses@[i].course.course_id@ != old_self.courses@[j].course.course_id@);
            }
        }
        outcome
    }

    /// The error that `issue_credential` reports, if any.
    pub open spec fn credential_refusal(
        self,
        course_id: Seq<char>,
        learner: Address,
        signer: Address,
        asset: Address,
    ) -> Option<AcademyError> {
        if self.config is None || !self.has_course(course_id) {
            Some(AcademyError::RecordNotFound)
        } else if !self.has_enrollment(course_id, learner@) {
            Some(AcademyError::NotEnrolled)
        } else {
            credential_error(
                self.config->Some_0,
                self.course_of(course_id).key,
                self.enrollment_of(course_id, learner@),
                signer,
                asset,
            )
        }
    }

    /// Decides whether the credential of `learner` for the course stored at
    /// `course_id` is created at `asset` or upgraded there.
    pub fn issue_credential(
        &mut self,
        course_id: &String,
        learner: &Address,
        signer: &Address,
        asset: &Address,
    ) -> (r: Result<CredentialRequest, AcademyError>)
        requires
            old(self).wf(),
        ensures
            final(self).wf(),
            match old(self).credential_refusal(course_id@, *learner, *signer, *asset) {
                Some(e) => r == Err::<CredentialRequest, AcademyError>(e) && final(self).same_records(
                    *old(self),
                ),
                None => {
                    let ei = old(self).enrollment_index(course_id@, learner@);
                    let ee = old(self).enrollments@[ei];
                    &&& r matches Ok(q) && q.create == ee.record.credential_asset is None
                        && q.attributes == credential_attributes(old(self).course_of(course_id@).course, q.create)
                        && final(self).enrollments@ == old(self).enrollments@.update(
                        ei,
                        EnrollmentEntry {
                            record: if q.create {
                                Enrollment { credential_asset: Some(*asset), ..ee.record }
                            } else {
                                ee.record
                            },
                            ..ee
                        },
                    )
                    &&& final(self).config == old(self).config
                    &&& final(self).courses@ == old(self).courses@
                    &&& final(self).profiles@ == old(self).profiles@
                },
            },
    {
        if self.config.is_none() {
            return Err(AcademyError::RecordNotFound);
        }
        let ci = match self.find_course(course_id) {
            Some(i) => i,
            None => {
                return Err(AcademyError::RecordNotFound);
            },
        };
        let ei = match self.find_enrollment(course_id, learner) {
            Some(i) => i,
            None => {
                return Err(AcademyError::NotEnrolled);
            },
        };
        let ghost old_self = *self;
        let config = match &self.config {
            Some(c) => c,
            None => {
                return Err(AcademyError::RecordNotFound);
            },
        };
        let entry = &self.courses[ci];
        let outcome = issue_credential(
            config,
            &entry.course,
            &entry.key,
            &mut self.enrollments[ei].record,
            signer,
            asset,
        );
        proof {
            if outcome is Err {
                assert(self.enrollments@ =~= old_self.enrollments@);
            } else {
                assert(self.enrollments@ =~= old_self.enrollments@.update(
                    ei as int,
                    EnrollmentEntry {
                        record: self.enrollments@[ei as int].record,
                        ..old_self.enrollments@[ei as int]
                    },
                ));
            }
            assert forall|i: int, j: int|
                0 <= i < j < self.enrollments@.len() implies !Self::same_enrollment_key(
                    #[trigger] self.enrollments@[i],
                    #[trigger] self.enrollments@[j],
                ) by {
                assert(!Self::same_enrollment_key(old_self.enrollments@[i], old_self.enrollments@[j]));
            }
        }
        outcome
    }

    /// Updates the configuration on behalf of `caller`.
    pub fn update_config(&mut self, caller: &Address, params: UpdateConfigParams) -> (r: Result<
        (),
        AcademyError,
    >)
        requires
            old(self).wf(),
        ensures
            final(self).wf(),
            final(self).courses@ == old(self).courses@,
            final(self).enrollments@ == old(self).enrollments@,
            final(self).profiles@ == old(self).profiles@,
            match old(self).config {
                None => r == Err::<(), AcademyError>(AcademyError::RecordNotFound) && final(self).config
                    is None,
                Some(c) => if caller@ != c.authority@ {
                    r == Err::<(), AcademyError>(AcademyError::Unauthorized) && final(self).config
                        == old(self).config
                } else {
                    r is Ok && final(self).config == Some(updated_config(c, params))
                },
            },
    {
        match &mut self.config {
            Some(c) => update_config(c, caller, params),
            None => Err(AcademyError::RecordNotFound),
        }
    }
}

/// Enrollment happens once per course and learner: once the store holds an
/// enrollment of `learner` in the course at `course_id` (as a successful
/// `enroll` leaves it), a further `enroll` is refused as already enrolled,
/// and a refused `enroll` leaves every record, that enrollment included, as
/// it was.
pub proof fn lemma_enroll_once(ledger: Ledger, course_id: Seq<char>, learner: Address)
    requires
        ledger.has_course(course_id),
        ledger.has_enrollment(course_id, learner@),
    ensures
        ledger.enroll_refusal(course_id, learner) == Some(AcademyError::AlreadyEnrolled),
{
}

} // verus!
