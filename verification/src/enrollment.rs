use vstd::prelude::*;
use crate::cohort::{CohortStatus, cohort_index, cohort_named};
use crate::error::CustomError;
use crate::{Academy, AcademyView};

verus! {

/// A student-to-cohort membership record. Its slot derives from the student
/// id alone: one active enrollment slot per student in this design.
/// Immutable after creation.
pub struct EnrollmentAccount {
    pub student: u64,
    pub cohort: String,
    pub enrolled_at: i64,
}

/// Mathematical model of one enrollment record.
pub ghost struct EnrollmentView {
    pub student: u64,
    pub cohort: Seq<char>,
    pub enrolled_at: i64,
}

impl View for EnrollmentAccount {
    type V = EnrollmentView;

    open spec fn view(&self) -> EnrollmentView {
        EnrollmentView { student: self.student, cohort: self.cohort@, enrolled_at: self.enrolled_at }
    }
}

/// Some enrollment record belongs to `student`.
pub open spec fn enrolled(enrollments: Seq<EnrollmentView>, student: u64) -> bool {
    exists|i: int| 0 <= i < enrollments.len() && enrollments[i].student == student
}

/// At most one enrollment record per student.
pub open spec fn enrollments_unique(enrollments: Seq<EnrollmentView>) -> bool {
    forall|i: int, j: int|
        0 <= i < j < enrollments.len() ==> enrollments[i].student != enrollments[j].student
}

/// How many enrollment records belong to `student`.
pub open spec fn enrollment_count_of(enrollments: Seq<EnrollmentView>, student: u64) -> nat
    decreases enrollments.len(),
{
    if enrollments.len() == 0 {
        0
    } else {
        enrollment_count_of(enrollments.drop_last(), student) + if enrollments.last().student
            == student {
            1nat
        } else {
            0nat
        }
    }
}

/// A student with no enrollment record has count zero.
pub proof fn lemma_enrollment_count_zero(enrollments: Seq<EnrollmentView>, student: u64)
    requires
        !enrolled(enrollments, student),
    ensures
        enrollment_count_of(enrollments, student) == 0,
    decreases enrollments.len(),
{
    if enrollments.len() > 0 {
        assert(!enrolled(enrollments.drop_last(), student)) by {
            if enrolled(enrollments.drop_last(), student) {
                let i = choose|i: int|
                    0 <= i < enrollments.drop_last().len() && enrollments.drop_last()[i].student
                        == student;
                assert(enrollments[i].student == student);
            }
        }
        lemma_enrollment_count_zero(enrollments.drop_last(), student);
        assert(enrollments.last().student != student) by {
            if enrollments.last().student == student {
                assert(enrollments[enrollments.len() - 1].student == student);
            }
        }
    }
}

/// State transition and result of `enroll_student`. Guards, in order: the
/// student's enrollment slot must be free; `cohort` must resolve to an
/// existing cohort record; the cohort must still be `Upcoming` (late
/// enrollment after the start fails `CohortAlreadyStarted`). On success a
/// record stamped with the ledger-supplied time `now` is appended.
pub open spec fn enroll_student_outcome(
    pre: AcademyView,
    student: u64,
    cohort: Seq<char>,
    now: i64,
) -> (AcademyView, Result<(), CustomError>) {
    if enrolled(pre.enrollments, student) {
        (pre, Err(CustomError::DuplicateRecord))
    } else if !cohort_named(pre.cohorts, cohort) {
        (pre, Err(CustomError::CourseNotFound))
    } else if pre.cohorts[cohort_index(pre.cohorts, cohort)].status != CohortStatus::Upcoming {
        (pre, Err(CustomError::CohortAlreadyStarted))
    } else {
        (
            AcademyView {
                enrollments: pre.enrollments.push(EnrollmentView { student, cohort, enrolled_at: now }),
                ..pre
            },
            Ok(()),
        )
    }
}

impl Academy {
    /// Index of the enrollment record of `student`, if one is stored.
    fn find_enrollment(&self, student: u64) -> (r: Option<usize>)
        ensures
            match r {
                Some(i) => i < self@.enrollments.len() && self@.enrollments[i as int].student
                    == student,
                None => !enrolled(self@.enrollments, student),
            },
    {
        let n = self.enrollments.len();
        let mut i: usize = 0;
        while i < n
            invariant
                n == self@.enrollments.len(),
                i <= n,
                forall|j: int| 0 <= j < i ==> self@.enrollments[j].student != student,
            decreases n - i,
        {
            if self.enrollments[i].student == student {
                return Some(i);
            }
            i += 1;
        }
        None
    }

    /// Whether `student` holds an enrollment record.
    pub fn is_enrolled(&self, student: u64) -> (b: bool)
        ensures
            b == enrolled(self@.enrollments, student),
    {
        self.find_enrollment(student).is_some()
    }

    /// The number of enrollment records belonging to `student`.
    pub fn enrollment_count(&self, student: u64) -> (n: usize)
        ensures
            n == enrollment_count_of(self@.enrollments, student),
    {
        let len = self.enrollments.len();
        let mut i: usize = 0;
        let mut n: usize = 0;
        while i < len
            invariant
                len == self@.enrollments.len(),
                i <= len,
                n <= i,
                n == enrollment_count_of(self@.enrollments.take(i as int), student),
            decreases len - i,
        {
            proof {
                assert(self@.enrollments.take(i + 1).drop_last() =~= self@.enrollments.take(
                    i as int,
                ));
                assert(self@.enrollments.take(i + 1).last() == self@.enrollments[i as int]);
            }
            if self.enrollments[i].student == student {
                n += 1;
            }
            i += 1;
        }
        proof {
            assert(self@.enrollments.take(len as int) =~= self@.enrollments);
        }
        n
    }

    /// Enrolls `student` in the cohort named `cohort`: a student-keyed
    /// insert-if-absent; the cohort must exist and must not have started.
    /// `now` is the ledger-supplied timestamp.
    pub fn enroll_student(&mut self, student: u64, cohort: String, now: i64) -> (r: Result<
        (),
        CustomError,
    >)
        requires
            old(self).wf(),
        ensures
            final(self).wf(),
            (final(self)@, r) == enroll_student_outcome(old(self)@, student, cohort@, now),
            r is Ok ==> enrolled(final(self)@.enrollments, student),
    {
        if self.find_enrollment(student).is_some() {
            return Err(CustomError::DuplicateRecord);
        }
        let idx = match self.find_cohort(&cohort) {
            Some(i) => i,
            None => {
                return Err(CustomError::CourseNotFound);
            },
        };
        proof {
            self.lemma_cohort_index_unique(cohort@, idx as int);
        }
        if !(self.cohorts[idx].status == CohortStatus::Upcoming) {
            return Err(CustomError::CohortAlreadyStarted);
        }
        let rec = EnrollmentAccount { student, cohort, enrolled_at: now };
        let ghost rv = rec@;
        self.enrollments.push(rec);
        proof {
            assert(self@.enrollments =~= old(self)@.enrollments.push(rv));
            let post = self@.enrollments;
            let pre = old(self)@.enrollments;
            assert forall|i: int, j: int| 0 <= i < j < post.len() implies post[i].student
                != post[j].student by {
                if j < pre.len() {
                    assert(pre[i].student != pre[j].student);
                } else {
                    assert(post[j].student == student);
                    if post[i].student == student {
                        assert(enrolled(pre, student));
                    }
                }
            }
            assert(enrolled(self@.enrollments, student)) by {
                assert(post[post.len() - 1].student == student);
            }
        }
        Ok(())
    }
}

} // verus!
