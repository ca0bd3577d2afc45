use vstd::prelude::*;
use crate::error::CustomError;
use crate::role::staff_role;
use crate::{Academy, AcademyView, MAX_URL_LEN, byte_len, str_byte_len};

verus! {

/// One submission per (student, course) pair: its record slot derives from
/// both, so a second submission for the same pair is rejected. The grade
/// starts unset and is written by `grade_assignment`; re-grading overwrites
/// the previous value silently.
pub struct AssignmentSubmissionAccount {
    pub student: u64,
    pub course: String,
    pub submission_link: String,
    pub submitted_at: i64,
    pub grade: Option<u8>,
}

/// Mathematical model of one submission record.
pub ghost struct SubmissionView {
    pub student: u64,
    pub course: Seq<char>,
    pub submission_link: Seq<char>,
    pub submitted_at: i64,
    pub grade: Option<u8>,
}

impl View for AssignmentSubmissionAccount {
    type V = SubmissionView;

    open spec fn view(&self) -> SubmissionView {
        SubmissionView {
            student: self.student,
            course: self.course@,
            submission_link: self.submission_link@,
            submitted_at: self.submitted_at,
            grade: self.grade,
        }
    }
}

/// Some submission record belongs to the (student, course) pair.
pub open spec fn submission_for(
    submissions: Seq<SubmissionView>,
    student: u64,
    course: Seq<char>,
) -> bool {
    exists|i: int|
        0 <= i < submissions.len() && submissions[i].student == student && submissions[i].course
            == course
}

/// The index of the submission record of the (student, course) pair;
/// meaningful when `submission_for` holds and the pairs are unique.
pub open spec fn submission_index(
    submissions: Seq<SubmissionView>,
    student: u64,
    course: Seq<char>,
) -> int {
    choose|i: int|
        0 <= i < submissions.len() && submissions[i].student == student && submissions[i].course
            == course
}

/// At most one submission record per (student, course) pair.
pub open spec fn submissions_unique(submissions: Seq<SubmissionView>) -> bool {
    forall|i: int, j: int|
        0 <= i < j < submissions.len() ==> !(submissions[i].student == submissions[j].student
            && submissions[i].course == submissions[j].course)
}

/// Every stored submission keeps its locator within the declared byte
/// maximum, and any recorded grade within 0 to 100.
pub open spec fn submissions_bounded(submissions: Seq<SubmissionView>) -> bool {
    forall|i: int|
        0 <= i < submissions.len() ==> #[trigger] str_byte_len(submissions[i].submission_link)
            <= MAX_URL_LEN && match submissions[i].grade {
            Some(g) => g <= 100,
            None => true,
        }
}

/// State transition and result of `submit_assignment`. Guards, in order: the
/// (student, course) slot must be free; the locator must stay within its
/// declared byte maximum. On success an ungraded record stamped with the
/// ledger-supplied time `now` is appended. Neither enrollment nor a template
/// deadline is checked at this layer.
pub open spec fn submit_assignment_outcome(
    pre: AcademyView,
    student: u64,
    course: Seq<char>,
    submission_link: Seq<char>,
    now: i64,
) -> (AcademyView, Result<(), CustomError>) {
    if submission_for(pre.submissions, student, course) {
        (pre, Err(CustomError::DuplicateRecord))
    } else if str_byte_len(submission_link) > MAX_URL_LEN {
        (pre, Err(CustomError::UrlTooLong))
    } else {
        (
            AcademyView {
                submissions: pre.submissions.push(
                    SubmissionView {
                        student,
                        course,
                        submission_link,
                        submitted_at: now,
                        grade: None,
                    },
                ),
                ..pre
            },
            Ok(()),
        )
    }
}

/// State transition and result of `grade_assignment`. Guards, in order: the
/// caller must hold the admin or the instructor capability; the submission
/// must exist; the grade must not exceed 100. On success the grade is set
/// unconditionally, overwriting any earlier value.
pub open spec fn grade_assignment_outcome(
    pre: AcademyView,
    caller: u64,
    student: u64,
    course: Seq<char>,
    grade: u8,
) -> (AcademyView, Result<(), CustomError>) {
    if !staff_role(pre.roles, caller) {
        (pre, Err(CustomError::Unauthorized))
    } else if !submission_for(pre.submissions, student, course) {
        (pre, Err(CustomError::CourseNotFound))
    } else if grade > 100 {
        (pre, Err(CustomError::InvalidGrade))
    } else {
        let i = submission_index(pre.submissions, student, course);
        let s = pre.submissions[i];
        (
            AcademyView {
                submissions: pre.submissions.update(i, SubmissionView { grade: Some(grade), ..s }),
                ..pre
            },
            Ok(()),
        )
    }
}

impl Academy {
    /// Index of the submission record of the (student, course) pair, if one
    /// is stored.
    fn find_submission(&self, student: u64, course: &String) -> (r: Option<usize>)
        ensures
            match r {
                Some(i) => i < self@.submissions.len() && self@.submissions[i as int].student
                    == student && self@.submissions[i as int].course == course@,
                None => !submission_for(self@.submissions, student, course@),
            },
    {
        let n = self.submissions.len();
        let mut i: usize = 0;
        while i < n
            invariant
                n == self@.submissions.len(),
                i <= n,
                forall|j: int|
                    0 <= j < i ==> !(self@.submissions[j].student == student
                        && self@.submissions[j].course == course@),
            decreases n - i,
        {
            if self.submissions[i].student == student && self.submissions[i].course == *course {
                return Some(i);
            }
            i += 1;
        }
        None
    }

    /// Under pair uniqueness, `submission_index` agrees with any index whose
    /// record carries the (student, course) pair.
    pub(crate) proof fn lemma_submission_index_unique(&self, student: u64, course: Seq<char>, i: int)
        requires
            self.wf(),
            0 <= i < self@.submissions.len(),
            self@.submissions[i].student == student,
            self@.submissions[i].course == course,
        ensures
            submission_index(self@.submissions, student, course) == i,
    {
        let submissions = self@.submissions;
        assert(submission_for(submissions, student, course));
        let j = submission_index(submissions, student, course);
        if i < j {
            assert(!(submissions[i].student == submissions[j].student && submissions[i].course
                == submissions[j].course));
        } else if j < i {
            assert(!(submissions[j].student == submissions[i].student && submissions[j].course
                == submissions[i].course));
        }
    }

    /// Whether the (student, course) pair has a submission record.
    pub fn has_submission(&self, student: u64, course: &String) -> (b: bool)
        ensures
            b == submission_for(self@.submissions, student, course@),
    {
        self.find_submission(student, course).is_some()
    }

    /// The grade of the submission of the (student, course) pair: `None` when
    /// no submission exists, `Some(None)` while ungraded.
    pub fn submission_grade(&self, student: u64, course: &String) -> (r: Option<Option<u8>>)
        requires
            self.wf(),
        ensures
            match r {
                Some(g) => submission_for(self@.submissions, student, course@) && g
                    == self@.submissions[submission_index(self@.submissions, student, course@)].grade,
                None => !submission_for(self@.submissions, student, course@),
            },
    {
        match self.find_submission(student, course) {
            Some(i) => {
                let g = self.submissions[i].grade;
                proof {
                    self.lemma_submission_index_unique(student, course@, i as int);
                }
                Some(g)
            },
            None => None,
        }
    }

    /// Records a submission for the (student, course) pair: a pair-keyed
    /// insert-if-absent with locator validation; the new record is ungraded.
    /// `now` is the ledger-supplied timestamp.
    pub fn submit_assignment(
        &mut self,
        student: u64,
        course: String,
        submission_link: String,
        now: i64,
    ) -> (r: Result<(), CustomError>)
        requires
            old(self).wf(),
        ensures
            final(self).wf(),
            (final(self)@, r) == submit_assignment_outcome(
                old(self)@,
                student,
                course@,
                submission_link@,
                now,
            ),
            r is Ok <==> !submission_for(old(self)@.submissions, student, course@)
                && str_byte_len(submission_link@) <= MAX_URL_LEN,
    {
        if self.find_submission(student, &course).is_some() {
            return Err(CustomError::DuplicateRecord);
        }
        if byte_len(&submission_link) > MAX_URL_LEN {
            return Err(CustomError::UrlTooLong);
        }
        let rec = AssignmentSubmissionAccount {
            student,
            course,
            submission_link,
            submitted_at: now,
            grade: None,
        };
        let ghost rv = rec@;
        self.submissions.push(rec);
        proof {
            assert(self@.submissions =~= old(self)@.submissions.push(rv));
            let post = self@.submissions;
            let pre = old(self)@.submissions;
            assert forall|i: int, j: int| 0 <= i < j < post.len() implies !(post[i].student
                == post[j].student && post[i].course == post[j].course) by {
                if j < pre.len() {
                    assert(!(pre[i].student == pre[j].student && pre[i].course == pre[j].course));
                } else {
                    if post[i].student == rv.student && post[i].course == rv.course {
                        assert(submission_for(pre, rv.student, rv.course));
                    }
                }
            }
            assert forall|i: int| 0 <= i < post.len() implies #[trigger] str_byte_len(
                post[i].submission_link,
            ) <= MAX_URL_LEN && match post[i].grade {
                Some(g) => g <= 100,
                None => true,
            } by {
                if i < pre.len() {
                    assert(str_byte_len(pre[i].submission_link) <= MAX_URL_LEN && match pre[i].grade {
                        Some(g) => g <= 100,
                        None => true,
                    });
                } else {
                    assert(post[i] == rv);
                }
            }
        }
        Ok(())
    }

    /// Writes `grade` on the submission of the (student, course) pair: open
    /// to admins and instructors, rejecting grades above 100; an earlier
    /// grade is overwritten silently.
    pub fn grade_assignment(&mut self, caller: u64, student: u64, course: &String, grade: u8) -> (r:
        Result<(), CustomError>)
        requires
            old(self).wf(),
        ensures
            final(self).wf(),
            (final(self)@, r) == grade_assignment_outcome(
                old(self)@,
                caller,
                student,
                course@,
                grade,
            ),
            staff_role(old(self)@.roles, caller) && submission_for(
                old(self)@.submissions,
                student,
                course@,
            ) ==> (r is Ok <==> grade <= 100),
    {
        if !self.caller_is_staff(caller) {
            return Err(CustomError::Unauthorized);
        }
        let idx = match self.find_submission(student, course) {
            Some(i) => i,
            None => {
                return Err(CustomError::CourseNotFound);
            },
        };
        proof {
            self.lemma_submission_index_unique(student, course@, idx as int);
        }
        if grade > 100 {
            return Err(CustomError::InvalidGrade);
        }
        let prev = &self.submissions[idx];
        let rec = AssignmentSubmissionAccount {
            student: prev.student,
            course: prev.course.clone(),
            submission_link: prev.submission_link.clone(),
            submitted_at: prev.submitted_at,
            grade: Some(grade),
        };
        let ghost rv = rec@;
        self.submissions.set(idx, rec);
        proof {
            assert(self@.submissions =~= old(self)@.submissions.update(idx as int, rv));
            let post = self@.submissions;
            let pre = old(self)@.submissions;
            assert forall|i: int, j: int| 0 <= i < j < post.len() implies !(post[i].student
                == post[j].student && post[i].course == post[j].course) by {
                assert(post[i].student == pre[i].student && post[i].course == pre[i].course);
                assert(post[j].student == pre[j].student && post[j].course == pre[j].course);
                assert(!(pre[i].student == pre[j].student && pre[i].course == pre[j].course));
            }
            assert forall|i: int| 0 <= i < post.len() implies #[trigger] str_byte_len(
                post[i].submission_link,
            ) <= MAX_URL_LEN && match post[i].grade {
                Some(g) => g <= 100,
                None => true,
            } by {
                assert(str_byte_len(pre[i].submission_link) <= MAX_URL_LEN && match pre[i].grade {
                    Some(g) => g <= 100,
                    None => true,
                });
                if i == idx as int {
                    assert(post[i] == rv);
                }
            }
        }
        Ok(())
    }
}

} // verus!
