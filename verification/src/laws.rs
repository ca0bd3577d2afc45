//! The laws of the registry layer: properties that relate several operations
//! or several calls, stated over the spec-level transition functions and
//! proved once for every state and every argument.

use vstd::prelude::*;
use crate::cohort::{cohort_named, create_cohort_outcome};
use crate::certificate::{certificate_for, mint_certificate_outcome, passing_grade_on_record};
use crate::enrollment::{
    enroll_student_outcome, enrolled, enrollment_count_of, lemma_enrollment_count_zero,
};
use crate::error::CustomError;
use crate::role::admin_role;
use crate::submission::{grade_assignment_outcome, submission_for, submit_assignment_outcome};
use crate::AcademyView;

verus! {

/// Grading is total on the grade range: with an authorized caller and an
/// existing submission, `grade_assignment` succeeds exactly when the grade
/// is at most 100, and a larger grade fails `InvalidGrade`.
pub proof fn lemma_grade_validity(
    pre: AcademyView,
    caller: u64,
    student: u64,
    course: Seq<char>,
    grade: u8,
)
    requires
        crate::role::staff_role(pre.roles, caller),
        submission_for(pre.submissions, student, course),
    ensures
        grade_assignment_outcome(pre, caller, student, course, grade).1 == Ok::<(), CustomError>(())
            <==> grade <= 100,
        grade > 100 ==> grade_assignment_outcome(pre, caller, student, course, grade).1 == Err::<
            (),
            CustomError,
        >(CustomError::InvalidGrade),
{
}

/// Only an admin-flagged caller can create a cohort: the call fails
/// `Unauthorized` exactly when the caller holds no admin-flagged role record,
/// so a caller with only the instructor capability is refused.
pub proof fn lemma_cohort_creation_requires_admin(
    pre: AcademyView,
    caller: u64,
    name: Seq<char>,
    description: Seq<char>,
    start_date: i64,
    end_date: i64,
)
    ensures
        create_cohort_outcome(pre, caller, name, description, start_date, end_date).1 == Err::<
            (),
            CustomError,
        >(CustomError::Unauthorized) <==> !admin_role(pre.roles, caller),
{
}

/// Cohort names are exclusive: once a cohort is created under a name, any
/// further creation under the same name by an admin-flagged caller fails
/// `DuplicateRecord`, whatever its other arguments.
pub proof fn lemma_duplicate_cohort_rejected(
    pre: AcademyView,
    caller1: u64,
    caller2: u64,
    name: Seq<char>,
    description1: Seq<char>,
    description2: Seq<char>,
    start1: i64,
    end1: i64,
    start2: i64,
    end2: i64,
)
    requires
        create_cohort_outcome(pre, caller1, name, description1, start1, end1).1 == Ok::<
            (),
            CustomError,
        >(()),
        admin_role(pre.roles, caller2),
    ensures
        create_cohort_outcome(
            create_cohort_outcome(pre, caller1, name, description1, start1, end1).0,
            caller2,
            name,
            description2,
            start2,
            end2,
        ).1 == Err::<(), CustomError>(CustomError::DuplicateRecord),
{
    let s1 = create_cohort_outcome(pre, caller1, name, description1, start1, end1).0;
    assert(s1.roles == pre.roles);
    assert(s1.cohorts[s1.cohorts.len() - 1].name == name);
    assert(cohort_named(s1.cohorts, name));
}

/// Distinct cohort names never collide: creating a cohort under one name
/// leaves the occupancy of every other name unchanged.
pub proof fn lemma_distinct_cohort_names_independent(
    pre: AcademyView,
    caller: u64,
    name: Seq<char>,
    other: Seq<char>,
    description: Seq<char>,
    start_date: i64,
    end_date: i64,
)
    requires
        name != other,
    ensures
        cohort_named(
            create_cohort_outcome(pre, caller, name, description, start_date, end_date).0.cohorts,
            other,
        ) == cohort_named(pre.cohorts, other),
{
    let s1 = create_cohort_outcome(pre, caller, name, description, start_date, end_date).0;
    if cohort_named(s1.cohorts, other) {
        let i = choose|i: int| 0 <= i < s1.cohorts.len() && s1.cohorts[i].name == other;
        if i < pre.cohorts.len() {
            assert(pre.cohorts[i].name == other);
        }
        assert(cohort_named(pre.cohorts, other));
    }
    if cohort_named(pre.cohorts, other) {
        let i = choose|i: int| 0 <= i < pre.cohorts.len() && pre.cohorts[i].name == other;
        assert(s1.cohorts[i].name == other);
        assert(cohort_named(s1.cohorts, other));
    }
}

/// Submission is idempotent by rejection: after a successful submission for a
/// (student, course) pair, any further submission for the same pair fails
/// `DuplicateRecord`, whatever its locator or timestamp.
pub proof fn lemma_submit_rejects_second(
    pre: AcademyView,
    student: u64,
    course: Seq<char>,
    link1: Seq<char>,
    link2: Seq<char>,
    time1: i64,
    time2: i64,
)
    requires
        submit_assignment_outcome(pre, student, course, link1, time1).1 == Ok::<(), CustomError>(
            (),
        ),
    ensures
        submit_assignment_outcome(
            submit_assignment_outcome(pre, student, course, link1, time1).0,
            student,
            course,
            link2,
            time2,
        ).1 == Err::<(), CustomError>(CustomError::DuplicateRecord),
{
    let s1 = submit_assignment_outcome(pre, student, course, link1, time1).0;
    let n = s1.submissions.len() - 1;
    assert(s1.submissions[n].student == student && s1.submissions[n].course == course);
    assert(submission_for(s1.submissions, student, course));
}

/// Enrollment happens exactly once: a successful enrollment leaves the
/// student with exactly one enrollment record, and any further enrollment
/// call for the same student fails `DuplicateRecord`, whatever cohort it
/// names.
pub proof fn lemma_enroll_exactly_once(
    pre: AcademyView,
    student: u64,
    cohort1: Seq<char>,
    cohort2: Seq<char>,
    time1: i64,
    time2: i64,
)
    requires
        enroll_student_outcome(pre, student, cohort1, time1).1 == Ok::<(), CustomError>(()),
    ensures
        enrollment_count_of(
            enroll_student_outcome(pre, student, cohort1, time1).0.enrollments,
            student,
        ) == 1,
        enroll_student_outcome(
            enroll_student_outcome(pre, student, cohort1, time1).0,
            student,
            cohort2,
            time2,
        ).1 == Err::<(), CustomError>(CustomError::DuplicateRecord),
{
    let s1 = enroll_student_outcome(pre, student, cohort1, time1).0;
    let n = s1.enrollments.len() - 1;
    assert(s1.enrollments[n].student == student);
    assert(enrolled(s1.enrollments, student));
    assert(s1.enrollments.drop_last() =~= pre.enrollments);
    lemma_enrollment_count_zero(pre.enrollments, student);
    assert(enrollment_count_of(s1.enrollments, student) == 1);
}

/// Certificate issuance is one-shot: after a successful issuance for a
/// (student, course) pair, any further issuance call for the same pair fails
/// `DuplicateRecord`.
pub proof fn lemma_certificate_minted_once(pre: AcademyView, student: u64, course: Seq<char>)
    requires
        mint_certificate_outcome(pre, student, course).1 == Ok::<(), CustomError>(()),
    ensures
        mint_certificate_outcome(mint_certificate_outcome(pre, student, course).0, student, course).1
            == Err::<(), CustomError>(CustomError::DuplicateRecord),
{
    let s1 = mint_certificate_outcome(pre, student, course).0;
    assert(s1.submissions == pre.submissions);
    assert(passing_grade_on_record(s1.submissions, student, course));
    let n = s1.certificates.len() - 1;
    assert(s1.certificates[n].student == student && s1.certificates[n].course == course);
    assert(certificate_for(s1.certificates, student, course));
}

} // verus!
