use web3_academy::Academy;
use web3_academy::certificate::transfer_certificate;
use web3_academy::error::CustomError;

const ADMIN: u64 = 1;
const INSTRUCTOR: u64 = 2;
const STUDENT: u64 = 3;

/// Roles, a cohort, the course "Intro", an enrollment of STUDENT and the
/// student's submission for it.
fn academy_with_submission() -> Academy {
    let mut a = Academy::new();
    assert!(a.create_role(ADMIN, true, false).is_ok());
    assert!(a.create_role(INSTRUCTOR, false, true).is_ok());
    assert!(a.create_cohort(ADMIN, "Batch-1".to_string(), "d".to_string(), 1000, 2000).is_ok());
    assert!(
        a.create_course(
            INSTRUCTOR,
            "Intro".to_string(),
            "d".to_string(),
            "u".to_string(),
            "Batch-1".to_string(),
            1100,
        ).is_ok()
    );
    assert!(a.enroll_student(STUDENT, "Batch-1".to_string(), 1200).is_ok());
    assert!(a.submit_assignment(STUDENT, "Intro".to_string(), "ipfs://x".to_string(), 1300).is_ok());
    a
}

#[test]
fn grade_zero_and_hundred_succeed() {
    let mut a = academy_with_submission();
    let course = "Intro".to_string();
    assert!(a.grade_assignment(INSTRUCTOR, STUDENT, &course, 0).is_ok());
    assert_eq!(a.submission_grade(STUDENT, &course), Some(Some(0)));
    assert!(a.grade_assignment(INSTRUCTOR, STUDENT, &course, 100).is_ok());
    assert_eq!(a.submission_grade(STUDENT, &course), Some(Some(100)));
}

#[test]
fn grade_101_fails_invalid_grade() {
    let mut a = academy_with_submission();
    let course = "Intro".to_string();
    assert_eq!(
        a.grade_assignment(INSTRUCTOR, STUDENT, &course, 101),
        Err(CustomError::InvalidGrade)
    );
    // the submission stays ungraded
    assert_eq!(a.submission_grade(STUDENT, &course), Some(None));
}

#[test]
fn grading_gates() {
    let mut a = academy_with_submission();
    let course = "Intro".to_string();
    assert_eq!(
        a.grade_assignment(STUDENT, STUDENT, &course, 50),
        Err(CustomError::Unauthorized)
    );
    assert_eq!(
        a.grade_assignment(ADMIN, STUDENT, &"missing".to_string(), 50),
        Err(CustomError::CourseNotFound)
    );
    // re-grading overwrites silently
    assert!(a.grade_assignment(ADMIN, STUDENT, &course, 40).is_ok());
    assert!(a.grade_assignment(ADMIN, STUDENT, &course, 95).is_ok());
    assert_eq!(a.submission_grade(STUDENT, &course), Some(Some(95)));
}

#[test]
fn submission_is_idempotent_by_rejection() {
    let mut a = academy_with_submission();
    assert_eq!(
        a.submit_assignment(STUDENT, "Intro".to_string(), "ipfs://y".to_string(), 1400),
        Err(CustomError::DuplicateRecord)
    );
    // the first locator and the unset grade survive
    assert_eq!(a.submission_grade(STUDENT, &"Intro".to_string()), Some(None));
}

#[test]
fn submission_link_length_bound() {
    let mut a = academy_with_submission();
    let r = a.submit_assignment(9, "Intro".to_string(), "u".repeat(201), 1400);
    assert_eq!(r, Err(CustomError::UrlTooLong));
    assert!(a.submit_assignment(9, "Intro".to_string(), "u".repeat(200), 1400).is_ok());
}

#[test]
fn certificate_requires_passing_grade() {
    let mut a = academy_with_submission();
    let course = "Intro".to_string();
    // no grade on record yet
    let r = a.mint_certificate(
        INSTRUCTOR,
        STUDENT,
        course.clone(),
        "ipfs://m".to_string(),
        "Cert".to_string(),
        "CRT".to_string(),
    );
    assert_eq!(r.err(), Some(CustomError::InsufficientGrade));
    // a grade below the threshold of 60 does not unlock issuance
    assert!(a.grade_assignment(INSTRUCTOR, STUDENT, &course, 59).is_ok());
    let r = a.mint_certificate(
        INSTRUCTOR,
        STUDENT,
        course.clone(),
        "ipfs://m".to_string(),
        "Cert".to_string(),
        "CRT".to_string(),
    );
    assert_eq!(r.err(), Some(CustomError::InsufficientGrade));
    // the threshold itself passes
    assert!(a.grade_assignment(INSTRUCTOR, STUDENT, &course, 60).is_ok());
    let r = a.mint_certificate(
        INSTRUCTOR,
        STUDENT,
        course.clone(),
        "ipfs://m".to_string(),
        "Cert".to_string(),
        "CRT".to_string(),
    );
    assert!(r.is_ok());
    assert!(a.has_certificate(STUDENT, &course));
}

#[test]
fn certificate_minted_exactly_once() {
    let mut a = academy_with_submission();
    let course = "Intro".to_string();
    assert!(a.grade_assignment(INSTRUCTOR, STUDENT, &course, 95).is_ok());
    assert!(
        a.mint_certificate(
            INSTRUCTOR,
            STUDENT,
            course.clone(),
            "ipfs://m".to_string(),
            "Cert".to_string(),
            "CRT".to_string(),
        ).is_ok()
    );
    let r = a.mint_certificate(
        INSTRUCTOR,
        STUDENT,
        course.clone(),
        "ipfs://m".to_string(),
        "Cert".to_string(),
        "CRT".to_string(),
    );
    assert_eq!(r.err(), Some(CustomError::DuplicateRecord));
    assert_eq!(a.certificate_count(), 1);
}

#[test]
fn certificate_plan_orders_one_unit_nonfungible() {
    let mut a = academy_with_submission();
    let course = "Intro".to_string();
    assert!(a.grade_assignment(INSTRUCTOR, STUDENT, &course, 95).is_ok());
    let plan = a
        .mint_certificate(
            INSTRUCTOR,
            STUDENT,
            course,
            "ipfs://m".to_string(),
            "Cert".to_string(),
            "CRT".to_string(),
        )
        .unwrap();
    assert_eq!(plan.mint.owner, STUDENT);
    assert_eq!(plan.mint.amount, 1);
    assert_eq!(plan.mint.decimals, 0);
    assert_eq!(plan.metadata.name, "Cert");
    assert_eq!(plan.metadata.symbol, "CRT");
    assert_eq!(plan.metadata.uri, "ipfs://m");
    assert_eq!(plan.metadata.creator, INSTRUCTOR);
    assert!(plan.metadata.creator_verified);
    assert_eq!(plan.metadata.creator_share, 100);
    assert_eq!(plan.metadata.royalty_bps, 500);
    assert_eq!(plan.edition.max_supply, 0);
}

#[test]
fn transfer_moves_exactly_one_unit() {
    // mint, then ask to move 1000 units: exactly 1 moves
    let mut a = academy_with_submission();
    let course = "Intro".to_string();
    assert!(a.grade_assignment(INSTRUCTOR, STUDENT, &course, 95).is_ok());
    assert!(
        a.mint_certificate(
            INSTRUCTOR,
            STUDENT,
            course,
            "ipfs://m".to_string(),
            "Cert".to_string(),
            "CRT".to_string(),
        ).is_ok()
    );
    let op = transfer_certificate(STUDENT, 8, 1000);
    assert_eq!(op.amount, 1);
    assert_eq!(op.from, STUDENT);
    assert_eq!(op.to, 8);
    // the requested amount never reaches the order
    let op = transfer_certificate(STUDENT, 8, 0);
    assert_eq!(op.amount, 1);
}
