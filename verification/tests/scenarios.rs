use web3_academy::Academy;
use web3_academy::cohort::CohortStatus;
use web3_academy::error::CustomError;

const ADMIN: u64 = 1;
const INSTRUCTOR: u64 = 2;
const STUDENT: u64 = 3;

#[test]
fn admin_creates_cohort_then_duplicate_fails() {
    let mut a = Academy::new();
    assert!(a.create_role(ADMIN, true, false).is_ok());
    let r = a.create_cohort(ADMIN, "Batch-1".to_string(), "first batch".to_string(), 1000, 2000);
    assert!(r.is_ok());
    assert_eq!(a.cohort_status(&"Batch-1".to_string()), Some(CohortStatus::Upcoming));
    let r = a.create_cohort(ADMIN, "Batch-1".to_string(), "again".to_string(), 1000, 2000);
    assert_eq!(r, Err(CustomError::DuplicateRecord));
    assert_eq!(a.cohort_count(), 1);
}

#[test]
fn full_credentialing_workflow() {
    let mut a = Academy::new();
    assert!(a.create_role(ADMIN, true, false).is_ok());
    assert!(a.create_role(INSTRUCTOR, false, true).is_ok());
    assert!(a.create_cohort(ADMIN, "Batch-1".to_string(), "first batch".to_string(), 1000, 2000).is_ok());

    // instructor creates the course "Intro" under Batch-1
    assert!(
        a.create_course(
            INSTRUCTOR,
            "Intro".to_string(),
            "an introduction".to_string(),
            "ipfs://media".to_string(),
            "Batch-1".to_string(),
            1100,
        ).is_ok()
    );

    // student enrolls in Batch-1
    assert!(a.enroll_student(STUDENT, "Batch-1".to_string(), 1200).is_ok());
    assert!(a.is_enrolled(STUDENT));

    // student submits for "Intro"; the grade starts unset
    assert!(a.submit_assignment(STUDENT, "Intro".to_string(), "ipfs://x".to_string(), 1300).is_ok());
    assert_eq!(a.submission_grade(STUDENT, &"Intro".to_string()), Some(None));

    // instructor grades with 95
    assert!(a.grade_assignment(INSTRUCTOR, STUDENT, &"Intro".to_string(), 95).is_ok());
    assert_eq!(a.submission_grade(STUDENT, &"Intro".to_string()), Some(Some(95)));

    // instructor mints the certificate: one non-fungible unit for the student
    let plan = a
        .mint_certificate(
            INSTRUCTOR,
            STUDENT,
            "Intro".to_string(),
            "ipfs://cert".to_string(),
            "Intro Certificate".to_string(),
            "CERT".to_string(),
        )
        .unwrap();
    assert_eq!(plan.mint.owner, STUDENT);
    assert_eq!(plan.mint.amount, 1);
    assert_eq!(plan.mint.decimals, 0);
    assert_eq!(plan.edition.max_supply, 0);
    assert!(a.has_certificate(STUDENT, &"Intro".to_string()));
}
