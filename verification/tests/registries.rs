use web3_academy::Academy;
use web3_academy::cohort::CohortStatus;
use web3_academy::error::CustomError;

const ADMIN: u64 = 1;
const INSTRUCTOR: u64 = 2;
const STUDENT: u64 = 3;

fn academy_with_roles() -> Academy {
    let mut a = Academy::new();
    assert!(a.create_role(ADMIN, true, false).is_ok());
    assert!(a.create_role(INSTRUCTOR, false, true).is_ok());
    a
}

fn academy_with_cohort(name: &str) -> Academy {
    let mut a = academy_with_roles();
    assert!(a.create_cohort(ADMIN, name.to_string(), "d".to_string(), 1000, 2000).is_ok());
    a
}

#[test]
fn role_self_registration_and_lookup() {
    let mut a = Academy::new();
    assert!(a.create_role(ADMIN, true, false).is_ok());
    let rec = a.role_of(ADMIN).unwrap();
    assert_eq!(rec.authority, ADMIN);
    assert!(rec.is_admin);
    assert!(!rec.is_instructor);
    assert!(a.role_of(99).is_none());
}

#[test]
fn duplicate_role_rejected() {
    let mut a = Academy::new();
    assert!(a.create_role(ADMIN, true, false).is_ok());
    assert_eq!(a.create_role(ADMIN, false, true), Err(CustomError::DuplicateRecord));
    // the flags of the first call survive the failed second call
    assert!(a.role_of(ADMIN).unwrap().is_admin);
}

#[test]
fn cohort_requires_admin() {
    let mut a = academy_with_roles();
    let r = a.create_cohort(INSTRUCTOR, "Batch-1".to_string(), "d".to_string(), 1000, 2000);
    assert_eq!(r, Err(CustomError::Unauthorized));
    let r = a.create_cohort(STUDENT, "Batch-1".to_string(), "d".to_string(), 1000, 2000);
    assert_eq!(r, Err(CustomError::Unauthorized));
    assert_eq!(a.cohort_count(), 0);
}

#[test]
fn duplicate_cohort_name_rejected() {
    let mut a = academy_with_cohort("Batch-1");
    let r = a.create_cohort(ADMIN, "Batch-1".to_string(), "other".to_string(), 5, 9);
    assert_eq!(r, Err(CustomError::DuplicateRecord));
    assert_eq!(a.cohort_count(), 1);
}

#[test]
fn distinct_cohort_names_never_collide() {
    let mut a = academy_with_cohort("Batch-1");
    assert!(a.create_cohort(ADMIN, "Batch-2".to_string(), "d".to_string(), 1000, 2000).is_ok());
    assert_eq!(a.cohort_count(), 2);
    assert!(a.has_cohort(&"Batch-1".to_string()));
    assert!(a.has_cohort(&"Batch-2".to_string()));
}

#[test]
fn cohort_date_range_validated() {
    let mut a = academy_with_roles();
    let r = a.create_cohort(ADMIN, "B".to_string(), "d".to_string(), 2000, 1000);
    assert_eq!(r, Err(CustomError::InvalidDateRange));
    let r = a.create_cohort(ADMIN, "B".to_string(), "d".to_string(), 1000, 1000);
    assert_eq!(r, Err(CustomError::InvalidDateRange));
}

#[test]
fn cohort_name_length_bounds() {
    let mut a = academy_with_roles();
    let just_fits = "n".repeat(50);
    assert!(a.create_cohort(ADMIN, just_fits, "d".to_string(), 1, 2).is_ok());
    let too_long = "n".repeat(51);
    let r = a.create_cohort(ADMIN, too_long, "d".to_string(), 1, 2);
    assert_eq!(r, Err(CustomError::NameTooLong));
}

#[test]
fn cohort_name_bound_counts_bytes_not_chars() {
    let mut a = academy_with_roles();
    // 26 two-byte characters: 26 chars but 52 bytes, over the 50-byte maximum
    let two_byte_chars = "\u{e9}".repeat(26);
    let r = a.create_cohort(ADMIN, two_byte_chars, "d".to_string(), 1, 2);
    assert_eq!(r, Err(CustomError::NameTooLong));
}

#[test]
fn empty_cohort_name_is_a_key_like_any_other() {
    let mut a = academy_with_roles();
    assert!(a.create_cohort(ADMIN, String::new(), "d".to_string(), 1, 2).is_ok());
    assert!(a.has_cohort(&String::new()));
    let r = a.create_cohort(ADMIN, String::new(), "e".to_string(), 3, 4);
    assert_eq!(r, Err(CustomError::DuplicateRecord));
}

#[test]
fn cohort_description_length_bound() {
    let mut a = academy_with_roles();
    let r = a.create_cohort(ADMIN, "B".to_string(), "d".repeat(201), 1, 2);
    assert_eq!(r, Err(CustomError::DescriptionTooLong));
    assert!(a.create_cohort(ADMIN, "B".to_string(), "d".repeat(200), 1, 2).is_ok());
}

#[test]
fn cohort_status_update_by_creator_admin() {
    let mut a = academy_with_cohort("Batch-1");
    let name = "Batch-1".to_string();
    assert_eq!(a.cohort_status(&name), Some(CohortStatus::Upcoming));
    assert!(a.update_cohort_status(ADMIN, &name, CohortStatus::Active).is_ok());
    assert_eq!(a.cohort_status(&name), Some(CohortStatus::Active));
    // no transition order is enforced: regression is possible
    assert!(a.update_cohort_status(ADMIN, &name, CohortStatus::Upcoming).is_ok());
    assert_eq!(a.cohort_status(&name), Some(CohortStatus::Upcoming));
}

#[test]
fn cohort_status_update_denied_to_non_creator() {
    let mut a = academy_with_cohort("Batch-1");
    let other_admin = 40;
    assert!(a.create_role(other_admin, true, false).is_ok());
    let name = "Batch-1".to_string();
    // an admin who is not the creator is refused
    assert_eq!(
        a.update_cohort_status(other_admin, &name, CohortStatus::Active),
        Err(CustomError::Unauthorized)
    );
    // an instructor without the admin flag is refused as well
    assert_eq!(
        a.update_cohort_status(INSTRUCTOR, &name, CohortStatus::Active),
        Err(CustomError::Unauthorized)
    );
    assert_eq!(
        a.update_cohort_status(ADMIN, &"missing".to_string(), CohortStatus::Active),
        Err(CustomError::CourseNotFound)
    );
}

#[test]
fn course_creation_and_gates() {
    let mut a = academy_with_cohort("Batch-1");
    // a plain student may not create a course
    let r = a.create_course(
        STUDENT,
        "Intro".to_string(),
        "d".to_string(),
        "u".to_string(),
        "Batch-1".to_string(),
        1100,
    );
    assert_eq!(r, Err(CustomError::Unauthorized));
    // the cohort reference must resolve
    let r = a.create_course(
        INSTRUCTOR,
        "Intro".to_string(),
        "d".to_string(),
        "u".to_string(),
        "missing".to_string(),
        1100,
    );
    assert_eq!(r, Err(CustomError::CourseNotFound));
    assert!(
        a.create_course(
            INSTRUCTOR,
            "Intro".to_string(),
            "d".to_string(),
            "u".to_string(),
            "Batch-1".to_string(),
            1100,
        ).is_ok()
    );
    assert!(a.has_course(&"Intro".to_string()));
    // titles are exclusive, also against an admin caller
    let r = a.create_course(
        ADMIN,
        "Intro".to_string(),
        "e".to_string(),
        "v".to_string(),
        "Batch-1".to_string(),
        1200,
    );
    assert_eq!(r, Err(CustomError::DuplicateRecord));
    assert_eq!(a.course_count(), 1);
}

#[test]
fn course_length_bounds() {
    let mut a = academy_with_cohort("Batch-1");
    let cohort = "Batch-1".to_string();
    let r = a.create_course(ADMIN, "t".repeat(101), "d".to_string(), "u".to_string(), cohort.clone(), 0);
    assert_eq!(r, Err(CustomError::NameTooLong));
    let r = a.create_course(ADMIN, "T".to_string(), "d".repeat(501), "u".to_string(), cohort.clone(), 0);
    assert_eq!(r, Err(CustomError::DescriptionTooLong));
    let r = a.create_course(ADMIN, "T".to_string(), "d".to_string(), "u".repeat(201), cohort, 0);
    assert_eq!(r, Err(CustomError::UrlTooLong));
}

#[test]
fn template_creation_and_gates() {
    let mut a = academy_with_cohort("Batch-1");
    assert!(
        a.create_course(
            INSTRUCTOR,
            "Intro".to_string(),
            "d".to_string(),
            "u".to_string(),
            "Batch-1".to_string(),
            1100,
        ).is_ok()
    );
    let r = a.create_assignment_template(
        STUDENT,
        "HW1".to_string(),
        "d".to_string(),
        1500,
        "Intro".to_string(),
    );
    assert_eq!(r, Err(CustomError::Unauthorized));
    let r = a.create_assignment_template(
        INSTRUCTOR,
        "HW1".to_string(),
        "d".to_string(),
        1500,
        "missing".to_string(),
    );
    assert_eq!(r, Err(CustomError::CourseNotFound));
    assert!(
        a.create_assignment_template(
            INSTRUCTOR,
            "HW1".to_string(),
            "d".to_string(),
            1500,
            "Intro".to_string(),
        ).is_ok()
    );
    assert!(a.has_template(&"HW1".to_string()));
    let r = a.create_assignment_template(
        ADMIN,
        "HW1".to_string(),
        "e".to_string(),
        1600,
        "Intro".to_string(),
    );
    assert_eq!(r, Err(CustomError::DuplicateRecord));
    assert_eq!(a.template_count(), 1);
}

#[test]
fn enrollment_happens_once() {
    let mut a = academy_with_cohort("Batch-1");
    assert!(a.enroll_student(STUDENT, "Batch-1".to_string(), 1200).is_ok());
    assert_eq!(a.enrollment_count(STUDENT), 1);
    // the second call fails, even naming another cohort
    assert!(a.create_cohort(ADMIN, "Batch-2".to_string(), "d".to_string(), 1, 2).is_ok());
    assert_eq!(
        a.enroll_student(STUDENT, "Batch-2".to_string(), 1300),
        Err(CustomError::DuplicateRecord)
    );
    assert_eq!(a.enrollment_count(STUDENT), 1);
    assert!(a.is_enrolled(STUDENT));
}

#[test]
fn enrollment_checks_cohort() {
    let mut a = academy_with_cohort("Batch-1");
    assert_eq!(
        a.enroll_student(STUDENT, "missing".to_string(), 1200),
        Err(CustomError::CourseNotFound)
    );
    let name = "Batch-1".to_string();
    assert!(a.update_cohort_status(ADMIN, &name, CohortStatus::Active).is_ok());
    assert_eq!(
        a.enroll_student(STUDENT, "Batch-1".to_string(), 1200),
        Err(CustomError::CohortAlreadyStarted)
    );
    assert!(!a.is_enrolled(STUDENT));
}
