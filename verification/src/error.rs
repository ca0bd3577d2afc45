use vstd::prelude::*;

verus! {

/// Failure taxonomy of the academy ledger.
///
/// Every operation either commits in full or aborts with exactly one of these
/// tags; the host runtime's atomic commit guarantees that no partial write
/// survives a failed call. The taxonomy is flat and non-recoverable within a
/// single operation; retries are a client-side concern.
///
/// Some tags are part of the declared surface but are not produced by any
/// operation of this layer; each such tag says so in its comment.
#[derive(Clone, Copy, PartialEq, Eq, Structural, Debug)]
pub enum CustomError {
    /// The caller's role record does not grant the attempted operation.
    Unauthorized,
    /// Reserved tag for a malformed role configuration; no operation of this
    /// layer produces it.
    InvalidRole,
    /// A grade above 100 was supplied to `grade_assignment`.
    InvalidGrade,
    /// A cohort's start timestamp does not precede its end timestamp.
    InvalidDateRange,
    /// The record's deterministic slot is already occupied: a cohort, course,
    /// role, enrollment, assignment template, submission or certificate with
    /// the same natural key already exists.
    DuplicateRecord,
    /// Enrollment was attempted after the cohort left the `Upcoming` state.
    CohortAlreadyStarted,
    /// Reserved tag for operations that need a cohort to have started; no
    /// operation of this layer produces it.
    CohortNotStarted,
    /// Reserved tag for deadline enforcement on submissions; the deadline is
    /// declared on assignment templates but not enforced at this layer.
    DeadlinePassed,
    /// A record reference (cohort, course or submission) does not resolve to
    /// an existing record.
    CourseNotFound,
    /// Reserved tag for enrollment checks on submission; no operation of this
    /// layer produces it.
    NotEnrolled,
    /// Reserved tag for completion-status checks; no operation of this layer
    /// produces it.
    InvalidCompletionStatus,
    /// No passing grade is on record for the (student, course) pair named by
    /// a certificate-issuance call.
    InsufficientGrade,
    /// A cohort name or a course or template title exceeds its declared
    /// maximum byte length.
    NameTooLong,
    /// A description exceeds its declared maximum byte length.
    DescriptionTooLong,
    /// A media locator or submission locator exceeds its declared maximum
    /// byte length.
    UrlTooLong,
    /// Reserved tag for the host runtime's compute metering; surfaced by the
    /// host, never by this layer.
    ResourceExhausted,
}

} // verus!
