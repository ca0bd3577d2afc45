//! A verified model of a credentialing ledger program for an education
//! platform: administrators define cohorts and courses, instructors issue
//! assignment templates and grades, students enroll and submit work, and a
//! passing grade unlocks issuance of a one-of-one credential token.
//!
//! Every record lives at a deterministic slot derived from a namespace tag and
//! a natural key; each registry here models that addressing scheme as an
//! insert-if-absent store whose key-uniqueness invariant reproduces the host
//! ledger's exclusivity guarantee. The external token ledger and the external
//! metadata-attachment service are collaborators outside this state: the
//! certificate workflow validates its preconditions against the registries and
//! hands back the exact operations those services are to perform inside the
//! same atomic unit.

use vstd::prelude::*;

pub mod assignment;
pub mod certificate;
pub mod cohort;
pub mod course;
pub mod enrollment;
pub mod error;
pub mod laws;
pub mod role;
pub mod submission;

use crate::assignment::AssignmentTemplateAccount;
use crate::assignment::AssignmentTemplateView;
use crate::assignment::templates_unique;
use crate::certificate::CertificateRecord;
use crate::certificate::CertificateView;
use crate::certificate::certificates_unique;
use crate::cohort::CohortAccount;
use crate::cohort::CohortView;
use crate::cohort::cohorts_unique;
use crate::course::CourseAccount;
use crate::course::CourseView;
use crate::course::courses_unique;
use crate::enrollment::EnrollmentAccount;
use crate::enrollment::EnrollmentView;
use crate::enrollment::enrollments_unique;
use crate::role::RoleAccount;
use crate::role::roles_unique;
use crate::submission::AssignmentSubmissionAccount;
use crate::submission::SubmissionView;
use crate::submission::submissions_unique;

verus! {

/// Maximum byte length of a cohort name.
pub const MAX_NAME_LEN: usize = 50;

/// Maximum byte length of a cohort description.
pub const MAX_COHORT_DESC_LEN: usize = 200;

/// Maximum byte length of a course or assignment-template title.
pub const MAX_TITLE_LEN: usize = 100;

/// Maximum byte length of a course or assignment-template description.
pub const MAX_DESC_LEN: usize = 500;

/// Maximum byte length of a media locator or submission locator.
pub const MAX_URL_LEN: usize = 200;

/// Byte length of a string under UTF-8 encoding; the declared maxima bound
/// bytes, not characters.
pub open spec fn str_byte_len(s: Seq<char>) -> nat {
    vstd::utf8::encode_utf8(s).len()
}

/// Executable byte length of a string, tied to `str_byte_len`.
pub fn byte_len(s: &String) -> (n: usize)
    ensures
        n == str_byte_len(s@),
{
    let b = s.as_str().as_bytes();
    proof {
        broadcast use vstd::slice::group_slice_axioms;

        assert(b@ == vstd::utf8::encode_utf8(s@));
    }
    b.len()
}

/// The whole ledger-resident state: one store per registry, each keyed by the
/// natural key its record addresses derive from.
pub struct Academy {
    pub(crate) roles: Vec<RoleAccount>,
    pub(crate) cohorts: Vec<CohortAccount>,
    pub(crate) courses: Vec<CourseAccount>,
    pub(crate) enrollments: Vec<EnrollmentAccount>,
    pub(crate) templates: Vec<AssignmentTemplateAccount>,
    pub(crate) submissions: Vec<AssignmentSubmissionAccount>,
    pub(crate) certificates: Vec<CertificateRecord>,
}

/// Mathematical model of the ledger state: one sequence of record views per
/// registry, in order of creation.
pub ghost struct AcademyView {
    pub roles: Seq<RoleAccount>,
    pub cohorts: Seq<CohortView>,
    pub courses: Seq<CourseView>,
    pub enrollments: Seq<EnrollmentView>,
    pub templates: Seq<AssignmentTemplateView>,
    pub submissions: Seq<SubmissionView>,
    pub certificates: Seq<CertificateView>,
}

impl View for Academy {
    type V = AcademyView;

    closed spec fn view(&self) -> AcademyView {
        AcademyView {
            roles: self.roles@,
            cohorts: self.cohorts@.map_values(|c: CohortAccount| c@),
            courses: self.courses@.map_values(|c: CourseAccount| c@),
            enrollments: self.enrollments@.map_values(|e: EnrollmentAccount| e@),
            templates: self.templates@.map_values(|t: AssignmentTemplateAccount| t@),
            submissions: self.submissions@.map_values(|s: AssignmentSubmissionAccount| s@),
            certificates: self.certificates@.map_values(|c: CertificateRecord| c@),
        }
    }
}

/// The record invariants of the ledger state. Key uniqueness in every
/// registry reflects the ledger's record-creation exclusivity: no two records
/// ever share a deterministic slot. The bounds reflect the fixed-width record
/// layout: every stored string stays within its declared byte maximum, and a
/// recorded grade within 0 to 100.
pub open spec fn state_inv(s: AcademyView) -> bool {
    &&& roles_unique(s.roles)
    &&& cohorts_unique(s.cohorts)
    &&& courses_unique(s.courses)
    &&& enrollments_unique(s.enrollments)
    &&& templates_unique(s.templates)
    &&& submissions_unique(s.submissions)
    &&& certificates_unique(s.certificates)
    &&& crate::cohort::cohorts_bounded(s.cohorts)
    &&& crate::course::courses_bounded(s.courses)
    &&& crate::assignment::templates_bounded(s.templates)
    &&& crate::submission::submissions_bounded(s.submissions)
}

impl Academy {
    /// Well-formedness: the state satisfies every registry's key-uniqueness
    /// invariant. Established at genesis and preserved by every operation.
    pub open spec fn wf(&self) -> bool {
        state_inv(self@)
    }

    /// Genesis: every registry starts empty.
    pub fn new() -> (r: Academy)
        ensures
            r.wf(),
            r@.roles =~= Seq::<RoleAccount>::empty(),
            r@.cohorts =~= Seq::<CohortView>::empty(),
            r@.courses =~= Seq::<CourseView>::empty(),
            r@.enrollments =~= Seq::<EnrollmentView>::empty(),
            r@.templates =~= Seq::<AssignmentTemplateView>::empty(),
            r@.submissions =~= Seq::<SubmissionView>::empty(),
            r@.certificates =~= Seq::<CertificateView>::empty(),
    {
        Academy {
            roles: Vec::new(),
            cohorts: Vec::new(),
            courses: Vec::new(),
            enrollments: Vec::new(),
            templates: Vec::new(),
            submissions: Vec::new(),
            certificates: Vec::new(),
        }
    }
}

} // verus!
