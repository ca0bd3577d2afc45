use vstd::prelude::*;
use crate::error::CustomError;
use crate::{Academy, AcademyView};

verus! {

/// Lowest grade that unlocks certificate issuance.
pub const PASSING_GRADE: u8 = 60;

/// Royalty, in basis points, recorded on a credential's metadata.
pub const CERTIFICATE_ROYALTY_BPS: u16 = 500;

/// Ledger-side record that a credential was issued for a (student, course)
/// pair; its slot derives from both, which is what makes issuance one-shot.
pub struct CertificateRecord {
    pub student: u64,
    pub course: String,
}

/// Mathematical model of one certificate record.
pub ghost struct CertificateView {
    pub student: u64,
    pub course: Seq<char>,
}

impl View for CertificateRecord {
    type V = CertificateView;

    open spec fn view(&self) -> CertificateView {
        CertificateView { student: self.student, course: self.course@ }
    }
}

/// The order handed to the external token ledger: create a supply-capped
/// holding of `amount` units with `decimals` decimal places for `owner`.
#[derive(Clone, Copy, PartialEq, Eq, Structural, Debug)]
pub struct MintOp {
    pub owner: u64,
    pub amount: u64,
    pub decimals: u8,
}

/// The order handed to the external metadata service: attach the descriptive
/// fields and the creator entry to the freshly minted token.
pub struct MetadataOp {
    pub name: String,
    pub symbol: String,
    pub uri: String,
    pub creator: u64,
    pub creator_verified: bool,
    pub creator_share: u8,
    pub royalty_bps: u16,
}

/// The second order to the external metadata service: cap the token's
/// edition at `max_supply` additional copies, making it non-fungible.
#[derive(Clone, Copy, PartialEq, Eq, Structural, Debug)]
pub struct EditionOp {
    pub max_supply: u64,
}

/// The order handed to the external token ledger by a transfer call.
#[derive(Clone, Copy, PartialEq, Eq, Structural, Debug)]
pub struct TransferOp {
    pub from: u64,
    pub to: u64,
    pub amount: u64,
}

/// Everything the two external collaborators are asked to perform, inside the
/// same atomic unit as the certificate record write.
pub struct CertificatePlan {
    pub mint: MintOp,
    pub metadata: MetadataOp,
    pub edition: EditionOp,
}

/// Some certificate record exists for the (student, course) pair.
pub open spec fn certificate_for(
    certificates: Seq<CertificateView>,
    student: u64,
    course: Seq<char>,
) -> bool {
    exists|i: int|
        0 <= i < certificates.len() && certificates[i].student == student && certificates[i].course
            == course
}

/// At most one certificate record per (student, course) pair.
pub open spec fn certificates_unique(certificates: Seq<CertificateView>) -> bool {
    forall|i: int, j: int|
        0 <= i < j < certificates.len() ==> !(certificates[i].student == certificates[j].student
            && certificates[i].course == certificates[j].course)
}

/// A submission of the (student, course) pair carries a grade reaching the
/// passing threshold.
pub open spec fn passing_grade_on_record(
    submissions: Seq<crate::submission::SubmissionView>,
    student: u64,
    course: Seq<char>,
) -> bool {
    exists|i: int|
        0 <= i < submissions.len() && submissions[i].student == student && submissions[i].course
            == course && match submissions[i].grade {
            Some(g) => g >= PASSING_GRADE,
            None => false,
        }
}

/// State transition and result of `mint_certificate` on the ledger-side
/// state. Guards, in order: a graded, passing submission must exist for the
/// pair; the pair's certificate slot must be free. On success the record is
/// appended; the orders to the external services are pinned by the
/// operation's own contract.
pub open spec fn mint_certificate_outcome(
    pre: AcademyView,
    student: u64,
    course: Seq<char>,
) -> (AcademyView, Result<(), CustomError>) {
    if !passing_grade_on_record(pre.submissions, student, course) {
        (pre, Err(CustomError::InsufficientGrade))
    } else if certificate_for(pre.certificates, student, course) {
        (pre, Err(CustomError::DuplicateRecord))
    } else {
        (
            AcademyView {
                certificates: pre.certificates.push(CertificateView { student, course }),
                ..pre
            },
            Ok(()),
        )
    }
}

/// Discards the payload of a plan-returning result, keeping the tag.
pub open spec fn plan_result_tag(r: Result<CertificatePlan, CustomError>) -> Result<
    (),
    CustomError,
> {
    match r {
        Ok(_) => Ok(()),
        Err(e) => Err(e),
    }
}

impl Academy {
    /// Index of the certificate record of the (student, course) pair, if one
    /// is stored.
    fn find_certificate(&self, student: u64, course: &String) -> (r: Option<usize>)
        ensures
            match r {
                Some(i) => i < self@.certificates.len() && self@.certificates[i as int].student
                    == student && self@.certificates[i as int].course == course@,
                None => !certificate_for(self@.certificates, student, course@),
            },
    {
        let n = self.certificates.len();
        let mut i: usize = 0;
        while i < n
            invariant
                n == self@.certificates.len(),
                i <= n,
                forall|j: int|
                    0 <= j < i ==> !(self@.certificates[j].student == student
                        && self@.certificates[j].course == course@),
            decreases n - i,
        {
            if self.certificates[i].student == student && self.certificates[i].course == *course {
                return Some(i);
            }
            i += 1;
        }
        None
    }

    /// Whether a certificate was issued for the (student, course) pair.
    pub fn has_certificate(&self, student: u64, course: &String) -> (b: bool)
        ensures
            b == certificate_for(self@.certificates, student, course@),
    {
        self.find_certificate(student, course).is_some()
    }

    /// The number of certificate records stored.
    pub fn certificate_count(&self) -> (n: usize)
        ensures
            n == self@.certificates.len(),
    {
        self.certificates.len()
    }

    /// Issues the one-of-one credential for the (student, course) pair. The
    /// pair must hold a graded, passing submission and no earlier
    /// certificate; the returned plan orders the external token ledger to
    /// mint exactly 1 unit with 0 decimals to the student and the external
    /// metadata service to attach `(name, symbol, uri)` with the caller as
    /// verified creator, then to cap the edition at 0 additional copies.
    /// Both orders run in the same atomic unit as the record write: if either
    /// fails, the host rolls the whole call back.
    pub fn mint_certificate(
        &mut self,
        caller: u64,
        student: u64,
        course: String,
        uri: String,
        name: String,
        symbol: String,
    ) -> (r: Result<CertificatePlan, CustomError>)
        requires
            old(self).wf(),
        ensures
            final(self).wf(),
            (final(self)@, plan_result_tag(r)) == mint_certificate_outcome(
                old(self)@,
                student,
                course@,
            ),
            r matches Ok(plan) ==> {
                &&& plan.mint == (MintOp { owner: student, amount: 1, decimals: 0 })
                &&& plan.metadata.name@ == name@
                &&& plan.metadata.symbol@ == symbol@
                &&& plan.metadata.uri@ == uri@
                &&& plan.metadata.creator == caller
                &&& plan.metadata.creator_verified == true
                &&& plan.metadata.creator_share == 100
                &&& plan.metadata.royalty_bps == CERTIFICATE_ROYALTY_BPS
                &&& plan.edition == (EditionOp { max_supply: 0 })
            },
    {
        let passing = match self.submission_grade(student, &course) {
            Some(Some(g)) => g >= PASSING_GRADE,
            _ => false,
        };
        if !passing {
            proof {
                let submissions = self@.submissions;
                if passing_grade_on_record(submissions, student, course@) {
                    let i = choose|i: int|
                        0 <= i < submissions.len() && submissions[i].student == student
                            && submissions[i].course == course@ && match submissions[i].grade {
                            Some(g) => g >= PASSING_GRADE,
                            None => false,
                        };
                    assert(submissions[i].student == student && submissions[i].course == course@);
                    assert(crate::submission::submission_for(submissions, student, course@));
                    self.lemma_submission_index_unique(student, course@, i);
                }
            }
            return Err(CustomError::InsufficientGrade);
        }
        proof {
            let submissions = self@.submissions;
            let i = crate::submission::submission_index(submissions, student, course@);
            assert(0 <= i < submissions.len() && submissions[i].student == student
                && submissions[i].course == course@);
            assert(match submissions[i].grade {
                Some(g) => g >= PASSING_GRADE,
                None => false,
            });
            assert(passing_grade_on_record(submissions, student, course@));
        }
        if self.find_certificate(student, &course).is_some() {
            return Err(CustomError::DuplicateRecord);
        }
        let rec = CertificateRecord { student, course };
        let ghost rv = rec@;
        self.certificates.push(rec);
        proof {
            assert(self@.certificates =~= old(self)@.certificates.push(rv));
            let post = self@.certificates;
            let pre = old(self)@.certificates;
            assert forall|i: int, j: int| 0 <= i < j < post.len() implies !(post[i].student
                == post[j].student && post[i].course == post[j].course) by {
                if j < pre.len() {
                    assert(!(pre[i].student == pre[j].student && pre[i].course == pre[j].course));
                } else {
                    if post[i].student == rv.student && post[i].course == rv.course {
                        assert(certificate_for(pre, rv.student, rv.course));
                    }
                }
            }
        }
        Ok(
            CertificatePlan {
                mint: MintOp { owner: student, amount: 1, decimals: 0 },
                metadata: MetadataOp {
                    name,
                    symbol,
                    uri,
                    creator: caller,
                    creator_verified: true,
                    creator_share: 100,
                    royalty_bps: CERTIFICATE_ROYALTY_BPS,
                },
                edition: EditionOp { max_supply: 0 },
            },
        )
    }
}

/// Orders the external token ledger to move a credential between two
/// holdings. The moved amount is fixed at 1 unit whatever `amount` the
/// caller supplies: single-unit transfer semantics layered on a fungible
/// primitive.
pub fn transfer_certificate(from: u64, to: u64, _amount: u64) -> (r: TransferOp)
    ensures
        r == (TransferOp { from, to, amount: 1 }),
{
    TransferOp { from, to, amount: 1 }
}

} // verus!
