use vstd::prelude::*;
use crate::error::CustomError;
use crate::role::admin_role;
use crate::{Academy, AcademyView, MAX_COHORT_DESC_LEN, MAX_NAME_LEN, byte_len, str_byte_len};

verus! {

/// Lifecycle stage of a teaching cohort.
///
/// Transitions are set by the creator without order enforcement: regression
/// (for example `Completed` back to `Upcoming`) is possible by design at this
/// layer.
#[derive(Clone, Copy, PartialEq, Eq, Structural, Debug)]
pub enum CohortStatus {
    Upcoming,
    Active,
    Completed,
}

/// A teaching cohort. Its record slot derives from the name, so names are
/// globally unique.
pub struct CohortAccount {
    pub name: String,
    pub description: String,
    pub start_date: i64,
    pub end_date: i64,
    pub creator: u64,
    pub status: CohortStatus,
}

/// Mathematical model of one cohort record.
pub ghost struct CohortView {
    pub name: Seq<char>,
    pub description: Seq<char>,
    pub start_date: i64,
    pub end_date: i64,
    pub creator: u64,
    pub status: CohortStatus,
}

impl View for CohortAccount {
    type V = CohortView;

    open spec fn view(&self) -> CohortView {
        CohortView {
            name: self.name@,
            description: self.description@,
            start_date: self.start_date,
            end_date: self.end_date,
            creator: self.creator,
            status: self.status,
        }
    }
}

/// Some cohort record carries `name`.
pub open spec fn cohort_named(cohorts: Seq<CohortView>, name: Seq<char>) -> bool {
    exists|i: int| 0 <= i < cohorts.len() && cohorts[i].name == name
}

/// The index of the cohort record carrying `name`; meaningful when
/// `cohort_named` holds and the names are unique.
pub open spec fn cohort_index(cohorts: Seq<CohortView>, name: Seq<char>) -> int {
    choose|i: int| 0 <= i < cohorts.len() && cohorts[i].name == name
}

/// At most one cohort record per name.
pub open spec fn cohorts_unique(cohorts: Seq<CohortView>) -> bool {
    forall|i: int, j: int| 0 <= i < j < cohorts.len() ==> cohorts[i].name != cohorts[j].name
}

/// Every stored cohort keeps its name and description within the declared
/// byte maxima.
pub open spec fn cohorts_bounded(cohorts: Seq<CohortView>) -> bool {
    forall|i: int|
        0 <= i < cohorts.len() ==> #[trigger] str_byte_len(cohorts[i].name) <= MAX_NAME_LEN
            && str_byte_len(cohorts[i].description) <= MAX_COHORT_DESC_LEN
}

/// State transition and result of `create_cohort`. Guards, in order: the
/// caller must hold the admin capability; the name slot must be free; the
/// dates must satisfy `start_date < end_date`; the name and the description
/// must stay within their declared byte maxima. On success a record with
/// status `Upcoming` is appended.
pub open spec fn create_cohort_outcome(
    pre: AcademyView,
    caller: u64,
    name: Seq<char>,
    description: Seq<char>,
    start_date: i64,
    end_date: i64,
) -> (AcademyView, Result<(), CustomError>) {
    if !admin_role(pre.roles, caller) {
        (pre, Err(CustomError::Unauthorized))
    } else if cohort_named(pre.cohorts, name) {
        (pre, Err(CustomError::DuplicateRecord))
    } else if !(start_date < end_date) {
        (pre, Err(CustomError::InvalidDateRange))
    } else if str_byte_len(name) > MAX_NAME_LEN {
        (pre, Err(CustomError::NameTooLong))
    } else if str_byte_len(description) > MAX_COHORT_DESC_LEN {
        (pre, Err(CustomError::DescriptionTooLong))
    } else {
        (
            AcademyView {
                cohorts: pre.cohorts.push(
                    CohortView {
                        name,
                        description,
                        start_date,
                        end_date,
                        creator: caller,
                        status: CohortStatus::Upcoming,
                    },
                ),
                ..pre
            },
            Ok(()),
        )
    }
}

/// State transition and result of `update_cohort_status`. The cohort must
/// exist and the caller must both be its creator and hold the admin
/// capability; the status is then set unconditionally to `new_status`.
pub open spec fn update_cohort_status_outcome(
    pre: AcademyView,
    caller: u64,
    name: Seq<char>,
    new_status: CohortStatus,
) -> (AcademyView, Result<(), CustomError>) {
    if !cohort_named(pre.cohorts, name) {
        (pre, Err(CustomError::CourseNotFound))
    } else {
        let i = cohort_index(pre.cohorts, name);
        let c = pre.cohorts[i];
        if c.creator != caller || !admin_role(pre.roles, caller) {
            (pre, Err(CustomError::Unauthorized))
        } else {
            (
                AcademyView {
                    cohorts: pre.cohorts.update(i, CohortView { status: new_status, ..c }),
                    ..pre
                },
                Ok(()),
            )
        }
    }
}

impl Academy {
    /// Index of the cohort record carrying `name`, if one is stored.
    pub(crate) fn find_cohort(&self, name: &String) -> (r: Option<usize>)
        ensures
            match r {
                Some(i) => i < self@.cohorts.len() && self@.cohorts[i as int].name == name@,
                None => !cohort_named(self@.cohorts, name@),
            },
    {
        let n = self.cohorts.len();
        let mut i: usize = 0;
        while i < n
            invariant
                n == self@.cohorts.len(),
                i <= n,
                forall|j: int| 0 <= j < i ==> self@.cohorts[j].name != name@,
            decreases n - i,
        {
            if self.cohorts[i].name == *name {
                return Some(i);
            }
            i += 1;
        }
        None
    }

    /// Whether a cohort record carries `name`.
    pub fn has_cohort(&self, name: &String) -> (b: bool)
        ensures
            b == cohort_named(self@.cohorts, name@),
    {
        self.find_cohort(name).is_some()
    }

    /// The number of cohort records stored.
    pub fn cohort_count(&self) -> (n: usize)
        ensures
            n == self@.cohorts.len(),
    {
        self.cohorts.len()
    }

    /// The lifecycle status of the cohort named `name`, if it exists.
    pub fn cohort_status(&self, name: &String) -> (r: Option<CohortStatus>)
        requires
            self.wf(),
        ensures
            match r {
                Some(st) => cohort_named(self@.cohorts, name@) && st == self@.cohorts[cohort_index(
                    self@.cohorts,
                    name@,
                )].status,
                None => !cohort_named(self@.cohorts, name@),
            },
    {
        match self.find_cohort(name) {
            Some(i) => {
                let st = self.cohorts[i].status;
                proof {
                    self.lemma_cohort_index_unique(name@, i as int);
                }
                Some(st)
            },
            None => None,
        }
    }

    /// Under name uniqueness, `cohort_index` agrees with any index whose
    /// record carries the name.
    pub(crate) proof fn lemma_cohort_index_unique(&self, name: Seq<char>, i: int)
        requires
            self.wf(),
            0 <= i < self@.cohorts.len(),
            self@.cohorts[i].name == name,
        ensures
            cohort_index(self@.cohorts, name) == i,
    {
        let cohorts = self@.cohorts;
        assert(cohort_named(cohorts, name));
        let j = cohort_index(cohorts, name);
        if i < j {
            assert(cohorts[i].name != cohorts[j].name);
        } else if j < i {
            assert(cohorts[j].name != cohorts[i].name);
        }
    }

    /// Creates a cohort: admin-gated, name-keyed insert-if-absent with date
    /// and length validation; the new record starts `Upcoming`.
    pub fn create_cohort(
        &mut self,
        caller: u64,
        name: String,
        description: String,
        start_date: i64,
        end_date: i64,
    ) -> (r: Result<(), CustomError>)
        requires
            old(self).wf(),
        ensures
            final(self).wf(),
            (final(self)@, r) == create_cohort_outcome(
                old(self)@,
                caller,
                name@,
                description@,
                start_date,
                end_date,
            ),
            r == Err::<(), CustomError>(CustomError::Unauthorized) <==> !admin_role(
                old(self)@.roles,
                caller,
            ),
    {
        if !self.caller_is_admin(caller) {
            return Err(CustomError::Unauthorized);
        }
        if self.find_cohort(&name).is_some() {
            return Err(CustomError::DuplicateRecord);
        }
        if !(start_date < end_date) {
            return Err(CustomError::InvalidDateRange);
        }
        if byte_len(&name) > MAX_NAME_LEN {
            return Err(CustomError::NameTooLong);
        }
        if byte_len(&description) > MAX_COHORT_DESC_LEN {
            return Err(CustomError::DescriptionTooLong);
        }
        let rec = CohortAccount {
            name,
            description,
            start_date,
            end_date,
            creator: caller,
            status: CohortStatus::Upcoming,
        };
        let ghost rv = rec@;
        self.cohorts.push(rec);
        proof {
            assert(self@.cohorts =~= old(self)@.cohorts.push(rv));
            let post = self@.cohorts;
            let pre = old(self)@.cohorts;
            assert forall|i: int, j: int| 0 <= i < j < post.len() implies post[i].name
                != post[j].name by {
                if j < pre.len() {
                    assert(pre[i].name != pre[j].name);
                } else {
                    assert(post[j].name == rv.name);
                    if post[i].name == rv.name {
                        assert(cohort_named(pre, rv.name));
                    }
                }
            }
            assert forall|i: int| 0 <= i < post.len() implies #[trigger] str_byte_len(post[i].name)
                <= MAX_NAME_LEN && str_byte_len(post[i].description) <= MAX_COHORT_DESC_LEN by {
                if i < pre.len() {
                    assert(str_byte_len(pre[i].name) <= MAX_NAME_LEN && str_byte_len(
                        pre[i].description,
                    ) <= MAX_COHORT_DESC_LEN);
                } else {
                    assert(post[i] == rv);
                }
            }
        }
        Ok(())
    }

    /// Sets the status of the cohort named `name`; only its creator, holding
    /// the admin capability, may do so. No transition order is enforced.
    pub fn update_cohort_status(&mut self, caller: u64, name: &String, new_status: CohortStatus)
        -> (r: Result<(), CustomError>)
        requires
            old(self).wf(),
        ensures
            final(self).wf(),
            (final(self)@, r) == update_cohort_status_outcome(
                old(self)@,
                caller,
                name@,
                new_status,
            ),
    {
        let idx = match self.find_cohort(name) {
            Some(i) => i,
            None => {
                return Err(CustomError::CourseNotFound);
            },
        };
        proof {
            self.lemma_cohort_index_unique(name@, idx as int);
        }
        if self.cohorts[idx].creator != caller {
            return Err(CustomError::Unauthorized);
        }
        if !self.caller_is_admin(caller) {
            return Err(CustomError::Unauthorized);
        }
        let prev = &self.cohorts[idx];
        let rec = CohortAccount {
            name: prev.name.clone(),
            description: prev.description.clone(),
            start_date: prev.start_date,
            end_date: prev.end_date,
            creator: prev.creator,
            status: new_status,
        };
        let ghost rv = rec@;
        self.cohorts.set(idx, rec);
        proof {
            assert(self@.cohorts =~= old(self)@.cohorts.update(idx as int, rv));
            let post = self@.cohorts;
            let pre = old(self)@.cohorts;
            assert forall|i: int, j: int| 0 <= i < j < post.len() implies post[i].name
                != post[j].name by {
                assert(post[i].name == pre[i].name);
                assert(post[j].name == pre[j].name);
                assert(pre[i].name != pre[j].name);
            }
            assert forall|i: int| 0 <= i < post.len() implies #[trigger] str_byte_len(post[i].name)
                <= MAX_NAME_LEN && str_byte_len(post[i].description) <= MAX_COHORT_DESC_LEN by {
                assert(post[i].name == pre[i].name && post[i].description == pre[i].description);
                assert(str_byte_len(pre[i].name) <= MAX_NAME_LEN && str_byte_len(
                    pre[i].description,
                ) <= MAX_COHORT_DESC_LEN);
            }
        }
        Ok(())
    }
}

} // verus!
