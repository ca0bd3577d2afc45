use vstd::prelude::*;
use crate::error::CustomError;
use crate::{Academy, AcademyView};

verus! {

/// Capability flags of one authority identity.
///
/// Exactly one record exists per authority id; the record is created by a
/// self-registration call and never deleted. No self-elevation gate exists at
/// this layer: any caller may request admin flags, a trust boundary that a
/// deployment must close with a bootstrap process.
#[derive(Clone, Copy, PartialEq, Eq, Structural, Debug)]
pub struct RoleAccount {
    pub authority: u64,
    pub is_admin: bool,
    pub is_instructor: bool,
}

/// Some role record is stored for `authority`.
pub open spec fn role_present(roles: Seq<RoleAccount>, authority: u64) -> bool {
    exists|i: int| 0 <= i < roles.len() && roles[i].authority == authority
}

/// A stored role record grants `authority` the admin capability.
pub open spec fn admin_role(roles: Seq<RoleAccount>, authority: u64) -> bool {
    exists|i: int|
        0 <= i < roles.len() && roles[i].authority == authority && roles[i].is_admin
}

/// A stored role record grants `authority` the instructor capability.
pub open spec fn instructor_role(roles: Seq<RoleAccount>, authority: u64) -> bool {
    exists|i: int|
        0 <= i < roles.len() && roles[i].authority == authority && roles[i].is_instructor
}

/// A stored role record grants `authority` the admin or the instructor
/// capability; the requirement shared by course, template and grading calls.
pub open spec fn staff_role(roles: Seq<RoleAccount>, authority: u64) -> bool {
    exists|i: int|
        0 <= i < roles.len() && roles[i].authority == authority && (roles[i].is_admin
            || roles[i].is_instructor)
}

/// At most one role record per authority id.
pub open spec fn roles_unique(roles: Seq<RoleAccount>) -> bool {
    forall|i: int, j: int|
        0 <= i < j < roles.len() ==> roles[i].authority != roles[j].authority
}

/// State transition and result of `create_role`: insert-if-absent at the slot
/// derived from the authority id.
pub open spec fn create_role_outcome(
    pre: AcademyView,
    authority: u64,
    is_admin: bool,
    is_instructor: bool,
) -> (AcademyView, Result<(), CustomError>) {
    if role_present(pre.roles, authority) {
        (pre, Err(CustomError::DuplicateRecord))
    } else {
        (
            AcademyView {
                roles: pre.roles.push(RoleAccount { authority, is_admin, is_instructor }),
                ..pre
            },
            Ok(()),
        )
    }
}

impl Academy {
    /// Index of the role record for `authority`, if one is stored.
    fn find_role(&self, authority: u64) -> (r: Option<usize>)
        ensures
            match r {
                Some(i) => i < self@.roles.len() && self@.roles[i as int].authority == authority,
                None => !role_present(self@.roles, authority),
            },
    {
        let n = self.roles.len();
        let mut i: usize = 0;
        while i < n
            invariant
                n == self@.roles.len(),
                i <= n,
                forall|j: int| 0 <= j < i ==> self@.roles[j].authority != authority,
            decreases n - i,
        {
            if self.roles[i].authority == authority {
                return Some(i);
            }
            i += 1;
        }
        None
    }

    /// The stored role record for `authority`, if one exists.
    pub fn role_of(&self, authority: u64) -> (r: Option<RoleAccount>)
        requires
            self.wf(),
        ensures
            match r {
                Some(rec) => {
                    &&& rec.authority == authority
                    &&& role_present(self@.roles, authority)
                    &&& rec.is_admin == admin_role(self@.roles, authority)
                    &&& rec.is_instructor == instructor_role(self@.roles, authority)
                },
                None => !role_present(self@.roles, authority),
            },
    {
        match self.find_role(authority) {
            Some(i) => {
                let rec = self.roles[i];
                proof {
                    let roles = self@.roles;
                    let i = i as int;
                    assert(role_present(roles, authority));
                    if admin_role(roles, authority) {
                        let j = choose|j: int|
                            0 <= j < roles.len() && roles[j].authority == authority
                                && roles[j].is_admin;
                        assert(i == j) by {
                            if i < j {
                                assert(roles[i].authority != roles[j].authority);
                            } else if j < i {
                                assert(roles[j].authority != roles[i].authority);
                            }
                        }
                    }
                    if instructor_role(roles, authority) {
                        let j = choose|j: int|
                            0 <= j < roles.len() && roles[j].authority == authority
                                && roles[j].is_instructor;
                        assert(i == j) by {
                            if i < j {
                                assert(roles[i].authority != roles[j].authority);
                            } else if j < i {
                                assert(roles[j].authority != roles[i].authority);
                            }
                        }
                    }
                }
                Some(rec)
            },
            None => None,
        }
    }

    /// Whether `caller` holds an admin-flagged role record.
    pub fn caller_is_admin(&self, caller: u64) -> (b: bool)
        requires
            self.wf(),
        ensures
            b == admin_role(self@.roles, caller),
    {
        match self.role_of(caller) {
            Some(rec) => rec.is_admin,
            None => {
                proof {
                    assert(!admin_role(self@.roles, caller)) by {
                        if admin_role(self@.roles, caller) {
                            let j = choose|j: int|
                                0 <= j < self@.roles.len() && self@.roles[j].authority == caller
                                    && self@.roles[j].is_admin;
                            assert(role_present(self@.roles, caller));
                        }
                    }
                }
                false
            },
        }
    }

    /// Whether `caller` holds a role record flagged admin or instructor.
    pub fn caller_is_staff(&self, caller: u64) -> (b: bool)
        requires
            self.wf(),
        ensures
            b == staff_role(self@.roles, caller),
    {
        match self.role_of(caller) {
            Some(rec) => {
                proof {
                    let roles = self@.roles;
                    if staff_role(roles, caller) {
                        let j = choose|j: int|
                            0 <= j < roles.len() && roles[j].authority == caller
                                && (roles[j].is_admin || roles[j].is_instructor);
                        if roles[j].is_admin {
                            assert(admin_role(roles, caller));
                        } else {
                            assert(instructor_role(roles, caller));
                        }
                    }
                    if admin_role(roles, caller) || instructor_role(roles, caller) {
                        assert(staff_role(roles, caller)) by {
                            if admin_role(roles, caller) {
                                let j = choose|j: int|
                                    0 <= j < roles.len() && roles[j].authority == caller
                                        && roles[j].is_admin;
                                assert(roles[j].is_admin || roles[j].is_instructor);
                            } else {
                                let j = choose|j: int|
                                    0 <= j < roles.len() && roles[j].authority == caller
                                        && roles[j].is_instructor;
                                assert(roles[j].is_admin || roles[j].is_instructor);
                            }
                        }
                    }
                }
                rec.is_admin || rec.is_instructor
            },
            None => {
                proof {
                    assert(!staff_role(self@.roles, caller)) by {
                        if staff_role(self@.roles, caller) {
                            let j = choose|j: int|
                                0 <= j < self@.roles.len() && self@.roles[j].authority == caller
                                    && (self@.roles[j].is_admin || self@.roles[j].is_instructor);
                            assert(role_present(self@.roles, caller));
                        }
                    }
                }
                false
            },
        }
    }

    /// Self-registration of capability flags: creates exactly one role record
    /// at the slot derived from `authority`, or fails `DuplicateRecord` if
    /// one already exists there. No self-elevation check is made.
    pub fn create_role(&mut self, authority: u64, is_admin: bool, is_instructor: bool) -> (r:
        Result<(), CustomError>)
        requires
            old(self).wf(),
        ensures
            final(self).wf(),
            (final(self)@, r) == create_role_outcome(old(self)@, authority, is_admin, is_instructor),
            r is Ok <==> !role_present(old(self)@.roles, authority),
    {
        if self.find_role(authority).is_some() {
            return Err(CustomError::DuplicateRecord);
        }
        self.roles.push(RoleAccount { authority, is_admin, is_instructor });
        proof {
            let pre = old(self)@.roles;
            let post = self@.roles;
            assert forall|i: int, j: int| 0 <= i < j < post.len() implies post[i].authority
                != post[j].authority by {
                if j < pre.len() {
                    assert(pre[i].authority != pre[j].authority);
                } else {
                    assert(post[j].authority == authority);
                    if post[i].authority == authority {
                        assert(role_present(pre, authority));
                    }
                }
            }
        }
        Ok(())
    }
}

} // verus!
