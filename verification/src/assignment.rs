use vstd::prelude::*;
use crate::course::course_titled;
use crate::error::CustomError;
use crate::role::staff_role;
use crate::{Academy, AcademyView, MAX_DESC_LEN, MAX_TITLE_LEN, byte_len, str_byte_len};

verus! {

/// An assignment template scoped to a course. Its record slot derives from
/// the title, so titles are globally unique. Immutable after creation. The
/// deadline is recorded but not enforced at this layer.
pub struct AssignmentTemplateAccount {
    pub course: String,
    pub title: String,
    pub description: String,
    pub created_by: u64,
    pub deadline: i64,
}

/// Mathematical model of one assignment-template record.
pub ghost struct AssignmentTemplateView {
    pub course: Seq<char>,
    pub title: Seq<char>,
    pub description: Seq<char>,
    pub created_by: u64,
    pub deadline: i64,
}

impl View for AssignmentTemplateAccount {
    type V = AssignmentTemplateView;

    open spec fn view(&self) -> AssignmentTemplateView {
        AssignmentTemplateView {
            course: self.course@,
            title: self.title@,
            description: self.description@,
            created_by: self.created_by,
            deadline: self.deadline,
        }
    }
}

/// Some assignment-template record carries `title`.
pub open spec fn template_titled(templates: Seq<AssignmentTemplateView>, title: Seq<char>) -> bool {
    exists|i: int| 0 <= i < templates.len() && templates[i].title == title
}

/// At most one assignment-template record per title.
pub open spec fn templates_unique(templates: Seq<AssignmentTemplateView>) -> bool {
    forall|i: int, j: int|
        0 <= i < j < templates.len() ==> templates[i].title != templates[j].title
}

/// Every stored template keeps its title and description within the declared
/// byte maxima.
pub open spec fn templates_bounded(templates: Seq<AssignmentTemplateView>) -> bool {
    forall|i: int|
        0 <= i < templates.len() ==> #[trigger] str_byte_len(templates[i].title) <= MAX_TITLE_LEN
            && str_byte_len(templates[i].description) <= MAX_DESC_LEN
}

/// State transition and result of `create_assignment_template`. Guards, in
/// order: the caller must hold the admin or the instructor capability; the
/// title slot must be free; `course` must resolve to an existing course
/// record; the title and the description must stay within their declared
/// byte maxima.
pub open spec fn create_assignment_template_outcome(
    pre: AcademyView,
    caller: u64,
    title: Seq<char>,
    description: Seq<char>,
    deadline: i64,
    course: Seq<char>,
) -> (AcademyView, Result<(), CustomError>) {
    if !staff_role(pre.roles, caller) {
        (pre, Err(CustomError::Unauthorized))
    } else if template_titled(pre.templates, title) {
        (pre, Err(CustomError::DuplicateRecord))
    } else if !course_titled(pre.courses, course) {
        (pre, Err(CustomError::CourseNotFound))
    } else if str_byte_len(title) > MAX_TITLE_LEN {
        (pre, Err(CustomError::NameTooLong))
    } else if str_byte_len(description) > MAX_DESC_LEN {
        (pre, Err(CustomError::DescriptionTooLong))
    } else {
        (
            AcademyView {
                templates: pre.templates.push(
                    AssignmentTemplateView { course, title, description, created_by: caller, deadline },
                ),
                ..pre
            },
            Ok(()),
        )
    }
}

impl Academy {
    /// Index of the assignment-template record carrying `title`, if stored.
    fn find_template(&self, title: &String) -> (r: Option<usize>)
        ensures
            match r {
                Some(i) => i < self@.templates.len() && self@.templates[i as int].title == title@,
                None => !template_titled(self@.templates, title@),
            },
    {
        let n = self.templates.len();
        let mut i: usize = 0;
        while i < n
            invariant
                n == self@.templates.len(),
                i <= n,
                forall|j: int| 0 <= j < i ==> self@.templates[j].title != title@,
            decreases n - i,
        {
            if self.templates[i].title == *title {
                return Some(i);
            }
            i += 1;
        }
        None
    }

    /// Whether an assignment-template record carries `title`.
    pub fn has_template(&self, title: &String) -> (b: bool)
        ensures
            b == template_titled(self@.templates, title@),
    {
        self.find_template(title).is_some()
    }

    /// The number of assignment-template records stored.
    pub fn template_count(&self) -> (n: usize)
        ensures
            n == self@.templates.len(),
    {
        self.templates.len()
    }

    /// Creates an assignment template: open to admins and instructors,
    /// title-keyed insert-if-absent; the referenced course must exist, and
    /// the stored strings are validated against their declared maxima.
    pub fn create_assignment_template(
        &mut self,
        caller: u64,
        title: String,
        description: String,
        deadline: i64,
        course: String,
    ) -> (r: Result<(), CustomError>)
        requires
            old(self).wf(),
        ensures
            final(self).wf(),
            (final(self)@, r) == create_assignment_template_outcome(
                old(self)@,
                caller,
                title@,
                description@,
                deadline,
                course@,
            ),
            r == Err::<(), CustomError>(CustomError::Unauthorized) <==> !staff_role(
                old(self)@.roles,
                caller,
            ),
    {
        if !self.caller_is_staff(caller) {
            return Err(CustomError::Unauthorized);
        }
        if self.find_template(&title).is_some() {
            return Err(CustomError::DuplicateRecord);
        }
        if !self.has_course(&course) {
            return Err(CustomError::CourseNotFound);
        }
        if byte_len(&title) > MAX_TITLE_LEN {
            return Err(CustomError::NameTooLong);
        }
        if byte_len(&description) > MAX_DESC_LEN {
            return Err(CustomError::DescriptionTooLong);
        }
        let rec = AssignmentTemplateAccount { course, title, description, created_by: caller, deadline };
        let ghost rv = rec@;
        self.templates.push(rec);
        proof {
            assert(self@.templates =~= old(self)@.templates.push(rv));
            let post = self@.templates;
            let pre = old(self)@.templates;
            assert forall|i: int, j: int| 0 <= i < j < post.len() implies post[i].title
                != post[j].title by {
                if j < pre.len() {
                    assert(pre[i].title != pre[j].title);
                } else {
                    assert(post[j].title == rv.title);
                    if post[i].title == rv.title {
                        assert(template_titled(pre, rv.title));
                    }
                }
            }
            assert forall|i: int| 0 <= i < post.len() implies #[trigger] str_byte_len(post[i].title)
                <= MAX_TITLE_LEN && str_byte_len(post[i].description) <= MAX_DESC_LEN by {
                if i < pre.len() {
                    assert(str_byte_len(pre[i].title) <= MAX_TITLE_LEN && str_byte_len(
                        pre[i].description,
                    ) <= MAX_DESC_LEN);
                } else {
                    assert(post[i] == rv);
                }
            }
        }
        Ok(())
    }
}

} // verus!
