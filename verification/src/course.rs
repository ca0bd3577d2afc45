use vstd::prelude::*;
use crate::cohort::cohort_named;
use crate::error::CustomError;
use crate::role::staff_role;
use crate::{
    Academy, AcademyView, MAX_DESC_LEN, MAX_TITLE_LEN, MAX_URL_LEN, byte_len, str_byte_len,
};

verus! {

/// A course scoped to a cohort and owned by the instructor who created it.
/// Its record slot derives from the title, so titles are globally unique.
/// Immutable after creation.
pub struct CourseAccount {
    pub title: String,
    pub description: String,
    pub instructor: u64,
    pub cohort: String,
    pub media_url: String,
    pub created_at: i64,
}

/// Mathematical model of one course record.
pub ghost struct CourseView {
    pub title: Seq<char>,
    pub description: Seq<char>,
    pub instructor: u64,
    pub cohort: Seq<char>,
    pub media_url: Seq<char>,
    pub created_at: i64,
}

impl View for CourseAccount {
    type V = CourseView;

    open spec fn view(&self) -> CourseView {
        CourseView {
            title: self.title@,
            description: self.description@,
            instructor: self.instructor,
            cohort: self.cohort@,
            media_url: self.media_url@,
            created_at: self.created_at,
        }
    }
}

/// Some course record carries `title`.
pub open spec fn course_titled(courses: Seq<CourseView>, title: Seq<char>) -> bool {
    exists|i: int| 0 <= i < courses.len() && courses[i].title == title
}

/// The index of the course record carrying `title`; meaningful when
/// `course_titled` holds and the titles are unique.
pub open spec fn course_index(courses: Seq<CourseView>, title: Seq<char>) -> int {
    choose|i: int| 0 <= i < courses.len() && courses[i].title == title
}

/// At most one course record per title.
pub open spec fn courses_unique(courses: Seq<CourseView>) -> bool {
    forall|i: int, j: int| 0 <= i < j < courses.len() ==> courses[i].title != courses[j].title
}

/// Every stored course keeps its title, description and media locator within
/// the declared byte maxima.
pub open spec fn courses_bounded(courses: Seq<CourseView>) -> bool {
    forall|i: int|
        0 <= i < courses.len() ==> #[trigger] str_byte_len(courses[i].title) <= MAX_TITLE_LEN
            && str_byte_len(courses[i].description) <= MAX_DESC_LEN && str_byte_len(
            courses[i].media_url,
        ) <= MAX_URL_LEN
}

/// State transition and result of `create_course`. Guards, in order: the
/// caller must hold the admin or the instructor capability; the title slot
/// must be free; `cohort` must resolve to an existing cohort record; the
/// title, description and media locator must stay within their declared byte
/// maxima. On success a record owned by the caller is appended, stamped with
/// the ledger-supplied time `now`.
pub open spec fn create_course_outcome(
    pre: AcademyView,
    caller: u64,
    title: Seq<char>,
    description: Seq<char>,
    media_url: Seq<char>,
    cohort: Seq<char>,
    now: i64,
) -> (AcademyView, Result<(), CustomError>) {
    if !staff_role(pre.roles, caller) {
        (pre, Err(CustomError::Unauthorized))
    } else if course_titled(pre.courses, title) {
        (pre, Err(CustomError::DuplicateRecord))
    } else if !cohort_named(pre.cohorts, cohort) {
        (pre, Err(CustomError::CourseNotFound))
    } else if str_byte_len(title) > MAX_TITLE_LEN {
        (pre, Err(CustomError::NameTooLong))
    } else if str_byte_len(description) > MAX_DESC_LEN {
        (pre, Err(CustomError::DescriptionTooLong))
    } else if str_byte_len(media_url) > MAX_URL_LEN {
        (pre, Err(CustomError::UrlTooLong))
    } else {
        (
            AcademyView {
                courses: pre.courses.push(
                    CourseView {
                        title,
                        description,
                        instructor: caller,
                        cohort,
                        media_url,
                        created_at: now,
                    },
                ),
                ..pre
            },
            Ok(()),
        )
    }
}

impl Academy {
    /// Index of the course record carrying `title`, if one is stored.
    pub(crate) fn find_course(&self, title: &String) -> (r: Option<usize>)
        ensures
            match r {
                Some(i) => i < self@.courses.len() && self@.courses[i as int].title == title@,
                None => !course_titled(self@.courses, title@),
            },
    {
        let n = self.courses.len();
        let mut i: usize = 0;
        while i < n
            invariant
                n == self@.courses.len(),
                i <= n,
                forall|j: int| 0 <= j < i ==> self@.courses[j].title != title@,
            decreases n - i,
        {
            if self.courses[i].title == *title {
                return Some(i);
            }
            i += 1;
        }
        None
    }

    /// Whether a course record carries `title`.
    pub fn has_course(&self, title: &String) -> (b: bool)
        ensures
            b == course_titled(self@.courses, title@),
    {
        self.find_course(title).is_some()
    }

    /// The number of course records stored.
    pub fn course_count(&self) -> (n: usize)
        ensures
            n == self@.courses.len(),
    {
        self.courses.len()
    }

    /// Creates a course: open to admins and instructors, title-keyed
    /// insert-if-absent; the referenced cohort must exist, and the stored
    /// strings are validated against their declared maxima. `now` is the
    /// ledger-supplied timestamp.
    pub fn create_course(
        &mut self,
        caller: u64,
        title: String,
        description: String,
        media_url: String,
        cohort: String,
        now: i64,
    ) -> (r: Result<(), CustomError>)
        requires
            old(self).wf(),
        ensures
            final(self).wf(),
            (final(self)@, r) == create_course_outcome(
                old(self)@,
                caller,
                title@,
                description@,
                media_url@,
                cohort@,
                now,
            ),
            r == Err::<(), CustomError>(CustomError::Unauthorized) <==> !staff_role(
                old(self)@.roles,
                caller,
            ),
    {
        if !self.caller_is_staff(caller) {
            return Err(CustomError::Unauthorized);
        }
        if self.find_course(&title).is_some() {
            return Err(CustomError::DuplicateRecord);
        }
        if !self.has_cohort(&cohort) {
            return Err(CustomError::CourseNotFound);
        }
        if byte_len(&title) > MAX_TITLE_LEN {
            return Err(CustomError::NameTooLong);
        }
        if byte_len(&description) > MAX_DESC_LEN {
            return Err(CustomError::DescriptionTooLong);
        }
        if byte_len(&media_url) > MAX_URL_LEN {
            return Err(CustomError::UrlTooLong);
        }
        let rec = CourseAccount { title, description, instructor: caller, cohort, media_url, created_at: now };
        let ghost rv = rec@;
        self.courses.push(rec);
        proof {
            assert(self@.courses =~= old(self)@.courses.push(rv));
            let post = self@.courses;
            let pre = old(self)@.courses;
            assert forall|i: int, j: int| 0 <= i < j < post.len() implies post[i].title
                != post[j].title by {
                if j < pre.len() {
                    assert(pre[i].title != pre[j].title);
                } else {
                    assert(post[j].title == rv.title);
                    if post[i].title == rv.title {
                        assert(course_titled(pre, rv.title));
                    }
                }
            }
            assert forall|i: int| 0 <= i < post.len() implies #[trigger] str_byte_len(post[i].title)
                <= MAX_TITLE_LEN && str_byte_len(post[i].description) <= MAX_DESC_LEN
                && str_byte_len(post[i].media_url) <= MAX_URL_LEN by {
                if i < pre.len() {
                    assert(str_byte_len(pre[i].title) <= MAX_TITLE_LEN && str_byte_len(
                        pre[i].description,
                    ) <= MAX_DESC_LEN && str_byte_len(pre[i].media_url) <= MAX_URL_LEN);
                } else {
                    assert(post[i] == rv);
                }
            }
        }
        Ok(())
    }
}

} // verus!
