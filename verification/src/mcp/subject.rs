//! Subjects: projects, ongoing focuses and relationships that memory and
//! tasks hang off. A subject's slug is chosen by the client, checked for
//! shape, and never changes; its status follows its category.
use vstd::prelude::*;
use crate::text::{blank, is_blank, join3, owned};
use crate::validation::{first_invalid, hyphen_segments, key_error, validate_key};
use super::{DbFailure, clone_option, is_unique_violation_of, unique_violation_of};

verus! {

/// The kind of a subject.
#[derive(Clone, Copy, Debug, PartialEq, Eq, Structural)]
pub enum Category {
    Project,
    Focus,
    Relationship,
}

/// The state of a project or focus.
#[derive(Clone, Copy, Debug, PartialEq, Eq, Structural)]
pub enum Status {
    Active,
    Paused,
    Finished,
}

/// The status a new subject starts with: active for a project or focus,
/// none for a relationship.
pub open spec fn initial_status(category: Category) -> Option<Status> {
    match category {
        Category::Relationship => None,
        Category::Project | Category::Focus => Some(Status::Active),
    }
}

/// The statuses a category admits: none for a relationship, any but
/// finished for a focus, any for a project.
pub open spec fn status_allowed(status: Status, category: Category) -> bool {
    match (category, status) {
        (Category::Relationship, _) => false,
        (Category::Focus, Status::Finished) => false,
        _ => true,
    }
}

/// Which statuses each category admits: a project any of active, paused
/// and finished; a focus active or paused, never finished; a relationship
/// none at all. A new project or focus starts active, a new relationship
/// without a status.
pub proof fn lemma_statuses_by_category(s: Status)
    ensures
        status_allowed(s, Category::Project),
        status_allowed(s, Category::Focus) <==> s != Status::Finished,
        !status_allowed(s, Category::Relationship),
        initial_status(Category::Project) == Some(Status::Active),
        initial_status(Category::Focus) == Some(Status::Active),
        initial_status(Category::Relationship) == None::<Status>,
{
}

/// The status a new subject of `category` gets.
pub fn default_status(category: &Category) -> (r: Option<Status>)
    ensures
        r == initial_status(*category),
{
    match category {
        Category::Relationship => None,
        Category::Project | Category::Focus => Some(Status::Active),
    }
}

/// Checks that a subject of `category` may take `status`.
pub fn validate_status_for_category(status: &Status, category: &Category) -> (r: Result<(), String>)
    ensures
        r is Ok <==> status_allowed(*status, *category),
        *category == Category::Relationship ==> (r matches Err(m) && m@
            == "relationship subjects cannot have a status"@),
        *category == Category::Focus && *status == Status::Finished ==> (r matches Err(m) && m@
            == "focus subjects cannot have status 'finished'"@),
{
    match (category, status) {
        (Category::Relationship, _) => Err(owned("relationship subjects cannot have a status")),
        (Category::Focus, Status::Finished) => Err(owned("focus subjects cannot have status 'finished'")),
        _ => Ok(()),
    }
}

/// A new subject's status is one its category admits, and only a
/// relationship starts without one.
pub proof fn lemma_initial_status_allowed(category: Category)
    ensures
        initial_status(category) matches Some(s) ==> status_allowed(s, category),
        initial_status(category) is None <==> category == Category::Relationship,
{
}

/// The message for a slug that names no subject.
pub open spec fn slug_missing(slug: Seq<char>) -> Seq<char> {
    "slug '"@ + slug + "' does not exist"@
}

/// The message for a slug that names no subject.
pub fn slug_not_found(slug: &str) -> (r: String)
    ensures
        r@ == slug_missing(slug@),
{
    join3("slug '", slug, "' does not exist")
}

/// An optional text, dropped when it is blank.
pub open spec fn non_blank(o: Option<String>) -> Option<String> {
    match o {
        Some(s) => if blank(s@) {
            None
        } else {
            Some(s)
        },
        None => None,
    }
}

/// An optional text, dropped when it is blank.
pub fn keep_non_blank(o: Option<String>) -> (r: Option<String>)
    ensures
        r == non_blank(o),
{
    match o {
        Some(s) => if is_blank(s.as_str()) {
            None
        } else {
            Some(s)
        },
        None => None,
    }
}

/// The arguments of `subject_create`.
pub struct SubjectCreateParams {
    pub slug: String,
    pub title: String,
    pub category: Category,
    pub summary: Option<String>,
    pub updated_by: String,
}

/// The row `subject_create` inserts.
pub struct NewSubject {
    pub slug: String,
    pub title: String,
    pub category: Category,
    pub status: Option<Status>,
    pub summary: Option<String>,
    pub updated_by: String,
}

/// Checks a new subject and gives the row to insert. The slug must be
/// kebab-case and the title not blank; the status is the category's
/// initial one, and a blank summary is stored as none.
pub fn subject_create(params: SubjectCreateParams) -> (r: Result<NewSubject, String>)
    ensures
        first_invalid(hyphen_segments(params.slug@)) matches Some(seg) ==> (r matches Err(m) && m@
            == key_error(seg)),
        first_invalid(hyphen_segments(params.slug@)) is None && blank(params.title@) ==> (r matches Err(
            m,
        ) && m@ == "title must not be empty"@),
        r is Ok <==> first_invalid(hyphen_segments(params.slug@)) is None && !blank(params.title@),
        r matches Ok(n) ==> {
            &&& n.slug == params.slug
            &&& n.title == params.title
            &&& n.category == params.category
            &&& n.status == initial_status(params.category)
            &&& n.summary == non_blank(params.summary)
            &&& n.updated_by == params.updated_by
        },
{
    match validate_key(params.slug.as_str()) {
        Err(message) => {
            return Err(message);
        },
        Ok(()) => {},
    }
    if is_blank(params.title.as_str()) {
        return Err(owned("title must not be empty"));
    }
    let status = default_status(&params.category);
    let summary = keep_non_blank(params.summary);
    Ok(
        NewSubject {
            slug: params.slug,
            title: params.title,
            category: params.category,
            status,
            summary,
            updated_by: params.updated_by,
        },
    )
}

/// The answer to a refused subject insert: a slug already taken is the
/// client's mistake, told as such; any other failure is not the tool's to
/// explain (`None`).
pub fn subject_create_rejection(failure: &DbFailure, slug: &str) -> (r: Option<String>)
    ensures
        is_unique_violation_of(*failure, "subjects_pkey"@) ==> (r matches Some(m) && m@ == "slug '"@
            + slug@ + "' already exists"@),
        !is_unique_violation_of(*failure, "subjects_pkey"@) ==> r is None,
{
    if unique_violation_of(failure, "subjects_pkey") {
        Some(join3("slug '", slug, "' already exists"))
    } else {
        None
    }
}

/// The arguments of `subject_update`.
pub struct SubjectUpdateParams {
    pub slug: String,
    pub title: Option<String>,
    pub status: Option<Status>,
    pub summary: Option<String>,
    pub updated_by: String,
}

/// The update `subject_update` makes: a given title or status replaces the
/// current one; when `summary_provided`, the summary becomes `summary`
/// (none for a blank one).
pub struct SubjectUpdateWrite {
    pub slug: String,
    pub title: Option<String>,
    pub status: Option<Status>,
    pub summary_provided: bool,
    pub summary: Option<String>,
    pub updated_by: String,
}

/// The update for the given arguments.
pub open spec fn update_of(params: SubjectUpdateParams, w: SubjectUpdateWrite) -> bool {
    &&& w.slug == params.slug
    &&& w.title == params.title
    &&& w.status == params.status
    &&& w.summary_provided == params.summary is Some
    &&& w.summary == non_blank(params.summary)
    &&& w.updated_by == params.updated_by
}

/// A subject's title once `w` is written.
pub open spec fn title_after(current: Seq<char>, w: SubjectUpdateWrite) -> Seq<char> {
    match w.title {
        Some(t) => t@,
        None => current,
    }
}

/// A subject's status once `w` is written.
pub open spec fn subject_status_after(current: Option<Status>, w: SubjectUpdateWrite) -> Option<Status> {
    match w.status {
        Some(s) => Some(s),
        None => current,
    }
}

/// A subject's summary once `w` is written: the update's when it carries
/// one, the current one otherwise.
pub open spec fn summary_after(current: Option<Seq<char>>, w: SubjectUpdateWrite) -> Option<Seq<char>> {
    if w.summary_provided {
        match w.summary {
            Some(s) => Some(s@),
            None => None,
        }
    } else {
        current
    }
}

/// An update changes exactly what it was asked to: a given title or status
/// replaces the current one and an omitted one keeps it; a given summary
/// replaces the current one, a blank one clears it, an omitted one keeps
/// it. The write targets the subject asked for and records who made it.
pub proof fn lemma_subject_update_applies_requested_fields(
    params: SubjectUpdateParams,
    w: SubjectUpdateWrite,
    title: Seq<char>,
    status: Option<Status>,
    summary: Option<Seq<char>>,
)
    requires
        update_of(params, w),
    ensures
        w.slug@ == params.slug@,
        w.updated_by@ == params.updated_by@,
        title_after(title, w) == (match params.title {
            Some(t) => t@,
            None => title,
        }),
        subject_status_after(status, w) == (match params.status {
            Some(s) => Some(s),
            None => status,
        }),
        summary_after(summary, w) == (match params.summary {
            None => summary,
            Some(s) => if blank(s@) {
                None
            } else {
                Some(s@)
            },
        }),
{
}

/// The next thing to do for a subject update.
pub enum SubjectUpdateStep {
    /// Refuse with this message.
    Reject(String),
    /// Read the subject's category, then continue with
    /// `subject_update_with_category`.
    LookUpCategory,
    /// Apply the update; if no subject has the slug, answer
    /// `slug_not_found`.
    Write(SubjectUpdateWrite),
}

fn write_for(params: &SubjectUpdateParams) -> (w: SubjectUpdateWrite)
    ensures
        update_of(*params, w),
{
    SubjectUpdateWrite {
        slug: params.slug.clone(),
        title: clone_option(&params.title),
        status: params.status,
        summary_provided: params.summary.is_some(),
        summary: keep_non_blank(clone_option(&params.summary)),
        updated_by: params.updated_by.clone(),
    }
}

/// The first step of a subject update. An update that changes nothing is
/// refused, as is a blank title; a new status must first be checked
/// against the subject's category.
pub fn subject_update(params: &SubjectUpdateParams) -> (r: SubjectUpdateStep)
    ensures
        params.title is None && params.status is None && params.summary is None ==> (r matches SubjectUpdateStep::Reject(
            m,
        ) && m@ == "at least one of title, status, or summary must be provided"@),
        !(params.title is None && params.status is None && params.summary is None) && (
        params.title matches Some(t) && blank(t@)) ==> (r matches SubjectUpdateStep::Reject(m) && m@
            == "title must not be empty"@),
        r is LookUpCategory <==> params.status is Some && !(params.title matches Some(t) && blank(
            t@,
        )),
        r matches SubjectUpdateStep::Write(w) ==> update_of(*params, w),
        r is Write <==> params.status is None && (params.title is Some || params.summary is Some)
            && !(params.title matches Some(t) && blank(t@)),
{
    if params.title.is_none() && params.status.is_none() && params.summary.is_none() {
        return SubjectUpdateStep::Reject(
            owned("at least one of title, status, or summary must be provided"),
        );
    }
    match &params.title {
        Some(title) => {
            if is_blank(title.as_str()) {
                return SubjectUpdateStep::Reject(owned("title must not be empty"));
            }
        },
        None => {},
    }
    if params.status.is_some() {
        return SubjectUpdateStep::LookUpCategory;
    }
    SubjectUpdateStep::Write(write_for(params))
}

/// The step after reading the category of the subject (`None` when no
/// subject has the slug): the new status must suit the category.
pub fn subject_update_with_category(params: &SubjectUpdateParams, category: Option<Category>) -> (r:
    SubjectUpdateStep)
    ensures
        r !is LookUpCategory,
        params.status is Some && category is None ==> (r matches SubjectUpdateStep::Reject(m) && m@
            == slug_missing(params.slug@)),
        match (params.status, category) {
            (Some(s), Some(c)) => !status_allowed(s, c) ==> (r matches SubjectUpdateStep::Reject(m)
                && m@ == (if c == Category::Relationship {
                "relationship subjects cannot have a status"@
            } else {
                "focus subjects cannot have status 'finished'"@
            })),
            _ => true,
        },
        r is Write <==> (params.status is None || (params.status matches Some(s) && category matches Some(
            c,
        ) && status_allowed(s, c))),
        r matches SubjectUpdateStep::Write(w) ==> update_of(*params, w),
{
    match &params.status {
        Some(new_status) => {
            match category {
                None => {
                    return SubjectUpdateStep::Reject(slug_not_found(params.slug.as_str()));
                },
                Some(category) => {
                    match validate_status_for_category(new_status, &category) {
                        Err(message) => {
                            return SubjectUpdateStep::Reject(message);
                        },
                        Ok(()) => {},
                    }
                },
            }
        },
        None => {},
    }
    SubjectUpdateStep::Write(write_for(params))
}

/// The answer to a subject delete that removed `deleted` subject rows
/// (after removing the subject's memory in the same transaction): none
/// removed means the slug names no subject.
pub fn subject_deleted(slug: &str, deleted: u64) -> (r: Result<(), String>)
    ensures
        r is Ok <==> deleted > 0,
        r matches Err(m) ==> m@ == slug_missing(slug@),
{
    if deleted == 0 {
        return Err(slug_not_found(slug));
    }
    Ok(())
}

} // verus!
