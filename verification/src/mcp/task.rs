//! Tasks: one-off action items shared by every client. A task starts open,
//! moves between open and in progress, and reaches done only through
//! `task_complete`; done is final.
use vstd::prelude::*;
use crate::dates::{iso8601_date, parse_iso8601_date, valid_calendar_date};
use crate::text::{blank, decimal, decimal_i64, is_blank, join3, owned};
use crate::validation::{first_invalid, hyphen_segments, key_error, validate_key};
use super::{DbFailure, clone_option, foreign_key_violation_of, is_foreign_key_violation_of};

verus! {

/// The state of a task.
#[derive(Clone, Copy, Debug, PartialEq, Eq, Structural)]
pub enum Status {
    Open,
    InProgress,
    Done,
}

/// The priority of a task.
#[derive(Clone, Copy, Debug, PartialEq, Eq, Structural)]
pub enum Priority {
    Low,
    Medium,
    High,
}

/// The states `task_update` may set: never done.
#[derive(Clone, Copy, Debug, PartialEq, Eq, Structural)]
pub enum UpdatableStatus {
    Open,
    InProgress,
}

/// The message for an unreadable due date.
pub open spec fn bad_due_date_message() -> Seq<char> {
    "due_date must be a valid date (YYYY-MM-DD)"@
}

/// The message for an id that names no task.
pub open spec fn task_missing(id: i64) -> Seq<char> {
    "task "@ + decimal(id as int) + " does not exist"@
}

/// The message for an id that names no task.
pub fn task_not_found(id: i64) -> (r: String)
    ensures
        r@ == task_missing(id),
{
    let digits = decimal_i64(id);
    join3("task ", digits.as_str(), " does not exist")
}

/// The arguments of `task_create`.
pub struct TaskCreateParams {
    pub text: String,
    pub source: String,
    pub priority: Option<Priority>,
    pub due_date: Option<String>,
    pub linked_subject: Option<String>,
}

/// The row `task_create` inserts; the due date is (year, month, day).
pub struct NewTask {
    pub text: String,
    pub status: Status,
    pub priority: Priority,
    pub linked_subject: Option<String>,
    pub due_date: Option<(i32, u8, u8)>,
    pub source: String,
}

/// Checks a new task and gives the row to insert, in this order: text and
/// source not blank, the linked subject (when given) a kebab-case slug, the
/// due date (when given) a date. The task starts open, at medium priority
/// unless one is given, with its source as the first writer.
pub fn task_create(params: TaskCreateParams) -> (r: Result<NewTask, String>)
    ensures
        blank(params.text@) ==> (r matches Err(m) && m@ == "text must not be empty"@),
        !blank(params.text@) && blank(params.source@) ==> (r matches Err(m) && m@
            == "source must not be empty"@),
        !blank(params.text@) && !blank(params.source@) ==> match params.linked_subject {
            Some(s) => first_invalid(hyphen_segments(s@)) matches Some(seg) ==> (r matches Err(m)
                && m@ == key_error(seg)),
            None => true,
        },
        !blank(params.text@) && !blank(params.source@) && (params.linked_subject matches Some(s)
            ==> first_invalid(hyphen_segments(s@)) is None) ==> match params.due_date {
            Some(d) => if iso8601_date(d@) is None {
                r matches Err(m) && m@ == bad_due_date_message()
            } else {
                r is Ok
            },
            None => r is Ok,
        },
        r matches Ok(t) ==> {
            &&& t.text == params.text
            &&& t.source == params.source
            &&& t.status == Status::Open
            &&& t.priority == params.priority.unwrap_or(Priority::Medium)
            &&& t.linked_subject == params.linked_subject
            &&& t.due_date == (match params.due_date {
                Some(d) => iso8601_date(d@),
                None => None,
            })
            &&& (t.due_date matches Some(d) ==> valid_calendar_date(d.0 as int, d.1 as int, d.2 as int))
        },
{
    if is_blank(params.text.as_str()) {
        return Err(owned("text must not be empty"));
    }
    if is_blank(params.source.as_str()) {
        return Err(owned("source must not be empty"));
    }
    let priority = params.priority.unwrap_or(Priority::Medium);
    match &params.linked_subject {
        Some(subject_id) => match validate_key(subject_id.as_str()) {
            Err(message) => {
                return Err(message);
            },
            Ok(()) => {},
        },
        None => {},
    }
    let due_date = match &params.due_date {
        Some(due_date) => match parse_iso8601_date(due_date.as_str()) {
            Some(date) => Some(date),
            None => {
                return Err(owned("due_date must be a valid date (YYYY-MM-DD)"));
            },
        },
        None => None,
    };
    Ok(
        NewTask {
            text: params.text,
            status: Status::Open,
            priority,
            linked_subject: params.linked_subject,
            due_date,
            source: params.source,
        },
    )
}

/// The answer to a refused task insert: a linked subject that does not
/// exist is the client's mistake, told as such; any other failure is not
/// the tool's to explain (`None`).
pub fn task_create_rejection(failure: &DbFailure, linked_subject: &Option<String>) -> (r: Option<
    String,
>)
    ensures
        is_foreign_key_violation_of(*failure, "tasks_linked_subject_fkey"@) ==> (r matches Some(m)
            && m@ == "subject '"@ + (match linked_subject {
            Some(s) => s@,
            None => Seq::empty(),
        }) + "' does not exist"@),
        !is_foreign_key_violation_of(*failure, "tasks_linked_subject_fkey"@) ==> r is None,
{
    if foreign_key_violation_of(failure, "tasks_linked_subject_fkey") {
        let name = match linked_subject {
            Some(s) => s.as_str(),
            None => "",
        };
        proof {
            reveal_strlit("");
        }
        return Some(join3("subject '", name, "' does not exist"));
    }
    None
}

/// Checks the current status of task `id` (`None` when there is no such
/// task) before it is moved: a task that does not exist or is already done
/// cannot be.
pub fn validate_status(id: i64, current: Option<Status>) -> (r: Result<(), String>)
    ensures
        current is None ==> (r matches Err(m) && m@ == task_missing(id)),
        current == Some(Status::Done) ==> (r matches Err(m) && m@ == "task "@ + decimal(id as int)
            + " is already done"@),
        r is Ok <==> (current is Some && current != Some(Status::Done)),
{
    match current {
        None => Err(task_not_found(id)),
        Some(Status::Done) => {
            let digits = decimal_i64(id);
            Err(join3("task ", digits.as_str(), " is already done"))
        },
        Some(_) => Ok(()),
    }
}

/// The arguments of `task_update`.
pub struct TaskUpdateParams {
    pub id: i64,
    pub updated_by: String,
    pub status: Option<UpdatableStatus>,
    pub priority: Option<Priority>,
    pub due_date: Option<String>,
    pub text: Option<String>,
}

/// The update `task_update` makes: a given status, priority or text
/// replaces the current one; when `due_date_provided`, the due date becomes
/// `due_date` (none for an empty string).
pub struct TaskUpdateWrite {
    pub id: i64,
    pub status: Option<UpdatableStatus>,
    pub priority: Option<Priority>,
    pub due_date_provided: bool,
    pub due_date: Option<(i32, u8, u8)>,
    pub text: Option<String>,
    pub updated_by: String,
}

/// The due date an update sets: none for an empty string, else the parsed
/// date.
pub open spec fn due_date_of(d: Seq<char>) -> Option<(i32, u8, u8)> {
    if d.len() == 0 {
        None
    } else {
        iso8601_date(d)
    }
}

/// Whether the due date an update carries, if any, is acceptable.
pub open spec fn due_date_acceptable(d: Option<String>) -> bool {
    d matches Some(s) ==> (s@.len() == 0 || iso8601_date(s@) is Some)
}

/// An update's due date is acceptable when it is omitted, empty (to clear
/// the date), or a text the date parser reads.
pub proof fn lemma_due_date_acceptable(d: Option<String>)
    ensures
        due_date_acceptable(d) <==> match d {
            None => true,
            Some(s) => s@.len() == 0 || iso8601_date(s@) is Some,
        },
{
}

/// The update for the given arguments.
pub open spec fn task_update_of(params: TaskUpdateParams, w: TaskUpdateWrite) -> bool {
    &&& w.id == params.id
    &&& w.status == params.status
    &&& w.priority == params.priority
    &&& w.due_date_provided == params.due_date is Some
    &&& w.due_date == (match params.due_date {
        Some(d) => due_date_of(d@),
        None => None,
    })
    &&& w.text == params.text
    &&& w.updated_by == params.updated_by
}

/// The next thing to do for a task update.
pub enum TaskUpdateStep {
    /// Refuse with this message.
    Reject(String),
    /// Read the task's status, then continue with
    /// `task_update_with_status`.
    LookUpStatus,
    /// Apply the update; if no task has the id, answer `task_not_found`.
    Write(TaskUpdateWrite),
}

fn write_for(params: &TaskUpdateParams) -> (r: TaskUpdateStep)
    ensures
        r !is LookUpStatus,
        r is Reject <==> !due_date_acceptable(params.due_date),
        r matches TaskUpdateStep::Reject(m) ==> m@ == bad_due_date_message(),
        r matches TaskUpdateStep::Write(w) ==> task_update_of(*params, w),
{
    let due_date = match &params.due_date {
        Some(d) => {
            if d.as_str().is_empty() {
                None
            } else {
                match parse_iso8601_date(d.as_str()) {
                    Some(date) => Some(date),
                    None => {
                        return TaskUpdateStep::Reject(
                            owned("due_date must be a valid date (YYYY-MM-DD)"),
                        );
                    },
                }
            }
        },
        None => None,
    };
    TaskUpdateStep::Write(
        TaskUpdateWrite {
            id: params.id,
            status: params.status,
            priority: params.priority,
            due_date_provided: params.due_date.is_some(),
            due_date,
            text: clone_option(&params.text),
            updated_by: params.updated_by.clone(),
        },
    )
}

/// The first step of a task update: an update that changes nothing is
/// refused, as is a blank text; a new status needs the task's current one
/// first; then the due date must be empty or a date.
pub fn task_update(params: &TaskUpdateParams) -> (r: TaskUpdateStep)
    ensures
        params.status is None && params.priority is None && params.due_date is None
            && params.text is None ==> (r matches TaskUpdateStep::Reject(m) && m@
            == "at least one of status, priority, due_date, or text must be provided"@),
        !(params.status is None && params.priority is None && params.due_date is None
            && params.text is None) ==> if params.text matches Some(t) && blank(t@) {
            r matches TaskUpdateStep::Reject(m) && m@ == "text must not be empty"@
        } else if params.status is Some {
            r is LookUpStatus
        } else if !due_date_acceptable(params.due_date) {
            r matches TaskUpdateStep::Reject(m) && m@ == bad_due_date_message()
        } else {
            r matches TaskUpdateStep::Write(w) && task_update_of(*params, w)
        },
{
    if params.status.is_none() && params.priority.is_none() && params.due_date.is_none()
        && params.text.is_none() {
        return TaskUpdateStep::Reject(
            owned("at least one of status, priority, due_date, or text must be provided"),
        );
    }
    match &params.text {
        Some(text) => {
            if is_blank(text.as_str()) {
                return TaskUpdateStep::Reject(owned("text must not be empty"));
            }
        },
        None => {},
    }
    if params.status.is_some() {
        return TaskUpdateStep::LookUpStatus;
    }
    write_for(params)
}

/// The step after reading the task's current status (`None` when no task
/// has the id): a task that does not exist or is done keeps its status;
/// otherwise the due date must be empty or a date.
pub fn task_update_with_status(params: &TaskUpdateParams, current: Option<Status>) -> (r:
    TaskUpdateStep)
    ensures
        r !is LookUpStatus,
        current is None ==> (r matches TaskUpdateStep::Reject(m) && m@ == task_missing(params.id)),
        current == Some(Status::Done) ==> (r matches TaskUpdateStep::Reject(m) && m@ == "task "@
            + decimal(params.id as int) + " is already done"@),
        current is Some && current != Some(Status::Done) ==> if !due_date_acceptable(
            params.due_date,
        ) {
            r matches TaskUpdateStep::Reject(m) && m@ == bad_due_date_message()
        } else {
            r matches TaskUpdateStep::Write(w) && task_update_of(*params, w)
        },
{
    match validate_status(params.id, current) {
        Err(message) => TaskUpdateStep::Reject(message),
        Ok(()) => write_for(params),
    }
}

/// The status a task has once `w` is applied to it: the new status when
/// the update gives one, the current one otherwise.
pub open spec fn status_after(current: Status, w: TaskUpdateWrite) -> Status {
    match w.status {
        Some(UpdatableStatus::Open) => Status::Open,
        Some(UpdatableStatus::InProgress) => Status::InProgress,
        None => current,
    }
}

/// Done is final under updates: an update that changes the status is only
/// written for a task that is not done (`task_update_with_status` refuses a
/// done one), and then a task is done after the update exactly when it was
/// done before.
pub proof fn lemma_done_is_final(current: Status, w: TaskUpdateWrite)
    requires
        w.status is Some ==> current != Status::Done,
    ensures
        status_after(current, w) == Status::Done <==> current == Status::Done,
{
}

/// A task's priority once `w` is written: the new one when the update
/// gives one, the current one otherwise.
pub open spec fn priority_after(current: Priority, w: TaskUpdateWrite) -> Priority {
    match w.priority {
        Some(p) => p,
        None => current,
    }
}

/// A task's due date once `w` is written: the update's when it carries
/// one (possibly none, to clear it), the current one otherwise.
pub open spec fn due_date_after(current: Option<(i32, u8, u8)>, w: TaskUpdateWrite) -> Option<(i32, u8, u8)> {
    if w.due_date_provided {
        w.due_date
    } else {
        current
    }
}

/// A task's text once `w` is written.
pub open spec fn text_after(current: Seq<char>, w: TaskUpdateWrite) -> Seq<char> {
    match w.text {
        Some(t) => t@,
        None => current,
    }
}

/// An update changes exactly what it was asked to: a given priority, text
/// or status replaces the current one and an omitted one keeps it; a given
/// due date replaces the current one, an empty one clears it, an omitted
/// one keeps it. The write targets the task asked for and records who
/// made it.
pub proof fn lemma_update_applies_requested_fields(
    params: TaskUpdateParams,
    w: TaskUpdateWrite,
    status: Status,
    priority: Priority,
    due_date: Option<(i32, u8, u8)>,
    text: Seq<char>,
)
    requires
        task_update_of(params, w),
    ensures
        w.id == params.id,
        w.updated_by@ == params.updated_by@,
        priority_after(priority, w) == (match params.priority {
            Some(p) => p,
            None => priority,
        }),
        text_after(text, w) == (match params.text {
            Some(t) => t@,
            None => text,
        }),
        due_date_after(due_date, w) == (match params.due_date {
            None => due_date,
            Some(d) => if d@.len() == 0 {
                None
            } else {
                iso8601_date(d@)
            },
        }),
        status_after(status, w) == (match params.status {
            Some(UpdatableStatus::Open) => Status::Open,
            Some(UpdatableStatus::InProgress) => Status::InProgress,
            None => status,
        }),
{
}

/// The answer to a task delete that removed `deleted` rows.
pub fn task_deleted(id: i64, deleted: u64) -> (r: Result<(), String>)
    ensures
        r is Ok <==> deleted > 0,
        r matches Err(m) ==> m@ == task_missing(id),
{
    if deleted == 0 {
        return Err(task_not_found(id));
    }
    Ok(())
}

} // verus!
