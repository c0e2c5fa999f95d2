use pando::mcp::memory::{
    memory_create, memory_create_rejection, memory_deleted, memory_not_found, memory_search,
    memory_update, MemoryCreateParams, MemoryUpdateParams, Scope,
};
use pando::mcp::subject::{
    default_status, subject_create, subject_create_rejection, subject_deleted, subject_update,
    subject_update_with_category, validate_status_for_category, Category, Status,
    SubjectCreateParams, SubjectUpdateParams, SubjectUpdateStep,
};
use pando::mcp::task::{
    task_create, task_create_rejection, task_deleted, task_not_found, task_update,
    task_update_with_status, validate_status, Priority, Status as TaskStatus, TaskCreateParams,
    TaskUpdateParams, TaskUpdateStep, UpdatableStatus,
};
use pando::mcp::DbFailure;
use pando::routes::{allowed_mcp_hosts, readiness_status};

fn some(s: &str) -> Option<String> {
    Some(s.to_string())
}

#[test]
fn default_statuses_follow_the_category() {
    assert_eq!(default_status(&Category::Project), Some(Status::Active));
    assert_eq!(default_status(&Category::Focus), Some(Status::Active));
    assert_eq!(default_status(&Category::Relationship), None);
}

#[test]
fn statuses_are_checked_against_the_category() {
    assert_eq!(validate_status_for_category(&Status::Finished, &Category::Project), Ok(()));
    assert_eq!(validate_status_for_category(&Status::Paused, &Category::Focus), Ok(()));
    assert_eq!(
        validate_status_for_category(&Status::Finished, &Category::Focus),
        Err("focus subjects cannot have status 'finished'".to_string())
    );
    assert_eq!(
        validate_status_for_category(&Status::Active, &Category::Relationship),
        Err("relationship subjects cannot have a status".to_string())
    );
}

#[test]
fn a_new_subjects_status_is_always_allowed() {
    for c in [Category::Project, Category::Focus, Category::Relationship] {
        if let Some(s) = default_status(&c) {
            assert_eq!(validate_status_for_category(&s, &c), Ok(()));
        }
    }
}

fn new_subject(slug: &str, title: &str, summary: Option<String>) -> SubjectCreateParams {
    SubjectCreateParams {
        slug: slug.to_string(),
        title: title.to_string(),
        category: Category::Relationship,
        summary,
        updated_by: "desk-agent".to_string(),
    }
}

#[test]
fn subject_create_checks_and_fills_in() {
    match subject_create(new_subject("bad slug", "T", None)) {
        Err(m) => assert_eq!(
            m,
            "key segment 'bad slug' is invalid \u{2014} only lowercase letters and digits are allowed"
        ),
        Ok(_) => panic!("expected a refusal"),
    }
    match subject_create(new_subject("mom", "   ", None)) {
        Err(m) => assert_eq!(m, "title must not be empty"),
        Ok(_) => panic!("expected a refusal"),
    }
    match subject_create(new_subject("mom", "Mom", some("  \n"))) {
        Ok(n) => {
            assert_eq!(n.slug, "mom");
            assert_eq!(n.title, "Mom");
            assert_eq!(n.status, None);
            assert_eq!(n.summary, None);
            assert_eq!(n.updated_by, "desk-agent");
        }
        Err(_) => panic!("expected a subject"),
    }
    let mut p = new_subject("pando", "Pando", some("memory backend"));
    p.category = Category::Project;
    match subject_create(p) {
        Ok(n) => {
            assert_eq!(n.status, Some(Status::Active));
            assert_eq!(n.summary, some("memory backend"));
        }
        Err(_) => panic!("expected a subject"),
    }
}

#[test]
fn duplicate_slugs_are_reported() {
    let dup = DbFailure::UniqueViolation(some("subjects_pkey"));
    assert_eq!(subject_create_rejection(&dup, "pando"), some("slug 'pando' already exists"));
    assert_eq!(subject_create_rejection(&DbFailure::UniqueViolation(None), "pando"), None);
    assert_eq!(subject_create_rejection(&DbFailure::Other, "pando"), None);
}

fn update(title: Option<String>, status: Option<Status>, summary: Option<String>) -> SubjectUpdateParams {
    SubjectUpdateParams {
        slug: "pando".to_string(),
        title,
        status,
        summary,
        updated_by: "cowork".to_string(),
    }
}

#[test]
fn subject_update_steps() {
    match subject_update(&update(None, None, None)) {
        SubjectUpdateStep::Reject(m) => {
            assert_eq!(m, "at least one of title, status, or summary must be provided")
        }
        _ => panic!("expected a refusal"),
    }
    match subject_update(&update(some(" "), Some(Status::Paused), None)) {
        SubjectUpdateStep::Reject(m) => assert_eq!(m, "title must not be empty"),
        _ => panic!("expected a refusal"),
    }
    assert!(matches!(
        subject_update(&update(None, Some(Status::Paused), None)),
        SubjectUpdateStep::LookUpCategory
    ));
    match subject_update(&update(some("New"), None, some(""))) {
        SubjectUpdateStep::Write(w) => {
            assert_eq!(w.slug, "pando");
            assert_eq!(w.title, some("New"));
            assert_eq!(w.status, None);
            assert!(w.summary_provided);
            assert_eq!(w.summary, None);
            assert_eq!(w.updated_by, "cowork");
        }
        _ => panic!("expected a write"),
    }
}

#[test]
fn subject_update_after_the_category_lookup() {
    let p = update(None, Some(Status::Finished), None);
    match subject_update_with_category(&p, None) {
        SubjectUpdateStep::Reject(m) => assert_eq!(m, "slug 'pando' does not exist"),
        _ => panic!("expected a refusal"),
    }
    match subject_update_with_category(&p, Some(Category::Focus)) {
        SubjectUpdateStep::Reject(m) => assert_eq!(m, "focus subjects cannot have status 'finished'"),
        _ => panic!("expected a refusal"),
    }
    match subject_update_with_category(&p, Some(Category::Project)) {
        SubjectUpdateStep::Write(w) => {
            assert_eq!(w.status, Some(Status::Finished));
            assert!(!w.summary_provided);
        }
        _ => panic!("expected a write"),
    }
}

#[test]
fn subject_delete_outcomes() {
    assert_eq!(subject_deleted("pando", 1), Ok(()));
    assert_eq!(subject_deleted("gone", 0), Err("slug 'gone' does not exist".to_string()));
}

fn memory(key: &str, subject_id: Option<String>, content: &str, description: &str) -> MemoryCreateParams {
    MemoryCreateParams {
        scope: Scope::Preference,
        key: key.to_string(),
        content: content.to_string(),
        description: description.to_string(),
        subject_id,
        updated_by: "phone-agent".to_string(),
    }
}

#[test]
fn memory_create_checks_in_order() {
    assert_eq!(memory_create(&memory("timezone", None, "UTC", "where I live")), Ok(()));
    assert_eq!(
        memory_create(&memory("Time", some("Bad"), "", "")),
        Err("key segment 'Time' is invalid \u{2014} only lowercase letters and digits are allowed"
            .to_string())
    );
    assert_eq!(
        memory_create(&memory("time", some("-x"), "", "")),
        Err("key must not be empty and must not have leading, trailing, or double hyphens".to_string())
    );
    assert_eq!(
        memory_create(&memory("time", some("x"), " ", "")),
        Err("content must not be empty".to_string())
    );
    assert_eq!(
        memory_create(&memory("time", None, "UTC", "\t")),
        Err("description must not be empty".to_string())
    );
}

#[test]
fn memory_insert_refusals() {
    let dup = DbFailure::UniqueViolation(some("memory_entries_subject_key"));
    assert_eq!(
        memory_create_rejection(&dup, &some("pando")),
        some("a memory entry already exists for this scope/key/subject")
    );
    let dup = DbFailure::UniqueViolation(some("memory_entries_global_key"));
    assert_eq!(
        memory_create_rejection(&dup, &None),
        some("a memory entry already exists for this scope/key/subject")
    );
    let fk = DbFailure::ForeignKeyViolation(some("memory_entries_subject_id_fkey"));
    assert_eq!(memory_create_rejection(&fk, &some("ghost")), some("subject 'ghost' does not exist"));
    assert_eq!(memory_create_rejection(&fk, &None), some("subject '' does not exist"));
    assert_eq!(memory_create_rejection(&DbFailure::Other, &None), None);
}

#[test]
fn memory_search_pattern() {
    assert_eq!(memory_search("  50%_off  "), Ok("%50\\%\\_off%".to_string()));
    assert_eq!(memory_search("tz"), Ok("%tz%".to_string()));
    assert_eq!(memory_search(" \n "), Err("query must not be empty".to_string()));
}

fn memory_change(content: Option<String>, description: Option<String>) -> MemoryUpdateParams {
    MemoryUpdateParams {
        scope: Scope::Topic,
        key: "k".to_string(),
        subject_id: None,
        content,
        description,
        updated_by: "cowork".to_string(),
    }
}

#[test]
fn memory_update_checks() {
    assert_eq!(
        memory_update(&memory_change(None, None)),
        Err("at least one of content or description must be provided".to_string())
    );
    assert_eq!(memory_update(&memory_change(some(""), some("d"))), Err("content must not be empty".to_string()));
    assert_eq!(
        memory_update(&memory_change(some("c"), some(" "))),
        Err("description must not be empty".to_string())
    );
    assert_eq!(memory_update(&memory_change(None, some("d"))), Ok(()));
    assert_eq!(memory_not_found(), "no memory entry exists for that scope/key/subject");
    assert_eq!(memory_deleted(1), Ok(()));
    assert_eq!(memory_deleted(0), Err("no memory entry exists for that scope/key/subject".to_string()));
}

fn new_task(text: &str, source: &str, due: Option<String>, linked: Option<String>) -> TaskCreateParams {
    TaskCreateParams {
        text: text.to_string(),
        source: source.to_string(),
        priority: None,
        due_date: due,
        linked_subject: linked,
    }
}

#[test]
fn task_create_checks_and_defaults() {
    match task_create(new_task(" ", "x", None, None)) {
        Err(m) => assert_eq!(m, "text must not be empty"),
        Ok(_) => panic!("expected a refusal"),
    }
    match task_create(new_task("t", "", None, None)) {
        Err(m) => assert_eq!(m, "source must not be empty"),
        Ok(_) => panic!("expected a refusal"),
    }
    match task_create(new_task("t", "s", None, some("Bad"))) {
        Err(m) => assert_eq!(
            m,
            "key segment 'Bad' is invalid \u{2014} only lowercase letters and digits are allowed"
        ),
        Ok(_) => panic!("expected a refusal"),
    }
    match task_create(new_task("t", "s", some("next week"), None)) {
        Err(m) => assert_eq!(m, "due_date must be a valid date (YYYY-MM-DD)"),
        Ok(_) => panic!("expected a refusal"),
    }
    match task_create(new_task("Write docs", "desk-agent", some("2025-06-30"), some("pando"))) {
        Ok(t) => {
            assert_eq!(t.text, "Write docs");
            assert_eq!(t.source, "desk-agent");
            assert_eq!(t.status, TaskStatus::Open);
            assert_eq!(t.priority, Priority::Medium);
            assert_eq!(t.due_date, Some((2025, 6, 30)));
            assert_eq!(t.linked_subject, some("pando"));
        }
        Err(_) => panic!("expected a task"),
    }
    let mut p = new_task("t", "s", None, None);
    p.priority = Some(Priority::High);
    match task_create(p) {
        Ok(t) => {
            assert_eq!(t.priority, Priority::High);
            assert_eq!(t.due_date, None);
        }
        Err(_) => panic!("expected a task"),
    }
}

#[test]
fn task_insert_refusals() {
    let fk = DbFailure::ForeignKeyViolation(some("tasks_linked_subject_fkey"));
    assert_eq!(task_create_rejection(&fk, &some("ghost")), some("subject 'ghost' does not exist"));
    let other = DbFailure::ForeignKeyViolation(some("memory_entries_subject_id_fkey"));
    assert_eq!(task_create_rejection(&other, &some("ghost")), None);
}

#[test]
fn done_tasks_cannot_move() {
    assert_eq!(validate_status(7, Some(TaskStatus::Open)), Ok(()));
    assert_eq!(validate_status(7, Some(TaskStatus::InProgress)), Ok(()));
    assert_eq!(validate_status(7, Some(TaskStatus::Done)), Err("task 7 is already done".to_string()));
    assert_eq!(validate_status(7, None), Err("task 7 does not exist".to_string()));
    assert_eq!(task_not_found(-3), "task -3 does not exist");
}

fn task_change(status: Option<UpdatableStatus>, due: Option<String>, text: Option<String>) -> TaskUpdateParams {
    TaskUpdateParams {
        id: 12,
        updated_by: "cowork".to_string(),
        status,
        priority: None,
        due_date: due,
        text,
    }
}

#[test]
fn task_update_steps() {
    match task_update(&task_change(None, None, None)) {
        TaskUpdateStep::Reject(m) => assert_eq!(
            m,
            "at least one of status, priority, due_date, or text must be provided"
        ),
        _ => panic!("expected a refusal"),
    }
    match task_update(&task_change(Some(UpdatableStatus::Open), None, some(""))) {
        TaskUpdateStep::Reject(m) => assert_eq!(m, "text must not be empty"),
        _ => panic!("expected a refusal"),
    }
    assert!(matches!(
        task_update(&task_change(Some(UpdatableStatus::InProgress), some("bad"), None)),
        TaskUpdateStep::LookUpStatus
    ));
    match task_update(&task_change(None, some("31/12/2025"), None)) {
        TaskUpdateStep::Reject(m) => assert_eq!(m, "due_date must be a valid date (YYYY-MM-DD)"),
        _ => panic!("expected a refusal"),
    }
    match task_update(&task_change(None, some(""), None)) {
        TaskUpdateStep::Write(w) => {
            assert_eq!(w.id, 12);
            assert!(w.due_date_provided);
            assert_eq!(w.due_date, None);
        }
        _ => panic!("expected a write"),
    }
    match task_update(&task_change(None, None, some("new text"))) {
        TaskUpdateStep::Write(w) => {
            assert!(!w.due_date_provided);
            assert_eq!(w.text, some("new text"));
            assert_eq!(w.updated_by, "cowork");
        }
        _ => panic!("expected a write"),
    }
}

#[test]
fn task_update_after_the_status_lookup() {
    let p = task_change(Some(UpdatableStatus::InProgress), some("2026-01-15"), None);
    match task_update_with_status(&p, Some(TaskStatus::Done)) {
        TaskUpdateStep::Reject(m) => assert_eq!(m, "task 12 is already done"),
        _ => panic!("expected a refusal"),
    }
    match task_update_with_status(&p, None) {
        TaskUpdateStep::Reject(m) => assert_eq!(m, "task 12 does not exist"),
        _ => panic!("expected a refusal"),
    }
    match task_update_with_status(&p, Some(TaskStatus::Open)) {
        TaskUpdateStep::Write(w) => {
            assert_eq!(w.status, Some(UpdatableStatus::InProgress));
            assert_eq!(w.due_date, Some((2026, 1, 15)));
        }
        _ => panic!("expected a write"),
    }
}

#[test]
fn task_delete_outcomes() {
    assert_eq!(task_deleted(5, 1), Ok(()));
    assert_eq!(task_deleted(5, 0), Err("task 5 does not exist".to_string()));
}

#[test]
fn allowed_hosts_include_the_public_authority() {
    assert_eq!(
        allowed_mcp_hosts("https://pando.fly.dev"),
        vec!["localhost", "127.0.0.1", "::1", "pando.fly.dev"]
    );
    assert_eq!(allowed_mcp_hosts("no authority here"), vec!["localhost", "127.0.0.1", "::1"]);
}

#[test]
fn readiness() {
    assert_eq!(readiness_status(true), 200);
    assert_eq!(readiness_status(false), 503);
}
