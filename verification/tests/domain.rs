use modus::memory::InMemory;
use modus::reminders::{ReminderRepository, ReminderService, Service};
use modus::task::{CreateTaskError, CreateTaskRequest, Task, TaskTitle};

#[test]
fn title_new_trims_and_keeps_text() {
    let title = TaskTitle::new("  Clean apartment  ").expect("a padded title must be accepted");
    assert_eq!(title.as_str(), "Clean apartment");
}

#[test]
fn title_new_accepts_plain_text_unchanged() {
    let title = TaskTitle::new("Clean apartment").expect("a plain title must be accepted");
    assert_eq!(title.as_str(), "Clean apartment");
}

#[test]
fn title_new_rejects_empty_input() {
    assert!(TaskTitle::new("").is_err());
}

#[test]
fn title_new_rejects_whitespace_only_input() {
    assert!(TaskTitle::new("   ").is_err());
    assert!(TaskTitle::new("\t\n\r ").is_err());
    assert!(TaskTitle::new("\u{00A0}\u{2003}\u{3000}").is_err());
}

#[test]
fn title_new_trims_unicode_whitespace() {
    let title = TaskTitle::new("\u{00A0}x\t\n").expect("non-empty after trimming");
    assert_eq!(title.as_str(), "x");
}

#[test]
fn title_equality_is_by_normalized_text() {
    let a = TaskTitle::new(" a ").unwrap();
    let b = TaskTitle::new("a").unwrap();
    assert_eq!(a, b);
    let c = TaskTitle::new("b").unwrap();
    assert_ne!(a, c);
}

#[test]
fn task_new_starts_not_completed() {
    let title = TaskTitle::new("Clean apartment").unwrap();
    let task = Task::new(7, title);
    assert_eq!(task.id(), 7);
    assert_eq!(task.title().as_str(), "Clean apartment");
    assert!(!task.completed);
}

#[test]
fn create_request_carries_its_title() {
    let title = TaskTitle::new("Clean apartment").unwrap();
    let req = CreateTaskRequest::new(title);
    assert_eq!(req.title().as_str(), "Clean apartment");
}

#[test]
fn fresh_title_creates_a_task() {
    let mut repo = InMemory::new();
    let req = CreateTaskRequest::new(TaskTitle::new("Clean apartment").unwrap());
    let task = repo.create_task(&req).expect("a fresh title must be stored");
    assert_eq!(task.title().as_str(), "Clean apartment");
    assert!(!task.completed);
    assert_eq!(repo.len(), 1);
}

#[test]
fn same_normalized_title_twice_gives_one_success_one_duplicate() {
    let mut repo = InMemory::new();
    let first = CreateTaskRequest::new(TaskTitle::new("Clean apartment").unwrap());
    let second = CreateTaskRequest::new(TaskTitle::new("  Clean apartment ").unwrap());
    assert!(repo.create_task(&first).is_ok());
    match repo.create_task(&second) {
        Err(CreateTaskError::Duplicate { title }) => {
            assert_eq!(title.as_str(), "Clean apartment");
        }
        other => panic!("expected a duplicate error, but got {:?}", other),
    }
    assert_eq!(repo.len(), 1);
}

#[test]
fn failed_creation_leaves_count_unchanged() {
    let mut repo = InMemory::new();
    let req = CreateTaskRequest::new(TaskTitle::new("Clean apartment").unwrap());
    assert!(repo.create_task(&req).is_ok());
    let before = repo.len();
    assert!(repo.create_task(&req).is_err());
    assert_eq!(repo.len(), before);
}

#[test]
fn insert_task_reports_taken_id_as_unknown() {
    let mut repo = InMemory::new();
    let first = CreateTaskRequest::new(TaskTitle::new("one").unwrap());
    let second = CreateTaskRequest::new(TaskTitle::new("two").unwrap());
    assert!(repo.insert_task(42, &first).is_ok());
    match repo.insert_task(42, &second) {
        Err(CreateTaskError::Unknown(_)) => {}
        other => panic!("expected an unclassified failure, but got {:?}", other),
    }
    assert_eq!(repo.len(), 1);
}

#[test]
fn distinct_titles_get_distinct_ids() {
    let mut repo = InMemory::new();
    let first = CreateTaskRequest::new(TaskTitle::new("one").unwrap());
    let second = CreateTaskRequest::new(TaskTitle::new("two").unwrap());
    let a = repo.create_task(&first).unwrap();
    let b = repo.create_task(&second).unwrap();
    assert_ne!(a.id(), b.id());
    assert_eq!(repo.len(), 2);
}

#[test]
fn service_propagates_repository_outcomes_unchanged() {
    let mut service = Service::new(InMemory::new());
    let req = CreateTaskRequest::new(TaskTitle::new("Clean apartment").unwrap());
    let task = service.create_task(&req).expect("a fresh title must be stored");
    assert_eq!(task.title().as_str(), "Clean apartment");
    match service.create_task(&req) {
        Err(CreateTaskError::Duplicate { title }) => {
            assert_eq!(title.as_str(), "Clean apartment");
        }
        other => panic!("expected a duplicate error, but got {:?}", other),
    }
}
