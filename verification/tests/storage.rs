use modus::storage::{classify_save_error, is_unique_constraint_violation, StorageError};
use modus::task::{CreateTaskError, TaskTitle};

#[test]
fn unique_violation_is_detected_by_code_only() {
    let hit = StorageError::Database {
        code: Some("23505".to_string()),
        message: "anything".to_string(),
    };
    assert!(is_unique_constraint_violation(&hit));

    let other_code = StorageError::Database {
        code: Some("2067".to_string()),
        message: "duplicate key value violates unique constraint".to_string(),
    };
    assert!(!is_unique_constraint_violation(&other_code));

    let no_code = StorageError::Database {
        code: None,
        message: "23505".to_string(),
    };
    assert!(!is_unique_constraint_violation(&no_code));

    let not_database = StorageError::Other { message: "23505".to_string() };
    assert!(!is_unique_constraint_violation(&not_database));
}

#[test]
fn unique_violation_becomes_duplicate_with_the_title() {
    let title = TaskTitle::new("Clean apartment").unwrap();
    let err = StorageError::Database {
        code: Some("23505".to_string()),
        message: "constraint violated".to_string(),
    };
    match classify_save_error(&err, &title) {
        CreateTaskError::Duplicate { title: t } => {
            assert_eq!(t.as_str(), "Clean apartment");
        }
        other => panic!("expected a duplicate error, but got {:?}", other),
    }
}

#[test]
fn other_failures_become_unknown_with_context_and_cause() {
    let title = TaskTitle::new("Clean apartment").unwrap();
    let err = StorageError::Other { message: "connection reset".to_string() };
    match classify_save_error(&err, &title) {
        CreateTaskError::Unknown(m) => {
            assert_eq!(
                m,
                "failed to save task with title: Clean apartment: connection reset"
            );
        }
        other => panic!("expected an unclassified error, but got {:?}", other),
    }
}

#[test]
fn database_failure_with_foreign_code_keeps_its_cause() {
    let title = TaskTitle::new("Clean apartment").unwrap();
    let err = StorageError::Database {
        code: Some("57P01".to_string()),
        message: "admin shutdown".to_string(),
    };
    match classify_save_error(&err, &title) {
        CreateTaskError::Unknown(m) => {
            assert_eq!(
                m,
                "failed to save task with title: Clean apartment: admin shutdown"
            );
        }
        other => panic!("expected an unclassified error, but got {:?}", other),
    }
}
