use modus::http::{
    create_task, liveness, readiness, ApiError, ApiSuccess, CreateTaskHttpRequestBody,
    CreateTaskResponseData,
};
use modus::memory::InMemory;
use modus::readiness::ReadinessError;
use modus::task::CreateTaskError;
use modus::readiness::{InMemoryProbe, Service as ReadinessSvc};
use modus::reminders::Service as ReminderSvc;

fn body(title: &str) -> CreateTaskHttpRequestBody {
    CreateTaskHttpRequestBody { title: title.to_string() }
}

#[test]
fn test_create_task_success() {
    let mut service = ReminderSvc::new(InMemory::new());
    let actual = create_task(&mut service, body("Clean apartment"));
    assert!(
        actual.is_ok(),
        "expected create_task to succeed, but got {:?}",
        actual
    );
    let actual = actual.unwrap();
    let expected = ApiSuccess::new(
        201,
        CreateTaskResponseData { id: actual.data.id.clone() },
    );
    assert_eq!(
        actual, expected,
        "expected ApiSuccess {:?}, but got {:?}",
        expected, actual
    );
}

#[test]
fn test_readiness_success() {
    let service = ReadinessSvc::new(InMemoryProbe { connected: true });
    let actual = readiness(&service);
    assert!(actual.is_ok());
}

#[test]
fn created_task_id_is_a_well_formed_uuid() {
    let mut service = ReminderSvc::new(InMemory::new());
    let response = create_task(&mut service, body("Clean apartment")).unwrap();
    let id = &response.data.id;
    assert_eq!(id.len(), 36);
    let bytes = id.as_bytes();
    for (i, b) in bytes.iter().enumerate() {
        if i == 8 || i == 13 || i == 18 || i == 23 {
            assert_eq!(*b, b'-', "expected a hyphen at position {} of {}", i, id);
        } else {
            assert!(
                b.is_ascii_hexdigit(),
                "expected a hex digit at position {} of {}",
                i,
                id
            );
        }
    }
}

#[test]
fn repeated_create_is_unprocessable_with_duplicate_message() {
    let mut service = ReminderSvc::new(InMemory::new());
    let first = create_task(&mut service, body("Clean apartment"));
    assert!(first.is_ok());
    match create_task(&mut service, body("Clean apartment")) {
        Err(ApiError::UnprocessableEntity(m)) => {
            assert_eq!(m, "task with title Clean apartment already exists");
        }
        other => panic!("expected a 422 duplicate error, but got {:?}", other),
    }
}

#[test]
fn blank_title_is_unprocessable_with_empty_title_message() {
    let mut service = ReminderSvc::new(InMemory::new());
    match create_task(&mut service, body("   ")) {
        Err(e) => {
            assert_eq!(e.status_code(), 422);
            match e {
                ApiError::UnprocessableEntity(m) => {
                    assert_eq!(m, "task title cannot be empty")
                }
                other => panic!("expected a 422 error, but got {:?}", other),
            }
        }
        Ok(s) => panic!("expected a parse failure, but got {:?}", s),
    }
}

#[test]
fn create_normalizes_the_title_before_uniqueness() {
    let mut service = ReminderSvc::new(InMemory::new());
    assert!(create_task(&mut service, body("Clean apartment")).is_ok());
    let padded = create_task(&mut service, body("  Clean apartment  "));
    match padded {
        Err(ApiError::UnprocessableEntity(m)) => {
            assert_eq!(m, "task with title Clean apartment already exists");
        }
        other => panic!("expected a duplicate error, but got {:?}", other),
    }
}

#[test]
fn liveness_is_always_ok_200() {
    let response = liveness().unwrap();
    assert_eq!(response.status_code, 200);
}

#[test]
fn readiness_maps_probe_outcomes_to_200_and_500() {
    let ready = ReadinessSvc::new(InMemoryProbe { connected: true });
    let up = readiness(&ready).unwrap();
    assert_eq!(up.status_code, 200);

    let severed = ReadinessSvc::new(InMemoryProbe { connected: false });
    match readiness(&severed) {
        Err(e) => {
            assert_eq!(e.status_code(), 500);
            let envelope = e.into_body();
            assert_eq!(envelope.status_code, 500);
            assert_eq!(envelope.data.message, "database is not ready");
        }
        Ok(s) => panic!("expected a 500 error, but got {:?}", s),
    }
}

#[test]
fn unknown_failures_become_internal_server_error() {
    let e = ApiError::of_create_error(CreateTaskError::Unknown("connection reset".to_string()));
    assert_eq!(e.status_code(), 500);
    match e {
        ApiError::InternalServerError(m) => assert_eq!(m, "Internal server error"),
        other => panic!("expected a 500 error, but got {:?}", other),
    }
}

#[test]
fn unknown_with_context_keeps_the_cause() {
    let e = CreateTaskError::unknown_with_context(
        "failed to commit PostgreSQL transaction",
        "connection reset",
    );
    match e {
        CreateTaskError::Unknown(m) => {
            assert_eq!(m, "failed to commit PostgreSQL transaction: connection reset");
        }
        other => panic!("expected an unclassified error, but got {:?}", other),
    }
}

#[test]
fn readiness_error_messages() {
    assert_eq!(ReadinessError::DatabaseNotReady.message(), "database is not ready");
    assert_eq!(ReadinessError::Unknown("pool timed out".to_string()).message(), "pool timed out");
}

#[test]
fn error_envelope_repeats_status_and_message() {
    let e = ApiError::UnprocessableEntity("task title cannot be empty".to_string());
    assert_eq!(e.status_code(), 422);
    let envelope = e.into_body();
    assert_eq!(envelope.status_code, 422);
    assert_eq!(envelope.data.message, "task title cannot be empty");

    let e = ApiError::InternalServerError("Internal server error".to_string());
    assert_eq!(e.status_code(), 500);
    let envelope = e.into_body();
    assert_eq!(envelope.status_code, 500);
    assert_eq!(envelope.data.message, "Internal server error");
}

#[test]
fn success_envelope_keeps_status_and_data() {
    let s = ApiSuccess::new(201, CreateTaskResponseData { id: "x".to_string() });
    let envelope = s.into_body();
    assert_eq!(envelope.status_code, 201);
    assert_eq!(envelope.data.id, "x");
}

#[test]
fn try_into_domain_validates_the_title() {
    assert!(body("  ").try_into_domain().is_err());
    let req = body(" Clean apartment ").try_into_domain().unwrap();
    assert_eq!(req.title().as_str(), "Clean apartment");
}
