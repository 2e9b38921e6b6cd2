//! The decisions a storage-backed repository makes when a statement fails:
//! telling a uniqueness-constraint violation apart from any other failure, and
//! mapping each into the domain's error vocabulary.
use crate::task::{CreateTaskError, TaskTitle};
use vstd::prelude::*;
use vstd::string::StringExecFns;

verus! {

/// What the storage layer reports when a statement fails: a database error
/// carrying the store's structured code, or any other failure, each with
/// diagnostic text.
#[derive(Debug)]
pub enum StorageError {
    Database { code: Option<String>, message: String },
    Other { message: String },
}

impl StorageError {
    /// The diagnostic text the failure carries.
    pub open spec fn spec_message(&self) -> Seq<char> {
        match self {
            StorageError::Database { message, .. } => message@,
            StorageError::Other { message } => message@,
        }
    }
}

/// The structured code the chosen store reports for a uniqueness-constraint
/// violation: SQLSTATE 23505, `unique_violation`, in PostgreSQL.
pub open spec fn unique_violation_code() -> Seq<char> {
    "23505"@
}

/// Whether the failure is the store signalling a uniqueness-constraint
/// violation, decided by the structured error code, never by message text.
pub fn is_unique_constraint_violation(err: &StorageError) -> (r: bool)
    ensures
        r <==> (err matches StorageError::Database { code: Some(c), .. } && c@
            == unique_violation_code()),
{
    match err {
        StorageError::Database { code: Some(code), .. } => {
            let target: String = "23505".to_owned();
            *code == target
        },
        _ => false,
    }
}

/// Turns a failed insert into the domain's error: a uniqueness violation on
/// the title is the duplicate error; anything else is unclassified, with the
/// attempted title attached as context and the store's own text kept as the
/// cause.
pub fn classify_save_error(err: &StorageError, title: &TaskTitle) -> (e: CreateTaskError)
    ensures
        (err matches StorageError::Database { code: Some(c), .. } && c@
            == unique_violation_code()) ==> (e matches CreateTaskError::Duplicate { title: t } && t
            == *title),
        !(err matches StorageError::Database { code: Some(c), .. } && c@
            == unique_violation_code()) ==> (e matches CreateTaskError::Unknown(m) && m@
            == "failed to save task with title: "@ + title@ + ": "@ + err.spec_message()),
{
    if is_unique_constraint_violation(err) {
        CreateTaskError::Duplicate { title: title.clone() }
    } else {
        let context = "failed to save task with title: ".to_owned().concat(title.as_str());
        let cause = match err {
            StorageError::Database { message, .. } => message,
            StorageError::Other { message } => message,
        };
        CreateTaskError::unknown_with_context(context.as_str(), cause.as_str())
    }
}

} // verus!
