//! The reminders domain model: titles, tasks, creation requests and the
//! creation error taxonomy.
use crate::text::{lemma_trimmed_shape, trim_str, trimmed, trimmed_nonempty};
use vstd::prelude::*;
use vstd::string::StringExecFns;

verus! {

/// A valid title for a task: non-empty once surrounding whitespace is removed.
#[derive(Debug)]
pub struct TaskTitle(String);

/// The error returned when a title is empty after trimming.
#[derive(Debug, Clone)]
pub struct TaskTitleEmptyError;

impl View for TaskTitle {
    type V = Seq<char>;

    closed spec fn view(&self) -> Seq<char> {
        self.0@
    }
}

impl TaskTitle {
    /// The invariant every constructed title satisfies: its text is non-empty
    /// and carries no surrounding whitespace.
    pub open spec fn wf(&self) -> bool {
        trimmed_nonempty(self@)
    }

    /// The single validation gate for titles: trims surrounding whitespace and
    /// rejects the input exactly when nothing is left.
    pub fn new(raw: &str) -> (r: Result<TaskTitle, TaskTitleEmptyError>)
        ensures
            r is Ok <==> trimmed(raw@).len() > 0,
            r matches Ok(t) ==> t@ == trimmed(raw@) && t.wf(),
    {
        let t = trim_str(raw);
        if t.as_str().is_empty() {
            Err(TaskTitleEmptyError)
        } else {
            proof {
                lemma_trimmed_shape(raw@);
            }
            Ok(TaskTitle(t))
        }
    }

    /// The stored text.
    pub fn as_str(&self) -> (r: &str)
        ensures
            r@ == self@,
    {
        self.0.as_str()
    }
}

impl Clone for TaskTitle {
    fn clone(&self) -> (r: Self)
        ensures
            r == *self,
    {
        TaskTitle(self.0.clone())
    }
}

impl PartialEq for TaskTitle {
    /// Equality is by the stored, normalized text.
    fn eq(&self, other: &TaskTitle) -> (r: bool) {
        self.0 == other.0
    }
}

impl Eq for TaskTitle {

}

impl vstd::std_specs::cmp::PartialEqSpecImpl for TaskTitle {
    open spec fn obeys_eq_spec() -> bool {
        true
    }

    open spec fn eq_spec(&self, other: &TaskTitle) -> bool {
        self@ == other@
    }
}

impl TaskTitleEmptyError {
    /// The message shown for a rejected title.
    pub fn message(&self) -> (m: String)
        ensures
            m@ == "task title cannot be empty"@,
    {
        "task title cannot be empty".to_owned()
    }
}

/// A uniquely identifiable task. The identifier is the 128-bit value of the
/// UUID assigned at creation.
#[derive(Debug)]
pub struct Task {
    pub id: u128,
    pub title: TaskTitle,
    pub completed: bool,
}

impl Task {
    /// A task is well formed when its title is.
    pub open spec fn wf(&self) -> bool {
        self.title.wf()
    }

    /// A new task starts out not completed.
    pub fn new(id: u128, title: TaskTitle) -> (t: Task)
        ensures
            t.id == id,
            t.title == title,
            !t.completed,
    {
        Task { id, title, completed: false }
    }

    pub fn id(&self) -> (r: u128)
        ensures
            r == self.id,
    {
        self.id
    }

    pub fn title(&self) -> (r: &TaskTitle)
        ensures
            *r == self.title,
    {
        &self.title
    }
}

impl Clone for Task {
    fn clone(&self) -> (r: Self)
        ensures
            r == *self,
    {
        Task { id: self.id, title: self.title.clone(), completed: self.completed }
    }
}

/// The fields required by the domain to create a task. Built exclusively from
/// a validated [`TaskTitle`], so no empty title can reach a repository.
#[derive(Debug)]
pub struct CreateTaskRequest {
    title: TaskTitle,
}

impl View for CreateTaskRequest {
    type V = Seq<char>;

    closed spec fn view(&self) -> Seq<char> {
        self.title@
    }
}

impl CreateTaskRequest {
    /// Well-formedness of the carried title.
    pub closed spec fn wf(&self) -> bool {
        self.title.wf()
    }

    pub fn new(title: TaskTitle) -> (r: CreateTaskRequest)
        ensures
            r@ == title@,
            r.wf() == title.wf(),
    {
        CreateTaskRequest { title }
    }

    pub fn title(&self) -> (r: &TaskTitle)
        ensures
            r@ == self@,
            r.wf() == self.wf(),
    {
        &self.title
    }
}

impl Clone for CreateTaskRequest {
    fn clone(&self) -> (r: Self)
        ensures
            r == *self,
    {
        CreateTaskRequest { title: self.title.clone() }
    }
}

/// Why a creation attempt failed: the title is already taken, or the store
/// failed for an unclassified reason described by a diagnostic message.
#[derive(Debug)]
pub enum CreateTaskError {
    Duplicate { title: TaskTitle },
    Unknown(String),
}

impl CreateTaskError {
    /// An unclassified failure: diagnostic context attached to the cause, the
    /// cause never replaced.
    pub fn unknown_with_context(context: &str, cause: &str) -> (e: CreateTaskError)
        ensures
            e matches CreateTaskError::Unknown(m) && m@ == context@ + ": "@ + cause@,
    {
        CreateTaskError::Unknown(context.to_owned().concat(": ").concat(cause))
    }
}

} // verus!
