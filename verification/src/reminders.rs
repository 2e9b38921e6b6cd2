//! The reminders ports: the repository and service contracts, and the
//! canonical service implementation that delegates to a repository.
use crate::task::{CreateTaskError, CreateTaskRequest, Task};
use vstd::prelude::*;

verus! {

/// The abstract view every reminders port exposes: an invariant, the number of
/// stored tasks, and which titles and identifiers are present.
pub trait TaskStoreView: Sized {
    spec fn inv(&self) -> bool;

    spec fn task_count(&self) -> nat;

    spec fn has_title(&self, title: Seq<char>) -> bool;

    spec fn has_id(&self, id: u128) -> bool;
}

/// Everything one `create_task` call promises: `pre` and `post` are the store
/// before and after the call, `req` the request, `r` the outcome.
///
/// On success exactly one task was added, with the requested title, a fresh
/// identifier and `completed` false, and the title was previously unused. Any
/// failure leaves the store untouched. The duplicate error is returned exactly
/// when the title was already taken, so a fresh title fails only for an
/// unclassified storage reason.
pub open spec fn create_task_post<R: TaskStoreView>(
    pre: R,
    post: R,
    req: CreateTaskRequest,
    r: Result<Task, CreateTaskError>,
) -> bool {
    &&& post.inv()
    &&& (r matches Ok(t) ==> {
        &&& !pre.has_title(req@)
        &&& t.title@ == req@
        &&& t.wf()
        &&& !t.completed
        &&& !pre.has_id(t.id)
        &&& post.has_id(t.id)
        &&& post.task_count() == pre.task_count() + 1
        &&& (forall|s: Seq<char>| post.has_title(s) <==> (pre.has_title(s) || s == req@))
        &&& (forall|i: u128| post.has_id(i) <==> (pre.has_id(i) || i == t.id))
    })
    &&& (r is Err ==> post == pre)
    &&& (pre.has_title(req@) <==> r matches Err(CreateTaskError::Duplicate { .. }))
    &&& (r matches Err(CreateTaskError::Duplicate { title }) ==> title@ == req@)
}

/// `ReminderRepository` represents a store of reminder data.
pub trait ReminderRepository: TaskStoreView {
    /// Create a new task, assigning it a fresh identifier. Fails with
    /// [`CreateTaskError::Duplicate`] exactly when the title is already
    /// stored, and with [`CreateTaskError::Unknown`] on any other storage
    /// failure; a failure changes nothing.
    fn create_task(&mut self, req: &CreateTaskRequest) -> (r: Result<Task, CreateTaskError>)
        requires
            old(self).inv(),
            req.wf(),
        ensures
            create_task_post(*old(self), *final(self), *req, r),
    ;
}

/// `ReminderService` is the public API for the reminders domain. Its contract
/// is the repository's: the service adds policy hooks, never behaviour.
pub trait ReminderService: TaskStoreView {
    /// Create a new task. Errors from the underlying store propagate
    /// unchanged.
    fn create_task(&mut self, req: &CreateTaskRequest) -> (r: Result<Task, CreateTaskError>)
        requires
            old(self).inv(),
            req.wf(),
        ensures
            create_task_post(*old(self), *final(self), *req, r),
    ;
}

/// Canonical implementation of the [`ReminderService`] port, through which the
/// reminders domain is consumed.
#[derive(Debug)]
pub struct Service<R: ReminderRepository> {
    pub repo: R,
}

impl<R: ReminderRepository> Service<R> {
    /// A service over the given repository.
    pub fn new(repo: R) -> (s: Self)
        ensures
            s.repo == repo,
    {
        Service { repo }
    }
}

impl<R: ReminderRepository> TaskStoreView for Service<R> {
    open spec fn inv(&self) -> bool {
        self.repo.inv()
    }

    open spec fn task_count(&self) -> nat {
        self.repo.task_count()
    }

    open spec fn has_title(&self, title: Seq<char>) -> bool {
        self.repo.has_title(title)
    }

    open spec fn has_id(&self, id: u128) -> bool {
        self.repo.has_id(id)
    }
}

impl<R: ReminderRepository> ReminderService for Service<R> {
    /// Delegates to the repository unmodified; the designated extension point
    /// for metrics and notification, which are deliberately absent here.
    fn create_task(&mut self, req: &CreateTaskRequest) -> (r: Result<Task, CreateTaskError>) {
        self.repo.create_task(req)
    }
}

/// Law: creating a task with a previously unused title either succeeds — with
/// the given title, a fresh identifier and `completed` false — or reports an
/// unclassified storage failure; it is never a duplicate.
pub proof fn lemma_fresh_title_creates<R: TaskStoreView>(
    pre: R,
    post: R,
    req: CreateTaskRequest,
    r: Result<Task, CreateTaskError>,
)
    requires
        create_task_post(pre, post, req, r),
        !pre.has_title(req@),
        !(r matches Err(CreateTaskError::Unknown(_))),
    ensures
        r is Ok,
        r matches Ok(t) ==> t.title@ == req@ && !t.completed && !pre.has_id(t.id),
        post.task_count() == pre.task_count() + 1,
{
    match r {
        Ok(_) => {
        },
        Err(e) => {
            match e {
                CreateTaskError::Duplicate { .. } => {
                },
                CreateTaskError::Unknown(_) => {
                },
            }
        },
    }
}

/// Law: two creations with the same normalized title, starting from a store
/// without it, yield exactly one success and one duplicate error when neither
/// call hits an unclassified storage failure; no second row is ever added.
pub proof fn lemma_one_success_per_title<R: TaskStoreView>(
    s0: R,
    s1: R,
    s2: R,
    req1: CreateTaskRequest,
    req2: CreateTaskRequest,
    r1: Result<Task, CreateTaskError>,
    r2: Result<Task, CreateTaskError>,
)
    requires
        req1@ == req2@,
        create_task_post(s0, s1, req1, r1),
        create_task_post(s1, s2, req2, r2),
        !s0.has_title(req1@),
        !(r1 matches Err(CreateTaskError::Unknown(_))),
        !(r2 matches Err(CreateTaskError::Unknown(_))),
    ensures
        r1 is Ok,
        r2 matches Err(CreateTaskError::Duplicate { title }) && title@ == req1@,
        s2 == s1,
        s2.task_count() == s0.task_count() + 1,
{
    lemma_fresh_title_creates(s0, s1, req1, r1);
    assert(s1.has_title(req2@));
}

/// Law: a failed creation — duplicate or unclassified — leaves the store, and
/// with it the task count, unchanged.
pub proof fn lemma_failed_create_is_atomic<R: TaskStoreView>(
    pre: R,
    post: R,
    req: CreateTaskRequest,
    r: Result<Task, CreateTaskError>,
)
    requires
        create_task_post(pre, post, req, r),
        r is Err,
    ensures
        post == pre,
        post.task_count() == pre.task_count(),
{
}

} // verus!
