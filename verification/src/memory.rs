//! The in-memory implementation of the repository port: the second
//! implementation the ports are designed for, used by tests and usable
//! without a database.
use crate::reminders::{create_task_post, ReminderRepository, TaskStoreView};
use crate::task::{CreateTaskError, CreateTaskRequest, Task, TaskTitle};
use vstd::prelude::*;

verus! {

/// Relies on `uuid::Uuid::new_v4` (read through `as_u128`): a freshly drawn
/// random 128-bit identifier. Nothing is promised of the value.
#[verifier::external_body]
fn draw_task_id() -> u128 {
    uuid::Uuid::new_v4().as_u128()
}

/// A store of tasks held in memory, with the same uniqueness guarantees a
/// relational store enforces through its constraints.
#[derive(Debug)]
pub struct InMemory {
    tasks: Vec<Task>,
}

impl View for InMemory {
    type V = Seq<Task>;

    closed spec fn view(&self) -> Seq<Task> {
        self.tasks@
    }
}

impl TaskStoreView for InMemory {
    /// Every stored task is well formed, and no title or identifier occurs
    /// twice.
    open spec fn inv(&self) -> bool {
        &&& (forall|i: int| 0 <= i < self@.len() ==> (#[trigger] self@[i]).wf())
        &&& (forall|i: int, j: int|
            0 <= i < j < self@.len() ==> (#[trigger] self@[i]).title@ != (#[trigger] self@[j]).title@)
        &&& (forall|i: int, j: int|
            0 <= i < j < self@.len() ==> (#[trigger] self@[i]).id != (#[trigger] self@[j]).id)
    }

    open spec fn task_count(&self) -> nat {
        self@.len()
    }

    open spec fn has_title(&self, title: Seq<char>) -> bool {
        exists|i: int| 0 <= i < self@.len() && (#[trigger] self@[i]).title@ == title
    }

    open spec fn has_id(&self, id: u128) -> bool {
        exists|i: int| 0 <= i < self@.len() && (#[trigger] self@[i]).id == id
    }
}

impl InMemory {
    /// An empty store.
    pub fn new() -> (s: InMemory)
        ensures
            s@ =~= Seq::<Task>::empty(),
            s.inv(),
            s.task_count() == 0,
    {
        InMemory { tasks: Vec::new() }
    }

    /// The number of stored tasks.
    pub fn len(&self) -> (n: usize)
        ensures
            n == self.task_count(),
    {
        self.tasks.len()
    }

    fn find_title(&self, title: &TaskTitle) -> (r: bool)
        ensures
            r == self.has_title(title@),
    {
        let mut i: usize = 0;
        while i < self.tasks.len()
            invariant
                i <= self@.len(),
                forall|k: int| 0 <= k < i ==> (#[trigger] self@[k]).title@ != title@,
            decreases self@.len() - i,
        {
            if self.tasks[i].title == *title {
                return true;
            }
            i = i + 1;
        }
        false
    }

    fn find_id(&self, id: u128) -> (r: bool)
        ensures
            r == self.has_id(id),
    {
        let mut i: usize = 0;
        while i < self.tasks.len()
            invariant
                i <= self@.len(),
                forall|k: int| 0 <= k < i ==> (#[trigger] self@[k]).id != id,
            decreases self@.len() - i,
        {
            if self.tasks[i].id == id {
                return true;
            }
            i = i + 1;
        }
        false
    }

    /// One attempted insert under the given identifier. It succeeds exactly
    /// when both the title and the identifier are still unused; a taken title
    /// is the duplicate error, a taken identifier an unclassified storage
    /// failure. Either failure changes nothing.
    pub fn insert_task(&mut self, id: u128, req: &CreateTaskRequest) -> (r: Result<
        Task,
        CreateTaskError,
    >)
        requires
            old(self).inv(),
            req.wf(),
        ensures
            create_task_post(*old(self), *final(self), *req, r),
            r is Ok <==> (!old(self).has_title(req@) && !old(self).has_id(id)),
            r matches Ok(t) ==> t.id == id && final(self)@ =~= old(self)@.push(t),
            (r matches Err(CreateTaskError::Unknown(_))) <==> (!old(self).has_title(req@)
                && old(self).has_id(id)),
    {
        if self.find_title(req.title()) {
            return Err(CreateTaskError::Duplicate { title: req.title().clone() });
        }
        if self.find_id(id) {
            return Err(CreateTaskError::Unknown("task id is already taken".to_owned()));
        }
        let task = Task::new(id, req.title().clone());
        let result = task.clone();
        self.tasks.push(task);
        proof {
            assert(self@ =~= old(self)@.push(task));
            assert forall|s: Seq<char>|
                self.has_title(s) <==> (old(self).has_title(s) || s == req@) by {
                if old(self).has_title(s) {
                    let w = choose|i: int|
                        0 <= i < old(self)@.len() && (#[trigger] old(self)@[i]).title@ == s;
                    assert(self@[w].title@ == s);
                }
                if s == req@ {
                    assert(self@[self@.len() - 1].title@ == s);
                }
                if self.has_title(s) {
                    let w = choose|i: int| 0 <= i < self@.len() && (#[trigger] self@[i]).title@ == s;
                    if w < old(self)@.len() {
                        assert(old(self)@[w].title@ == s);
                    }
                }
            }
            assert forall|i: u128| self.has_id(i) <==> (old(self).has_id(i) || i == id) by {
                if old(self).has_id(i) {
                    let w = choose|k: int|
                        0 <= k < old(self)@.len() && (#[trigger] old(self)@[k]).id == i;
                    assert(self@[w].id == i);
                }
                if i == id {
                    assert(self@[self@.len() - 1].id == i);
                }
                if self.has_id(i) {
                    let w = choose|k: int| 0 <= k < self@.len() && (#[trigger] self@[k]).id == i;
                    if w < old(self)@.len() {
                        assert(old(self)@[w].id == i);
                    }
                }
            }
        }
        Ok(result)
    }
}

/// Law: no empty-titled task can ever reach storage — in a well-formed store
/// every task's title is non-empty (and carries no surrounding whitespace).
pub proof fn lemma_no_empty_title_stored(s: InMemory)
    requires
        s.inv(),
    ensures
        forall|i: int| 0 <= i < s@.len() ==> (#[trigger] s@[i]).title@.len() > 0,
{
}

impl ReminderRepository for InMemory {
    /// Draws a fresh random identifier and attempts the insert under it.
    fn create_task(&mut self, req: &CreateTaskRequest) -> (r: Result<Task, CreateTaskError>) {
        let id = draw_task_id();
        self.insert_task(id, req)
    }
}

} // verus!
