//! Bookkeeping of the tasks an executor is running.
use vstd::prelude::*;
use crate::error::GrassError;
use crate::id_map::GrassIdMap;
use crate::ids::{TaskId, uuid_string, uuid_text};
use crate::text::join2;
use crate::types::GrassTaskPayload;

verus! {

/// The message of the error for cancelling a task that is not running.
pub open spec fn not_running_message(id: TaskId) -> Seq<char> {
    "task "@ + uuid_text(id) + " not running"@
}

/// The running tasks of an executor, each with the handle that cancels it.
pub struct GrassTaskExecutor<C> {
    workers: u32,
    running: GrassIdMap<C>,
}

impl<C> GrassTaskExecutor<C> {
    /// The running tasks by id, with their cancel handles.
    pub closed spec fn running(&self) -> Map<TaskId, C> {
        self.running@
    }

    /// The configured number of workers.
    pub closed spec fn worker_count(&self) -> u32 {
        self.workers
    }

    pub closed spec fn wf(&self) -> bool {
        self.running.wf()
    }

    /// An executor with `workers` workers and nothing running.
    pub fn new(workers: u32) -> (r: Self)
        ensures
            r.wf(),
            r.worker_count() == workers,
            r.running() == Map::<TaskId, C>::empty(),
    {
        GrassTaskExecutor { workers, running: GrassIdMap::new() }
    }

    /// The configured number of workers.
    pub fn workers(&self) -> (r: u32)
        ensures
            r == self.worker_count(),
    {
        self.workers
    }

    /// Records `task` as running, cancellable through `cancel`; a task with
    /// the same id that was running is replaced.
    pub fn submit(&mut self, task: &GrassTaskPayload, cancel: C)
        requires
            old(self).wf(),
        ensures
            final(self).wf(),
            final(self).running() == old(self).running().insert(task.task_id, cancel),
            final(self).worker_count() == old(self).worker_count(),
    {
        self.running.insert(task.task_id, cancel);
    }

    /// Stops tracking `task_id` and hands back its cancel handle; a
    /// not-found error when it is not running.
    pub fn cancel(&mut self, task_id: TaskId) -> (r: Result<C, GrassError>)
        requires
            old(self).wf(),
        ensures
            final(self).wf(),
            final(self).running() == old(self).running().remove(task_id),
            final(self).worker_count() == old(self).worker_count(),
            old(self).running().contains_key(task_id) ==> r == Ok::<C, GrassError>(
                old(self).running()[task_id],
            ),
            !old(self).running().contains_key(task_id) ==> (r matches Err(GrassError::NotFound(m))
                && m@ == not_running_message(task_id)),
    {
        match self.running.remove(task_id) {
            Some(c) => Ok(c),
            None => {
                let t = uuid_string(task_id);
                let m = join2(join2("task ", t.as_str()).as_str(), " not running");
                Err(GrassError::NotFound(m))
            },
        }
    }

    /// Records that `task_id` finished.
    pub fn finish(&mut self, task_id: TaskId)
        requires
            old(self).wf(),
        ensures
            final(self).wf(),
            final(self).running() == old(self).running().remove(task_id),
            final(self).worker_count() == old(self).worker_count(),
    {
        let _ = self.running.remove(task_id);
    }

    /// The number of running tasks.
    pub fn running_count(&self) -> (r: usize)
        requires
            self.wf(),
        ensures
            r == self.running().dom().len(),
    {
        self.running.len()
    }
}

} // verus!
