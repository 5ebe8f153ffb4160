//! The task-submission protocol's client side: a handle to a unit of work
//! the host runs, and the request each handle operation hands back for the
//! host to perform. Waiting blocks the caller until the host signals
//! completion; cancellation is polled cooperatively by the submitted work,
//! never interrupted.

use vstd::prelude::*;

verus! {

/// What the caller asks the host to do with a submitted task.
#[derive(Debug, Clone, Copy, PartialEq, Eq, Structural)]
pub enum TaskAction {
    /// Block until the task completes.
    Wait(usize),
    /// Raise the task's cancellation flag and return.
    Cancel(usize),
    /// Raise the flag and block until the task lets go.
    CancelAndWait(usize),
}

/// A handle to a task submitted to the host's worker threads. The host
/// names tasks by nonzero words; a zero from the host leaves the handle
/// empty. Each operation consumes the handle — the host invalidates the
/// name once waited on or cancelled — and yields the request the host is
/// to perform.
#[derive(Debug, PartialEq, Eq, Hash)]
pub struct TaskHandle {
    id: Option<usize>,
}

impl TaskHandle {
    /// The task's name, if the handle holds one.
    pub closed spec fn raw_id(&self) -> Option<usize> {
        self.id
    }

    /// A handle over the name the host answered; zero means the host gave
    /// none.
    pub fn new(raw: usize) -> (r: TaskHandle)
        ensures
            r.raw_id() == (if raw != 0 {
                Some(raw)
            } else {
                None::<usize>
            }),
    {
        TaskHandle { id: if raw != 0 { Some(raw) } else { None } }
    }

    /// The task's name, if the handle holds one.
    pub fn raw(&self) -> (r: Option<usize>)
        ensures
            r == self.raw_id(),
    {
        self.id
    }

    /// Gives the handle up, asking the host to block until the task
    /// completes.
    pub fn wait(self) -> (a: TaskAction)
        requires
            self.raw_id() is Some,
        ensures
            a == TaskAction::Wait(self.raw_id().unwrap()),
    {
        TaskAction::Wait(self.id.unwrap())
    }

    /// Gives the handle up, asking the host to raise the task's
    /// cancellation flag.
    pub fn cancel(self) -> (a: TaskAction)
        requires
            self.raw_id() is Some,
        ensures
            a == TaskAction::Cancel(self.raw_id().unwrap()),
    {
        TaskAction::Cancel(self.id.unwrap())
    }

    /// Gives the handle up, asking the host to raise the flag and block
    /// until the task lets go.
    pub fn cancel_and_wait(self) -> (a: TaskAction)
        requires
            self.raw_id() is Some,
        ensures
            a == TaskAction::CancelAndWait(self.raw_id().unwrap()),
    {
        TaskAction::CancelAndWait(self.id.unwrap())
    }
}

} // verus!
