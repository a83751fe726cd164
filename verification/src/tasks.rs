//! The supervisor of the two background tasks: the HTTP server and the push
//! loop. It owns the handle of each task that runs, at most one for each
//! kind, and cancels a handle before it lets go of it.

use tokio::task::JoinError;
use tokio::task::JoinHandle;
use vstd::prelude::*;

verus! {

/// `tokio::task::JoinHandle`, the handle of a spawned task. Nothing is known
/// of what it holds.
#[verifier::external_type_specification]
#[verifier::external_body]
#[verifier::reject_recursive_types(T)]
pub struct ExJoinHandle<T>(JoinHandle<T>);

/// `tokio::task::JoinError`, which a handle yields for a task that did not
/// run to its end. The handle is a future of it, and Verus reads that when
/// it takes the handle's type, so the type is declared. Nothing is known of
/// what it holds.
#[verifier::external_type_specification]
#[verifier::external_body]
pub struct ExJoinError(JoinError);

/// The handle of a background task.
#[derive(Debug)]
pub struct TaskHandle {
    handle: JoinHandle<()>,
}

impl View for TaskHandle {
    type V = JoinHandle<()>;

    closed spec fn view(&self) -> JoinHandle<()> {
        self.handle
    }
}

/// The handle as it is once `tokio` was asked to cancel its task: the same
/// task, with the request made.
pub uninterp spec fn cancelled(handle: TaskHandle) -> TaskHandle;

/// Calls `tokio::task::JoinHandle::abort`, which asks the runtime to cancel
/// the task at its next suspension point. The contract gives the handle after
/// the call a name and claims no more.
#[verifier::external_body]
pub(crate) fn abort_task(handle: &mut TaskHandle)
    ensures
        *final(handle) == cancelled(*old(handle)),
{
    handle.handle.abort()
}

/// What becomes of a handle that may be held, when its task is cancelled.
pub open spec fn cancelled_if_held(held: Option<TaskHandle>) -> Option<TaskHandle> {
    match held {
        Some(handle) => Some(cancelled(handle)),
        None => None,
    }
}

impl TaskHandle {
    /// The handle of a task that was spawned.
    pub fn new(handle: JoinHandle<()>) -> (task: Self)
        ensures
            task@ == handle,
    {
        TaskHandle { handle }
    }

    /// Gives the handle of the runtime back, for a caller who waits for the
    /// end of the task.
    pub fn into_inner(self) -> (handle: JoinHandle<()>)
        ensures
            handle == self@,
    {
        self.handle
    }

    /// Asks the runtime to cancel the task.
    pub fn cancel(&mut self)
        ensures
            *final(self) == cancelled(*old(self)),
    {
        abort_task(self);
    }
}

/// The kinds of background task.
#[derive(Clone, Copy, Debug, PartialEq, Eq, Structural)]
pub enum TaskKind {
    HttpServer,
    PushLoop,
}

/// What the supervisor holds: for each kind the handle of the task that
/// runs, or nothing where the kind is stopped.
pub struct Tasks {
    pub server: Option<TaskHandle>,
    pub push: Option<TaskHandle>,
}

impl Tasks {
    /// The handle held for a kind.
    pub open spec fn get(self, kind: TaskKind) -> Option<TaskHandle> {
        match kind {
            TaskKind::HttpServer => self.server,
            TaskKind::PushLoop => self.push,
        }
    }

    /// A task of the kind runs.
    pub open spec fn is_running(self, kind: TaskKind) -> bool {
        self.get(kind) is Some
    }

    /// The tasks after a start: the kind holds the new handle.
    pub open spec fn started(self, kind: TaskKind, handle: TaskHandle) -> Tasks {
        match kind {
            TaskKind::HttpServer => Tasks { server: Some(handle), push: self.push },
            TaskKind::PushLoop => Tasks { server: self.server, push: Some(handle) },
        }
    }

    /// The tasks after a stop: the kind holds nothing.
    pub open spec fn stopped(self, kind: TaskKind) -> Tasks {
        match kind {
            TaskKind::HttpServer => Tasks { server: None, push: self.push },
            TaskKind::PushLoop => Tasks { server: self.server, push: None },
        }
    }
}

/// The owner of the running tasks' handles.
pub struct TaskSupervisor {
    server: Option<TaskHandle>,
    push: Option<TaskHandle>,
}

impl View for TaskSupervisor {
    type V = Tasks;

    closed spec fn view(&self) -> Tasks {
        Tasks { server: self.server, push: self.push }
    }
}

impl TaskSupervisor {
    /// A supervisor with both kinds stopped.
    pub fn new() -> (supervisor: Self)
        ensures
            !supervisor@.is_running(TaskKind::HttpServer),
            !supervisor@.is_running(TaskKind::PushLoop),
    {
        TaskSupervisor { server: None, push: None }
    }

    /// Whether a task of the kind runs.
    pub fn is_running(&self, kind: TaskKind) -> (running: bool)
        ensures
            running == self@.is_running(kind),
    {
        match kind {
            TaskKind::HttpServer => self.server.is_some(),
            TaskKind::PushLoop => self.push.is_some(),
        }
    }

    /// Installs the handle of a task that was just spawned. A task of the
    /// same kind that still runs is cancelled first; its handle is returned,
    /// with the cancellation asked for. The other kind is left alone.
    pub fn start(&mut self, kind: TaskKind, handle: TaskHandle) -> (stopped: Option<TaskHandle>)
        ensures
            stopped == cancelled_if_held(old(self)@.get(kind)),
            final(self)@ == old(self)@.started(kind, handle),
    {
        let stopped = self.stop(kind);
        match kind {
            TaskKind::HttpServer => {
                self.server = Some(handle);
            },
            TaskKind::PushLoop => {
                self.push = Some(handle);
            },
        }
        stopped
    }

    /// Cancels the task of the kind, where one runs, and returns its handle,
    /// with the cancellation asked for. Where none runs, nothing happens.
    /// The other kind is left alone.
    pub fn stop(&mut self, kind: TaskKind) -> (stopped: Option<TaskHandle>)
        ensures
            stopped == cancelled_if_held(old(self)@.get(kind)),
            final(self)@ == old(self)@.stopped(kind),
    {
        let held = match kind {
            TaskKind::HttpServer => self.server.take(),
            TaskKind::PushLoop => self.push.take(),
        };
        match held {
            Some(mut handle) => {
                handle.cancel();
                Some(handle)
            },
            None => None,
        }
    }
}

/// Two starts in a row leave one handle, that of the second start, and what
/// the second start cancels and hands back is the handle of the first.
pub proof fn law_second_start_replaces_first(
    tasks: Tasks,
    kind: TaskKind,
    first: TaskHandle,
    second: TaskHandle,
)
    ensures
        cancelled_if_held(tasks.started(kind, first).get(kind)) == Some(cancelled(first)),
        tasks.started(kind, first).started(kind, second).get(kind) == Some(second),
        tasks.started(kind, first).started(kind, second) == tasks.started(kind, second),
{
}

/// A stop leaves the kind stopped, and a second stop finds nothing to cancel
/// and changes nothing.
pub proof fn law_stop_is_idempotent(tasks: Tasks, kind: TaskKind)
    ensures
        !tasks.stopped(kind).is_running(kind),
        cancelled_if_held(tasks.stopped(kind).get(kind)) is None,
        tasks.stopped(kind).stopped(kind) == tasks.stopped(kind),
{
}

/// Starting or stopping one kind leaves the other kind as it was.
pub proof fn law_kinds_are_independent(
    tasks: Tasks,
    kind: TaskKind,
    other: TaskKind,
    handle: TaskHandle,
)
    requires
        kind != other,
    ensures
        tasks.started(kind, handle).get(other) == tasks.get(other),
        tasks.stopped(kind).get(other) == tasks.get(other),
{
}

} // verus!
