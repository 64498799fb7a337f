//! The static description of tasks: identity, priority, argument and re-arm
//! policy.

use vstd::prelude::*;

verus! {

/// Identity of a task: its index in the task table.
#[derive(Clone, Copy, Debug, PartialEq, Eq, Structural)]
pub struct TaskId(pub usize);

/// Identity of a shared resource: its index in the resource table.
#[derive(Clone, Copy, Debug, PartialEq, Eq, Structural)]
pub struct ResourceId(pub usize);

/// The argument handed to a task when it runs.
#[derive(Clone, Copy, Debug, PartialEq, Eq, Structural)]
pub enum Payload {
    /// The task takes no argument.
    Empty,
    /// A remaining count, as the blink task takes.
    Count(u8),
}

/// Where a task stands between being asked for and having run.
#[derive(Clone, Copy, Debug, PartialEq, Eq, Structural)]
pub enum TaskState {
    /// Not asked for.
    Idle,
    /// Asked for and waiting for the dispatcher.
    Pending,
    /// Handed control and not yet returned, whether it executes right now or
    /// waits below a task that preempted it.
    Running,
}

/// Whether a task runs once per request or keeps itself going.
#[derive(Clone, Copy, Debug, PartialEq, Eq, Structural)]
pub enum RearmPolicy {
    /// Runs when spawned and then rests.
    OneShot,
    /// Schedules itself again, this many milliseconds after each run.
    Periodic(u64),
}

/// One row of the task table, fixed at registration.
#[derive(Clone, Copy, Debug, PartialEq, Eq, Structural)]
pub struct TaskSpec {
    /// Priority level; a numerically higher level runs first. Level 0 is
    /// kept for the idle state, so a task's level is at least 1.
    pub priority: u8,
    pub rearm: RearmPolicy,
}

/// A request to run a task with an argument.
#[derive(Clone, Copy, Debug, PartialEq, Eq, Structural)]
pub struct Activation {
    pub task: TaskId,
    pub payload: Payload,
}

} // verus!
