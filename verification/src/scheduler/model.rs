//! What a scheduler is, what its invariant says, and what each operation
//! makes of it: the mathematical model that the contracts of the scheduler
//! are written in.

use vstd::prelude::*;
use crate::scheduler::{Access, ConfigError, Frame, HeldLock, LockError, SpawnError};
use crate::task::{Activation, Payload, RearmPolicy, ResourceId, TaskId, TaskSpec, TaskState};
use crate::timer::{due_prefix, later, sorted_by_due, TimerEntry, TimerQueueView};

verus! {

/// What a scheduler is.
pub struct SchedulerView {
    /// The task table.
    pub tasks: Seq<TaskSpec>,
    /// The resource-ownership table.
    pub accesses: Seq<Access>,
    /// The ceiling priority of each resource.
    pub ceilings: Seq<u8>,
    /// Pending activations, in the order they became pending.
    pub ready: Seq<Activation>,
    /// The run stack: the last frame executes, the others were preempted.
    pub running: Seq<Frame>,
    /// The resources that are held, in the order they were taken.
    pub held: Seq<HeldLock>,
    /// The running level: only a pending task above it is dispatched.
    pub level: u8,
    /// Delayed activations.
    pub timers: TimerQueueView,
}

/// The priority that the task table gives to `task`.
pub open spec fn priority_of(tasks: Seq<TaskSpec>, task: TaskId) -> u8 {
    tasks[task.0 as int].priority
}

/// `task` is registered as a user of `resource`.
pub open spec fn may_access(accesses: Seq<Access>, task: TaskId, resource: ResourceId) -> bool {
    accesses.contains(Access { task, resource })
}

/// `c` is the ceiling of resource `r`: the highest priority among the tasks
/// registered for it, and 0 where none is.
pub open spec fn is_ceiling(tasks: Seq<TaskSpec>, accesses: Seq<Access>, r: int, c: u8) -> bool {
    &&& forall|i: int|
        #![trigger accesses[i]]
        0 <= i < accesses.len() && accesses[i].resource.0 == r ==> priority_of(
            tasks,
            accesses[i].task,
        ) <= c
    &&& (c == 0 || exists|i: int|
        #![trigger accesses[i]]
        0 <= i < accesses.len() && accesses[i].resource.0 == r && priority_of(
            tasks,
            accesses[i].task,
        ) == c)
}

/// The first fault of a configuration, if it has one: an idle priority
/// anywhere comes before an unknown task in any access row, and that before
/// an unknown resource.
pub open spec fn config_fault(
    tasks: Seq<TaskSpec>,
    accesses: Seq<Access>,
    resource_count: int,
) -> Option<ConfigError> {
    if exists|t: int| 0 <= t < tasks.len() && (#[trigger] tasks[t]).priority == 0 {
        Some(ConfigError::IdlePriority)
    } else if exists|i: int|
        0 <= i < accesses.len() && (#[trigger] accesses[i]).task.0 >= tasks.len() {
        Some(ConfigError::UnknownTask)
    } else if exists|i: int|
        0 <= i < accesses.len() && (#[trigger] accesses[i]).resource.0 >= resource_count {
        Some(ConfigError::UnknownResource)
    } else {
        None
    }
}

/// The tables are consistent.
pub open spec fn config_wf(v: SchedulerView) -> bool {
    &&& forall|t: int| 0 <= t < v.tasks.len() ==> (#[trigger] v.tasks[t]).priority >= 1
    &&& forall|i: int|
        #![trigger v.accesses[i]]
        0 <= i < v.accesses.len() ==> v.accesses[i].task.0 < v.tasks.len()
            && v.accesses[i].resource.0 < v.ceilings.len()
    &&& forall|r: int|
        0 <= r < v.ceilings.len() ==> is_ceiling(v.tasks, v.accesses, r, #[trigger] v.ceilings[r])
}

/// Every waiting activation names a task of the table, and the timers are in
/// order.
pub open spec fn queues_wf(v: SchedulerView) -> bool {
    &&& forall|i: int| 0 <= i < v.ready.len() ==> (#[trigger] v.ready[i]).task.0 < v.tasks.len()
    &&& sorted_by_due(v.timers.entries)
    &&& forall|i: int|
        0 <= i < v.timers.entries.len() ==> (#[trigger] v.timers.entries[i]).task.0
            < v.tasks.len()
}

/// The run stack: each frame took over from a strictly lower level, so the
/// stack is no deeper than there are levels, and the running level is at
/// least the priority of the task that executes.
pub open spec fn stack_wf(v: SchedulerView) -> bool {
    &&& v.running.len() == 0 ==> v.level == 0 && v.held.len() == 0
    &&& v.running.len() > 0 ==> v.level >= v.running.last().priority && v.running[0].resume_level
        == 0
    &&& forall|d: int|
        #![trigger v.running[d]]
        0 <= d < v.running.len() ==> {
            &&& v.running[d].task.0 < v.tasks.len()
            &&& v.running[d].priority == priority_of(v.tasks, v.running[d].task)
            &&& v.running[d].priority > v.running[d].resume_level
            &&& v.running[d].priority > d
        }
    &&& forall|c: int, d: int|
        #![trigger v.running[c], v.running[d]]
        0 <= c < d < v.running.len() ==> v.running[d].resume_level >= v.running[c].priority
}

/// The held resources: each is held once, by a task on the run stack, and
/// its ceiling is covered by the running level and by the level from which
/// every task above its holder took over.
pub open spec fn locks_wf(v: SchedulerView) -> bool {
    &&& forall|k: int|
        #![trigger v.held[k]]
        0 <= k < v.held.len() ==> {
            &&& v.held[k].resource.0 < v.ceilings.len()
            &&& v.held[k].owner_depth < v.running.len()
            &&& v.level >= v.ceilings[v.held[k].resource.0 as int]
            &&& v.held[k].saved_level >= v.running[v.held[k].owner_depth as int].priority
        }
    &&& forall|j: int, k: int|
        #![trigger v.held[j], v.held[k]]
        0 <= j < k < v.held.len() ==> {
            &&& v.held[j].resource != v.held[k].resource
            &&& v.held[j].owner_depth <= v.held[k].owner_depth
            &&& v.held[k].saved_level >= v.ceilings[v.held[j].resource.0 as int]
        }
    &&& forall|k: int, d: int|
        #![trigger v.held[k], v.running[d]]
        0 <= k < v.held.len() && v.held[k].owner_depth < d < v.running.len()
            ==> v.running[d].resume_level >= v.ceilings[v.held[k].resource.0 as int]
}

/// The scheduler's invariant.
pub open spec fn wf_view(v: SchedulerView) -> bool {
    &&& config_wf(v)
    &&& queues_wf(v)
    &&& stack_wf(v)
    &&& locks_wf(v)
}

/// Where `task` stands: running while it has a frame on the run stack,
/// pending while it only waits in the pending queue, idle otherwise.
pub open spec fn state_of(v: SchedulerView, task: TaskId) -> TaskState {
    if exists|d: int| 0 <= d < v.running.len() && (#[trigger] v.running[d]).task == task {
        TaskState::Running
    } else if exists|i: int| 0 <= i < v.ready.len() && (#[trigger] v.ready[i]).task == task {
        TaskState::Pending
    } else {
        TaskState::Idle
    }
}

/// What `spawn_after` answers.
pub open spec fn spawn_after_result(v: SchedulerView, task: TaskId, delay_ms: u64) -> Result<
    (),
    SpawnError,
> {
    if task.0 >= v.tasks.len() {
        Err(SpawnError::UnknownTask)
    } else if v.timers.now + delay_ms > u64::MAX {
        Err(SpawnError::ClockOverflow)
    } else {
        Ok(())
    }
}

/// The state after `task` was scheduled `delay_ms` from the current clock:
/// its entry stands behind every entry that is due no later.
pub open spec fn spawned_after(
    v: SchedulerView,
    task: TaskId,
    delay_ms: u64,
    payload: Payload,
) -> SchedulerView {
    let due = (v.timers.now + delay_ms) as u64;
    SchedulerView {
        timers: TimerQueueView {
            now: v.timers.now,
            entries: v.timers.entries.insert(
                due_prefix(v.timers.entries, due),
                TimerEntry { due, task, payload },
            ),
        },
        ..v
    }
}

/// What `rearm` answers: whether the task is periodic and so was scheduled
/// again, or why it could not be.
pub open spec fn rearm_result(v: SchedulerView, task: TaskId) -> Result<bool, SpawnError> {
    if task.0 >= v.tasks.len() {
        Err(SpawnError::UnknownTask)
    } else {
        match v.tasks[task.0 as int].rearm {
            RearmPolicy::OneShot => Ok(false),
            RearmPolicy::Periodic(period) => match spawn_after_result(v, task, period) {
                Ok(_) => Ok(true),
                Err(e) => Err(e),
            },
        }
    }
}

/// The state after `rearm`: a periodic task stands in the timer queue one
/// period from the current clock, without an argument; in every other case
/// nothing has changed.
pub open spec fn rearmed(v: SchedulerView, task: TaskId) -> SchedulerView {
    if rearm_result(v, task) == Ok::<bool, SpawnError>(true) {
        match v.tasks[task.0 as int].rearm {
            RearmPolicy::Periodic(period) => spawned_after(v, task, period, Payload::Empty),
            RearmPolicy::OneShot => v,
        }
    } else {
        v
    }
}

/// The activation that a fired timer entry stands for.
pub open spec fn activation_of(e: TimerEntry) -> Activation {
    Activation { task: e.task, payload: e.payload }
}

/// The state after the clock was advanced to `now_ms`: the entries that are
/// due have left the timer queue and stand at the end of the pending queue.
pub open spec fn ticked(v: SchedulerView, now_ms: u64) -> SchedulerView {
    let t = later(v.timers.now, now_ms);
    let k = due_prefix(v.timers.entries, t);
    SchedulerView {
        ready: v.ready + v.timers.entries.take(k).map_values(|e: TimerEntry| activation_of(e)),
        timers: TimerQueueView { now: t, entries: v.timers.entries.skip(k) },
        ..v
    }
}

/// Entry `i` of the pending queue is the one to run next: none has a higher
/// priority, and none before it has the same.
pub open spec fn is_next(tasks: Seq<TaskSpec>, ready: Seq<Activation>, i: int) -> bool {
    &&& 0 <= i < ready.len()
    &&& forall|j: int|
        0 <= j < ready.len() ==> priority_of(tasks, (#[trigger] ready[j]).task) <= priority_of(
            tasks,
            ready[i].task,
        )
    &&& forall|j: int|
        0 <= j < i ==> priority_of(tasks, (#[trigger] ready[j]).task) < priority_of(
            tasks,
            ready[i].task,
        )
}

/// The position of the pending activation to run next.
pub open spec fn next_index(tasks: Seq<TaskSpec>, ready: Seq<Activation>) -> int {
    choose|i: int| is_next(tasks, ready, i)
}

/// The state after the pending activation at position `i` was handed
/// control: it has left the pending queue, its frame tops the run stack,
/// and the running level is its priority.
pub open spec fn dispatched(v: SchedulerView, i: int) -> SchedulerView {
    SchedulerView {
        ready: v.ready.remove(i),
        running: v.running.push(
            Frame {
                task: v.ready[i].task,
                payload: v.ready[i].payload,
                priority: priority_of(v.tasks, v.ready[i].task),
                resume_level: v.level,
            },
        ),
        level: priority_of(v.tasks, v.ready[i].task),
        ..v
    }
}

/// The running task holds no resource.
pub open spec fn top_holds_nothing(v: SchedulerView) -> bool {
    forall|k: int| 0 <= k < v.held.len() ==> (#[trigger] v.held[k]).owner_depth != v.running.len() - 1
}

/// The state after the running task has returned: its frame is gone, and
/// the running level is the one it took over from.
pub open spec fn completed(v: SchedulerView) -> SchedulerView {
    SchedulerView { running: v.running.drop_last(), level: v.running.last().resume_level, ..v }
}

/// `resource` is held by some task.
pub open spec fn is_held(v: SchedulerView, resource: ResourceId) -> bool {
    exists|k: int| 0 <= k < v.held.len() && (#[trigger] v.held[k]).resource == resource
}

/// Why the running task cannot take `resource`, if it cannot.
pub open spec fn lock_fault(v: SchedulerView, resource: ResourceId) -> Option<LockError> {
    if resource.0 >= v.ceilings.len() {
        Some(LockError::UnknownResource)
    } else if v.running.len() == 0 {
        Some(LockError::NoRunningTask)
    } else if !may_access(v.accesses, v.running.last().task, resource) {
        Some(LockError::NotPermitted)
    } else if is_held(v, resource) {
        Some(LockError::AlreadyHeld)
    } else {
        None
    }
}

/// The higher of two levels.
pub open spec fn higher(a: u8, b: u8) -> u8 {
    if a >= b {
        a
    } else {
        b
    }
}

/// The state after the running task has taken `resource`: the resource is
/// held, and the running level is raised to its ceiling.
pub open spec fn locked(v: SchedulerView, resource: ResourceId) -> SchedulerView {
    SchedulerView {
        held: v.held.push(
            HeldLock {
                resource,
                owner_depth: (v.running.len() - 1) as usize,
                saved_level: v.level,
            },
        ),
        level: higher(v.level, v.ceilings[resource.0 as int]),
        ..v
    }
}

/// `resource` is the one the running task took last.
pub open spec fn is_innermost(v: SchedulerView, resource: ResourceId) -> bool {
    &&& v.held.len() > 0
    &&& v.running.len() > 0
    &&& v.held.last().resource == resource
    &&& v.held.last().owner_depth == v.running.len() - 1
}

/// The state after the lock taken last has been given back.
pub open spec fn unlocked(v: SchedulerView) -> SchedulerView {
    SchedulerView { held: v.held.drop_last(), level: v.held.last().saved_level, ..v }
}

} // verus!
