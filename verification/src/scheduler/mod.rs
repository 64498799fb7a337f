//! The dispatcher: a static task table, a queue of pending activations, a
//! stack of running tasks, and priority-ceiling locks on shared resources.
//!
//! Among the pending activations the one with the highest priority runs
//! next, the earliest first among equals. A running task is preempted only
//! by a strictly higher priority. Taking a resource raises the running level
//! to the resource's ceiling, so that no task which may touch the resource
//! can be dispatched while it is held.
//!
//! The contracts speak of the scheduler through its view, `SchedulerView`,
//! which `model` defines together with the invariant and the effect of each
//! operation; `protocol` proves what the invariant gives.

pub mod model;
pub mod protocol;

use vstd::prelude::*;
use crate::scheduler::model::{
    activation_of, completed, config_fault, dispatched, is_ceiling, is_held, is_innermost,
    is_next, lock_fault, locked, may_access, next_index, priority_of, queues_wf, rearm_result,
    rearmed, spawn_after_result, spawned_after, state_of, ticked, top_holds_nothing, unlocked,
    wf_view, SchedulerView,
};
use crate::scheduler::protocol::{
    lemma_completed_wf, lemma_dispatched_wf, lemma_locked_wf, lemma_next_unique,
    lemma_queues_changed_wf, lemma_unlocked_wf,
};
use crate::task::{Activation, Payload, RearmPolicy, ResourceId, TaskId, TaskSpec, TaskState};
use crate::timer::{
    due_prefix, later, lemma_due_prefix_splits, TimerEntry, TimerQueue,
};

verus! {

/// One row of the resource-ownership table: `task` may touch `resource`.
#[derive(Clone, Copy, Debug, PartialEq, Eq, Structural)]
pub struct Access {
    pub task: TaskId,
    pub resource: ResourceId,
}

/// A task that was handed control and has not returned.
#[derive(Clone, Copy, Debug, PartialEq, Eq, Structural)]
pub struct Frame {
    pub task: TaskId,
    pub payload: Payload,
    /// The task's own priority.
    pub priority: u8,
    /// The running level from which the task took over, restored when it
    /// returns.
    pub resume_level: u8,
}

/// A resource that is held.
#[derive(Clone, Copy, Debug, PartialEq, Eq, Structural)]
pub struct HeldLock {
    pub resource: ResourceId,
    /// Position in the run stack of the task that holds it.
    pub owner_depth: usize,
    /// The running level before the resource was taken, restored when it is
    /// given back.
    pub saved_level: u8,
}

/// Why a task table or resource table is refused.
#[derive(Clone, Copy, Debug, PartialEq, Eq, Structural)]
pub enum ConfigError {
    /// A task asks for priority 0, which is the idle level.
    IdlePriority,
    /// An access row names a task that is not in the task table.
    UnknownTask,
    /// An access row names a resource that is not in the resource table.
    UnknownResource,
}

/// Why a spawn is refused.
#[derive(Clone, Copy, Debug, PartialEq, Eq, Structural)]
pub enum SpawnError {
    /// The task is not in the task table.
    UnknownTask,
    /// The due time does not fit the clock.
    ClockOverflow,
}

/// Why a resource cannot be taken or given back. None of these is
/// contention: a task that follows the protocol never meets one.
#[derive(Clone, Copy, Debug, PartialEq, Eq, Structural)]
pub enum LockError {
    /// The resource is not in the resource table.
    UnknownResource,
    /// No task is running.
    NoRunningTask,
    /// The running task is not registered as a user of the resource.
    NotPermitted,
    /// The resource is held already: a nested lock.
    AlreadyHeld,
    /// The resource is not the one the running task took last.
    NotInnermost,
}

/// Why the running task cannot return.
#[derive(Clone, Copy, Debug, PartialEq, Eq, Structural)]
pub enum CompleteError {
    /// No task is running.
    NoRunningTask,
    /// The running task still holds a resource.
    ResourceHeld,
}

/// The priority-driven dispatcher with its timer queue.
pub struct Scheduler {
    tasks: Vec<TaskSpec>,
    accesses: Vec<Access>,
    ceilings: Vec<u8>,
    ready: Vec<Activation>,
    running: Vec<Frame>,
    held: Vec<HeldLock>,
    level: u8,
    timers: TimerQueue,
}

impl View for Scheduler {
    type V = SchedulerView;

    closed spec fn view(&self) -> SchedulerView {
        SchedulerView {
            tasks: self.tasks@,
            accesses: self.accesses@,
            ceilings: self.ceilings@,
            ready: self.ready@,
            running: self.running@,
            held: self.held@,
            level: self.level,
            timers: self.timers@,
        }
    }
}

impl Scheduler {
    /// The scheduler's invariant, which `new` establishes and every
    /// operation keeps.
    pub open spec fn wf(&self) -> bool {
        wf_view(self@)
    }

    /// Builds the scheduler from the task table, the resource-ownership
    /// table and the number of resources, and works out each resource's
    /// ceiling. Nothing is pending, running or held, and the clock is at 0.
    pub fn new(tasks: Vec<TaskSpec>, accesses: Vec<Access>, resource_count: usize) -> (r: Result<
        Scheduler,
        ConfigError,
    >)
        ensures
            match r {
                Ok(s) => {
                    &&& config_fault(tasks@, accesses@, resource_count as int) is None
                    &&& s.wf()
                    &&& s@.tasks == tasks@
                    &&& s@.accesses == accesses@
                    &&& s@.ceilings.len() == resource_count
                    &&& forall|r: int|
                        0 <= r < resource_count ==> is_ceiling(
                            tasks@,
                            accesses@,
                            r,
                            #[trigger] s@.ceilings[r],
                        )
                    &&& s@.ready.len() == 0
                    &&& s@.running.len() == 0
                    &&& s@.held.len() == 0
                    &&& s@.level == 0
                    &&& s@.timers.now == 0
                    &&& s@.timers.entries.len() == 0
                },
                Err(e) => config_fault(tasks@, accesses@, resource_count as int) == Some(e),
            },
    {
        let mut t: usize = 0;
        while t < tasks.len()
            invariant
                t <= tasks@.len(),
                forall|j: int| 0 <= j < t ==> (#[trigger] tasks@[j]).priority >= 1,
            decreases tasks@.len() - t,
        {
            if tasks[t].priority == 0 {
                return Err(ConfigError::IdlePriority);
            }
            t = t + 1;
        }
        let mut i: usize = 0;
        while i < accesses.len()
            invariant
                i <= accesses@.len(),
                forall|j: int| 0 <= j < tasks@.len() ==> (#[trigger] tasks@[j]).priority >= 1,
                forall|j: int| 0 <= j < i ==> (#[trigger] accesses@[j]).task.0 < tasks@.len(),
            decreases accesses@.len() - i,
        {
            if accesses[i].task.0 >= tasks.len() {
                return Err(ConfigError::UnknownTask);
            }
            i = i + 1;
        }
        let mut i: usize = 0;
        while i < accesses.len()
            invariant
                i <= accesses@.len(),
                forall|j: int| 0 <= j < tasks@.len() ==> (#[trigger] tasks@[j]).priority >= 1,
                forall|j: int|
                    0 <= j < accesses@.len() ==> (#[trigger] accesses@[j]).task.0 < tasks@.len(),
                forall|j: int| 0 <= j < i ==> (#[trigger] accesses@[j]).resource.0 < resource_count,
            decreases accesses@.len() - i,
        {
            if accesses[i].resource.0 >= resource_count {
                return Err(ConfigError::UnknownResource);
            }
            i = i + 1;
        }
        let mut ceilings: Vec<u8> = Vec::new();
        let mut r: usize = 0;
        while r < resource_count
            invariant
                r <= resource_count,
                ceilings@.len() == r,
                forall|j: int| 0 <= j < tasks@.len() ==> (#[trigger] tasks@[j]).priority >= 1,
                forall|j: int|
                    0 <= j < accesses@.len() ==> (#[trigger] accesses@[j]).task.0 < tasks@.len(),
                forall|j: int|
                    0 <= j < accesses@.len() ==> (#[trigger] accesses@[j]).resource.0
                        < resource_count,
                forall|q: int|
                    0 <= q < r ==> is_ceiling(tasks@, accesses@, q, #[trigger] ceilings@[q]),
            decreases resource_count - r,
        {
            let c = ceiling_for(&tasks, &accesses, r);
            ceilings.push(c);
            r = r + 1;
        }
        Ok(
            Scheduler {
                tasks,
                accesses,
                ceilings,
                ready: Vec::new(),
                running: Vec::new(),
                held: Vec::new(),
                level: 0,
                timers: TimerQueue::new(),
            },
        )
    }

    /// The running level: 0 while nothing runs, otherwise the priority of
    /// the task that executes, raised to the ceiling of what it holds.
    pub fn level(&self) -> (level: u8)
        ensures
            level == self@.level,
    {
        self.level
    }

    /// The clock as of the latest tick.
    pub fn now(&self) -> (now: u64)
        ensures
            now == self@.timers.now,
    {
        self.timers.now()
    }

    /// Number of tasks in the task table.
    pub fn task_count(&self) -> (n: usize)
        ensures
            n == self@.tasks.len(),
    {
        self.tasks.len()
    }

    /// Number of pending activations.
    pub fn pending_count(&self) -> (n: usize)
        ensures
            n == self@.ready.len(),
    {
        self.ready.len()
    }

    /// Number of delayed activations that wait for their due time.
    pub fn timer_count(&self) -> (n: usize)
        ensures
            n == self@.timers.entries.len(),
    {
        self.timers.len()
    }

    /// The due time of the delayed activation that fires first, if any
    /// waits.
    pub fn next_due(&self) -> (due: Option<u64>)
        requires
            self.wf(),
        ensures
            self@.timers.entries.len() == 0 ==> due is None,
            self@.timers.entries.len() > 0 ==> due == Some(self@.timers.entries[0].due),
    {
        self.timers.next_due()
    }

    /// The task that holds `resource`, if it is held.
    pub fn holder(&self, resource: ResourceId) -> (task: Option<TaskId>)
        requires
            self.wf(),
        ensures
            !is_held(self@, resource) ==> task is None,
            is_held(self@, resource) ==> exists|k: int|
                0 <= k < self@.held.len() && (#[trigger] self@.held[k]).resource == resource
                    && task == Some(self@.running[self@.held[k].owner_depth as int].task),
    {
        let mut k: usize = 0;
        while k < self.held.len()
            invariant
                k <= self@.held.len(),
                self.wf(),
                forall|j: int| 0 <= j < k ==> (#[trigger] self@.held[j]).resource != resource,
            decreases self@.held.len() - k,
        {
            if self.held[k].resource.0 == resource.0 {
                proof {
                    assert(self@.held[k as int].owner_depth < self@.running.len());
                }
                return Some(self.running[self.held[k].owner_depth].task);
            }
            k = k + 1;
        }
        None
    }

    /// Depth of the run stack: the task that executes and those it preempted.
    pub fn running_depth(&self) -> (n: usize)
        ensures
            n == self@.running.len(),
    {
        self.running.len()
    }

    /// The ceiling priority of `resource`, if it is in the resource table.
    pub fn ceiling(&self, resource: ResourceId) -> (c: Option<u8>)
        ensures
            resource.0 < self@.ceilings.len() ==> c == Some(self@.ceilings[resource.0 as int]),
            resource.0 >= self@.ceilings.len() ==> c is None,
    {
        if resource.0 < self.ceilings.len() {
            Some(self.ceilings[resource.0])
        } else {
            None
        }
    }

    /// The task that executes right now, with its argument.
    pub fn current(&self) -> (a: Option<Activation>)
        ensures
            self@.running.len() == 0 ==> a is None,
            self@.running.len() > 0 ==> a == Some(
                Activation {
                    task: self@.running.last().task,
                    payload: self@.running.last().payload,
                },
            ),
    {
        let n = self.running.len();
        if n == 0 {
            None
        } else {
            let f = self.running[n - 1];
            Some(Activation { task: f.task, payload: f.payload })
        }
    }

    /// Where `task` stands.
    pub fn state(&self, task: TaskId) -> (st: TaskState)
        ensures
            st == state_of(self@, task),
    {
        let mut d: usize = 0;
        while d < self.running.len()
            invariant
                d <= self@.running.len(),
                forall|j: int| 0 <= j < d ==> (#[trigger] self@.running[j]).task != task,
            decreases self@.running.len() - d,
        {
            if self.running[d].task.0 == task.0 {
                return TaskState::Running;
            }
            d = d + 1;
        }
        let mut i: usize = 0;
        while i < self.ready.len()
            invariant
                i <= self@.ready.len(),
                forall|j: int|
                    0 <= j < self@.running.len() ==> (#[trigger] self@.running[j]).task != task,
                forall|j: int| 0 <= j < i ==> (#[trigger] self@.ready[j]).task != task,
            decreases self@.ready.len() - i,
        {
            if self.ready[i].task.0 == task.0 {
                return TaskState::Pending;
            }
            i = i + 1;
        }
        TaskState::Idle
    }

    /// Makes `task` pending at once, with `payload` as its argument. A task
    /// that is pending already is queued again and will run once per request.
    pub fn spawn(&mut self, task: TaskId, payload: Payload) -> (r: Result<(), SpawnError>)
        requires
            old(self).wf(),
        ensures
            final(self).wf(),
            task.0 >= old(self)@.tasks.len() ==> r == Err::<(), SpawnError>(
                SpawnError::UnknownTask,
            ) && final(self)@ == old(self)@,
            task.0 < old(self)@.tasks.len() ==> r is Ok && final(self)@ == (SchedulerView {
                ready: old(self)@.ready.push(Activation { task, payload }),
                ..old(self)@
            }),
    {
        if task.0 >= self.tasks.len() {
            return Err(SpawnError::UnknownTask);
        }
        self.ready.push(Activation { task, payload });
        Ok(())
    }

    /// Makes `task` pending `delay_ms` after the current clock. Once
    /// scheduled, the activation always fires: there is no way to cancel it.
    pub fn spawn_after(&mut self, task: TaskId, delay_ms: u64, payload: Payload) -> (r: Result<
        (),
        SpawnError,
    >)
        requires
            old(self).wf(),
        ensures
            final(self).wf(),
            r == spawn_after_result(old(self)@, task, delay_ms),
            r is Err ==> final(self)@ == old(self)@,
            r is Ok ==> final(self)@ == spawned_after(old(self)@, task, delay_ms, payload),
    {
        if task.0 >= self.tasks.len() {
            return Err(SpawnError::UnknownTask);
        }
        if delay_ms > u64::MAX - self.timers.now() {
            return Err(SpawnError::ClockOverflow);
        }
        let ghost before = self.timers@.entries;
        let ghost due = (self.timers@.now + delay_ms) as u64;
        self.timers.schedule(task, delay_ms, payload);
        proof {
            let k = due_prefix(before, due);
            lemma_due_prefix_splits(before, due);
            let e = TimerEntry { due, task, payload };
            let after = before.insert(k, e);
            assert forall|i: int| 0 <= i < after.len() implies (#[trigger] after[i]).task.0
                < self@.tasks.len() by {
                if i < k {
                    assert(after[i] == before[i]);
                } else if i > k {
                    assert(after[i] == before[i - 1]);
                }
            }
            assert(self@.timers.entries == after);
            lemma_queues_changed_wf(old(self)@, self@);
        }
        Ok(())
    }

    /// Schedules the next run of a periodic task, one period from the
    /// current clock, and says whether it did. A one-shot task is left
    /// alone.
    pub fn rearm(&mut self, task: TaskId) -> (r: Result<bool, SpawnError>)
        requires
            old(self).wf(),
        ensures
            final(self).wf(),
            r == rearm_result(old(self)@, task),
            final(self)@ == rearmed(old(self)@, task),
    {
        if task.0 >= self.tasks.len() {
            return Err(SpawnError::UnknownTask);
        }
        match self.tasks[task.0].rearm {
            RearmPolicy::OneShot => Ok(false),
            RearmPolicy::Periodic(period) => {
                match self.spawn_after(task, period, Payload::Empty) {
                    Ok(_) => Ok(true),
                    Err(e) => Err(e),
                }
            },
        }
    }

    /// Advances the clock to `now_ms` and makes every delayed activation
    /// that is due by then pending, in ascending order of due time, equal
    /// due times in the order they were scheduled. Returns how many fired.
    pub fn tick(&mut self, now_ms: u64) -> (fired: usize)
        requires
            old(self).wf(),
        ensures
            final(self).wf(),
            fired == due_prefix(
                old(self)@.timers.entries,
                later(old(self)@.timers.now, now_ms),
            ),
            final(self)@ == ticked(old(self)@, now_ms),
    {
        let ghost before = self@;
        let due_now = self.timers.tick(now_ms);
        let n: usize = due_now.len();
        let ghost k = due_prefix(before.timers.entries, later(before.timers.now, now_ms));
        append_activations(&mut self.ready, &due_now);
        proof {
            lemma_due_prefix_splits(
                before.timers.entries,
                later(before.timers.now, now_ms),
            );
            let added = due_now@.map_values(|e: TimerEntry| activation_of(e));
            assert forall|i: int| 0 <= i < self@.ready.len() implies (#[trigger] self@.ready[i]).task.0
                < self@.tasks.len() by {
                if i < before.ready.len() {
                    assert(self@.ready[i] == before.ready[i]);
                } else {
                    let j = i - before.ready.len();
                    assert(self@.ready[i] == added[j]);
                    assert(due_now@[j] == before.timers.entries[j]);
                }
            }
            assert forall|i: int| 0 <= i < self@.timers.entries.len() implies (
            #[trigger] self@.timers.entries[i]).task.0 < self@.tasks.len() by {
                assert(self@.timers.entries[i] == before.timers.entries[i + k]);
            }
            lemma_queues_changed_wf(before, self@);
        }
        n
    }

    /// Hands control to the pending activation with the highest priority,
    /// the earliest among equals, if that priority is strictly above the
    /// running level. The task that ran until now stays on the run stack
    /// below the new one and goes on when the new one has returned. Nothing
    /// changes where no pending activation is above the running level.
    pub fn dispatch(&mut self) -> (r: Option<Activation>)
        requires
            old(self).wf(),
        ensures
            final(self).wf(),
            match r {
                Some(a) => {
                    let i = next_index(old(self)@.tasks, old(self)@.ready);
                    &&& is_next(old(self)@.tasks, old(self)@.ready, i)
                    &&& a == old(self)@.ready[i]
                    &&& priority_of(old(self)@.tasks, a.task) > old(self)@.level
                    &&& final(self)@ == dispatched(old(self)@, i)
                },
                None => {
                    &&& final(self)@ == old(self)@
                    &&& forall|j: int|
                        0 <= j < old(self)@.ready.len() ==> priority_of(
                            old(self)@.tasks,
                            (#[trigger] old(self)@.ready[j]).task,
                        ) <= old(self)@.level
                },
            },
    {
        let n: usize = self.ready.len();
        if n == 0 {
            return None;
        }
        let mut best: usize = 0;
        let mut best_priority: u8 = self.tasks[self.ready[0].task.0].priority;
        let mut i: usize = 1;
        while i < n
            invariant
                n == self@.ready.len(),
                1 <= i <= n,
                best < i,
                self@ == old(self)@,
                queues_wf(self@),
                best_priority == priority_of(self@.tasks, self@.ready[best as int].task),
                forall|j: int|
                    0 <= j < i ==> priority_of(self@.tasks, (#[trigger] self@.ready[j]).task)
                        <= best_priority,
                forall|j: int|
                    0 <= j < best ==> priority_of(self@.tasks, (#[trigger] self@.ready[j]).task)
                        < best_priority,
            decreases n - i,
        {
            let p = self.tasks[self.ready[i].task.0].priority;
            if p > best_priority {
                best = i;
                best_priority = p;
            }
            i = i + 1;
        }
        proof {
            assert(is_next(self@.tasks, self@.ready, best as int));
            lemma_next_unique(
                self@.tasks,
                self@.ready,
                best as int,
                next_index(self@.tasks, self@.ready),
            );
        }
        if best_priority <= self.level {
            return None;
        }
        let ghost before = self@;
        let a = self.ready.remove(best);
        self.running.push(
            Frame { task: a.task, payload: a.payload, priority: best_priority, resume_level: self.level },
        );
        self.level = best_priority;
        proof {
            lemma_dispatched_wf(before, best as int);
            assert(self@ == dispatched(before, best as int));
        }
        Some(a)
    }

    /// The running task returns. The task it had preempted, if any, goes on
    /// at the level it was interrupted at. A task that was spawned again
    /// while it ran is pending afterwards, and idle otherwise.
    pub fn complete(&mut self) -> (r: Result<Activation, CompleteError>)
        requires
            old(self).wf(),
        ensures
            final(self).wf(),
            old(self)@.running.len() == 0 ==> r == Err::<Activation, CompleteError>(
                CompleteError::NoRunningTask,
            ) && final(self)@ == old(self)@,
            old(self)@.running.len() > 0 && !top_holds_nothing(old(self)@) ==> r == Err::<
                Activation,
                CompleteError,
            >(CompleteError::ResourceHeld) && final(self)@ == old(self)@,
            old(self)@.running.len() > 0 && top_holds_nothing(old(self)@) ==> r == Ok::<
                Activation,
                CompleteError,
            >(
                Activation {
                    task: old(self)@.running.last().task,
                    payload: old(self)@.running.last().payload,
                },
            ) && final(self)@ == completed(old(self)@),
    {
        let n: usize = self.running.len();
        if n == 0 {
            return Err(CompleteError::NoRunningTask);
        }
        let h: usize = self.held.len();
        if h > 0 && self.held[h - 1].owner_depth == n - 1 {
            proof {
                assert(self@.held[h - 1].owner_depth == self@.running.len() - 1);
            }
            return Err(CompleteError::ResourceHeld);
        }
        let ghost before = self@;
        proof {
            assert forall|k: int| 0 <= k < before.held.len() implies (
            #[trigger] before.held[k]).owner_depth != before.running.len() - 1 by {
                if k < h - 1 {
                    assert(before.held[k].owner_depth <= before.held[h - 1].owner_depth);
                }
            }
            lemma_completed_wf(before);
        }
        let f = self.running[n - 1];
        self.running.pop();
        self.level = f.resume_level;
        proof {
            assert(self@.running =~= before.running.drop_last());
            assert(self@ == completed(before));
        }
        Ok(Activation { task: f.task, payload: f.payload })
    }

    /// The running task takes `resource`: the running level rises to the
    /// resource's ceiling, so that until the resource is given back no task
    /// that may touch it can be dispatched. Taking never waits.
    pub fn lock(&mut self, resource: ResourceId) -> (r: Result<(), LockError>)
        requires
            old(self).wf(),
        ensures
            final(self).wf(),
            match lock_fault(old(self)@, resource) {
                Some(e) => r == Err::<(), LockError>(e) && final(self)@ == old(self)@,
                None => r is Ok && final(self)@ == locked(old(self)@, resource),
            },
    {
        if resource.0 >= self.ceilings.len() {
            return Err(LockError::UnknownResource);
        }
        let n: usize = self.running.len();
        if n == 0 {
            return Err(LockError::NoRunningTask);
        }
        let task = self.running[n - 1].task;
        let mut permitted = false;
        let mut i: usize = 0;
        while i < self.accesses.len() && !permitted
            invariant
                i <= self@.accesses.len(),
                self@ == old(self)@,
                permitted ==> may_access(self@.accesses, task, resource),
                !permitted ==> forall|j: int|
                    0 <= j < i ==> (#[trigger] self@.accesses[j]) != (Access { task, resource }),
            decreases self@.accesses.len() - i + (if permitted { 0int } else { 1int }),
        {
            let a = self.accesses[i];
            if a.task.0 == task.0 && a.resource.0 == resource.0 {
                permitted = true;
                proof {
                    assert(self@.accesses[i as int] == Access { task, resource });
                }
            } else {
                i = i + 1;
            }
        }
        if !permitted {
            return Err(LockError::NotPermitted);
        }
        let mut k: usize = 0;
        while k < self.held.len()
            invariant
                k <= self@.held.len(),
                self@ == old(self)@,
                wf_view(self@),
                resource.0 < self@.ceilings.len(),
                self@.running.len() > 0,
                may_access(self@.accesses, self@.running.last().task, resource),
                forall|j: int| 0 <= j < k ==> (#[trigger] self@.held[j]).resource != resource,
            decreases self@.held.len() - k,
        {
            if self.held[k].resource.0 == resource.0 {
                return Err(LockError::AlreadyHeld);
            }
            k = k + 1;
        }
        let ghost before = self@;
        let ceiling = self.ceilings[resource.0];
        self.held.push(HeldLock { resource, owner_depth: n - 1, saved_level: self.level });
        if ceiling > self.level {
            self.level = ceiling;
        }
        proof {
            lemma_locked_wf(before, resource);
            assert(self@ == locked(before, resource));
        }
        Ok(())
    }

    /// The running task gives back `resource`, which must be the one it took
    /// last. The running level returns to what it was before the resource
    /// was taken.
    pub fn unlock(&mut self, resource: ResourceId) -> (r: Result<(), LockError>)
        requires
            old(self).wf(),
        ensures
            final(self).wf(),
            is_innermost(old(self)@, resource) ==> r is Ok && final(self)@ == unlocked(old(self)@),
            !is_innermost(old(self)@, resource) ==> r == Err::<(), LockError>(
                LockError::NotInnermost,
            ) && final(self)@ == old(self)@,
    {
        let h: usize = self.held.len();
        let n: usize = self.running.len();
        if h == 0 || n == 0 {
            return Err(LockError::NotInnermost);
        }
        let last = self.held[h - 1];
        if last.resource.0 != resource.0 || last.owner_depth != n - 1 {
            return Err(LockError::NotInnermost);
        }
        let ghost before = self@;
        proof {
            lemma_unlocked_wf(before);
        }
        self.held.pop();
        self.level = last.saved_level;
        proof {
            assert(self@.held =~= before.held.drop_last());
            assert(self@ == unlocked(before));
        }
        Ok(())
    }
}

/// The highest priority among the tasks registered for resource `r`, and 0
/// where none is.
fn ceiling_for(tasks: &Vec<TaskSpec>, accesses: &Vec<Access>, r: usize) -> (c: u8)
    requires
        forall|i: int|
            0 <= i < accesses@.len() ==> (#[trigger] accesses@[i]).task.0 < tasks@.len(),
    ensures
        is_ceiling(tasks@, accesses@, r as int, c),
{
    let mut c: u8 = 0;
    let mut i: usize = 0;
    while i < accesses.len()
        invariant
            i <= accesses@.len(),
            forall|i: int|
                0 <= i < accesses@.len() ==> (#[trigger] accesses@[i]).task.0 < tasks@.len(),
            forall|j: int|
                #![trigger accesses@[j]]
                0 <= j < i && accesses@[j].resource.0 == r ==> priority_of(
                    tasks@,
                    accesses@[j].task,
                ) <= c,
            c == 0 || exists|j: int|
                #![trigger accesses@[j]]
                0 <= j < i && accesses@[j].resource.0 == r && priority_of(
                    tasks@,
                    accesses@[j].task,
                ) == c,
        decreases accesses@.len() - i,
    {
        let a = accesses[i];
        if a.resource.0 == r {
            let p = tasks[a.task.0].priority;
            if p > c {
                c = p;
            }
        }
        i = i + 1;
    }
    c
}

/// Appends to `ready` the activation of each fired entry, in order.
fn append_activations(ready: &mut Vec<Activation>, fired: &Vec<TimerEntry>)
    ensures
        final(ready)@ == old(ready)@ + fired@.map_values(|e: TimerEntry| activation_of(e)),
{
    let n: usize = fired.len();
    let mut i: usize = 0;
    while i < n
        invariant
            n == fired@.len(),
            i <= n,
            ready@ == old(ready)@ + fired@.take(i as int).map_values(
                |e: TimerEntry| activation_of(e),
            ),
        decreases n - i,
    {
        let e = fired[i];
        ready.push(Activation { task: e.task, payload: e.payload });
        proof {
            let f = |e: TimerEntry| activation_of(e);
            assert(fired@.take(i + 1).map_values(f) =~= fired@.take(i as int).map_values(f).push(
                activation_of(e),
            ));
        }
        i = i + 1;
    }
    proof {
        assert(fired@.take(n as int) =~= fired@);
    }
}

} // verus!
