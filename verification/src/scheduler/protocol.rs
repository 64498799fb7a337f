//! Why the scheduler's operations keep its invariant, and what the
//! invariant gives: preemption in priority order, one holder per resource,
//! and locks that are granted without waiting.

use vstd::prelude::*;
use crate::scheduler::model::{
    completed, config_wf, dispatched, is_ceiling, is_held, is_innermost, is_next, lock_fault,
    locked, locks_wf, may_access, priority_of, queues_wf, stack_wf, top_holds_nothing, unlocked,
    wf_view, SchedulerView,
};
use crate::scheduler::{Access, HeldLock};
use crate::task::{Activation, ResourceId, TaskId, TaskSpec};

verus! {

/// At most one pending activation is the one to run next.
pub proof fn lemma_next_unique(tasks: Seq<TaskSpec>, ready: Seq<Activation>, i: int, j: int)
    requires
        is_next(tasks, ready, i),
        is_next(tasks, ready, j),
    ensures
        i == j,
{
    if i < j {
        assert(priority_of(tasks, ready[i].task) < priority_of(tasks, ready[j].task));
        assert(priority_of(tasks, ready[j].task) <= priority_of(tasks, ready[i].task));
    } else if j < i {
        assert(priority_of(tasks, ready[j].task) < priority_of(tasks, ready[i].task));
        assert(priority_of(tasks, ready[i].task) <= priority_of(tasks, ready[j].task));
    }
}

/// A change to the pending queue and the timer queue alone keeps the
/// invariant, provided the queues still name tasks of the table and the
/// timers are still in order.
pub proof fn lemma_queues_changed_wf(v: SchedulerView, w: SchedulerView)
    requires
        wf_view(v),
        queues_wf(w),
        w == (SchedulerView { ready: w.ready, timers: w.timers, ..v }),
    ensures
        wf_view(w),
{
    assert(w.tasks == v.tasks);
    assert(w.accesses == v.accesses);
    assert(w.ceilings == v.ceilings);
    assert(config_wf(v));
    assert(config_wf(w));
    assert(stack_wf(w));
    assert(locks_wf(w));
}

/// Handing control to a pending activation above the running level keeps
/// the invariant.
pub proof fn lemma_dispatched_wf(v: SchedulerView, i: int)
    requires
        wf_view(v),
        0 <= i < v.ready.len(),
        priority_of(v.tasks, v.ready[i].task) > v.level,
    ensures
        wf_view(dispatched(v, i)),
{
    let w = dispatched(v, i);
    let n = v.running.len() as int;
    assert(config_wf(w));
    assert(queues_wf(w)) by {
        assert forall|j: int| 0 <= j < w.ready.len() implies (#[trigger] w.ready[j]).task.0
            < w.tasks.len() by {
            if j < i {
                assert(w.ready[j] == v.ready[j]);
            } else {
                assert(w.ready[j] == v.ready[j + 1]);
            }
        }
    }
    assert(v.ready[i].task.0 < v.tasks.len());
    assert(stack_wf(w)) by {
        assert(w.running.last() == w.running[n]);
        if n > 0 {
            assert(w.running[0] == v.running[0]);
            assert(v.running.last() == v.running[n - 1]);
        }
        assert forall|d: int| 0 <= d < w.running.len() implies {
            &&& (#[trigger] w.running[d]).task.0 < w.tasks.len()
            &&& w.running[d].priority == priority_of(w.tasks, w.running[d].task)
            &&& w.running[d].priority > w.running[d].resume_level
            &&& w.running[d].priority > d
        } by {
            if d < n {
                assert(w.running[d] == v.running[d]);
            }
        }
        assert forall|c: int, d: int| 0 <= c < d < w.running.len() implies (
        #[trigger] w.running[d]).resume_level >= (#[trigger] w.running[c]).priority by {
            assert(w.running[c] == v.running[c]);
            if d < n {
                assert(w.running[d] == v.running[d]);
            } else {
                if c < n - 1 {
                    assert(v.running[n - 1].resume_level >= v.running[c].priority);
                }
            }
        }
    }
    assert(locks_wf(w)) by {
        assert forall|k: int| 0 <= k < w.held.len() implies {
            &&& (#[trigger] w.held[k]).resource.0 < w.ceilings.len()
            &&& w.held[k].owner_depth < w.running.len()
            &&& w.level >= w.ceilings[w.held[k].resource.0 as int]
            &&& w.held[k].saved_level >= w.running[w.held[k].owner_depth as int].priority
        } by {
            assert(w.held[k] == v.held[k]);
            assert(w.running[v.held[k].owner_depth as int] == v.running[v.held[k].owner_depth as int]);
        }
        assert forall|k: int, d: int|
            0 <= k < w.held.len() && (#[trigger] w.held[k]).owner_depth < d
                < w.running.len() implies (#[trigger] w.running[d]).resume_level
            >= w.ceilings[w.held[k].resource.0 as int] by {
            assert(w.held[k] == v.held[k]);
            if d < n {
                assert(w.running[d] == v.running[d]);
            }
        }
    }
}

/// The return of a running task that holds nothing keeps the invariant.
pub proof fn lemma_completed_wf(v: SchedulerView)
    requires
        wf_view(v),
        v.running.len() > 0,
        top_holds_nothing(v),
    ensures
        wf_view(completed(v)),
{
    let w = completed(v);
    let n = v.running.len() as int;
    assert(config_wf(w));
    assert(queues_wf(w));
    assert(v.running.last() == v.running[n - 1]);
    assert forall|d: int| 0 <= d < w.running.len() implies (#[trigger] w.running[d])
        == v.running[d] by {}
    assert(stack_wf(w)) by {
        if n - 1 > 0 {
            assert(w.running.last() == v.running[n - 2]);
            assert(v.running[n - 1].resume_level >= v.running[n - 2].priority);
            assert(w.running[0] == v.running[0]);
        } else {
            if v.held.len() > 0 {
                assert(v.held[0].owner_depth < v.running.len());
                assert(v.held[0].owner_depth != v.running.len() - 1);
            }
        }
        assert forall|c: int, d: int| 0 <= c < d < w.running.len() implies (
        #[trigger] w.running[d]).resume_level >= (#[trigger] w.running[c]).priority by {
            assert(w.running[c] == v.running[c]);
            assert(w.running[d] == v.running[d]);
        }
    }
    assert(locks_wf(w)) by {
        assert forall|k: int| 0 <= k < w.held.len() implies {
            &&& (#[trigger] w.held[k]).resource.0 < w.ceilings.len()
            &&& w.held[k].owner_depth < w.running.len()
            &&& w.level >= w.ceilings[w.held[k].resource.0 as int]
            &&& w.held[k].saved_level >= w.running[w.held[k].owner_depth as int].priority
        } by {
            assert(v.held[k].owner_depth != n - 1);
            assert(v.held[k].owner_depth < n);
            assert(v.running[n - 1].resume_level >= v.ceilings[v.held[k].resource.0 as int]);
            assert(w.running[v.held[k].owner_depth as int] == v.running[v.held[k].owner_depth as int]);
        }
        assert forall|k: int, d: int|
            0 <= k < w.held.len() && (#[trigger] w.held[k]).owner_depth < d
                < w.running.len() implies (#[trigger] w.running[d]).resume_level
            >= w.ceilings[w.held[k].resource.0 as int] by {
            assert(w.running[d] == v.running[d]);
        }
    }
}

/// Taking a free resource that the running task is registered for keeps
/// the invariant.
pub proof fn lemma_locked_wf(v: SchedulerView, resource: ResourceId)
    requires
        wf_view(v),
        lock_fault(v, resource) is None,
    ensures
        wf_view(locked(v, resource)),
{
    let w = locked(v, resource);
    let h = v.held.len() as int;
    let n = v.running.len() as int;
    assert(config_wf(w));
    assert(queues_wf(w));
    assert(stack_wf(w));
    assert(v.running.last() == v.running[n - 1]);
    assert(!is_held(v, resource));
    assert(w.held[h] == HeldLock {
        resource,
        owner_depth: (n - 1) as usize,
        saved_level: v.level,
    });
    assert(w.running == v.running);
    assert(w.ceilings == v.ceilings);
    assert(locks_wf(w)) by {
        assert forall|k: int| 0 <= k < w.held.len() implies {
            &&& (#[trigger] w.held[k]).resource.0 < w.ceilings.len()
            &&& w.held[k].owner_depth < w.running.len()
            &&& w.level >= w.ceilings[w.held[k].resource.0 as int]
            &&& w.held[k].saved_level >= w.running[w.held[k].owner_depth as int].priority
        } by {
            if k < h {
                assert(w.held[k] == v.held[k]);
            }
        }
        assert forall|j: int, k: int| 0 <= j < k < w.held.len() implies {
            &&& (#[trigger] w.held[j]).resource != (#[trigger] w.held[k]).resource
            &&& w.held[j].owner_depth <= w.held[k].owner_depth
            &&& w.held[k].saved_level >= w.ceilings[w.held[j].resource.0 as int]
        } by {
            assert(w.held[j] == v.held[j]);
            if k < h {
                assert(w.held[k] == v.held[k]);
            } else {
                assert(v.held[j].resource != resource);
                assert(v.held[j].owner_depth < v.running.len());
                assert(v.level >= v.ceilings[v.held[j].resource.0 as int]);
            }
        }
        assert forall|k: int, d: int|
            0 <= k < w.held.len() && (#[trigger] w.held[k]).owner_depth < d
                < w.running.len() implies (#[trigger] w.running[d]).resume_level
            >= w.ceilings[w.held[k].resource.0 as int] by {
            if k < h {
                assert(w.held[k] == v.held[k]);
                assert(v.running[d].resume_level >= v.ceilings[v.held[k].resource.0 as int]);
            }
        }
    }
}

/// Giving back the resource taken last keeps the invariant.
pub proof fn lemma_unlocked_wf(v: SchedulerView)
    requires
        wf_view(v),
        v.held.len() > 0,
        v.running.len() > 0,
        v.held.last().owner_depth == v.running.len() - 1,
    ensures
        wf_view(unlocked(v)),
{
    let w = unlocked(v);
    let h = v.held.len() as int;
    let n = v.running.len() as int;
    assert(config_wf(w));
    assert(queues_wf(w));
    assert(v.held.last() == v.held[h - 1]);
    assert(v.running.last() == v.running[n - 1]);
    assert(stack_wf(w));
    assert forall|k: int| 0 <= k < w.held.len() implies (#[trigger] w.held[k]) == v.held[k] by {}
    assert(locks_wf(w)) by {
        assert forall|k: int| 0 <= k < w.held.len() implies {
            &&& (#[trigger] w.held[k]).resource.0 < w.ceilings.len()
            &&& w.held[k].owner_depth < w.running.len()
            &&& w.level >= w.ceilings[w.held[k].resource.0 as int]
            &&& w.held[k].saved_level >= w.running[w.held[k].owner_depth as int].priority
        } by {
            assert(w.held[k] == v.held[k]);
            assert(v.held[h - 1].saved_level >= v.ceilings[v.held[k].resource.0 as int]);
        }
        assert forall|j: int, k: int| 0 <= j < k < w.held.len() implies {
            &&& (#[trigger] w.held[j]).resource != (#[trigger] w.held[k]).resource
            &&& w.held[j].owner_depth <= w.held[k].owner_depth
            &&& w.held[k].saved_level >= w.ceilings[w.held[j].resource.0 as int]
        } by {
            assert(w.held[j] == v.held[j]);
            assert(w.held[k] == v.held[k]);
        }
        assert forall|k: int, d: int|
            0 <= k < w.held.len() && (#[trigger] w.held[k]).owner_depth < d
                < w.running.len() implies (#[trigger] w.running[d]).resume_level
            >= w.ceilings[w.held[k].resource.0 as int] by {
            assert(w.held[k] == v.held[k]);
        }
    }
}

/// Taking a resource and giving it back leaves the scheduler as it was.
pub proof fn lemma_lock_unlock_restores(v: SchedulerView, resource: ResourceId)
    requires
        wf_view(v),
        lock_fault(v, resource) is None,
    ensures
        is_innermost(locked(v, resource), resource),
        unlocked(locked(v, resource)) == v,
{
    let w = locked(v, resource);
    let n = v.running.len() as int;
    assert(v.running.last() == v.running[n - 1]);
    assert(w.held.last() == w.held[v.held.len() as int]);
    assert(w.held.drop_last() =~= v.held);
}

/// The priorities on the run stack rise strictly from the task that was
/// preempted first to the task that executes: a task is only ever
/// interrupted by a strictly higher priority, and goes on only when every
/// task above it has returned.
pub proof fn lemma_stack_priorities_rise(v: SchedulerView, c: int, d: int)
    requires
        wf_view(v),
        0 <= c < d < v.running.len(),
    ensures
        v.running[c].priority < v.running[d].priority,
        v.running[c].task != v.running[d].task,
{
    assert(v.running[d].resume_level >= v.running[c].priority);
    assert(v.running[d].priority > v.running[d].resume_level);
}

/// No resource is held twice: at any time at most one task holds it.
pub proof fn lemma_held_once(v: SchedulerView, j: int, k: int)
    requires
        wf_view(v),
        0 <= j < v.held.len(),
        0 <= k < v.held.len(),
        j != k,
    ensures
        v.held[j].resource != v.held[k].resource,
{
    if j < k {
        assert(v.held[j].resource != v.held[k].resource);
    } else {
        assert(v.held[k].resource != v.held[j].resource);
    }
}

/// While a resource is held, no task registered for it has a priority
/// above the running level, so none of them is dispatched: the holder
/// cannot be preempted by another user of the resource.
pub proof fn lemma_users_wait_while_held(v: SchedulerView, k: int, task: TaskId)
    requires
        wf_view(v),
        0 <= k < v.held.len(),
        may_access(v.accesses, task, v.held[k].resource),
    ensures
        priority_of(v.tasks, task) <= v.ceilings[v.held[k].resource.0 as int],
        v.ceilings[v.held[k].resource.0 as int] <= v.level,
{
    let resource = v.held[k].resource;
    let r = resource.0 as int;
    let i = choose|i: int| 0 <= i < v.accesses.len() && v.accesses[i] == (Access { task, resource });
    assert(v.accesses[i].resource.0 == r);
    assert(is_ceiling(v.tasks, v.accesses, r, v.ceilings[r]));
}

/// From the moment a task takes a resource, and so for as long as the
/// closure of `with_lock` runs, the running level is at or above the
/// priority of every task registered for the resource: none of them is
/// dispatched before the resource is given back.
pub proof fn lemma_lock_excludes_users(v: SchedulerView, resource: ResourceId, task: TaskId)
    requires
        wf_view(v),
        lock_fault(v, resource) is None,
        may_access(v.accesses, task, resource),
    ensures
        locked(v, resource).level >= v.ceilings[resource.0 as int],
        locked(v, resource).level >= v.level,
        priority_of(v.tasks, task) <= locked(v, resource).level,
{
    let w = locked(v, resource);
    lemma_locked_wf(v, resource);
    let k = v.held.len() as int;
    assert(w.held[k].resource == resource);
    lemma_users_wait_while_held(w, k, task);
}

/// A resource that the running task is registered for is held by nobody but
/// the running task itself.
pub proof fn lemma_holder_is_running(v: SchedulerView, k: int)
    requires
        wf_view(v),
        0 <= k < v.held.len(),
        v.running.len() > 0,
        may_access(v.accesses, v.running.last().task, v.held[k].resource),
    ensures
        v.held[k].owner_depth == v.running.len() - 1,
{
    let n = v.running.len() as int;
    let top = v.running[n - 1];
    assert(v.running.last() == top);
    lemma_users_wait_while_held(v, k, top.task);
    if v.held[k].owner_depth < n - 1 {
        assert(top.resume_level >= v.ceilings[v.held[k].resource.0 as int]);
        assert(top.priority > top.resume_level);
    }
}

/// Taking a resource never waits and never fails for a task that keeps to
/// the protocol: a running task that is registered for a resource and does
/// not hold it already is granted it.
pub proof fn lemma_lock_granted(v: SchedulerView, resource: ResourceId)
    requires
        wf_view(v),
        resource.0 < v.ceilings.len(),
        v.running.len() > 0,
        may_access(v.accesses, v.running.last().task, resource),
        forall|k: int|
            0 <= k < v.held.len() && (#[trigger] v.held[k]).resource == resource
                ==> v.held[k].owner_depth != v.running.len() - 1,
    ensures
        lock_fault(v, resource) is None,
{
    if is_held(v, resource) {
        let k = choose|k: int| 0 <= k < v.held.len() && (#[trigger] v.held[k]).resource == resource;
        lemma_holder_is_running(v, k);
    }
}

/// A pending activation above the running level preempts at once, and the
/// task it interrupted goes on exactly where it was once the newcomer has
/// returned: the run stack, the held resources and the running level are
/// then what they were, and only the dispatched activation is gone from the
/// pending queue.
pub proof fn lemma_preempted_resumes(v: SchedulerView, i: int)
    requires
        wf_view(v),
        0 <= i < v.ready.len(),
        priority_of(v.tasks, v.ready[i].task) > v.level,
    ensures
        dispatched(v, i).running.last().task == v.ready[i].task,
        forall|d: int| 0 <= d < v.running.len() ==> dispatched(v, i).running[d] == v.running[d],
        top_holds_nothing(dispatched(v, i)),
        completed(dispatched(v, i)) == (SchedulerView { ready: v.ready.remove(i), ..v }),
{
    let w = dispatched(v, i);
    assert(w.running.drop_last() =~= v.running);
    assert forall|k: int| 0 <= k < w.held.len() implies (#[trigger] w.held[k]).owner_depth
        != w.running.len() - 1 by {
        assert(v.held[k].owner_depth < v.running.len());
    }
}

} // verus!
