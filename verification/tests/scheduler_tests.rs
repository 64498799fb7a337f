use leak_monitor::lock::SharedResource;
use leak_monitor::scheduler::{
    Access, CompleteError, ConfigError, LockError, Scheduler, SpawnError,
};
use leak_monitor::task::{Activation, Payload, RearmPolicy, ResourceId, TaskId, TaskSpec, TaskState};

const LOW: TaskId = TaskId(0);
const MID: TaskId = TaskId(1);
const HIGH: TaskId = TaskId(2);
const OTHER_LOW: TaskId = TaskId(3);
const BUS: ResourceId = ResourceId(0);
const PANEL: ResourceId = ResourceId(1);

fn three_levels() -> Scheduler {
    let tasks = vec![
        TaskSpec { priority: 1, rearm: RearmPolicy::OneShot },
        TaskSpec { priority: 2, rearm: RearmPolicy::Periodic(100) },
        TaskSpec { priority: 3, rearm: RearmPolicy::OneShot },
        TaskSpec { priority: 1, rearm: RearmPolicy::OneShot },
    ];
    let accesses = vec![
        Access { task: LOW, resource: BUS },
        Access { task: MID, resource: BUS },
        Access { task: LOW, resource: PANEL },
    ];
    Scheduler::new(tasks, accesses, 2).expect("the tables are consistent")
}

fn act(task: TaskId) -> Activation {
    Activation { task, payload: Payload::Empty }
}

#[test]
fn new_scheduler_is_idle() {
    let s = three_levels();
    assert_eq!(s.task_count(), 4);
    assert_eq!(s.level(), 0);
    assert_eq!(s.now(), 0);
    assert_eq!(s.pending_count(), 0);
    assert_eq!(s.timer_count(), 0);
    assert_eq!(s.running_depth(), 0);
    assert_eq!(s.current(), None);
    assert_eq!(s.next_due(), None);
    assert_eq!(s.state(LOW), TaskState::Idle);
}

#[test]
fn ceiling_is_the_highest_priority_among_users() {
    let s = three_levels();
    assert_eq!(s.ceiling(BUS), Some(2));
    assert_eq!(s.ceiling(PANEL), Some(1));
    assert_eq!(s.ceiling(ResourceId(2)), None);
    let unused = Scheduler::new(
        vec![TaskSpec { priority: 9, rearm: RearmPolicy::OneShot }],
        vec![],
        1,
    )
    .expect("a resource without users is allowed");
    assert_eq!(unused.ceiling(ResourceId(0)), Some(0));
}

#[test]
fn inconsistent_tables_are_refused() {
    let idle = Scheduler::new(
        vec![TaskSpec { priority: 0, rearm: RearmPolicy::OneShot }],
        vec![Access { task: TaskId(5), resource: ResourceId(5) }],
        1,
    );
    assert_eq!(idle.err(), Some(ConfigError::IdlePriority));
    let task = Scheduler::new(
        vec![TaskSpec { priority: 1, rearm: RearmPolicy::OneShot }],
        vec![
            Access { task: TaskId(0), resource: ResourceId(7) },
            Access { task: TaskId(1), resource: ResourceId(0) },
        ],
        1,
    );
    assert_eq!(task.err(), Some(ConfigError::UnknownTask));
    let resource = Scheduler::new(
        vec![TaskSpec { priority: 1, rearm: RearmPolicy::OneShot }],
        vec![Access { task: TaskId(0), resource: ResourceId(1) }],
        1,
    );
    assert_eq!(resource.err(), Some(ConfigError::UnknownResource));
}

#[test]
fn high_priority_preempts_and_low_resumes_after_it() {
    let mut s = three_levels();
    s.spawn(LOW, Payload::Count(1)).unwrap();
    assert_eq!(s.state(LOW), TaskState::Pending);
    assert_eq!(s.dispatch(), Some(Activation { task: LOW, payload: Payload::Count(1) }));
    assert_eq!(s.state(LOW), TaskState::Running);
    assert_eq!(s.level(), 1);

    s.spawn(HIGH, Payload::Empty).unwrap();
    assert_eq!(s.state(HIGH), TaskState::Pending);
    assert_eq!(s.dispatch(), Some(act(HIGH)));
    assert_eq!(s.current(), Some(act(HIGH)));
    assert_eq!(s.level(), 3);
    assert_eq!(s.running_depth(), 2);
    assert_eq!(s.state(LOW), TaskState::Running);
    assert_eq!(s.state(HIGH), TaskState::Running);

    assert_eq!(s.complete(), Ok(act(HIGH)));
    assert_eq!(s.state(HIGH), TaskState::Idle);
    assert_eq!(s.current(), Some(Activation { task: LOW, payload: Payload::Count(1) }));
    assert_eq!(s.level(), 1);
    assert_eq!(s.dispatch(), None);

    assert_eq!(s.complete(), Ok(Activation { task: LOW, payload: Payload::Count(1) }));
    assert_eq!(s.state(LOW), TaskState::Idle);
    assert_eq!(s.level(), 0);
    assert_eq!(s.complete(), Err(CompleteError::NoRunningTask));
}

#[test]
fn equal_or_lower_priority_never_preempts() {
    let mut s = three_levels();
    s.spawn(MID, Payload::Empty).unwrap();
    assert_eq!(s.dispatch(), Some(act(MID)));
    s.spawn(LOW, Payload::Empty).unwrap();
    s.spawn(MID, Payload::Empty).unwrap();
    assert_eq!(s.dispatch(), None);
    assert_eq!(s.pending_count(), 2);
    assert_eq!(s.state(MID), TaskState::Running);
    assert_eq!(s.complete(), Ok(act(MID)));
    assert_eq!(s.state(MID), TaskState::Pending);
    assert_eq!(s.dispatch(), Some(act(MID)));
    assert_eq!(s.complete(), Ok(act(MID)));
    assert_eq!(s.dispatch(), Some(act(LOW)));
    assert_eq!(s.complete(), Ok(act(LOW)));
    assert_eq!(s.dispatch(), None);
}

#[test]
fn highest_priority_runs_first_and_equals_run_in_order() {
    let mut s = three_levels();
    s.spawn(LOW, Payload::Count(1)).unwrap();
    s.spawn(OTHER_LOW, Payload::Count(2)).unwrap();
    s.spawn(HIGH, Payload::Count(3)).unwrap();
    s.spawn(LOW, Payload::Count(4)).unwrap();
    s.spawn(MID, Payload::Count(5)).unwrap();
    let mut order = Vec::new();
    while let Some(a) = s.dispatch() {
        order.push(a);
        assert_eq!(s.complete(), Ok(a));
    }
    assert_eq!(
        order,
        vec![
            Activation { task: HIGH, payload: Payload::Count(3) },
            Activation { task: MID, payload: Payload::Count(5) },
            Activation { task: LOW, payload: Payload::Count(1) },
            Activation { task: OTHER_LOW, payload: Payload::Count(2) },
            Activation { task: LOW, payload: Payload::Count(4) },
        ]
    );
}

#[test]
fn spawning_a_pending_task_queues_it_again() {
    let mut s = three_levels();
    s.spawn(LOW, Payload::Empty).unwrap();
    s.spawn(LOW, Payload::Empty).unwrap();
    assert_eq!(s.pending_count(), 2);
    assert_eq!(s.dispatch(), Some(act(LOW)));
    assert_eq!(s.complete(), Ok(act(LOW)));
    assert_eq!(s.state(LOW), TaskState::Pending);
    assert_eq!(s.dispatch(), Some(act(LOW)));
    assert_eq!(s.complete(), Ok(act(LOW)));
    assert_eq!(s.state(LOW), TaskState::Idle);
}

#[test]
fn unknown_task_cannot_be_spawned() {
    let mut s = three_levels();
    assert_eq!(s.spawn(TaskId(4), Payload::Empty), Err(SpawnError::UnknownTask));
    assert_eq!(s.spawn_after(TaskId(9), 10, Payload::Empty), Err(SpawnError::UnknownTask));
    assert_eq!(s.rearm(TaskId(4)), Err(SpawnError::UnknownTask));
    assert_eq!(s.pending_count(), 0);
    assert_eq!(s.timer_count(), 0);
    assert_eq!(s.state(TaskId(4)), TaskState::Idle);
}

#[test]
fn due_time_past_the_clock_is_refused() {
    let mut s = three_levels();
    assert_eq!(s.tick(10), 0);
    assert_eq!(s.spawn_after(LOW, u64::MAX - 9, Payload::Empty), Err(SpawnError::ClockOverflow));
    assert_eq!(s.spawn_after(LOW, u64::MAX - 10, Payload::Empty), Ok(()));
    assert_eq!(s.next_due(), Some(u64::MAX));
}

#[test]
fn tick_makes_due_timers_pending_in_order() {
    let mut s = three_levels();
    s.spawn_after(LOW, 100, Payload::Count(1)).unwrap();
    s.spawn_after(OTHER_LOW, 50, Payload::Count(2)).unwrap();
    s.spawn_after(LOW, 50, Payload::Count(3)).unwrap();
    assert_eq!(s.timer_count(), 3);
    assert_eq!(s.next_due(), Some(50));
    assert_eq!(s.tick(49), 0);
    assert_eq!(s.tick(60), 2);
    assert_eq!(s.now(), 60);
    assert_eq!(s.pending_count(), 2);
    assert_eq!(s.dispatch(), Some(Activation { task: OTHER_LOW, payload: Payload::Count(2) }));
    s.complete().unwrap();
    assert_eq!(s.dispatch(), Some(Activation { task: LOW, payload: Payload::Count(3) }));
    s.complete().unwrap();
    assert_eq!(s.dispatch(), None);
    assert_eq!(s.tick(150), 1);
    assert_eq!(s.dispatch(), Some(Activation { task: LOW, payload: Payload::Count(1) }));
}

#[test]
fn rearm_follows_the_policy() {
    let mut s = three_levels();
    s.tick(1000);
    assert_eq!(s.rearm(LOW), Ok(false));
    assert_eq!(s.timer_count(), 0);
    assert_eq!(s.rearm(MID), Ok(true));
    assert_eq!(s.next_due(), Some(1100));
    s.tick(u64::MAX - 50);
    assert_eq!(s.rearm(MID), Err(SpawnError::ClockOverflow));
}

#[test]
fn lock_raises_the_level_to_the_ceiling() {
    let mut s = three_levels();
    s.spawn(LOW, Payload::Empty).unwrap();
    s.dispatch().unwrap();
    assert_eq!(s.level(), 1);
    assert_eq!(s.holder(BUS), None);
    assert_eq!(s.lock(BUS), Ok(()));
    assert_eq!(s.level(), 2);
    assert_eq!(s.holder(BUS), Some(LOW));

    s.spawn(MID, Payload::Empty).unwrap();
    assert_eq!(s.dispatch(), None);
    s.spawn(HIGH, Payload::Empty).unwrap();
    assert_eq!(s.dispatch(), Some(act(HIGH)));
    assert_eq!(s.holder(BUS), Some(LOW));
    assert_eq!(s.complete(), Ok(act(HIGH)));
    assert_eq!(s.level(), 2);
    assert_eq!(s.dispatch(), None);

    assert_eq!(s.unlock(BUS), Ok(()));
    assert_eq!(s.level(), 1);
    assert_eq!(s.holder(BUS), None);
    assert_eq!(s.dispatch(), Some(act(MID)));
    assert_eq!(s.lock(BUS), Ok(()));
    assert_eq!(s.level(), 2);
    assert_eq!(s.holder(BUS), Some(MID));
}

#[test]
fn locks_nest_and_are_given_back_innermost_first() {
    let mut s = three_levels();
    s.spawn(LOW, Payload::Empty).unwrap();
    s.dispatch().unwrap();
    assert_eq!(s.lock(PANEL), Ok(()));
    assert_eq!(s.level(), 1);
    assert_eq!(s.lock(BUS), Ok(()));
    assert_eq!(s.level(), 2);
    assert_eq!(s.unlock(PANEL), Err(LockError::NotInnermost));
    assert_eq!(s.complete(), Err(CompleteError::ResourceHeld));
    assert_eq!(s.unlock(BUS), Ok(()));
    assert_eq!(s.level(), 1);
    assert_eq!(s.unlock(BUS), Err(LockError::NotInnermost));
    assert_eq!(s.unlock(PANEL), Ok(()));
    assert_eq!(s.unlock(PANEL), Err(LockError::NotInnermost));
    assert_eq!(s.complete(), Ok(act(LOW)));
}

#[test]
fn lock_misuse_is_refused() {
    let mut s = three_levels();
    assert_eq!(s.lock(BUS), Err(LockError::NoRunningTask));
    assert_eq!(s.lock(ResourceId(2)), Err(LockError::UnknownResource));
    assert_eq!(s.unlock(BUS), Err(LockError::NotInnermost));
    s.spawn(HIGH, Payload::Empty).unwrap();
    s.dispatch().unwrap();
    assert_eq!(s.lock(BUS), Err(LockError::NotPermitted));
    assert_eq!(s.level(), 3);
    s.complete().unwrap();
    s.spawn(LOW, Payload::Empty).unwrap();
    s.dispatch().unwrap();
    assert_eq!(s.lock(BUS), Ok(()));
    assert_eq!(s.lock(BUS), Err(LockError::AlreadyHeld));
    assert_eq!(s.level(), 2);
}

#[test]
fn with_lock_gives_exclusive_access_and_restores_the_level() {
    let mut s = three_levels();
    let mut bus = SharedResource::new(BUS, vec![1u8, 2, 3]);
    assert_eq!(bus.id(), BUS);
    s.spawn(LOW, Payload::Empty).unwrap();
    s.dispatch().unwrap();
    let sum = s.with_lock(&mut bus, |bytes: &mut Vec<u8>| {
        bytes.push(4);
        bytes.iter().map(|b| *b as u32).sum::<u32>()
    });
    assert_eq!(sum, Ok(10));
    assert_eq!(s.level(), 1);
    assert_eq!(s.holder(BUS), None);
    let len = s.with_lock(&mut bus, |bytes: &mut Vec<u8>| bytes.len());
    assert_eq!(len, Ok(4));
}

#[test]
fn with_lock_does_not_run_the_closure_when_refused() {
    let mut s = three_levels();
    let mut bus = SharedResource::new(BUS, 0u32);
    let r = s.with_lock(&mut bus, |n: &mut u32| {
        *n += 1;
    });
    assert_eq!(r, Err(LockError::NoRunningTask));
    s.spawn(HIGH, Payload::Empty).unwrap();
    s.dispatch().unwrap();
    let r = s.with_lock(&mut bus, |n: &mut u32| {
        *n += 1;
    });
    assert_eq!(r, Err(LockError::NotPermitted));
    s.complete().unwrap();
    s.spawn(MID, Payload::Empty).unwrap();
    s.dispatch().unwrap();
    let seen = s.with_lock(&mut bus, |n: &mut u32| *n);
    assert_eq!(seen, Ok(0));
}

#[test]
fn absent_peripheral_leaves_its_resource_empty() {
    let absent: SharedResource<Option<u8>> = SharedResource::new(ResourceId(0), None);
    let present: SharedResource<Option<u8>> = SharedResource::new(ResourceId(1), Some(3));
    assert!(!absent.is_present());
    assert!(present.is_present());
    assert_eq!(present.id(), ResourceId(1));
}
