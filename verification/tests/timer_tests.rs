use leak_monitor::task::{Payload, TaskId};
use leak_monitor::timer::{TimerEntry, TimerQueue};

#[test]
fn tick_returns_only_what_is_due() {
    let mut q = TimerQueue::new();
    q.schedule(TaskId(1), 100, Payload::Empty);
    q.schedule(TaskId(2), 50, Payload::Empty);
    assert_eq!(q.len(), 2);
    assert_eq!(q.next_due(), Some(50));

    let fired = q.tick(60);
    assert_eq!(fired, vec![TimerEntry { due: 50, task: TaskId(2), payload: Payload::Empty }]);
    assert_eq!(q.len(), 1);

    let fired = q.tick(150);
    assert_eq!(fired, vec![TimerEntry { due: 100, task: TaskId(1), payload: Payload::Empty }]);
    assert_eq!(q.len(), 0);
    assert_eq!(q.next_due(), None);
}

#[test]
fn no_entry_fires_twice() {
    let mut q = TimerQueue::new();
    q.schedule(TaskId(0), 10, Payload::Count(3));
    assert_eq!(q.tick(10).len(), 1);
    assert_eq!(q.tick(10).len(), 0);
    assert_eq!(q.tick(1000).len(), 0);
}

#[test]
fn equal_due_times_fire_in_scheduling_order() {
    let mut q = TimerQueue::new();
    q.schedule(TaskId(7), 20, Payload::Count(1));
    q.schedule(TaskId(8), 20, Payload::Count(2));
    q.schedule(TaskId(9), 10, Payload::Count(3));
    q.schedule(TaskId(6), 20, Payload::Count(4));
    let fired = q.tick(20);
    assert_eq!(
        fired,
        vec![
            TimerEntry { due: 10, task: TaskId(9), payload: Payload::Count(3) },
            TimerEntry { due: 20, task: TaskId(7), payload: Payload::Count(1) },
            TimerEntry { due: 20, task: TaskId(8), payload: Payload::Count(2) },
            TimerEntry { due: 20, task: TaskId(6), payload: Payload::Count(4) },
        ]
    );
}

#[test]
fn zero_delay_is_ready_on_the_next_tick() {
    let mut q = TimerQueue::new();
    assert_eq!(q.tick(500).len(), 0);
    assert_eq!(q.now(), 500);
    q.schedule(TaskId(4), 0, Payload::Empty);
    assert_eq!(q.next_due(), Some(500));
    let fired = q.tick(500);
    assert_eq!(fired, vec![TimerEntry { due: 500, task: TaskId(4), payload: Payload::Empty }]);
}

#[test]
fn due_time_is_now_plus_delay() {
    let mut q = TimerQueue::new();
    q.tick(1000);
    q.schedule(TaskId(1), 120, Payload::Count(5));
    assert_eq!(q.next_due(), Some(1120));
    assert_eq!(q.tick(1119).len(), 0);
    assert_eq!(q.tick(1120).len(), 1);
}

#[test]
fn clock_never_runs_backwards() {
    let mut q = TimerQueue::new();
    q.tick(300);
    q.schedule(TaskId(1), 0, Payload::Empty);
    let fired = q.tick(100);
    assert_eq!(q.now(), 300);
    assert_eq!(fired.len(), 1);
}

#[test]
fn schedule_at_the_clock_limit() {
    let mut q = TimerQueue::new();
    q.tick(u64::MAX - 5);
    q.schedule(TaskId(1), 5, Payload::Empty);
    assert_eq!(q.next_due(), Some(u64::MAX));
    assert_eq!(q.tick(u64::MAX).len(), 1);
}
