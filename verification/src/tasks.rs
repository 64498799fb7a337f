//! The task set: blink, heartbeat, sensor poll, display update and logger,
//! each as the decisions its body takes between reading its inputs and
//! driving its outputs.
//!
//! A task function is handed what the caller has read from the hardware,
//! updates the scheduler and the sensor facts, and returns what the caller
//! is to do to the hardware.

use vstd::prelude::*;
use crate::display::{frame_of, render, RenderCycle, RenderCycleView};
use crate::scheduler::model::{
    config_fault, is_ceiling, rearm_result, rearmed, spawn_after_result, spawned_after,
    SchedulerView,
};
use crate::scheduler::{Access, Scheduler, SpawnError};
use crate::status::{
    leak_from_level, leak_of_level, status_of, LeakPolarity, SensorError, SensorFacts,
    StatusAggregator,
};
use crate::task::{Activation, Payload, RearmPolicy, ResourceId, TaskId, TaskSpec};
use crate::timer::{lemma_due_prefix_at, TimerEntry};

verus! {

/// Row of the blink task in the standard task table.
pub const BLINK: usize = 0;

/// Row of the heartbeat task in the standard task table.
pub const HEARTBEAT: usize = 1;

/// Row of the sensor-poll task in the standard task table.
pub const UPDATE_IMU: usize = 2;

/// Row of the display task in the standard task table.
pub const UPDATE_OLED: usize = 3;

/// Row of the logger task in the standard task table.
pub const TEST_LOG: usize = 4;

/// Row of the display in the standard resource table.
pub const DISPLAY: usize = 0;

/// Row of the accelerometer in the standard resource table.
pub const ACCEL: usize = 1;

/// Time the LED stays on, and time it stays off, in milliseconds.
pub const BLINK_DUR: u64 = 120;

/// Period of the heartbeat, in milliseconds.
pub const HEARTBEAT_PERIOD: u64 = 1000;

/// Period of the sensor poll, in milliseconds.
pub const IMU_PERIOD: u64 = 1000;

/// Period of the display update, in milliseconds.
pub const OLED_PERIOD: u64 = 50;

/// Delay from start to the first display update, in milliseconds.
pub const OLED_START: u64 = 2000;

/// Delay from start to the first heartbeat, in milliseconds.
pub const HEARTBEAT_START: u64 = 3000;

/// Delay from start to the log write, in milliseconds.
pub const LOG_START: u64 = 3200;

/// Number of blinks that announce the start.
pub const START_BLINKS: u8 = 5;

/// The tasks of the standard task set.
#[derive(Clone, Copy, Debug, PartialEq, Eq, Structural)]
pub enum TaskKind {
    Blink,
    Heartbeat,
    SensorPoll,
    DisplayUpdate,
    Logger,
}

/// The task that stands in row `task` of the standard task table.
pub open spec fn kind_at(task: TaskId) -> Option<TaskKind> {
    if task.0 == BLINK {
        Some(TaskKind::Blink)
    } else if task.0 == HEARTBEAT {
        Some(TaskKind::Heartbeat)
    } else if task.0 == UPDATE_IMU {
        Some(TaskKind::SensorPoll)
    } else if task.0 == UPDATE_OLED {
        Some(TaskKind::DisplayUpdate)
    } else if task.0 == TEST_LOG {
        Some(TaskKind::Logger)
    } else {
        None
    }
}

/// Which task of the standard set an identity names, if any.
pub fn kind_of(task: TaskId) -> (kind: Option<TaskKind>)
    ensures
        kind == kind_at(task),
{
    if task.0 == BLINK {
        Some(TaskKind::Blink)
    } else if task.0 == HEARTBEAT {
        Some(TaskKind::Heartbeat)
    } else if task.0 == UPDATE_IMU {
        Some(TaskKind::SensorPoll)
    } else if task.0 == UPDATE_OLED {
        Some(TaskKind::DisplayUpdate)
    } else if task.0 == TEST_LOG {
        Some(TaskKind::Logger)
    } else {
        None
    }
}

/// The count that a blink activation carries; one without a count carries
/// none to use up.
pub fn blink_count(payload: Payload) -> (n: u8)
    ensures
        payload matches Payload::Count(c) ==> n == c,
        payload is Empty ==> n == 0,
{
    match payload {
        Payload::Count(n) => n,
        Payload::Empty => 0,
    }
}

/// Level of the LED output.
#[derive(Clone, Copy, Debug, PartialEq, Eq, Structural)]
pub enum LedLevel {
    Low,
    High,
}

/// How many times the LED blinks after a heartbeat. The two counts are a
/// choice of the installation; a leak is signalled by the higher one.
#[derive(Clone, Copy, Debug, PartialEq, Eq, Structural)]
pub struct BlinkPattern {
    /// Blinks when no leak is seen.
    pub normal: u8,
    /// Blinks when a leak is seen.
    pub problem: u8,
}

/// What the heartbeat needs to know about the installation.
#[derive(Clone, Copy, Debug, PartialEq, Eq, Structural)]
pub struct HeartbeatConfig {
    pub polarity: LeakPolarity,
    pub pattern: BlinkPattern,
}

impl HeartbeatConfig {
    /// A leak is signalled by more blinks than its absence.
    pub open spec fn wf(&self) -> bool {
        self.pattern.normal < self.pattern.problem
    }

    /// The usual installation: the detector input is high on a leak, one
    /// blink says all is well and two say there is a leak.
    pub fn standard() -> (cfg: Self)
        ensures
            cfg.wf(),
            cfg == (HeartbeatConfig {
                polarity: LeakPolarity::ActiveHigh,
                pattern: BlinkPattern { normal: 1, problem: 2 },
            }),
    {
        HeartbeatConfig {
            polarity: LeakPolarity::ActiveHigh,
            pattern: BlinkPattern { normal: 1, problem: 2 },
        }
    }
}

/// What one run of the blink task does to the LED and which count it hands
/// to its next run, if it asks for one. With a count of zero it does
/// nothing. Otherwise it toggles the LED: switching on keeps the count,
/// switching off uses one up.
pub open spec fn blink_step(n: u8, led_is_low: bool) -> (Option<LedLevel>, Option<u8>) {
    if n == 0 {
        (None, None)
    } else if led_is_low {
        (Some(LedLevel::High), Some(n))
    } else {
        (Some(LedLevel::Low), Some((n - 1) as u8))
    }
}

/// The levels that the LED is driven to, one per run, when the blink task is
/// started with count `n` and keeps re-arming itself until it stops: each
/// run finds the LED as the run before has left it, and the count that the
/// run before has handed on.
pub open spec fn blink_levels(n: u8, led_is_low: bool) -> Seq<LedLevel>
    decreases n, (if led_is_low { 1int } else { 0int }),
{
    match blink_step(n, led_is_low) {
        (Some(level), Some(next)) => seq![level] + blink_levels(next, level == LedLevel::Low),
        _ => Seq::empty(),
    }
}

/// A request for `n` blinks on a dark LED toggles the LED exactly `2 n`
/// times, on and off in turn, and leaves it dark. The run after the last
/// toggle has a count of zero: it touches nothing and asks for no further
/// run.
pub proof fn lemma_blink_toggles_twice_per_count(n: u8)
    ensures
        blink_levels(n, true).len() == 2 * n,
        forall|i: int|
            0 <= i < 2 * n ==> #[trigger] blink_levels(n, true)[i] == (if i % 2 == 0 {
                LedLevel::High
            } else {
                LedLevel::Low
            }),
        n > 0 ==> blink_levels(n, true).last() == LedLevel::Low,
        blink_step(0, true) == (None::<LedLevel>, None::<u8>),
    decreases n,
{
    if n > 0 {
        let m = (n - 1) as u8;
        lemma_blink_toggles_twice_per_count(m);
        let rest = blink_levels(m, true);
        let off = seq![LedLevel::Low] + rest;
        let all = seq![LedLevel::High] + off;
        assert(blink_levels(n, false) == off);
        assert(blink_levels(n, true) == all);
        assert forall|i: int| 0 <= i < 2 * n implies #[trigger] all[i] == (if i % 2 == 0 {
            LedLevel::High
        } else {
            LedLevel::Low
        }) by {
            if i >= 2 {
                assert(all[i] == off[i - 1]);
                assert(off[i - 1] == rest[i - 2]);
            } else if i == 1 {
                assert(all[1] == off[0]);
            }
        }
        assert(all.last() == all[2 * n - 1]);
    }
}

/// One run of the blink task with count `n`, given whether the LED is low.
/// Returns the level to drive the LED to, if any. Unless the count is zero
/// the task schedules its next run one blink duration from now, with the
/// count that `blink_step` gives. Where that cannot be scheduled, nothing
/// is changed and the LED is to be left alone.
pub fn blink(sched: &mut Scheduler, n: u8, led_is_low: bool) -> (r: Result<
    Option<LedLevel>,
    SpawnError,
>)
    requires
        old(sched).wf(),
    ensures
        final(sched).wf(),
        match blink_step(n, led_is_low).1 {
            None => r == Ok::<Option<LedLevel>, SpawnError>(None) && final(sched)@ == old(sched)@,
            Some(next) => match spawn_after_result(old(sched)@, TaskId(BLINK), BLINK_DUR) {
                Ok(_) => r == Ok::<Option<LedLevel>, SpawnError>(blink_step(n, led_is_low).0)
                    && final(sched)@ == spawned_after(
                    old(sched)@,
                    TaskId(BLINK),
                    BLINK_DUR,
                    Payload::Count(next),
                ),
                Err(e) => r == Err::<Option<LedLevel>, SpawnError>(e) && final(sched)@ == old(
                    sched,
                )@,
            },
        },
{
    if n == 0 {
        return Ok(None);
    }
    let (level, next) = if led_is_low {
        (LedLevel::High, n)
    } else {
        (LedLevel::Low, n - 1)
    };
    match sched.spawn_after(TaskId(BLINK), BLINK_DUR, Payload::Count(next)) {
        Ok(_) => Ok(Some(level)),
        Err(e) => Err(e),
    }
}

/// What a heartbeat found.
#[derive(Clone, Copy, Debug, PartialEq, Eq, Structural)]
pub enum HeartbeatOutcome {
    /// The detector was read and reports no leak.
    NoLeak,
    /// The detector was read and reports a leak.
    LeakDetected,
    /// The detector could not be read; the facts stay as they were.
    SensorFailed,
}

/// What a heartbeat finds in a reading of the detector input.
pub open spec fn heartbeat_outcome(cfg: HeartbeatConfig, reading: Result<bool, SensorError>)
    -> HeartbeatOutcome {
    match reading {
        Ok(pin_is_low) => if leak_of_level(cfg.polarity, pin_is_low) {
            HeartbeatOutcome::LeakDetected
        } else {
            HeartbeatOutcome::NoLeak
        },
        Err(_) => HeartbeatOutcome::SensorFailed,
    }
}

/// The facts after a heartbeat: a reading replaces the leak fact, a failed
/// reading changes nothing.
pub open spec fn facts_after_heartbeat(
    facts: SensorFacts,
    cfg: HeartbeatConfig,
    reading: Result<bool, SensorError>,
) -> SensorFacts {
    match reading {
        Ok(pin_is_low) => SensorFacts {
            leak: leak_of_level(cfg.polarity, pin_is_low),
            device_count: facts.device_count,
        },
        Err(_) => facts,
    }
}

/// The pending queue after a heartbeat: a reading asks for the blinks that
/// the pattern gives for it, a failed reading for none.
pub open spec fn ready_after_heartbeat(
    ready: Seq<Activation>,
    cfg: HeartbeatConfig,
    reading: Result<bool, SensorError>,
) -> Seq<Activation> {
    match reading {
        Ok(pin_is_low) => ready.push(
            Activation {
                task: TaskId(BLINK),
                payload: Payload::Count(
                    if leak_of_level(cfg.polarity, pin_is_low) {
                        cfg.pattern.problem
                    } else {
                        cfg.pattern.normal
                    },
                ),
            },
        ),
        Err(_) => ready,
    }
}

/// One run of the heartbeat, given the reading of the leak-detector input:
/// `Ok(true)` for a low input, `Ok(false)` for a high one, `Err` where the
/// input could not be read. A reading updates the leak fact and asks for
/// the blinks that signal it; a failed reading leaves the facts, and with
/// them the status, as they were. Either way the heartbeat re-arms itself
/// as the task table says. Where it cannot, nothing is changed.
pub fn heartbeat(
    sched: &mut Scheduler,
    agg: &mut StatusAggregator,
    cfg: &HeartbeatConfig,
    reading: Result<bool, SensorError>,
) -> (r: Result<HeartbeatOutcome, SpawnError>)
    requires
        old(sched).wf(),
        cfg.wf(),
    ensures
        final(sched).wf(),
        match rearm_result(old(sched)@, TaskId(HEARTBEAT)) {
            Ok(_) => {
                &&& r == Ok::<HeartbeatOutcome, SpawnError>(heartbeat_outcome(*cfg, reading))
                &&& final(agg)@ == facts_after_heartbeat(old(agg)@, *cfg, reading)
                &&& final(sched)@ == (SchedulerView {
                    ready: ready_after_heartbeat(old(sched)@.ready, *cfg, reading),
                    ..rearmed(old(sched)@, TaskId(HEARTBEAT))
                })
            },
            Err(e) => {
                &&& r == Err::<HeartbeatOutcome, SpawnError>(e)
                &&& final(agg)@ == old(agg)@
                &&& final(sched)@ == old(sched)@
            },
        },
{
    match sched.rearm(TaskId(HEARTBEAT)) {
        Err(e) => {
            return Err(e);
        },
        Ok(_) => {},
    }
    match reading {
        Ok(pin_is_low) => {
            let leak = leak_from_level(cfg.polarity, pin_is_low);
            agg.record_leak(Ok(leak));
            let count = if leak {
                cfg.pattern.problem
            } else {
                cfg.pattern.normal
            };
            let spawned = sched.spawn(TaskId(BLINK), Payload::Count(count));
            assert(spawned is Ok);
            if leak {
                Ok(HeartbeatOutcome::LeakDetected)
            } else {
                Ok(HeartbeatOutcome::NoLeak)
            }
        },
        Err(_) => Ok(HeartbeatOutcome::SensorFailed),
    }
}

/// One run of the sensor poll. Says whether the accelerometer is to be read
/// (under its lock): it is unless it is absent, in which case the run does
/// nothing. Either way the poll re-arms itself as the task table says.
/// Where it cannot, nothing is changed.
pub fn update_imu(sched: &mut Scheduler, accel_present: bool) -> (r: Result<bool, SpawnError>)
    requires
        old(sched).wf(),
    ensures
        final(sched).wf(),
        match rearm_result(old(sched)@, TaskId(UPDATE_IMU)) {
            Ok(_) => r == Ok::<bool, SpawnError>(accel_present) && final(sched)@ == rearmed(
                old(sched)@,
                TaskId(UPDATE_IMU),
            ),
            Err(e) => r == Err::<bool, SpawnError>(e) && final(sched)@ == old(sched)@,
        },
{
    match sched.rearm(TaskId(UPDATE_IMU)) {
        Ok(_) => Ok(accel_present),
        Err(e) => Err(e),
    }
}

/// One run of the display update. Returns the cycle that draws the frame
/// for the facts as they stand, to be performed under the display's lock,
/// or `None` where the display is absent and the run does nothing. Either
/// way the update re-arms itself as the task table says. Where it cannot,
/// nothing is changed.
pub fn update_oled(sched: &mut Scheduler, agg: &StatusAggregator, display_present: bool) -> (r:
    Result<Option<RenderCycle>, SpawnError>)
    requires
        old(sched).wf(),
    ensures
        final(sched).wf(),
        match rearm_result(old(sched)@, TaskId(UPDATE_OLED)) {
            Ok(_) => {
                &&& final(sched)@ == rearmed(old(sched)@, TaskId(UPDATE_OLED))
                &&& r is Ok
                &&& display_present ==> r->Ok_0 is Some && r->Ok_0->Some_0.wf() && r->Ok_0->Some_0@
                    == (RenderCycleView {
                    frame: frame_of(
                        status_of(agg@.leak, agg@.device_count),
                        agg@.device_count,
                        agg@.leak,
                    ),
                    step: 0,
                    failures: 0,
                })
                &&& !display_present ==> r->Ok_0 is None
            },
            Err(e) => r == Err::<Option<RenderCycle>, SpawnError>(e) && final(sched)@ == old(
                sched,
            )@,
        },
{
    match sched.rearm(TaskId(UPDATE_OLED)) {
        Err(e) => {
            return Err(e);
        },
        Ok(_) => {},
    }
    if !display_present {
        return Ok(None);
    }
    let facts = agg.facts();
    let frame = render(agg.status(), facts.device_count, facts.leak);
    Ok(Some(RenderCycle::begin(frame)))
}

/// The standard task table. Every task runs at priority 1: the tasks take
/// turns and none preempts another.
pub open spec fn standard_tasks() -> Seq<TaskSpec> {
    seq![
        TaskSpec { priority: 1, rearm: RearmPolicy::OneShot },
        TaskSpec { priority: 1, rearm: RearmPolicy::Periodic(HEARTBEAT_PERIOD) },
        TaskSpec { priority: 1, rearm: RearmPolicy::Periodic(IMU_PERIOD) },
        TaskSpec { priority: 1, rearm: RearmPolicy::Periodic(OLED_PERIOD) },
        TaskSpec { priority: 1, rearm: RearmPolicy::OneShot },
    ]
}

/// The standard resource-ownership table: the display belongs to the
/// display update, the accelerometer to the sensor poll.
pub open spec fn standard_accesses() -> Seq<Access> {
    seq![
        Access { task: TaskId(UPDATE_OLED), resource: ResourceId(DISPLAY) },
        Access { task: TaskId(UPDATE_IMU), resource: ResourceId(ACCEL) },
    ]
}

/// The delayed activations at start: display update, heartbeat, log write.
pub open spec fn initial_timers() -> Seq<TimerEntry> {
    seq![
        TimerEntry { due: OLED_START, task: TaskId(UPDATE_OLED), payload: Payload::Empty },
        TimerEntry { due: HEARTBEAT_START, task: TaskId(HEARTBEAT), payload: Payload::Empty },
        TimerEntry { due: LOG_START, task: TaskId(TEST_LOG), payload: Payload::Empty },
    ]
}

/// The activations that are pending at start: the start blinks and the
/// first sensor poll.
pub open spec fn initial_ready() -> Seq<Activation> {
    seq![
        Activation { task: TaskId(BLINK), payload: Payload::Count(START_BLINKS) },
        Activation { task: TaskId(UPDATE_IMU), payload: Payload::Empty },
    ]
}

/// Sets up the scheduler for the standard task set: the task and resource
/// tables, both ceilings at priority 1, the clock at zero, nothing running
/// and nothing held. The start blinks and the first sensor poll are pending
/// at once; the display update, the heartbeat and the log write wait in the
/// timer queue for their start delays.
pub fn init() -> (sched: Scheduler)
    ensures
        sched.wf(),
        sched@.tasks == standard_tasks(),
        sched@.accesses == standard_accesses(),
        sched@.ceilings == seq![1u8, 1u8],
        sched@.ready == initial_ready(),
        sched@.running.len() == 0,
        sched@.held.len() == 0,
        sched@.level == 0,
        sched@.timers.now == 0,
        sched@.timers.entries == initial_timers(),
{
    let mut tasks: Vec<TaskSpec> = Vec::new();
    tasks.push(TaskSpec { priority: 1, rearm: RearmPolicy::OneShot });
    tasks.push(TaskSpec { priority: 1, rearm: RearmPolicy::Periodic(HEARTBEAT_PERIOD) });
    tasks.push(TaskSpec { priority: 1, rearm: RearmPolicy::Periodic(IMU_PERIOD) });
    tasks.push(TaskSpec { priority: 1, rearm: RearmPolicy::Periodic(OLED_PERIOD) });
    tasks.push(TaskSpec { priority: 1, rearm: RearmPolicy::OneShot });
    let mut accesses: Vec<Access> = Vec::new();
    accesses.push(Access { task: TaskId(UPDATE_OLED), resource: ResourceId(DISPLAY) });
    accesses.push(Access { task: TaskId(UPDATE_IMU), resource: ResourceId(ACCEL) });
    proof {
        assert(tasks@ =~= standard_tasks());
        assert(accesses@ =~= standard_accesses());
        assert(config_fault(tasks@, accesses@, 2) is None);
    }
    match Scheduler::new(tasks, accesses, 2) {
        Ok(mut sched) => {
            proof {
                let v = sched@;
                assert(v.accesses[0].resource.0 == 0);
                assert(v.accesses[1].resource.0 == 1);
                assert(is_ceiling(v.tasks, v.accesses, 0, v.ceilings[0]));
                assert(is_ceiling(v.tasks, v.accesses, 1, v.ceilings[1]));
                assert(v.ceilings =~= seq![1u8, 1u8]);
                assert(v.ready =~= Seq::<Activation>::empty());
                assert(v.timers.entries =~= Seq::<TimerEntry>::empty());
            }
            let blinks = sched.spawn(TaskId(BLINK), Payload::Count(START_BLINKS));
            let poll = sched.spawn(TaskId(UPDATE_IMU), Payload::Empty);
            assert(blinks is Ok && poll is Ok);
            proof {
                assert(sched@.ready =~= initial_ready());
                lemma_due_prefix_at(sched@.timers.entries, OLED_START, 0);
            }
            let oled = sched.spawn_after(TaskId(UPDATE_OLED), OLED_START, Payload::Empty);
            proof {
                lemma_due_prefix_at(sched@.timers.entries, HEARTBEAT_START, 1);
            }
            let beat = sched.spawn_after(TaskId(HEARTBEAT), HEARTBEAT_START, Payload::Empty);
            proof {
                lemma_due_prefix_at(sched@.timers.entries, LOG_START, 2);
            }
            let log = sched.spawn_after(TaskId(TEST_LOG), LOG_START, Payload::Empty);
            assert(oled is Ok && beat is Ok && log is Ok);
            proof {
                assert(sched@.timers.entries =~= initial_timers());
            }
            sched
        },
        Err(_) => vstd::pervasive::unreached(),
    }
}

} // verus!
