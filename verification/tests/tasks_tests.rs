use leak_monitor::display::{FrameItem, RenderAction};
use leak_monitor::logger::{log_record, test_log, LogAction, LogStage, LoggerState, OpenMode};
use leak_monitor::scheduler::{Scheduler, SpawnError};
use leak_monitor::status::{LeakPolarity, SensorError, StatusAggregator, SystemStatus};
use leak_monitor::task::{
    Activation, Payload, RearmPolicy, ResourceId, TaskId, TaskSpec, TaskState,
};
use leak_monitor::tasks::{
    blink, blink_count, heartbeat, init, kind_of, update_imu, update_oled, BlinkPattern,
    HeartbeatConfig, HeartbeatOutcome, LedLevel, TaskKind, ACCEL, BLINK, DISPLAY, HEARTBEAT,
    TEST_LOG, UPDATE_IMU, UPDATE_OLED,
};

fn run_until_quiet(sched: &mut Scheduler, led_is_low: &mut bool, toggles: &mut Vec<LedLevel>) {
    let mut now = sched.now();
    loop {
        while let Some(a) = sched.dispatch() {
            if a.task == TaskId(BLINK) {
                let n = match a.payload {
                    Payload::Count(n) => n,
                    Payload::Empty => 0,
                };
                if let Some(level) = blink(sched, n, *led_is_low).unwrap() {
                    *led_is_low = level == LedLevel::Low;
                    toggles.push(level);
                }
            }
            sched.complete().unwrap();
        }
        match sched.next_due() {
            Some(due) => {
                now = due;
                sched.tick(now);
            }
            None => break,
        }
    }
}

fn empty_scheduler() -> Scheduler {
    Scheduler::new(vec![TaskSpec { priority: 1, rearm: RearmPolicy::OneShot }], vec![], 0).unwrap()
}

#[test]
fn blink_two_toggles_four_times_and_stops() {
    let mut sched = empty_scheduler();
    let mut led_is_low = true;
    let mut toggles = Vec::new();
    sched.spawn(TaskId(BLINK), Payload::Count(2)).unwrap();
    run_until_quiet(&mut sched, &mut led_is_low, &mut toggles);
    assert_eq!(
        toggles,
        vec![LedLevel::High, LedLevel::Low, LedLevel::High, LedLevel::Low]
    );
    assert!(led_is_low);
    assert_eq!(sched.timer_count(), 0);
    assert_eq!(sched.pending_count(), 0);
    assert_eq!(sched.state(TaskId(BLINK)), TaskState::Idle);
    assert_eq!(sched.now(), 4 * 120);
}

#[test]
fn blink_n_toggles_two_n_times() {
    for n in [0u8, 1, 5, 17] {
        let mut sched = empty_scheduler();
        let mut led_is_low = true;
        let mut toggles = Vec::new();
        sched.spawn(TaskId(BLINK), Payload::Count(n)).unwrap();
        run_until_quiet(&mut sched, &mut led_is_low, &mut toggles);
        assert_eq!(toggles.len(), 2 * n as usize);
        assert!(led_is_low);
        for (i, level) in toggles.iter().enumerate() {
            assert_eq!(*level, if i % 2 == 0 { LedLevel::High } else { LedLevel::Low });
        }
    }
}

#[test]
fn blink_steps() {
    let mut sched = empty_scheduler();
    sched.tick(1000);
    assert_eq!(blink(&mut sched, 0, true), Ok(None));
    assert_eq!(blink(&mut sched, 0, false), Ok(None));
    assert_eq!(sched.timer_count(), 0);

    assert_eq!(blink(&mut sched, 3, true), Ok(Some(LedLevel::High)));
    assert_eq!(sched.next_due(), Some(1120));
    assert_eq!(sched.tick(1120), 1);
    assert_eq!(
        sched.dispatch(),
        Some(Activation { task: TaskId(BLINK), payload: Payload::Count(3) })
    );
    assert_eq!(blink(&mut sched, 3, false), Ok(Some(LedLevel::Low)));
    sched.complete().unwrap();
    assert_eq!(sched.tick(1240), 1);
    assert_eq!(
        sched.dispatch(),
        Some(Activation { task: TaskId(BLINK), payload: Payload::Count(2) })
    );
}

#[test]
fn blink_leaves_the_led_alone_when_it_cannot_rearm() {
    let mut sched = empty_scheduler();
    sched.tick(u64::MAX - 100);
    assert_eq!(blink(&mut sched, 2, true), Err(SpawnError::ClockOverflow));
    assert_eq!(sched.timer_count(), 0);
}

#[test]
fn init_spawns_the_standard_tasks() {
    let mut sched = init();
    assert_eq!(sched.task_count(), 5);
    assert_eq!(sched.ceiling(ResourceId(DISPLAY)), Some(1));
    assert_eq!(sched.ceiling(ResourceId(ACCEL)), Some(1));
    assert_eq!(sched.ceiling(ResourceId(2)), None);
    assert_eq!(sched.now(), 0);
    assert_eq!(sched.level(), 0);
    assert_eq!(sched.pending_count(), 2);
    assert_eq!(sched.timer_count(), 3);
    assert_eq!(sched.state(TaskId(BLINK)), TaskState::Pending);
    assert_eq!(sched.state(TaskId(UPDATE_IMU)), TaskState::Pending);
    assert_eq!(sched.state(TaskId(UPDATE_OLED)), TaskState::Idle);

    assert_eq!(
        sched.dispatch(),
        Some(Activation { task: TaskId(BLINK), payload: Payload::Count(5) })
    );
    sched.complete().unwrap();
    assert_eq!(
        sched.dispatch(),
        Some(Activation { task: TaskId(UPDATE_IMU), payload: Payload::Empty })
    );
    sched.complete().unwrap();
    assert_eq!(sched.dispatch(), None);

    assert_eq!(sched.next_due(), Some(2000));
    assert_eq!(sched.tick(1999), 0);
    assert_eq!(sched.tick(2000), 1);
    assert_eq!(
        sched.dispatch(),
        Some(Activation { task: TaskId(UPDATE_OLED), payload: Payload::Empty })
    );
    sched.complete().unwrap();
    assert_eq!(sched.next_due(), Some(3000));
    assert_eq!(sched.tick(3100), 1);
    assert_eq!(
        sched.dispatch(),
        Some(Activation { task: TaskId(HEARTBEAT), payload: Payload::Empty })
    );
    sched.complete().unwrap();
    assert_eq!(sched.next_due(), Some(3200));
    assert_eq!(sched.tick(3200), 1);
    assert_eq!(
        sched.dispatch(),
        Some(Activation { task: TaskId(TEST_LOG), payload: Payload::Empty })
    );
}

#[test]
fn heartbeat_reports_a_leak_with_more_blinks() {
    let cfg = HeartbeatConfig::standard();
    assert_eq!(cfg.polarity, LeakPolarity::ActiveHigh);
    assert_eq!(cfg.pattern, BlinkPattern { normal: 1, problem: 2 });

    let mut sched = init();
    while sched.dispatch().is_some() {
        sched.complete().unwrap();
    }
    sched.tick(5000);
    while sched.dispatch().is_some() {
        sched.complete().unwrap();
    }
    let mut agg = StatusAggregator::new();
    agg.record_device_count(3);

    assert_eq!(heartbeat(&mut sched, &mut agg, &cfg, Ok(true)), Ok(HeartbeatOutcome::NoLeak));
    assert_eq!(agg.status(), SystemStatus::Nominal);
    assert_eq!(
        sched.dispatch(),
        Some(Activation { task: TaskId(BLINK), payload: Payload::Count(1) })
    );
    sched.complete().unwrap();
    assert_eq!(sched.next_due(), Some(6000));

    assert_eq!(
        heartbeat(&mut sched, &mut agg, &cfg, Ok(false)),
        Ok(HeartbeatOutcome::LeakDetected)
    );
    assert_eq!(agg.status(), SystemStatus::Critical);
    assert_eq!(
        sched.dispatch(),
        Some(Activation { task: TaskId(BLINK), payload: Payload::Count(2) })
    );
    sched.complete().unwrap();
    assert_eq!(sched.timer_count(), 2);
}

#[test]
fn heartbeat_keeps_the_status_when_the_sensor_fails() {
    let cfg = HeartbeatConfig::standard();
    let mut sched = init();
    while sched.dispatch().is_some() {
        sched.complete().unwrap();
    }
    let mut agg = StatusAggregator::new();
    agg.record_device_count(1);
    agg.record_leak(Ok(true));
    let timers = sched.timer_count();
    assert_eq!(
        heartbeat(&mut sched, &mut agg, &cfg, Err(SensorError::ReadFailed)),
        Ok(HeartbeatOutcome::SensorFailed)
    );
    assert_eq!(agg.status(), SystemStatus::Critical);
    assert_eq!(sched.pending_count(), 0);
    assert_eq!(sched.timer_count(), timers + 1);
}

#[test]
fn heartbeat_with_an_active_low_detector() {
    let cfg = HeartbeatConfig {
        polarity: LeakPolarity::ActiveLow,
        pattern: BlinkPattern { normal: 2, problem: 7 },
    };
    let mut sched = init();
    while sched.dispatch().is_some() {
        sched.complete().unwrap();
    }
    let mut agg = StatusAggregator::new();
    assert_eq!(
        heartbeat(&mut sched, &mut agg, &cfg, Ok(true)),
        Ok(HeartbeatOutcome::LeakDetected)
    );
    assert_eq!(
        sched.dispatch(),
        Some(Activation { task: TaskId(BLINK), payload: Payload::Count(7) })
    );
    sched.complete().unwrap();
    assert_eq!(heartbeat(&mut sched, &mut agg, &cfg, Ok(false)), Ok(HeartbeatOutcome::NoLeak));
    assert_eq!(
        sched.dispatch(),
        Some(Activation { task: TaskId(BLINK), payload: Payload::Count(2) })
    );
}

#[test]
fn heartbeat_changes_nothing_when_it_cannot_rearm() {
    let cfg = HeartbeatConfig::standard();
    let mut sched = init();
    while sched.dispatch().is_some() {
        sched.complete().unwrap();
    }
    sched.tick(u64::MAX - 999);
    while sched.dispatch().is_some() {
        sched.complete().unwrap();
    }
    let mut agg = StatusAggregator::new();
    assert_eq!(
        heartbeat(&mut sched, &mut agg, &cfg, Ok(false)),
        Err(SpawnError::ClockOverflow)
    );
    assert!(!agg.facts().leak);
    assert_eq!(sched.pending_count(), 0);
    assert_eq!(sched.timer_count(), 0);

    let mut small = empty_scheduler();
    assert_eq!(
        heartbeat(&mut small, &mut agg, &cfg, Ok(false)),
        Err(SpawnError::UnknownTask)
    );
}

#[test]
fn sensor_poll_rearms_and_skips_an_absent_sensor() {
    let mut sched = init();
    sched.tick(10);
    let timers = sched.timer_count();
    assert_eq!(update_imu(&mut sched, true), Ok(true));
    assert_eq!(update_imu(&mut sched, false), Ok(false));
    assert_eq!(sched.timer_count(), timers + 2);
    assert_eq!(sched.next_due(), Some(1010));
    assert_eq!(sched.tick(1010), 2);
}

#[test]
fn display_update_draws_the_current_status() {
    let mut sched = init();
    let mut agg = StatusAggregator::new();
    agg.record_device_count(4);
    agg.record_leak(Ok(true));
    sched.tick(2000);
    let mut cycle = update_oled(&mut sched, &agg, true)
        .expect("the next run can be scheduled")
        .expect("the display is present");
    assert_eq!(sched.next_due(), Some(2050));
    let mut texts = Vec::new();
    while let Some(action) = cycle.next_action() {
        if let RenderAction::Draw(FrameItem::Text(region)) = action {
            texts.push(region.text);
        }
        cycle.record(true);
    }
    assert_eq!(
        texts,
        vec!["Status: ", "critical", "CAN devices: ", "4", "LEAK DETECTED!"]
    );
}

#[test]
fn display_update_without_a_display_only_rearms() {
    let mut sched = init();
    let agg = StatusAggregator::new();
    let timers = sched.timer_count();
    let cycle = update_oled(&mut sched, &agg, false).expect("the next run can be scheduled");
    assert!(cycle.is_none());
    assert_eq!(sched.timer_count(), timers + 1);
    assert_eq!(sched.next_due(), Some(50));
}

#[test]
fn logger_writes_the_record_and_is_done() {
    let mut state = test_log(true);
    let mut actions = Vec::new();
    while let Some(action) = state.action() {
        actions.push(action);
        state = state.advance(true);
    }
    assert_eq!(state, LoggerState::Done);
    assert_eq!(
        actions,
        vec![
            LogAction::OpenVolume(0),
            LogAction::OpenRootDir,
            LogAction::OpenFile("log.txt", OpenMode::CreateOrTruncate),
            LogAction::Append(b"test log data".to_vec()),
            LogAction::Close,
        ]
    );
    assert_eq!(log_record(), b"test log data".to_vec());
}

#[test]
fn logger_halts_at_the_first_failure() {
    let stages = [
        LogStage::OpenVolume,
        LogStage::OpenRootDir,
        LogStage::OpenFile,
        LogStage::Append,
        LogStage::Close,
    ];
    for (failing, stage) in stages.iter().enumerate() {
        let mut state = test_log(true);
        let mut performed = 0;
        while state.action().is_some() {
            state = state.advance(performed != failing);
            performed += 1;
        }
        assert_eq!(performed, failing + 1);
        assert_eq!(state, LoggerState::Halted(*stage));
        assert!(state.is_halted());
        assert_eq!(state.advance(true), LoggerState::Halted(*stage));
        assert_eq!(state.advance(false), LoggerState::Halted(*stage));
    }
}

#[test]
fn logger_without_storage_does_nothing() {
    let state = test_log(false);
    assert_eq!(state, LoggerState::Done);
    assert_eq!(state.action(), None);
    assert!(!state.is_halted());
    assert_eq!(state.advance(false), LoggerState::Done);
}

#[test]
fn a_halted_logger_leaves_the_scheduler_running() {
    let mut sched = init();
    let mut state = test_log(true);
    state = state.advance(false);
    assert!(state.is_halted());
    let before = sched.pending_count();
    assert!(sched.dispatch().is_some());
    assert_eq!(sched.pending_count(), before - 1);
    assert!(sched.complete().is_ok());
}

#[test]
fn standard_rows_name_the_standard_tasks() {
    assert_eq!(kind_of(TaskId(0)), Some(TaskKind::Blink));
    assert_eq!(kind_of(TaskId(1)), Some(TaskKind::Heartbeat));
    assert_eq!(kind_of(TaskId(2)), Some(TaskKind::SensorPoll));
    assert_eq!(kind_of(TaskId(3)), Some(TaskKind::DisplayUpdate));
    assert_eq!(kind_of(TaskId(4)), Some(TaskKind::Logger));
    assert_eq!(kind_of(TaskId(5)), None);
    assert_eq!(kind_of(TaskId(usize::MAX)), None);
}

#[test]
fn blink_activation_carries_its_count() {
    assert_eq!(blink_count(Payload::Count(5)), 5);
    assert_eq!(blink_count(Payload::Count(0)), 0);
    assert_eq!(blink_count(Payload::Empty), 0);
}
