use pacmine::runner::{
    guard_step, ExitStatus, GuardAction, GuardEvent, GuardPhase, Runner, RunnerError, RunnerIds,
    POLL_INTERVAL_MS, STOP_COMMAND,
};
use pacmine::task::{
    loop_step, CoordinatorAction, CoordinatorEvent, LoopStep, SpawnError, TaskManager,
    TaskOutcome,
};

#[test]
fn second_stop_request_is_refused() {
    let mut r = Runner::new(1);
    assert_eq!(r.kill_with_timeout(0, 2000), Ok(GuardAction::SendStop));
    assert_eq!(
        r.kill_with_timeout(10, 2000),
        Err(RunnerError::StopAlreadyRequested)
    );
    assert_eq!(r.phase(), GuardPhase::Graceful { deadline: 2000 });
}

#[test]
fn stop_after_exit_reports_dropped_signal() {
    let mut r = Runner::new(2);
    assert_eq!(r.poll(100, true), GuardAction::Reap);
    assert_eq!(
        r.kill_with_timeout(200, 1000),
        Err(RunnerError::StopSignalDropped)
    );
    assert_eq!(
        r.kill_with_timeout(300, 1000),
        Err(RunnerError::StopAlreadyRequested)
    );
}

#[test]
fn child_ignoring_stop_is_killed_at_deadline() {
    let mut r = Runner::new(3);
    assert_eq!(r.kill_with_timeout(1000, 2000), Ok(GuardAction::SendStop));
    let mut now = 1000;
    while now < 3000 {
        assert_eq!(r.poll(now, false), GuardAction::Sleep);
        assert_eq!(r.wait(), None);
        now += POLL_INTERVAL_MS;
    }
    assert_eq!(r.poll(3000, false), GuardAction::Kill);
    assert_eq!(r.phase(), GuardPhase::Reaping);
    assert!(r.record_exit(ExitStatus { code: None }));
    assert_eq!(r.wait(), Some(ExitStatus { code: None }));
}

#[test]
fn child_obeying_stop_is_reaped() {
    let mut r = Runner::new(4);
    r.kill_with_timeout(0, 2000).unwrap();
    assert_eq!(r.poll(200, false), GuardAction::Sleep);
    assert_eq!(r.poll(400, true), GuardAction::Reap);
    assert!(r.record_exit(ExitStatus { code: Some(0) }));
    assert!(r.wait().unwrap().success());
}

#[test]
fn exit_status_is_recorded_once_and_read_many_times() {
    let mut r = Runner::new(5);
    assert!(!r.record_exit(ExitStatus { code: Some(1) }));
    assert_eq!(r.wait(), None);
    assert_eq!(r.poll(0, true), GuardAction::Reap);
    assert!(r.record_exit(ExitStatus { code: Some(3) }));
    assert!(!r.record_exit(ExitStatus { code: Some(4) }));
    assert_eq!(r.wait(), Some(ExitStatus { code: Some(3) }));
    assert_eq!(r.wait(), Some(ExitStatus { code: Some(3) }));
    assert!(!r.wait().unwrap().success());
    assert_eq!(r.id(), 5);
}

#[test]
fn guard_watches_until_exit() {
    assert_eq!(
        guard_step(GuardPhase::Watching, GuardEvent::Poll { now: 5, exited: false }),
        (GuardPhase::Watching, GuardAction::Sleep)
    );
    assert_eq!(
        guard_step(GuardPhase::Watching, GuardEvent::Poll { now: 5, exited: true }),
        (GuardPhase::Reaping, GuardAction::Reap)
    );
    assert_eq!(
        guard_step(
            GuardPhase::Reaping,
            GuardEvent::StopRequested { now: 5, timeout: 1 }
        ),
        (GuardPhase::Reaping, GuardAction::Ignore)
    );
}

#[test]
fn guard_deadline_saturates() {
    assert_eq!(
        guard_step(
            GuardPhase::Watching,
            GuardEvent::StopRequested { now: u64::MAX - 1, timeout: 10 }
        ),
        (GuardPhase::Graceful { deadline: u64::MAX }, GuardAction::SendStop)
    );
}

#[test]
fn stop_command_text() {
    assert_eq!(STOP_COMMAND, "stop");
}

#[test]
fn runner_ids_are_fresh() {
    let mut ids = RunnerIds::new();
    assert_eq!(ids.allocate(), Some(1));
    assert_eq!(ids.allocate(), Some(2));
    assert_eq!(ids.allocate(), Some(3));
}

#[test]
fn cancelled_loops_exit() {
    assert_eq!(loop_step(true, true), LoopStep::Exit);
    assert_eq!(loop_step(true, false), LoopStep::Exit);
    assert_eq!(loop_step(false, true), LoopStep::Work);
    assert_eq!(loop_step(false, false), LoopStep::Wait);
}

#[test]
fn coordinator_starts_and_reports_tasks() {
    let mut m = TaskManager::new();
    assert_eq!(m.spawn(), Ok(0));
    assert_eq!(m.spawn(), Ok(1));
    assert_eq!(
        m.coordinate(CoordinatorEvent::Submitted),
        CoordinatorAction::Start { id: 0 }
    );
    assert_eq!(
        m.coordinate(CoordinatorEvent::Submitted),
        CoordinatorAction::Start { id: 1 }
    );
    assert_eq!(
        m.coordinate(CoordinatorEvent::Submitted),
        CoordinatorAction::Idle
    );
    // a failing task is reported and nothing else changes
    assert_eq!(
        m.coordinate(CoordinatorEvent::Completed { id: 0, outcome: TaskOutcome::Failed }),
        CoordinatorAction::Report { id: 0, outcome: TaskOutcome::Failed }
    );
    assert!(!m.is_cancelled());
    assert_eq!(m.spawn(), Ok(2));
    assert_eq!(m.shutdown(), vec![2, 1]);
}

#[test]
fn shutdown_cancels_and_drains() {
    let mut m = TaskManager::new();
    m.spawn().unwrap();
    m.spawn().unwrap();
    m.coordinate(CoordinatorEvent::Submitted);
    let left = m.shutdown();
    assert_eq!(left, vec![1, 0]);
    assert!(m.is_cancelled());
    assert_eq!(m.spawn(), Err(SpawnError::ShuttingDown));
    assert_eq!(
        m.coordinate(CoordinatorEvent::Submitted),
        CoordinatorAction::Exit
    );
    assert_eq!(loop_step(m.is_cancelled(), true), LoopStep::Exit);
    assert_eq!(m.shutdown(), Vec::<u64>::new());
}

#[test]
fn cancellation_event_ends_coordinator() {
    let mut m = TaskManager::new();
    assert_eq!(
        m.coordinate(CoordinatorEvent::Cancelled),
        CoordinatorAction::Exit
    );
}
