use executor::accounting::ExecResult;
use executor::outer::{Action, Event, ExecError, Execution, Phase};
use executor::protocol::{encode_i32_le, status_code, WaitOutcome};

fn run_to_status(tl: u64, pid: i32, supervisor: WaitOutcome, elapsed_us: u64) -> (Execution, Vec<Action>) {
    let (mut ex, first) = Execution::new(tl);
    let mut actions = vec![first];
    actions.push(ex.step(Event::PidRead(encode_i32_le(pid))));
    actions.push(ex.step(Event::StartRead { got_byte: true }));
    actions.push(ex.step(Event::SupervisorExited { outcome: supervisor, elapsed_us }));
    actions.push(ex.step(Event::TempRemoved));
    (ex, actions)
}

#[test]
fn successful_run_reports_result() {
    let (mut ex, actions) = run_to_status(2_000_000, 7, WaitOutcome::Exited(0), 15_000);
    assert_eq!(
        actions,
        vec![
            Action::ReadPid,
            Action::ReadStart,
            Action::StartWatchdog { pid: 7, delay_us: 2_200_000 },
            Action::RemoveTemp,
            Action::ReadStatus,
        ]
    );
    let inner = status_code(WaitOutcome::Exited(0)).unwrap();
    assert_eq!(ex.step(Event::StatusRead(encode_i32_le(inner))), Action::ReadMemory);
    let done = ex.step(Event::MemoryRead { text: b"3000000\n".to_vec(), watchdog_fired: false });
    assert_eq!(done, Action::Finish(ExecResult { status: 0, time_us: 15_000, memory: 3_000_000, tle: false }));
    assert_eq!(ex.phase, Phase::Done);
    assert!(ex.removed);
}

#[test]
fn runtime_error_is_reported_in_band() {
    let (mut ex, _) = run_to_status(3_600_000_000, 1, WaitOutcome::Exited(0), 2_000);
    ex.step(Event::StatusRead(encode_i32_le(status_code(WaitOutcome::Exited(1)).unwrap())));
    let done = ex.step(Event::MemoryRead { text: b"100\n".to_vec(), watchdog_fired: false });
    assert_eq!(done, Action::Finish(ExecResult { status: 1, time_us: 2_000, memory: 100, tle: false }));
}

#[test]
fn time_limit_kill_is_tle() {
    let (mut ex, _) = run_to_status(2_000_000, 1, WaitOutcome::Exited(0), 2_210_000);
    ex.step(Event::StatusRead(encode_i32_le(status_code(WaitOutcome::Signaled(9)).unwrap())));
    let done = ex.step(Event::MemoryRead { text: b"\n".to_vec(), watchdog_fired: true });
    match done {
        Action::Finish(r) => {
            assert!(r.tle);
            assert_ne!(r.status, 0);
            assert_eq!(r.time_us, 2_000_000);
            assert_eq!(r.memory, -1);
        }
        other => panic!("unexpected {:?}", other),
    }
}

#[test]
fn setup_failure_reaps_then_removes_then_fails() {
    let (mut ex, first) = Execution::new(1_000_000);
    assert_eq!(first, Action::ReadPid);
    assert_eq!(ex.step(Event::PidRead(vec![])), Action::WaitSupervisor);
    assert_eq!(ex.step(Event::SupervisorExited { outcome: WaitOutcome::Exited(1), elapsed_us: 0 }), Action::RemoveTemp);
    assert!(!ex.removed);
    assert_eq!(ex.step(Event::TempRemoved), Action::Fail(ExecError::SetupFailed));
    assert!(ex.removed);
}

#[test]
fn supervisor_failure_still_removes_sandbox() {
    let (ex, actions) = run_to_status(1_000_000, 3, WaitOutcome::Exited(1), 10);
    assert_eq!(actions[3], Action::RemoveTemp);
    assert_eq!(actions[4], Action::Fail(ExecError::SupervisorFailed));
    assert!(ex.removed);
}

#[test]
fn short_status_is_lost() {
    let (mut ex, _) = run_to_status(1_000_000, 3, WaitOutcome::Exited(0), 10);
    assert_eq!(ex.step(Event::StatusRead(vec![1, 2])), Action::Fail(ExecError::StatusLost));
}

#[test]
fn out_of_order_event_tears_down_first() {
    let (mut ex, _) = Execution::new(1_000_000);
    assert_eq!(ex.step(Event::TempRemoved), Action::WaitSupervisor);
    assert_eq!(ex.step(Event::SupervisorExited { outcome: WaitOutcome::Exited(0), elapsed_us: 5 }), Action::RemoveTemp);
    assert_eq!(ex.step(Event::TempRemoved), Action::Fail(ExecError::OutOfOrder));
    assert_eq!(ex.step(Event::StartRead { got_byte: true }), Action::Fail(ExecError::OutOfOrder));
}

#[test]
fn missing_binary_reports_status_one() {
    let (mut ex, _) = run_to_status(3_600_000_000, 1, WaitOutcome::Exited(0), 1_500);
    ex.step(Event::StatusRead(encode_i32_le(status_code(WaitOutcome::Exited(1)).unwrap())));
    match ex.step(Event::MemoryRead { text: b"512\n".to_vec(), watchdog_fired: false }) {
        Action::Finish(r) => {
            assert_eq!(r.status, 1);
            assert!(!r.tle);
            assert!(r.time_us <= 50_000);
        }
        other => panic!("unexpected {:?}", other),
    }
}

#[test]
fn fork_bomb_killed_by_watchdog() {
    let (mut ex, actions) = run_to_status(1_000_000, 1, WaitOutcome::Exited(0), 1_200_500);
    assert_eq!(actions[2], Action::StartWatchdog { pid: 1, delay_us: 1_200_000 });
    ex.step(Event::StatusRead(encode_i32_le(status_code(WaitOutcome::Signaled(9)).unwrap())));
    match ex.step(Event::MemoryRead { text: b"1073741824\n".to_vec(), watchdog_fired: true }) {
        Action::Finish(r) => {
            assert!(r.tle);
            assert_eq!(r.status, 137);
            assert_eq!(r.time_us, 1_000_000);
        }
        other => panic!("unexpected {:?}", other),
    }
}

#[test]
fn setup_failure_in_inner_is_an_error() {
    let (mut ex, _) = Execution::new(2_000_000);
    assert_eq!(ex.step(Event::PidRead(encode_i32_le(1))), Action::ReadStart);
    assert_eq!(ex.step(Event::StartRead { got_byte: false }), Action::WaitSupervisor);
    assert_eq!(ex.step(Event::SupervisorExited { outcome: WaitOutcome::Exited(0), elapsed_us: 0 }), Action::RemoveTemp);
    assert!(ex.reaped && !ex.removed);
    assert_eq!(ex.step(Event::TempRemoved), Action::Fail(ExecError::SetupFailed));
    assert!(ex.removed);
}

#[test]
fn failed_removal_is_reported() {
    let (mut ex, _) = Execution::new(2_000_000);
    ex.step(Event::PidRead(encode_i32_le(1)));
    ex.step(Event::StartRead { got_byte: true });
    assert_eq!(ex.step(Event::SupervisorExited { outcome: WaitOutcome::Exited(0), elapsed_us: 10 }), Action::RemoveTemp);
    assert_eq!(ex.step(Event::TempRemoveFailed), Action::Fail(ExecError::TeardownFailed));
    assert!(!ex.removed);
}
