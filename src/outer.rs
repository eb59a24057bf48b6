//! The outer process: reading the status pipe and the start barrier,
//! starting the watchdog, reaping the supervisor, tearing the sandbox down
//! and assembling the result, driven one event at a time.
use vstd::prelude::*;
use crate::accounting::{
    assemble_result, spec_exec_result, watchdog_delay_us, ExecResult, MAX_TIME_LIMIT_US,
    WATCHDOG_SLACK_US,
};
use crate::protocol::{
    decode_i32_le, lemma_i32_le_round_trip, spec_i32_from_le, spec_i32_le, spec_status_code,
    WaitOutcome,
};

verus! {

/// Why an execution produced no result.
#[derive(Clone, Copy, Debug, PartialEq, Eq, Structural)]
pub enum ExecError {
    /// Setup failed before the user command could start: either the status
    /// pipe closed before the inner pid arrived (the supervisor could not
    /// unshare or fork), or the start barrier closed without its byte (the
    /// inner process failed while building the sandbox, joining the group,
    /// entering the root or dropping privileges).
    SetupFailed,
    /// The supervisor did not exit normally with status 0.
    SupervisorFailed,
    /// The inner status did not arrive in full.
    StatusLost,
    /// An event arrived that does not fit the current phase.
    OutOfOrder,
    /// The sandbox directory could not be removed.
    TeardownFailed,
}

#[derive(Clone, Copy, Debug, PartialEq, Eq, Structural)]
pub enum Phase {
    AwaitPid,
    AwaitStart,
    AwaitSupervisor,
    /// Reaping the supervisor early; the error to report afterwards.
    Reaping(ExecError),
    /// Removing the sandbox; the error to report afterwards, if any.
    Removing(Option<ExecError>),
    AwaitStatus,
    AwaitMemory,
    Done,
}

/// What the outer process observed.
pub enum Event {
    /// Bytes read from the status pipe where the inner pid is expected.
    PidRead(Vec<u8>),
    /// The read of the start barrier returned, with its byte or at end of
    /// file; when the byte came, the clock starts now.
    StartRead { got_byte: bool },
    /// The supervisor was reaped, `elapsed_us` after the clock started.
    SupervisorExited { outcome: WaitOutcome, elapsed_us: u64 },
    /// The sandbox directory was removed.
    TempRemoved,
    /// Removing the sandbox directory failed.
    TempRemoveFailed,
    /// Bytes read from the status pipe where the inner status is expected.
    StatusRead(Vec<u8>),
    /// Contents of the peak-usage file (empty when unreadable), and whether
    /// the watchdog's kill succeeded.
    MemoryRead { text: Vec<u8>, watchdog_fired: bool },
}

/// What the outer process must do next.
#[derive(Clone, Copy, Debug, PartialEq, Eq, Structural)]
pub enum Action {
    ReadPid,
    ReadStart,
    /// Start the clock, then a watchdog that kills `pid` after `delay_us`
    /// unless it is already gone, then wait on the supervisor.
    StartWatchdog { pid: i32, delay_us: u64 },
    WaitSupervisor,
    RemoveTemp,
    ReadStatus,
    ReadMemory,
    Finish(ExecResult),
    Fail(ExecError),
}

/// State of the outer process for one execution.
#[derive(Clone, Copy, Debug, PartialEq, Eq, Structural)]
pub struct Execution {
    pub phase: Phase,
    pub time_limit_us: u64,
    pub pid: i32,
    pub status: i32,
    pub elapsed_us: u64,
    /// Whether the supervisor has been reaped.
    pub reaped: bool,
    /// Whether the sandbox directory has been removed.
    pub removed: bool,
}

impl Execution {
    pub open spec fn well_formed(&self) -> bool {
        &&& self.time_limit_us <= MAX_TIME_LIMIT_US
        &&& (self.removed ==> self.reaped)
        &&& (self.phase matches Phase::Removing(_) ==> self.reaped && !self.removed)
        &&& (self.phase matches Phase::AwaitStatus ==> self.removed)
        &&& (self.phase matches Phase::AwaitMemory ==> self.removed)
        &&& (self.phase matches Phase::AwaitPid ==> !self.reaped)
        &&& (self.phase matches Phase::AwaitStart ==> !self.reaped)
        &&& (self.phase matches Phase::AwaitSupervisor ==> !self.reaped)
        &&& (self.phase matches Phase::Reaping(_) ==> !self.reaped)
    }

    /// The state before anything was observed.
    pub open spec fn spec_initial(time_limit_us: u64) -> Execution {
        Execution {
            phase: Phase::AwaitPid,
            time_limit_us,
            pid: 0,
            status: 0,
            elapsed_us: 0,
            reaped: false,
            removed: false,
        }
    }

    /// Starts an execution with the given limit; the first action is to
    /// read the inner pid.
    pub fn new(time_limit_us: u64) -> (r: (Execution, Action))
        requires
            time_limit_us <= MAX_TIME_LIMIT_US,
        ensures
            r.0.well_formed(),
            r.0 == Self::spec_initial(time_limit_us),
            r.1 == Action::ReadPid,
    {
        (
            Execution {
                phase: Phase::AwaitPid,
                time_limit_us,
                pid: 0,
                status: 0,
                elapsed_us: 0,
                reaped: false,
                removed: false,
            },
            Action::ReadPid,
        )
    }

    /// The transition taken on `e` from `s`.
    pub open spec fn spec_step(s: Execution, e: Event) -> (Execution, Action) {
        match (s.phase, e) {
            (Phase::AwaitPid, Event::PidRead(b)) => if b@.len() == 4 {
                (
                    Execution { phase: Phase::AwaitStart, pid: spec_i32_from_le(b@), ..s },
                    Action::ReadStart,
                )
            } else {
                (
                    Execution { phase: Phase::Reaping(ExecError::SetupFailed), ..s },
                    Action::WaitSupervisor,
                )
            },
            (Phase::AwaitStart, Event::StartRead { got_byte }) => if got_byte {
                (
                    Execution { phase: Phase::AwaitSupervisor, ..s },
                    Action::StartWatchdog {
                        pid: s.pid,
                        delay_us: (s.time_limit_us + WATCHDOG_SLACK_US) as u64,
                    },
                )
            } else {
                (
                    Execution { phase: Phase::Reaping(ExecError::SetupFailed), ..s },
                    Action::WaitSupervisor,
                )
            },
            (Phase::AwaitSupervisor, Event::SupervisorExited { outcome, elapsed_us }) => (
                Execution {
                    phase: Phase::Removing(
                        if outcome == WaitOutcome::Exited(0) {
                            None
                        } else {
                            Some(ExecError::SupervisorFailed)
                        },
                    ),
                    elapsed_us,
                    reaped: true,
                    ..s
                },
                Action::RemoveTemp,
            ),
            (Phase::Reaping(err), Event::SupervisorExited { .. }) => (
                Execution { phase: Phase::Removing(Some(err)), reaped: true, ..s },
                Action::RemoveTemp,
            ),
            (Phase::Removing(pending), Event::TempRemoved) => match pending {
                Some(err) => (Execution { phase: Phase::Done, removed: true, ..s }, Action::Fail(err)),
                None => (
                    Execution { phase: Phase::AwaitStatus, removed: true, ..s },
                    Action::ReadStatus,
                ),
            },
            (Phase::Removing(_), Event::TempRemoveFailed) => (
                Execution { phase: Phase::Done, ..s },
                Action::Fail(ExecError::TeardownFailed),
            ),
            (Phase::AwaitStatus, Event::StatusRead(b)) => if b@.len() == 4 {
                (
                    Execution { phase: Phase::AwaitMemory, status: spec_i32_from_le(b@), ..s },
                    Action::ReadMemory,
                )
            } else {
                (Execution { phase: Phase::Done, ..s }, Action::Fail(ExecError::StatusLost))
            },
            (Phase::AwaitMemory, Event::MemoryRead { text, watchdog_fired }) => (
                Execution { phase: Phase::Done, ..s },
                Action::Finish(
                    spec_exec_result(s.status, s.elapsed_us, s.time_limit_us, watchdog_fired, text@),
                ),
            ),
            _ => Self::spec_out_of_order(s),
        }
    }

    /// An event that does not fit: the sandbox is still torn down (once
    /// the supervisor is reaped) before the failure is reported.
    pub open spec fn spec_out_of_order(s: Execution) -> (Execution, Action) {
        if s.removed {
            (Execution { phase: Phase::Done, ..s }, Action::Fail(ExecError::OutOfOrder))
        } else if s.reaped {
            (
                Execution { phase: Phase::Removing(Some(ExecError::OutOfOrder)), ..s },
                Action::RemoveTemp,
            )
        } else {
            (
                Execution { phase: Phase::Reaping(ExecError::OutOfOrder), ..s },
                Action::WaitSupervisor,
            )
        }
    }

    fn out_of_order(&mut self) -> (r: Action)
        requires
            old(self).well_formed(),
        ensures
            (*final(self), r) == Self::spec_out_of_order(*old(self)),
    {
        if self.removed {
            self.phase = Phase::Done;
            Action::Fail(ExecError::OutOfOrder)
        } else if self.reaped {
            self.phase = Phase::Removing(Some(ExecError::OutOfOrder));
            Action::RemoveTemp
        } else {
            self.phase = Phase::Reaping(ExecError::OutOfOrder);
            Action::WaitSupervisor
        }
    }

    /// Takes the transition on `e` and returns the next action.
    pub fn step(&mut self, e: Event) -> (r: Action)
        requires
            old(self).well_formed(),
        ensures
            final(self).well_formed(),
            (*final(self), r) == Self::spec_step(*old(self), e),
    {
        match e {
            Event::PidRead(b) => {
                if self.phase != Phase::AwaitPid {
                    return self.out_of_order();
                }
                match decode_i32_le(b.as_slice()) {
                    Some(pid) => {
                        self.pid = pid;
                        self.phase = Phase::AwaitStart;
                        Action::ReadStart
                    },
                    None => {
                        self.phase = Phase::Reaping(ExecError::SetupFailed);
                        Action::WaitSupervisor
                    },
                }
            },
            Event::StartRead { got_byte } => {
                if self.phase != Phase::AwaitStart {
                    return self.out_of_order();
                }
                if got_byte {
                    self.phase = Phase::AwaitSupervisor;
                    Action::StartWatchdog {
                        pid: self.pid,
                        delay_us: watchdog_delay_us(self.time_limit_us),
                    }
                } else {
                    self.phase = Phase::Reaping(ExecError::SetupFailed);
                    Action::WaitSupervisor
                }
            },
            Event::SupervisorExited { outcome, elapsed_us } => {
                if self.phase == Phase::AwaitSupervisor {
                    self.elapsed_us = elapsed_us;
                    self.reaped = true;
                    self.phase = Phase::Removing(
                        if outcome == WaitOutcome::Exited(0) {
                            None
                        } else {
                            Some(ExecError::SupervisorFailed)
                        },
                    );
                    Action::RemoveTemp
                } else if let Phase::Reaping(err) = self.phase {
                    self.reaped = true;
                    self.phase = Phase::Removing(Some(err));
                    Action::RemoveTemp
                } else {
                    self.out_of_order()
                }
            },
            Event::TempRemoved => {
                match self.phase {
                    Phase::Removing(pending) => {
                        self.removed = true;
                        match pending {
                            Some(err) => {
                                self.phase = Phase::Done;
                                Action::Fail(err)
                            },
                            None => {
                                self.phase = Phase::AwaitStatus;
                                Action::ReadStatus
                            },
                        }
                    },
                    _ => self.out_of_order(),
                }
            },
            Event::TempRemoveFailed => {
                match self.phase {
                    Phase::Removing(_) => {
                        self.phase = Phase::Done;
                        Action::Fail(ExecError::TeardownFailed)
                    },
                    _ => self.out_of_order(),
                }
            },
            Event::StatusRead(b) => {
                if self.phase != Phase::AwaitStatus {
                    return self.out_of_order();
                }
                match decode_i32_le(b.as_slice()) {
                    Some(status) => {
                        self.status = status;
                        self.phase = Phase::AwaitMemory;
                        Action::ReadMemory
                    },
                    None => {
                        self.phase = Phase::Done;
                        Action::Fail(ExecError::StatusLost)
                    },
                }
            },
            Event::MemoryRead { text, watchdog_fired } => {
                if self.phase != Phase::AwaitMemory {
                    return self.out_of_order();
                }
                self.phase = Phase::Done;
                Action::Finish(
                    assemble_result(
                        self.status,
                        self.elapsed_us,
                        self.time_limit_us,
                        watchdog_fired,
                        text.as_slice(),
                    ),
                )
            },
        }
    }
}

/// The sandbox outlives no execution: whatever event arrives, a result is
/// reported only once the sandbox directory has been removed, and so is a
/// failure, unless the failure is that the removal itself failed; removal
/// is asked for only once the supervisor has been reaped, so no process of
/// the sandbox can still hold its mounts.
pub proof fn lemma_teardown_before_report(s: Execution, e: Event)
    requires
        s.well_formed(),
    ensures
        Execution::spec_step(s, e).1 is Finish ==> Execution::spec_step(s, e).0.removed,
        Execution::spec_step(s, e).1 matches Action::Fail(err) ==> Execution::spec_step(s, e).0.removed
            || (err == ExecError::TeardownFailed && e is TempRemoveFailed),
        Execution::spec_step(s, e).1 is RemoveTemp ==> Execution::spec_step(s, e).0.reaped,
        s.removed ==> Execution::spec_step(s, e).0.removed,
{
}

/// A command that exits with status `s` within the limit, without the
/// watchdog firing, is reported with status `s` and the TLE flag clear:
/// through the supervisor's status report, the pipe, teardown and result
/// assembly.
pub proof fn lemma_prompt_exit_run(
    time_limit_us: u64,
    pid: i32,
    s: i32,
    elapsed_us: u64,
    pid_bytes: Vec<u8>,
    status_bytes: Vec<u8>,
    memory_text: Vec<u8>,
)
    requires
        time_limit_us <= MAX_TIME_LIMIT_US,
        elapsed_us <= time_limit_us,
        pid_bytes@ == spec_i32_le(pid),
        spec_status_code(WaitOutcome::Exited(s)) matches Some(code) && status_bytes@ == spec_i32_le(
            code,
        ),
    ensures
        ({
            let e1 = Execution::spec_step(Execution::spec_initial(time_limit_us), Event::PidRead(pid_bytes)).0;
            let e2 = Execution::spec_step(e1, Event::StartRead { got_byte: true }).0;
            let e3 = Execution::spec_step(
                e2,
                Event::SupervisorExited { outcome: WaitOutcome::Exited(0), elapsed_us },
            ).0;
            let e4 = Execution::spec_step(e3, Event::TempRemoved).0;
            let e5 = Execution::spec_step(e4, Event::StatusRead(status_bytes)).0;
            let a6 = Execution::spec_step(
                e5,
                Event::MemoryRead { text: memory_text, watchdog_fired: false },
            ).1;
            &&& a6 matches Action::Finish(r) && r.status == s && !r.tle && r.time_us == elapsed_us
        }),
{
    lemma_i32_le_round_trip(pid);
    lemma_i32_le_round_trip(s);
}

/// A command that runs past the limit is reported with the TLE flag set
/// and the limit as its time, whatever status it ended with and
/// whether or not the watchdog's kill got there first; and the watchdog
/// is armed to kill it less than a second after the limit.
pub proof fn lemma_overrun_run(
    time_limit_us: u64,
    pid: i32,
    elapsed_us: u64,
    pid_bytes: Vec<u8>,
    status_bytes: Vec<u8>,
    memory_text: Vec<u8>,
    watchdog_fired: bool,
)
    requires
        time_limit_us <= MAX_TIME_LIMIT_US,
        elapsed_us > time_limit_us,
        pid_bytes@ == spec_i32_le(pid),
        status_bytes@.len() == 4,
    ensures
        ({
            let (e1, a1) = Execution::spec_step(Execution::spec_initial(time_limit_us), Event::PidRead(pid_bytes));
            let (e2, a2) = Execution::spec_step(e1, Event::StartRead { got_byte: true });
            let e3 = Execution::spec_step(
                e2,
                Event::SupervisorExited { outcome: WaitOutcome::Exited(0), elapsed_us },
            ).0;
            let e4 = Execution::spec_step(e3, Event::TempRemoved).0;
            let e5 = Execution::spec_step(e4, Event::StatusRead(status_bytes)).0;
            let a6 = Execution::spec_step(e5, Event::MemoryRead { text: memory_text, watchdog_fired }).1;
            &&& a2 matches Action::StartWatchdog { pid: p, delay_us } && p == pid && delay_us
                < time_limit_us + 1_000_000
            &&& a6 matches Action::Finish(r) && r.tle && r.time_us == time_limit_us
        }),
{
    lemma_i32_le_round_trip(pid);
}

/// When the start barrier closes without its byte, the inner process
/// failed during setup: whatever the supervisor's exit, the run ends in
/// `SetupFailed` and not in a result, and only after the supervisor was
/// reaped and the sandbox removed.
pub proof fn lemma_setup_failure_run(
    time_limit_us: u64,
    pid: i32,
    pid_bytes: Vec<u8>,
    outcome: WaitOutcome,
    elapsed_us: u64,
)
    requires
        time_limit_us <= MAX_TIME_LIMIT_US,
        pid_bytes@ == spec_i32_le(pid),
    ensures
        ({
            let e1 = Execution::spec_step(Execution::spec_initial(time_limit_us), Event::PidRead(pid_bytes)).0;
            let (e2, a2) = Execution::spec_step(e1, Event::StartRead { got_byte: false });
            let (e3, a3) = Execution::spec_step(e2, Event::SupervisorExited { outcome, elapsed_us });
            let (e4, a4) = Execution::spec_step(e3, Event::TempRemoved);
            &&& a2 == Action::WaitSupervisor
            &&& a3 == Action::RemoveTemp && e3.reaped
            &&& a4 == Action::Fail(ExecError::SetupFailed) && e4.removed
        }),
{
    lemma_i32_le_round_trip(pid);
}

} // verus!
