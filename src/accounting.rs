//! Time, memory and time-limit accounting of one execution, and the record
//! that reports it.
use vstd::prelude::*;
use crate::decimal::{parse_decimal, spec_parse_decimal};

verus! {

/// Largest accepted time limit: one hour, in microseconds.
pub const MAX_TIME_LIMIT_US: u64 = 3_600_000_000;

/// Slack granted after the time limit before the watchdog kills the process.
pub const WATCHDOG_SLACK_US: u64 = 200_000;

/// Value of `memory` when the peak-usage file could not be read or parsed.
pub const MEMORY_UNKNOWN: i64 = -1;

/// Outcome of one execution.
#[derive(Clone, Copy, Debug, PartialEq, Eq, Structural)]
pub struct ExecResult {
    /// Exit code of the user command, or `128 + signo` on death by signal.
    pub status: i32,
    /// Wall time in microseconds, clamped to the time limit.
    pub time_us: u64,
    /// Peak memory in bytes, or `MEMORY_UNKNOWN`.
    pub memory: i64,
    /// Whether the watchdog killed the command or it ran past the limit.
    pub tle: bool,
}

/// Peak memory read from the contents of the peak-usage file: a decimal
/// integer surrounded by optional whitespace, or `MEMORY_UNKNOWN` when the
/// contents are anything else or the number does not fit.
pub open spec fn spec_memory_usage(s: Seq<u8>) -> i64 {
    match spec_parse_decimal(s, i64::MAX as nat) {
        Some(v) => v as i64,
        None => MEMORY_UNKNOWN,
    }
}

/// Parses the contents of the peak-usage file.
pub fn parse_memory_usage(text: &[u8]) -> (r: i64)
    ensures
        r == spec_memory_usage(text@),
        r >= 0 || r == MEMORY_UNKNOWN,
{
    match parse_decimal(text, i64::MAX as u64) {
        Some(v) => v as i64,
        None => MEMORY_UNKNOWN,
    }
}

/// The record reported for one execution: the status read from the pipe,
/// the elapsed wall time clamped to the limit, the parsed peak memory, and
/// a TLE flag that is set when the watchdog fired or the elapsed
/// time exceeds the limit.
pub open spec fn spec_exec_result(
    status: i32,
    elapsed_us: u64,
    time_limit_us: u64,
    watchdog_fired: bool,
    memory_text: Seq<u8>,
) -> ExecResult {
    ExecResult {
        status,
        time_us: if elapsed_us > time_limit_us { time_limit_us } else { elapsed_us },
        memory: spec_memory_usage(memory_text),
        tle: watchdog_fired || elapsed_us > time_limit_us,
    }
}

/// Assembles the record of one execution from what the outer process
/// observed.
pub fn assemble_result(
    status: i32,
    elapsed_us: u64,
    time_limit_us: u64,
    watchdog_fired: bool,
    memory_text: &[u8],
) -> (r: ExecResult)
    ensures
        r == spec_exec_result(status, elapsed_us, time_limit_us, watchdog_fired, memory_text@),
        r.time_us <= time_limit_us,
        r.memory >= 0 || r.memory == MEMORY_UNKNOWN,
{
    let over = elapsed_us > time_limit_us;
    ExecResult {
        status,
        time_us: if over { time_limit_us } else { elapsed_us },
        memory: parse_memory_usage(memory_text),
        tle: watchdog_fired || over,
    }
}

/// How long the watchdog sleeps, once the clock has started, before it
/// kills the inner process.
pub fn watchdog_delay_us(time_limit_us: u64) -> (r: u64)
    requires
        time_limit_us <= MAX_TIME_LIMIT_US,
    ensures
        r == time_limit_us + WATCHDOG_SLACK_US,
        r < time_limit_us + 1_000_000,
{
    time_limit_us + WATCHDOG_SLACK_US
}

/// A command whose wall time exceeds the limit always gets the TLE flag,
/// whether or not the watchdog reached it.
pub proof fn lemma_overrun_is_tle(
    status: i32,
    elapsed_us: u64,
    time_limit_us: u64,
    watchdog_fired: bool,
    memory_text: Seq<u8>,
)
    requires
        elapsed_us > time_limit_us,
    ensures
        spec_exec_result(status, elapsed_us, time_limit_us, watchdog_fired, memory_text).tle,
{
}

/// The reported time never exceeds the limit, and the reported memory is a
/// byte count or `MEMORY_UNKNOWN`, for every observation.
pub proof fn lemma_reported_ranges(
    status: i32,
    elapsed_us: u64,
    time_limit_us: u64,
    watchdog_fired: bool,
    memory_text: Seq<u8>,
)
    ensures
        spec_exec_result(status, elapsed_us, time_limit_us, watchdog_fired, memory_text).time_us <= time_limit_us,
        spec_exec_result(status, elapsed_us, time_limit_us, watchdog_fired, memory_text).memory >= 0
            || spec_exec_result(status, elapsed_us, time_limit_us, watchdog_fired, memory_text).memory == MEMORY_UNKNOWN,
{
}

} // verus!
