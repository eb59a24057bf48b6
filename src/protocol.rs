//! Messages exchanged over the status pipe between the supervisor process and
//! the outer process: fixed-width little-endian integers, and the exit status
//! reported for the inner process.
use vstd::prelude::*;

verus! {

/// Number of bytes of one integer on the status pipe.
pub const WIRE_WIDTH: usize = 4;

/// Status reported for a process killed by signal `signo` (shell convention).
pub const SIGNAL_STATUS_BASE: i32 = 128;

/// The little-endian bytes of the two's-complement representation of `v`.
pub open spec fn spec_i32_le(v: i32) -> Seq<u8> {
    let u = v as u32;
    seq![
        (u % 256) as u8,
        ((u / 256) % 256) as u8,
        ((u / 65536) % 256) as u8,
        (u / 16777216) as u8,
    ]
}

/// The integer whose little-endian two's-complement bytes are `b`.
pub open spec fn spec_i32_from_le(b: Seq<u8>) -> i32
    recommends
        b.len() == 4,
{
    (b[0] as int + 256 * b[1] as int + 65536 * b[2] as int + 16777216 * b[3] as int) as u32 as i32
}

/// Encodes `v` as it travels over the status pipe.
pub fn encode_i32_le(v: i32) -> (r: Vec<u8>)
    ensures
        r@ == spec_i32_le(v),
{
    let u: u32 = v as u32;
    let mut r: Vec<u8> = Vec::new();
    r.push((u % 256) as u8);
    r.push(((u / 256) % 256) as u8);
    r.push(((u / 65536) % 256) as u8);
    r.push((u / 16777216) as u8);
    assert(r@ =~= spec_i32_le(v));
    r
}

/// Decodes one integer read from the status pipe; `None` unless exactly
/// `WIRE_WIDTH` bytes arrived (an empty read means the writer went away).
pub fn decode_i32_le(b: &[u8]) -> (r: Option<i32>)
    ensures
        b@.len() == 4 <==> r.is_some(),
        r matches Some(v) ==> v == spec_i32_from_le(b@),
{
    if b.len() != WIRE_WIDTH {
        return None;
    }
    let u: u32 = b[0] as u32 + 256 * (b[1] as u32) + 65536 * (b[2] as u32) + 16777216 * (b[3] as u32);
    Some(u as i32)
}

/// Decoding the encoding of any integer gives that integer back.
pub proof fn lemma_i32_le_round_trip(v: i32)
    ensures
        spec_i32_le(v).len() == 4,
        spec_i32_from_le(spec_i32_le(v)) == v,
{
    let u = v as u32;
    let b = spec_i32_le(v);
    assert(b[0] as int + 256 * b[1] as int + 65536 * b[2] as int + 16777216 * b[3] as int == u as int)
        by (nonlinear_arith)
        requires
            b[0] as int == u as int % 256,
            b[1] as int == (u as int / 256) % 256,
            b[2] as int == (u as int / 65536) % 256,
            b[3] as int == u as int / 16777216,
            0 <= u < 0x1_0000_0000,
    ;
    assert((v as u32) as i32 == v) by (bit_vector);
}

/// How the supervisor's wait on the inner process ended.
#[derive(Clone, Copy, Debug, PartialEq, Eq, Structural)]
pub enum WaitOutcome {
    /// The process exited with this code.
    Exited(i32),
    /// The process was killed by this signal number.
    Signaled(i32),
    /// Any other report (stopped, continued, still alive).
    Other,
}

/// Largest signal number that can be reported without clashing with the
/// shell's `128 + signo` encoding leaving the `u8` range.
pub const MAX_SIGNAL: i32 = 127;

/// The status reported for the inner process: the exit code itself, or
/// `128 + signo` on death by signal; `None` for a wait report that is neither.
pub open spec fn spec_status_code(w: WaitOutcome) -> Option<i32> {
    match w {
        WaitOutcome::Exited(code) => Some(code),
        WaitOutcome::Signaled(signo) => if 0 < signo <= MAX_SIGNAL {
            Some((SIGNAL_STATUS_BASE + signo) as i32)
        } else {
            None
        },
        WaitOutcome::Other => None,
    }
}

/// Maps the supervisor's wait report to the status written on the pipe.
/// An exit and a signal death never give the same value for a normal exit
/// code (0 to 127), since signal deaths are reported above 128.
pub fn status_code(w: WaitOutcome) -> (r: Option<i32>)
    ensures
        r == spec_status_code(w),
{
    match w {
        WaitOutcome::Exited(code) => Some(code),
        WaitOutcome::Signaled(signo) => {
            if 0 < signo && signo <= MAX_SIGNAL {
                Some(SIGNAL_STATUS_BASE + signo)
            } else {
                None
            }
        },
        WaitOutcome::Other => None,
    }
}

/// A signal death is never reported as an exit code in the range that
/// processes use for ordinary exits.
pub proof fn lemma_signal_distinct_from_exit(signo: i32, code: i32)
    requires
        0 < signo <= MAX_SIGNAL,
        0 <= code <= 128,
    ensures
        spec_status_code(WaitOutcome::Signaled(signo)) != spec_status_code(WaitOutcome::Exited(code)),
{
}

} // verus!
