//! The one-line JSON record of an execution's result.
use vstd::prelude::*;
use vstd::string::StringSliceAdditionalSpecFns;
use crate::accounting::ExecResult;
use crate::decimal::{decimal, push_decimal};
use crate::sandbox::append_str;

verus! {

/// Microseconds in a second.
pub const MICROS: u64 = 1_000_000;

/// `v` in decimal, with a leading `-` when negative.
pub open spec fn signed_decimal(v: int) -> Seq<u8> {
    if v < 0 {
        seq![0x2du8] + decimal((-v) as nat)
    } else {
        decimal(v as nat)
    }
}

/// The last `width` decimal digits of `n`, zero-padded.
pub open spec fn padded_decimal(n: nat, width: nat) -> Seq<u8>
    decreases width,
{
    if width == 0 {
        seq![]
    } else {
        padded_decimal(n / 10, (width - 1) as nat) + seq![(0x30 + n % 10) as u8]
    }
}

/// A duration in microseconds written as seconds with six decimals.
pub open spec fn seconds_text(us: u64) -> Seq<u8> {
    decimal((us / MICROS) as nat) + seq![0x2eu8] + padded_decimal((us % MICROS) as nat, 6)
}

pub open spec fn bool_text(b: bool) -> Seq<u8> {
    if b {
        "true".spec_bytes()
    } else {
        "false".spec_bytes()
    }
}

/// `{"returncode": <status>, "time": <seconds>, "memory": <bytes>, "tle": <bool>}`
/// followed by a newline.
pub open spec fn spec_result_record(r: ExecResult) -> Seq<u8> {
    "{\"returncode\": ".spec_bytes() + signed_decimal(r.status as int) + ", \"time\": ".spec_bytes()
        + seconds_text(r.time_us) + ", \"memory\": ".spec_bytes() + signed_decimal(r.memory as int)
        + ", \"tle\": ".spec_bytes() + bool_text(r.tle) + "}\n".spec_bytes()
}

fn push_signed(out: &mut Vec<u8>, v: i64)
    ensures
        final(out)@ == old(out)@ + signed_decimal(v as int),
{
    if v < 0 {
        out.push(0x2du8);
        let m: u64 = (-(v as i128)) as u64;
        push_decimal(out, m);
        assert(final(out)@ =~= old(out)@ + signed_decimal(v as int));
    } else {
        push_decimal(out, v as u64);
    }
}

fn push_padded(out: &mut Vec<u8>, n: u64, width: u32)
    ensures
        final(out)@ == old(out)@ + padded_decimal(n as nat, width as nat),
    decreases width,
{
    if width > 0 {
        push_padded(out, n / 10, width - 1);
        out.push((0x30u64 + n % 10) as u8);
        assert(final(out)@ =~= old(out)@ + padded_decimal(n as nat, width as nat));
    } else {
        assert(final(out)@ =~= old(out)@ + padded_decimal(n as nat, width as nat));
    }
}

/// The line written to the result file.
pub fn result_record(r: &ExecResult) -> (out: Vec<u8>)
    ensures
        out@ == spec_result_record(*r),
{
    let mut out: Vec<u8> = Vec::new();
    append_str(&mut out, "{\"returncode\": ");
    push_signed(&mut out, r.status as i64);
    append_str(&mut out, ", \"time\": ");
    push_decimal(&mut out, r.time_us / MICROS);
    out.push(0x2eu8);
    push_padded(&mut out, r.time_us % MICROS, 6);
    append_str(&mut out, ", \"memory\": ");
    push_signed(&mut out, r.memory);
    append_str(&mut out, ", \"tle\": ");
    if r.tle {
        append_str(&mut out, "true");
    } else {
        append_str(&mut out, "false");
    }
    append_str(&mut out, "}\n");
    assert(out@ =~= spec_result_record(*r));
    out
}

} // verus!
