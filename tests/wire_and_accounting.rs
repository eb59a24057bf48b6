use executor::accounting::{assemble_result, parse_memory_usage, watchdog_delay_us, ExecResult, MEMORY_UNKNOWN};
use executor::decimal::{parse_decimal, push_decimal};
use executor::record::result_record;
use executor::protocol::{decode_i32_le, encode_i32_le, status_code, WaitOutcome};

#[test]
fn wire_round_trip() {
    for v in [0i32, 1, -1, 137, 255, 256, 65536, i32::MAX, i32::MIN, 123456789] {
        let b = encode_i32_le(v);
        assert_eq!(b, v.to_le_bytes().to_vec());
        assert_eq!(decode_i32_le(&b), Some(v));
    }
}

#[test]
fn wire_short_read_is_none() {
    assert_eq!(decode_i32_le(&[]), None);
    assert_eq!(decode_i32_le(&[1, 2, 3]), None);
    assert_eq!(decode_i32_le(&[1, 2, 3, 4, 5]), None);
    assert_eq!(decode_i32_le(&[0x2a, 0, 0, 0]), Some(42));
}

#[test]
fn status_of_exit_and_signal() {
    assert_eq!(status_code(WaitOutcome::Exited(0)), Some(0));
    assert_eq!(status_code(WaitOutcome::Exited(1)), Some(1));
    assert_eq!(status_code(WaitOutcome::Signaled(9)), Some(137));
    assert_eq!(status_code(WaitOutcome::Signaled(11)), Some(139));
    assert_eq!(status_code(WaitOutcome::Signaled(0)), None);
    assert_eq!(status_code(WaitOutcome::Other), None);
}

#[test]
fn memory_file_parsing() {
    assert_eq!(parse_memory_usage(b"1234567\n"), 1234567);
    assert_eq!(parse_memory_usage(b"  42 \t\n"), 42);
    assert_eq!(parse_memory_usage(b"0"), 0);
    assert_eq!(parse_memory_usage(b"9223372036854775807\n"), i64::MAX);
    assert_eq!(parse_memory_usage(b"9223372036854775808\n"), MEMORY_UNKNOWN);
    assert_eq!(parse_memory_usage(b"99999999999999999999999"), MEMORY_UNKNOWN);
    assert_eq!(parse_memory_usage(b""), MEMORY_UNKNOWN);
    assert_eq!(parse_memory_usage(b" \n"), MEMORY_UNKNOWN);
    assert_eq!(parse_memory_usage(b"-5\n"), MEMORY_UNKNOWN);
    assert_eq!(parse_memory_usage(b"12 34"), MEMORY_UNKNOWN);
    assert_eq!(parse_memory_usage(b"1G"), MEMORY_UNKNOWN);
}

#[test]
fn decimal_bounds_and_digits() {
    assert_eq!(parse_decimal(b"1000\n", 1000), Some(1000));
    assert_eq!(parse_decimal(b"1001\n", 1000), None);
    let mut out = b"pid ".to_vec();
    push_decimal(&mut out, 4242);
    assert_eq!(out, b"pid 4242".to_vec());
    let mut zero = Vec::new();
    push_decimal(&mut zero, 0);
    assert_eq!(zero, b"0".to_vec());
    let mut max = Vec::new();
    push_decimal(&mut max, u64::MAX);
    assert_eq!(max, b"18446744073709551615".to_vec());
}

#[test]
fn prompt_exit_keeps_status_and_no_tle() {
    let status = decode_i32_le(&encode_i32_le(3)).unwrap();
    let r = assemble_result(status, 12_000, 3_600_000_000, false, b"2048\n");
    assert_eq!(r, ExecResult { status: 3, time_us: 12_000, memory: 2048, tle: false });
}

#[test]
fn overrun_is_tle_and_time_clamped() {
    let r = assemble_result(137, 2_150_000, 2_000_000, false, b"4096\n");
    assert!(r.tle);
    assert_eq!(r.time_us, 2_000_000);
    assert_eq!(r.status, 137);
    let at_limit = assemble_result(0, 2_000_000, 2_000_000, false, b"1\n");
    assert!(!at_limit.tle);
    assert_eq!(at_limit.time_us, 2_000_000);
}

#[test]
fn watchdog_kill_is_tle() {
    let r = assemble_result(137, 900_000, 1_000_000, true, b"");
    assert!(r.tle);
    assert_eq!(r.time_us, 900_000);
    assert_eq!(r.memory, MEMORY_UNKNOWN);
}

#[test]
fn reported_ranges_hold() {
    for (elapsed, limit) in [(0u64, 0u64), (5, 0), (0, 5), (3_600_000_001, 3_600_000_000), (7, 7)] {
        for text in [&b"17\n"[..], b"x", b"", b"-1"] {
            let r = assemble_result(0, elapsed, limit, false, text);
            assert!(r.time_us <= limit);
            assert!(r.memory >= 0 || r.memory == -1);
        }
    }
}

#[test]
fn watchdog_delay_has_slack() {
    assert_eq!(watchdog_delay_us(2_000_000), 2_200_000);
    assert_eq!(watchdog_delay_us(0), 200_000);
    assert_eq!(watchdog_delay_us(3_600_000_000), 3_600_200_000);
}

#[test]
fn result_record_line() {
    let r = ExecResult { status: 0, time_us: 15_000, memory: 3_000_000, tle: false };
    assert_eq!(
        String::from_utf8(result_record(&r)).unwrap(),
        "{\"returncode\": 0, \"time\": 0.015000, \"memory\": 3000000, \"tle\": false}\n"
    );
    let r = ExecResult { status: 137, time_us: 2_000_000, memory: -1, tle: true };
    assert_eq!(
        String::from_utf8(result_record(&r)).unwrap(),
        "{\"returncode\": 137, \"time\": 2.000000, \"memory\": -1, \"tle\": true}\n"
    );
    let r = ExecResult { status: -2147483648, time_us: 3_600_000_000, memory: i64::MIN, tle: false };
    assert_eq!(
        String::from_utf8(result_record(&r)).unwrap(),
        "{\"returncode\": -2147483648, \"time\": 3600.000000, \"memory\": -9223372036854775808, \"tle\": false}\n"
    );
}
