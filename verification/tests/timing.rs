use gpu_blur::pipeline::Pass;
use gpu_blur::timing::{
    decode_samples, gpu_timing, pass_timing, ClockPair, CounterSamples, GpuTiming, PassSamples,
    PassTiming,
};

fn microseconds(timing: PassTiming) -> f64 {
    match timing {
        PassTiming::Zero => 0.0,
        PassTiming::Measured { begin, end, device_span, host_span } => {
            let span = (end as f64) - (begin as f64);
            span / (device_span as f64) * (host_span as f64) / 1000.0
        }
    }
}

fn resolved(values: [u64; 4]) -> Vec<u8> {
    let mut bytes: Vec<u8> = Vec::new();
    for value in values {
        bytes.extend_from_slice(&value.to_le_bytes());
    }
    bytes
}

#[test]
fn timing_scales_counter_delta_to_host_span() {
    let timing = pass_timing(100, 200, 1000, 2000);
    assert_eq!(
        timing,
        PassTiming::Measured { begin: 100, end: 200, device_span: 1000, host_span: 2000 }
    );
    assert_eq!(timing.nanoseconds(), 200);
    assert!((microseconds(timing) - 0.2).abs() < 1e-12);
}

#[test]
fn timing_is_zero_when_counter_did_not_advance() {
    assert_eq!(pass_timing(200, 100, 1000, 2000), PassTiming::Zero);
    assert_eq!(pass_timing(100, 100, 1000, 2000), PassTiming::Zero);
    assert_eq!(pass_timing(u64::MAX, 0, 1000, 2000), PassTiming::Zero);
    assert_eq!(pass_timing(200, 100, 1000, 2000).nanoseconds(), 0);
    assert_eq!(microseconds(pass_timing(200, 100, 1000, 2000)), 0.0);
}

#[test]
fn timing_is_zero_when_a_span_is_zero() {
    assert_eq!(pass_timing(100, 200, 0, 2000), PassTiming::Zero);
    assert_eq!(pass_timing(100, 200, 1000, 0), PassTiming::Zero);
    assert_eq!(pass_timing(100, 200, 0, 0), PassTiming::Zero);
    assert_eq!(microseconds(pass_timing(100, 200, 0, 2000)), 0.0);
}

#[test]
fn nanoseconds_round_down() {
    assert_eq!(pass_timing(0, 1, 3, 10).nanoseconds(), 3);
    assert_eq!(pass_timing(0, 2, 3, 10).nanoseconds(), 6);
    assert_eq!(pass_timing(0, 1, 3, 2).nanoseconds(), 0);
    assert_eq!(pass_timing(5, 6, 1, 1).nanoseconds(), 1);
}

#[test]
fn nanoseconds_of_the_largest_inputs_fit() {
    let timing = pass_timing(0, u64::MAX, 1, u64::MAX);
    assert_eq!(timing.nanoseconds(), (u64::MAX as u128) * (u64::MAX as u128));
}

#[test]
fn nanoseconds_of_a_malformed_timing_are_zero() {
    let backwards = PassTiming::Measured { begin: 9, end: 3, device_span: 5, host_span: 5 };
    assert_eq!(backwards.nanoseconds(), 0);
    let stopped = PassTiming::Measured { begin: 3, end: 9, device_span: 0, host_span: 5 };
    assert_eq!(stopped.nanoseconds(), 0);
}

#[test]
fn samples_are_read_least_significant_byte_first() {
    let mut bytes: Vec<u8> = vec![0u8; 32];
    bytes[0] = 0x01;
    bytes[1] = 0x02;
    bytes[8] = 0xff;
    bytes[15] = 0x80;
    bytes[16] = 0x10;
    bytes[23] = 0x01;
    bytes[31] = 0xff;
    let samples = decode_samples(&bytes).unwrap();
    assert_eq!(samples.horizontal.begin, 0x0201);
    assert_eq!(samples.horizontal.end, 0x8000_0000_0000_00ff);
    assert_eq!(samples.vertical.begin, 0x0100_0000_0000_0010);
    assert_eq!(samples.vertical.end, 0xff00_0000_0000_0000);
}

#[test]
fn samples_round_trip_through_bytes() {
    let values: [u64; 4] = [0x0123_4567_89ab_cdef, u64::MAX, 0, 0xfedc_ba98_7654_3210];
    let samples = decode_samples(&resolved(values)).unwrap();
    assert_eq!(
        samples,
        CounterSamples {
            horizontal: PassSamples { begin: values[0], end: values[1] },
            vertical: PassSamples { begin: values[2], end: values[3] },
        }
    );
    assert_eq!(samples.of(Pass::Horizontal), samples.horizontal);
    assert_eq!(samples.of(Pass::Vertical), samples.vertical);
}

#[test]
fn samples_need_exactly_thirty_two_bytes() {
    assert_eq!(decode_samples(&[]), None);
    assert_eq!(decode_samples(&[0u8; 31]), None);
    assert_eq!(decode_samples(&[0u8; 33]), None);
    assert_eq!(decode_samples(&[0u8; 8]), None);
    assert!(decode_samples(&[0u8; 32]).is_some());
}

#[test]
fn gpu_timing_uses_the_spans_between_the_clock_pairs() {
    let samples = decode_samples(&resolved([100, 200, 300, 700])).unwrap();
    let start = ClockPair { host: 5_000, device: 40 };
    let end = ClockPair { host: 7_000, device: 1_040 };
    let timing = gpu_timing(samples, start, end).unwrap();
    assert_eq!(
        timing,
        GpuTiming {
            horizontal: PassTiming::Measured {
                begin: 100,
                end: 200,
                device_span: 1000,
                host_span: 2000,
            },
            vertical: PassTiming::Measured {
                begin: 300,
                end: 700,
                device_span: 1000,
                host_span: 2000,
            },
        }
    );
    assert_eq!(timing.horizontal.nanoseconds(), 200);
    assert_eq!(timing.vertical.nanoseconds(), 800);
    assert_eq!(timing.total_nanoseconds(), Some(1000));
    let total_us = microseconds(timing.horizontal) + microseconds(timing.vertical);
    assert!((total_us - 1.0).abs() < 1e-12);
}

#[test]
fn gpu_timing_counts_a_garbage_pass_as_nothing() {
    let samples = decode_samples(&resolved([900, 200, 300, 700])).unwrap();
    let start = ClockPair { host: 0, device: 0 };
    let end = ClockPair { host: 2_000, device: 1_000 };
    let timing = gpu_timing(samples, start, end).unwrap();
    assert_eq!(timing.horizontal, PassTiming::Zero);
    assert_eq!(timing.total_nanoseconds(), Some(800));
}

#[test]
fn gpu_timing_of_a_run_without_length_is_zero() {
    let samples = decode_samples(&resolved([100, 200, 300, 700])).unwrap();
    let pair = ClockPair { host: 77, device: 99 };
    let timing = gpu_timing(samples, pair, pair).unwrap();
    assert_eq!(timing, GpuTiming { horizontal: PassTiming::Zero, vertical: PassTiming::Zero });
    assert_eq!(timing.total_nanoseconds(), Some(0));
}

#[test]
fn gpu_timing_needs_clocks_that_go_forward() {
    let samples = decode_samples(&resolved([100, 200, 300, 700])).unwrap();
    let early = ClockPair { host: 10, device: 10 };
    let late = ClockPair { host: 20, device: 20 };
    assert!(gpu_timing(samples, late, early).is_none());
    assert!(gpu_timing(samples, ClockPair { host: 10, device: 30 }, late).is_none());
    assert!(gpu_timing(samples, ClockPair { host: 30, device: 10 }, late).is_none());
    assert!(gpu_timing(samples, early, late).is_some());
}

#[test]
fn total_beyond_u128_is_none() {
    let big = PassTiming::Measured { begin: 0, end: u64::MAX, device_span: 1, host_span: u64::MAX };
    let timing = GpuTiming { horizontal: big, vertical: big };
    assert_eq!(timing.total_nanoseconds(), None);
}

#[test]
fn passes_within_the_run_take_no_longer_than_the_run() {
    let samples = decode_samples(&resolved([10, 400, 400, 1_010])).unwrap();
    let start = ClockPair { host: 0, device: 0 };
    let end = ClockPair { host: 3_000, device: 1_000 };
    let timing = gpu_timing(samples, start, end).unwrap();
    assert_eq!(timing.horizontal.nanoseconds(), 1_170);
    assert_eq!(timing.vertical.nanoseconds(), 1_830);
    assert_eq!(timing.total_nanoseconds(), Some(3_000));
    let odd = pass_timing(0, 999, 1_000, 7);
    assert_eq!(odd.nanoseconds(), 6);
    assert!(odd.nanoseconds() <= 7);
}
