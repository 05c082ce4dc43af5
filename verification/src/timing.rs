//! From raw timestamp counters to durations on the host's clock.
//!
//! The device counts in units of its own.  A pair of readings of both
//! clocks before the run, and another after it, tells how far each clock
//! went meanwhile; a counter difference is then the same fraction of the
//! host's span as it is of the device's.

use vstd::prelude::*;
use crate::pipeline::Pass;
use crate::profiling::{spec_sample_slots, RESOLVED_BYTES};

verus! {

/// One reading of the host's and the device's clock, taken together.
#[derive(Clone, Copy, Debug, PartialEq, Eq, Structural)]
pub struct ClockPair {
    pub host: u64,
    pub device: u64,
}

/// The counter values at the start and at the end of one pass.
#[derive(Clone, Copy, Debug, PartialEq, Eq, Structural)]
pub struct PassSamples {
    pub begin: u64,
    pub end: u64,
}

/// The four resolved samples of a run.
#[derive(Clone, Copy, Debug, PartialEq, Eq, Structural)]
pub struct CounterSamples {
    pub horizontal: PassSamples,
    pub vertical: PassSamples,
}

impl CounterSamples {
    /// The samples of one pass.
    pub open spec fn spec_of(self, pass: Pass) -> PassSamples {
        match pass {
            Pass::Horizontal => self.horizontal,
            Pass::Vertical => self.vertical,
        }
    }

    /// The samples of one pass.
    pub fn of(&self, pass: Pass) -> (samples: PassSamples)
        ensures
            samples == self.spec_of(pass),
    {
        match pass {
            Pass::Horizontal => self.horizontal,
            Pass::Vertical => self.vertical,
        }
    }
}

/// The number that eight bytes spell, least significant byte first.
pub open spec fn spec_le_u64(bytes: Seq<u8>) -> int
    recommends
        bytes.len() == 8,
{
    bytes[0] + 0x100 * bytes[1] + 0x1_0000 * bytes[2] + 0x100_0000 * bytes[3] + 0x1_0000_0000
        * bytes[4] + 0x100_0000_0000 * bytes[5] + 0x1_0000_0000_0000 * bytes[6]
        + 0x100_0000_0000_0000 * bytes[7]
}

/// The sample in slot `slot` of a resolved buffer.
pub open spec fn spec_sample(bytes: Seq<u8>, slot: int) -> int
    recommends
        0 <= slot,
        8 * slot + 8 <= bytes.len(),
{
    spec_le_u64(bytes.subrange(8 * slot, 8 * slot + 8))
}

/// What a resolved buffer of 32 bytes holds: each pass's samples in the
/// slots that bracket it.
pub open spec fn spec_decode_samples(bytes: Seq<u8>) -> CounterSamples
    recommends
        bytes.len() == 32,
{
    CounterSamples {
        horizontal: PassSamples {
            begin: spec_sample(bytes, spec_sample_slots(Pass::Horizontal).start as int) as u64,
            end: spec_sample(bytes, spec_sample_slots(Pass::Horizontal).end as int) as u64,
        },
        vertical: PassSamples {
            begin: spec_sample(bytes, spec_sample_slots(Pass::Vertical).start as int) as u64,
            end: spec_sample(bytes, spec_sample_slots(Pass::Vertical).end as int) as u64,
        },
    }
}

/// Eight bytes, least significant first, spell a number below 2^64.
pub proof fn lemma_le_u64_fits(bytes: Seq<u8>)
    requires
        bytes.len() == 8,
    ensures
        0 <= spec_le_u64(bytes) <= u64::MAX,
{
}

/// Reads the 64-bit sample in slot `slot`, least significant byte first.
fn read_sample(bytes: &[u8], slot: usize) -> (value: u64)
    requires
        slot < 4,
        bytes@.len() == 32,
    ensures
        value == spec_sample(bytes@, slot as int),
{
    let at: usize = 8 * slot;
    let ghost word = bytes@.subrange(8 * slot, 8 * slot + 8);
    proof {
        assert(forall|k: int| 0 <= k < 8 ==> word[k] == bytes@[8 * slot + k]);
        lemma_le_u64_fits(word);
    }
    let b0: u64 = bytes[at] as u64;
    let b1: u64 = bytes[at + 1] as u64;
    let b2: u64 = bytes[at + 2] as u64;
    let b3: u64 = bytes[at + 3] as u64;
    let b4: u64 = bytes[at + 4] as u64;
    let b5: u64 = bytes[at + 5] as u64;
    let b6: u64 = bytes[at + 6] as u64;
    let b7: u64 = bytes[at + 7] as u64;
    b0 + 0x100 * b1 + 0x1_0000 * b2 + 0x100_0000 * b3 + 0x1_0000_0000 * b4 + 0x100_0000_0000
        * b5 + 0x1_0000_0000_0000 * b6 + 0x100_0000_0000_0000 * b7
}

/// Reads the four samples out of a resolved buffer.  The buffer must be
/// exactly 32 bytes long: four samples of eight bytes, each with its least
/// significant byte first.
pub fn decode_samples(bytes: &[u8]) -> (samples: Option<CounterSamples>)
    ensures
        samples is Some <==> bytes@.len() == RESOLVED_BYTES,
        samples is Some ==> samples->0 == spec_decode_samples(bytes@),
        samples is Some ==> forall|pass: Pass|
            #![trigger spec_sample_slots(pass)]
            {
                &&& samples->0.spec_of(pass).begin == spec_sample(
                    bytes@,
                    spec_sample_slots(pass).start as int,
                )
                &&& samples->0.spec_of(pass).end == spec_sample(
                    bytes@,
                    spec_sample_slots(pass).end as int,
                )
            },
{
    if bytes.len() != RESOLVED_BYTES {
        return None;
    }
    let horizontal = PassSamples { begin: read_sample(bytes, 0), end: read_sample(bytes, 1) };
    let vertical = PassSamples { begin: read_sample(bytes, 2), end: read_sample(bytes, 3) };
    Some(CounterSamples { horizontal, vertical })
}

/// How long one pass took, as far as its samples tell.
#[derive(Clone, Copy, Debug, PartialEq, Eq, Structural)]
pub enum PassTiming {
    /// Nothing can be said: the counter did not advance over the pass, or
    /// one of the clocks did not advance over the run.  Counts as no time.
    Zero,
    /// The counter went from `begin` to `end` while the device's clock went
    /// `device_span` and the host's `host_span` nanoseconds over the run.
    Measured { begin: u64, end: u64, device_span: u64, host_span: u64 },
}

/// The timing of a pass with samples `begin` and `end`, in a run over which
/// the device's clock advanced by `device_span` and the host's by
/// `host_span`.
pub open spec fn spec_pass_timing(
    begin: u64,
    end: u64,
    device_span: u64,
    host_span: u64,
) -> PassTiming {
    if end <= begin || device_span == 0 || host_span == 0 {
        PassTiming::Zero
    } else {
        PassTiming::Measured { begin, end, device_span, host_span }
    }
}

impl PassTiming {
    /// What holds of every timing that `pass_timing` makes.
    pub open spec fn wf(self) -> bool {
        match self {
            PassTiming::Zero => true,
            PassTiming::Measured { begin, end, device_span, host_span } => begin < end
                && device_span > 0 && host_span > 0,
        }
    }

    /// The duration in nanoseconds, rounded down: the counter difference,
    /// divided by the device's span and multiplied by the host's.  A timing
    /// that is not well formed counts as no time.
    pub open spec fn spec_nanoseconds(self) -> int {
        match self {
            PassTiming::Zero => 0,
            PassTiming::Measured { begin, end, device_span, host_span } => if begin < end
                && device_span > 0 {
                ((end - begin) * host_span) / (device_span as int)
            } else {
                0
            },
        }
    }

    /// The duration in nanoseconds, rounded down.  A thousandth of it is the
    /// duration in microseconds.
    pub fn nanoseconds(&self) -> (nanos: u128)
        ensures
            nanos == self.spec_nanoseconds(),
            *self == PassTiming::Zero ==> nanos == 0,
    {
        match *self {
            PassTiming::Zero => 0,
            PassTiming::Measured { begin, end, device_span, host_span } => {
                if end <= begin || device_span == 0 {
                    return 0;
                }
                let delta: u64 = end - begin;
                assert(0 <= delta * host_span <= 0xFFFF_FFFF_FFFF_FFFF * 0xFFFF_FFFF_FFFF_FFFF)
                    by (nonlinear_arith)
                    requires
                        0 <= delta <= 0xFFFF_FFFF_FFFF_FFFF,
                        0 <= host_span <= 0xFFFF_FFFF_FFFF_FFFF,
                ;
                (delta as u128) * (host_span as u128) / (device_span as u128)
            },
        }
    }
}

/// The timing of one pass.  It is `Zero` when `end <= begin`, which guards
/// against a counter that wrapped or was never written, and when either
/// span is zero; else it holds the four numbers from which the duration
/// follows.
pub fn pass_timing(begin: u64, end: u64, device_span: u64, host_span: u64) -> (timing:
    PassTiming)
    ensures
        timing == spec_pass_timing(begin, end, device_span, host_span),
        timing.wf(),
        timing == PassTiming::Zero <==> end <= begin || device_span == 0 || host_span == 0,
{
    if end <= begin || device_span == 0 || host_span == 0 {
        PassTiming::Zero
    } else {
        PassTiming::Measured { begin, end, device_span, host_span }
    }
}

/// The timings of a run's two passes.
#[derive(Clone, Copy, Debug, PartialEq, Eq, Structural)]
pub struct GpuTiming {
    pub horizontal: PassTiming,
    pub vertical: PassTiming,
}

/// The timings of both passes from the run's samples and the clock pairs
/// taken before and after it.
pub open spec fn spec_gpu_timing(
    samples: CounterSamples,
    start: ClockPair,
    end: ClockPair,
) -> GpuTiming
    recommends
        start.host <= end.host,
        start.device <= end.device,
{
    let device_span = (end.device - start.device) as u64;
    let host_span = (end.host - start.host) as u64;
    GpuTiming {
        horizontal: spec_pass_timing(
            samples.horizontal.begin,
            samples.horizontal.end,
            device_span,
            host_span,
        ),
        vertical: spec_pass_timing(
            samples.vertical.begin,
            samples.vertical.end,
            device_span,
            host_span,
        ),
    }
}

impl GpuTiming {
    /// What holds of every timing that `gpu_timing` makes.
    pub open spec fn wf(self) -> bool {
        self.horizontal.wf() && self.vertical.wf()
    }

    /// The sum of both passes' durations in nanoseconds.
    pub open spec fn spec_total_nanoseconds(self) -> int {
        self.horizontal.spec_nanoseconds() + self.vertical.spec_nanoseconds()
    }

    /// The time that the device spent on the run: the sum of both passes'
    /// durations in nanoseconds, or `None` where that sum is beyond `u128`.
    pub fn total_nanoseconds(&self) -> (total: Option<u128>)
        ensures
            total is Some <==> self.spec_total_nanoseconds() <= u128::MAX,
            total is Some ==> total->0 == self.spec_total_nanoseconds(),
    {
        let first: u128 = self.horizontal.nanoseconds();
        let second: u128 = self.vertical.nanoseconds();
        first.checked_add(second)
    }
}

/// A pass whose counter advanced no further than the device's clock did
/// over the whole run took no longer than the run did on the host's clock.
pub proof fn lemma_pass_within_run(begin: u64, end: u64, device_span: u64, host_span: u64)
    requires
        begin <= end,
        end - begin <= device_span,
    ensures
        spec_pass_timing(begin, end, device_span, host_span).spec_nanoseconds() <= host_span,
        spec_pass_timing(begin, end, device_span, host_span).spec_nanoseconds() >= 0,
{
    if begin < end && device_span > 0 && host_span > 0 {
        let delta = end - begin;
        assert(0 <= (delta * host_span) / (device_span as int) <= host_span)
            by (nonlinear_arith)
            requires
                0 < delta <= device_span,
                host_span > 0,
        ;
    }
}

/// Two passes whose counters together advanced no further than the
/// device's clock did over the run took together no longer than the run:
/// their sum is at most the host's span, and so it can be counted.
pub proof fn lemma_total_within_run(samples: CounterSamples, start: ClockPair, end: ClockPair)
    requires
        start.host <= end.host,
        start.device <= end.device,
        samples.horizontal.begin <= samples.horizontal.end,
        samples.vertical.begin <= samples.vertical.end,
        (samples.horizontal.end - samples.horizontal.begin) + (samples.vertical.end
            - samples.vertical.begin) <= end.device - start.device,
    ensures
        0 <= spec_gpu_timing(samples, start, end).spec_total_nanoseconds() <= end.host
            - start.host,
{
    let device_span = (end.device - start.device) as u64;
    let host_span = (end.host - start.host) as u64;
    let d1 = samples.horizontal.end - samples.horizontal.begin;
    let d2 = samples.vertical.end - samples.vertical.begin;
    let n1 = spec_pass_timing(
        samples.horizontal.begin,
        samples.horizontal.end,
        device_span,
        host_span,
    ).spec_nanoseconds();
    let n2 = spec_pass_timing(
        samples.vertical.begin,
        samples.vertical.end,
        device_span,
        host_span,
    ).spec_nanoseconds();
    if device_span > 0 && host_span > 0 {
        let q1 = (d1 * host_span) / (device_span as int);
        let q2 = (d2 * host_span) / (device_span as int);
        assert(0 <= q1 && 0 <= q2 && q1 + q2 <= host_span) by (nonlinear_arith)
            requires
                q1 == (d1 * host_span) / (device_span as int),
                q2 == (d2 * host_span) / (device_span as int),
                0 <= d1,
                0 <= d2,
                d1 + d2 <= device_span,
                device_span > 0,
                host_span > 0,
        ;
        assert(n1 == if d1 > 0 {
            q1
        } else {
            0
        });
        assert(n2 == if d2 > 0 {
            q2
        } else {
            0
        });
    }
}

/// The timings of both passes.  `start` is the clock pair taken just before
/// the command buffer was committed, `end` the one taken after it
/// completed.  There is no timing where a clock ran backwards in between.
pub fn gpu_timing(samples: CounterSamples, start: ClockPair, end: ClockPair) -> (timing: Option<
    GpuTiming,
>)
    ensures
        timing is Some <==> start.host <= end.host && start.device <= end.device,
        timing is Some ==> timing->0 == spec_gpu_timing(samples, start, end) && timing->0.wf(),
{
    if end.host < start.host || end.device < start.device {
        return None;
    }
    let host_span: u64 = end.host - start.host;
    let device_span: u64 = end.device - start.device;
    Some(
        GpuTiming {
            horizontal: pass_timing(
                samples.horizontal.begin,
                samples.horizontal.end,
                device_span,
                host_span,
            ),
            vertical: pass_timing(
                samples.vertical.begin,
                samples.vertical.end,
                device_span,
                host_span,
            ),
        },
    )
}

} // verus!
