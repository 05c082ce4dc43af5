//! The course of one blur run.
//!
//! A run alternates between work that only the device can do and decisions
//! about what to do next.  The decisions are here: a `Run` names the next
//! piece of work with `pending`, the caller performs it and reports what
//! came of it with `step`.  The run is over when it asks to finish or to
//! abort.

use vstd::prelude::*;
use crate::commands::{plan_commands, spec_plan_commands, CommandPlan};
use crate::dispatch::PipelineLimits;
use crate::error::BlurError;
use crate::pipeline::Pass;
use crate::picture::{picture_bytes, Picture};
use crate::profiling::{
    counter_buffer_descriptor, find_timestamp_counter_set, spec_counter_buffer_descriptor,
    spec_find_timestamp, CounterBufferDescriptor, ProfilingState, ResolveCommand, SampleSlots,
    RESOLVED_BYTES,
};
use crate::resource::{lemma_image_bytes, ImageLayout, Region, TextureDescriptor};
use crate::timing::{
    decode_samples, gpu_timing, spec_decode_samples, spec_gpu_timing, ClockPair, GpuTiming,
};

verus! {

/// What a run is waiting for.
#[derive(Clone, Copy, Debug, PartialEq, Eq, Structural)]
pub enum Phase {
    AcquiringDevice,
    CompilingLibrary,
    ResolvingFunction(Pass),
    CreatingPipeline(Pass),
    CreatingTextures,
    Uploading,
    QueryingCounterSampling,
    ListingCounterSets,
    CreatingCounterBuffer,
    Encoding,
    SamplingStartClocks,
    Waiting,
    SamplingEndClocks,
    ReadingSamples,
    Downloading,
    /// The run has its output.
    Finished,
    /// The run was given up.
    Failed(BlurError),
}

impl Phase {
    /// The place of a phase in the course of a run.  Every step that a run
    /// takes leads to a phase of higher rank.
    pub open spec fn rank(self) -> nat {
        match self {
            Phase::AcquiringDevice => 0,
            Phase::CompilingLibrary => 1,
            Phase::ResolvingFunction(Pass::Horizontal) => 2,
            Phase::ResolvingFunction(Pass::Vertical) => 3,
            Phase::CreatingPipeline(Pass::Horizontal) => 4,
            Phase::CreatingPipeline(Pass::Vertical) => 5,
            Phase::CreatingTextures => 6,
            Phase::Uploading => 7,
            Phase::QueryingCounterSampling => 8,
            Phase::ListingCounterSets => 9,
            Phase::CreatingCounterBuffer => 10,
            Phase::Encoding => 11,
            Phase::SamplingStartClocks => 12,
            Phase::Waiting => 13,
            Phase::SamplingEndClocks => 14,
            Phase::ReadingSamples => 15,
            Phase::Downloading => 16,
            Phase::Finished => 17,
            Phase::Failed(_) => 18,
        }
    }

    /// Whether the run is over, one way or the other.
    pub open spec fn spec_is_over(self) -> bool {
        self == Phase::Finished || self is Failed
    }

    /// Whether the run is over, one way or the other.
    pub fn is_over(self) -> (over: bool)
        ensures
            over == self.spec_is_over(),
    {
        match self {
            Phase::Finished => true,
            Phase::Failed(_) => true,
            _ => false,
        }
    }
}

/// The work that a run asks its caller to do next.
#[derive(Clone, Copy, Debug, PartialEq, Eq)]
pub enum Action {
    /// Get hold of the system's default device.
    AcquireDevice,
    /// Compile the compute program into a library.
    CompileLibrary,
    /// Look up the entry point of a pass in the library.
    ResolveFunction(Pass),
    /// Create the pipeline of a pass and report its limits.
    CreatePipeline(Pass),
    /// Create the input, the intermediate and the output texture.
    CreateTextures(TextureDescriptor),
    /// Copy the run's input into the whole of the input texture.
    Upload { region: Region, bytes_per_row: u64 },
    /// Ask the device whether it samples counters at stage boundaries.
    QueryCounterSampling,
    /// List the names of the device's counter sets.
    ListCounterSets,
    /// Create the counter sample buffer, and a shared buffer of 32 bytes
    /// to resolve it into.
    CreateCounterBuffer(CounterBufferDescriptor),
    /// Open a command buffer and encode the plan, in its order.
    Encode(CommandPlan),
    /// Read the host's and the device's clock together.
    SampleClocks,
    /// Commit the command buffer, block until the device is done, and
    /// measure the wait.
    CommitAndWait,
    /// Read the resolved samples.
    ReadSamples { byte_len: usize },
    /// Read the whole of the output texture into a buffer of `byte_len`
    /// bytes.
    Download { region: Region, bytes_per_row: u64, byte_len: usize },
    /// Nothing is left to do: take the report.
    Finish,
    /// Give up with this error.
    Abort(BlurError),
}

/// What came of the work that a run asked for.
#[derive(Debug)]
pub enum Event {
    DeviceFound,
    DeviceMissing,
    LibraryCompiled,
    CompileFailed,
    FunctionFound,
    FunctionMissing,
    PipelineCreated(PipelineLimits),
    PipelineRejected,
    TexturesCreated,
    Uploaded,
    CounterSampling(bool),
    CounterSets(Vec<String>),
    CounterBuffer(bool),
    Encoded,
    Clocks(ClockPair),
    Completed { host_wait_nanos: u128 },
    Samples(Vec<u8>),
    Downloaded(Vec<u8>),
}

/// Everything that a run knows, with its buffers as sequences of bytes.
pub struct RunState {
    pub layout: ImageLayout,
    pub input: Seq<u8>,
    pub phase: Phase,
    pub horizontal: Option<PipelineLimits>,
    pub vertical: Option<PipelineLimits>,
    pub profiling: ProfilingState,
    pub counter_set: Option<usize>,
    pub start_clocks: Option<ClockPair>,
    pub end_clocks: Option<ClockPair>,
    pub host_wait_nanos: u128,
    pub timing: Option<GpuTiming>,
    pub output: Seq<u8>,
}

/// The timing that resolved samples and the two clock pairs give: none
/// unless the buffer has 32 bytes, both pairs were taken and neither clock
/// ran backwards.
pub open spec fn spec_run_timing(
    bytes: Seq<u8>,
    start: Option<ClockPair>,
    end: Option<ClockPair>,
) -> Option<GpuTiming> {
    if bytes.len() == 32 && start is Some && end is Some && start->0.host <= end->0.host
        && start->0.device <= end->0.device {
        Some(spec_gpu_timing(spec_decode_samples(bytes), start->0, end->0))
    } else {
        None
    }
}

impl RunState {
    /// The state of a run that has not asked for anything yet.
    pub open spec fn start(layout: ImageLayout, input: Seq<u8>) -> RunState {
        RunState {
            layout,
            input,
            phase: Phase::AcquiringDevice,
            horizontal: None,
            vertical: None,
            profiling: ProfilingState::Unsupported,
            counter_set: None,
            start_clocks: None,
            end_clocks: None,
            host_wait_nanos: 0,
            timing: None,
            output: Seq::empty(),
        }
    }

    /// The same run in another phase.
    pub open spec fn at(self, phase: Phase) -> RunState {
        RunState { phase, ..self }
    }

    /// The same run, given up.
    pub open spec fn failed(self, error: BlurError) -> RunState {
        RunState { phase: Phase::Failed(error), ..self }
    }

    /// Whether `event` is an answer to what the run is waiting for.
    pub open spec fn answers(self, event: Event) -> bool {
        match (self.phase, event) {
            (Phase::AcquiringDevice, Event::DeviceFound) => true,
            (Phase::AcquiringDevice, Event::DeviceMissing) => true,
            (Phase::CompilingLibrary, Event::LibraryCompiled) => true,
            (Phase::CompilingLibrary, Event::CompileFailed) => true,
            (Phase::ResolvingFunction(_), Event::FunctionFound) => true,
            (Phase::ResolvingFunction(_), Event::FunctionMissing) => true,
            (Phase::CreatingPipeline(_), Event::PipelineCreated(_)) => true,
            (Phase::CreatingPipeline(_), Event::PipelineRejected) => true,
            (Phase::CreatingTextures, Event::TexturesCreated) => true,
            (Phase::Uploading, Event::Uploaded) => true,
            (Phase::QueryingCounterSampling, Event::CounterSampling(_)) => true,
            (Phase::ListingCounterSets, Event::CounterSets(_)) => true,
            (Phase::CreatingCounterBuffer, Event::CounterBuffer(_)) => true,
            (Phase::Encoding, Event::Encoded) => true,
            (Phase::SamplingStartClocks, Event::Clocks(_)) => true,
            (Phase::Waiting, Event::Completed { .. }) => true,
            (Phase::SamplingEndClocks, Event::Clocks(_)) => true,
            (Phase::ReadingSamples, Event::Samples(_)) => true,
            (Phase::Downloading, Event::Downloaded(_)) => true,
            _ => false,
        }
    }

    /// The run after a pipeline reported `limits`.  A pipeline without any
    /// thread in a row cannot be dispatched and counts as not created.
    pub open spec fn with_pipeline(self, pass: Pass, limits: PipelineLimits) -> RunState {
        if limits.thread_execution_width == 0 {
            self.failed(BlurError::PipelineCreationError(pass))
        } else {
            match pass {
                Pass::Horizontal => RunState {
                    horizontal: Some(limits),
                    phase: Phase::CreatingPipeline(Pass::Vertical),
                    ..self
                },
                Pass::Vertical => RunState {
                    vertical: Some(limits),
                    phase: Phase::CreatingTextures,
                    ..self
                },
            }
        }
    }

    /// The run after the device listed its counter sets.
    pub open spec fn with_counter_sets(self, names: Seq<String>) -> RunState {
        match spec_find_timestamp(names) {
            Some(index) => RunState {
                counter_set: Some(index),
                phase: Phase::CreatingCounterBuffer,
                ..self
            },
            None => self.at(Phase::Encoding),
        }
    }

    /// The run after one of the two clock readings: the first is taken
    /// just before the command buffer is committed, the second after it
    /// has completed.
    pub open spec fn with_clocks(self, pair: ClockPair) -> RunState {
        if self.phase == Phase::SamplingStartClocks {
            RunState { start_clocks: Some(pair), phase: Phase::Waiting, ..self }
        } else {
            RunState { end_clocks: Some(pair), phase: Phase::ReadingSamples, ..self }
        }
    }

    /// The run after the resolved samples were read.
    pub open spec fn with_samples(self, bytes: Seq<u8>) -> RunState {
        RunState {
            timing: spec_run_timing(bytes, self.start_clocks, self.end_clocks),
            phase: Phase::Downloading,
            ..self
        }
    }

    /// The run after the command buffer completed.
    pub open spec fn with_completion(self, host_wait_nanos: u128) -> RunState {
        let profiling = self.profiling.spec_completed();
        RunState {
            host_wait_nanos,
            profiling,
            phase: if profiling == ProfilingState::Resolved {
                Phase::SamplingEndClocks
            } else {
                Phase::Downloading
            },
            ..self
        }
    }

    /// The run after the output texture was read back.
    pub open spec fn with_output(self, bytes: Seq<u8>) -> RunState {
        if bytes.len() == self.layout.spec_byte_len() {
            RunState { output: bytes, phase: Phase::Finished, ..self }
        } else {
            self.failed(BlurError::InvalidImageBuffer)
        }
    }

    /// The run after `event`.  An event that does not answer what the run
    /// is waiting for changes nothing.
    pub open spec fn step(self, event: Event) -> RunState {
        match (self.phase, event) {
            (Phase::AcquiringDevice, Event::DeviceFound) => self.at(Phase::CompilingLibrary),
            (Phase::AcquiringDevice, Event::DeviceMissing) => self.failed(
                BlurError::DeviceUnavailable,
            ),
            (Phase::CompilingLibrary, Event::LibraryCompiled) => self.at(
                Phase::ResolvingFunction(Pass::Horizontal),
            ),
            (Phase::CompilingLibrary, Event::CompileFailed) => self.failed(
                BlurError::ShaderCompileError,
            ),
            (Phase::ResolvingFunction(Pass::Horizontal), Event::FunctionFound) => self.at(
                Phase::ResolvingFunction(Pass::Vertical),
            ),
            (Phase::ResolvingFunction(Pass::Vertical), Event::FunctionFound) => self.at(
                Phase::CreatingPipeline(Pass::Horizontal),
            ),
            (Phase::ResolvingFunction(pass), Event::FunctionMissing) => self.failed(
                BlurError::MissingEntryPoint(pass),
            ),
            (Phase::CreatingPipeline(pass), Event::PipelineCreated(limits)) => self.with_pipeline(
                pass,
                limits,
            ),
            (Phase::CreatingPipeline(pass), Event::PipelineRejected) => self.failed(
                BlurError::PipelineCreationError(pass),
            ),
            (Phase::CreatingTextures, Event::TexturesCreated) => self.at(Phase::Uploading),
            (Phase::Uploading, Event::Uploaded) => self.at(Phase::QueryingCounterSampling),
            (Phase::QueryingCounterSampling, Event::CounterSampling(supported)) => self.at(
                if supported {
                    Phase::ListingCounterSets
                } else {
                    Phase::Encoding
                },
            ),
            (Phase::ListingCounterSets, Event::CounterSets(names)) => self.with_counter_sets(
                names@,
            ),
            (Phase::CreatingCounterBuffer, Event::CounterBuffer(created)) => RunState {
                profiling: ProfilingState::spec_detect(true, created),
                phase: Phase::Encoding,
                ..self
            },
            (Phase::Encoding, Event::Encoded) => self.at(
                if self.profiling == ProfilingState::Armed {
                    Phase::SamplingStartClocks
                } else {
                    Phase::Waiting
                },
            ),
            (Phase::SamplingStartClocks, Event::Clocks(pair)) => self.with_clocks(pair),
            (Phase::Waiting, Event::Completed { host_wait_nanos }) => self.with_completion(
                host_wait_nanos,
            ),
            (Phase::SamplingEndClocks, Event::Clocks(pair)) => self.with_clocks(pair),
            (Phase::ReadingSamples, Event::Samples(bytes)) => self.with_samples(bytes@),
            (Phase::Downloading, Event::Downloaded(bytes)) => self.with_output(bytes@),
            _ => self,
        }
    }

    /// The work that the run is waiting for.
    pub open spec fn pending(self) -> Action {
        match self.phase {
            Phase::AcquiringDevice => Action::AcquireDevice,
            Phase::CompilingLibrary => Action::CompileLibrary,
            Phase::ResolvingFunction(pass) => Action::ResolveFunction(pass),
            Phase::CreatingPipeline(pass) => Action::CreatePipeline(pass),
            Phase::CreatingTextures => Action::CreateTextures(self.layout.spec_descriptor()),
            Phase::Uploading => Action::Upload {
                region: self.layout.spec_region(),
                bytes_per_row: (4 * self.layout.spec_width()) as u64,
            },
            Phase::QueryingCounterSampling => Action::QueryCounterSampling,
            Phase::ListingCounterSets => Action::ListCounterSets,
            Phase::CreatingCounterBuffer => Action::CreateCounterBuffer(
                spec_counter_buffer_descriptor(self.counter_set->0),
            ),
            Phase::Encoding => Action::Encode(
                spec_plan_commands(
                    self.layout,
                    self.horizontal->0,
                    self.vertical->0,
                    self.profiling,
                ),
            ),
            Phase::SamplingStartClocks => Action::SampleClocks,
            Phase::Waiting => Action::CommitAndWait,
            Phase::SamplingEndClocks => Action::SampleClocks,
            Phase::ReadingSamples => Action::ReadSamples { byte_len: 32 },
            Phase::Downloading => Action::Download {
                region: self.layout.spec_region(),
                bytes_per_row: (4 * self.layout.spec_width()) as u64,
                byte_len: self.layout.spec_byte_len() as usize,
            },
            Phase::Finished => Action::Finish,
            Phase::Failed(error) => Action::Abort(error),
        }
    }

    /// What holds of a run at every moment.
    pub open spec fn inv(self) -> bool {
        let rank = self.phase.rank();
        &&& self.layout.wf()
        &&& self.input.len() == self.layout.spec_byte_len()
        &&& 5 <= rank <= 17 ==> self.horizontal is Some
            && self.horizontal->0.thread_execution_width >= 1
        &&& 6 <= rank <= 17 ==> self.vertical is Some
            && self.vertical->0.thread_execution_width >= 1
        &&& rank <= 10 ==> self.profiling == ProfilingState::Unsupported
        &&& rank == 10 ==> self.counter_set is Some
        &&& rank <= 13 ==> self.profiling != ProfilingState::Resolved
        &&& rank == 12 ==> self.profiling == ProfilingState::Armed
        &&& rank == 13 && self.profiling == ProfilingState::Armed ==> self.start_clocks is Some
        &&& 14 <= rank <= 15 ==> self.profiling == ProfilingState::Resolved
        &&& 14 <= rank <= 17 ==> self.profiling != ProfilingState::Armed
        &&& self.profiling == ProfilingState::Resolved ==> self.start_clocks is Some
        &&& rank == 15 ==> self.end_clocks is Some
        &&& self.timing is Some ==> self.profiling == ProfilingState::Resolved && rank >= 16
            && self.timing->0.wf()
        &&& rank == 17 ==> self.output.len() == self.layout.spec_byte_len()
    }
}

/// Every step keeps what holds of a run.
pub proof fn lemma_step_keeps_inv(state: RunState, event: Event)
    requires
        state.inv(),
    ensures
        state.step(event).inv(),
{
}

/// An event that does not answer what the run is waiting for changes
/// nothing; one that does takes the run to a phase of higher rank.  So a
/// run is over after eighteen answers at most.
pub proof fn lemma_step_advances(state: RunState, event: Event)
    ensures
        !state.answers(event) ==> state.step(event) == state,
        state.answers(event) ==> state.step(event).phase.rank() > state.phase.rank(),
        state.step(event).phase.rank() <= 18,
{
}

/// A run that is over stays as it is, whatever it is told.
pub proof fn lemma_over_is_final(state: RunState, event: Event)
    requires
        state.phase.spec_is_over(),
    ensures
        !state.answers(event),
        state.step(event) == state,
{
}

/// No step touches the run's input or its dimensions.
pub proof fn lemma_step_keeps_image(state: RunState, event: Event)
    ensures
        state.step(event).layout == state.layout,
        state.step(event).input == state.input,
{
}

/// The output of a finished run has four bytes for each pixel of the input,
/// and it is what the download delivered.
pub proof fn lemma_finished_output_has_image_size(state: RunState, event: Event)
    requires
        state.inv(),
    ensures
        state.phase == Phase::Finished ==> state.output.len() == 4 * state.layout.spec_width()
            * state.layout.spec_height(),
        state.phase != Phase::Finished && state.step(event).phase == Phase::Finished ==> event
            is Downloaded && state.step(event).output == event->Downloaded_0@,
{
}

/// A run fails only for a cause: each error comes from the one answer that
/// stands for it, in the phase that waits for it.
pub proof fn lemma_failure_has_cause(state: RunState, event: Event, error: BlurError)
    requires
        !(state.phase is Failed),
        state.step(event).phase == Phase::Failed(error),
    ensures
        match error {
            BlurError::DeviceUnavailable => state.phase == Phase::AcquiringDevice
                && event is DeviceMissing,
            BlurError::ShaderCompileError => state.phase == Phase::CompilingLibrary
                && event is CompileFailed,
            BlurError::MissingEntryPoint(pass) => state.phase == Phase::ResolvingFunction(pass)
                && event is FunctionMissing,
            BlurError::PipelineCreationError(pass) => state.phase == Phase::CreatingPipeline(pass)
                && (event is PipelineRejected || (event is PipelineCreated
                && event->PipelineCreated_0.thread_execution_width == 0)),
            BlurError::InvalidImageBuffer => state.phase == Phase::Downloading
                && event is Downloaded && event->Downloaded_0@.len()
                != state.layout.spec_byte_len(),
        },
{
}

/// Profiling never stands in the way: a run on a device without counters
/// encodes no sampling and no resolve, never asks for clocks or samples,
/// and ends without a timing.
pub proof fn lemma_unsupported_run_skips_profiling(state: RunState, event: Event)
    requires
        state.inv(),
        state.profiling == ProfilingState::Unsupported,
    ensures
        state.timing is None,
        state.phase == Phase::Encoding ==> {
            let plan = spec_plan_commands(
                state.layout,
                state.horizontal->0,
                state.vertical->0,
                state.profiling,
            );
            plan.resolve is None && plan.horizontal.sampling is None
                && plan.vertical.sampling is None
        },
        state.phase.rank() >= 11 ==> state.step(event).profiling == ProfilingState::Unsupported
            && state.step(event).phase != Phase::SamplingStartClocks && state.step(event).phase
            != Phase::SamplingEndClocks && state.step(event).phase != Phase::ReadingSamples,
{
}

/// The state of a run whose pipelines and textures are ready and whose
/// input is on the device, after the seven answers that lead there.
pub open spec fn spec_prepared(
    start: RunState,
    horizontal: PipelineLimits,
    vertical: PipelineLimits,
) -> RunState {
    start.step(Event::DeviceFound).step(Event::LibraryCompiled).step(Event::FunctionFound).step(
        Event::FunctionFound,
    ).step(Event::PipelineCreated(horizontal)).step(Event::PipelineCreated(vertical)).step(
        Event::TexturesCreated,
    ).step(Event::Uploaded)
}

/// The first part of every run that meets no failure: the device, the
/// library, both entry points, both pipelines, the textures and the upload,
/// in this order, and then the question about counter sampling.
pub proof fn lemma_course_of_preparation(
    start: RunState,
    horizontal: PipelineLimits,
    vertical: PipelineLimits,
)
    requires
        start.inv(),
        start.phase == Phase::AcquiringDevice,
        horizontal.thread_execution_width >= 1,
        vertical.thread_execution_width >= 1,
    ensures
        ({
            let s1 = start.step(Event::DeviceFound);
            let s2 = s1.step(Event::LibraryCompiled);
            let s3 = s2.step(Event::FunctionFound);
            let s4 = s3.step(Event::FunctionFound);
            let s5 = s4.step(Event::PipelineCreated(horizontal));
            let s6 = s5.step(Event::PipelineCreated(vertical));
            let s7 = s6.step(Event::TexturesCreated);
            let s8 = s7.step(Event::Uploaded);
            &&& start.pending() == Action::AcquireDevice
            &&& s1.pending() == Action::CompileLibrary
            &&& s2.pending() == Action::ResolveFunction(Pass::Horizontal)
            &&& s3.pending() == Action::ResolveFunction(Pass::Vertical)
            &&& s4.pending() == Action::CreatePipeline(Pass::Horizontal)
            &&& s5.pending() == Action::CreatePipeline(Pass::Vertical)
            &&& s6.pending() == Action::CreateTextures(start.layout.spec_descriptor())
            &&& s7.pending() == Action::Upload {
                region: start.layout.spec_region(),
                bytes_per_row: (4 * start.layout.spec_width()) as u64,
            }
            &&& s8.pending() == Action::QueryCounterSampling
            &&& s8 == spec_prepared(start, horizontal, vertical)
            &&& s8 == RunState {
                horizontal: Some(horizontal),
                vertical: Some(vertical),
                phase: Phase::QueryingCounterSampling,
                ..start
            }
            &&& s8.inv()
        }),
{
}

/// The rest of a run on a device that does not sample counters: it encodes
/// two bare passes, waits, downloads and is finished, with the downloaded
/// bytes as its output, the measured wait, and no timing.
pub proof fn lemma_course_without_counters(
    prepared: RunState,
    host_wait_nanos: u128,
    downloaded: Vec<u8>,
)
    requires
        prepared.inv(),
        prepared.phase == Phase::QueryingCounterSampling,
        downloaded@.len() == prepared.layout.spec_byte_len(),
    ensures
        ({
            let s1 = prepared.step(Event::CounterSampling(false));
            let s2 = s1.step(Event::Encoded);
            let s3 = s2.step(Event::Completed { host_wait_nanos });
            let s4 = s3.step(Event::Downloaded(downloaded));
            let plan = spec_plan_commands(
                prepared.layout,
                prepared.horizontal->0,
                prepared.vertical->0,
                ProfilingState::Unsupported,
            );
            &&& s1.pending() == Action::Encode(plan)
            &&& plan.resolve is None
            &&& plan.horizontal.sampling is None
            &&& plan.vertical.sampling is None
            &&& s2.pending() == Action::CommitAndWait
            &&& s3.pending() == Action::Download {
                region: prepared.layout.spec_region(),
                bytes_per_row: (4 * prepared.layout.spec_width()) as u64,
                byte_len: prepared.layout.spec_byte_len() as usize,
            }
            &&& s4.pending() == Action::Finish
            &&& s4 == RunState {
                phase: Phase::Finished,
                host_wait_nanos,
                output: downloaded@,
                ..prepared
            }
            &&& s4.timing is None
        }),
{
}

/// The rest of a run on a device that samples counters, has a timestamp
/// counter set and makes the sample buffer: the passes are bracketed by
/// slots 0/1 and 2/3 and followed by the resolve; a clock pair is taken
/// before the commit and another after completion; the samples are read,
/// and the timing is what they and the two pairs give.
pub proof fn lemma_course_with_counters(
    prepared: RunState,
    names: Vec<String>,
    first: ClockPair,
    host_wait_nanos: u128,
    second: ClockPair,
    samples: Vec<u8>,
    downloaded: Vec<u8>,
)
    requires
        prepared.inv(),
        prepared.phase == Phase::QueryingCounterSampling,
        spec_find_timestamp(names@) is Some,
        downloaded@.len() == prepared.layout.spec_byte_len(),
    ensures
        ({
            let s1 = prepared.step(Event::CounterSampling(true));
            let s2 = s1.step(Event::CounterSets(names));
            let s3 = s2.step(Event::CounterBuffer(true));
            let s4 = s3.step(Event::Encoded);
            let s5 = s4.step(Event::Clocks(first));
            let s6 = s5.step(Event::Completed { host_wait_nanos });
            let s7 = s6.step(Event::Clocks(second));
            let s8 = s7.step(Event::Samples(samples));
            let s9 = s8.step(Event::Downloaded(downloaded));
            let plan = spec_plan_commands(
                prepared.layout,
                prepared.horizontal->0,
                prepared.vertical->0,
                ProfilingState::Armed,
            );
            &&& s1.pending() == Action::ListCounterSets
            &&& s2.pending() == Action::CreateCounterBuffer(
                spec_counter_buffer_descriptor(spec_find_timestamp(names@)->0),
            )
            &&& s3.profiling == ProfilingState::Armed
            &&& s3.pending() == Action::Encode(plan)
            &&& plan.horizontal.sampling == Some(SampleSlots { start: 0, end: 1 })
            &&& plan.vertical.sampling == Some(SampleSlots { start: 2, end: 3 })
            &&& plan.resolve == Some(
                ResolveCommand { first_sample: 0, sample_count: 4, destination_offset: 0 },
            )
            &&& s4.pending() == Action::SampleClocks
            &&& s5.pending() == Action::CommitAndWait
            &&& s6.profiling == ProfilingState::Resolved
            &&& s6.pending() == Action::SampleClocks
            &&& s7.pending() == Action::ReadSamples { byte_len: 32 }
            &&& s8.pending() == Action::Download {
                region: prepared.layout.spec_region(),
                bytes_per_row: (4 * prepared.layout.spec_width()) as u64,
                byte_len: prepared.layout.spec_byte_len() as usize,
            }
            &&& s9.pending() == Action::Finish
            &&& s9.phase == Phase::Finished
            &&& s9.output == downloaded@
            &&& s9.host_wait_nanos == host_wait_nanos
            &&& s9.timing == spec_run_timing(samples@, Some(first), Some(second))
        }),
{
}

/// A device that samples counters but has no timestamp counter set, or
/// cannot make the sample buffer, is treated like one that does not
/// sample: the run goes on to encode without profiling.
pub proof fn lemma_counter_gaps_disable_profiling(prepared: RunState, names: Vec<String>)
    requires
        prepared.inv(),
        prepared.phase == Phase::QueryingCounterSampling,
    ensures
        ({
            let listed = prepared.step(Event::CounterSampling(true)).step(
                Event::CounterSets(names),
            );
            let refused = listed.step(Event::CounterBuffer(false));
            &&& spec_find_timestamp(names@) is None ==> listed == prepared.at(Phase::Encoding)
            &&& spec_find_timestamp(names@) is Some ==> refused.phase == Phase::Encoding
                && refused.profiling == ProfilingState::Unsupported
        }),
{
}

/// What a finished run hands out.
pub struct Report {
    /// The blurred image.
    pub picture: Picture,
    /// The timings of the two passes on the device, where the device's
    /// counters gave any.
    pub timing: Option<GpuTiming>,
    /// How long the host waited for the command buffer, in nanoseconds.
    pub host_wait_nanos: u128,
}

/// One blur run over one image.
pub struct Run {
    layout: ImageLayout,
    input: Vec<u8>,
    phase: Phase,
    horizontal: Option<PipelineLimits>,
    vertical: Option<PipelineLimits>,
    profiling: ProfilingState,
    counter_set: Option<usize>,
    start_clocks: Option<ClockPair>,
    end_clocks: Option<ClockPair>,
    host_wait_nanos: u128,
    timing: Option<GpuTiming>,
    output: Vec<u8>,
}

impl View for Run {
    type V = RunState;

    closed spec fn view(&self) -> RunState {
        RunState {
            layout: self.layout,
            input: self.input@,
            phase: self.phase,
            horizontal: self.horizontal,
            vertical: self.vertical,
            profiling: self.profiling,
            counter_set: self.counter_set,
            start_clocks: self.start_clocks,
            end_clocks: self.end_clocks,
            host_wait_nanos: self.host_wait_nanos,
            timing: self.timing,
            output: self.output@,
        }
    }
}

impl Run {
    #[verifier::type_invariant]
    closed spec fn well_formed(self) -> bool {
        self@.inv()
    }

    /// Starts a run over an image of `width` by `height` pixels whose
    /// tightly packed RGBA8 bytes are `bytes`.  The image is turned down
    /// if a side is zero or if `bytes` does not hold four bytes for each
    /// pixel and nothing else.
    pub fn new(width: u32, height: u32, bytes: Vec<u8>) -> (made: Result<Run, BlurError>)
        ensures
            made is Ok <==> width >= 1 && height >= 1 && bytes@.len() == 4 * width * height,
            made is Ok ==> made->Ok_0@ == RunState::start(made->Ok_0@.layout, bytes@)
                && made->Ok_0@.layout.spec_width() == width && made->Ok_0@.layout.spec_height()
                == height && made->Ok_0@.inv(),
            made is Err ==> made->Err_0 == BlurError::InvalidImageBuffer,
    {
        match ImageLayout::for_buffer(width, height, bytes.len()) {
            Ok(layout) => Ok(
                Run {
                    layout,
                    input: bytes,
                    phase: Phase::AcquiringDevice,
                    horizontal: None,
                    vertical: None,
                    profiling: ProfilingState::Unsupported,
                    counter_set: None,
                    start_clocks: None,
                    end_clocks: None,
                    host_wait_nanos: 0,
                    timing: None,
                    output: Vec::new(),
                },
            ),
            Err(error) => Err(error),
        }
    }

    /// What the run is waiting for.
    pub fn phase(&self) -> (phase: Phase)
        ensures
            phase == self@.phase,
    {
        self.phase
    }

    /// The dimensions of the run's image and of its three textures.
    pub fn layout(&self) -> (layout: ImageLayout)
        ensures
            layout == self@.layout,
            layout.wf(),
    {
        proof {
            use_type_invariant(self);
        }
        self.layout
    }

    /// The bytes of the run's input image.
    pub fn input(&self) -> (bytes: &Vec<u8>)
        ensures
            bytes@ == self@.input,
            bytes@.len() == self@.layout.spec_byte_len(),
    {
        proof {
            use_type_invariant(self);
        }
        &self.input
    }

    /// Where the run stands with its counters.
    pub fn profiling(&self) -> (state: ProfilingState)
        ensures
            state == self@.profiling,
    {
        self.profiling
    }

    /// The work that the caller is to do next.
    pub fn pending(&self) -> (action: Action)
        ensures
            action == self@.pending(),
            self@.inv(),
    {
        proof {
            use_type_invariant(self);
        }
        match self.phase {
            Phase::AcquiringDevice => Action::AcquireDevice,
            Phase::CompilingLibrary => Action::CompileLibrary,
            Phase::ResolvingFunction(pass) => Action::ResolveFunction(pass),
            Phase::CreatingPipeline(pass) => Action::CreatePipeline(pass),
            Phase::CreatingTextures => Action::CreateTextures(self.layout.descriptor()),
            Phase::Uploading => Action::Upload {
                region: self.layout.region(),
                bytes_per_row: self.layout.bytes_per_row(),
            },
            Phase::QueryingCounterSampling => Action::QueryCounterSampling,
            Phase::ListingCounterSets => Action::ListCounterSets,
            Phase::CreatingCounterBuffer => {
                match self.counter_set {
                    Some(index) => Action::CreateCounterBuffer(counter_buffer_descriptor(index)),
                    None => {
                        assert(false);
                        Action::Finish
                    },
                }
            },
            Phase::Encoding => {
                match (self.horizontal, self.vertical) {
                    (Some(horizontal), Some(vertical)) => Action::Encode(
                        plan_commands(&self.layout, horizontal, vertical, self.profiling),
                    ),
                    _ => {
                        assert(false);
                        Action::Finish
                    },
                }
            },
            Phase::SamplingStartClocks => Action::SampleClocks,
            Phase::Waiting => Action::CommitAndWait,
            Phase::SamplingEndClocks => Action::SampleClocks,
            Phase::ReadingSamples => Action::ReadSamples { byte_len: RESOLVED_BYTES },
            Phase::Downloading => Action::Download {
                region: self.layout.region(),
                bytes_per_row: self.layout.bytes_per_row(),
                byte_len: self.layout.byte_len(),
            },
            Phase::Finished => Action::Finish,
            Phase::Failed(error) => Action::Abort(error),
        }
    }

    /// The same run in another phase.
    fn at(self, phase: Phase) -> (next: Run)
        requires
            self@.at(phase).inv(),
        ensures
            next@ == self@.at(phase),
    {
        Run { phase, ..self }
    }

    /// The run after a pipeline reported `limits`.
    fn with_pipeline(self, pass: Pass, limits: PipelineLimits) -> (next: Run)
        requires
            self@.with_pipeline(pass, limits).inv(),
        ensures
            next@ == self@.with_pipeline(pass, limits),
    {
        if limits.thread_execution_width == 0 {
            self.at(Phase::Failed(BlurError::PipelineCreationError(pass)))
        } else {
            match pass {
                Pass::Horizontal => Run {
                    horizontal: Some(limits),
                    phase: Phase::CreatingPipeline(Pass::Vertical),
                    ..self
                },
                Pass::Vertical => Run {
                    vertical: Some(limits),
                    phase: Phase::CreatingTextures,
                    ..self
                },
            }
        }
    }

    /// The run after the device listed its counter sets.
    fn with_counter_sets(self, names: &Vec<String>) -> (next: Run)
        requires
            self@.with_counter_sets(names@).inv(),
        ensures
            next@ == self@.with_counter_sets(names@),
    {
        match find_timestamp_counter_set(names) {
            Some(index) => Run {
                counter_set: Some(index),
                phase: Phase::CreatingCounterBuffer,
                ..self
            },
            None => self.at(Phase::Encoding),
        }
    }

    /// The run after the command buffer completed.
    fn with_completion(self, host_wait_nanos: u128) -> (next: Run)
        requires
            self@.with_completion(host_wait_nanos).inv(),
        ensures
            next@ == self@.with_completion(host_wait_nanos),
    {
        let profiling = self.profiling.completed();
        Run {
            host_wait_nanos,
            profiling,
            phase: match profiling {
                ProfilingState::Resolved => Phase::SamplingEndClocks,
                _ => Phase::Downloading,
            },
            ..self
        }
    }

    /// The run after one of the two clock readings.
    fn with_clocks(self, pair: ClockPair) -> (next: Run)
        requires
            self@.phase == Phase::SamplingStartClocks || self@.phase == Phase::SamplingEndClocks,
            self@.with_clocks(pair).inv(),
        ensures
            next@ == self@.with_clocks(pair),
    {
        match self.phase {
            Phase::SamplingStartClocks => Run {
                start_clocks: Some(pair),
                phase: Phase::Waiting,
                ..self
            },
            _ => Run { end_clocks: Some(pair), phase: Phase::ReadingSamples, ..self },
        }
    }

    /// The run after the resolved samples were read.
    fn with_samples(self, bytes: &Vec<u8>) -> (next: Run)
        requires
            self@.with_samples(bytes@).inv(),
        ensures
            next@ == self@.with_samples(bytes@),
    {
        let timing = run_timing(bytes.as_slice(), self.start_clocks, self.end_clocks);
        Run { timing, phase: Phase::Downloading, ..self }
    }

    /// The run after the output texture was read back.
    fn with_output(self, bytes: Vec<u8>) -> (next: Run)
        requires
            self@.with_output(bytes@).inv(),
        ensures
            next@ == self@.with_output(bytes@),
    {
        proof {
            use_type_invariant(&self);
        }
        if bytes.len() == self.layout.byte_len() {
            Run { output: bytes, phase: Phase::Finished, ..self }
        } else {
            self.at(Phase::Failed(BlurError::InvalidImageBuffer))
        }
    }

    /// Takes in the outcome of the work that the run asked for and moves
    /// on.  An event that does not answer the pending work is ignored.
    pub fn step(self, event: Event) -> (next: Run)
        ensures
            next@ == self@.step(event),
            next@.inv(),
    {
        proof {
            use_type_invariant(&self);
            lemma_step_keeps_inv(self@, event);
        }
        match (self.phase, event) {
            (Phase::AcquiringDevice, Event::DeviceFound) => self.at(Phase::CompilingLibrary),
            (Phase::AcquiringDevice, Event::DeviceMissing) => self.at(
                Phase::Failed(BlurError::DeviceUnavailable),
            ),
            (Phase::CompilingLibrary, Event::LibraryCompiled) => self.at(
                Phase::ResolvingFunction(Pass::Horizontal),
            ),
            (Phase::CompilingLibrary, Event::CompileFailed) => self.at(
                Phase::Failed(BlurError::ShaderCompileError),
            ),
            (Phase::ResolvingFunction(Pass::Horizontal), Event::FunctionFound) => self.at(
                Phase::ResolvingFunction(Pass::Vertical),
            ),
            (Phase::ResolvingFunction(Pass::Vertical), Event::FunctionFound) => self.at(
                Phase::CreatingPipeline(Pass::Horizontal),
            ),
            (Phase::ResolvingFunction(pass), Event::FunctionMissing) => self.at(
                Phase::Failed(BlurError::MissingEntryPoint(pass)),
            ),
            (Phase::CreatingPipeline(pass), Event::PipelineCreated(limits)) => self.with_pipeline(
                pass,
                limits,
            ),
            (Phase::CreatingPipeline(pass), Event::PipelineRejected) => self.at(
                Phase::Failed(BlurError::PipelineCreationError(pass)),
            ),
            (Phase::CreatingTextures, Event::TexturesCreated) => self.at(Phase::Uploading),
            (Phase::Uploading, Event::Uploaded) => self.at(Phase::QueryingCounterSampling),
            (Phase::QueryingCounterSampling, Event::CounterSampling(supported)) => {
                if supported {
                    self.at(Phase::ListingCounterSets)
                } else {
                    self.at(Phase::Encoding)
                }
            },
            (Phase::ListingCounterSets, Event::CounterSets(names)) => self.with_counter_sets(
                &names,
            ),
            (Phase::CreatingCounterBuffer, Event::CounterBuffer(created)) => Run {
                profiling: ProfilingState::detect(true, created),
                phase: Phase::Encoding,
                ..self
            },
            (Phase::Encoding, Event::Encoded) => {
                match self.profiling {
                    ProfilingState::Armed => self.at(Phase::SamplingStartClocks),
                    _ => self.at(Phase::Waiting),
                }
            },
            (Phase::SamplingStartClocks, Event::Clocks(pair)) => self.with_clocks(pair),
            (Phase::Waiting, Event::Completed { host_wait_nanos }) => self.with_completion(
                host_wait_nanos,
            ),
            (Phase::SamplingEndClocks, Event::Clocks(pair)) => self.with_clocks(pair),
            (Phase::ReadingSamples, Event::Samples(bytes)) => self.with_samples(&bytes),
            (Phase::Downloading, Event::Downloaded(bytes)) => self.with_output(bytes),
            _ => self,
        }
    }

    /// The report of a finished run: the blurred image, as large as the
    /// input, the device's timing and the host's wait.  A run that is not
    /// finished has no report.
    pub fn into_report(self) -> (report: Option<Report>)
        ensures
            report is Some <==> self@.phase == Phase::Finished,
            report is Some ==> {
                &&& picture_bytes(report->0.picture) == self@.output
                &&& picture_bytes(report->0.picture).len() == 4 * self@.layout.spec_width()
                    * self@.layout.spec_height()
                &&& report->0.picture.spec_width() == self@.layout.spec_width()
                &&& report->0.picture.spec_height() == self@.layout.spec_height()
                &&& report->0.timing == self@.timing
                &&& report->0.host_wait_nanos == self@.host_wait_nanos
                &&& self@.profiling == ProfilingState::Unsupported ==> report->0.timing is None
            },
    {
        proof {
            use_type_invariant(&self);
            lemma_image_bytes(self.layout.spec_width(), self.layout.spec_height());
        }
        match self.phase {
            Phase::Finished => {
                let width: u32 = self.layout.width();
                let height: u32 = self.layout.height();
                assert(4 * width <= 4 * width * height) by (nonlinear_arith)
                    requires
                        height >= 1,
                ;
                match Picture::new(width, height, self.output) {
                    Ok(picture) => Some(
                        Report {
                            picture,
                            timing: self.timing,
                            host_wait_nanos: self.host_wait_nanos,
                        },
                    ),
                    Err(_) => None,
                }
            },
            _ => None,
        }
    }
}

/// The timing that resolved samples and the two clock pairs give.
pub fn run_timing(bytes: &[u8], start: Option<ClockPair>, end: Option<ClockPair>) -> (timing:
    Option<GpuTiming>)
    ensures
        timing == spec_run_timing(bytes@, start, end),
        timing is Some ==> timing->0.wf(),
{
    match (decode_samples(bytes), start, end) {
        (Some(samples), Some(start), Some(end)) => gpu_timing(samples, start, end),
        _ => None,
    }
}

} // verus!
