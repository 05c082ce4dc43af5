//! Device-side timing with hardware timestamp counters: whether a run can
//! sample them, where each pass writes its samples, and how raw counter
//! values become durations on the host's clock.

use vstd::prelude::*;
use crate::pipeline::Pass;
use crate::resource::StorageMode;

verus! {

/// Samples in a counter sample buffer: a begin and an end for each pass.
pub const NUM_SAMPLES: u64 = 4;

/// Bytes of one resolved sample.
pub const SAMPLE_BYTES: usize = 8;

/// Bytes of the buffer into which the samples are resolved.
pub const RESOLVED_BYTES: usize = 32;

/// Where a run stands with its counters.
#[derive(Clone, Copy, Debug, PartialEq, Eq, Structural)]
pub enum ProfilingState {
    /// No counter sampling: the run reports the host's wait only.
    Unsupported,
    /// A sample buffer exists and is attached to both passes.
    Armed,
    /// The samples have been copied to a buffer that the host reads.
    Resolved,
}

impl ProfilingState {
    /// The state at the start of a run: armed exactly when the device
    /// samples counters at stage boundaries and a sample buffer could be
    /// made.
    pub open spec fn spec_detect(samples_at_stage_boundary: bool, buffer_created: bool) -> Self {
        if samples_at_stage_boundary && buffer_created {
            ProfilingState::Armed
        } else {
            ProfilingState::Unsupported
        }
    }

    /// The state once the command buffer has completed.
    pub open spec fn spec_completed(self) -> Self {
        match self {
            ProfilingState::Unsupported => ProfilingState::Unsupported,
            _ => ProfilingState::Resolved,
        }
    }

    /// Whether the passes carry sample attachments and a resolve follows them.
    pub open spec fn spec_samples(self) -> bool {
        self != ProfilingState::Unsupported
    }

    /// The state at the start of a run.
    pub fn detect(samples_at_stage_boundary: bool, buffer_created: bool) -> (state: Self)
        ensures
            state == Self::spec_detect(samples_at_stage_boundary, buffer_created),
            state != ProfilingState::Resolved,
    {
        if samples_at_stage_boundary && buffer_created {
            ProfilingState::Armed
        } else {
            ProfilingState::Unsupported
        }
    }

    /// The state once the command buffer has completed: an armed run is
    /// resolved, a run without counters stays without.
    pub fn completed(self) -> (state: Self)
        ensures
            state == self.spec_completed(),
            state != ProfilingState::Armed,
            state.spec_samples() == self.spec_samples(),
    {
        match self {
            ProfilingState::Unsupported => ProfilingState::Unsupported,
            _ => ProfilingState::Resolved,
        }
    }

    /// Whether the passes carry sample attachments and a resolve follows them.
    pub fn samples(self) -> (sampling: bool)
        ensures
            sampling == self.spec_samples(),
    {
        match self {
            ProfilingState::Unsupported => false,
            _ => true,
        }
    }
}

/// The two slots of the sample buffer that bracket one pass.
#[derive(Clone, Copy, Debug, PartialEq, Eq, Structural)]
pub struct SampleSlots {
    /// Written when the pass's encoder starts.
    pub start: u64,
    /// Written when the pass's encoder ends.
    pub end: u64,
}

/// Slots 0 and 1 bracket the horizontal pass, slots 2 and 3 the vertical.
pub open spec fn spec_sample_slots(pass: Pass) -> SampleSlots {
    match pass {
        Pass::Horizontal => SampleSlots { start: 0, end: 1 },
        Pass::Vertical => SampleSlots { start: 2, end: 3 },
    }
}

/// The slots that bracket `pass`.
pub fn sample_slots(pass: Pass) -> (slots: SampleSlots)
    ensures
        slots == spec_sample_slots(pass),
        slots.start + 1 == slots.end,
        slots.end < NUM_SAMPLES,
{
    match pass {
        Pass::Horizontal => SampleSlots { start: 0, end: 1 },
        Pass::Vertical => SampleSlots { start: 2, end: 3 },
    }
}

/// The two passes share no slot, and between them they use all four.
pub proof fn lemma_sample_slots_partition(first: Pass, second: Pass, slot: u64)
    requires
        slot < NUM_SAMPLES,
    ensures
        first != second ==> {
            let a = spec_sample_slots(first);
            let b = spec_sample_slots(second);
            a.start != b.start && a.start != b.end && a.end != b.start && a.end != b.end
        },
        slot == spec_sample_slots(Pass::Horizontal).start || slot == spec_sample_slots(
            Pass::Horizontal,
        ).end || slot == spec_sample_slots(Pass::Vertical).start || slot == spec_sample_slots(
            Pass::Vertical,
        ).end,
{
}

/// What a counter sample buffer is created from.
#[derive(Clone, Copy, Debug, PartialEq, Eq, Structural)]
pub struct CounterBufferDescriptor {
    /// Index of the timestamp counter set among the device's counter sets.
    pub counter_set: usize,
    pub sample_count: u64,
    pub storage_mode: StorageMode,
}

/// The copy of raw samples into a buffer that the host reads.
#[derive(Clone, Copy, Debug, PartialEq, Eq, Structural)]
pub struct ResolveCommand {
    pub first_sample: u64,
    pub sample_count: u64,
    pub destination_offset: u64,
}

/// The resolve of a run: all four samples, to the start of the buffer.
pub open spec fn spec_resolve_command() -> ResolveCommand {
    ResolveCommand { first_sample: 0, sample_count: 4, destination_offset: 0 }
}

/// The resolve of a run.
pub fn resolve_command() -> (command: ResolveCommand)
    ensures
        command == spec_resolve_command(),
        command.sample_count * SAMPLE_BYTES == RESOLVED_BYTES,
{
    ResolveCommand { first_sample: 0, sample_count: NUM_SAMPLES, destination_offset: 0 }
}

/// The name of the counter set that holds the timestamp counter.
pub open spec fn spec_timestamp_name() -> Seq<char> {
    "timestamp"@
}

/// Whether `index` is the first place in `names` that holds the timestamp
/// counter set's name.
pub open spec fn is_first_timestamp(names: Seq<String>, index: int) -> bool {
    &&& 0 <= index < names.len()
    &&& names[index]@ == spec_timestamp_name()
    &&& forall|j: int| 0 <= j < index ==> names[j]@ != spec_timestamp_name()
}

/// The index of the first counter set called "timestamp", if there is one.
pub open spec fn spec_find_timestamp(names: Seq<String>) -> Option<usize> {
    if exists|i: int| is_first_timestamp(names, i) {
        Some((choose|i: int| is_first_timestamp(names, i)) as usize)
    } else {
        None
    }
}

/// There is one first place at most.
pub proof fn lemma_first_timestamp_is_unique(names: Seq<String>, i: int, j: int)
    requires
        is_first_timestamp(names, i),
        is_first_timestamp(names, j),
    ensures
        i == j,
{
    if i < j {
        assert(names[i]@ != spec_timestamp_name());
    } else if j < i {
        assert(names[j]@ != spec_timestamp_name());
    }
}

/// Looks for the timestamp counter set among the names of a device's
/// counter sets and returns the index of the first one so called.
pub fn find_timestamp_counter_set(names: &Vec<String>) -> (found: Option<usize>)
    ensures
        found == spec_find_timestamp(names@),
        found is Some ==> is_first_timestamp(names@, found->0 as int),
        found is None ==> forall|j: int|
            0 <= j < names@.len() ==> names@[j]@ != spec_timestamp_name(),
{
    let wanted: String = "timestamp".to_owned();
    let mut index: usize = 0;
    while index < names.len()
        invariant
            index <= names@.len(),
            wanted@ == spec_timestamp_name(),
            forall|j: int| 0 <= j < index ==> names@[j]@ != spec_timestamp_name(),
        decreases names@.len() - index,
    {
        if names[index] == wanted {
            proof {
                assert(is_first_timestamp(names@, index as int));
                let chosen = choose|i: int| is_first_timestamp(names@, i);
                lemma_first_timestamp_is_unique(names@, chosen, index as int);
            }
            return Some(index);
        }
        index = index + 1;
    }
    None
}

/// The descriptor of a run's counter sample buffer.
pub open spec fn spec_counter_buffer_descriptor(counter_set: usize) -> CounterBufferDescriptor {
    CounterBufferDescriptor { counter_set, sample_count: 4, storage_mode: StorageMode::Shared }
}

/// The descriptor of a run's counter sample buffer: four samples of the
/// counter set at `counter_set`, in shared storage.
pub fn counter_buffer_descriptor(counter_set: usize) -> (descriptor: CounterBufferDescriptor)
    ensures
        descriptor == spec_counter_buffer_descriptor(counter_set),
        descriptor.sample_count == NUM_SAMPLES,
{
    CounterBufferDescriptor {
        counter_set,
        sample_count: NUM_SAMPLES,
        storage_mode: StorageMode::Shared,
    }
}

} // verus!
