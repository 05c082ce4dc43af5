use gpu_blur::pipeline::Pass;
use gpu_blur::profiling::{
    counter_buffer_descriptor, find_timestamp_counter_set, resolve_command, sample_slots,
    CounterBufferDescriptor, ProfilingState, ResolveCommand, SampleSlots, NUM_SAMPLES,
    RESOLVED_BYTES, SAMPLE_BYTES,
};
use gpu_blur::resource::StorageMode;

fn names(list: &[&str]) -> Vec<String> {
    list.iter().map(|s| s.to_string()).collect()
}

#[test]
fn slots_bracket_the_passes_in_order() {
    assert_eq!(sample_slots(Pass::Horizontal), SampleSlots { start: 0, end: 1 });
    assert_eq!(sample_slots(Pass::Vertical), SampleSlots { start: 2, end: 3 });
}

#[test]
fn sample_budget_is_four_words() {
    assert_eq!(NUM_SAMPLES, 4);
    assert_eq!(SAMPLE_BYTES, 8);
    assert_eq!(RESOLVED_BYTES, 32);
    assert_eq!(
        resolve_command(),
        ResolveCommand { first_sample: 0, sample_count: 4, destination_offset: 0 }
    );
}

#[test]
fn armed_needs_support_and_a_buffer() {
    assert_eq!(ProfilingState::detect(true, true), ProfilingState::Armed);
    assert_eq!(ProfilingState::detect(true, false), ProfilingState::Unsupported);
    assert_eq!(ProfilingState::detect(false, true), ProfilingState::Unsupported);
    assert_eq!(ProfilingState::detect(false, false), ProfilingState::Unsupported);
}

#[test]
fn completion_resolves_an_armed_run() {
    assert_eq!(ProfilingState::Armed.completed(), ProfilingState::Resolved);
    assert_eq!(ProfilingState::Resolved.completed(), ProfilingState::Resolved);
    assert_eq!(ProfilingState::Unsupported.completed(), ProfilingState::Unsupported);
}

#[test]
fn only_an_unsupported_run_does_not_sample() {
    assert!(!ProfilingState::Unsupported.samples());
    assert!(ProfilingState::Armed.samples());
    assert!(ProfilingState::Resolved.samples());
}

#[test]
fn timestamp_set_is_found_by_name() {
    assert_eq!(find_timestamp_counter_set(&names(&[])), None);
    assert_eq!(find_timestamp_counter_set(&names(&["timestamp"])), Some(0));
    assert_eq!(find_timestamp_counter_set(&names(&["stagetime", "timestamp"])), Some(1));
    assert_eq!(
        find_timestamp_counter_set(&names(&["a", "timestamp", "b", "timestamp"])),
        Some(1)
    );
    assert_eq!(find_timestamp_counter_set(&names(&["Timestamp", "timestamps", "time"])), None);
    assert_eq!(find_timestamp_counter_set(&names(&["", "timestam", " timestamp"])), None);
}

#[test]
fn counter_buffer_holds_four_shared_samples() {
    assert_eq!(
        counter_buffer_descriptor(1),
        CounterBufferDescriptor {
            counter_set: 1,
            sample_count: 4,
            storage_mode: StorageMode::Shared,
        }
    );
    assert_eq!(counter_buffer_descriptor(0).counter_set, 0);
}
