use gpu_blur::dispatch::{dispatch_2d, group_height, groups_needed, Extent, PipelineLimits};

fn limits(width: u64, total: u64) -> PipelineLimits {
    PipelineLimits { thread_execution_width: width, max_total_threads_per_threadgroup: total }
}

#[test]
fn group_height_is_quotient_between_one_and_sixteen() {
    assert_eq!(group_height(limits(32, 1024)), 16);
    assert_eq!(group_height(limits(32, 256)), 8);
    assert_eq!(group_height(limits(64, 32)), 1);
    assert_eq!(group_height(limits(1, 0)), 1);
    assert_eq!(group_height(limits(1, u64::MAX)), 16);
    assert_eq!(group_height(limits(64, 1024)), 16);
    assert_eq!(group_height(limits(64, 1023)), 15);
}

#[test]
fn group_height_matches_clamp_for_all_small_widths() {
    for tw in 1u64..=64 {
        for m in [0u64, 1, 31, 32, 63, 64, 100, 512, 768, 1024, 2048, 4096] {
            let th = group_height(limits(tw, m));
            assert!(1 <= th && th <= 16);
            assert_eq!(th, std::cmp::max(1, std::cmp::min(16, m / tw)));
        }
    }
}

#[test]
fn groups_needed_rounds_up() {
    assert_eq!(groups_needed(0, 32), 0);
    assert_eq!(groups_needed(1, 32), 1);
    assert_eq!(groups_needed(32, 32), 1);
    assert_eq!(groups_needed(33, 32), 2);
    assert_eq!(groups_needed(1920, 32), 60);
    assert_eq!(groups_needed(1080, 16), 68);
    assert_eq!(groups_needed(u64::MAX, 1), u64::MAX);
    assert_eq!(groups_needed(u64::MAX, 2), 1u64 << 63);
    assert_eq!(groups_needed(u64::MAX, u64::MAX), 1);
}

#[test]
fn dispatch_covers_every_pixel() {
    let plan = dispatch_2d(limits(32, 1024), 1920, 1080);
    assert_eq!(plan.threads_per_group, Extent { width: 32, height: 16, depth: 1 });
    assert_eq!(plan.groups, Extent { width: 60, height: 68, depth: 1 });
    for (w, h) in [(1u64, 1u64), (4, 4), (33, 17), (640, 480), (1000, 1), (1, 1000)] {
        for (tw, m) in [(1u64, 1u64), (8, 64), (32, 512), (64, 1024), (64, 1)] {
            let plan = dispatch_2d(limits(tw, m), w, h);
            let th = plan.threads_per_group.height;
            assert_eq!(plan.threads_per_group.width, tw);
            assert_eq!(plan.threads_per_group.depth, 1);
            assert_eq!(plan.groups.depth, 1);
            assert!(plan.groups.width * tw >= w);
            assert!(plan.groups.height * th >= h);
            assert!((plan.groups.width - 1) * tw < w);
            assert!((plan.groups.height - 1) * th < h);
        }
    }
}

#[test]
fn dispatch_of_an_empty_extent_has_no_groups() {
    let plan = dispatch_2d(limits(32, 1024), 0, 0);
    assert_eq!(plan.groups, Extent { width: 0, height: 0, depth: 1 });
}
