//! Thread-group and grid sizing for a two-dimensional compute dispatch.

use vstd::prelude::*;

verus! {

/// Upper bound on the height of a thread group.
pub const MAX_GROUP_HEIGHT: u64 = 16;

/// A three-dimensional count of threads or of thread groups.
#[derive(Clone, Copy, Debug, PartialEq, Eq, Structural)]
pub struct Extent {
    pub width: u64,
    pub height: u64,
    pub depth: u64,
}

/// The two sizing properties that a compute pipeline reports.
#[derive(Clone, Copy, Debug, PartialEq, Eq, Structural)]
pub struct PipelineLimits {
    pub thread_execution_width: u64,
    pub max_total_threads_per_threadgroup: u64,
}

/// The shape of one dispatch: the threads in a group and the groups in the grid.
#[derive(Clone, Copy, Debug, PartialEq, Eq, Structural)]
pub struct DispatchPlan {
    pub threads_per_group: Extent,
    pub groups: Extent,
}

impl DispatchPlan {
    /// Whether the grid reaches every pixel of an image of `width` by
    /// `height` with no group to spare: along each axis the groups hold at
    /// least as many threads as there are pixels, and one group fewer
    /// would hold too few.
    pub open spec fn covers_exactly(self, width: int, height: int) -> bool {
        &&& self.groups.width * self.threads_per_group.width >= width
        &&& self.groups.height * self.threads_per_group.height >= height
        &&& self.groups.width > 0 ==> (self.groups.width - 1) * self.threads_per_group.width
            < width
        &&& self.groups.height > 0 ==> (self.groups.height - 1) * self.threads_per_group.height
            < height
    }
}

/// `total / width`, kept between 1 and 16.
#[verifier::inline]
pub open spec fn spec_group_height(width: int, total: int) -> int
    recommends
        width >= 1,
{
    let rows = total / width;
    if rows < 1 {
        1
    } else if rows > 16 {
        16
    } else {
        rows
    }
}

/// The least number of groups of `per_group` threads that hold `extent` threads.
#[verifier::inline]
pub open spec fn spec_groups_needed(extent: int, per_group: int) -> int
    recommends
        extent >= 0,
        per_group >= 1,
{
    (extent + per_group - 1) / per_group
}

/// What `dispatch_2d` returns, written over the two spec functions above.
#[verifier::inline]
pub open spec fn spec_dispatch_2d(limits: PipelineLimits, width: u64, height: u64) -> DispatchPlan
    recommends
        limits.thread_execution_width >= 1,
{
    let tw = limits.thread_execution_width;
    let th = spec_group_height(tw as int, limits.max_total_threads_per_threadgroup as int);
    DispatchPlan {
        threads_per_group: Extent { width: tw, height: th as u64, depth: 1 },
        groups: Extent {
            width: spec_groups_needed(width as int, tw as int) as u64,
            height: spec_groups_needed(height as int, th) as u64,
            depth: 1,
        },
    }
}

/// The rounded-up quotient is the only count that covers `extent` without a
/// spare group: it reaches `extent`, and one group fewer falls short.
pub proof fn lemma_groups_needed_is_least_cover(extent: int, per_group: int)
    requires
        extent >= 0,
        per_group >= 1,
    ensures
        spec_groups_needed(extent, per_group) >= 0,
        spec_groups_needed(extent, per_group) * per_group >= extent,
        (spec_groups_needed(extent, per_group) - 1) * per_group < extent,
        spec_groups_needed(extent, per_group) <= extent,
        spec_groups_needed(extent, per_group) == extent / per_group + (if extent % per_group
            == 0 {
            0int
        } else {
            1int
        }),
{
    let q = extent / per_group;
    let r = extent % per_group;
    assert(extent == q * per_group + r && 0 <= r < per_group) by (nonlinear_arith)
        requires
            q == extent / per_group,
            r == extent % per_group,
            per_group >= 1,
    ;
    assert(q >= 0 && q <= extent) by (nonlinear_arith)
        requires
            extent == q * per_group + r,
            0 <= r < per_group,
            extent >= 0,
            per_group >= 1,
    ;
    let g = spec_groups_needed(extent, per_group);
    if r == 0 {
        assert(g == q) by (nonlinear_arith)
            requires
                g == (q * per_group + per_group - 1) / per_group,
                per_group >= 1,
        ;
    } else {
        assert(g == q + 1) by (nonlinear_arith)
            requires
                g == (q * per_group + r + per_group - 1) / per_group,
                1 <= r < per_group,
        ;
    }
    assert(g * per_group >= extent && (g - 1) * per_group < extent && g <= extent)
        by (nonlinear_arith)
        requires
            extent == q * per_group + r,
            0 <= r < per_group,
            q >= 0,
            g == q + (if r == 0 {
                0int
            } else {
                1int
            }),
    ;
}

/// The height of a thread group for a pipeline: as many rows of
/// `thread_execution_width` threads as the pipeline allows, at least one and
/// at most sixteen.
pub fn group_height(limits: PipelineLimits) -> (rows: u64)
    requires
        limits.thread_execution_width >= 1,
    ensures
        1 <= rows <= MAX_GROUP_HEIGHT,
        rows == spec_group_height(
            limits.thread_execution_width as int,
            limits.max_total_threads_per_threadgroup as int,
        ),
        rows == vstd::math::max(
            1,
            vstd::math::min(
                16,
                limits.max_total_threads_per_threadgroup as int
                    / limits.thread_execution_width as int,
            ),
        ),
{
    let rows: u64 = limits.max_total_threads_per_threadgroup / limits.thread_execution_width;
    if rows == 0 {
        1
    } else if rows > MAX_GROUP_HEIGHT {
        MAX_GROUP_HEIGHT
    } else {
        rows
    }
}

/// The number of groups along one axis: `extent / per_group`, rounded up.
pub fn groups_needed(extent: u64, per_group: u64) -> (groups: u64)
    requires
        per_group >= 1,
    ensures
        groups == spec_groups_needed(extent as int, per_group as int),
        groups * per_group >= extent,
        groups > 0 ==> (groups - 1) * per_group < extent,
        extent == 0 ==> groups == 0,
{
    proof {
        lemma_groups_needed_is_least_cover(extent as int, per_group as int);
    }
    let whole: u64 = extent / per_group;
    if extent % per_group == 0 {
        whole
    } else {
        whole + 1
    }
}

/// Sizes a dispatch with one thread for each pixel of a `width` by `height`
/// image.  A group is `thread_execution_width` threads wide and
/// `group_height` threads high; the grid has just enough groups to reach the
/// right and bottom edges, so threads of the last column and row of groups
/// may lie outside the image.
pub fn dispatch_2d(limits: PipelineLimits, width: u64, height: u64) -> (plan: DispatchPlan)
    requires
        limits.thread_execution_width >= 1,
    ensures
        plan == spec_dispatch_2d(limits, width, height),
        plan.threads_per_group.width == limits.thread_execution_width,
        1 <= plan.threads_per_group.height <= MAX_GROUP_HEIGHT,
        plan.groups.width * plan.threads_per_group.width >= width,
        plan.groups.height * plan.threads_per_group.height >= height,
        plan.covers_exactly(width as int, height as int),
{
    let threads_w: u64 = limits.thread_execution_width;
    let threads_h: u64 = group_height(limits);
    DispatchPlan {
        threads_per_group: Extent { width: threads_w, height: threads_h, depth: 1 },
        groups: Extent {
            width: groups_needed(width, threads_w),
            height: groups_needed(height, threads_h),
            depth: 1,
        },
    }
}

} // verus!
