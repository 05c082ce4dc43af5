//! The contents of a run's command buffer.

use vstd::prelude::*;
use crate::dispatch::{dispatch_2d, spec_dispatch_2d, DispatchPlan, PipelineLimits};
use crate::pipeline::{Pass, TextureRole};
use crate::profiling::{
    resolve_command, sample_slots, spec_resolve_command, spec_sample_slots, ProfilingState,
    ResolveCommand, SampleSlots,
};
use crate::resource::ImageLayout;

verus! {

/// One compute pass: a kernel, the textures bound to it, the shape of its
/// dispatch and, in a profiled run, the slots that receive its timestamps.
#[derive(Clone, Copy, Debug, PartialEq, Eq)]
pub struct ComputePass {
    pub pass: Pass,
    pub source: TextureRole,
    pub destination: TextureRole,
    pub dispatch: DispatchPlan,
    pub sampling: Option<SampleSlots>,
}

/// Everything that a run encodes, in the order of encoding: the horizontal
/// pass, the vertical pass and, in a profiled run, the resolve.
#[derive(Clone, Copy, Debug, PartialEq, Eq)]
pub struct CommandPlan {
    pub horizontal: ComputePass,
    pub vertical: ComputePass,
    pub resolve: Option<ResolveCommand>,
}

/// One entry of the command buffer.
#[derive(Clone, Copy, Debug, PartialEq, Eq)]
pub enum Command {
    Compute(ComputePass),
    Resolve(ResolveCommand),
}

/// The compute pass for `pass` over an image of `layout`.
pub open spec fn spec_compute_pass(
    pass: Pass,
    layout: ImageLayout,
    limits: PipelineLimits,
    profiling: ProfilingState,
) -> ComputePass {
    ComputePass {
        pass,
        source: pass.spec_source(),
        destination: pass.spec_destination(),
        dispatch: spec_dispatch_2d(
            limits,
            layout.spec_width() as u64,
            layout.spec_height() as u64,
        ),
        sampling: if profiling.spec_samples() {
            Some(spec_sample_slots(pass))
        } else {
            None
        },
    }
}

/// The command plan of a run.
pub open spec fn spec_plan_commands(
    layout: ImageLayout,
    horizontal: PipelineLimits,
    vertical: PipelineLimits,
    profiling: ProfilingState,
) -> CommandPlan {
    CommandPlan {
        horizontal: spec_compute_pass(Pass::Horizontal, layout, horizontal, profiling),
        vertical: spec_compute_pass(Pass::Vertical, layout, vertical, profiling),
        resolve: if profiling.spec_samples() {
            Some(spec_resolve_command())
        } else {
            None
        },
    }
}

impl CommandPlan {
    /// The entries of the command buffer, first to last.
    pub open spec fn spec_in_order(self) -> Seq<Command> {
        let passes = seq![Command::Compute(self.horizontal), Command::Compute(self.vertical)];
        match self.resolve {
            Some(resolve) => passes.push(Command::Resolve(resolve)),
            None => passes,
        }
    }

    /// The entries of the command buffer, first to last.
    pub fn in_order(&self) -> (commands: Vec<Command>)
        ensures
            commands@ == self.spec_in_order(),
            commands@.len() == if self.resolve is Some {
                3int
            } else {
                2int
            },
    {
        let mut commands: Vec<Command> = Vec::new();
        commands.push(Command::Compute(self.horizontal));
        commands.push(Command::Compute(self.vertical));
        match self.resolve {
            Some(resolve) => {
                commands.push(Command::Resolve(resolve));
            },
            None => {},
        }
        assert(commands@ =~= self.spec_in_order());
        commands
    }
}

/// The compute pass for `pass`: it reads and writes the textures that belong
/// to the pass, runs one thread for each pixel of the image, and samples
/// the counters into its two slots if the run is profiled.
pub fn compute_pass(
    pass: Pass,
    layout: &ImageLayout,
    limits: PipelineLimits,
    profiling: ProfilingState,
) -> (command: ComputePass)
    requires
        limits.thread_execution_width >= 1,
    ensures
        command == spec_compute_pass(pass, *layout, limits, profiling),
        command.source != command.destination,
        command.dispatch.covers_exactly(layout.spec_width() as int, layout.spec_height() as int),
{
    ComputePass {
        pass,
        source: pass.source(),
        destination: pass.destination(),
        dispatch: dispatch_2d(limits, layout.width() as u64, layout.height() as u64),
        sampling: if profiling.samples() {
            Some(sample_slots(pass))
        } else {
            None
        },
    }
}

/// The command plan of a run over an image of `layout`, with the limits
/// that the two pipelines report.  The horizontal pass goes from the input
/// to the intermediate texture, the vertical pass from there to the output.
/// A profiled run brackets the passes with slots 0/1 and 2/3 and ends with
/// the resolve of all four samples; a run without counters has neither.
pub fn plan_commands(
    layout: &ImageLayout,
    horizontal: PipelineLimits,
    vertical: PipelineLimits,
    profiling: ProfilingState,
) -> (plan: CommandPlan)
    requires
        horizontal.thread_execution_width >= 1,
        vertical.thread_execution_width >= 1,
    ensures
        plan == spec_plan_commands(*layout, horizontal, vertical, profiling),
        plan.resolve is Some <==> profiling != ProfilingState::Unsupported,
        plan.horizontal.sampling is Some <==> plan.resolve is Some,
        plan.vertical.sampling is Some <==> plan.resolve is Some,
        plan.horizontal.destination == plan.vertical.source,
        plan.horizontal.dispatch.covers_exactly(
            layout.spec_width() as int,
            layout.spec_height() as int,
        ),
        plan.vertical.dispatch.covers_exactly(
            layout.spec_width() as int,
            layout.spec_height() as int,
        ),
{
    CommandPlan {
        horizontal: compute_pass(Pass::Horizontal, layout, horizontal, profiling),
        vertical: compute_pass(Pass::Vertical, layout, vertical, profiling),
        resolve: if profiling.samples() {
            Some(resolve_command())
        } else {
            None
        },
    }
}

} // verus!
