//! The ways in which a blur run can fail.

use vstd::prelude::*;
use crate::pipeline::Pass;

verus! {

/// A fatal condition.  Each one ends the run: there is no retry and no
/// partial result.  A device without counter sampling is not among them; it
/// only switches profiling off.
#[derive(Clone, Copy, Debug, PartialEq, Eq, Structural)]
pub enum BlurError {
    /// No compatible GPU was found.
    DeviceUnavailable,
    /// The compute program did not compile.
    ShaderCompileError,
    /// The compiled program lacks the entry point of this pass.
    MissingEntryPoint(Pass),
    /// The device turned down the compiled function of this pass.
    PipelineCreationError(Pass),
    /// Dimensions and byte length of an image do not agree.
    InvalidImageBuffer,
}

impl BlurError {
    /// A line of text for the person who started the run.
    pub fn message(&self) -> (text: &'static str)
        ensures
            text@ == match *self {
                BlurError::DeviceUnavailable =>
                    "No Metal device found. This code requires macOS with Metal support."@,
                BlurError::ShaderCompileError => "Failed to compile Metal shader"@,
                BlurError::MissingEntryPoint(Pass::Horizontal) =>
                    "Failed to get kernel function 'gaussian_blur_h'"@,
                BlurError::MissingEntryPoint(Pass::Vertical) =>
                    "Failed to get kernel function 'gaussian_blur_v'"@,
                BlurError::PipelineCreationError(Pass::Horizontal) =>
                    "Failed to create compute pipeline (horizontal)"@,
                BlurError::PipelineCreationError(Pass::Vertical) =>
                    "Failed to create compute pipeline (vertical)"@,
                BlurError::InvalidImageBuffer => "Invalid image buffer"@,
            },
    {
        match *self {
            BlurError::DeviceUnavailable =>
                "No Metal device found. This code requires macOS with Metal support.",
            BlurError::ShaderCompileError => "Failed to compile Metal shader",
            BlurError::MissingEntryPoint(Pass::Horizontal) =>
                "Failed to get kernel function 'gaussian_blur_h'",
            BlurError::MissingEntryPoint(Pass::Vertical) =>
                "Failed to get kernel function 'gaussian_blur_v'",
            BlurError::PipelineCreationError(Pass::Horizontal) =>
                "Failed to create compute pipeline (horizontal)",
            BlurError::PipelineCreationError(Pass::Vertical) =>
                "Failed to create compute pipeline (vertical)",
            BlurError::InvalidImageBuffer => "Invalid image buffer",
        }
    }
}

} // verus!
