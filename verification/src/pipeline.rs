//! The two compute programs of the blur and the textures they work on.

use vstd::prelude::*;

verus! {

/// One of the two passes of the separable filter.
#[derive(Clone, Copy, Debug, PartialEq, Eq, Structural)]
pub enum Pass {
    /// Blurs along rows: reads the input, writes the intermediate texture.
    Horizontal,
    /// Blurs along columns: reads the intermediate, writes the output texture.
    Vertical,
}

/// One of the three textures of a run.
#[derive(Clone, Copy, Debug, PartialEq, Eq, Structural)]
pub enum TextureRole {
    Input,
    Intermediate,
    Output,
}

/// Texture slot from which a kernel reads.
pub const SOURCE_SLOT: u64 = 0;

/// Texture slot to which a kernel writes.
pub const DESTINATION_SLOT: u64 = 1;

impl Pass {
    /// The texture that the pass reads.
    pub open spec fn spec_source(self) -> TextureRole {
        match self {
            Pass::Horizontal => TextureRole::Input,
            Pass::Vertical => TextureRole::Intermediate,
        }
    }

    /// The texture that the pass writes.
    pub open spec fn spec_destination(self) -> TextureRole {
        match self {
            Pass::Horizontal => TextureRole::Intermediate,
            Pass::Vertical => TextureRole::Output,
        }
    }

    /// The name of the pass's entry point in the compute program.
    pub fn entry_point(self) -> (name: &'static str)
        ensures
            name@ == match self {
                Pass::Horizontal => "gaussian_blur_h"@,
                Pass::Vertical => "gaussian_blur_v"@,
            },
    {
        match self {
            Pass::Horizontal => "gaussian_blur_h",
            Pass::Vertical => "gaussian_blur_v",
        }
    }

    /// The texture that the pass reads.
    pub fn source(self) -> (role: TextureRole)
        ensures
            role == self.spec_source(),
    {
        match self {
            Pass::Horizontal => TextureRole::Input,
            Pass::Vertical => TextureRole::Intermediate,
        }
    }

    /// The texture that the pass writes.
    pub fn destination(self) -> (role: TextureRole)
        ensures
            role == self.spec_destination(),
    {
        match self {
            Pass::Horizontal => TextureRole::Intermediate,
            Pass::Vertical => TextureRole::Output,
        }
    }
}

/// No pass reads the texture that it writes, each texture has at most one
/// writer and at most one reader, and what the first pass writes is what the
/// second reads.
pub proof fn lemma_textures_have_one_writer(first: Pass, second: Pass)
    ensures
        first.spec_source() != first.spec_destination(),
        first.spec_destination() != TextureRole::Input,
        first.spec_source() != TextureRole::Output,
        first.spec_destination() == second.spec_destination() ==> first == second,
        first.spec_source() == second.spec_source() ==> first == second,
        Pass::Horizontal.spec_destination() == Pass::Vertical.spec_source(),
{
}

} // verus!
