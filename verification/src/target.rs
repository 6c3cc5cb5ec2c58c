//! The colour target that the prepass writes visibility ids to.

use vstd::prelude::*;

verus! {

/// Texel formats of the attachments that the prepass touches.
#[derive(Clone, Copy, Debug, PartialEq, Eq, Hash, Structural)]
pub enum TextureFormat {
    /// One 16-bit unsigned integer channel.
    R16Uint,
    /// One 32-bit floating-point depth channel.
    Depth32Float,
}

/// Format of the visibility-id colour attachment.
pub const VISBUFFER_PREPASS_FORMAT: TextureFormat = TextureFormat::R16Uint;

/// Format of the depth attachment shared with the main 3d passes.
pub const CORE_3D_DEPTH_FORMAT: TextureFormat = TextureFormat::Depth32Float;

/// A set of colour channels that a pipeline is allowed to write.
#[derive(Clone, Copy, Debug, PartialEq, Eq, Hash, Structural)]
pub struct ColorWrites {
    pub bits: u32,
}

impl ColorWrites {
    /// Bit of the red channel.
    pub const RED_BIT: u32 = 1;

    /// The mask that admits writes to the red channel only.
    pub open spec fn spec_red() -> ColorWrites {
        ColorWrites { bits: 1 }
    }

    /// The mask that admits writes to the red channel only.
    #[verifier::when_used_as_spec(spec_red)]
    pub fn red() -> (mask: ColorWrites)
        ensures
            mask == Self::spec_red(),
    {
        ColorWrites { bits: Self::RED_BIT }
    }
}

/// How a pipeline writes to one colour attachment.
#[derive(Clone, Copy, Debug, PartialEq, Eq, Hash, Structural)]
pub struct ColorTargetState {
    pub format: TextureFormat,
    /// Whether fragments are blended with what the attachment already holds.
    pub blend: bool,
    pub write_mask: ColorWrites,
}

/// The colour targets of every prepass pipeline.
pub open spec fn spec_visbuffer_target_descriptors() -> Seq<Option<ColorTargetState>> {
    seq![
        Some(
            ColorTargetState {
                format: VISBUFFER_PREPASS_FORMAT,
                blend: false,
                write_mask: ColorWrites::red(),
            },
        ),
    ]
}

/// The colour targets of every prepass pipeline: a single unblended target in
/// the visibility-id format, of which only the red channel is written.
pub fn visbuffer_target_descriptors() -> (targets: Vec<Option<ColorTargetState>>)
    ensures
        targets@ == spec_visbuffer_target_descriptors(),
{
    let mut targets: Vec<Option<ColorTargetState>> = Vec::new();
    targets.push(
        Some(
            ColorTargetState {
                format: VISBUFFER_PREPASS_FORMAT,
                blend: false,
                write_mask: ColorWrites::red(),
            },
        ),
    );
    targets
}

} // verus!
