//! A binned draw-phase scheduler for a visibility-buffer prepass.
//!
//! The prepass writes, for every pixel of a view, which surface is visible
//! there. This crate decides what the prepass draws and in which order; the
//! host renderer owns the GPU and replays what the crate encodes.
//!
//! A frame runs through the crate as follows.
//!
//! * Extraction hands in the meshes that are visible in a view
//!   ([`queue::ExtractedMesh`]).
//! * Each mesh is specialized against the [`cache::PipelineCache`], which
//!   compiles every variant of the [`pipeline::VisbufferPrepassPipeline`]
//!   once. A mesh whose specialization fails is dropped and reported.
//! * The meshes are binned in the [`phase::BinnedRenderPhase`] of their view
//!   ([`views::ViewBinnedRenderPhases`]): by batch set, then by bin, in three
//!   tiers.
//! * The [`node::VisbufferPrepassNode`] encodes one pass for the view. It
//!   draws the tiers in their order and every bin in the order of its
//!   pipeline, binds a pipeline only where another one is bound, and leaves
//!   out what cannot be drawn.
//!
//! The contracts are stated over the mathematical content of the types: the
//! `View` of a type, and the functions on it that are named like the methods
//! they describe.

pub mod bind_group;
pub mod bins;
pub mod cache;
pub mod descriptor;
pub mod draw;
pub mod encoder;
pub mod ids;
pub mod layout;
pub mod material;
pub mod node;
pub mod phase;
pub mod phase_item;
pub mod pipeline;
pub mod queue;
pub mod target;
pub mod views;

pub use bind_group::{
    prepare_visbuffer_prepass_view_bind_group, SetVisbufferPrepassViewBindGroup,
    VisbufferPrepassViewBindGroup,
};
pub use node::VisbufferPrepassNode;
pub use phase_item::{AlphaMask3dVisbuffer, Opaque3dVisbuffer};
pub use pipeline::VisbufferPrepassPipeline;
pub use target::visbuffer_target_descriptors;
