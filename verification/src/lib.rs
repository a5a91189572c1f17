//! An instanced 2D vector-graphics rendering engine.
//!
//! Vector paths are tessellated into triangle meshes and registered under
//! dense integer handles; many positioned, rotated, scaled and tinted
//! instances of each mesh are then drawn per frame through one batched
//! pipeline under a pannable, zoomable camera.
//!
//! The engine itself never touches the GPU: [`render::Render::render_frame`]
//! decides what a frame does — which meshes still need buffer bindings,
//! which instance arrays must be streamed again, and which meshes are drawn —
//! and hands the decisions back as a [`render::FramePlan`] for the embedding
//! host to carry out. Scalars that only travel to the GPU (positions,
//! rotations, scales, colors) are kept as exact single-precision bit
//! patterns, so every contract can pin them down to the bit.

pub mod laws;
pub mod path;
pub mod render;
pub mod tess;

use vstd::prelude::*;

verus! {

/// Number of instances a single mesh's streaming buffer is sized for.
pub const MAX_MESH_INSTANCES: usize = 1048576;

} // verus!
