//! Verified planning core of a voxelisation and cube-meshing renderer.
//!
//! The library decides what the GPU is asked to do: how primitive ranges are
//! cut into legal dispatches, in which order the counting and instancing
//! passes clear, run and read the shared counter, how large the generated
//! buffers are, and which resources a frame publishes. The caller performs
//! the recorded work on a device.

pub mod camera;
pub mod command_encoder;
pub mod dispatch;
pub mod load_gltf;
pub mod mesh;
pub mod renderer;
pub mod resources;
pub mod types;
pub mod voxel_grid;

pub use mesh::Id;
pub use renderer::Renderer;
pub use resources::{Resource, ResourceManager};
