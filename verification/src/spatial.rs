//! The spatial (3D) layer of the engine: lights, materials, the mesh
//! render pipeline and the render pass that drives a frame.

pub mod light;
pub mod material;
pub mod pass;
pub mod pipe;
pub mod model;
