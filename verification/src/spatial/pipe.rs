//! Render pipelines of the spatial layer.

pub mod mesh;
