//! Bookkeeping structures of the renderer.

pub mod batch;
pub mod canvas;
pub mod color;
pub mod context;
pub mod growing;
pub mod mesh;
pub mod mesh3d;
pub mod sampler;
pub mod shader;
pub mod text;
pub mod types;
