//! Viewport logic: which triangles a pick ray has to be tested against and
//! which of the hits is the one under the cursor, the index buffers of the
//! built-in meshes, and what the renderer decides before it draws.

pub mod distance;
pub mod mesh;
pub mod picking;
pub mod properties;
pub mod render;
