//! Shape rendering core: geometry descriptors, buffer assembly, the screen-fit
//! transform, the shader compile and link protocols, and the frame loop.
//!
//! Driver work (OpenGL calls, window events, presenting) is performed by the
//! embedding application; this crate decides what is issued and in what order.
pub mod errors;
pub mod shaders;
pub mod geometry;
pub mod buffer;
pub mod transform;
pub mod renderer;
