//! Plans for a small OpenGL renderer, kept apart from the driver.
//!
//! The crate decides and the caller performs: which driver call a shader
//! build needs next, how a vertex buffer is laid out and how many bytes it
//! takes, which commands make up a frame, and when the render loop ends.

pub mod events;
pub mod frame;
pub mod layout;
pub mod mesh;
pub mod motion;
pub mod report;
pub mod shader;
pub mod source;
pub mod texture;
pub mod uniform;
