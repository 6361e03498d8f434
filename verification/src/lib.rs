//! A render pass that draws one triangle, as plain data and verified rules.
//!
//! The crate describes everything a renderer needs to put a single triangle on
//! the frame's colour target, and decides when the pass may run; creating
//! device objects and submitting commands is left to the caller.
//!
//! - [`pipeline`]: the static description of the graphics pipeline.
//! - [`cache`]: pipelines by handle, resolved once the device has compiled them.
//! - [`vertex`]: the triangle's vertices and the bytes uploaded for them.
//! - [`binder`]: the vertex buffer and bind group, prepared when they change.
//! - [`pass`]: the commands of the pass.
//! - [`node`]: the node that runs the pass once per frame.
//! - [`graph`]: the frame graph that orders the passes of a frame.
//! - [`bits`]: the bit patterns of the few real numbers involved.

pub mod binder;
pub mod bits;
pub mod cache;
pub mod graph;
pub mod node;
pub mod pass;
pub mod pipeline;
pub mod vertex;
