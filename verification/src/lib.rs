//! Decision logic for bringing up a graphics device: which adapter to use,
//! which queue family to open, which memory type may back a host-written
//! vertex buffer, how large that buffer must be, and when the window's
//! event loop should stop. The calls into the graphics API itself live in
//! the surrounding application; this crate holds the parts that can be
//! stated and proved over plain values.

pub mod adapter;
pub mod buffer;
pub mod events;
pub mod memory;
pub mod queue;
