//! Type-state lifecycle control for GPU command buffers and deferred teardown
//! of device-memory-backed resources.

pub mod buffer;
pub mod device;
pub mod encoder;
pub mod escape;
pub mod family;
pub mod frame;
pub mod image;
pub mod memory;
mod sentinel;
