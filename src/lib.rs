//! Host bridge of a classic Macintosh emulator running inside a browser host.
//!
//! The host's imports are called by the embedding program; this library
//! decides which calls to make, in which order, and what to hand the core.

pub mod framebuffer;
pub mod host;
pub mod disk;
pub mod driver;
pub mod floppy;
pub mod input;
pub mod serial_bridge;
