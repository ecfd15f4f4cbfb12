//! A checked model of an image-sensor peripheral driver's configuration and
//! frame-buffer lifecycle.
//!
//! The camera driver itself is a foreign, process-wide C library with a flat
//! numeric configuration record, a non-blocking frame poll, and a manual
//! "return buffer to pool" call. This crate holds the logic that surrounds
//! that boundary: the closed capability descriptors and their fixed numeric
//! codes, the resolution of an `Autodetect` buffer placement from a memory
//! capability probe, the translation of a validated configuration into the
//! driver's record, the interpretation of the driver's result code, the
//! accounting of the driver's frame-buffer pool, and the validity of a
//! captured frame's metadata. Everything here is plain data and verified
//! functions; the thin glue that issues the actual driver calls lives
//! outside the library and hands it plain values.

pub mod caps;
pub mod config;
pub mod frame;
pub mod pool;

pub use caps::{FrameBufferLocation, FrameSize, GrabMode, PixelFormat};
pub use config::{CameraConfig, InitConfig, InitError, LedcChannel0, LedcTimer0};
pub use frame::Pic;
pub use pool::{FramePool, Lease};
