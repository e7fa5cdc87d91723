//! Cross-process pixel surfaces for a renderer split into a painting process and a
//! compositing process.
//!
//! A surface is allocated and written on the painting side, identified across the process
//! boundary by a single integer, bound to a texture on the compositing side, and released
//! exactly once by whichever side has been made responsible for it. Every surface tracks
//! whether that responsibility is still outstanding, so that a surface nobody disposed of
//! is reported when it is torn down.

pub mod context;
mod driver;
pub mod error;
pub mod geometry;
mod memory;
pub mod state;
pub mod surface;
pub mod texture;
