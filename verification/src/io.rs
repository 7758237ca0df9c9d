//! Turning loaded bytes into assets.

pub mod texture;
