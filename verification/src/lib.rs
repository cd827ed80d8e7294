//! A decorative terminal animation: an ASCII stick figure walks in place
//! while a procedurally drawn city skyline scrolls past behind it.
//!
//! This crate is the verified core: the frame catalog, the skyline
//! generator, and the scene compositor. The terminal driver (raw mode,
//! event polling, the tick loop) lives outside the library and calls in
//! with plain values.

pub mod frames;
pub mod scene;
pub mod scenery;
