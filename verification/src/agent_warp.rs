//! Warp aggregate usage: which source is active, how remote and external usage is normalized, and
//! how it is cached.

pub mod cache;
pub mod flows;
pub mod keyed;
pub mod laws;
pub mod normalize;
pub mod state;
pub mod transport;
