//! Verified core of a real-time spatial audio pipeline: block buffering of
//! interleaved samples, the block-pumping processing chain, and the shared
//! control panels that the game thread writes and the audio thread reads.

pub mod buffer;
pub mod config;
pub mod decoder;
pub mod filter;
pub mod plugin;
pub mod source;
