//! Control panels shared between the game thread, which writes filter
//! targets, and the audio thread, which reads them once per block.
//!
//! A parameter is a lock-free 32-bit cell holding the IEEE-754 bit pattern
//! of its value; both threads touch it with relaxed atomic operations, so a
//! read returns whatever some thread stored last and nothing more can be
//! promised of it.

use std::sync::atomic::AtomicU32;
use std::sync::Arc;
use vstd::prelude::*;

verus! {

/// Lock-free audio parameter synchronized between the game and audio threads,
/// holding the bit pattern of a 32-bit float.
pub struct AudioParam {
    value: AtomicU32,
}

impl AudioParam {
    /// Creates a parameter whose initial value has the bit pattern `bits`.
    /// No clause states that value: vstd gives std's atomics no model of
    /// their contents, and the model it offers instead needs tracked
    /// permissions, which this library does not use.
    pub fn new(bits: u32) -> (param: Self) {
        AudioParam { value: AtomicU32::new(bits) }
    }

    /// Reads the bit pattern of the current value.  No clause states it:
    /// the cell is shared with another thread, so the value read is whatever
    /// some thread stored last.
    pub fn get(&self) -> (bits: u32) {
        self.value.load(std::sync::atomic::Ordering::Relaxed)
    }

    /// Replaces the value by the one with bit pattern `bits`.
    pub fn set(&self, bits: u32) {
        self.value.store(bits, std::sync::atomic::Ordering::Relaxed)
    }
}

/// Parameters for real-time occlusion filtering.
pub struct OcclusionControl {
    pub lowpass_hz: AudioParam,
    pub highpass_hz: AudioParam,
}

/// Shared control structure attached to a spatial audio emitter.
pub struct SonusControl {
    pub occlusion_control: Option<Arc<OcclusionControl>>,
}

impl SonusControl {
    /// A control panel with no occlusion control attached.
    pub fn new() -> (control: Self)
        ensures
            control.occlusion_control is None,
    {
        SonusControl { occlusion_control: None }
    }
}

} // verus!
