//! Decoder-side controls of a played sound and the registration message
//! that hands them to the game thread when playback starts.

use std::sync::atomic::AtomicU32;
use std::sync::mpsc::Sender;
use std::sync::Arc;
use vstd::prelude::*;

verus! {

#[verifier::external_type_specification]
#[verifier::external_body]
#[verifier::reject_recursive_types(T)]
pub struct ExSender<T>(Sender<T>);

/// Cutoff frequency and volume of a playing decoder, shared between threads;
/// each is the bit pattern of a 32-bit float in a lock-free cell.
#[derive(Clone)]
pub struct DecoderControl {
    cutoff_hz: Arc<AtomicU32>,
    volume: Arc<AtomicU32>,
}

impl DecoderControl {
    /// Creates a control with the given initial cutoff and volume bit patterns.
    /// No clause states them: vstd gives std's atomics no model of their
    /// contents.
    pub fn new(cutoff_hz: u32, volume: u32) -> (control: Self) {
        DecoderControl {
            cutoff_hz: Arc::new(AtomicU32::new(cutoff_hz)),
            volume: Arc::new(AtomicU32::new(volume)),
        }
    }

    /// Stores a new cutoff bit pattern.
    pub fn set_cutoff(&self, cutoff_hz: u32) {
        self.cutoff_hz.store(cutoff_hz, std::sync::atomic::Ordering::Relaxed);
    }

    /// Reads the current cutoff bit pattern.  No clause states it: the cell
    /// is shared with other threads, so the value read is whatever some
    /// thread stored last.
    pub fn get_cutoff(&self) -> (cutoff_hz: u32) {
        self.cutoff_hz.load(std::sync::atomic::Ordering::Relaxed)
    }

    /// Stores a new volume bit pattern.
    pub fn set_volume(&self, volume: u32) {
        self.volume.store(volume, std::sync::atomic::Ordering::Relaxed);
    }

    /// Reads the current volume bit pattern.  No clause states it: the cell
    /// is shared with other threads, so the value read is whatever some
    /// thread stored last.
    pub fn get_volume(&self) -> (volume: u32) {
        self.volume.load(std::sync::atomic::Ordering::Relaxed)
    }
}

/// Number of samples between two refreshes of a decoder's filter cutoff.
pub const CUTOFF_REFRESH_INTERVAL: usize = 64;

/// Whether the decoder re-reads its cutoff before filtering the sample with
/// index `samples_decoded`: it does so on the first sample and then once
/// every `CUTOFF_REFRESH_INTERVAL` samples.
pub fn cutoff_refresh_due(samples_decoded: usize) -> (due: bool)
    ensures
        due == (samples_decoded % CUTOFF_REFRESH_INTERVAL == 0),
{
    samples_decoded % CUTOFF_REFRESH_INTERVAL == 0
}

/// Channel of the interleaved sample with index `index` in a stream of
/// `channels` channels.
pub fn channel_of_sample(index: usize, channels: u16) -> (channel: usize)
    requires
        channels > 0,
    ensures
        channel == (index as int) % (channels as int),
        channel < channels,
{
    index % (channels as usize)
}

/// Message sent when a sound starts playing, carrying its controls.
pub struct PlaybackRegistration {
    pub playback_id: u64,
    pub control: DecoderControl,
}

/// Encoded sound that announces its decoder controls when played.
pub struct SpatialAudioSource {
    pub bytes: Arc<[u8]>,
    pub playback_id: u64,
    pub registration_sender: Sender<PlaybackRegistration>,
}

} // verus!
