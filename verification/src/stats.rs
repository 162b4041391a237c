use vstd::prelude::*;
use std::sync::atomic::{AtomicBool, AtomicU64, Ordering};
use std::sync::Arc;

verus! {

/// Audio statistics shared between the playback thread, which writes them,
/// and the servers, which read them. Levels are stored as the bits of their
/// floating-point values.
pub struct AudioStats {
    pub rms_left: AtomicU64,
    pub rms_right: AtomicU64,
    pub peak_left: AtomicU64,
    pub peak_right: AtomicU64,
    pub frames_total: AtomicU64,
    pub frames_last_sec: AtomicU64,
    pub signal_active: AtomicBool,
    pub clipping: AtomicBool,
    pub limiter_active: AtomicBool,
}

impl AudioStats {
    /// Statistics of silence, with no frame counted.
    pub fn new() -> Arc<Self> {
        Arc::new(
            AudioStats {
                rms_left: AtomicU64::new(0),
                rms_right: AtomicU64::new(0),
                peak_left: AtomicU64::new(0),
                peak_right: AtomicU64::new(0),
                frames_total: AtomicU64::new(0),
                frames_last_sec: AtomicU64::new(0),
                signal_active: AtomicBool::new(false),
                clipping: AtomicBool::new(false),
                limiter_active: AtomicBool::new(false),
            },
        )
    }

    /// Counts frames written to the output, in the total and in the count
    /// of the current second.
    pub fn add_frames(&self, frames: u64) {
        self.frames_total.fetch_add(frames, Ordering::Relaxed);
        self.frames_last_sec.fetch_add(frames, Ordering::Relaxed);
    }

    /// Returns the frames counted since the last call and starts a new
    /// count.
    pub fn reset_per_sec(&self) -> u64 {
        self.frames_last_sec.swap(0, Ordering::Relaxed)
    }
}

} // verus!
