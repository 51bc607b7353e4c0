//! Fixed parameters of the pipeline and the startup device-index rule.

use vstd::prelude::*;

verus! {

/// Sample rate of the input stream, in hertz (single channel).
pub const SAMPLE_RATE: u32 = 44100;

/// Number of samples one analysis window holds.
pub const WINDOW_SIZE: usize = 2048;

/// Fresh samples required before the spectrum is recomputed.
pub const UPDATE_FRAMES: usize = WINDOW_SIZE / 4;

/// Adjacent transform magnitudes aggregated into one output bin.
pub const BIN_SIZE: usize = 20;

/// Bins a full transform output reduces to.
pub const BINS: usize = WINDOW_SIZE / BIN_SIZE;

/// Output bins kept after the mirrored, low-energy tail is discarded.
pub const SPECTRUM_BINS: usize = BINS / 2 - 1;

/// Usable magnitudes of a real-input transform of one window.
pub const HALF_SPECTRUM: usize = WINDOW_SIZE / 2 + 1;

/// Analysis cycles one audio callback may run before excess backlog is
/// dropped, so that a callback never does unbounded catch-up work.
pub const MAX_CATCHUP: u8 = 4;

/// Picks the capture device index to use: the requested index when it is in
/// range, otherwise index 0. The caller must have at least one fitting
/// device; none at all is a fatal startup condition handled by the caller.
pub fn select_device_index(requested: usize, available: usize) -> (index: usize)
    requires
        available >= 1,
    ensures
        index == if requested < available { requested } else { 0usize },
        index < available,
{
    if requested < available {
        requested
    } else {
        0
    }
}

} // verus!
