//! Send-side state of the serial link.
//!
//! The `LedFrameEncoder` turns an output spectrum into a wire frame and
//! decides whether the frame may be written to the device. The write itself
//! is bounded-timeout I/O owned by the surrounding program, which reports
//! every outcome back. While the link is degraded (after a failed or timed
//! out write), frames are dropped silently and one reconnect attempt is
//! allowed every `RETRY_INTERVAL` analysis cycles; a successful write ends
//! degraded mode at once. Analysis itself never stops while the link is
//! down.

use vstd::prelude::*;

use crate::config::SPECTRUM_BINS;
use crate::frame::{encode_frame, frame_bytes};

verus! {

/// Analysis cycles between reconnect attempts while the link is degraded.
pub const RETRY_INTERVAL: u8 = 3;

/// Frame builder and link-mode state machine.
pub struct LedFrameEncoder {
    /// The last write failed and no later write has succeeded.
    degraded: bool,
    /// Cycles to wait before the next reconnect attempt while degraded.
    cooldown: u8,
}

impl LedFrameEncoder {
    /// The link is in degraded mode: frames are being dropped.
    pub closed spec fn is_degraded(self) -> bool {
        self.degraded
    }

    /// Cycles left before the next reconnect attempt.
    pub closed spec fn cooldown_cycles(self) -> nat {
        self.cooldown as nat
    }

    /// A frame should be handed to the device now: always while the link is
    /// healthy, and as a reconnect attempt once the cooldown has elapsed.
    pub open spec fn should_transmit(self) -> bool {
        !self.is_degraded() || self.cooldown_cycles() == 0
    }

    /// A fresh encoder: link healthy, no cooldown pending.
    pub fn new() -> (e: LedFrameEncoder)
        ensures
            !e.is_degraded(),
            e.cooldown_cycles() == 0,
    {
        LedFrameEncoder { degraded: false, cooldown: 0 }
    }

    /// Encodes one spectrum and decides whether to transmit it. Returns the
    /// wire frame to write, or nothing while the link is degraded and the
    /// reconnect cooldown has not elapsed (the frame is dropped; the
    /// cooldown advances by one cycle).
    pub fn prepare(&mut self, spectrum: &Vec<u16>) -> (frame: Option<Vec<u8>>)
        requires
            spectrum@.len() == SPECTRUM_BINS as nat,
        ensures
            final(self).is_degraded() == old(self).is_degraded(),
            (frame is Some) == old(self).should_transmit(),
            frame matches Some(f) ==> f@ == frame_bytes(spectrum@),
            final(self).cooldown_cycles() == if old(self).should_transmit() {
                old(self).cooldown_cycles()
            } else {
                (old(self).cooldown_cycles() - 1) as nat
            },
    {
        if self.degraded && self.cooldown > 0 {
            self.cooldown = self.cooldown - 1;
            None
        } else {
            Some(encode_frame(spectrum))
        }
    }

    /// Whether the link is currently degraded.
    pub fn is_degraded_now(&self) -> (d: bool)
        ensures
            d == self.is_degraded(),
    {
        self.degraded
    }

    /// Records the outcome the surrounding program reports for a write: a
    /// success restores the healthy state, a failure (or timeout) enters
    /// degraded mode and starts a full reconnect cooldown.
    pub fn record_send(&mut self, ok: bool)
        ensures
            final(self).is_degraded() == !ok,
            final(self).cooldown_cycles() == if ok {
                0
            } else {
                RETRY_INTERVAL as nat
            },
    {
        if ok {
            self.degraded = false;
            self.cooldown = 0;
        } else {
            self.degraded = true;
            self.cooldown = RETRY_INTERVAL;
        }
    }
}

} // verus!
