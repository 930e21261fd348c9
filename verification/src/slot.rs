//! The process-wide slot that both execution contexts reach the machine
//! through.

use crate::direction::classified;
use crate::direction::Direction;
use crate::encoder::EncoderState;
use vstd::prelude::*;

verus! {

/// The shared slot the encoder is installed into once at startup, before the
/// pin-change interrupt is enabled. The interrupt handler and the main loop
/// both go through it, each inside the platform's critical section; until a
/// machine has been installed, every operation is a harmless no-op, never a
/// crash.
pub struct EncoderSlot {
    encoder: Option<EncoderState>,
}

impl EncoderSlot {
    /// Whether an encoder has been installed.
    pub closed spec fn installed(self) -> bool {
        self.encoder is Some
    }

    /// The pending turn of the installed machine; `None` while the slot is
    /// empty or the machine is idle.
    pub closed spec fn pending(self) -> Option<Direction> {
        match self.encoder {
            Some(e) => e.pending(),
            None => None,
        }
    }

    /// The slot starts empty: no machine installed, nothing pending.
    pub fn empty() -> (s: Self)
        ensures
            !s.installed(),
            s.pending() is None,
    {
        EncoderSlot { encoder: None }
    }

    /// Installs the machine. Startup does this once, before change events
    /// can arrive.
    pub fn install(&mut self, encoder: EncoderState)
        ensures
            final(self).installed(),
            final(self).pending() == encoder.pending(),
    {
        self.encoder = Some(encoder);
    }

    /// The interrupt-side entry point: classifies the sampled levels and
    /// buffers the result, overwriting an undelivered turn. Before
    /// installation the call does nothing.
    pub fn notify_changed(&mut self, clock_high: bool, data_high: bool)
        ensures
            final(self).installed() == old(self).installed(),
            old(self).installed() ==> final(self).pending() == Some(
                classified(clock_high, data_high),
            ),
            !old(self).installed() ==> final(self).pending() == old(self).pending(),
    {
        if let Some(mut encoder) = self.encoder.take() {
            encoder.notify_changed(clock_high, data_high);
            self.encoder = Some(encoder);
        }
    }

    /// The main-loop entry point: delivers and clears the pending turn.
    /// While the slot is empty the call returns `None` and changes nothing.
    pub fn take_pending_turn(&mut self) -> (r: Option<Direction>)
        ensures
            r == old(self).pending(),
            final(self).pending() is None,
            final(self).installed() == old(self).installed(),
    {
        if let Some(mut encoder) = self.encoder.take() {
            let r = encoder.take_pending_turn();
            self.encoder = Some(encoder);
            r
        } else {
            None
        }
    }
}

} // verus!
