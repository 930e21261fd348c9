//! The decoding state machine: idle, or holding exactly one undelivered turn.

use crate::direction::classified;
use crate::direction::classify;
use crate::direction::Direction;
use vstd::prelude::*;

verus! {

/// The encoder state machine. It is either idle or pending: at most one
/// direction is buffered at a time, and a change event that arrives before
/// the previous turn was drained overwrites it (last write wins, no queue).
///
/// The interrupt context calls [`EncoderState::notify_changed`] with the two
/// line levels it sampled at the moment of the event; the main context calls
/// [`EncoderState::take_pending_turn`] to retrieve and clear the result.
/// Both calls run inside the platform's critical section, so each one acts
/// on the state atomically.
pub struct EncoderState {
    turn: Option<Direction>,
}

impl EncoderState {
    /// The turn detected but not yet delivered; `None` means idle.
    pub closed spec fn pending(self) -> Option<Direction> {
        self.turn
    }

    /// A fresh machine is idle: nothing is pending until a change event
    /// arrives.
    pub fn new() -> (s: Self)
        ensures
            s.pending() is None,
    {
        EncoderState { turn: None }
    }

    /// Records one change event: the levels sampled at the moment of the
    /// event are classified, and the result replaces whatever was pending
    /// before. Always succeeds, and does bounded work with no allocation,
    /// as a call from interrupt context must.
    pub fn notify_changed(&mut self, clock_high: bool, data_high: bool)
        ensures
            final(self).pending() == Some(classified(clock_high, data_high)),
    {
        self.turn = Some(classify(clock_high, data_high));
    }

    /// Delivers the pending turn exactly once: returns it and leaves the
    /// machine idle, so a second call with no intervening change event
    /// returns `None`.
    pub fn take_pending_turn(&mut self) -> (r: Option<Direction>)
        ensures
            r == old(self).pending(),
            final(self).pending() is None,
    {
        self.turn.take()
    }
}

} // verus!
