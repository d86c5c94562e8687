//! Cross-thread signal slots.
//!
//! The UI/command context talks to the orchestrator thread through exactly
//! two single-purpose signals: "unlock" (sent after a successful credential
//! check) and "window ready".  Both carry no payload and have single-slot,
//! at-most-one-outstanding semantics: sending an already-pending signal is a
//! benign no-op, and draining observes whether anything was pending while
//! clearing the slot.

use vstd::prelude::*;

verus! {

/// A single-slot, payload-free signal.
pub struct SignalSlot {
    /// Whether a signal has been sent and not yet drained.
    pub pending: bool,
}

impl SignalSlot {
    /// An empty slot.
    pub fn new() -> (s: Self)
        ensures
            !s.pending,
    {
        SignalSlot { pending: false }
    }

    /// Raise the signal; raising an already-pending signal changes nothing.
    pub fn signal(&mut self)
        ensures
            final(self).pending,
    {
        self.pending = true;
    }

    /// Drain the slot, reporting whether a signal was pending.
    pub fn take(&mut self) -> (was: bool)
        ensures
            was == old(self).pending,
            !final(self).pending,
    {
        let was = self.pending;
        self.pending = false;
        was
    }
}

} // verus!
