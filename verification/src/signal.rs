//! The one-shot cancellation signal.

use vstd::prelude::*;

verus! {

/// A set-once cancellation flag with two sides: a send side that fires it
/// at most meaningfully once, and a receive side that observes it without
/// blocking.  Once fired it stays observably fired for every later check;
/// nothing ever resets it.
pub struct CancellationSignal {
    fired: bool,
}

impl CancellationSignal {
    /// Whether the signal has been fired.
    pub closed spec fn is_set(self) -> bool {
        self.fired
    }

    /// A fresh signal; nothing has fired it yet.
    pub fn new() -> (s: CancellationSignal)
        ensures
            !s.is_set(),
    {
        CancellationSignal { fired: false }
    }

    /// Fires the signal.  Firing one that is already fired — the send
    /// landing after the receiver stopped listening — is a successful
    /// no-op, never an error; either way the signal is set afterwards and
    /// stays set.
    pub fn fire(&mut self)
        ensures
            final(self).is_set(),
    {
        self.fired = true;
    }

    /// Non-blocking observation; reading the signal never consumes or
    /// resets it.
    pub fn observe(&self) -> (r: bool)
        ensures
            r == self.is_set(),
    {
        self.fired
    }
}

} // verus!
