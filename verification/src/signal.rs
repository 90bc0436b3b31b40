//! The acknowledgement that the client side gives for an event.

use vstd::prelude::*;

verus! {

/// A one-shot signal: it is pending until the receiver of an event has heard it.
///
/// Both threads share one signal (behind a lock and a condition variable): the sender waits
/// while it is pending, the receiver marks it heard.
#[derive(Debug, Clone, Copy)]
pub struct AcknowledgeSignal {
    pending: bool,
}

impl AcknowledgeSignal {
    /// The signal has not been heard yet.
    pub closed spec fn pending(self) -> bool {
        self.pending
    }

    /// A new signal, pending.
    pub fn new() -> (signal: Self)
        ensures
            signal.pending(),
    {
        AcknowledgeSignal { pending: true }
    }

    /// Marks the signal heard, which ends the wait of the sender.
    pub fn heard(&mut self)
        ensures
            !final(self).pending(),
    {
        self.pending = false;
    }

    /// Whether the sender must still wait.
    pub fn is_pending(&self) -> (pending: bool)
        ensures
            pending == self.pending(),
    {
        self.pending
    }

    /// The wait of the sender, which ends once the signal has been heard: it can return only
    /// on a signal that is no longer pending.
    pub fn wait(&self)
        requires
            !self.pending(),
    {
    }
}

impl Default for AcknowledgeSignal {
    fn default() -> (signal: Self)
        ensures
            signal.pending(),
    {
        Self::new()
    }
}

} // verus!
