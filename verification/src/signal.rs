//! Which waiting tasks an operation on a channel has to wake.

use vstd::prelude::*;

verus! {

/// The wake-ups that an operation owes. Whoever performs the operation sends them afterwards.
#[derive(Clone, Copy, Debug, PartialEq, Eq, Structural)]
pub struct Signals {
    /// Wake every consumer that waits for an event.
    pub consumers: bool,
    /// Wake the publisher that waits for space in the buffer. If none waits yet, the next one to
    /// wait goes on at once.
    pub publisher: bool,
    /// Wake one publisher that waits for its turn. If none waits yet, the next one to wait goes
    /// on at once.
    pub claimant: bool,
}

impl Signals {
    /// Nobody is woken.
    pub fn none() -> (signals: Self)
        ensures
            signals == (Signals { consumers: false, publisher: false, claimant: false }),
    {
        Signals { consumers: false, publisher: false, claimant: false }
    }

    /// The consumers are woken.
    pub fn to_consumers() -> (signals: Self)
        ensures
            signals == (Signals { consumers: true, publisher: false, claimant: false }),
    {
        Signals { consumers: true, publisher: false, claimant: false }
    }

    /// The publisher that waits for space is woken.
    pub fn to_publisher() -> (signals: Self)
        ensures
            signals == (Signals { consumers: false, publisher: true, claimant: false }),
    {
        Signals { consumers: false, publisher: true, claimant: false }
    }

    /// One publisher that waits for its turn is woken.
    pub fn to_claimant() -> (signals: Self)
        ensures
            signals == (Signals { consumers: false, publisher: false, claimant: true }),
    {
        Signals { consumers: false, publisher: false, claimant: true }
    }

    /// The wake-ups of both.
    pub fn and(self, other: Self) -> (signals: Self)
        ensures
            signals == (Signals {
                consumers: self.consumers || other.consumers,
                publisher: self.publisher || other.publisher,
                claimant: self.claimant || other.claimant,
            }),
    {
        Signals {
            consumers: self.consumers || other.consumers,
            publisher: self.publisher || other.publisher,
            claimant: self.claimant || other.claimant,
        }
    }
}

} // verus!
