//! The accept loop of a listener.
//!
//! Every transport that is accepted is wrapped as a connection and offered
//! to the pool from which `accept` reads. The loop ends when accepting fails
//! or when nobody takes connections any more.

use vstd::prelude::*;

verus! {

/// What came of the last thing the accept loop did.
#[derive(Debug, Clone, Copy, PartialEq, Eq, Structural)]
pub enum AcceptEvent {
    /// A transport was accepted.
    Accepted,
    /// Accepting failed.
    AcceptFailed,
    /// The connection was handed to a caller of `accept`.
    Offered,
    /// The connection was not taken: the pool is closed, or the caller
    /// refused it.
    OfferFailed,
}

/// What the accept loop does next.
#[derive(Debug, Clone, Copy, PartialEq, Eq, Structural)]
pub enum AcceptAction {
    /// Wait for the next transport.
    Accept,
    /// Wrap the transport as a connection and offer it to the pool.
    Offer,
    /// Close the pool and end.
    Close,
}

/// The accept loop of a listener.
#[derive(Debug, Clone, Copy, PartialEq, Eq, Structural)]
pub struct Listener {
    /// The loop runs.
    pub active: bool,
}

impl Listener {
    /// The loop and its answer after `event`.
    pub open spec fn after(self, event: AcceptEvent) -> (Self, AcceptAction) {
        if !self.active {
            (self, AcceptAction::Close)
        } else {
            match event {
                AcceptEvent::Accepted => (self, AcceptAction::Offer),
                AcceptEvent::Offered => (self, AcceptAction::Accept),
                _ => (Listener { active: false }, AcceptAction::Close),
            }
        }
    }

    /// A loop that runs. Its first step is to accept.
    pub fn listen() -> (listener: Self)
        ensures
            listener.active,
    {
        Listener { active: true }
    }

    /// Whether the loop runs.
    pub fn is_active(&self) -> (active: bool)
        ensures
            active == self.active,
    {
        self.active
    }

    /// Takes in `event` and says what to do next.
    pub fn on_event(&mut self, event: AcceptEvent) -> (action: AcceptAction)
        ensures
            (*final(self), action) == old(self).after(event),
    {
        if !self.active {
            AcceptAction::Close
        } else {
            match event {
                AcceptEvent::Accepted => AcceptAction::Offer,
                AcceptEvent::Offered => AcceptAction::Accept,
                _ => {
                    self.active = false;
                    AcceptAction::Close
                },
            }
        }
    }

    /// Ends the loop, as when the listener is dropped.
    pub fn close(&mut self)
        ensures
            !final(self).active,
    {
        self.active = false;
    }
}

/// A loop that has ended stays ended and asks for nothing but the close of
/// its pool.
pub proof fn lemma_ended_loop_stays_ended(listener: Listener, event: AcceptEvent)
    ensures
        !listener.active ==> listener.after(event) == (listener, AcceptAction::Close),
        !listener.after(event).0.active <==> listener.after(event).1 is Close,
{
}

} // verus!
