//! Domain model: the transport's play state. No I/O, no GUI, no backend.

use vstd::prelude::*;

verus! {

/// Core transport state owned by the domain.
#[derive(Debug, Clone, Copy, PartialEq, Eq)]
pub struct Transport {
    is_playing: bool,
}

impl View for Transport {
    type V = bool;

    /// Whether the transport is playing.
    closed spec fn view(&self) -> bool {
        self.is_playing
    }
}

impl Default for Transport {
    /// A stopped transport.
    fn default() -> (r: Self)
        ensures
            !r@,
    {
        Transport { is_playing: false }
    }
}

impl Transport {
    /// Returns the current play state.
    pub fn is_playing(&self) -> (r: bool)
        ensures
            r == self@,
    {
        self.is_playing
    }

    /// Toggles play state and emits a domain event carrying the new state.
    pub fn toggle_play(&mut self) -> (r: DomainEvent)
        ensures
            final(self)@ == !old(self)@,
            r == (DomainEvent::TransportToggled { is_playing: final(self)@ }),
    {
        self.is_playing = !self.is_playing;
        DomainEvent::TransportToggled { is_playing: self.is_playing }
    }
}

/// Domain-level events emitted after successful state transitions.
#[derive(Debug, Clone, Copy, PartialEq, Eq, Structural)]
pub enum DomainEvent {
    TransportToggled { is_playing: bool },
}

/// Domain aggregate root: one session with one transport.
#[derive(Debug, Clone, PartialEq, Eq)]
pub struct Session {
    transport: Transport,
}

impl View for Session {
    type V = bool;

    /// Whether the session's transport is playing.
    closed spec fn view(&self) -> bool {
        self.transport@
    }
}

impl Default for Session {
    /// A session whose transport is stopped.
    fn default() -> (r: Self)
        ensures
            !r@,
    {
        Session { transport: Transport::default() }
    }
}

impl Session {
    /// Returns a snapshot of the transport.
    pub fn transport(&self) -> (r: Transport)
        ensures
            r@ == self@,
    {
        self.transport
    }

    /// Domain use case: toggle the transport's play state.
    pub fn toggle_transport_play(&mut self) -> (r: DomainEvent)
        ensures
            final(self)@ == !old(self)@,
            r == (DomainEvent::TransportToggled { is_playing: final(self)@ }),
    {
        self.transport.toggle_play()
    }
}

} // verus!
