//! Port contracts: the commands that drive the application, the events and
//! effects it emits, the projection it publishes, and the outbound ports
//! that adapters implement.

use vstd::prelude::*;

verus! {

/// Inbound application commands from driving adapters (GUI, MIDI, network, ...).
#[derive(Debug, Clone, Copy, PartialEq, Eq, Structural)]
pub enum Command {
    TogglePlay,
}

/// Application-level events exposed to observers.
#[derive(Debug, Clone, Copy, PartialEq, Eq, Structural)]
pub enum AppEvent {
    TransportToggled { is_playing: bool },
}

/// The play state that an effect asks the audio side to take.
pub open spec fn effect_playing(effect: Effect) -> bool {
    match effect {
        Effect::SyncAudioTransport { is_playing } => is_playing,
    }
}

/// Outbound side effects requested by the application layer.
#[derive(Debug, Clone, Copy, PartialEq, Eq, Structural)]
pub enum Effect {
    SyncAudioTransport { is_playing: bool },
}

/// Projection used by UI render adapters.
#[derive(Debug, Clone, Copy, PartialEq, Eq, Structural)]
pub struct TransportView {
    pub is_playing: bool,
}

/// Standard response shape for command handling.
#[derive(Debug, Clone, PartialEq, Eq)]
pub struct HandleOutput {
    pub events: Vec<AppEvent>,
    pub effects: Vec<Effect>,
    pub view: TransportView,
}

/// Outbound port implemented by audio adapters.
pub trait AudioPort {
    /// The play states handed to this adapter so far, oldest first.
    ///
    /// An adapter that is verified against `sync_transport`'s contract
    /// overrides this; the empty default records nothing.
    open spec fn synced(&self) -> Seq<bool> {
        Seq::empty()
    }

    /// Brings the audio backend to the given play state.
    fn sync_transport(&mut self, is_playing: bool)
        ensures
            final(self).synced() == old(self).synced().push(is_playing),
    ;
}

/// Outbound port implemented by UI projection adapters.
pub trait ProjectionPort {
    /// The projections published to this adapter so far, oldest first.
    ///
    /// An adapter that is verified against `publish_transport`'s contract
    /// overrides this; the empty default records nothing.
    open spec fn published(&self) -> Seq<TransportView> {
        Seq::empty()
    }

    /// Publishes a new transport projection.
    fn publish_transport(&mut self, view: TransportView)
        ensures
            final(self).published() == old(self).published().push(view),
    ;
}

} // verus!
