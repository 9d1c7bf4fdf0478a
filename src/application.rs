//! Application layer: runs domain transitions and reports them as events,
//! effects and a projection for the adapters.

use vstd::prelude::*;
use crate::domain::{DomainEvent, Session};
use crate::ports::{AppEvent, Command, Effect, HandleOutput, TransportView};

verus! {

/// The play state after `command` is applied to a transport in state `playing`.
pub open spec fn next_playing(playing: bool, command: Command) -> bool {
    match command {
        Command::TogglePlay => !playing,
    }
}

/// The application event that reports a domain event.
pub open spec fn app_event_of(event: DomainEvent) -> AppEvent {
    match event {
        DomainEvent::TransportToggled { is_playing } => AppEvent::TransportToggled { is_playing },
    }
}

/// Beltane application service and owner of the session.
#[derive(Debug)]
pub struct BeltaneApp {
    session: Session,
}

impl Default for BeltaneApp {
    /// An application over a stopped session.
    fn default() -> (r: Self)
        ensures
            !r.playing(),
    {
        BeltaneApp { session: Session::default() }
    }
}

impl BeltaneApp {
    /// Whether the owned transport is playing.
    pub closed spec fn playing(&self) -> bool {
        self.session@
    }

    /// An application service that owns `session`.
    pub fn new(session: Session) -> (r: Self)
        ensures
            r.playing() == session@,
    {
        BeltaneApp { session }
    }

    /// Returns the current projection snapshot.
    pub fn view(&self) -> (r: TransportView)
        ensures
            r == (TransportView { is_playing: self.playing() }),
    {
        TransportView { is_playing: self.session.transport().is_playing() }
    }

    /// Handles a command: applies it to the session and returns the event it
    /// raised, the effect that brings the audio side along, and the new
    /// projection.
    pub fn handle(&mut self, command: Command) -> (r: HandleOutput)
        ensures
            final(self).playing() == next_playing(old(self).playing(), command),
            r.events@ == seq![AppEvent::TransportToggled { is_playing: final(self).playing() }],
            r.effects@ == seq![Effect::SyncAudioTransport { is_playing: final(self).playing() }],
            r.view == (TransportView { is_playing: final(self).playing() }),
    {
        match command {
            Command::TogglePlay => {
                let domain_event = self.session.toggle_transport_play();
                let app_event = map_event(domain_event);
                let is_playing = match domain_event {
                    DomainEvent::TransportToggled { is_playing } => is_playing,
                };
                HandleOutput {
                    events: vec![app_event],
                    effects: vec![Effect::SyncAudioTransport { is_playing }],
                    view: TransportView { is_playing },
                }
            },
        }
    }
}

/// Reports a domain event as an application event.
fn map_event(event: DomainEvent) -> (r: AppEvent)
    ensures
        r == app_event_of(event),
{
    match event {
        DomainEvent::TransportToggled { is_playing } => AppEvent::TransportToggled { is_playing },
    }
}

} // verus!
