//! Runtime wiring: runs commands through the application and applies the
//! resulting effects and projection to concrete adapters via the port traits.

use vstd::prelude::*;
use crate::application::{next_playing, BeltaneApp};
use crate::ports::{effect_playing, AppEvent, AudioPort, Command, Effect, ProjectionPort, TransportView};

verus! {

/// Owns the application service and the adapters that carry out its effects.
#[derive(Debug)]
pub struct Runtime<A, P> where A: AudioPort, P: ProjectionPort {
    app: BeltaneApp,
    audio: A,
    projection: P,
}

impl<A, P> Runtime<A, P> where A: AudioPort, P: ProjectionPort {
    /// The application service that the runtime drives.
    pub closed spec fn app_state(&self) -> BeltaneApp {
        self.app
    }

    /// The audio adapter.
    pub closed spec fn audio_state(&self) -> A {
        self.audio
    }

    /// The projection adapter.
    pub closed spec fn projection_state(&self) -> P {
        self.projection
    }

    /// A runtime that drives `app` and routes effects to `audio` and `projection`.
    pub fn new(app: BeltaneApp, audio: A, projection: P) -> (r: Self)
        ensures
            r.app_state() == app,
            r.audio_state() == audio,
            r.projection_state() == projection,
    {
        Runtime { app, audio, projection }
    }

    /// A runtime over a stopped application.
    pub fn with_defaults(audio: A, projection: P) -> (r: Self)
        ensures
            !r.app_state().playing(),
            r.audio_state() == audio,
            r.projection_state() == projection,
    {
        Self::new(BeltaneApp::default(), audio, projection)
    }

    /// Dispatches one command through the application, hands each effect to
    /// the audio port and the new projection to the projection port, and
    /// returns the events that the command raised.
    pub fn dispatch(&mut self, command: Command) -> (r: Vec<AppEvent>)
        ensures
            final(self).app_state().playing() == next_playing(old(self).app_state().playing(), command),
            r@ == seq![AppEvent::TransportToggled { is_playing: final(self).app_state().playing() }],
            final(self).audio_state().synced() == old(self).audio_state().synced().push(
                final(self).app_state().playing(),
            ),
            final(self).projection_state().published() == old(self).projection_state().published().push(
                TransportView { is_playing: final(self).app_state().playing() },
            ),
    {
        let output = self.app.handle(command);
        let ghost handled = self.app;
        let ghost synced_before = self.audio.synced();
        let ghost projection_before = self.projection;
        let effects = output.effects;
        let mut i: usize = 0;
        while i < effects.len()
            invariant
                i <= effects.len(),
                self.app == handled,
                self.projection == projection_before,
                self.audio.synced() == synced_before + effects@.take(i as int).map_values(
                    |e: Effect| effect_playing(e),
                ),
            decreases effects.len() - i,
        {
            self.apply_effect(effects[i]);
            i = i + 1;
        }
        self.projection.publish_transport(output.view);
        output.events
    }

    /// The application service.
    pub fn app(&self) -> (r: &BeltaneApp)
        ensures
            *r == self.app_state(),
    {
        &self.app
    }

    /// The audio adapter.
    pub fn audio(&self) -> (r: &A)
        ensures
            *r == self.audio_state(),
    {
        &self.audio
    }

    /// The projection adapter.
    pub fn projection(&self) -> (r: &P)
        ensures
            *r == self.projection_state(),
    {
        &self.projection
    }

    /// Takes the runtime apart into its application service and adapters.
    pub fn into_parts(self) -> (r: (BeltaneApp, A, P))
        ensures
            r == (self.app_state(), self.audio_state(), self.projection_state()),
    {
        (self.app, self.audio, self.projection)
    }

    /// Hands one effect to the port that carries it out.
    fn apply_effect(&mut self, effect: Effect)
        ensures
            final(self).app == old(self).app,
            final(self).projection == old(self).projection,
            final(self).audio.synced() == old(self).audio.synced().push(effect_playing(effect)),
    {
        match effect {
            Effect::SyncAudioTransport { is_playing } => {
                self.audio.sync_transport(is_playing);
            },
        }
    }
}

} // verus!
