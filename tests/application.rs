use beltane::application::BeltaneApp;
use beltane::domain::Session;
use beltane::ports::{AppEvent, Command, Effect, TransportView};

#[test]
fn toggle_play_emits_event_effect_and_projection() {
    let mut app = BeltaneApp::default();

    let output = app.handle(Command::TogglePlay);

    assert_eq!(
        output.events,
        vec![AppEvent::TransportToggled { is_playing: true }]
    );
    assert_eq!(
        output.effects,
        vec![Effect::SyncAudioTransport { is_playing: true }]
    );
    assert_eq!(output.view, TransportView { is_playing: true });
}

#[test]
fn second_toggle_stops_again() {
    let mut app = BeltaneApp::default();
    app.handle(Command::TogglePlay);
    let output = app.handle(Command::TogglePlay);
    assert_eq!(output.events, vec![AppEvent::TransportToggled { is_playing: false }]);
    assert_eq!(output.effects, vec![Effect::SyncAudioTransport { is_playing: false }]);
    assert_eq!(output.view, TransportView { is_playing: false });
    assert_eq!(app.view(), TransportView { is_playing: false });
}

#[test]
fn view_reports_session_state() {
    let app = BeltaneApp::default();
    assert_eq!(app.view(), TransportView { is_playing: false });

    let mut session = Session::default();
    session.toggle_transport_play();
    let app = BeltaneApp::new(session);
    assert_eq!(app.view(), TransportView { is_playing: true });
}
