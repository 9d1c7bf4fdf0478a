use beltane::gui::{
    key_label, key_response, map_gui_action, status_text, toggle_label, GuiAction, KeyModifiers,
    KeyPress, KeyResponse,
};
use beltane::ports::Command;

fn no_modifiers() -> KeyModifiers {
    KeyModifiers { ctrl: false, shift: false, alt: false, command: false }
}

fn press(is_space: bool, pressed: bool, repeat: bool, modifiers: KeyModifiers) -> KeyPress {
    KeyPress { is_space, pressed, repeat, modifiers }
}

#[test]
fn maps_toggle_play_action() {
    assert_eq!(
        map_gui_action(GuiAction::TogglePlay),
        Some(Command::TogglePlay)
    );
}

#[test]
fn ignores_unknown_action() {
    assert_eq!(map_gui_action(GuiAction::Unknown), None);
}

#[test]
fn key_label_without_modifiers_is_the_key_name() {
    assert_eq!(key_label(no_modifiers(), "A"), "A");
}

#[test]
fn key_label_lists_modifiers_in_fixed_order() {
    let all = KeyModifiers { ctrl: true, shift: true, alt: true, command: true };
    assert_eq!(key_label(all, "Enter"), "Ctrl+Shift+Alt+Cmd+Enter");
    let some = KeyModifiers { ctrl: true, shift: false, alt: true, command: false };
    assert_eq!(key_label(some, "F1"), "Ctrl+Alt+F1");
    let shift = KeyModifiers { ctrl: false, shift: true, alt: false, command: false };
    assert_eq!(key_label(shift, "Tab"), "Shift+Tab");
}

#[test]
fn space_press_toggles_play() {
    let r = key_response(press(true, true, false, no_modifiers()), "Space");
    assert_eq!(r, KeyResponse::Act(GuiAction::TogglePlay));
}

#[test]
fn other_key_press_is_shown() {
    let mods = KeyModifiers { ctrl: true, shift: false, alt: false, command: false };
    let r = key_response(press(false, true, false, mods), "S");
    assert_eq!(r, KeyResponse::ShowKey(String::from("Ctrl+S")));
}

#[test]
fn releases_and_repeats_are_ignored() {
    assert_eq!(key_response(press(true, false, false, no_modifiers()), "Space"), KeyResponse::Ignore);
    assert_eq!(key_response(press(true, true, true, no_modifiers()), "Space"), KeyResponse::Ignore);
    assert_eq!(key_response(press(false, true, true, no_modifiers()), "B"), KeyResponse::Ignore);
    assert_eq!(key_response(press(false, false, false, no_modifiers()), "B"), KeyResponse::Ignore);
}

#[test]
fn labels_follow_transport_state() {
    assert_eq!(status_text(true), "Playing");
    assert_eq!(status_text(false), "Stopped");
    assert_eq!(toggle_label(true), "Stop");
    assert_eq!(toggle_label(false), "Play");
}
