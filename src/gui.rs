//! GUI adapter boundary: user intents, their translation into application
//! commands, and the decisions the window makes on key presses and labels.

use vstd::prelude::*;
use crate::ports::Command;

verus! {

/// GUI-facing user intents before translation into application commands.
#[derive(Debug, Clone, Copy, PartialEq, Eq, Structural)]
pub enum GuiAction {
    TogglePlay,
    Unknown,
}

/// The command that a GUI action stands for, if any.
pub open spec fn command_of(action: GuiAction) -> Option<Command> {
    match action {
        GuiAction::TogglePlay => Some(Command::TogglePlay),
        GuiAction::Unknown => None,
    }
}

/// Inbound adapter mapping from GUI action to application command.
pub fn map_gui_action(action: GuiAction) -> (r: Option<Command>)
    ensures
        r == command_of(action),
{
    match action {
        GuiAction::TogglePlay => Some(Command::TogglePlay),
        GuiAction::Unknown => None,
    }
}

/// Modifier keys held during a key press.
#[derive(Debug, Clone, Copy, PartialEq, Eq, Structural)]
pub struct KeyModifiers {
    pub ctrl: bool,
    pub shift: bool,
    pub alt: bool,
    pub command: bool,
}

/// A keyboard event as the window reports it.
#[derive(Debug, Clone, Copy, PartialEq, Eq, Structural)]
pub struct KeyPress {
    /// The key is the space bar.
    pub is_space: bool,
    /// The key went down (not up).
    pub pressed: bool,
    /// The press is an auto-repeat of a held key.
    pub repeat: bool,
    pub modifiers: KeyModifiers,
}

/// What the window does with a key press.
#[derive(Debug, Clone, PartialEq, Eq)]
pub enum KeyResponse {
    /// Dispatch the given intent.
    Act(GuiAction),
    /// Show this description of the key as the last key pressed.
    ShowKey(String),
    /// Nothing to do.
    Ignore,
}

/// `text` when `on` holds, else nothing.
pub open spec fn part_if(on: bool, text: Seq<char>) -> Seq<char> {
    if on { text } else { Seq::empty() }
}

/// The description of a key: the held modifiers in the order Ctrl, Shift,
/// Alt, Cmd, then the key's name, joined by `+`.
pub open spec fn key_label_of(m: KeyModifiers, key_name: Seq<char>) -> Seq<char> {
    part_if(m.ctrl, "Ctrl+"@) + part_if(m.shift, "Shift+"@) + part_if(m.alt, "Alt+"@)
        + part_if(m.command, "Cmd+"@) + key_name
}

/// Appends `text` to `s` when `on` holds.
fn push_part_if(s: &mut String, on: bool, text: &str)
    ensures
        final(s)@ == old(s)@ + part_if(on, text@),
{
    if on {
        s.append(text);
    }
}

/// Describes a key press, e.g. `Ctrl+Shift+A`.
pub fn key_label(modifiers: KeyModifiers, key_name: &str) -> (r: String)
    ensures
        r@ == key_label_of(modifiers, key_name@),
{
    let mut s = String::new();
    push_part_if(&mut s, modifiers.ctrl, "Ctrl+");
    push_part_if(&mut s, modifiers.shift, "Shift+");
    push_part_if(&mut s, modifiers.alt, "Alt+");
    push_part_if(&mut s, modifiers.command, "Cmd+");
    s.append(key_name);
    s
}

/// Decides what the window does with a key press: a fresh press of the space
/// bar toggles play, a fresh press of any other key is shown, releases and
/// repeats are ignored. `key_name` is the key's name as the window system
/// spells it.
pub fn key_response(press: KeyPress, key_name: &str) -> (r: KeyResponse)
    ensures
        !press.pressed || press.repeat ==> r == KeyResponse::Ignore,
        press.pressed && !press.repeat && press.is_space ==> r == KeyResponse::Act(GuiAction::TogglePlay),
        press.pressed && !press.repeat && !press.is_space ==> (r matches KeyResponse::ShowKey(label)
            && label@ == key_label_of(press.modifiers, key_name@)),
{
    if !press.pressed || press.repeat {
        KeyResponse::Ignore
    } else if press.is_space {
        KeyResponse::Act(GuiAction::TogglePlay)
    } else {
        KeyResponse::ShowKey(key_label(press.modifiers, key_name))
    }
}

/// The heading's word for the transport state.
pub fn status_text(is_playing: bool) -> (r: &'static str)
    ensures
        r@ == (if is_playing { "Playing"@ } else { "Stopped"@ }),
{
    if is_playing { "Playing" } else { "Stopped" }
}

/// The caption of the play/stop button: the action a click performs.
pub fn toggle_label(is_playing: bool) -> (r: &'static str)
    ensures
        r@ == (if is_playing { "Stop"@ } else { "Play"@ }),
{
    if is_playing { "Stop" } else { "Play" }
}

} // verus!
