use vstd::prelude::*;
use crate::window::{back_script, forward_script, href_script, navigate_script, reload_script};

verus! {

/// The keys that the global shortcuts use.
#[derive(Debug, Clone, Copy, PartialEq, Eq, Structural)]
pub enum Key {
    KeyN,
    KeyR,
    BracketLeft,
    BracketRight,
    Comma,
}

/// A key chord: the command (super) key and shift held or not, and one key.
#[derive(Debug, Clone, Copy, PartialEq, Eq, Structural)]
pub struct Chord {
    pub command: bool,
    pub shift: bool,
    pub key: Key,
}

/// What a global shortcut asks for.
#[derive(Debug, Clone, Copy, PartialEq, Eq, Structural)]
pub enum ShortcutAction {
    NewChat,
    Reload,
    Back,
    Forward,
    NewWindow,
    OpenSettings,
}

/// The action bound to a chord, if any.
pub open spec fn bound_action(c: Chord) -> Option<ShortcutAction> {
    if !c.command {
        None
    } else if c.shift {
        if c.key == Key::KeyN {
            Some(ShortcutAction::NewWindow)
        } else {
            None
        }
    } else {
        match c.key {
            Key::KeyN => Some(ShortcutAction::NewChat),
            Key::KeyR => Some(ShortcutAction::Reload),
            Key::BracketLeft => Some(ShortcutAction::Back),
            Key::BracketRight => Some(ShortcutAction::Forward),
            Key::Comma => Some(ShortcutAction::OpenSettings),
        }
    }
}

/// The fixed table of global shortcuts, registered once at start.
pub fn shortcut_bindings() -> (r: Vec<Chord>)
    ensures
        r@.len() == 6,
        forall|i: int| 0 <= i < r@.len() ==> bound_action(#[trigger] r@[i]) is Some,
        forall|i: int, j: int|
            0 <= i < j < r@.len() ==> bound_action(#[trigger] r@[i]) != bound_action(
                #[trigger] r@[j],
            ),
{
    vec![
        Chord { command: true, shift: false, key: Key::KeyN },
        Chord { command: true, shift: false, key: Key::KeyR },
        Chord { command: true, shift: false, key: Key::BracketLeft },
        Chord { command: true, shift: false, key: Key::BracketRight },
        Chord { command: true, shift: true, key: Key::KeyN },
        Chord { command: true, shift: false, key: Key::Comma },
    ]
}

/// The action that a pressed chord triggers; `None` for an unbound chord.
pub fn action_for(chord: Chord) -> (r: Option<ShortcutAction>)
    ensures
        r == bound_action(chord),
{
    if !chord.command {
        None
    } else if chord.shift {
        match chord.key {
            Key::KeyN => Some(ShortcutAction::NewWindow),
            _ => None,
        }
    } else {
        match chord.key {
            Key::KeyN => Some(ShortcutAction::NewChat),
            Key::KeyR => Some(ShortcutAction::Reload),
            Key::BracketLeft => Some(ShortcutAction::Back),
            Key::BracketRight => Some(ShortcutAction::Forward),
            Key::Comma => Some(ShortcutAction::OpenSettings),
        }
    }
}

/// What the shell does for a shortcut.
#[derive(Debug)]
pub enum Effect {
    /// Evaluate this script in the main window.
    Eval(String),
    /// Open the settings file for editing.
    OpenSettings,
    /// Create a new window on the configured server, off the shortcut thread.
    SpawnWindow,
    /// Nothing: the action needs the main window and there is none.
    Nothing,
}

/// Decides what a triggered action does, given the configured server URL
/// and whether the main window exists. A new window is opened in any case;
/// every other action acts on the main window and does nothing without it.
pub fn dispatch(action: ShortcutAction, server_url: &str, main_window_open: bool) -> (r: Effect)
    ensures
        action is NewWindow ==> r is SpawnWindow,
        !(action is NewWindow) && !main_window_open ==> r is Nothing,
        main_window_open ==> (action is NewChat ==> (r matches Effect::Eval(s) && s@ == href_script(
            server_url@ + "/chat"@,
        ))),
        main_window_open ==> (action is Reload ==> (r matches Effect::Eval(s) && s@
            == "window.location.reload()"@)),
        main_window_open ==> (action is Back ==> (r matches Effect::Eval(s) && s@
            == "window.history.back()"@)),
        main_window_open ==> (action is Forward ==> (r matches Effect::Eval(s) && s@
            == "window.history.forward()"@)),
        main_window_open ==> (action is OpenSettings ==> r is OpenSettings),
{
    match action {
        ShortcutAction::NewWindow => Effect::SpawnWindow,
        _ => {
            if !main_window_open {
                Effect::Nothing
            } else {
                match action {
                    ShortcutAction::NewChat => Effect::Eval(navigate_script(server_url, "/chat")),
                    ShortcutAction::Reload => Effect::Eval(reload_script()),
                    ShortcutAction::Back => Effect::Eval(back_script()),
                    ShortcutAction::Forward => Effect::Eval(forward_script()),
                    _ => Effect::OpenSettings,
                }
            }
        },
    }
}

} // verus!
