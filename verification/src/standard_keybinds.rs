use vstd::prelude::*;
use crate::focus::WorldTreeTraversalOperation;
use crate::ui_event::{KeyModifiers, KeyTrait, UIEvent, spec_alt, spec_ctrl_shift, spec_to_char};

verus! {

/// What a standard keybind asks of the node that runs the applet.
#[derive(Debug, Clone, Copy, PartialEq, Eq, Structural)]
pub enum StandardKeybind {
    /// `Ctrl+Shift+Q`: close the applet.
    Close,
    /// `Ctrl+Shift+Plus`: add a command hub as a child.
    AddCommandHubChild,
    /// `Alt+q`: move the focus, out to the enclosing layer.
    ChangeFocus(WorldTreeTraversalOperation),
}

/// The standard keybind that an event triggers, if any.
pub open spec fn standard_keybind_spec(ui_event: UIEvent) -> Option<StandardKeybind> {
    match ui_event {
        UIEvent::KeyPress(key, m) => if m == spec_ctrl_shift() && spec_to_char(key) == Some('Q') {
            Some(StandardKeybind::Close)
        } else if m == spec_ctrl_shift() && spec_to_char(key) == Some('+') {
            Some(StandardKeybind::AddCommandHubChild)
        } else if m == spec_alt() && spec_to_char(key) == Some('q') {
            Some(StandardKeybind::ChangeFocus(WorldTreeTraversalOperation::PrevLayer))
        } else {
            None
        },
        _ => None,
    }
}

/// Recognizes the standard keybinds:
/// - `Ctrl+Shift+Q`: quit,
/// - `Ctrl+Shift+Plus`: add a command hub child,
/// - `Alt+q`: leave the focus for the enclosing layer.
///
/// Returns the keybind that the event triggers; `None` means the event is
/// not a standard keybind and is the applet's to handle.
pub fn handle_standard_keybinds(ui_event: &UIEvent) -> (keybind: Option<StandardKeybind>)
    ensures
        keybind == standard_keybind_spec(*ui_event),
{
    match ui_event {
        UIEvent::KeyPress(key, m) => {
            let c = key.to_char();
            if *m == KeyModifiers::ctrl_shift() && c == Some('Q') {
                Some(StandardKeybind::Close)
            } else if *m == KeyModifiers::ctrl_shift() && c == Some('+') {
                Some(StandardKeybind::AddCommandHubChild)
            } else if *m == KeyModifiers::alt() && c == Some('q') {
                Some(StandardKeybind::ChangeFocus(WorldTreeTraversalOperation::PrevLayer))
            } else {
                None
            }
        },
        _ => None,
    }
}

} // verus!
