use vstd::prelude::*;
use crate::ui_event::{KeyTrait, UIEvent, spec_to_char};
use crate::char_grid::{CharCellStyle, CharGrid, lemma_one_char_text_fits};
use crate::color::rgba;

verus! {

/// Shows the last character typed, to test how single characters render.
pub struct OneCharRenderTestApplet(pub char);

impl OneCharRenderTestApplet {
    /// Starts with a space.
    pub fn new() -> (applet: OneCharRenderTestApplet)
        ensures
            applet.0 == ' ',
    {
        OneCharRenderTestApplet(' ')
    }

    /// A key press that types a character makes it the shown character;
    /// returns whether the window and tree view need redrawing.
    pub fn handle_ui_event(&mut self, ui_event: UIEvent) -> (damaged: bool)
        ensures
            match ui_event {
                UIEvent::KeyPress(key, _) => match spec_to_char(key) {
                    Some(c) => damaged && final(self).0 == c,
                    None => !damaged && final(self).0 == old(self).0,
                },
                _ => !damaged && final(self).0 == old(self).0,
            },
    {
        if let UIEvent::KeyPress(key, _) = ui_event {
            if let Some(c) = key.to_char() {
                self.0 = c;
                return true;
            }
        }
        false
    }

    /// The window: the shown character, in light yellow on a transparent
    /// background.
    pub fn get_window(&self) -> (grid: CharGrid)
        ensures
            grid.shows_text(seq![self.0], rgba(0xFF, 0xFF, 0, 0xFF), rgba(0, 0, 0, 0), CharCellStyle(0)),
    {
        let label = self.get_treeview();
        proof {
            lemma_one_char_text_fits(self.0);
        }
        CharGrid::from_text(label.as_str())
    }

    /// The label in the tree view: the shown character.
    pub fn get_treeview(&self) -> (label: String)
        ensures
            label@ == seq![self.0],
    {
        let mut label = String::new();
        label.push(self.0);
        label
    }
}

/// An arithmetic game applet that holds the two terms of a sum and does not
/// react to input yet.
pub struct MathGameApplet {
    pub terms: [u8; 2],
}

impl MathGameApplet {
    /// Input events are ignored for now.
    pub fn handle_ui_event(ui_event: UIEvent) {
        match ui_event {
            UIEvent::KeyPress(_key_event, _key_modifiers) => {},
            UIEvent::WindowResized(_) => {},
            UIEvent::MousePress(_) => {},
        }
    }
}

} // verus!
