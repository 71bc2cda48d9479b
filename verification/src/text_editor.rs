use vstd::prelude::*;
use crate::color::{Color, rgba};
use crate::focus::NodularEvent;
use crate::standard_keybinds::{StandardKeybind, handle_standard_keybinds, standard_keybind_spec};
use crate::text_box::{CharCell, TextBox, TextState, handle_event_spec, rendered_lines};
use crate::ui_event::{KeyModifiers, KeyTrait, UIEvent, spec_ctrl, spec_to_char};

verus! {

/// What the text editor asks of the code around it after an event.
#[derive(Debug, Clone, Copy, PartialEq, Eq, Structural)]
pub enum TextEditorAction {
    /// A standard keybind was pressed; the editor itself did nothing.
    Keybind(StandardKeybind),
    /// Write the text to the file.
    Save,
    /// Redraw the window.
    Redraw,
}

/// Whether an event is the save shortcut `Ctrl+s`.
pub open spec fn is_save(ui_event: UIEvent) -> bool {
    match ui_event {
        UIEvent::KeyPress(key, m) => m == spec_ctrl() && spec_to_char(key) == Some('s'),
        _ => false,
    }
}

/// A plain text editor: a text box and whether it has the focus.
pub struct TextEditorApplet {
    textbox: TextBox,
    focused: bool,
}

impl TextEditorApplet {
    pub closed spec fn text_state(self) -> TextState {
        self.textbox.state()
    }

    pub closed spec fn is_focused(self) -> bool {
        self.focused
    }

    pub open spec fn wf(self) -> bool {
        crate::text_box::state_wf(self.text_state())
    }

    /// An editor over `content`, focused, with the cursor at the start.
    pub fn new(content: String) -> (editor: TextEditorApplet)
        ensures
            editor.wf(),
            editor.text_state().lines == crate::text::split_lines(content@).map_values(
                |l: Seq<char>| crate::text_box::plain_line(l),
            ),
            editor.text_state().col == 0,
            editor.text_state().row == 0,
            editor.is_focused(),
    {
        TextEditorApplet { textbox: TextBox::new(content), focused: true }
    }

    /// The text box being edited.
    pub fn textbox(&self) -> (tb: &TextBox)
        ensures
            tb.state() == self.text_state(),
    {
        &self.textbox
    }

    /// Handles an input event: standard keybinds are reported, `Ctrl+s` asks
    /// for a save, and every other event goes to the text box.
    pub fn handle_ui_event(&mut self, ui_event: UIEvent) -> (action: TextEditorAction)
        requires
            old(self).wf(),
        ensures
            final(self).wf(),
            final(self).is_focused() == old(self).is_focused(),
            standard_keybind_spec(ui_event) matches Some(k) ==> action == TextEditorAction::Keybind(k)
                && final(self).text_state() == old(self).text_state(),
            standard_keybind_spec(ui_event) is None && is_save(ui_event) ==> action == TextEditorAction::Save
                && final(self).text_state() == old(self).text_state(),
            standard_keybind_spec(ui_event) is None && !is_save(ui_event) ==> action == TextEditorAction::Redraw
                && final(self).text_state() == handle_event_spec(old(self).text_state(), ui_event),
    {
        if let Some(keybind) = handle_standard_keybinds(&ui_event) {
            return TextEditorAction::Keybind(keybind);
        }
        if let UIEvent::KeyPress(key, m) = ui_event {
            if m == KeyModifiers::ctrl() && key.to_char() == Some('s') {
                return TextEditorAction::Save;
            }
        }
        self.textbox.handle_event(ui_event);
        TextEditorAction::Redraw
    }

    /// The lines to show: the cursor is black on light yellow when the
    /// editor has the focus, black on gray otherwise.
    pub fn get_window(&self) -> (grid: Vec<Vec<CharCell>>)
        requires
            self.wf(),
        ensures
            grid@.map_values(|line: Vec<CharCell>| line@) == rendered_lines(
                self.text_state(),
                rgba(0, 0, 0, 0xFF),
                if self.is_focused() { rgba(0xFF, 0xFF, 0, 0xFF) } else { rgba(0x7F, 0x7F, 0x7F, 0xFF) },
            ),
    {
        let cursor_color = if self.focused {
            Color::light_yellow()
        } else {
            Color::medium_gray()
        };
        self.textbox.render_grid_with_color((Color::black(), cursor_color))
    }

    /// Records whether the editor has the focus.
    pub fn handle_nodular_event(&mut self, nodular_event: NodularEvent)
        requires
            old(self).wf(),
            nodular_event is Focused,
        ensures
            final(self).wf(),
            final(self).is_focused() == nodular_event->Focused_0,
            final(self).text_state() == old(self).text_state(),
    {
        if let NodularEvent::Focused(focus) = nodular_event {
            self.focused = focus;
        }
    }
}

} // verus!
