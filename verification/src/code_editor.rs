use vstd::prelude::*;
use ropey::Rope;
use vstd::string::StringSliceAdditionalSpecFns;
use crate::char_grid::{CharCellStyle, CharGrid, InternalCharCell, default_cell, FONT_SIZE_U, FONT_WIDTH_U};
use crate::color::{Color, rgba};
use crate::focus::NodularEvent;
use crate::rope::{
    char_to_line, get_line_chars, insert_char, insert_str, len_chars, len_lines, line_to_char,
    remove_range, rope_char_to_line, rope_from_str, rope_len_lines, rope_line_to_char, rope_text,
};
use crate::standard_keybinds::{StandardKeybind, handle_standard_keybinds, standard_keybind_spec};
use crate::ui_event::{
    DisplayContainerSize, Key, KeyModifiers, UIEvent, spec_ctrl, spec_ctrl_shift, spec_none, spec_shift,
};

verus! {

/// The scroll position of the editor view.
pub struct ViewOffset {
    /// The text line shown in the top row.
    pub scroll: usize,
    /// The number of rows the view had when last resized.
    pub most_recent_num_rows: Option<usize>,
}

/// The lowest scroll that still shows `cursor_line`: with `n` rows, the
/// cursor line must be one of the `n` lines from the top.
pub open spec fn lowest_scroll(num_rows: Option<usize>, cursor_line: int) -> int {
    match num_rows {
        Some(n) => if cursor_line + 1 >= n { cursor_line + 1 - n } else { 0 },
        None => 0,
    }
}

/// The scroll after bringing `cursor_line` into view.
pub open spec fn clamp_scroll(scroll: int, num_rows: Option<usize>, cursor_line: int) -> int {
    let lo = lowest_scroll(num_rows, cursor_line);
    if scroll < lo {
        lo
    } else if scroll > cursor_line {
        cursor_line
    } else {
        scroll
    }
}

/// The scroll after moving by `offset` rows, stopping at the ends of `usize`.
pub open spec fn add_scroll_spec(scroll: int, offset: int) -> int {
    if scroll + offset < 0 {
        0
    } else if scroll + offset > usize::MAX {
        usize::MAX as int
    } else {
        scroll + offset
    }
}

impl ViewOffset {
    /// The text line shown in display row `display_row`.
    pub fn disp_row_to_line_idx(&self, display_row: usize) -> (line_idx: usize)
        requires
            display_row + self.scroll <= usize::MAX,
        ensures
            line_idx == display_row + self.scroll,
    {
        display_row + self.scroll
    }

    /// Scrolls by `offset` rows: positive is down, negative is up.
    pub fn add_scroll(&mut self, offset: isize)
        ensures
            final(self).scroll == add_scroll_spec(old(self).scroll as int, offset as int),
            final(self).most_recent_num_rows == old(self).most_recent_num_rows,
    {
        self.scroll = match self.scroll.checked_add_signed(offset) {
            Some(s) => s,
            None => if offset < 0 {
                0
            } else {
                usize::MAX
            },
        };
    }

    /// Scrolls just enough for `cursor_line` to be shown: the top row stays
    /// at or above the cursor line and, when the number of rows is known,
    /// the cursor line stays within them.
    pub fn clamp_to_cursor(&mut self, cursor_line: usize)
        requires
            old(self).most_recent_num_rows != Some(0usize),
        ensures
            final(self).scroll == clamp_scroll(old(self).scroll as int, old(self).most_recent_num_rows, cursor_line as int),
            final(self).most_recent_num_rows == old(self).most_recent_num_rows,
            final(self).scroll <= cursor_line,
            old(self).most_recent_num_rows matches Some(n) ==> cursor_line < final(self).scroll + n,
    {
        let lo = match self.most_recent_num_rows {
            Some(num_rows) => if cursor_line >= num_rows - 1 {
                cursor_line - (num_rows - 1)
            } else {
                0
            },
            None => 0,
        };
        if self.scroll < lo {
            self.scroll = lo;
        } else if self.scroll > cursor_line {
            self.scroll = cursor_line;
        }
    }
}

/// The editing mode, as in modal editors.
#[derive(Debug, Clone, Copy, PartialEq, Eq, Structural)]
pub enum EditorMode {
    Normal,
    Insert,
}

/// What the editor asks of the code around it after an event.
#[derive(Debug, Clone, Copy, PartialEq, Eq, Structural)]
pub enum CodeEditorAction {
    /// A standard keybind was pressed; the editor itself did nothing.
    Keybind(StandardKeybind),
    /// Write the buffer to the file, then redraw.
    Save,
    /// Fetch the clipboard text and, if there is some, `paste` it; then redraw.
    Paste,
    /// Redraw the window.
    Redraw,
}

/// The abstract state of a code editor.
pub struct EditorState {
    pub text: Seq<char>,
    /// A character index; `text.len()` is past the last character.
    pub cursor: int,
    pub mode: EditorMode,
    pub focused: bool,
    pub scroll: int,
    pub num_rows: Option<usize>,
}

pub open spec fn editor_wf(s: EditorState) -> bool {
    0 <= s.cursor <= s.text.len()
}

/// The state with the cursor moved to `cursor` and the view scrolled to
/// show it.
pub open spec fn move_cursor(s: EditorState, cursor: int) -> EditorState {
    EditorState {
        cursor,
        scroll: clamp_scroll(s.scroll, s.num_rows, rope_char_to_line(s.text, cursor)),
        ..s
    }
}

/// The state with new text and the cursor moved to `cursor`, the view
/// scrolled to show it.
pub open spec fn edit_text(s: EditorState, text: Seq<char>, cursor: int) -> EditorState {
    EditorState {
        text,
        cursor,
        scroll: clamp_scroll(s.scroll, s.num_rows, rope_char_to_line(text, cursor)),
        ..s
    }
}

pub open spec fn min_int(a: int, b: int) -> int {
    if a < b {
        a
    } else {
        b
    }
}

/// The cursor after moving up a line: the same column on the line above
/// (the first line for the first line), but no further than that line's
/// last character.
pub open spec fn cursor_up(t: Seq<char>, cursor: int) -> int {
    let line = rope_char_to_line(t, cursor);
    let column = cursor - rope_line_to_char(t, line);
    let new_line = if line >= 1 { line - 1 } else { 0 };
    min_int(rope_line_to_char(t, new_line) + column, rope_line_to_char(t, new_line + 1) - 1)
}

/// The cursor after moving down a line: the same column on the line below
/// (the last line for the last line), but no further than the start of the
/// line after it.
pub open spec fn cursor_down(t: Seq<char>, cursor: int) -> int {
    let line = rope_char_to_line(t, cursor);
    let column = cursor - rope_line_to_char(t, line);
    let new_line = if line + 1 < rope_len_lines(t) { line + 1 } else { rope_len_lines(t) - 1 };
    min_int(rope_line_to_char(t, new_line) + column, rope_line_to_char(t, new_line + 1))
}

pub open spec fn is_none_or_shift(m: KeyModifiers) -> bool {
    m == spec_none() || m == spec_shift()
}

/// What a key press does in Insert mode, past the keys every mode handles.
pub open spec fn insert_mode_key(s: EditorState, key: Key, m: KeyModifiers) -> (EditorState, CodeEditorAction) {
    match key {
        Key::Char(c) if is_none_or_shift(m) => (
            edit_text(s, s.text.insert(s.cursor, c), s.cursor + 1),
            CodeEditorAction::Redraw,
        ),
        Key::Enter if is_none_or_shift(m) => (
            edit_text(s, s.text.insert(s.cursor, '\n'), s.cursor + 1),
            CodeEditorAction::Redraw,
        ),
        Key::Backspace if is_none_or_shift(m) => if s.cursor >= 1 {
            (edit_text(s, s.text.remove(s.cursor - 1), s.cursor - 1), CodeEditorAction::Redraw)
        } else {
            (s, CodeEditorAction::Redraw)
        },
        Key::Escape => (EditorState { mode: EditorMode::Normal, ..s }, CodeEditorAction::Redraw),
        Key::Char(c) if (c == 'v' && m == spec_ctrl()) || (c == 'V' && m == spec_ctrl_shift()) => (
            s,
            CodeEditorAction::Paste,
        ),
        _ => (s, CodeEditorAction::Redraw),
    }
}

/// What a key press does in Normal mode, past the keys every mode handles.
pub open spec fn normal_mode_key(s: EditorState, key: Key, m: KeyModifiers) -> (EditorState, CodeEditorAction) {
    if key == Key::Char('i') && m == spec_none() {
        (EditorState { mode: EditorMode::Insert, ..s }, CodeEditorAction::Redraw)
    } else if key == Key::Char('a') && m == spec_none() {
        (
            move_cursor(
                EditorState { mode: EditorMode::Insert, ..s },
                min_int(s.cursor + 1, s.text.len() as int),
            ),
            CodeEditorAction::Redraw,
        )
    } else {
        (s, CodeEditorAction::Redraw)
    }
}

/// What a key press does to the editor, and what it asks of the code around it.
pub open spec fn keypress_spec(s: EditorState, key: Key, m: KeyModifiers) -> (EditorState, CodeEditorAction) {
    if key == Key::Char('s') && m == spec_ctrl() {
        (s, CodeEditorAction::Save)
    } else if key == Key::ArrowKeyLeft && m == spec_none() {
        (move_cursor(s, if s.cursor >= 1 { s.cursor - 1 } else { 0 }), CodeEditorAction::Redraw)
    } else if key == Key::ArrowKeyRight && m == spec_none() {
        (move_cursor(s, min_int(s.cursor + 1, s.text.len() as int)), CodeEditorAction::Redraw)
    } else if key == Key::ArrowKeyUp && m == spec_none() {
        (move_cursor(s, cursor_up(s.text, s.cursor)), CodeEditorAction::Redraw)
    } else if key == Key::ArrowKeyDown && m == spec_none() {
        (move_cursor(s, cursor_down(s.text, s.cursor)), CodeEditorAction::Redraw)
    } else if key == Key::PageDown && m == spec_none() {
        (EditorState { scroll: add_scroll_spec(s.scroll, 1), ..s }, CodeEditorAction::Redraw)
    } else if key == Key::PageUp && m == spec_none() {
        (EditorState { scroll: add_scroll_spec(s.scroll, -1), ..s }, CodeEditorAction::Redraw)
    } else {
        match s.mode {
            EditorMode::Normal => normal_mode_key(s, key, m),
            EditorMode::Insert => insert_mode_key(s, key, m),
        }
    }
}

/// The key presses after which the view is scrolled to the cursor.
pub open spec fn keypress_moves_view(s: EditorState, key: Key, m: KeyModifiers) -> bool {
    if key == Key::Char('s') && m == spec_ctrl() {
        false
    } else if m == spec_none() && (key == Key::ArrowKeyLeft || key == Key::ArrowKeyRight || key
        == Key::ArrowKeyUp || key == Key::ArrowKeyDown) {
        true
    } else if m == spec_none() && (key == Key::PageDown || key == Key::PageUp) {
        false
    } else {
        match s.mode {
            EditorMode::Normal => key == Key::Char('a') && m == spec_none(),
            EditorMode::Insert => is_none_or_shift(m) && (key is Char || key == Key::Enter || (key
                == Key::Backspace && s.cursor >= 1)),
        }
    }
}

/// The key presses the editor handles without stopping: scrolling to the
/// cursor needs a view of at least one row, and moving up in an empty
/// buffer has no character to land on.
pub open spec fn keypress_ok(s: EditorState, key: Key, m: KeyModifiers) -> bool {
    &&& !(keypress_moves_view(s, key, m) && s.num_rows == Some(0usize))
    &&& !(key == Key::ArrowKeyUp && m == spec_none() && s.text.len() == 0)
}

/// What an event does to the editor, and what it asks of the code around it.
pub open spec fn ui_event_spec(s: EditorState, ev: UIEvent) -> (EditorState, CodeEditorAction) {
    match standard_keybind_spec(ev) {
        Some(k) => (s, CodeEditorAction::Keybind(k)),
        None => match ev {
            UIEvent::KeyPress(key, m) => keypress_spec(s, key, m),
            UIEvent::WindowResized(size) => (
                EditorState { num_rows: Some((size.height / FONT_SIZE_U) as usize), ..s },
                CodeEditorAction::Redraw,
            ),
            UIEvent::MousePress(_) => (s, CodeEditorAction::Redraw),
        },
    }
}

pub open spec fn ui_event_ok(s: EditorState, ev: UIEvent) -> bool {
    match standard_keybind_spec(ev) {
        Some(_) => true,
        None => match ev {
            UIEvent::KeyPress(key, m) => keypress_ok(s, key, m),
            _ => true,
        },
    }
}

/// How a character of the buffer is shown: a line feed shows as a space.
pub open spec fn shown_char(c: char) -> char {
    if c == '\n' {
        ' '
    } else {
        c
    }
}

/// The characters of line `line_idx`, its line break included.
pub open spec fn line_text(t: Seq<char>, line_idx: int) -> Seq<char> {
    t.subrange(rope_line_to_char(t, line_idx), rope_line_to_char(t, line_idx + 1))
}

/// The cell that the editor shows at display row `row`, column `col`: the
/// character of the line scrolled there (or a blank), and at the cursor an
/// orange block (gray when unfocused) in Normal mode, the cursor-line style
/// in Insert mode.
pub open spec fn editor_cell(s: EditorState, row: int, col: int) -> InternalCharCell {
    let t = s.text;
    let line_idx = row + s.scroll;
    if line_idx < rope_len_lines(t) {
        let line = line_text(t, line_idx);
        let base = if col < line.len() {
            InternalCharCell { character: shown_char(line[col]) as u32, ..default_cell() }
        } else {
            default_cell()
        };
        if line_idx == rope_char_to_line(t, s.cursor) && col == s.cursor - rope_line_to_char(t, line_idx) {
            match s.mode {
                EditorMode::Normal => InternalCharCell {
                    fg: rgba(0, 0, 0, 0),
                    bg: if s.focused { rgba(0xFF, 0xA5, 0, 0xFF) } else { rgba(0x7F, 0x7F, 0x7F, 0xFF) },
                    ..base
                },
                EditorMode::Insert => InternalCharCell { style: CharCellStyle(4), ..base },
            }
        } else {
            base
        }
    } else {
        default_cell()
    }
}

proof fn lemma_row_index(r: int, row: int, c: int, w: int)
    requires
        0 <= r < row,
        0 <= c < w,
    ensures
        r * w + c < row * w,
        0 <= r * w,
{
    assert(r * w + c < row * w) by (nonlinear_arith)
        requires
            0 <= r < row,
            0 <= c < w,
    ;
    assert(0 <= r * w) by (nonlinear_arith)
        requires
            0 <= r,
            0 <= w,
    ;
}

proof fn lemma_next_row(row: int, w: int)
    requires
        0 <= row,
        0 <= w,
    ensures
        (row + 1) * w == row * w + w,
{
    assert((row + 1) * w == row * w + w) by (nonlinear_arith);
}

/// A modal text editor over a rope of characters, with a cursor and a
/// scrolling view.
pub struct CodeEditorApplet {
    buffer: Rope,
    /// In chars, not bytes.
    cursor: usize,
    focused: bool,
    mode: EditorMode,
    view_offset: ViewOffset,
}

impl CodeEditorApplet {
    pub closed spec fn state(self) -> EditorState {
        EditorState {
            text: rope_text(self.buffer),
            cursor: self.cursor as int,
            mode: self.mode,
            focused: self.focused,
            scroll: self.view_offset.scroll as int,
            num_rows: self.view_offset.most_recent_num_rows,
        }
    }

    pub open spec fn wf(self) -> bool {
        editor_wf(self.state())
    }

    /// An editor over `content`, in Normal mode, focused, with the cursor and
    /// the view at the start.
    pub fn new(content: &str) -> (editor: CodeEditorApplet)
        ensures
            editor.wf(),
            editor.state() == (EditorState {
                text: content@,
                cursor: 0,
                mode: EditorMode::Normal,
                focused: true,
                scroll: 0,
                num_rows: None,
            }),
    {
        CodeEditorApplet {
            buffer: rope_from_str(content),
            cursor: 0,
            focused: true,
            mode: EditorMode::Normal,
            view_offset: ViewOffset { scroll: 0, most_recent_num_rows: None },
        }
    }

    /// The text being edited.
    pub fn buffer(&self) -> (buffer: &Rope)
        ensures
            rope_text(*buffer) == self.state().text,
    {
        &self.buffer
    }

    pub fn cursor(&self) -> (cursor: usize)
        ensures
            cursor == self.state().cursor,
    {
        self.cursor
    }

    pub fn mode(&self) -> (mode: EditorMode)
        ensures
            mode == self.state().mode,
    {
        self.mode
    }

    pub fn scroll(&self) -> (scroll: usize)
        ensures
            scroll == self.state().scroll,
    {
        self.view_offset.scroll
    }

    /// Handles a key press in Normal mode.
    fn handle_keypress_normal(&mut self, key: Key, key_modifiers: KeyModifiers) -> (action: CodeEditorAction)
        requires
            old(self).wf(),
            old(self).state().mode == EditorMode::Normal,
            !(key == Key::Char('a') && key_modifiers == spec_none() && old(self).state().num_rows == Some(0usize)),
        ensures
            (final(self).state(), action) == normal_mode_key(old(self).state(), key, key_modifiers),
            final(self).wf(),
    {
        let none = key_modifiers == KeyModifiers::none();
        if key == Key::Char('i') && none {
            self.mode = EditorMode::Insert;
        } else if key == Key::Char('a') && none {
            self.mode = EditorMode::Insert;
            let len = len_chars(&self.buffer);
            let next = if self.cursor < len { self.cursor + 1 } else { len };
            self.set_cursor(next);
        }
        CodeEditorAction::Redraw
    }

    /// Handles a key press in Insert mode.
    fn handle_keypress_insert(&mut self, key: Key, key_modifiers: KeyModifiers) -> (action: CodeEditorAction)
        requires
            old(self).wf(),
            old(self).state().mode == EditorMode::Insert,
            !(keypress_moves_view(old(self).state(), key, key_modifiers) && old(self).state().num_rows == Some(0usize)),
            !(key == Key::Char('s') && key_modifiers == spec_ctrl()),
            !(key_modifiers == spec_none() && (key == Key::ArrowKeyLeft || key == Key::ArrowKeyRight || key
                == Key::ArrowKeyUp || key == Key::ArrowKeyDown || key == Key::PageDown || key == Key::PageUp)),
        ensures
            (final(self).state(), action) == insert_mode_key(old(self).state(), key, key_modifiers),
            final(self).wf(),
    {
        let none_or_shift = key_modifiers == KeyModifiers::none() || key_modifiers == KeyModifiers::shift();
        match key {
            Key::Char(c) => {
                if none_or_shift {
                    insert_char(&mut self.buffer, self.cursor, c);
                    let new_len = len_chars(&self.buffer);
                    assert(self.cursor < new_len);
                    self.cursor = self.cursor + 1;
                    self.clamp_view_to_cursor();
                    return CodeEditorAction::Redraw;
                }
                if (c == 'v' && key_modifiers == KeyModifiers::ctrl()) || (c == 'V' && key_modifiers
                    == KeyModifiers::ctrl_shift()) {
                    return CodeEditorAction::Paste;
                }
                CodeEditorAction::Redraw
            },
            Key::Enter => {
                if none_or_shift {
                    insert_char(&mut self.buffer, self.cursor, '\n');
                    let new_len = len_chars(&self.buffer);
                    assert(self.cursor < new_len);
                    self.cursor = self.cursor + 1;
                    self.clamp_view_to_cursor();
                }
                CodeEditorAction::Redraw
            },
            Key::Backspace => {
                if none_or_shift && self.cursor >= 1 {
                    let prev_idx = self.cursor - 1;
                    remove_range(&mut self.buffer, prev_idx, self.cursor);
                    self.cursor = prev_idx;
                    self.clamp_view_to_cursor();
                    proof {
                        let t = rope_text(old(self).buffer);
                        assert(t.take(prev_idx as int) + t.skip(prev_idx + 1) =~= t.remove(prev_idx as int));
                    }
                }
                CodeEditorAction::Redraw
            },
            Key::Escape => {
                self.mode = EditorMode::Normal;
                CodeEditorAction::Redraw
            },
            _ => CodeEditorAction::Redraw,
        }
    }

    /// Handles a key press: `Ctrl+s` asks for a save, the arrow keys move the
    /// cursor, Page Up and Page Down scroll, and the other keys go by the mode.
    pub fn handle_keypress(&mut self, key: Key, key_modifiers: KeyModifiers) -> (action: CodeEditorAction)
        requires
            old(self).wf(),
            keypress_ok(old(self).state(), key, key_modifiers),
        ensures
            (final(self).state(), action) == keypress_spec(old(self).state(), key, key_modifiers),
            final(self).wf(),
    {
        let none = key_modifiers == KeyModifiers::none();
        if key == Key::Char('s') && key_modifiers == KeyModifiers::ctrl() {
            CodeEditorAction::Save
        } else if key == Key::ArrowKeyLeft && none {
            let prev = if self.cursor >= 1 { self.cursor - 1 } else { 0 };
            self.set_cursor(prev);
            CodeEditorAction::Redraw
        } else if key == Key::ArrowKeyRight && none {
            let len = len_chars(&self.buffer);
            let next = if self.cursor < len { self.cursor + 1 } else { len };
            self.set_cursor(next);
            CodeEditorAction::Redraw
        } else if key == Key::ArrowKeyUp && none {
            let up = self.cursor_line_up();
            self.set_cursor(up);
            CodeEditorAction::Redraw
        } else if key == Key::ArrowKeyDown && none {
            let down = self.cursor_line_down();
            self.set_cursor(down);
            CodeEditorAction::Redraw
        } else if key == Key::PageDown && none {
            self.view_offset.add_scroll(1);
            CodeEditorAction::Redraw
        } else if key == Key::PageUp && none {
            self.view_offset.add_scroll(-1);
            CodeEditorAction::Redraw
        } else {
            match self.mode {
                EditorMode::Normal => self.handle_keypress_normal(key, key_modifiers),
                EditorMode::Insert => self.handle_keypress_insert(key, key_modifiers),
            }
        }
    }

    /// How many rows of text the window showed when last resized, if known.
    pub fn num_rows(&self) -> (rows: Option<usize>)
        ensures
            rows == self.state().num_rows,
    {
        self.view_offset.most_recent_num_rows
    }

    /// Whether a key press moves the cursor or edits the text, so that the
    /// view follows the cursor.
    fn moves_view(&self, key: Key, m: KeyModifiers) -> (b: bool)
        ensures
            b == keypress_moves_view(self.state(), key, m),
    {
        if key == Key::Char('s') && m == KeyModifiers::ctrl() {
            false
        } else if m == KeyModifiers::none() && (key == Key::ArrowKeyLeft || key == Key::ArrowKeyRight || key
            == Key::ArrowKeyUp || key == Key::ArrowKeyDown) {
            true
        } else if m == KeyModifiers::none() && (key == Key::PageDown || key == Key::PageUp) {
            false
        } else {
            match self.mode {
                EditorMode::Normal => key == Key::Char('a') && m == KeyModifiers::none(),
                EditorMode::Insert => (m == KeyModifiers::none() || m == KeyModifiers::shift()) && (match key {
                    Key::Char(_) => true,
                    Key::Enter => true,
                    Key::Backspace => self.cursor >= 1,
                    _ => false,
                }),
            }
        }
    }

    /// Whether the editor can handle an event (`handle_ui_event` may be
    /// called with it).
    pub fn accepts_event(&self, ui_event: &UIEvent) -> (ok: bool)
        requires
            self.wf(),
        ensures
            ok == ui_event_ok(self.state(), *ui_event),
    {
        if handle_standard_keybinds(ui_event).is_some() {
            return true;
        }
        match *ui_event {
            UIEvent::KeyPress(key, m) => {
                let moves = self.moves_view(key, m);
                let empty = len_chars(&self.buffer) == 0;
                !(moves && self.view_offset.most_recent_num_rows == Some(0usize)) && !(key == Key::ArrowKeyUp && m
                    == KeyModifiers::none() && empty)
            },
            _ => true,
        }
    }

    /// Inserts `text` at the cursor and moves the cursor past it (by the
    /// number of characters pasted), then scrolls to it.
    pub fn paste(&mut self, text: &str)
        requires
            old(self).wf(),
            old(self).state().num_rows != Some(0usize),
        ensures
            final(self).state() == edit_text(
                old(self).state(),
                old(self).state().text.take(old(self).state().cursor) + text@ + old(self).state().text.skip(
                    old(self).state().cursor,
                ),
                old(self).state().cursor + text@.len(),
            ),
            final(self).wf(),
    {
        let old_len = len_chars(&self.buffer);
        insert_str(&mut self.buffer, self.cursor, text);
        let new_len = len_chars(&self.buffer);
        assert(new_len == old_len + text@.len());
        self.cursor = self.cursor + (new_len - old_len);
        self.clamp_view_to_cursor();
    }

    /// Handles an input event. Standard keybinds are reported and nothing
    /// else happens; key presses go to `handle_keypress`; a resize records
    /// how many rows of text fit.
    pub fn handle_ui_event(&mut self, ui_event: UIEvent) -> (action: CodeEditorAction)
        requires
            old(self).wf(),
            ui_event_ok(old(self).state(), ui_event),
        ensures
            (final(self).state(), action) == ui_event_spec(old(self).state(), ui_event),
            final(self).wf(),
    {
        if let Some(keybind) = handle_standard_keybinds(&ui_event) {
            return CodeEditorAction::Keybind(keybind);
        }
        match ui_event {
            UIEvent::KeyPress(key, key_modifiers) => self.handle_keypress(key, key_modifiers),
            UIEvent::WindowResized(display_container_size) => {
                let (_width, height) = CharGrid::largest_fittable_size(display_container_size);
                self.view_offset.most_recent_num_rows = Some(height);
                CodeEditorAction::Redraw
            },
            UIEvent::MousePress(_) => CodeEditorAction::Redraw,
        }
    }

    /// Records whether the editor has the focus.
    pub fn handle_nodular_event(&mut self, nodular_event: NodularEvent)
        requires
            old(self).wf(),
            nodular_event is Focused,
        ensures
            final(self).state() == (EditorState { focused: nodular_event->Focused_0, ..old(self).state() }),
            final(self).wf(),
    {
        match nodular_event {
            NodularEvent::Focused(focus) => {
                self.focused = focus;
            },
            NodularEvent::Highlighted(_) => {},
        }
    }

    /// Draws the editor into the largest character grid that fits into the
    /// container: one text line per row from the scroll position on, and
    /// the cursor.
    pub fn get_window(&self, container_size: DisplayContainerSize) -> (grid: CharGrid)
        requires
            self.wf(),
            (container_size.width / FONT_WIDTH_U) * (container_size.height / FONT_SIZE_U) <= usize::MAX,
        ensures
            grid.wf(),
            grid.spec_width() == container_size.width / FONT_WIDTH_U,
            grid.spec_height() == container_size.height / FONT_SIZE_U,
            forall|row: int, col: int|
                0 <= row < grid.spec_height() && 0 <= col < grid.spec_width() ==> #[trigger] grid.cell(row, col)
                    == editor_cell(self.state(), row, col),
    {
        let (width, height) = CharGrid::largest_fittable_size(container_size);
        let cursor_line = char_to_line(&self.buffer, self.cursor);
        let num_lines = len_lines(&self.buffer);
        let ghost s = self.state();
        let mut content: Vec<InternalCharCell> = Vec::new();
        proof {
            assert(0 * width == 0) by (nonlinear_arith);
        }
        for row in 0..height
            invariant
                width * height <= usize::MAX,
                s == self.state(),
                self.wf(),
                cursor_line == rope_char_to_line(s.text, s.cursor),
                rope_line_to_char(s.text, cursor_line as int) <= s.cursor,
                num_lines == rope_len_lines(s.text),
                content@.len() == row * width,
                forall|r: int, c: int|
                    0 <= r < row && 0 <= c < width ==> content@[r * width + c] == editor_cell(s, r, c),
        {
            let mut cells: Vec<InternalCharCell> = Vec::new();
            for col in 0..width
                invariant
                    cells@ == Seq::new(col as nat, |k: int| default_cell()),
            {
                cells.push(InternalCharCell::new_default());
                proof {
                    assert(cells@ =~= Seq::new((col + 1) as nat, |k: int| default_cell()));
                }
            }
            let ghost line_idx_spec = row + s.scroll;
            match self.view_offset.scroll.checked_add(row) {
                Some(line_idx) => match get_line_chars(&self.buffer, line_idx) {
                    Some(line) => {
                        let m = if line.len() < width { line.len() } else { width };
                        for col in 0..m
                            invariant
                                m <= width,
                                m <= line@.len(),
                                cells@.len() == width,
                                forall|k: int|
                                    0 <= k < width ==> #[trigger] cells@[k] == if k < col {
                                        InternalCharCell { character: shown_char(line@[k]) as u32, ..default_cell() }
                                    } else {
                                        default_cell()
                                    },
                        {
                            let c = line[col];
                            let shown = if c == '\n' { ' ' } else { c };
                            cells.set(col, InternalCharCell { character: shown as u32, ..InternalCharCell::new_default() });
                        }
                        if line_idx == cursor_line {
                            let start = line_to_char(&self.buffer, line_idx);
                            let cursor_col = self.cursor - start;
                            if cursor_col < width {
                                let base = cells[cursor_col];
                                match self.mode {
                                    EditorMode::Normal => {
                                        let bg = if self.focused {
                                            Color::orange()
                                        } else {
                                            Color::medium_gray()
                                        };
                                        cells.set(cursor_col, InternalCharCell { fg: Color::transparent(), bg, ..base });
                                    },
                                    EditorMode::Insert => {
                                        let mut cell = base;
                                        cell.add_style(CharCellStyle::cursor_line());
                                        proof {
                                            assert(0u32 | 4u32 == 4u32) by (bit_vector);
                                        }
                                        cells.set(cursor_col, cell);
                                    },
                                }
                            }
                        }
                        proof {
                            assert forall|k: int| 0 <= k < width implies #[trigger] cells@[k] == editor_cell(s, row as int, k) by {
                                assert(line@ == line_text(s.text, line_idx as int));
                            }
                        }
                    },
                    None => {},
                },
                None => {},
            }
            proof {
                assert forall|k: int| 0 <= k < width implies #[trigger] cells@[k] == editor_cell(s, row as int, k) by {
                }
            }
            let ghost before = content@;
            content.append(&mut cells);
            proof {
                lemma_next_row(row as int, width as int);
                assert forall|r: int, c: int|
                    0 <= r < row + 1 && 0 <= c < width implies content@[r * width + c] == editor_cell(s, r, c) by {
                    if r < row {
                        lemma_row_index(r, row as int, c, width as int);
                        assert(content@[r * width + c] == before[r * width + c]);
                    } else {
                        assert(r * width + c == before.len() + c);
                    }
                }
            }
        }
        proof {
            assert(height * width == width * height) by (nonlinear_arith);
        }
        let grid = CharGrid::new(width, height, content);
        proof {
            assert forall|row: int, col: int|
                0 <= row < grid.spec_height() && 0 <= col < grid.spec_width() implies #[trigger] grid.cell(row, col)
                    == editor_cell(s, row, col) by {
            }
        }
        grid
    }

    /// Scrolls the view so that the cursor's line is shown.
    fn clamp_view_to_cursor(&mut self)
        requires
            old(self).wf(),
            old(self).state().num_rows != Some(0usize),
        ensures
            final(self).state() == move_cursor(old(self).state(), old(self).state().cursor),
    {
        let line = char_to_line(&self.buffer, self.cursor);
        self.view_offset.clamp_to_cursor(line);
    }

    /// Moves the cursor to `cursor` and scrolls the view to it.
    fn set_cursor(&mut self, cursor: usize)
        requires
            old(self).wf(),
            cursor <= old(self).state().text.len(),
            old(self).state().num_rows != Some(0usize),
        ensures
            final(self).state() == move_cursor(old(self).state(), cursor as int),
            final(self).wf(),
    {
        self.cursor = cursor;
        self.clamp_view_to_cursor();
    }

    /// The cursor one line up, as `cursor_up` says.
    fn cursor_line_up(&self) -> (cursor: usize)
        requires
            self.wf(),
            self.state().text.len() > 0,
        ensures
            cursor == cursor_up(self.state().text, self.state().cursor),
            cursor <= self.state().text.len(),
    {
        let line = char_to_line(&self.buffer, self.cursor);
        let line_start = line_to_char(&self.buffer, line);
        let column = self.cursor - line_start;
        let new_line = if line >= 1 { line - 1 } else { 0 };
        let new_start = line_to_char(&self.buffer, new_line);
        let next_start = line_to_char(&self.buffer, new_line + 1);
        let cap = next_start - 1;
        if column <= cap - new_start {
            new_start + column
        } else {
            cap
        }
    }

    /// The cursor one line down, as `cursor_down` says.
    fn cursor_line_down(&self) -> (cursor: usize)
        requires
            self.wf(),
        ensures
            cursor == cursor_down(self.state().text, self.state().cursor),
            cursor <= self.state().text.len(),
    {
        let n = len_lines(&self.buffer);
        let line = char_to_line(&self.buffer, self.cursor);
        let line_start = line_to_char(&self.buffer, line);
        let column = self.cursor - line_start;
        let new_line = if line + 1 < n { line + 1 } else { n - 1 };
        let new_start = line_to_char(&self.buffer, new_line);
        let cap = line_to_char(&self.buffer, new_line + 1);
        if column <= cap - new_start {
            new_start + column
        } else {
            cap
        }
    }
}

} // verus!

verus! {

/// Scrolling to the cursor leaves the cursor's line on screen: at or below
/// the top row and, when the view has `n` rows, above row `n`.
pub proof fn lemma_clamp_shows_cursor(scroll: int, num_rows: Option<usize>, cursor_line: int)
    requires
        0 <= cursor_line,
        num_rows != Some(0usize),
    ensures
        0 <= clamp_scroll(scroll, num_rows, cursor_line) <= cursor_line,
        num_rows matches Some(n) ==> cursor_line < clamp_scroll(scroll, num_rows, cursor_line) + n,
{
}

/// In Insert mode, typing a character and then pressing Backspace gives back
/// the text and the cursor, and stays in Insert mode.
pub proof fn lemma_type_then_backspace(s: EditorState, c: char)
    requires
        editor_wf(s),
        s.mode == EditorMode::Insert,
    ensures
        ({
            let typed = keypress_spec(s, Key::Char(c), spec_none()).0;
            let back = keypress_spec(typed, Key::Backspace, spec_none()).0;
            back.text == s.text && back.cursor == s.cursor && back.mode == EditorMode::Insert
        }),
{
    let typed = keypress_spec(s, Key::Char(c), spec_none()).0;
    assert(typed.text == s.text.insert(s.cursor, c));
    assert(typed.cursor == s.cursor + 1);
    assert(typed.text.remove(s.cursor) =~= s.text);
}

/// Moving right and then left returns the cursor to where it was, unless it
/// was already past the last character.
pub proof fn lemma_right_then_left(s: EditorState)
    requires
        editor_wf(s),
        s.cursor < s.text.len(),
    ensures
        keypress_spec(keypress_spec(s, Key::ArrowKeyRight, spec_none()).0, Key::ArrowKeyLeft, spec_none()).0.cursor
            == s.cursor,
{
}

/// The window follows the view: display row `row` shows text line
/// `row + scroll` (the line `disp_row_to_line_idx` gives), character by
/// character (a line break shows as a space), blank past the line's end;
/// rows past the last line are blank. Only the cursor cell's colors or
/// style may differ from a plain cell.
pub proof fn lemma_window_shows_scrolled_lines(s: EditorState, row: int, col: int)
    requires
        0 <= row,
        0 <= col,
    ensures
        ({
            let line_idx = row + s.scroll;
            let cell = editor_cell(s, row, col);
            &&& line_idx < rope_len_lines(s.text) && col < line_text(s.text, line_idx).len() ==> cell.character
                == shown_char(line_text(s.text, line_idx)[col]) as u32
            &&& line_idx < rope_len_lines(s.text) && col >= line_text(s.text, line_idx).len() ==> cell.character
                == ' ' as u32
            &&& line_idx >= rope_len_lines(s.text) ==> cell == default_cell()
            &&& !(line_idx == rope_char_to_line(s.text, s.cursor) && col == s.cursor - rope_line_to_char(
                s.text,
                line_idx,
            )) ==> cell.fg == default_cell().fg && cell.bg == default_cell().bg && cell.style == default_cell().style
        }),
{
}

} // verus!
