use vstd::prelude::*;
use crate::color::{Color, rgba};
use crate::text::{chars_of, join_lines, split_lines, strip_line_endings, lemma_join_split, lemma_split_lines_nonempty};
use crate::ui_event::{Key, KeyModifiers, KeyTrait, UIEvent, spec_none, spec_shift, spec_to_char};

verus! {

/// One character on screen with its foreground and background colors.
#[derive(Debug, Clone, Copy, PartialEq, Eq)]
pub struct CharCell {
    pub character: char,
    pub fg: Color,
    pub bg: Color,
}

/// A cell holding `c` in white on a transparent background.
pub open spec fn plain_cell(c: char) -> CharCell {
    CharCell { character: c, fg: rgba(0xFF, 0xFF, 0xFF, 0xFF), bg: rgba(0, 0, 0, 0) }
}

/// A line of plain cells holding the given characters.
pub open spec fn plain_line(s: Seq<char>) -> Seq<CharCell> {
    s.map_values(|c: char| plain_cell(c))
}

/// The characters of a line of cells.
pub open spec fn line_chars(line: Seq<CharCell>) -> Seq<char> {
    line.map_values(|cell: CharCell| cell.character)
}

/// The characters of every line.
pub open spec fn text_chars(lines: Seq<Seq<CharCell>>) -> Seq<Seq<char>> {
    lines.map_values(|line: Seq<CharCell>| line_chars(line))
}

impl CharCell {
    /// A cell holding `character` in white on a transparent background.
    pub fn new(character: char) -> (cell: CharCell)
        ensures
            cell == plain_cell(character),
    {
        CharCell { character, fg: Color::white(), bg: Color::transparent() }
    }
}

/// The abstract state of a text box: its lines and the cursor
/// (`col` is the position within line `row`).
pub struct TextState {
    pub lines: Seq<Seq<CharCell>>,
    pub col: int,
    pub row: int,
}

/// There is at least one line and the cursor stands within the text:
/// on an existing line, at most one past its last character.
pub open spec fn state_wf(s: TextState) -> bool {
    &&& s.lines.len() >= 1
    &&& 0 <= s.row < s.lines.len()
    &&& 0 <= s.col <= s.lines[s.row].len()
}

/// Inserting a cell at the cursor and moving the cursor past it.
pub open spec fn write_character_spec(s: TextState, cell: CharCell) -> TextState {
    TextState {
        lines: s.lines.update(s.row, s.lines[s.row].insert(s.col, cell)),
        col: s.col + 1,
        row: s.row,
    }
}

/// Deleting the character before the cursor; at the start of a line the line
/// is joined to the one above, and at the start of the text nothing happens.
pub open spec fn delete_character_spec(s: TextState) -> TextState {
    if s.col == 0 {
        if s.row == 0 {
            s
        } else {
            TextState {
                lines: s.lines.update(s.row - 1, s.lines[s.row - 1] + s.lines[s.row]).remove(s.row),
                col: s.lines[s.row - 1].len() as int,
                row: s.row - 1,
            }
        }
    } else {
        TextState {
            lines: s.lines.update(s.row, s.lines[s.row].remove(s.col - 1)),
            col: s.col - 1,
            row: s.row,
        }
    }
}

/// Breaking the cursor's line at the cursor; the cursor moves to the start
/// of the new line.
pub open spec fn write_new_line_spec(s: TextState) -> TextState {
    TextState {
        lines: s.lines.update(s.row, s.lines[s.row].take(s.col)).insert(
            s.row + 1,
            s.lines[s.row].skip(s.col),
        ),
        col: 0,
        row: s.row + 1,
    }
}

/// Bringing the cursor back into the text: first the row, then the column
/// within that row.
pub open spec fn clamp_spec(s: TextState) -> TextState {
    let row = if s.row < s.lines.len() - 1 { s.row } else { s.lines.len() - 1 };
    let col = if s.col < s.lines[row].len() { s.col } else { s.lines[row].len() as int };
    TextState { lines: s.lines, col, row }
}

/// The characters that typing inserts: printable ASCII and the space.
pub open spec fn is_typed_char(c: char) -> bool {
    ('!' <= c && c <= '~') || c == ' '
}

pub open spec fn with_cursor(s: TextState, col: int, row: int) -> TextState {
    TextState { lines: s.lines, col, row }
}

/// What a key press does before the cursor is brought back into the text.
pub open spec fn key_step(s: TextState, key: Key, m: KeyModifiers) -> TextState {
    if m == spec_none() && key == Key::ArrowKeyDown {
        with_cursor(s, s.col, s.row + 1)
    } else if m == spec_none() && key == Key::ArrowKeyUp {
        with_cursor(s, s.col, if s.row > 0 { s.row - 1 } else { 0 })
    } else if m == spec_none() && key == Key::ArrowKeyRight {
        with_cursor(s, s.col + 1, s.row)
    } else if m == spec_none() && key == Key::ArrowKeyLeft {
        with_cursor(s, if s.col > 0 { s.col - 1 } else { s.col }, s.row)
    } else if m == spec_none() && key == Key::Backspace {
        delete_character_spec(s)
    } else if m == spec_none() && key == Key::Enter {
        write_new_line_spec(s)
    } else if (m == spec_none() || m == spec_shift()) && spec_to_char(key) is Some && is_typed_char(
        spec_to_char(key)->0,
    ) {
        write_character_spec(s, plain_cell(spec_to_char(key)->0))
    } else {
        s
    }
}

/// What handling an event does to a text box.
pub open spec fn handle_event_spec(s: TextState, ev: UIEvent) -> TextState {
    match ev {
        UIEvent::KeyPress(key, m) => clamp_spec(key_step(s, key, m)),
        _ => clamp_spec(s),
    }
}

/// The text of a text box state, lines joined by line feeds.
pub open spec fn join_lines_of(s: TextState) -> Seq<char> {
    join_lines(text_chars(s.lines))
}

/// The lines as a text box shows them: a space is appended to the cursor's
/// line and the cell under the cursor takes the cursor colors.
pub open spec fn rendered_lines(s: TextState, cursor_fg: Color, cursor_bg: Color) -> Seq<Seq<CharCell>> {
    let extended = s.lines[s.row].push(plain_cell(' '));
    s.lines.update(
        s.row,
        extended.update(s.col, CharCell { character: extended[s.col].character, fg: cursor_fg, bg: cursor_bg }),
    )
}

/// Plain text being edited: lines of cells and a cursor.
pub struct TextBox {
    text: Vec<Vec<CharCell>>,
    /// (column, row)
    cursor_logical_position: (usize, usize),
}

impl TextBox {
    /// The lines and the cursor.
    pub closed spec fn state(self) -> TextState {
        TextState {
            lines: self.text@.map_values(|line: Vec<CharCell>| line@),
            col: self.cursor_logical_position.0 as int,
            row: self.cursor_logical_position.1 as int,
        }
    }

    pub open spec fn wf(self) -> bool {
        state_wf(self.state())
    }

    proof fn lemma_state_line(self, i: int)
        requires
            0 <= i < self.text@.len(),
        ensures
            self.state().lines[i] == self.text@[i]@,
            self.state().lines.len() == self.text@.len(),
    {
    }

    /// A text box holding `text`, split into lines at every line feed,
    /// with the cursor at the start.
    pub fn new(text: String) -> (tb: TextBox)
        ensures
            tb.wf(),
            tb.state().lines == split_lines(text@).map_values(|l: Seq<char>| plain_line(l)),
            tb.state().col == 0,
            tb.state().row == 0,
    {
        let chars = chars_of(text.as_str());
        let mut lines: Vec<Vec<CharCell>> = Vec::new();
        let mut current: Vec<CharCell> = Vec::new();
        let ghost target = |k: int| split_lines(chars@.take(k)).map_values(|l: Seq<char>| plain_line(l));
        proof {
            assert(chars@.take(0) =~= Seq::<char>::empty());
            assert(plain_line(Seq::<char>::empty()) =~= Seq::<CharCell>::empty());
            assert(lines@.map_values(|line: Vec<CharCell>| line@).push(current@) =~= target(0));
        }
        for i in 0..chars.len()
            invariant
                lines@.map_values(|line: Vec<CharCell>| line@).push(current@) == target(i as int),
                chars@ == text@,
                target == (|k: int| split_lines(chars@.take(k)).map_values(|l: Seq<char>| plain_line(l))),
        {
            let c = chars[i];
            let ghost prev = lines@.map_values(|line: Vec<CharCell>| line@).push(current@);
            proof {
                assert(chars@.take(i + 1).drop_last() =~= chars@.take(i as int));
                assert(chars@.take(i + 1).last() == c);
                lemma_split_lines_nonempty(chars@.take(i as int));
            }
            if c == '\n' {
                let done = current;
                lines.push(done);
                current = Vec::new();
                proof {
                    assert(lines@.map_values(|line: Vec<CharCell>| line@).push(current@) =~= prev.push(
                        Seq::<CharCell>::empty(),
                    ));
                    assert(plain_line(Seq::<char>::empty()) =~= Seq::<CharCell>::empty());
                    assert(target(i + 1) =~= prev.push(Seq::<CharCell>::empty()));
                }
            } else {
                current.push(CharCell::new(c));
                proof {
                    let sp = split_lines(chars@.take(i as int));
                    assert(plain_line(sp.last().push(c)) =~= plain_line(sp.last()).push(plain_cell(c)));
                    assert(lines@.map_values(|line: Vec<CharCell>| line@).push(current@) =~= prev.update(
                        prev.len() - 1,
                        prev.last().push(plain_cell(c)),
                    ));
                    assert(target(i + 1) =~= prev.update(prev.len() - 1, prev.last().push(plain_cell(c))));
                }
            }
        }
        lines.push(current);
        let tb = TextBox { text: lines, cursor_logical_position: (0, 0) };
        proof {
            assert(chars@.take(chars@.len() as int) =~= chars@);
            assert(tb.state().lines =~= target(chars@.len() as int));
            lemma_split_lines_nonempty(text@);
        }
        tb
    }

    /// Inserts `character` at the cursor and moves the cursor past it.
    /// The character is not a line feed.
    pub fn write_character(&mut self, character: CharCell)
        requires
            old(self).wf(),
        ensures
            final(self).state() == write_character_spec(old(self).state(), character),
            final(self).wf(),
    {
        let col = self.cursor_logical_position.0;
        let row = self.cursor_logical_position.1;
        proof {
            self.lemma_state_line(row as int);
        }
        self.text[row].insert(col, character);
        let new_len = self.text[row].len();
        self.cursor_logical_position.0 = col + 1;
        proof {
            let s0 = old(self).state();
            let s1 = self.state();
            let expect = write_character_spec(s0, character);
            assert(s1.lines =~= expect.lines) by {
                assert forall|i: int| 0 <= i < s1.lines.len() implies s1.lines[i] == expect.lines[i] by {
                    if i == row {
                        assert(s1.lines[i] =~= expect.lines[i]);
                    } else {
                        assert(self.text@[i] == old(self).text@[i]);
                    }
                }
            }
        }
    }

    /// Deletes the character before the cursor. At the start of a line the
    /// line is joined to the end of the line above; at the start of the text
    /// nothing happens.
    pub fn delete_character(&mut self)
        requires
            old(self).wf(),
        ensures
            final(self).state() == delete_character_spec(old(self).state()),
            final(self).wf(),
    {
        let col = self.cursor_logical_position.0;
        let row = self.cursor_logical_position.1;
        proof {
            self.lemma_state_line(row as int);
        }
        if col == 0 {
            if row == 0 {
                return;
            }
            proof {
                self.lemma_state_line(row - 1);
            }
            let new_cursor_x = self.text[row - 1].len();
            let mut string_to_add = self.text.remove(row);
            self.text[row - 1].append(&mut string_to_add);
            self.cursor_logical_position.1 = row - 1;
            self.cursor_logical_position.0 = new_cursor_x;
            proof {
                let s0 = old(self).state();
                let s1 = self.state();
                let expect = delete_character_spec(s0);
                assert(s1.lines.len() == expect.lines.len());
                assert(s1.lines =~= expect.lines) by {
                    assert forall|i: int| 0 <= i < s1.lines.len() implies s1.lines[i] == expect.lines[i] by {
                        if i == row - 1 {
                            assert(s1.lines[i] =~= expect.lines[i]);
                        } else if i < row - 1 {
                            assert(self.text@[i] == old(self).text@[i]);
                        } else {
                            assert(self.text@[i] == old(self).text@[i + 1]);
                        }
                    }
                }
            }
            return;
        }
        self.text[row].remove(col - 1);
        self.cursor_logical_position.0 = col - 1;
        proof {
            let s0 = old(self).state();
            let s1 = self.state();
            let expect = delete_character_spec(s0);
            assert(s1.lines =~= expect.lines) by {
                assert forall|i: int| 0 <= i < s1.lines.len() implies s1.lines[i] == expect.lines[i] by {
                    if i == row {
                        assert(s1.lines[i] =~= expect.lines[i]);
                    } else {
                        assert(self.text@[i] == old(self).text@[i]);
                    }
                }
            }
        }
    }

    /// Breaks the cursor's line at the cursor and moves the cursor to the
    /// start of the new line.
    pub fn write_new_line(&mut self)
        requires
            old(self).wf(),
        ensures
            final(self).state() == write_new_line_spec(old(self).state()),
            final(self).wf(),
    {
        let col = self.cursor_logical_position.0;
        let row = self.cursor_logical_position.1;
        proof {
            self.lemma_state_line(row as int);
        }
        let num_lines = self.text.len();
        assert(row < num_lines);
        let remaining_text = self.text[row].split_off(col);
        self.text.insert(row + 1, remaining_text);
        self.cursor_logical_position.0 = 0;
        self.cursor_logical_position.1 = row + 1;
        proof {
            let s0 = old(self).state();
            let s1 = self.state();
            let expect = write_new_line_spec(s0);
            assert(s1.lines.len() == expect.lines.len());
            assert(s1.lines =~= expect.lines) by {
                assert forall|i: int| 0 <= i < s1.lines.len() implies s1.lines[i] == expect.lines[i] by {
                    if i == row {
                        assert(s1.lines[i] =~= expect.lines[i]);
                    } else if i == row + 1 {
                        assert(s1.lines[i] =~= expect.lines[i]);
                    } else if i < row {
                        assert(self.text@[i] == old(self).text@[i]);
                    } else {
                        assert(self.text@[i] == old(self).text@[i - 1]);
                    }
                }
            }
        }
    }

    /// Brings the cursor back into the text, the row first and then the
    /// column within that row.
    fn clamp_everything(&mut self)
        requires
            old(self).state().lines.len() >= 1,
            old(self).state().row >= 0,
            old(self).state().col >= 0,
        ensures
            final(self).state() == clamp_spec(old(self).state()),
            final(self).wf(),
    {
        let n = self.text.len();
        if self.cursor_logical_position.1 > n - 1 {
            self.cursor_logical_position.1 = n - 1;
        }
        let row = self.cursor_logical_position.1;
        proof {
            self.lemma_state_line(row as int);
        }
        let len = self.text[row].len();
        if self.cursor_logical_position.0 > len {
            self.cursor_logical_position.0 = len;
        }
        proof {
            assert(self.state().lines =~= old(self).state().lines);
        }
    }

    /// Handles an input event: arrow keys move the cursor, Backspace deletes,
    /// Enter breaks the line, and typing a printable ASCII character or a
    /// space (with no modifier or Shift alone) inserts it. The cursor is then
    /// brought back into the text.
    pub fn handle_event(&mut self, ui_event: UIEvent)
        requires
            old(self).wf(),
        ensures
            final(self).state() == handle_event_spec(old(self).state(), ui_event),
            final(self).wf(),
    {
        let ghost s0 = self.state();
        match ui_event {
            UIEvent::KeyPress(key, mods) => {
                let none = mods == KeyModifiers::none();
                let shift = mods == KeyModifiers::shift();
                let col = self.cursor_logical_position.0;
                let row = self.cursor_logical_position.1;
                let num_lines = self.text.len();
                proof {
                    self.lemma_state_line(row as int);
                }
                if none && key == Key::ArrowKeyDown {
                    self.cursor_logical_position.1 = row + 1;
                    assert(self.state() == key_step(s0, key, mods)) by {
                        assert(self.state().lines =~= s0.lines);
                    }
                } else if none && key == Key::ArrowKeyUp {
                    self.cursor_logical_position.1 = if row > 0 { row - 1 } else { 0 };
                    assert(self.state() == key_step(s0, key, mods)) by {
                        assert(self.state().lines =~= s0.lines);
                    }
                } else if none && key == Key::ArrowKeyRight {
                    // one past the line's end is clamped back onto it below
                    let len = self.text[row].len();
                    if col < len {
                        self.cursor_logical_position.0 = col + 1;
                    }
                    assert(clamp_spec(self.state()) == clamp_spec(key_step(s0, key, mods))) by {
                        assert(self.state().lines =~= s0.lines);
                    }
                } else if none && key == Key::ArrowKeyLeft {
                    if col > 0 {
                        self.cursor_logical_position.0 = col - 1;
                    }
                    assert(self.state() == key_step(s0, key, mods)) by {
                        assert(self.state().lines =~= s0.lines);
                    }
                } else if none && key == Key::Backspace {
                    self.delete_character();
                } else if none && key == Key::Enter {
                    self.write_new_line();
                } else if none || shift {
                    match key.to_char() {
                        Some(c) => {
                            if ('!' <= c && c <= '~') || c == ' ' {
                                self.write_character(CharCell::new(c));
                            }
                        },
                        None => {},
                    }
                }
            },
            _ => {},
        }
        self.clamp_everything();
    }

    /// The text, with the lines joined by line feeds.
    pub fn get_text_as_string(&self) -> (text: String)
        requires
            self.wf(),
        ensures
            text@ == join_lines(text_chars(self.state().lines)),
    {
        let ghost all = text_chars(self.state().lines);
        let mut out = String::new();
        let n = self.text.len();
        for i in 0..n
            invariant
                n == self.text@.len(),
                self.wf(),
                all == text_chars(self.state().lines),
                i == 0 ==> out@ == Seq::<char>::empty(),
                i > 0 ==> out@ == join_lines(all.take(i as int)),
        {
            proof {
                self.lemma_state_line(i as int);
            }
            let ghost before = out@;
            if i > 0 {
                out.push('\n');
            }
            let line = &self.text[i];
            let m = line.len();
            for j in 0..m
                invariant
                    m == line@.len(),
                    out@ == (if i > 0 { before.push('\n') } else { before }) + line_chars(line@).take(j as int),
            {
                out.push(line[j].character);
                proof {
                    assert(line_chars(line@).take(j + 1) =~= line_chars(line@).take(j as int).push(line[j as int].character));
                }
            }
            proof {
                assert(line_chars(line@).take(m as int) =~= line_chars(line@));
                assert(all[i as int] == line_chars(line@));
                let taken = all.take(i + 1);
                if i == 0 {
                    assert(join_lines(taken) == taken[0]);
                    assert(out@ =~= join_lines(taken));
                } else {
                    assert(taken.drop_last() =~= all.take(i as int));
                    assert(join_lines(taken) == join_lines(all.take(i as int)) + seq!['\n'] + taken.last());
                    assert(out@ =~= join_lines(taken));
                }
            }
        }
        proof {
            assert(all.take(n as int) =~= all);
        }
        out
    }

    /// A copy of the lines with a space appended to the cursor's line, so the
    /// cursor can be shown past the line's end, and the cell under the cursor
    /// drawn in the given colors.
    pub fn render_grid_with_color(&self, colors: (Color, Color)) -> (grid: Vec<Vec<CharCell>>)
        requires
            self.wf(),
        ensures
            grid@.map_values(|line: Vec<CharCell>| line@) == rendered_lines(self.state(), colors.0, colors.1),
    {
        let (cursor_fg, cursor_bg) = colors;
        let col = self.cursor_logical_position.0;
        let row = self.cursor_logical_position.1;
        let mut grid: Vec<Vec<CharCell>> = Vec::new();
        let n = self.text.len();
        for i in 0..n
            invariant
                n == self.text@.len(),
                self.wf(),
                col == self.state().col,
                row == self.state().row,
                grid@.map_values(|line: Vec<CharCell>| line@) == rendered_lines(self.state(), cursor_fg, cursor_bg).take(i as int),
        {
            proof {
                self.lemma_state_line(i as int);
            }
            let line = &self.text[i];
            let m = line.len();
            let mut copy: Vec<CharCell> = Vec::new();
            for j in 0..m
                invariant
                    m == line@.len(),
                    copy@ == line@.take(j as int),
            {
                copy.push(line[j]);
                proof {
                    assert(line@.take(j + 1) =~= line@.take(j as int).push(line@[j as int]));
                }
            }
            proof {
                assert(line@.take(m as int) =~= line@);
            }
            if i == row {
                copy.push(CharCell::new(' '));
                let character = copy[col].character;
                copy.set(col, CharCell { character, fg: cursor_fg, bg: cursor_bg });
            }
            let ghost prev = grid@.map_values(|line: Vec<CharCell>| line@);
            grid.push(copy);
            proof {
                let target = rendered_lines(self.state(), cursor_fg, cursor_bg);
                assert(target.take(i + 1) =~= target.take(i as int).push(target[i as int]));
                if i == row {
                    assert(copy@ =~= target[i as int]);
                }
                assert(grid@.map_values(|line: Vec<CharCell>| line@) =~= prev.push(copy@));
            }
        }
        proof {
            assert(rendered_lines(self.state(), cursor_fg, cursor_bg).take(n as int) =~= rendered_lines(
                self.state(),
                cursor_fg,
                cursor_bg,
            ));
        }
        grid
    }

    /// The lines with the cursor drawn black on light yellow.
    pub fn render_grid(&self) -> (grid: Vec<Vec<CharCell>>)
        requires
            self.wf(),
        ensures
            grid@.map_values(|line: Vec<CharCell>| line@) == rendered_lines(
                self.state(),
                rgba(0, 0, 0, 0xFF),
                rgba(0xFF, 0xFF, 0, 0xFF),
            ),
    {
        self.render_grid_with_color((Color::black(), Color::light_yellow()))
    }

    /// A text box holding the lines of `value` run together: every line
    /// ending (a line feed, or a carriage return and a line feed) is removed
    /// and the rest is kept as one line.
    pub fn from_string(value: String) -> (tb: TextBox)
        ensures
            tb.wf(),
            tb.state().lines == split_lines(strip_line_endings(value@)).map_values(|l: Seq<char>| plain_line(l)),
            tb.state().col == 0,
            tb.state().row == 0,
    {
        let chars = chars_of(value.as_str());
        let mut kept: Vec<char> = Vec::new();
        let n = chars.len();
        for i in 0..n
            invariant
                n == chars@.len(),
                kept@ == strip_line_endings(chars@.take(i as int)),
        {
            let c = chars[i];
            proof {
                assert(chars@.take(i + 1).drop_last() =~= chars@.take(i as int));
                assert(chars@.take(i + 1).last() == c);
            }
            if c == '\n' {
                if i > 0 && chars[i - 1] == '\r' {
                    proof {
                        let t = chars@.take(i as int);
                        assert(t.last() == '\r');
                        assert(strip_line_endings(t) == strip_line_endings(t.drop_last()).push('\r'));
                    }
                    kept.pop();
                    proof {
                        let t = chars@.take(i as int);
                        assert(kept@ =~= strip_line_endings(t.drop_last()));
                    }
                }
            } else {
                kept.push(c);
            }
        }
        proof {
            assert(chars@.take(n as int) =~= chars@);
        }
        let mut joined = String::new();
        let m = kept.len();
        for j in 0..m
            invariant
                m == kept@.len(),
                joined@ == kept@.take(j as int),
        {
            joined.push(kept[j]);
            proof {
                assert(kept@.take(j + 1) =~= kept@.take(j as int).push(kept@[j as int]));
            }
        }
        proof {
            assert(kept@.take(m as int) =~= kept@);
        }
        TextBox::new(joined)
    }

    /// A text box holding one empty line.
    pub fn new_empty() -> (tb: TextBox)
        ensures
            tb.wf(),
            tb.state().lines == seq![Seq::<CharCell>::empty()],
            tb.state().col == 0,
            tb.state().row == 0,
    {
        let mut text: Vec<Vec<CharCell>> = Vec::new();
        text.push(Vec::new());
        let tb = TextBox { text, cursor_logical_position: (0, 0) };
        assert(tb.state().lines =~= seq![Seq::<CharCell>::empty()]);
        tb
    }
}

} // verus!

verus! {

impl Default for TextBox {
    /// A text box holding one empty line.
    fn default() -> (tb: TextBox)
        ensures
            tb.wf(),
            tb.state().lines == seq![Seq::<CharCell>::empty()],
            tb.state().col == 0,
            tb.state().row == 0,
    {
        TextBox::new_empty()
    }
}

/// Typing a character and then pressing Backspace leaves the text box as it was.
pub proof fn lemma_type_then_backspace(s: TextState, c: char)
    requires
        state_wf(s),
        is_typed_char(c),
    ensures
        handle_event_spec(
            handle_event_spec(s, UIEvent::KeyPress(Key::Char(c), spec_none())),
            UIEvent::KeyPress(Key::Backspace, spec_none()),
        ) == s,
{
    let typed = write_character_spec(s, plain_cell(c));
    assert(handle_event_spec(s, UIEvent::KeyPress(Key::Char(c), spec_none())) == typed);
    let back = delete_character_spec(typed);
    assert(typed.lines[s.row].remove(s.col) =~= s.lines[s.row]);
    assert(back.lines =~= s.lines);
}

/// Pressing Enter and then Backspace leaves the text box as it was.
pub proof fn lemma_enter_then_backspace(s: TextState)
    requires
        state_wf(s),
    ensures
        handle_event_spec(
            handle_event_spec(s, UIEvent::KeyPress(Key::Enter, spec_none())),
            UIEvent::KeyPress(Key::Backspace, spec_none()),
        ) == s,
{
    let split = write_new_line_spec(s);
    assert(split.lines[s.row] == s.lines[s.row].take(s.col));
    assert(split.lines[s.row + 1] == s.lines[s.row].skip(s.col));
    assert(handle_event_spec(s, UIEvent::KeyPress(Key::Enter, spec_none())) == split);
    let back = delete_character_spec(split);
    assert(s.lines[s.row].take(s.col) + s.lines[s.row].skip(s.col) =~= s.lines[s.row]);
    assert(back.lines =~= s.lines);
}

/// Every event keeps a well-formed text box well-formed.
pub proof fn lemma_handle_event_keeps_wf(s: TextState, ev: UIEvent)
    requires
        state_wf(s),
    ensures
        state_wf(handle_event_spec(s, ev)),
{
    let t = match ev {
        UIEvent::KeyPress(key, m) => key_step(s, key, m),
        _ => s,
    };
    assert(t.lines.len() >= 1);
}

/// The text a text box is made from is the text it gives back.
pub proof fn lemma_text_round_trip(text: Seq<char>)
    ensures
        join_lines(text_chars(split_lines(text).map_values(|l: Seq<char>| plain_line(l)))) == text,
{
    let sp = split_lines(text);
    assert(text_chars(sp.map_values(|l: Seq<char>| plain_line(l))) =~= sp) by {
        assert forall|i: int| 0 <= i < sp.len() implies line_chars(plain_line(sp[i])) =~= sp[i] by {}
    }
    lemma_join_split(text);
}

/// Typing any printable ASCII character (`'!'` to `'~'`) or a space, with
/// no modifier or with Shift alone, inserts it at the cursor and moves the
/// cursor just past it; no other line changes.
pub proof fn lemma_typing_inserts_printable(s: TextState, c: char, m: KeyModifiers)
    requires
        state_wf(s),
        m == spec_none() || m == spec_shift(),
        ('!' <= c && c <= '~') || c == ' ',
    ensures
        ({
            let t = handle_event_spec(s, UIEvent::KeyPress(Key::Char(c), m));
            &&& t.row == s.row
            &&& t.col == s.col + 1
            &&& t.lines.len() == s.lines.len()
            &&& t.lines[s.row] == s.lines[s.row].insert(s.col, plain_cell(c))
            &&& t.lines[s.row][s.col].character == c
            &&& forall|i: int| 0 <= i < s.lines.len() && i != s.row ==> t.lines[i] == s.lines[i]
        }),
{
    let typed = TextState {
        lines: s.lines.update(s.row, s.lines[s.row].insert(s.col, plain_cell(c))),
        col: s.col + 1,
        row: s.row,
    };
    assert(key_step(s, Key::Char(c), m) == typed);
    assert(typed.lines[s.row].len() == s.lines[s.row].len() + 1);
    assert(clamp_spec(typed) == typed);
}

} // verus!
