use vstd::prelude::*;
use crate::color::{Color, rgba};
use crate::ui_event::DisplayContainerSize;
use crate::text::{split_lines, lemma_split_lines_nonempty, chars_of, split_at_line_feeds};

verus! {

/// Style flags of a character cell. Bit 2 marks the cursor line
/// (bits 0 and 1 are meant for bold and italic).
#[derive(Debug, Clone, Copy, Hash, PartialEq, Eq, PartialOrd, Ord, Default)]
pub struct CharCellStyle(pub u32);

impl CharCellStyle {
    pub fn unstyled() -> (s: CharCellStyle)
        ensures
            s.0 == 0,
    {
        CharCellStyle(0)
    }

    pub fn cursor_line() -> (s: CharCellStyle)
        ensures
            s.0 == 4,
    {
        CharCellStyle(4)
    }

    /// The union of two styles: a flag is set when either sets it.
    pub fn add(self, rhs: CharCellStyle) -> (s: CharCellStyle)
        ensures
            s.0 == self.0 | rhs.0,
    {
        CharCellStyle(self.0 | rhs.0)
    }
}

/// Adding styles is commutative, associative and idempotent, and the
/// unstyled style changes nothing.
pub proof fn lemma_style_add_laws(a: u32, b: u32, c: u32)
    ensures
        a | b == b | a,
        (a | b) | c == a | (b | c),
        a | a == a,
        a | 0 == a,
{
    assert(a | b == b | a) by (bit_vector);
    assert((a | b) | c == a | (b | c)) by (bit_vector);
    assert(a | a == a) by (bit_vector);
    assert(a | 0 == a) by (bit_vector);
}

/// A cell of a character grid, laid out so that it can be sent as bytes.
#[derive(Debug, Clone, Copy, Hash, PartialEq, Eq)]
pub struct InternalCharCell {
    pub character: u32,
    /// RGBA
    pub fg: Color,
    /// RGBA
    pub bg: Color,
    pub style: CharCellStyle,
}

/// A space in white on a transparent background, unstyled.
pub open spec fn default_cell() -> InternalCharCell {
    InternalCharCell {
        character: ' ' as u32,
        fg: rgba(0xFF, 0xFF, 0xFF, 0xFF),
        bg: rgba(0, 0, 0, 0),
        style: CharCellStyle(0),
    }
}

impl InternalCharCell {
    /// A space in white on a transparent background, unstyled.
    pub fn new_default() -> (cell: InternalCharCell)
        ensures
            cell == default_cell(),
    {
        InternalCharCell {
            character: ' ' as u32,
            fg: Color::white(),
            bg: Color::transparent(),
            style: CharCellStyle::unstyled(),
        }
    }

    pub fn set_char(&mut self, c: char)
        ensures
            *final(self) == (InternalCharCell { character: c as u32, ..*old(self) }),
    {
        self.character = c as u32;
    }

    pub fn set_fg(&mut self, fg: Color)
        ensures
            *final(self) == (InternalCharCell { fg, ..*old(self) }),
    {
        self.fg = fg;
    }

    pub fn set_bg(&mut self, bg: Color)
        ensures
            *final(self) == (InternalCharCell { bg, ..*old(self) }),
    {
        self.bg = bg;
    }

    /// Adds the flags of `new_style` to the cell's style.
    pub fn add_style(&mut self, new_style: CharCellStyle)
        ensures
            *final(self) == (InternalCharCell { style: CharCellStyle(old(self).style.0 | new_style.0), ..*old(self) }),
    {
        self.style = self.style.add(new_style);
    }

    pub fn set_style(&mut self, new_style: CharCellStyle)
        ensures
            *final(self) == (InternalCharCell { style: new_style, ..*old(self) }),
    {
        self.style = new_style;
    }
}

impl Default for InternalCharCell {
    fn default() -> (cell: InternalCharCell)
        ensures
            cell == default_cell(),
    {
        InternalCharCell::new_default()
    }
}

/// Height of a character cell in pixels.
pub const FONT_SIZE_U: u32 = 46;

/// Width of a character cell in pixels.
pub const FONT_WIDTH_U: u32 = 24;

/// Line `r` of a text, given the text split at its line feeds: a carriage
/// return right before a line feed is not part of the line.
pub open spec fn text_line(pieces: Seq<Seq<char>>, r: int) -> Seq<char> {
    let p = pieces[r];
    if r + 1 < pieces.len() && p.len() > 0 && p.last() == '\r' {
        p.drop_last()
    } else {
        p
    }
}

/// The number of lines of a text: none for an empty text, and a line feed
/// at the very end starts no line of its own.
pub open spec fn text_line_count(s: Seq<char>) -> nat {
    if s.len() == 0 {
        0
    } else if s.last() == '\n' {
        (split_lines(s).len() - 1) as nat
    } else {
        split_lines(s).len()
    }
}

/// The widest of the first `k` lines, in characters (0 when `k` is 0).
pub open spec fn widest_line(pieces: Seq<Seq<char>>, k: int) -> nat
    decreases k,
{
    if k <= 0 {
        0
    } else {
        let w = text_line(pieces, k - 1).len();
        let m = widest_line(pieces, k - 1);
        if w > m {
            w
        } else {
            m
        }
    }
}

/// The width of the grid made from a text: its widest line in characters.
pub open spec fn text_grid_width(s: Seq<char>) -> nat {
    widest_line(split_lines(s), text_line_count(s) as int)
}

/// The character at `(row, col)` of a grid `width` wide made from a text
/// split at its line feeds: row `row` holds piece `row` from column 0; a
/// carriage return that runs one past the end of the row above lands in
/// column 0 unless the row has a character there; other cells hold a space.
pub open spec fn text_grid_char(pieces: Seq<Seq<char>>, width: nat, row: int, col: int) -> char {
    if col < pieces[row].len() {
        pieces[row][col]
    } else if col == 0 && row >= 1 && pieces[row - 1].len() > width {
        pieces[row - 1][width as int]
    } else {
        ' '
    }
}

/// Writing the text leaves every character inside the grid.
pub open spec fn text_fits_grid(s: Seq<char>) -> bool {
    let pieces = split_lines(s);
    let w = text_grid_width(s);
    forall|r: int| 0 <= r < pieces.len() ==> r * w + #[trigger] pieces[r].len() <= w * text_line_count(s)
}

/// Every one of the first `k` lines is at most as wide as the widest.
proof fn lemma_widest_line_bounds(pieces: Seq<Seq<char>>, k: int, r: int)
    requires
        0 <= r < k,
    ensures
        text_line(pieces, r).len() <= widest_line(pieces, k),
    decreases k,
{
    if r < k - 1 {
        lemma_widest_line_bounds(pieces, k - 1, r);
    }
}

/// The widest of the first `k` lines is one of them (when there is one).
proof fn lemma_widest_line_attained(pieces: Seq<Seq<char>>, k: int)
    requires
        k >= 1,
    ensures
        exists|r: int| 0 <= r < k && #[trigger] text_line(pieces, r).len() == widest_line(pieces, k),
    decreases k,
{
    if k == 1 {
        assert(widest_line(pieces, 0) == 0);
        assert(text_line(pieces, 0).len() == widest_line(pieces, 1));
    } else {
        lemma_widest_line_attained(pieces, k - 1);
        if text_line(pieces, k - 1).len() <= widest_line(pieces, k - 1) {
            let r = choose|r: int| 0 <= r < k - 1 && #[trigger] text_line(pieces, r).len() == widest_line(pieces, k - 1);
            assert(text_line(pieces, r).len() == widest_line(pieces, k));
        } else {
            assert(text_line(pieces, k - 1).len() == widest_line(pieces, k));
        }
    }
}

/// The grid made from a text is the smallest that fits it: every line fits
/// in its width, and some line fills it.
pub proof fn lemma_text_grid_smallest(s: Seq<char>)
    ensures
        forall|r: int|
            0 <= r < text_line_count(s) ==> #[trigger] text_line(split_lines(s), r).len() <= text_grid_width(s),
        text_line_count(s) > 0 ==> exists|r: int|
            0 <= r < text_line_count(s) && #[trigger] text_line(split_lines(s), r).len() == text_grid_width(s),
{
    assert forall|r: int| 0 <= r < text_line_count(s) implies #[trigger] text_line(split_lines(s), r).len()
        <= text_grid_width(s) by {
        lemma_widest_line_bounds(split_lines(s), text_line_count(s) as int, r);
    }
    if text_line_count(s) > 0 {
        lemma_widest_line_attained(split_lines(s), text_line_count(s) as int);
    }
}

/// A text of one character always makes a grid (of at most one row).
pub proof fn lemma_one_char_text_fits(c: char)
    ensures
        text_fits_grid(seq![c]),
        text_grid_width(seq![c]) * text_line_count(seq![c]) <= 1,
{
    let s = seq![c];
    assert(s.drop_last() =~= Seq::<char>::empty());
    assert(split_lines(Seq::<char>::empty()) == seq![Seq::<char>::empty()]);
    let p = split_lines(s);
    assert(text_line_count(s) == 1);
    assert(widest_line(p, 0) == 0);
    if c == '\n' {
        assert(p =~= seq![Seq::<char>::empty(), Seq::<char>::empty()]);
        assert(text_line(p, 0).len() == 0);
        assert(text_grid_width(s) == 0);
        assert(text_grid_width(s) * text_line_count(s) == 0) by (nonlinear_arith)
            requires
                text_grid_width(s) == 0,
        ;
        assert forall|r: int| 0 <= r < p.len() implies r * text_grid_width(s) + #[trigger] p[r].len()
            <= text_grid_width(s) * text_line_count(s) by {
            assert(r * 0 == 0) by (nonlinear_arith);
        }
    } else {
        assert(p =~= seq![seq![c]]);
        assert(text_line(p, 0) == seq![c]);
        assert(text_grid_width(s) == 1);
        let w = text_grid_width(s);
        assert(w * text_line_count(s) == w) by (nonlinear_arith)
            requires
                text_line_count(s) == 1,
        ;
        assert forall|r: int| 0 <= r < p.len() implies r * text_grid_width(s) + #[trigger] p[r].len()
            <= text_grid_width(s) * text_line_count(s) by {
            assert(r == 0);
            assert(r * w == 0) by (nonlinear_arith)
                requires
                    r == 0,
            ;
            assert(p[r] == seq![c]);
        }
    }
}

/// A grid of character cells where every character has the same size,
/// like a terminal. Cell `(row, col)` is at index `row * width + col`.
#[derive(Debug, Clone, Hash, PartialEq, Eq)]
pub struct CharGrid {
    width: usize,
    height: usize,
    content: Vec<InternalCharCell>,
}

impl CharGrid {
    pub closed spec fn spec_width(self) -> nat {
        self.width as nat
    }

    pub closed spec fn spec_height(self) -> nat {
        self.height as nat
    }

    pub closed spec fn cells(self) -> Seq<InternalCharCell> {
        self.content@
    }

    /// There is exactly one cell per row and column.
    pub open spec fn wf(self) -> bool {
        self.cells().len() == self.spec_width() * self.spec_height()
    }

    /// The cell at `(row, col)`.
    pub open spec fn cell(self, row: int, col: int) -> InternalCharCell {
        self.cells()[row * self.spec_width() + col]
    }

    /// The grid is the one made from text `s` in the given colors and style:
    /// as wide as the widest line in characters, one row per line, and each
    /// cell as `text_grid_char` says.
    pub open spec fn shows_text(self, s: Seq<char>, fg: Color, bg: Color, style: CharCellStyle) -> bool {
        &&& self.wf()
        &&& self.spec_width() == text_grid_width(s)
        &&& self.spec_height() == text_line_count(s)
        &&& forall|row: int, col: int|
            0 <= row < self.spec_height() && 0 <= col < self.spec_width() ==> #[trigger] self.cell(row, col)
                == (InternalCharCell {
                character: text_grid_char(split_lines(s), self.spec_width(), row, col) as u32,
                fg,
                bg,
                style,
            })
    }

    /// A grid from its cells, listed row by row.
    pub fn new(width: usize, height: usize, content: Vec<InternalCharCell>) -> (grid: CharGrid)
        requires
            width * height == content@.len(),
        ensures
            grid.wf(),
            grid.spec_width() == width,
            grid.spec_height() == height,
            grid.cells() == content@,
    {
        CharGrid { width, height, content }
    }

    /// A grid of default cells.
    pub fn new_empty(width: usize, height: usize) -> (grid: CharGrid)
        requires
            width * height <= usize::MAX,
        ensures
            grid.wf(),
            grid.spec_width() == width,
            grid.spec_height() == height,
            grid.cells() == Seq::new((width * height) as nat, |i: int| default_cell()),
    {
        let n = width * height;
        let mut content: Vec<InternalCharCell> = Vec::new();
        for i in 0..n
            invariant
                content@ == Seq::new(i as nat, |k: int| default_cell()),
        {
            content.push(InternalCharCell::new_default());
            proof {
                assert(content@ =~= Seq::new((i + 1) as nat, |k: int| default_cell()));
            }
        }
        CharGrid { width, height, content }
    }

    /// A grid just large enough for a text in the given colors and style:
    /// one row per line, as wide as the widest line in characters. Each
    /// character of line `r` is written at index `r * width + c`, where `c`
    /// counts characters; the rest are spaces.
    pub fn new_monostyled(raw_content: &str, fg: Color, bg: Color, style: CharCellStyle) -> (grid: CharGrid)
        requires
            text_grid_width(raw_content@) * text_line_count(raw_content@) <= usize::MAX,
            text_fits_grid(raw_content@),
        ensures
            grid.shows_text(raw_content@, fg, bg, style),
    {
        let chars = chars_of(raw_content);
        let pieces = split_at_line_feeds(&chars);
        let ghost ps = pieces@.map_values(|p: Vec<char>| p@);
        let ghost s = raw_content@;
        proof {
            lemma_split_lines_nonempty(s);
        }
        let n = pieces.len();
        let height: usize = if chars.len() == 0 {
            0
        } else if chars[chars.len() - 1] == '\n' {
            n - 1
        } else {
            n
        };
        assert(height == text_line_count(s));
        let mut width: usize = 0;
        for r in 0..height
            invariant
                height == text_line_count(s),
                height <= n,
                n == ps.len(),
                ps == pieces@.map_values(|p: Vec<char>| p@),
                ps == split_lines(s),
                width == widest_line(ps, r as int),
        {
            let len = pieces[r].len();
            proof {
                assert(ps[r as int] == pieces@[r as int]@);
            }
            let line_len: usize = if r < n - 1 && len > 0 && pieces[r][len - 1] == '\r' {
                len - 1
            } else {
                len
            };
            assert(line_len == text_line(ps, r as int).len());
            if line_len > width {
                width = line_len;
            }
        }
        let mut content: Vec<InternalCharCell> = Vec::new();
        assert(0 * width == 0) by (nonlinear_arith);
        for row in 0..height
            invariant
                height <= n,
                ps == pieces@.map_values(|p: Vec<char>| p@),
                n == ps.len(),
                width * height <= usize::MAX,
                content@.len() == row * width,
                forall|rr: int, cc: int|
                    0 <= rr < row && 0 <= cc < width ==> #[trigger] content@[rr * width + cc] == (InternalCharCell {
                        character: text_grid_char(ps, width as nat, rr, cc) as u32,
                        fg,
                        bg,
                        style,
                    }),
        {
            proof {
                assert((row + 1) * width <= width * height) by (nonlinear_arith)
                    requires
                        row < height,
                ;
                assert((row + 1) * width == row * width + width) by (nonlinear_arith);
            }
            for col in 0..width
                invariant
                    row < height,
                    height <= n,
                    ps == pieces@.map_values(|p: Vec<char>| p@),
                    n == ps.len(),
                    (row + 1) * width <= usize::MAX,
                    (row + 1) * width == row * width + width,
                    content@.len() == row * width + col,
                    forall|rr: int, cc: int|
                        0 <= rr < row && 0 <= cc < width ==> #[trigger] content@[rr * width + cc] == (InternalCharCell {
                            character: text_grid_char(ps, width as nat, rr, cc) as u32,
                            fg,
                            bg,
                            style,
                        }),
                    forall|cc: int|
                        0 <= cc < col ==> #[trigger] content@[row * width + cc] == (InternalCharCell {
                            character: text_grid_char(ps, width as nat, row as int, cc) as u32,
                            fg,
                            bg,
                            style,
                        }),
            {
                let piece = &pieces[row];
                proof {
                    assert(ps[row as int] == piece@);
                }
                let c: char = if col < piece.len() {
                    piece[col]
                } else if col == 0 && row >= 1 && pieces[row - 1].len() > width {
                    proof {
                        assert(ps[row - 1] == pieces@[row - 1]@);
                    }
                    pieces[row - 1][width]
                } else {
                    ' '
                };
                let ghost before = content@;
                content.push(InternalCharCell { character: c as u32, fg, bg, style });
                proof {
                    assert forall|rr: int, cc: int| 0 <= rr < row && 0 <= cc < width implies #[trigger] content@[rr
                        * width + cc] == before[rr * width + cc] by {
                        assert(rr * width + cc < row * width) by (nonlinear_arith)
                            requires
                                rr < row,
                                cc < width,
                                0 <= rr,
                                0 <= cc,
                        ;
                    }
                }
            }
        }
        assert(content@.len() == width * height) by (nonlinear_arith)
            requires
                content@.len() == height * width,
        ;
        CharGrid { width, height, content }
    }

    /// A grid just large enough for a text, in light yellow on a transparent
    /// background, unstyled.
    pub fn from_text(raw_content: &str) -> (grid: CharGrid)
        requires
            text_grid_width(raw_content@) * text_line_count(raw_content@) <= usize::MAX,
            text_fits_grid(raw_content@),
        ensures
            grid.shows_text(raw_content@, rgba(0xFF, 0xFF, 0, 0xFF), rgba(0, 0, 0, 0), CharCellStyle(0)),
    {
        CharGrid::new_monostyled(raw_content, Color::light_yellow(), Color::transparent(), CharCellStyle::unstyled())
    }

    /// The largest grid size `(width, height)` that fits into a container.
    pub fn largest_fittable_size(container_size: DisplayContainerSize) -> (size: (usize, usize))
        ensures
            size.0 == container_size.width / FONT_WIDTH_U,
            size.1 == container_size.height / FONT_SIZE_U,
    {
        ((container_size.width / FONT_WIDTH_U) as usize, (container_size.height / FONT_SIZE_U) as usize)
    }

    /// The pixel size of the grid.
    pub fn display_size(&self) -> (size: DisplayContainerSize)
        requires
            self.spec_width() * FONT_WIDTH_U <= u32::MAX,
            self.spec_height() * FONT_SIZE_U <= u32::MAX,
        ensures
            size.width == self.spec_width() * FONT_WIDTH_U,
            size.height == self.spec_height() * FONT_SIZE_U,
    {
        DisplayContainerSize { width: (self.width as u32) * FONT_WIDTH_U, height: (self.height as u32) * FONT_SIZE_U }
    }

    pub fn width(&self) -> (w: usize)
        ensures
            w == self.spec_width(),
    {
        self.width
    }

    pub fn height(&self) -> (h: usize)
        ensures
            h == self.spec_height(),
    {
        self.height
    }

    /// The index of the cell at `(row, col)`.
    fn cell_index(&self, row: usize, col: usize) -> (i: usize)
        requires
            row * self.spec_width() + col < self.cells().len(),
        ensures
            i == row * self.spec_width() + col,
    {
        let n = self.content.len();
        assert(row * self.width + col < n);
        row * self.width + col
    }

    /// The cell at index `row * width + col`.
    pub fn get_char(&self, row: usize, col: usize) -> (cell: InternalCharCell)
        requires
            row * self.spec_width() + col < self.cells().len(),
        ensures
            cell == self.cells()[row * self.spec_width() + col],
    {
        self.content[self.cell_index(row, col)]
    }

    /// Sets the character of the cell at index `row * width + col`.
    pub fn set_char(&mut self, c: char, row: usize, col: usize)
        requires
            row * old(self).spec_width() + col < old(self).cells().len(),
        ensures
            final(self).spec_width() == old(self).spec_width(),
            final(self).spec_height() == old(self).spec_height(),
            final(self).cells() == old(self).cells().update(
                row * old(self).spec_width() + col,
                InternalCharCell { character: c as u32, ..old(self).cells()[row * old(self).spec_width() + col] },
            ),
    {
        let i = self.cell_index(row, col);
        self.content[i].set_char(c);
    }

    /// Sets the foreground color of the cell at index `row * width + col`.
    pub fn set_fg(&mut self, fg: Color, row: usize, col: usize)
        requires
            row * old(self).spec_width() + col < old(self).cells().len(),
        ensures
            final(self).spec_width() == old(self).spec_width(),
            final(self).spec_height() == old(self).spec_height(),
            final(self).cells() == old(self).cells().update(
                row * old(self).spec_width() + col,
                InternalCharCell { fg, ..old(self).cells()[row * old(self).spec_width() + col] },
            ),
    {
        let i = self.cell_index(row, col);
        self.content[i].set_fg(fg);
    }

    /// Sets the background color of the cell at index `row * width + col`.
    pub fn set_bg(&mut self, bg: Color, row: usize, col: usize)
        requires
            row * old(self).spec_width() + col < old(self).cells().len(),
        ensures
            final(self).spec_width() == old(self).spec_width(),
            final(self).spec_height() == old(self).spec_height(),
            final(self).cells() == old(self).cells().update(
                row * old(self).spec_width() + col,
                InternalCharCell { bg, ..old(self).cells()[row * old(self).spec_width() + col] },
            ),
    {
        let i = self.cell_index(row, col);
        self.content[i].set_bg(bg);
    }

    /// Adds style flags to the cell at index `row * width + col`.
    pub fn add_style(&mut self, style: CharCellStyle, row: usize, col: usize)
        requires
            row * old(self).spec_width() + col < old(self).cells().len(),
        ensures
            final(self).spec_width() == old(self).spec_width(),
            final(self).spec_height() == old(self).spec_height(),
            final(self).cells() == old(self).cells().update(
                row * old(self).spec_width() + col,
                InternalCharCell {
                    style: CharCellStyle(old(self).cells()[row * old(self).spec_width() + col].style.0 | style.0),
                    ..old(self).cells()[row * old(self).spec_width() + col]
                },
            ),
    {
        let i = self.cell_index(row, col);
        self.content[i].add_style(style);
    }

    /// The cells, row by row.
    pub fn content(&self) -> (cells: &[InternalCharCell])
        ensures
            cells@ == self.cells(),
    {
        self.content.as_slice()
    }
}

/// The container size left inside a one-pixel border on each side.
pub fn inner_size_of_bordered(container_size: DisplayContainerSize) -> (inner: DisplayContainerSize)
    ensures
        inner.width == if container_size.width >= 2 { container_size.width - 2 } else { 0 },
        inner.height == if container_size.height >= 2 { container_size.height - 2 } else { 0 },
{
    DisplayContainerSize {
        width: container_size.width.saturating_sub(2),
        height: container_size.height.saturating_sub(2),
    }
}

} // verus!
