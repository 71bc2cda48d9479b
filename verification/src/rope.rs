use vstd::prelude::*;
use ropey::Rope;

verus! {

#[verifier::external_type_specification]
#[verifier::external_body]
pub struct ExRope(ropey::Rope);

/// The characters a rope holds, in order.
pub uninterp spec fn rope_text(rope: Rope) -> Seq<char>;

/// The number of lines ropey counts in a text: one more than the number of
/// line breaks.
pub uninterp spec fn rope_len_lines(text: Seq<char>) -> int;

/// The index of the line that holds the character at `char_idx`.
pub uninterp spec fn rope_char_to_line(text: Seq<char>, char_idx: int) -> int;

/// The index of the first character of line `line_idx`.
pub uninterp spec fn rope_line_to_char(text: Seq<char>, line_idx: int) -> int;

/// `Rope::from_str`: a rope holding the characters of `text`.
#[verifier::external_body]
pub(crate) fn rope_from_str(text: &str) -> (rope: Rope)
    ensures
        rope_text(rope) == text@,
{
    Rope::from_str(text)
}

/// `Rope::len_chars`: the number of characters.
#[verifier::external_body]
pub(crate) fn len_chars(rope: &Rope) -> (n: usize)
    ensures
        n == rope_text(*rope).len(),
{
    rope.len_chars()
}

/// `Rope::len_lines`: the number of lines, at least one (an empty rope is one
/// empty line).
#[verifier::external_body]
pub(crate) fn len_lines(rope: &Rope) -> (n: usize)
    ensures
        n == rope_len_lines(rope_text(*rope)),
        n >= 1,
{
    rope.len_lines()
}

/// `Rope::char_to_line`: the line of the character at `char_idx`; one past the
/// last character gives the last line. The line starts at or before the
/// character, and the next line starts after it.
#[verifier::external_body]
pub(crate) fn char_to_line(rope: &Rope, char_idx: usize) -> (line: usize)
    requires
        char_idx <= rope_text(*rope).len(),
    ensures
        line == rope_char_to_line(rope_text(*rope), char_idx as int),
        line < rope_len_lines(rope_text(*rope)),
        char_idx == rope_text(*rope).len() ==> line == rope_len_lines(rope_text(*rope)) - 1,
        rope_line_to_char(rope_text(*rope), line as int) <= char_idx,
        char_idx < rope_text(*rope).len() ==> char_idx < rope_line_to_char(rope_text(*rope), line + 1),
{
    rope.char_to_line(char_idx)
}

/// `Rope::line_to_char`: where line `line_idx` starts; one past the last line
/// gives the number of characters. Line starts grow with the line index,
/// strictly before the last line (every line but the last ends with a line
/// break), and line 0 starts at 0.
#[verifier::external_body]
pub(crate) fn line_to_char(rope: &Rope, line_idx: usize) -> (start: usize)
    requires
        line_idx <= rope_len_lines(rope_text(*rope)),
    ensures
        start == rope_line_to_char(rope_text(*rope), line_idx as int),
        start <= rope_text(*rope).len(),
        line_idx == 0 ==> start == 0,
        line_idx == rope_len_lines(rope_text(*rope)) ==> start == rope_text(*rope).len(),
        forall|k: int| 0 <= k <= line_idx ==> rope_line_to_char(rope_text(*rope), k) <= start,
        line_idx + 1 < rope_len_lines(rope_text(*rope)) ==> start < rope_line_to_char(rope_text(*rope), line_idx + 1),
{
    rope.line_to_char(line_idx)
}

/// `Rope::insert_char`: inserts `ch` at `char_idx`.
#[verifier::external_body]
pub(crate) fn insert_char(rope: &mut Rope, char_idx: usize, ch: char)
    requires
        char_idx <= rope_text(*old(rope)).len(),
    ensures
        rope_text(*final(rope)) == rope_text(*old(rope)).insert(char_idx as int, ch),
{
    rope.insert_char(char_idx, ch)
}

/// `Rope::insert`: inserts `text` at `char_idx`.
#[verifier::external_body]
pub(crate) fn insert_str(rope: &mut Rope, char_idx: usize, text: &str)
    requires
        char_idx <= rope_text(*old(rope)).len(),
    ensures
        rope_text(*final(rope)) == rope_text(*old(rope)).take(char_idx as int) + text@ + rope_text(
            *old(rope),
        ).skip(char_idx as int),
{
    rope.insert(char_idx, text)
}

/// `Rope::remove`: removes the characters in `start..end`.
#[verifier::external_body]
pub(crate) fn remove_range(rope: &mut Rope, start: usize, end: usize)
    requires
        start <= end <= rope_text(*old(rope)).len(),
    ensures
        rope_text(*final(rope)) == rope_text(*old(rope)).take(start as int) + rope_text(*old(rope)).skip(
            end as int,
        ),
{
    rope.remove(start..end)
}

/// `Rope::get_line`: the characters of line `line_idx`, its line break
/// included, or `None` past the last line.
#[verifier::external_body]
pub(crate) fn get_line_chars(rope: &Rope, line_idx: usize) -> (line: Option<Vec<char>>)
    ensures
        line is Some <==> line_idx < rope_len_lines(rope_text(*rope)),
        line matches Some(v) ==> v@ == rope_text(*rope).subrange(
            rope_line_to_char(rope_text(*rope), line_idx as int),
            rope_line_to_char(rope_text(*rope), line_idx + 1),
        ),
{
    rope.get_line(line_idx).map(|line| line.chars().collect())
}

} // verus!
