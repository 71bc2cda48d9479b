use vstd::prelude::*;

verus! {

/// Splits text at every line feed. The line feeds themselves are dropped,
/// and there is always at least one line (an empty text is one empty line).
pub open spec fn split_lines(s: Seq<char>) -> Seq<Seq<char>>
    decreases s.len(),
{
    if s.len() == 0 {
        seq![Seq::<char>::empty()]
    } else {
        let rest = split_lines(s.drop_last());
        if s.last() == '\n' {
            rest.push(Seq::<char>::empty())
        } else {
            rest.update(rest.len() - 1, rest.last().push(s.last()))
        }
    }
}

/// Joins lines with a line feed between each two of them.
pub open spec fn join_lines(lines: Seq<Seq<char>>) -> Seq<char>
    decreases lines.len(),
{
    if lines.len() == 0 {
        Seq::<char>::empty()
    } else if lines.len() == 1 {
        lines[0]
    } else {
        join_lines(lines.drop_last()) + seq!['\n'] + lines.last()
    }
}

/// A line holds no line feed.
pub open spec fn no_line_feed(line: Seq<char>) -> bool {
    forall|i: int| 0 <= i < line.len() ==> line[i] != '\n'
}

/// Text with every line feed removed, together with a carriage return that
/// stands right before a line feed: what concatenating the lines of the text
/// (as `str::lines` yields them) gives.
pub open spec fn strip_line_endings(s: Seq<char>) -> Seq<char>
    decreases s.len(),
{
    if s.len() == 0 {
        Seq::<char>::empty()
    } else if s.last() == '\n' {
        let t = s.drop_last();
        if t.len() > 0 && t.last() == '\r' {
            strip_line_endings(t.drop_last())
        } else {
            strip_line_endings(t)
        }
    } else {
        strip_line_endings(s.drop_last()).push(s.last())
    }
}

pub proof fn lemma_split_lines_nonempty(s: Seq<char>)
    ensures
        split_lines(s).len() >= 1,
    decreases s.len(),
{
    if s.len() > 0 {
        lemma_split_lines_nonempty(s.drop_last());
    }
}

/// Every line that splitting gives is free of line feeds.
pub proof fn lemma_split_lines_no_line_feed(s: Seq<char>)
    ensures
        forall|i: int| 0 <= i < split_lines(s).len() ==> no_line_feed(#[trigger] split_lines(s)[i]),
    decreases s.len(),
{
    if s.len() > 0 {
        lemma_split_lines_no_line_feed(s.drop_last());
        lemma_split_lines_nonempty(s.drop_last());
        let rest = split_lines(s.drop_last());
        if s.last() != '\n' {
            assert forall|i: int| 0 <= i < split_lines(s).len() implies no_line_feed(
                #[trigger] split_lines(s)[i],
            ) by {
                if i == rest.len() - 1 {
                    assert(no_line_feed(rest[i]));
                    assert(split_lines(s)[i] == rest[i].push(s.last()));
                }
            }
        }
    }
}

/// Appending a character to the last line appends it to the joined text.
pub proof fn lemma_join_push_last(lines: Seq<Seq<char>>, c: char)
    requires
        lines.len() >= 1,
    ensures
        join_lines(lines.update(lines.len() - 1, lines.last().push(c))) == join_lines(lines).push(c),
{
    let upd = lines.update(lines.len() - 1, lines.last().push(c));
    if lines.len() == 1 {
        assert(upd[0] == lines[0].push(c));
    } else {
        assert(upd.drop_last() =~= lines.drop_last());
        assert(join_lines(upd) == join_lines(lines.drop_last()) + seq!['\n'] + lines.last().push(c));
        assert(join_lines(upd) =~= join_lines(lines).push(c));
    }
}

/// Splitting text into lines and joining them again gives back the text.
pub proof fn lemma_join_split(s: Seq<char>)
    ensures
        join_lines(split_lines(s)) == s,
    decreases s.len(),
{
    if s.len() == 0 {
        assert(join_lines(split_lines(s)) =~= s);
    } else {
        let t = s.drop_last();
        lemma_join_split(t);
        lemma_split_lines_nonempty(t);
        let rest = split_lines(t);
        if s.last() == '\n' {
            let pushed = rest.push(Seq::<char>::empty());
            assert(pushed.drop_last() =~= rest);
            assert(join_lines(pushed) == join_lines(rest) + seq!['\n'] + Seq::<char>::empty());
            assert(join_lines(pushed) =~= s);
        } else {
            lemma_join_push_last(rest, s.last());
            assert(t.push(s.last()) =~= s);
        }
    }
}

/// Joining lines free of line feeds and splitting the result gives back the lines.
pub proof fn lemma_split_join(lines: Seq<Seq<char>>)
    requires
        lines.len() >= 1,
        forall|i: int| 0 <= i < lines.len() ==> no_line_feed(#[trigger] lines[i]),
    ensures
        split_lines(join_lines(lines)) == lines,
    decreases lines.len(),
{
    if lines.len() == 1 {
        lemma_split_single(lines[0]);
        assert(split_lines(lines[0]) =~= lines);
    } else {
        let init = lines.drop_last();
        assert forall|i: int| 0 <= i < init.len() implies no_line_feed(#[trigger] init[i]) by {
            assert(init[i] == lines[i]);
        }
        lemma_split_join(init);
        let prefix = join_lines(init) + seq!['\n'];
        lemma_split_append_line(prefix, lines.last());
        assert(prefix.drop_last() =~= join_lines(init));
        assert(split_lines(prefix) == split_lines(join_lines(init)).push(Seq::<char>::empty()));
        assert(split_lines(prefix) =~= init.push(Seq::<char>::empty()));
        assert(init.push(lines.last()) =~= lines);
    }
}

/// A text free of line feeds is a single line.
pub proof fn lemma_split_single(line: Seq<char>)
    requires
        no_line_feed(line),
    ensures
        split_lines(line) == seq![line],
    decreases line.len(),
{
    if line.len() == 0 {
        assert(line =~= Seq::<char>::empty());
    } else {
        let t = line.drop_last();
        assert(no_line_feed(t)) by {
            assert forall|i: int| 0 <= i < t.len() implies t[i] != '\n' by {
                assert(t[i] == line[i]);
            }
        }
        lemma_split_single(t);
        assert(line.last() == line[line.len() - 1]);
        assert(t.push(line.last()) =~= line);
        assert(split_lines(line) =~= seq![line]);
    }
}

/// Appending a line-feed-free piece to a text extends its last line by that piece.
pub proof fn lemma_split_append_line(prefix: Seq<char>, line: Seq<char>)
    requires
        no_line_feed(line),
    ensures
        split_lines(prefix + line) == split_lines(prefix).update(
            split_lines(prefix).len() - 1,
            split_lines(prefix).last() + line,
        ),
    decreases line.len(),
{
    lemma_split_lines_nonempty(prefix);
    if line.len() == 0 {
        assert(prefix + line =~= prefix);
        assert(split_lines(prefix).last() + line =~= split_lines(prefix).last());
        assert(split_lines(prefix).update(split_lines(prefix).len() - 1, split_lines(prefix).last())
            =~= split_lines(prefix));
    } else {
        let t = line.drop_last();
        lemma_split_append_line(prefix, t);
        assert((prefix + line).drop_last() =~= prefix + t);
        assert((prefix + line).last() == line.last());
        assert(line.last() == line[line.len() - 1]);
        let sp = split_lines(prefix);
        let mid = sp.update(sp.len() - 1, sp.last() + t);
        assert(split_lines(prefix + line) == mid.update(mid.len() - 1, mid.last().push(line.last())));
        assert((sp.last() + t).push(line.last()) =~= sp.last() + line);
        assert(mid.update(mid.len() - 1, mid.last().push(line.last())) =~= sp.update(
            sp.len() - 1,
            sp.last() + line,
        ));
    }
}

/// The decimal digit character for `d < 10`.
pub open spec fn digit_char(d: nat) -> char {
    (('0' as u32) + d) as char
}

/// The decimal representation of `n`, without leading zeros.
pub open spec fn decimal(n: nat) -> Seq<char>
    decreases n,
{
    if n < 10 {
        seq![digit_char(n)]
    } else {
        decimal(n / 10).push(digit_char(n % 10))
    }
}

/// The number that a string of decimal digits stands for, most significant
/// digit first.
pub open spec fn decimal_value(s: Seq<char>) -> int
    decreases s.len(),
{
    if s.len() == 0 {
        0
    } else {
        10 * decimal_value(s.drop_last()) + ((s.last() as u32) - ('0' as u32))
    }
}

/// The decimal text of `n` is made of the digits `'0'` to `'9'`, has no
/// leading zero, and reads back as `n`.
pub proof fn lemma_decimal_reads_back(n: nat)
    ensures
        decimal_value(decimal(n)) == n,
        decimal(n).len() >= 1,
        forall|i: int| 0 <= i < decimal(n).len() ==> '0' <= #[trigger] decimal(n)[i] && decimal(n)[i] <= '9',
        n > 0 ==> decimal(n)[0] != '0',
        n < 10 <==> decimal(n).len() == 1,
    decreases n,
{
    if n < 10 {
        let d = decimal(n);
        assert(d.drop_last() =~= Seq::<char>::empty());
        assert(decimal_value(Seq::<char>::empty()) == 0);
        assert(d.last() == digit_char(n));
        assert((digit_char(n) as u32) == ('0' as u32) + n);
        assert(decimal_value(d) == 10 * decimal_value(d.drop_last()) + ((d.last() as u32) - ('0' as u32)));
    } else {
        lemma_decimal_reads_back(n / 10);
        let d = decimal(n);
        assert(d.drop_last() =~= decimal(n / 10));
        assert((digit_char(n % 10) as u32) == ('0' as u32) + n % 10);
        assert(n == 10 * (n / 10) + n % 10);
        assert(d.last() == digit_char(n % 10));
        assert(decimal_value(d) == 10 * decimal_value(d.drop_last()) + ((d.last() as u32) - ('0' as u32)));
        assert(d[0] == decimal(n / 10)[0]);
    }
}

/// Appends the characters of `t` to `s`.
pub fn push_str(s: &mut String, t: &str)
    ensures
        final(s)@ == old(s)@ + t@,
{
    let chars = chars_of(t);
    let n = chars.len();
    for i in 0..n
        invariant
            n == chars@.len(),
            chars@ == t@,
            s@ == old(s)@ + chars@.take(i as int),
    {
        s.push(chars[i]);
        proof {
            assert(chars@.take(i + 1) =~= chars@.take(i as int).push(chars@[i as int]));
        }
    }
    proof {
        assert(chars@.take(n as int) =~= chars@);
    }
}

/// Appends the decimal representation of `n` to `s`.
pub fn push_decimal(s: &mut String, n: usize)
    ensures
        final(s)@ == old(s)@ + decimal(n as nat),
    decreases n,
{
    if n >= 10 {
        push_decimal(s, n / 10);
    }
    let d = n % 10;
    let c = if d == 0 {
        '0'
    } else if d == 1 {
        '1'
    } else if d == 2 {
        '2'
    } else if d == 3 {
        '3'
    } else if d == 4 {
        '4'
    } else if d == 5 {
        '5'
    } else if d == 6 {
        '6'
    } else if d == 7 {
        '7'
    } else if d == 8 {
        '8'
    } else {
        '9'
    };
    assert(c == digit_char(d as nat));
    s.push(c);
    proof {
        if n >= 10 {
            assert(old(s)@ + decimal((n / 10) as nat) + seq![digit_char((n % 10) as nat)] =~= old(s)@ + decimal(n as nat));
        } else {
            assert(old(s)@.push(c) =~= old(s)@ + decimal(n as nat));
        }
    }
}

/// `String::push` appends one character.
pub assume_specification[ String::push ](s: &mut String, ch: char)
    ensures
        final(s)@ == old(s)@.push(ch),
;

/// `String::pop` removes and returns the last character, if any.
pub assume_specification[ String::pop ](s: &mut String) -> (last: Option<char>)
    ensures
        old(s)@.len() == 0 ==> last is None && final(s)@ == old(s)@,
        old(s)@.len() > 0 ==> last == Some(old(s)@.last()) && final(s)@ == old(s)@.drop_last(),
;

/// A string holding the characters of `v`.
pub fn string_from_chars(v: &Vec<char>) -> (s: String)
    ensures
        s@ == v@,
{
    let mut s = String::new();
    let n = v.len();
    for i in 0..n
        invariant
            n == v@.len(),
            s@ == v@.take(i as int),
    {
        s.push(v[i]);
        proof {
            assert(v@.take(i + 1) =~= v@.take(i as int).push(v@[i as int]));
        }
    }
    proof {
        assert(v@.take(n as int) =~= v@);
    }
    s
}

/// Whether two character vectors hold the same characters.
pub fn chars_equal(a: &Vec<char>, b: &Vec<char>) -> (eq: bool)
    ensures
        eq == (a@ == b@),
{
    if a.len() != b.len() {
        return false;
    }
    let n = a.len();
    for i in 0..n
        invariant
            n == a@.len(),
            n == b@.len(),
            forall|k: int| 0 <= k < i ==> a@[k] == b@[k],
    {
        if a[i] != b[i] {
            return false;
        }
    }
    assert(a@ =~= b@);
    true
}

/// Splits characters at every line feed, dropping the line feeds.
pub fn split_at_line_feeds(chars: &Vec<char>) -> (pieces: Vec<Vec<char>>)
    ensures
        pieces@.map_values(|p: Vec<char>| p@) == split_lines(chars@),
{
    let mut pieces: Vec<Vec<char>> = Vec::new();
    pieces.push(Vec::new());
    proof {
        assert(chars@.take(0) =~= Seq::<char>::empty());
        assert(pieces@.map_values(|p: Vec<char>| p@) =~= split_lines(chars@.take(0)));
    }
    for i in 0..chars.len()
        invariant
            pieces@.map_values(|p: Vec<char>| p@) == split_lines(chars@.take(i as int)),
            pieces@.len() >= 1,
    {
        let ghost before = pieces@.map_values(|p: Vec<char>| p@);
        let c = chars[i];
        proof {
            assert(chars@.take(i + 1).drop_last() =~= chars@.take(i as int));
            assert(chars@.take(i + 1).last() == c);
        }
        if c == '\n' {
            pieces.push(Vec::new());
            proof {
                assert(pieces@.map_values(|p: Vec<char>| p@) =~= before.push(Seq::<char>::empty()));
            }
        } else {
            let last = pieces.len() - 1;
            pieces[last].push(c);
            proof {
                assert(pieces@.map_values(|p: Vec<char>| p@) =~= before.update(
                    before.len() - 1,
                    before.last().push(c),
                ));
            }
        }
    }
    proof {
        assert(chars@.take(chars@.len() as int) =~= chars@);
    }
    pieces
}

/// The characters of a string slice, in order.
pub fn chars_of(s: &str) -> (v: Vec<char>)
    ensures
        v@ == s@,
{
    let mut v: Vec<char> = Vec::new();
    for c in it: s.chars()
        invariant
            v@ == it.seq().take(it.index() as int),
    {
        v.push(c);
    }
    v
}

} // verus!
