use vstd::prelude::*;
use crate::standard_keybinds::{StandardKeybind, handle_standard_keybinds, standard_keybind_spec};
use crate::text::{chars_equal, chars_of, push_str, string_from_chars};
use crate::ui_event::{Key, UIEvent};

verus! {

/// Unicode white space, as `char::is_whitespace` has it.
pub open spec fn is_whitespace_char(c: char) -> bool {
    let u = c as u32;
    ||| 0x9 <= u <= 0xD
    ||| u == 0x20
    ||| u == 0x85
    ||| u == 0xA0
    ||| u == 0x1680
    ||| 0x2000 <= u <= 0x200A
    ||| u == 0x2028
    ||| u == 0x2029
    ||| u == 0x202F
    ||| u == 0x205F
    ||| u == 0x3000
}

fn is_whitespace_exec(c: char) -> (r: bool)
    ensures
        r == is_whitespace_char(c),
{
    let u = c as u32;
    (0x9 <= u && u <= 0xD) || u == 0x20 || u == 0x85 || u == 0xA0 || u == 0x1680 || (0x2000 <= u && u
        <= 0x200A) || u == 0x2028 || u == 0x2029 || u == 0x202F || u == 0x205F || u == 0x3000
}

/// The words of a text: the maximal runs of characters that are not white
/// space, in order (what `str::split_whitespace` yields).
pub open spec fn words(s: Seq<char>) -> Seq<Seq<char>>
    decreases s.len(),
{
    if s.len() == 0 {
        Seq::<Seq<char>>::empty()
    } else {
        let t = s.drop_last();
        let c = s.last();
        let ws = words(t);
        if is_whitespace_char(c) {
            ws
        } else if t.len() > 0 && !is_whitespace_char(t.last()) {
            ws.update(ws.len() - 1, ws.last().push(c))
        } else {
            ws.push(seq![c])
        }
    }
}

proof fn lemma_words_open(s: Seq<char>)
    requires
        s.len() > 0,
        !is_whitespace_char(s.last()),
    ensures
        words(s).len() > 0,
    decreases s.len(),
{
    let t = s.drop_last();
    if t.len() > 0 && !is_whitespace_char(t.last()) {
        lemma_words_open(t);
    }
}

/// The words of `s`, as `words` says.
pub fn split_words(s: &str) -> (ws: Vec<Vec<char>>)
    ensures
        ws@.map_values(|w: Vec<char>| w@) == words(s@),
{
    let chars = chars_of(s);
    let mut ws: Vec<Vec<char>> = Vec::new();
    let n = chars.len();
    for i in 0..n
        invariant
            n == chars@.len(),
            chars@ == s@,
            ws@.map_values(|w: Vec<char>| w@) == words(chars@.take(i as int)),
    {
        let c = chars[i];
        let ghost prev = ws@.map_values(|w: Vec<char>| w@);
        proof {
            assert(chars@.take(i + 1).drop_last() =~= chars@.take(i as int));
            assert(chars@.take(i + 1).last() == c);
        }
        if !is_whitespace_exec(c) {
            if i > 0 && !is_whitespace_exec(chars[i - 1]) {
                proof {
                    let t = chars@.take(i as int);
                    assert(t.last() == chars@[i - 1]);
                    lemma_words_open(t);
                }
                let last = ws.len() - 1;
                ws[last].push(c);
                proof {
                    assert(ws@.map_values(|w: Vec<char>| w@) =~= prev.update(prev.len() - 1, prev.last().push(c)));
                }
            } else {
                let mut word: Vec<char> = Vec::new();
                word.push(c);
                ws.push(word);
                proof {
                    assert(word@ =~= seq![c]);
                    assert(ws@.map_values(|w: Vec<char>| w@) =~= prev.push(seq![c]));
                }
            }
        }
    }
    proof {
        assert(chars@.take(n as int) =~= chars@);
    }
    ws
}


/// The text after the first space, if there is a space.
pub open spec fn after_first_space(s: Seq<char>) -> Option<Seq<char>>
    decreases s.len(),
{
    if s.len() == 0 {
        None
    } else if s[0] == ' ' {
        Some(s.skip(1))
    } else {
        after_first_space(s.skip(1))
    }
}

/// The text after the first space in `s`, as `after_first_space` says.
fn split_once_space(s: &str) -> (rest: Option<Vec<char>>)
    ensures
        match after_first_space(s@) {
            Some(r) => rest matches Some(v) && v@ == r,
            None => rest is None,
        },
{
    let chars = chars_of(s);
    let n = chars.len();
    let mut i: usize = 0;
    assert(chars@.skip(0) =~= chars@);
    while i < n
        invariant
            n == chars@.len(),
            chars@ == s@,
            i <= n,
            after_first_space(s@) == after_first_space(chars@.skip(i as int)),
        decreases n - i,
    {
        proof {
            assert(chars@.skip(i as int)[0] == chars@[i as int]);
            assert(chars@.skip(i as int).skip(1) =~= chars@.skip(i + 1));
        }
        if chars[i] == ' ' {
            let mut rest: Vec<char> = Vec::new();
            let mut j = i + 1;
            while j < n
                invariant
                    n == chars@.len(),
                    i < j <= n,
                    rest@ == chars@.subrange(i + 1, j as int),
                decreases n - j,
            {
                rest.push(chars[j]);
                j = j + 1;
                proof {
                    assert(rest@ =~= chars@.subrange(i + 1, j as int));
                }
            }
            proof {
                assert(rest@ =~= chars@.skip(i + 1));
            }
            return Some(rest);
        }
        i = i + 1;
    }
    proof {
        assert(chars@.skip(n as int).len() == 0);
    }
    None
}

/// What running a command leads to: a finished result, or work that the
/// code around the command hub does (summing numbers, adding a child
/// applet, running a program).
#[derive(Debug)]
pub enum CommandOutcome {
    /// The command is done: its output or its error.
    Finished(Result<String, String>),
    /// `addition`: sum the arguments that parse as numbers.
    Addition(Vec<String>),
    /// `add_child`: add a child applet of the named kind with the given
    /// arguments; with no name, a command hub.
    AddChild(Option<String>, Vec<String>),
    /// `$`: run the program named by the first argument with the rest as
    /// its arguments.
    Shell(Vec<String>),
}

/// The abstract value of a command outcome.
pub enum CommandView {
    Finished(Result<Seq<char>, Seq<char>>),
    Addition(Seq<Seq<char>>),
    AddChild(Option<Seq<char>>, Seq<Seq<char>>),
    Shell(Seq<Seq<char>>),
}

pub open spec fn strings_view(v: Vec<String>) -> Seq<Seq<char>> {
    v@.map_values(|s: String| s@)
}

pub open spec fn outcome_view(o: CommandOutcome) -> CommandView {
    match o {
        CommandOutcome::Finished(Ok(s)) => CommandView::Finished(Ok(s@)),
        CommandOutcome::Finished(Err(e)) => CommandView::Finished(Err(e@)),
        CommandOutcome::Addition(args) => CommandView::Addition(strings_view(args)),
        CommandOutcome::AddChild(name, args) => CommandView::AddChild(
            match name {
                Some(n) => Some(n@),
                None => None,
            },
            strings_view(args),
        ),
        CommandOutcome::Shell(args) => CommandView::Shell(strings_view(args)),
    }
}

pub open spec fn commands_list() -> Seq<char> {
    "Currently working commands: `add_child`, `set_title`, `help`, `addition`, `$`"@
}

/// The command that a `test` name stands for, if any.
pub open spec fn test_command(name: Seq<char>) -> Option<Seq<char>> {
    if name == "image"@ {
        Some("add_child image_viewer examples/sonamu.jpg"@)
    } else if name == "wl"@ {
        Some("add_child wl_app"@)
    } else if name == "editor"@ {
        Some("add_child code_editor examples/root-project/file_to_edit.txt"@)
    } else if name == "text_editor"@ {
        Some("add_child text_editor examples/root-project/file_to_edit.txt"@)
    } else if name == "char"@ {
        Some("add_child char_render_test"@)
    } else {
        None
    }
}

/// What a command leads to, and the new title if it sets one. The first
/// word is the verb and the other words its arguments. `test` runs a fixed
/// command for the named test (and is not expanded again inside one).
pub open spec fn command_spec(command: Seq<char>, allow_test: bool) -> (CommandView, Option<Seq<char>>)
    decreases (if allow_test { 1int } else { 0int }),
{
    let ws = words(command);
    if ws.len() == 0 {
        (CommandView::Finished(Err("Couldn't split commands."@)), None)
    } else {
        let verb = ws[0];
        let args = ws.skip(1);
        if verb == "addition"@ {
            (CommandView::Addition(args), None)
        } else if verb == "add_child"@ {
            if args.len() == 0 {
                (CommandView::AddChild(None, args), None)
            } else {
                (CommandView::AddChild(Some(args[0]), args.skip(1)), None)
            }
        } else if verb == "set_title"@ {
            match after_first_space(command) {
                Some(rest) => (CommandView::Finished(Ok("Done!"@)), Some(rest)),
                None => (
                    CommandView::Finished(Err("Couldn't get title from \""@ + command + "\"."@)),
                    None,
                ),
            }
        } else if verb == "test"@ && allow_test {
            if args.len() == 0 {
                (CommandView::Finished(Err("Must specify test."@)), None)
            } else {
                match test_command(args[0]) {
                    Some(c) => command_spec(c, false),
                    None => (
                        CommandView::Finished(
                            Err("`"@ + args[0] + "` is an unknown test. Currently working tests: `image`"@),
                        ),
                        None,
                    ),
                }
            }
        } else if verb == "help"@ {
            (CommandView::Finished(Ok(commands_list())), None)
        } else if verb == "$"@ {
            (CommandView::Shell(args), None)
        } else {
            (
                CommandView::Finished(Err("`"@ + verb + "` is an unknown command. "@ + commands_list())),
                None,
            )
        }
    }
}

/// Whether `word` is the literal `lit`.
fn word_is(word: &Vec<char>, lit: &str) -> (r: bool)
    ensures
        r == (word@ == lit@),
{
    let lit_chars = chars_of(lit);
    chars_equal(word, &lit_chars)
}

/// The arguments (the words after the first) as strings.
fn words_to_strings(ws: &Vec<Vec<char>>, from: usize) -> (v: Vec<String>)
    requires
        1 <= from <= ws@.len(),
    ensures
        strings_view(v) == ws@.map_values(|w: Vec<char>| w@).skip(from as int),
{
    let mut v: Vec<String> = Vec::new();
    let n = ws.len();
    let ghost all = ws@.map_values(|w: Vec<char>| w@);
    for i in from..n
        invariant
            n == ws@.len(),
            from <= n,
            all == ws@.map_values(|w: Vec<char>| w@),
            strings_view(v) == all.subrange(from as int, i as int),
    {
        let s = string_from_chars(&ws[i]);
        let ghost prev = v@;
        v.push(s);
        proof {
            assert(all[i as int] == ws@[i as int]@);
            assert(v@ == prev.push(s));
            assert(strings_view(v) =~= all.subrange(from as int, i as int).push(s@));
            assert(strings_view(v) =~= all.subrange(from as int, i + 1));
        }
    }
    proof {
        assert(all.subrange(from as int, n as int) =~= all.skip(from as int));
    }
    v
}

/// What a `test` name stands for, as `test_command` says.
fn test_command_exec(name: &Vec<char>) -> (c: Option<&'static str>)
    ensures
        match test_command(name@) {
            Some(cmd) => c matches Some(s) && s@ == cmd,
            None => c is None,
        },
{
    if word_is(name, "image") {
        Some("add_child image_viewer examples/sonamu.jpg")
    } else if word_is(name, "wl") {
        Some("add_child wl_app")
    } else if word_is(name, "editor") {
        Some("add_child code_editor examples/root-project/file_to_edit.txt")
    } else if word_is(name, "text_editor") {
        Some("add_child text_editor examples/root-project/file_to_edit.txt")
    } else if word_is(name, "char") {
        Some("add_child char_render_test")
    } else {
        None
    }
}

/// Runs a command as `command_spec` says: the outcome, and the new title if
/// the command sets one.
pub fn run_command(command: &str, allow_test: bool) -> (r: (CommandOutcome, Option<String>))
    ensures
        outcome_view(r.0) == command_spec(command@, allow_test).0,
        match command_spec(command@, allow_test).1 {
            Some(t) => r.1 matches Some(s) && s@ == t,
            None => r.1 is None,
        },
    decreases (if allow_test { 1int } else { 0int }),
{
    let ws = split_words(command);
    let ghost all = ws@.map_values(|w: Vec<char>| w@);
    if ws.len() == 0 {
        let mut e = String::new();
        push_str(&mut e, "Couldn't split commands.");
        return (CommandOutcome::Finished(Err(e)), None);
    }
    let verb = &ws[0];
    assert(verb@ == all[0]);
    if word_is(verb, "addition") {
        (CommandOutcome::Addition(words_to_strings(&ws, 1)), None)
    } else if word_is(verb, "add_child") {
        if ws.len() == 1 {
            let args = words_to_strings(&ws, 1);
            (CommandOutcome::AddChild(None, args), None)
        } else {
            let name = string_from_chars(&ws[1]);
            let args = words_to_strings(&ws, 2);
            proof {
                assert(all.skip(1)[0] == all[1]);
                assert(all.skip(1).skip(1) =~= all.skip(2));
            }
            (CommandOutcome::AddChild(Some(name), args), None)
        }
    } else if word_is(verb, "set_title") {
        match split_once_space(command) {
            Some(rest) => {
                let title = string_from_chars(&rest);
                let mut done = String::new();
                push_str(&mut done, "Done!");
                (CommandOutcome::Finished(Ok(done)), Some(title))
            },
            None => {
                let mut e = String::new();
                push_str(&mut e, "Couldn't get title from \"");
                push_str(&mut e, command);
                push_str(&mut e, "\".");
                (CommandOutcome::Finished(Err(e)), None)
            },
        }
    } else if word_is(verb, "test") && allow_test {
        if ws.len() == 1 {
            let mut e = String::new();
            push_str(&mut e, "Must specify test.");
            (CommandOutcome::Finished(Err(e)), None)
        } else {
            proof {
                assert(all.skip(1)[0] == all[1]);
            }
            match test_command_exec(&ws[1]) {
                Some(c) => run_command(c, false),
                None => {
                    let mut e = String::new();
                    push_str(&mut e, "`");
                    let name = string_from_chars(&ws[1]);
                    push_str(&mut e, name.as_str());
                    push_str(&mut e, "` is an unknown test. Currently working tests: `image`");
                    (CommandOutcome::Finished(Err(e)), None)
                },
            }
        }
    } else if word_is(verb, "help") {
        let mut h = String::new();
        push_str(&mut h, "Currently working commands: `add_child`, `set_title`, `help`, `addition`, `$`");
        (CommandOutcome::Finished(Ok(h)), None)
    } else if word_is(verb, "$") {
        (CommandOutcome::Shell(words_to_strings(&ws, 1)), None)
    } else {
        let mut e = String::new();
        push_str(&mut e, "`");
        let v = string_from_chars(verb);
        push_str(&mut e, v.as_str());
        push_str(&mut e, "` is an unknown command. ");
        push_str(&mut e, "Currently working commands: `add_child`, `set_title`, `help`, `addition`, `$`");
        (CommandOutcome::Finished(Err(e)), None)
    }
}


/// How a finished command's output is recorded: the output itself, or the
/// error after `Err: `.
pub open spec fn output_text(r: Result<Seq<char>, Seq<char>>) -> Seq<char> {
    match r {
        Ok(s) => s,
        Err(e) => "Err: "@ + e,
    }
}

/// The history as shown: each entry as `> ` and the command on one line and
/// the output on the next.
pub open spec fn history_text(h: Seq<(Seq<char>, Seq<char>)>) -> Seq<char>
    decreases h.len(),
{
    if h.len() == 0 {
        Seq::<char>::empty()
    } else {
        history_text(h.drop_last()) + "> "@ + h.last().0 + "\n"@ + h.last().1 + "\n"@
    }
}

/// The last at most `k` entries of a history.
pub open spec fn last_entries(h: Seq<(Seq<char>, Seq<char>)>, k: nat) -> Seq<(Seq<char>, Seq<char>)> {
    if h.len() > k {
        h.skip(h.len() - k)
    } else {
        h
    }
}

/// A run of characters with no white space is one word.
proof fn lemma_words_single(w: Seq<char>)
    requires
        w.len() > 0,
        forall|i: int| 0 <= i < w.len() ==> !is_whitespace_char(#[trigger] w[i]),
    ensures
        words(w) == seq![w],
    decreases w.len(),
{
    let t = w.drop_last();
    if t.len() == 0 {
        assert(words(t) == Seq::<Seq<char>>::empty());
        assert(w =~= seq![w.last()]);
    } else {
        lemma_words_single(t);
        assert(!is_whitespace_char(t.last()));
        assert(t.push(w.last()) =~= w);
    }
}

/// Text joined by a space has the words of both sides.
proof fn lemma_words_space_concat(a: Seq<char>, b: Seq<char>)
    ensures
        words(a.push(' ') + b) == words(a) + words(b),
    decreases b.len(),
{
    let x = a.push(' ') + b;
    if b.len() == 0 {
        assert(x =~= a.push(' '));
        assert(x.drop_last() =~= a);
        assert(words(b) == Seq::<Seq<char>>::empty());
        assert(words(a) + words(b) =~= words(a));
    } else {
        let bp = b.drop_last();
        let c = b.last();
        lemma_words_space_concat(a, bp);
        assert(x.drop_last() =~= a.push(' ') + bp);
        assert(x.last() == c);
        let wa = words(a);
        let wb = words(bp);
        if is_whitespace_char(c) {
        } else if bp.len() > 0 && !is_whitespace_char(bp.last()) {
            assert(x.drop_last().last() == bp.last());
            lemma_words_open(bp);
            assert((wa + wb).update((wa + wb).len() - 1, (wa + wb).last().push(c)) =~= wa + wb.update(
                wb.len() - 1,
                wb.last().push(c),
            ));
        } else {
            if bp.len() == 0 {
                assert(x.drop_last().last() == ' ');
            } else {
                assert(x.drop_last().last() == bp.last());
            }
            assert((wa + wb).push(seq![c]) =~= wa + wb.push(seq![c]));
        }
    }
}

/// A command whose words are `add_child`, a name and arguments asks to
/// add a child of that name with those arguments.
proof fn lemma_add_child_command(cmd: Seq<char>, name: Seq<char>, rest: Seq<Seq<char>>)
    requires
        words(cmd) == seq!["add_child"@, name] + rest,
    ensures
        command_spec(cmd, false) == (CommandView::AddChild(Some(name), rest), None::<Seq<char>>),
{
    reveal_strlit("add_child");
    reveal_strlit("addition");
    let ws = words(cmd);
    assert(ws[0] == "add_child"@);
    assert(ws.skip(1)[0] == name);
    assert(ws.skip(1).skip(1) =~= rest);
}

/// The fixed commands of `test`: `image` opens the image viewer on the
/// sample picture, `wl` a Wayland app, `editor` the code editor and
/// `text_editor` the text editor on the sample file, and `char` the
/// character render test; none sets a title.
pub proof fn lemma_test_commands(c: Seq<char>)
    requires
        words(c).len() >= 2,
        words(c)[0] == "test"@,
    ensures
        words(c)[1] == "image"@ ==> command_spec(c, true) == (
            CommandView::AddChild(Some("image_viewer"@), seq!["examples/sonamu.jpg"@]),
            None::<Seq<char>>,
        ),
        words(c)[1] == "wl"@ ==> command_spec(c, true) == (
            CommandView::AddChild(Some("wl_app"@), Seq::<Seq<char>>::empty()),
            None::<Seq<char>>,
        ),
        words(c)[1] == "editor"@ ==> command_spec(c, true) == (
            CommandView::AddChild(Some("code_editor"@), seq!["examples/root-project/file_to_edit.txt"@]),
            None::<Seq<char>>,
        ),
        words(c)[1] == "text_editor"@ ==> command_spec(c, true) == (
            CommandView::AddChild(Some("text_editor"@), seq!["examples/root-project/file_to_edit.txt"@]),
            None::<Seq<char>>,
        ),
        words(c)[1] == "char"@ ==> command_spec(c, true) == (
            CommandView::AddChild(Some("char_render_test"@), Seq::<Seq<char>>::empty()),
            None::<Seq<char>>,
        ),
{
    reveal_strlit("test");
    reveal_strlit("addition");
    reveal_strlit("add_child");
    reveal_strlit("set_title");
    reveal_strlit("image");
    reveal_strlit("wl");
    reveal_strlit("editor");
    reveal_strlit("text_editor");
    reveal_strlit("char");
    reveal_strlit("image_viewer");
    reveal_strlit("wl_app");
    reveal_strlit("code_editor");
    reveal_strlit("char_render_test");
    reveal_strlit("examples/sonamu.jpg");
    reveal_strlit("examples/root-project/file_to_edit.txt");
    reveal_strlit("add_child image_viewer examples/sonamu.jpg");
    reveal_strlit("add_child wl_app");
    reveal_strlit("add_child code_editor examples/root-project/file_to_edit.txt");
    reveal_strlit("add_child text_editor examples/root-project/file_to_edit.txt");
    reveal_strlit("add_child char_render_test");
    let path = "examples/root-project/file_to_edit.txt"@;
    let ac = "add_child"@;
    lemma_words_single(ac);
    lemma_words_single(path);
    let n = words(c)[1];
    if n == "image"@ {
        let l = "add_child image_viewer examples/sonamu.jpg"@;
        let pic = "examples/sonamu.jpg"@;
        lemma_words_single("image_viewer"@);
        lemma_words_single(pic);
        assert(l =~= ac.push(' ') + ("image_viewer"@.push(' ') + pic));
        lemma_words_space_concat("image_viewer"@, pic);
        lemma_words_space_concat(ac, "image_viewer"@.push(' ') + pic);
        assert(words(l) =~= seq![ac, "image_viewer"@] + seq![pic]);
        lemma_add_child_command(l, "image_viewer"@, seq![pic]);
    } else if n == "wl"@ {
        let l = "add_child wl_app"@;
        lemma_words_single("wl_app"@);
        assert(l =~= ac.push(' ') + "wl_app"@);
        lemma_words_space_concat(ac, "wl_app"@);
        assert(words(l) =~= seq![ac, "wl_app"@] + Seq::<Seq<char>>::empty());
        lemma_add_child_command(l, "wl_app"@, Seq::<Seq<char>>::empty());
    } else if n == "editor"@ {
        let l = "add_child code_editor examples/root-project/file_to_edit.txt"@;
        lemma_words_single("code_editor"@);
        assert(l =~= ac.push(' ') + ("code_editor"@.push(' ') + path));
        lemma_words_space_concat("code_editor"@, path);
        lemma_words_space_concat(ac, "code_editor"@.push(' ') + path);
        assert(words(l) =~= seq![ac, "code_editor"@] + seq![path]);
        lemma_add_child_command(l, "code_editor"@, seq![path]);
    } else if n == "text_editor"@ {
        let l = "add_child text_editor examples/root-project/file_to_edit.txt"@;
        lemma_words_single("text_editor"@);
        assert(l =~= ac.push(' ') + ("text_editor"@.push(' ') + path));
        lemma_words_space_concat("text_editor"@, path);
        lemma_words_space_concat(ac, "text_editor"@.push(' ') + path);
        assert(words(l) =~= seq![ac, "text_editor"@] + seq![path]);
        lemma_add_child_command(l, "text_editor"@, seq![path]);
    } else if n == "char"@ {
        let l = "add_child char_render_test"@;
        lemma_words_single("char_render_test"@);
        assert(l =~= ac.push(' ') + "char_render_test"@);
        lemma_words_space_concat(ac, "char_render_test"@);
        assert(words(l) =~= seq![ac, "char_render_test"@] + Seq::<Seq<char>>::empty());
        lemma_add_child_command(l, "char_render_test"@, Seq::<Seq<char>>::empty());
    }
}

/// Why an `add_child` command with an applet name failed.
#[derive(Debug, Clone, Copy, PartialEq, Eq, Structural)]
pub enum AddChildError {
    /// The named kind of applet cannot be made from the arguments.
    CannotCreate,
    /// No kind of applet has that name.
    UnknownApp,
}

/// How an `add_child` command ends, once the node holding the hub has
/// tried to add the child: with no name, a command hub was added; with a
/// name, `spawned` tells whether the kind is known (`Some`) and whether it
/// could be made from the arguments.
pub open spec fn add_child_result_spec(named: bool, spawned: Option<bool>) -> Result<Seq<char>, AddChildError> {
    if !named {
        Ok("Unspecified child defaulting to command_hub."@)
    } else {
        match spawned {
            Some(true) => Ok("Great success!"@),
            Some(false) => Err(AddChildError::CannotCreate),
            None => Err(AddChildError::UnknownApp),
        }
    }
}

/// The output of an `add_child` command (see `add_child_result_spec`).
pub fn add_child_result(named: bool, spawned: Option<bool>) -> (r: Result<String, AddChildError>)
    ensures
        match (r, add_child_result_spec(named, spawned)) {
            (Ok(s), Ok(t)) => s@ == t,
            (Err(e), Err(f)) => e == f,
            _ => false,
        },
{
    if !named {
        let mut s = String::new();
        push_str(&mut s, "Unspecified child defaulting to command_hub.");
        Ok(s)
    } else {
        match spawned {
            Some(true) => {
                let mut s = String::new();
                push_str(&mut s, "Great success!");
                Ok(s)
            },
            Some(false) => Err(AddChildError::CannotCreate),
            None => Err(AddChildError::UnknownApp),
        }
    }
}

/// What the command hub asks of the code around it after an event.
#[derive(Debug)]
pub enum CommandHubAction {
    /// A standard keybind was pressed; the hub itself did nothing.
    Keybind(StandardKeybind),
    /// A command is waiting for outside work; its result is to be recorded
    /// with `record_output`, then the window redrawn.
    Pending(String, CommandOutcome),
    /// Redraw the window and the tree view.
    Redraw,
}

/// A prompt for commands, with the history of commands run and their output.
pub struct CommandHubApplet {
    title: String,
    /// The previous (command, output) pairs.
    history: Vec<(String, String)>,
    /// What is being typed.
    current_prompt: String,
}

impl CommandHubApplet {
    pub closed spec fn spec_title(self) -> Seq<char> {
        self.title@
    }

    pub closed spec fn spec_history(self) -> Seq<(Seq<char>, Seq<char>)> {
        self.history@.map_values(|p: (String, String)| (p.0@, p.1@))
    }

    pub closed spec fn spec_prompt(self) -> Seq<char> {
        self.current_prompt@
    }

    /// A hub titled `Command Hub` with no history and an empty prompt.
    pub fn new() -> (hub: CommandHubApplet)
        ensures
            hub.spec_title() == "Command Hub"@,
            hub.spec_history() == Seq::<(Seq<char>, Seq<char>)>::empty(),
            hub.spec_prompt() == Seq::<char>::empty(),
    {
        let mut title = String::new();
        push_str(&mut title, "Command Hub");
        let hub = CommandHubApplet { title, history: Vec::new(), current_prompt: String::new() };
        assert(hub.spec_history() =~= Seq::<(Seq<char>, Seq<char>)>::empty());
        hub
    }

    /// Runs a command, as `command_spec` says; `set_title` changes the title.
    pub fn execute_command(&mut self, command: &str) -> (outcome: CommandOutcome)
        ensures
            outcome_view(outcome) == command_spec(command@, true).0,
            final(self).spec_title() == match command_spec(command@, true).1 {
                Some(t) => t,
                None => old(self).spec_title(),
            },
            final(self).spec_history() == old(self).spec_history(),
            final(self).spec_prompt() == old(self).spec_prompt(),
    {
        let (outcome, new_title) = run_command(command, true);
        if let Some(t) = new_title {
            self.title = t;
        }
        outcome
    }

    /// Records a command and its result in the history.
    pub fn record_output(&mut self, command: String, output: Result<String, String>)
        ensures
            final(self).spec_history() == old(self).spec_history().push(
                (
                    command@,
                    output_text(
                        match output {
                            Ok(s) => Ok(s@),
                            Err(e) => Err(e@),
                        },
                    ),
                ),
            ),
            final(self).spec_title() == old(self).spec_title(),
            final(self).spec_prompt() == old(self).spec_prompt(),
    {
        let text = match output {
            Ok(ok) => ok,
            Err(err) => {
                let mut t = String::new();
                push_str(&mut t, "Err: ");
                push_str(&mut t, err.as_str());
                t
            },
        };
        let ghost prev = self.history@;
        self.history.push((command, text));
        proof {
            assert(self.spec_history() =~= old(self).spec_history().push((command@, text@)));
        }
    }

    /// Runs the typed command and clears the prompt. A finished command is
    /// recorded; one that needs outside work is handed back with the command.
    fn handle_enter(&mut self) -> (pending: Option<(String, CommandOutcome)>)
        ensures
            final(self).spec_prompt() == Seq::<char>::empty(),
            final(self).spec_title() == match command_spec(old(self).spec_prompt(), true).1 {
                Some(t) => t,
                None => old(self).spec_title(),
            },
            match command_spec(old(self).spec_prompt(), true).0 {
                CommandView::Finished(r) => pending is None && final(self).spec_history()
                    == old(self).spec_history().push((old(self).spec_prompt(), output_text(r))),
                v => pending matches Some(p) && p.0@ == old(self).spec_prompt() && outcome_view(p.1) == v
                    && final(self).spec_history() == old(self).spec_history(),
            },
    {
        let command = self.current_prompt.clone();
        self.current_prompt = String::new();
        let outcome = self.execute_command(command.as_str());
        match outcome {
            CommandOutcome::Finished(result) => {
                self.record_output(command, result);
                None
            },
            other => Some((command, other)),
        }
    }

    /// Handles an input event: standard keybinds are reported; Enter runs
    /// the typed command, Backspace deletes the last typed character, and a
    /// character key types its character.
    pub fn handle_ui_event(&mut self, ui_event: UIEvent) -> (action: CommandHubAction)
        ensures
            standard_keybind_spec(ui_event) matches Some(k) ==> action matches CommandHubAction::Keybind(a) && a == k
                && final(self).spec_prompt() == old(self).spec_prompt() && final(self).spec_history()
                == old(self).spec_history() && final(self).spec_title() == old(self).spec_title(),
            standard_keybind_spec(ui_event) is None ==> match ui_event {
                UIEvent::KeyPress(Key::Enter, _) => final(self).spec_prompt() == Seq::<char>::empty()
                    && final(self).spec_title() == match command_spec(old(self).spec_prompt(), true).1 {
                    Some(t) => t,
                    None => old(self).spec_title(),
                } && match command_spec(
                    old(self).spec_prompt(),
                    true,
                ).0 {
                    CommandView::Finished(r) => action is Redraw && final(self).spec_history()
                        == old(self).spec_history().push((old(self).spec_prompt(), output_text(r))),
                    v => action matches CommandHubAction::Pending(c, o) && c@ == old(self).spec_prompt()
                        && outcome_view(o) == v && final(self).spec_history() == old(self).spec_history(),
                },
                UIEvent::KeyPress(Key::Backspace, _) => action is Redraw && final(self).spec_prompt() == (if old(
                    self,
                ).spec_prompt().len() > 0 {
                    old(self).spec_prompt().drop_last()
                } else {
                    old(self).spec_prompt()
                }) && final(self).spec_history() == old(self).spec_history() && final(self).spec_title() == old(
                    self,
                ).spec_title(),
                UIEvent::KeyPress(Key::Char(c), _) => action is Redraw && final(self).spec_prompt() == old(
                    self,
                ).spec_prompt().push(c) && final(self).spec_history() == old(self).spec_history()
                    && final(self).spec_title() == old(self).spec_title(),
                _ => action is Redraw && final(self).spec_prompt() == old(self).spec_prompt()
                    && final(self).spec_history() == old(self).spec_history() && final(self).spec_title() == old(
                    self,
                ).spec_title(),
            },
    {
        if let Some(keybind) = handle_standard_keybinds(&ui_event) {
            return CommandHubAction::Keybind(keybind);
        }
        if let UIEvent::KeyPress(key, _) = ui_event {
            match key {
                Key::Enter => {
                    if let Some((command, outcome)) = self.handle_enter() {
                        return CommandHubAction::Pending(command, outcome);
                    }
                },
                Key::Backspace => {
                    self.current_prompt.pop();
                },
                Key::Char(key_char) => {
                    self.current_prompt.push(key_char);
                },
                _ => {},
            }
        }
        CommandHubAction::Redraw
    }

    /// The text the window shows: the last ten history entries, each as
    /// `> ` and the command on one line and its output on the next, then
    /// `> ` and what is being typed.
    pub fn display_text(&self) -> (text: String)
        ensures
            text@ == history_text(last_entries(self.spec_history(), 10)) + "> "@ + self.spec_prompt() + "\n"@,
    {
        let n = self.history.len();
        let first = if n > 10 { n - 10 } else { 0 };
        let ghost h = self.spec_history();
        let ghost shown = last_entries(h, 10);
        let mut text = String::new();
        proof {
            assert(shown =~= h.subrange(first as int, n as int));
            assert(h.subrange(first as int, first as int) =~= Seq::<(Seq<char>, Seq<char>)>::empty());
        }
        for i in first..n
            invariant
                n == self.history@.len(),
                first <= n,
                h == self.spec_history(),
                text@ == history_text(h.subrange(first as int, i as int)),
        {
            let (prompt, output) = &self.history[i];
            push_str(&mut text, "> ");
            push_str(&mut text, prompt.as_str());
            push_str(&mut text, "\n");
            push_str(&mut text, output.as_str());
            push_str(&mut text, "\n");
            proof {
                let sub = h.subrange(first as int, i + 1);
                assert(sub.drop_last() =~= h.subrange(first as int, i as int));
                assert(sub.last() == h[i as int]);
                assert(h[i as int] == (prompt@, output@));
            }
        }
        push_str(&mut text, "> ");
        push_str(&mut text, self.current_prompt.as_str());
        push_str(&mut text, "\n");
        text
    }

    /// The label in the tree view: the title.
    pub fn get_treeview(&self) -> (label: String)
        ensures
            label@ == self.spec_title(),
    {
        self.title.clone()
    }
}

} // verus!
