use singularity_toolkit::char_grid::{CharCellStyle, InternalCharCell};
use singularity_toolkit::code_editor::{CodeEditorAction, CodeEditorApplet, EditorMode, ViewOffset};
use singularity_toolkit::color::Color;
use singularity_toolkit::focus::{NodularEvent, WorldTreeTraversalOperation};
use singularity_toolkit::standard_keybinds::StandardKeybind;
use singularity_toolkit::ui_event::{DisplayContainerSize, Key, KeyModifiers, UIEvent};

fn key(editor: &mut CodeEditorApplet, k: Key) -> CodeEditorAction {
    editor.handle_ui_event(UIEvent::KeyPress(k, KeyModifiers::none()))
}

fn text(editor: &CodeEditorApplet) -> String {
    editor.buffer().to_string()
}

#[test]
fn insert_mode_typing_and_backspace() {
    let mut e = CodeEditorApplet::new("ac");
    assert_eq!(e.mode(), EditorMode::Normal);
    // in Normal mode characters are commands, not text
    key(&mut e, Key::Char('x'));
    assert_eq!(text(&e), "ac");
    key(&mut e, Key::Char('a'));
    assert_eq!(e.mode(), EditorMode::Insert);
    assert_eq!(e.cursor(), 1);
    key(&mut e, Key::Char('b'));
    assert_eq!(text(&e), "abc");
    assert_eq!(e.cursor(), 2);
    key(&mut e, Key::Backspace);
    assert_eq!(text(&e), "ac");
    assert_eq!(e.cursor(), 1);
    key(&mut e, Key::Enter);
    assert_eq!(text(&e), "a\nc");
    key(&mut e, Key::Escape);
    assert_eq!(e.mode(), EditorMode::Normal);
}

#[test]
fn backspace_at_start_changes_nothing() {
    let mut e = CodeEditorApplet::new("q");
    key(&mut e, Key::Char('i'));
    key(&mut e, Key::Backspace);
    assert_eq!(text(&e), "q");
    assert_eq!(e.cursor(), 0);
}

#[test]
fn arrows_move_within_text() {
    let mut e = CodeEditorApplet::new("abcd\nxy\nlonger");
    key(&mut e, Key::ArrowKeyLeft);
    assert_eq!(e.cursor(), 0);
    for _ in 0..3 {
        key(&mut e, Key::ArrowKeyRight);
    }
    assert_eq!(e.cursor(), 3);
    // down onto the short line: stops at the start of the next line
    key(&mut e, Key::ArrowKeyDown);
    assert_eq!(e.cursor(), 8);
    // up again: the cursor sits at column 0 of the last line, so column 0 of
    // the middle line
    key(&mut e, Key::ArrowKeyUp);
    assert_eq!(e.cursor(), 5);
    key(&mut e, Key::ArrowKeyRight);
    assert_eq!(e.cursor(), 6);
    // down: column 1 of the last line, and no further
    key(&mut e, Key::ArrowKeyDown);
    assert_eq!(e.cursor(), 9);
    key(&mut e, Key::ArrowKeyDown);
    assert_eq!(e.cursor(), 9);
    for _ in 0..20 {
        key(&mut e, Key::ArrowKeyRight);
    }
    assert_eq!(e.cursor(), 14);
    // up from past the end of the last line: capped at the line break
    key(&mut e, Key::ArrowKeyUp);
    assert_eq!(e.cursor(), 7);
}

#[test]
fn up_on_single_line_stays_before_end() {
    let mut e = CodeEditorApplet::new("abc");
    for _ in 0..3 {
        key(&mut e, Key::ArrowKeyRight);
    }
    assert_eq!(e.cursor(), 3);
    key(&mut e, Key::ArrowKeyUp);
    assert_eq!(e.cursor(), 2);
}

#[test]
fn save_and_paste_are_requested() {
    let mut e = CodeEditorApplet::new("x");
    let a = e.handle_ui_event(UIEvent::KeyPress(Key::Char('s'), KeyModifiers::ctrl()));
    assert_eq!(a, CodeEditorAction::Save);
    key(&mut e, Key::Char('i'));
    let a = e.handle_ui_event(UIEvent::KeyPress(Key::Char('v'), KeyModifiers::ctrl()));
    assert_eq!(a, CodeEditorAction::Paste);
    let a = e.handle_ui_event(UIEvent::KeyPress(Key::Char('V'), KeyModifiers::ctrl_shift()));
    assert_eq!(a, CodeEditorAction::Paste);
    e.paste("ab");
    assert_eq!(text(&e), "abx");
    assert_eq!(e.cursor(), 2);
}

#[test]
fn paste_moves_the_cursor_by_characters() {
    let mut e = CodeEditorApplet::new("ab");
    key(&mut e, Key::Char('i'));
    e.paste("é");
    assert_eq!(text(&e), "éab");
    assert_eq!(e.cursor(), 1);
    e.paste("日本");
    assert_eq!(text(&e), "é日本ab");
    assert_eq!(e.cursor(), 3);
}

#[test]
fn standard_keybinds_are_reported() {
    let mut e = CodeEditorApplet::new("x");
    let a = e.handle_ui_event(UIEvent::KeyPress(Key::Char('Q'), KeyModifiers::ctrl_shift()));
    assert_eq!(a, CodeEditorAction::Keybind(StandardKeybind::Close));
    let a = e.handle_ui_event(UIEvent::KeyPress(Key::Char('q'), KeyModifiers::alt()));
    assert_eq!(a, CodeEditorAction::Keybind(StandardKeybind::ChangeFocus(WorldTreeTraversalOperation::PrevLayer)));
    assert_eq!(text(&e), "x");
}

#[test]
fn view_follows_cursor() {
    let mut e = CodeEditorApplet::new("0\n1\n2\n3\n4\n5\n6\n7\n8\n9\n");
    // 100 px high: two rows of 46 px
    e.handle_ui_event(UIEvent::WindowResized(DisplayContainerSize::new(240, 100)));
    for _ in 0..5 {
        key(&mut e, Key::ArrowKeyDown);
    }
    assert_eq!(e.scroll(), 4);
    key(&mut e, Key::ArrowKeyUp);
    key(&mut e, Key::ArrowKeyUp);
    key(&mut e, Key::ArrowKeyUp);
    assert_eq!(e.scroll(), 2);
    key(&mut e, Key::PageDown);
    assert_eq!(e.scroll(), 3);
    key(&mut e, Key::PageUp);
    key(&mut e, Key::PageUp);
    assert_eq!(e.scroll(), 1);
}

#[test]
fn window_shows_lines_and_cursor() {
    let mut e = CodeEditorApplet::new("ab\ncd");
    let grid = e.get_window(DisplayContainerSize::new(24 * 3, 46 * 3));
    assert_eq!(grid.width(), 3);
    assert_eq!(grid.height(), 3);
    let ch = |r: usize, c: usize| char::from_u32(grid.get_char(r, c).character).unwrap();
    assert_eq!((ch(0, 0), ch(0, 1), ch(0, 2)), ('a', 'b', ' '));
    assert_eq!((ch(1, 0), ch(1, 1), ch(1, 2)), ('c', 'd', ' '));
    assert_eq!(ch(2, 0), ' ');
    let cursor = grid.get_char(0, 0);
    assert!(cursor.bg == Color::orange());
    assert!(cursor.fg == Color::transparent());
    e.handle_nodular_event(NodularEvent::Focused(false));
    let grid = e.get_window(DisplayContainerSize::new(24 * 3, 46 * 3));
    assert!(grid.get_char(0, 0).bg == Color::medium_gray());
    key(&mut e, Key::Char('i'));
    let grid = e.get_window(DisplayContainerSize::new(24 * 3, 46 * 3));
    assert_eq!(grid.get_char(0, 0).style, CharCellStyle::cursor_line());
    assert!(grid.get_char(0, 1) == {
        let mut c = InternalCharCell::default();
        c.set_char('b');
        c
    });
}

#[test]
fn view_offset_scroll_saturates() {
    let mut v = ViewOffset { scroll: 1, most_recent_num_rows: None };
    v.add_scroll(-5);
    assert_eq!(v.scroll, 0);
    v.add_scroll(isize::MAX);
    v.add_scroll(isize::MAX);
    v.add_scroll(isize::MAX);
    assert_eq!(v.scroll, usize::MAX);
    assert_eq!(ViewOffset { scroll: 7, most_recent_num_rows: None }.disp_row_to_line_idx(3), 10);
}

#[test]
fn clamp_to_cursor_keeps_line_visible() {
    let mut v = ViewOffset { scroll: 0, most_recent_num_rows: Some(3) };
    v.clamp_to_cursor(10);
    assert_eq!(v.scroll, 8);
    v.clamp_to_cursor(2);
    assert_eq!(v.scroll, 2);
    let mut v = ViewOffset { scroll: 5, most_recent_num_rows: None };
    v.clamp_to_cursor(7);
    assert_eq!(v.scroll, 5);
    v.clamp_to_cursor(1);
    assert_eq!(v.scroll, 1);
}

#[test]
fn editor_refuses_keys_it_cannot_handle() {
    let mut e = CodeEditorApplet::new("");
    // moving up in an empty buffer has nowhere to go
    assert!(!e.accepts_event(&UIEvent::KeyPress(Key::ArrowKeyUp, KeyModifiers::none())));
    assert!(e.accepts_event(&UIEvent::KeyPress(Key::ArrowKeyDown, KeyModifiers::none())));
    // a window too low for one row of text
    e.handle_ui_event(UIEvent::WindowResized(DisplayContainerSize { width: 100, height: 10 }));
    assert_eq!(e.num_rows(), Some(0));
    assert!(!e.accepts_event(&UIEvent::KeyPress(Key::ArrowKeyDown, KeyModifiers::none())));
    assert!(e.accepts_event(&UIEvent::KeyPress(Key::PageDown, KeyModifiers::none())));
    assert!(e.accepts_event(&UIEvent::KeyPress(Key::Char('s'), KeyModifiers::ctrl())));
    // standard keybinds are always reported
    assert!(e.accepts_event(&UIEvent::KeyPress(Key::Char('q'), KeyModifiers::alt())));
    e.handle_ui_event(UIEvent::WindowResized(DisplayContainerSize { width: 100, height: 100 }));
    assert_eq!(e.num_rows(), Some(2));
    assert!(e.accepts_event(&UIEvent::KeyPress(Key::ArrowKeyDown, KeyModifiers::none())));
}
