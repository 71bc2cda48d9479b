use singularity_toolkit::color::Color;
use singularity_toolkit::text_box::{CharCell, TextBox};
use singularity_toolkit::ui_event::{Key, KeyModifiers, UIEvent};

fn press(tb: &mut TextBox, key: Key) {
    tb.handle_event(UIEvent::KeyPress(key, KeyModifiers::none()));
}

fn chars(grid: &Vec<Vec<CharCell>>) -> Vec<String> {
    grid.iter().map(|line| line.iter().map(|c| c.character).collect()).collect()
}

/// The cursor is where the grid has the light yellow background.
fn cursor_of(grid: &Vec<Vec<CharCell>>) -> (usize, usize) {
    for (row, line) in grid.iter().enumerate() {
        for (col, cell) in line.iter().enumerate() {
            if cell.bg == Color::light_yellow() {
                return (col, row);
            }
        }
    }
    panic!("no cursor");
}

#[test]
fn new_splits_lines_and_round_trips() {
    let tb = TextBox::new("ab\n\ncd".to_string());
    assert_eq!(tb.get_text_as_string(), "ab\n\ncd");
    let grid = tb.render_grid();
    assert_eq!(chars(&grid), vec!["ab ".to_string(), "".to_string(), "cd".to_string()]);
    assert_eq!(cursor_of(&grid), (0, 0));
}

#[test]
fn empty_text_is_one_empty_line() {
    let tb = TextBox::default();
    assert_eq!(tb.get_text_as_string(), "");
    assert_eq!(chars(&tb.render_grid()), vec![" ".to_string()]);
}

#[test]
fn typing_inserts_at_cursor() {
    let mut tb = TextBox::new("ac".to_string());
    press(&mut tb, Key::ArrowKeyRight);
    press(&mut tb, Key::Char('b'));
    assert_eq!(tb.get_text_as_string(), "abc");
    assert_eq!(cursor_of(&tb.render_grid()), (2, 0));
    tb.handle_event(UIEvent::KeyPress(Key::Char('X'), KeyModifiers::shift()));
    assert_eq!(tb.get_text_as_string(), "abXc");
}

#[test]
fn control_characters_and_ctrl_are_not_typed() {
    let mut tb = TextBox::new("a".to_string());
    press(&mut tb, Key::Char('\t'));
    tb.handle_event(UIEvent::KeyPress(Key::Char('z'), KeyModifiers::ctrl()));
    press(&mut tb, Key::Char('é'));
    assert_eq!(tb.get_text_as_string(), "a");
    press(&mut tb, Key::Char(' '));
    assert_eq!(tb.get_text_as_string(), " a");
}

#[test]
fn type_then_backspace_restores() {
    let mut tb = TextBox::new("hello\nworld".to_string());
    press(&mut tb, Key::ArrowKeyDown);
    press(&mut tb, Key::ArrowKeyRight);
    press(&mut tb, Key::ArrowKeyRight);
    let before = tb.render_grid();
    press(&mut tb, Key::Char('q'));
    assert_eq!(tb.get_text_as_string(), "hello\nwoqrld");
    press(&mut tb, Key::Backspace);
    assert_eq!(tb.get_text_as_string(), "hello\nworld");
    assert!(tb.render_grid() == before);
}

#[test]
fn enter_splits_and_backspace_joins() {
    let mut tb = TextBox::new("hello".to_string());
    press(&mut tb, Key::ArrowKeyRight);
    press(&mut tb, Key::ArrowKeyRight);
    press(&mut tb, Key::Enter);
    assert_eq!(tb.get_text_as_string(), "he\nllo");
    assert_eq!(cursor_of(&tb.render_grid()), (0, 1));
    press(&mut tb, Key::Backspace);
    assert_eq!(tb.get_text_as_string(), "hello");
    assert_eq!(cursor_of(&tb.render_grid()), (2, 0));
}

#[test]
fn backspace_at_start_does_nothing() {
    let mut tb = TextBox::new("x\ny".to_string());
    press(&mut tb, Key::Backspace);
    assert_eq!(tb.get_text_as_string(), "x\ny");
    assert_eq!(cursor_of(&tb.render_grid()), (0, 0));
}

#[test]
fn cursor_is_clamped_to_text() {
    let mut tb = TextBox::new("long line\nab".to_string());
    for _ in 0..20 {
        press(&mut tb, Key::ArrowKeyRight);
    }
    assert_eq!(cursor_of(&tb.render_grid()), (9, 0));
    press(&mut tb, Key::ArrowKeyDown);
    assert_eq!(cursor_of(&tb.render_grid()), (2, 1));
    press(&mut tb, Key::ArrowKeyDown);
    assert_eq!(cursor_of(&tb.render_grid()), (2, 1));
    press(&mut tb, Key::ArrowKeyUp);
    press(&mut tb, Key::ArrowKeyUp);
    assert_eq!(cursor_of(&tb.render_grid()), (2, 0));
    press(&mut tb, Key::ArrowKeyLeft);
    press(&mut tb, Key::ArrowKeyLeft);
    press(&mut tb, Key::ArrowKeyLeft);
    assert_eq!(cursor_of(&tb.render_grid()), (0, 0));
}

#[test]
fn render_with_color_marks_cursor_cell() {
    let tb = TextBox::new("hi".to_string());
    let grid = tb.render_grid_with_color((Color::red(), Color::cyan()));
    assert_eq!(grid[0][0].character, 'h');
    assert!(grid[0][0].fg == Color::red());
    assert!(grid[0][0].bg == Color::cyan());
    assert!(grid[0][1] == CharCell::new('i'));
    assert!(grid[0][2] == CharCell::new(' '));
}

#[test]
fn from_string_runs_lines_together() {
    let tb = TextBox::from_string("ab\r\ncd\nef\n".to_string());
    assert_eq!(tb.get_text_as_string(), "abcdef");
    let tb = TextBox::from_string("a\rb".to_string());
    assert_eq!(tb.get_text_as_string(), "a\rb");
}

#[test]
fn new_cell_is_white_on_transparent() {
    let cell = CharCell::new('q');
    assert!(cell.fg == Color::white());
    assert!(cell.bg == Color::transparent());
}
