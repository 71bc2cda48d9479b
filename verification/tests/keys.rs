use singularity_toolkit::char_grid::{inner_size_of_bordered, CharCellStyle, CharGrid, InternalCharCell};
use singularity_toolkit::color::Color;
use singularity_toolkit::focus::WorldTreeTraversalOperation;
use singularity_toolkit::standard_keybinds::{handle_standard_keybinds, StandardKeybind};
use singularity_toolkit::ui_event::{DisplayContainerSize, Key, KeyModifiers, KeyTrait, UIEvent};

#[test]
fn key_characters() {
    assert_eq!(Key::Enter.to_char(), Some('\n'));
    assert_eq!(Key::Backspace.to_char(), Some('\u{8}'));
    assert_eq!(Key::Char('x').to_char(), Some('x'));
    assert_eq!(Key::ArrowKeyUp.to_char(), None);
    assert_eq!(Key::Char('7').to_digit(), Some(7));
    assert_eq!(Key::Char('a').to_digit(), None);
    assert_eq!(Key::Char('ß').to_alphabet(), None);
    assert_eq!(Key::Char('Z').to_alphabet(), Some('Z'));
    assert_eq!(Key::Escape.to_alphabet(), None);
}

#[test]
fn modifiers_combine() {
    assert_eq!(KeyModifiers::ctrl().both(KeyModifiers::shift()), KeyModifiers::ctrl_shift());
    assert_eq!(KeyModifiers::ctrl() | KeyModifiers::shift(), KeyModifiers::ctrl_shift());
    assert_eq!(KeyModifiers::ctrl_shift() & KeyModifiers::shift(), KeyModifiers::shift());
    assert_eq!(KeyModifiers::alt().both(KeyModifiers::none()), KeyModifiers::alt());
    assert_eq!(KeyModifiers::logo() & KeyModifiers::alt(), KeyModifiers::none());
}

#[test]
fn standard_keybinds() {
    let ev = |k: Key, m: KeyModifiers| handle_standard_keybinds(&UIEvent::KeyPress(k, m));
    assert_eq!(ev(Key::Char('Q'), KeyModifiers::ctrl_shift()), Some(StandardKeybind::Close));
    assert_eq!(ev(Key::Char('+'), KeyModifiers::ctrl_shift()), Some(StandardKeybind::AddCommandHubChild));
    assert_eq!(
        ev(Key::Char('q'), KeyModifiers::alt()),
        Some(StandardKeybind::ChangeFocus(WorldTreeTraversalOperation::PrevLayer))
    );
    assert_eq!(ev(Key::Char('q'), KeyModifiers::ctrl_shift()), None);
    assert_eq!(ev(Key::Char('Q'), KeyModifiers::ctrl()), None);
    assert_eq!(handle_standard_keybinds(&UIEvent::MousePress([[1, 2], [3, 4]])), None);
}

#[test]
fn colors_pack() {
    let c = Color::from_rgba(0x11, 0x22, 0x33, 0x44);
    assert_eq!(c.to_argb_u32(), 0x44112233);
    assert_eq!(c.to_rgba_u32(), 0x11223344);
    assert_eq!(Color::orange().to_argb_u32(), 0xFFFFA500);
    assert_eq!(Color::transparent().to_rgba_u32(), 0);
}

#[test]
fn styles_and_cells() {
    let s = CharCellStyle::unstyled().add(CharCellStyle::cursor_line());
    assert_eq!(s, CharCellStyle(4));
    assert_eq!(s.add(CharCellStyle(1)), CharCellStyle(5));
    let mut cell = InternalCharCell::default();
    assert_eq!(cell.character, ' ' as u32);
    assert!(cell.fg == Color::white());
    cell.set_char('k');
    cell.set_bg(Color::red());
    cell.add_style(CharCellStyle(2));
    cell.add_style(CharCellStyle(4));
    assert_eq!(cell.character, 'k' as u32);
    assert!(cell.bg == Color::red());
    assert_eq!(cell.style, CharCellStyle(6));
    cell.set_style(CharCellStyle(1));
    assert_eq!(cell.style, CharCellStyle(1));
}

#[test]
fn grid_sizes_and_cells() {
    assert_eq!(CharGrid::largest_fittable_size(DisplayContainerSize::new(100, 100)), (4, 2));
    let mut g = CharGrid::new_empty(3, 2);
    assert_eq!(g.content().len(), 6);
    g.set_char('z', 1, 2);
    g.set_fg(Color::cyan(), 1, 2);
    assert_eq!(g.content()[5].character, 'z' as u32);
    assert!(g.get_char(1, 2).fg == Color::cyan());
    let size = g.display_size();
    assert_eq!((size.width, size.height), (72, 92));
    let inner = inner_size_of_bordered(DisplayContainerSize::new(1, 10));
    assert_eq!((inner.width, inner.height), (0, 8));
}
