use singularity_toolkit::char_grid::{CharCellStyle, CharGrid, InternalCharCell};
use singularity_toolkit::color::Color;

fn row_text(g: &CharGrid, row: usize) -> String {
    (0..g.width()).map(|col| char::from_u32(g.get_char(row, col).character).unwrap()).collect()
}

#[test]
fn monostyled_grid_fits_the_text() {
    let g = CharGrid::new_monostyled("ab\ncde", Color::white(), Color::black(), CharCellStyle::cursor_line());
    assert_eq!((g.width(), g.height()), (3, 2));
    assert_eq!(row_text(&g, 0), "ab ");
    assert_eq!(row_text(&g, 1), "cde");
    assert_eq!(
        g.get_char(0, 2),
        InternalCharCell { character: ' ' as u32, fg: Color::white(), bg: Color::black(), style: CharCellStyle(4) }
    );
    assert_eq!(g.content().len(), 6);
}

#[test]
fn empty_text_gives_empty_grid() {
    let g = CharGrid::new_monostyled("", Color::white(), Color::black(), CharCellStyle::unstyled());
    assert_eq!((g.width(), g.height()), (0, 0));
    assert!(g.content().is_empty());
}

#[test]
fn width_counts_characters_and_final_line_feed_adds_no_row() {
    let g = CharGrid::from_text("é\nxy\n");
    assert_eq!((g.width(), g.height()), (2, 2));
    assert_eq!(row_text(&g, 0), "é ");
    assert_eq!(row_text(&g, 1), "xy");
    // one multi-byte character needs one column
    let g = CharGrid::from_text("é");
    assert_eq!((g.width(), g.height()), (1, 1));
    assert_eq!(row_text(&g, 0), "é");
    assert_eq!(g.get_char(0, 0).fg, Color::light_yellow());
    assert_eq!(g.get_char(0, 0).bg, Color::transparent());
}

#[test]
fn carriage_return_runs_into_the_next_row() {
    // the carriage return lands on the next row and is overwritten there
    let g = CharGrid::from_text("ab\r\ncd");
    assert_eq!((g.width(), g.height()), (2, 2));
    assert_eq!(row_text(&g, 0), "ab");
    assert_eq!(row_text(&g, 1), "cd");
    // an empty next row keeps it
    let g = CharGrid::from_text("ab\r\n\ncd");
    assert_eq!((g.width(), g.height()), (2, 3));
    assert_eq!(row_text(&g, 1), "\r ");
    assert_eq!(row_text(&g, 2), "cd");
}
