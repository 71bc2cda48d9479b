use singularity_toolkit::color::Color;
use singularity_toolkit::focus::NodularEvent;
use singularity_toolkit::small_applets::{MathGameApplet, OneCharRenderTestApplet};
use singularity_toolkit::text_editor::{TextEditorAction, TextEditorApplet};
use singularity_toolkit::time_manager::{
    TimeManager, TimeManagerAction, TimingMode, BUTTON_COMPONENT, NOTES_COMPONENT, TITLE_COMPONENT,
};
use singularity_toolkit::timing::Block;
use singularity_toolkit::ui_event::{Key, KeyModifiers, UIEvent};

#[test]
fn text_editor_saves_and_edits() {
    let mut e = TextEditorApplet::new("ab".to_string());
    let a = e.handle_ui_event(UIEvent::KeyPress(Key::Char('s'), KeyModifiers::ctrl()));
    assert_eq!(a, TextEditorAction::Save);
    assert_eq!(e.textbox().get_text_as_string(), "ab");
    let a = e.handle_ui_event(UIEvent::KeyPress(Key::Char('s'), KeyModifiers::none()));
    assert_eq!(a, TextEditorAction::Redraw);
    assert_eq!(e.textbox().get_text_as_string(), "sab");
    let grid = e.get_window();
    assert!(grid[0][1].bg == Color::light_yellow());
    e.handle_nodular_event(NodularEvent::Focused(false));
    let grid = e.get_window();
    assert!(grid[0][1].bg == Color::medium_gray());
    assert!(grid[0][1].fg == Color::black());
}

#[test]
fn one_char_applet_shows_last_char() {
    let mut a = OneCharRenderTestApplet::new();
    assert_eq!(a.get_treeview(), " ");
    assert!(a.handle_ui_event(UIEvent::KeyPress(Key::Char('w'), KeyModifiers::shift())));
    assert_eq!(a.get_treeview(), "w");
    assert!(!a.handle_ui_event(UIEvent::KeyPress(Key::ArrowKeyUp, KeyModifiers::none())));
    assert_eq!(a.0, 'w');
    MathGameApplet::handle_ui_event(UIEvent::MousePress([[0, 0], [1, 1]]));
    let game = MathGameApplet { terms: [2, 3] };
    assert_eq!(game.terms, [2, 3]);
}

#[test]
fn time_manager_logs_blocks() {
    let old = Block { start_time: 0, end_time: 5, title: "old".to_string(), notes: String::new() };
    let mut tm = TimeManager::new(vec![old]);
    assert_eq!(tm.title_editor().get_text_as_string(), "Block 1");
    assert_eq!(tm.mode(), TimingMode::Idle);
    tm.toggle_timing(100);
    assert_eq!(tm.mode(), TimingMode::Timing { start_time: 100 });
    tm.toggle_timing(160);
    assert_eq!(tm.mode(), TimingMode::Idle);
    assert_eq!(tm.blocks().len(), 2);
    let b = &tm.blocks()[1];
    assert_eq!((b.start_time, b.end_time, b.duration()), (100, 160, 60));
    assert_eq!(b.title, "Block 1");
    assert_eq!(b.notes, "");
    assert_eq!(tm.title_editor().get_text_as_string(), "Block 2");
}

#[test]
fn time_manager_routes_events_to_focused_editor() {
    let mut tm = TimeManager::new(Vec::new());
    assert_eq!(tm.focused_component(), TITLE_COMPONENT);
    // typing goes to the title
    tm.handle_ui_event(UIEvent::KeyPress(Key::Char('!'), KeyModifiers::none()), None, false, 1);
    assert_eq!(tm.title_editor().get_text_as_string(), "!Block 0");
    // a click on the notes moves the focus there
    tm.handle_ui_event(UIEvent::MousePress([[0, 0], [1, 1]]), Some(NOTES_COMPONENT), false, 2);
    assert_eq!(tm.focused_component(), NOTES_COMPONENT);
    tm.handle_ui_event(UIEvent::KeyPress(Key::Char('n'), KeyModifiers::none()), None, false, 3);
    assert_eq!(tm.body_editor().get_text_as_string(), "n");
    // a click on nothing changes nothing
    tm.handle_ui_event(UIEvent::MousePress([[0, 0], [1, 1]]), None, false, 4);
    assert_eq!(tm.focused_component(), NOTES_COMPONENT);
    // Ctrl+S asks for a save and changes nothing; other Ctrl keys do nothing
    let save = tm.handle_ui_event(UIEvent::KeyPress(Key::Char('s'), KeyModifiers::ctrl()), None, true, 5);
    assert_eq!(save, TimeManagerAction::Save);
    assert_eq!(tm.mode(), TimingMode::Idle);
    let other = tm.handle_ui_event(UIEvent::KeyPress(Key::Char('x'), KeyModifiers::ctrl()), None, false, 5);
    assert_eq!(other, TimeManagerAction::Redraw);
    // clicking the button starts, and clicking again logs the block
    tm.handle_ui_event(UIEvent::MousePress([[0, 0], [1, 1]]), Some(BUTTON_COMPONENT), true, 10);
    assert_eq!(tm.mode(), TimingMode::Timing { start_time: 10 });
    assert_eq!(tm.focused_component(), BUTTON_COMPONENT);
    tm.handle_ui_event(UIEvent::MousePress([[0, 0], [1, 1]]), Some(BUTTON_COMPONENT), true, 25);
    assert_eq!(tm.blocks().len(), 1);
    assert_eq!(tm.blocks()[0].title, "!Block 0");
    assert_eq!(tm.blocks()[0].notes, "n");
    assert_eq!(tm.blocks()[0].duration(), 15);
    assert_eq!(tm.title_editor().get_text_as_string(), "Block 1");
}

#[test]
fn one_char_applet_window_shows_the_character() {
    let mut a = OneCharRenderTestApplet::new();
    a.handle_ui_event(UIEvent::KeyPress(Key::Char('é'), KeyModifiers::none()));
    let g = a.get_window();
    assert_eq!((g.width(), g.height()), (1, 1));
    assert_eq!(g.get_char(0, 0).character, 'é' as u32);
    assert_eq!(g.get_char(0, 0).fg, Color::light_yellow());
    let mut b = OneCharRenderTestApplet::new();
    b.handle_ui_event(UIEvent::KeyPress(Key::Enter, KeyModifiers::none()));
    assert_eq!(b.0, '\n');
    let g = b.get_window();
    assert_eq!((g.width(), g.height()), (0, 1));
}
