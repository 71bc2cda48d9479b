use singularity_toolkit::task_organizer::{set_mode, task_step, TaskAction, TaskMode};
use singularity_toolkit::ui_event::{DisplayContainerSize, Key, KeyModifiers, UIEvent};

fn press(k: Key, m: KeyModifiers) -> UIEvent {
    UIEvent::KeyPress(k, m)
}

#[test]
fn viewing_keys() {
    let v = TaskMode::Viewing;
    assert_eq!(task_step(v, false, press(Key::Char('+'), KeyModifiers::shift())), (v, TaskAction::AddTask));
    assert_eq!(task_step(v, true, press(Key::Char('s'), KeyModifiers::ctrl())), (v, TaskAction::Save));
    // entering Editing focuses the root task when none is in focus
    assert_eq!(task_step(v, false, press(Key::Enter, KeyModifiers::none())), (TaskMode::Editing, TaskAction::FocusRoot));
    assert_eq!(task_step(v, true, press(Key::Enter, KeyModifiers::none())), (TaskMode::Editing, TaskAction::Nothing));
    assert_eq!(task_step(v, true, press(Key::Char('d'), KeyModifiers::none())), (v, TaskAction::Traverse('d')));
    assert_eq!(task_step(v, true, press(Key::ArrowKeyUp, KeyModifiers::none())), (v, TaskAction::Nothing));
    assert_eq!(task_step(v, true, press(Key::Char('d'), KeyModifiers::alt())), (v, TaskAction::Nothing));
    assert_eq!(task_step(v, true, UIEvent::MousePress([[1, 2], [3, 4]])), (v, TaskAction::Forward));
    assert_eq!(
        task_step(v, true, UIEvent::WindowResized(DisplayContainerSize { width: 1, height: 1 })),
        (v, TaskAction::Nothing)
    );
}

#[test]
fn editing_keys() {
    let e = TaskMode::Editing;
    assert_eq!(task_step(e, true, press(Key::Char('s'), KeyModifiers::ctrl())), (e, TaskAction::Save));
    // leaving Editing stores the task's edits
    assert_eq!(
        task_step(e, true, press(Key::Escape, KeyModifiers::none())),
        (TaskMode::Viewing, TaskAction::StoreFocused)
    );
    assert_eq!(task_step(e, true, press(Key::Char('x'), KeyModifiers::none())), (e, TaskAction::Forward));
    assert_eq!(
        task_step(e, true, UIEvent::WindowResized(DisplayContainerSize { width: 1, height: 1 })),
        (e, TaskAction::Forward)
    );
    assert_eq!(set_mode(false, TaskMode::Viewing), (TaskMode::Viewing, TaskAction::Nothing));
    assert_eq!(set_mode(false, TaskMode::Editing), (TaskMode::Editing, TaskAction::FocusRoot));
}
