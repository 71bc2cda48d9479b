use vstd::prelude::*;
use crate::ui_event::{Key, KeyModifiers, KeyTrait, UIEvent, spec_ctrl, spec_none, spec_shift, spec_to_char};

verus! {

/// Whether the task organizer is moving through the task tree or editing the
/// task in focus.
#[derive(Debug, Clone, Copy, PartialEq, Eq, Structural)]
pub enum TaskMode {
    /// Moving through the task tree (also called traversing).
    Viewing,
    /// Editing the task in focus; there is always one in this mode.
    Editing,
}

/// What the task organizer asks of the task tree and the task widgets.
#[derive(Debug, Clone, Copy, PartialEq, Eq, Structural)]
pub enum TaskAction {
    /// Add a default task as the last child of the task in focus (of the
    /// root task when none is in focus) and focus the new task.
    AddTask,
    /// Store the edits of the task in focus, if any, into the tree and write
    /// the tasks file.
    Save,
    /// Focus the root task.
    FocusRoot,
    /// Store the edits of the task in focus into the tree.
    StoreFocused,
    /// When the character is one of the tree traversal keys, move the focus
    /// by it (from the root task when none is in focus).
    Traverse(char),
    /// Pass the event on to the task list and the task widget; what it hits
    /// decides the next mode, through `set_mode`.
    Forward,
    /// Nothing to do.
    Nothing,
}

/// Switching modes: leaving for Viewing stores the edits of the task in
/// focus; entering Editing needs a task in focus, so the root task is
/// focused when there is none.
pub open spec fn set_mode_spec(has_focused: bool, new_mode: TaskMode) -> (TaskMode, TaskAction) {
    match new_mode {
        TaskMode::Viewing => (TaskMode::Viewing, if has_focused {
            TaskAction::StoreFocused
        } else {
            TaskAction::Nothing
        }),
        TaskMode::Editing => (TaskMode::Editing, if has_focused {
            TaskAction::Nothing
        } else {
            TaskAction::FocusRoot
        }),
    }
}

/// The mode after an event and what is to be done, given whether a task is
/// in focus.
/// - Viewing: Shift with `+` adds a task; Ctrl+S saves; Enter (no modifier)
///   enters Editing; any other character key with no modifier traverses;
///   a mouse press is passed on.
/// - Editing: Ctrl+S saves; Escape (no modifier) goes back to Viewing;
///   anything else (a resize too) is passed on.
pub open spec fn task_step_spec(mode: TaskMode, has_focused: bool, ev: UIEvent) -> (TaskMode, TaskAction) {
    match mode {
        TaskMode::Viewing => match ev {
            UIEvent::KeyPress(key, m) => if m == spec_shift() && spec_to_char(key) == Some('+') {
                (mode, TaskAction::AddTask)
            } else if m == spec_ctrl() && spec_to_char(key) == Some('s') {
                (mode, TaskAction::Save)
            } else if m == spec_none() && spec_to_char(key) == Some('\n') {
                set_mode_spec(has_focused, TaskMode::Editing)
            } else if m == spec_none() && spec_to_char(key) is Some {
                (mode, TaskAction::Traverse(spec_to_char(key)->0))
            } else {
                (mode, TaskAction::Nothing)
            },
            UIEvent::MousePress(_) => (mode, TaskAction::Forward),
            _ => (mode, TaskAction::Nothing),
        },
        TaskMode::Editing => match ev {
            UIEvent::KeyPress(key, m) => if m == spec_ctrl() && spec_to_char(key) == Some('s') {
                (mode, TaskAction::Save)
            } else if m == spec_none() && key == Key::Escape {
                set_mode_spec(has_focused, TaskMode::Viewing)
            } else {
                (mode, TaskAction::Forward)
            },
            _ => (mode, TaskAction::Forward),
        },
    }
}

/// Switches modes (see `set_mode_spec`).
pub fn set_mode(has_focused: bool, new_mode: TaskMode) -> (r: (TaskMode, TaskAction))
    ensures
        r == set_mode_spec(has_focused, new_mode),
{
    match new_mode {
        TaskMode::Viewing => (TaskMode::Viewing, if has_focused {
            TaskAction::StoreFocused
        } else {
            TaskAction::Nothing
        }),
        TaskMode::Editing => (TaskMode::Editing, if has_focused {
            TaskAction::Nothing
        } else {
            TaskAction::FocusRoot
        }),
    }
}

/// Handles an event of the task organizer (see `task_step_spec`).
pub fn task_step(mode: TaskMode, has_focused: bool, ev: UIEvent) -> (r: (TaskMode, TaskAction))
    ensures
        r == task_step_spec(mode, has_focused, ev),
{
    match mode {
        TaskMode::Viewing => match ev {
            UIEvent::KeyPress(key, m) => {
                let c = key.to_char();
                if m == KeyModifiers::shift() && c == Some('+') {
                    (mode, TaskAction::AddTask)
                } else if m == KeyModifiers::ctrl() && c == Some('s') {
                    (mode, TaskAction::Save)
                } else if m == KeyModifiers::none() && c == Some('\n') {
                    set_mode(has_focused, TaskMode::Editing)
                } else if m == KeyModifiers::none() && c.is_some() {
                    (mode, TaskAction::Traverse(c.unwrap()))
                } else {
                    (mode, TaskAction::Nothing)
                }
            },
            UIEvent::MousePress(_) => (mode, TaskAction::Forward),
            _ => (mode, TaskAction::Nothing),
        },
        TaskMode::Editing => match ev {
            UIEvent::KeyPress(key, m) => {
                if m == KeyModifiers::ctrl() && key.to_char() == Some('s') {
                    (mode, TaskAction::Save)
                } else if m == KeyModifiers::none() && key == Key::Escape {
                    set_mode(has_focused, TaskMode::Viewing)
                } else {
                    (mode, TaskAction::Forward)
                }
            },
            _ => (mode, TaskAction::Forward),
        },
    }
}

/// Editing mode always has a task in focus: entering it focuses the root
/// task when none is in focus.
pub proof fn lemma_editing_has_focus(mode: TaskMode, has_focused: bool, ev: UIEvent)
    requires
        mode == TaskMode::Editing ==> has_focused,
    ensures
        ({
            let (m, a) = task_step_spec(mode, has_focused, ev);
            m == TaskMode::Editing ==> has_focused || a == TaskAction::FocusRoot
        }),
{
}

} // verus!
