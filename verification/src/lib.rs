//! Editing, input and layout logic of the Singularity applet toolkit:
//! colors, key events, character grids, text boxes, the code editor,
//! focus traversal of nested applets, and timers.

pub mod color;
pub mod ui_event;
pub mod text;
pub mod text_box;
pub mod char_grid;
pub mod focus;
pub mod caching;
pub mod standard_keybinds;
pub mod rope;
pub mod code_editor;
pub mod timing;
pub mod text_editor;
pub mod small_applets;
pub mod time_manager;
pub mod task_organizer;
pub mod command_hub;
