//! Windows of the workbench: their identifiers and what they show.

pub mod editor_window;
pub mod terminal_window;
pub mod window_id;

pub use editor_window::EditorWindow;
pub use terminal_window::TerminalWindow;
pub use window_id::{WindowId, WindowIdSource};
