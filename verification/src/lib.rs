//! Building blocks of a terminal IDE: a broadcast event bus with composable
//! stream transformations, and the workbench state that is driven by it.

pub mod app;
pub mod channel;
pub mod debounce;
pub mod event;
pub mod focus;
pub mod input;
pub mod keybinding;
pub mod subscribers;
pub mod sync;
pub mod transform;
pub mod window;

pub use event::Event;
