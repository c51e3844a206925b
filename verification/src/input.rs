//! Terminal-agnostic input: the keys and events that drive the workbench.

use vstd::prelude::*;

verus! {

/// A key press, independent of the terminal library that reported it.
#[derive(Debug, Clone, Copy, PartialEq, Eq, Hash, Structural)]
pub enum AppKey {
    /// The `q` key, in either case.
    Q,
    /// Escape.
    Esc,
    /// Tab.
    Tab,
    /// Any other character key.
    Char(char),
    /// Arrow up.
    Up,
    /// Arrow down.
    Down,
    /// Arrow left.
    Left,
    /// Arrow right.
    Right,
    /// Enter or Return.
    Enter,
    /// Backspace.
    Backspace,
    /// A key that has no representation of its own.
    Other,
}

/// A key as a terminal reports it, before the application gives it a
/// meaning.
#[derive(Debug, Clone, Copy, PartialEq, Eq, Structural)]
pub enum KeyPress {
    /// A character key.
    Char(char),
    /// Escape.
    Esc,
    /// Tab.
    Tab,
    /// Enter or Return.
    Enter,
    /// Backspace.
    Backspace,
    /// Arrow up.
    Up,
    /// Arrow down.
    Down,
    /// Arrow left.
    Left,
    /// Arrow right.
    Right,
    /// Any other key.
    Other,
}

/// An event delivered to the application.
#[derive(Debug, Clone, Copy, PartialEq, Eq, Structural)]
pub enum AppEvent {
    /// A key was pressed.
    Key(AppKey),
    /// The terminal was resized to the given width and height.
    Resize(u16, u16),
    /// A periodic tick.
    Tick,
}

impl AppKey {
    /// The key that a typed character stands for: `q` and `Q` are the quit
    /// key, a tab is `Tab`, a line feed or carriage return is `Enter`, and
    /// every other character is itself.
    pub open spec fn of_char(c: char) -> AppKey {
        if c == 'q' || c == 'Q' {
            AppKey::Q
        } else if c == '\t' {
            AppKey::Tab
        } else if c == '\n' || c == '\r' {
            AppKey::Enter
        } else {
            AppKey::Char(c)
        }
    }

    /// The key that a key press of the terminal stands for: the characters
    /// `q` and `Q` are the quit key, every other character is itself, and each
    /// named key is the key of that name.
    pub open spec fn of_press(press: KeyPress) -> AppKey {
        match press {
            KeyPress::Char(c) => if c == 'q' || c == 'Q' {
                AppKey::Q
            } else {
                AppKey::Char(c)
            },
            KeyPress::Esc => AppKey::Esc,
            KeyPress::Tab => AppKey::Tab,
            KeyPress::Enter => AppKey::Enter,
            KeyPress::Backspace => AppKey::Backspace,
            KeyPress::Up => AppKey::Up,
            KeyPress::Down => AppKey::Down,
            KeyPress::Left => AppKey::Left,
            KeyPress::Right => AppKey::Right,
            KeyPress::Other => AppKey::Other,
        }
    }

    /// Translates a key press of the terminal into a key.
    pub fn from_press(press: KeyPress) -> (key: Self)
        ensures
            key == Self::of_press(press),
    {
        match press {
            KeyPress::Char(c) => if c == 'q' || c == 'Q' {
                AppKey::Q
            } else {
                AppKey::Char(c)
            },
            KeyPress::Esc => AppKey::Esc,
            KeyPress::Tab => AppKey::Tab,
            KeyPress::Enter => AppKey::Enter,
            KeyPress::Backspace => AppKey::Backspace,
            KeyPress::Up => AppKey::Up,
            KeyPress::Down => AppKey::Down,
            KeyPress::Left => AppKey::Left,
            KeyPress::Right => AppKey::Right,
            KeyPress::Other => AppKey::Other,
        }
    }

    /// Translates a typed character into a key.
    pub fn from_char(c: char) -> (key: Self)
        ensures
            key == Self::of_char(c),
    {
        if c == 'q' || c == 'Q' {
            AppKey::Q
        } else if c == '\t' {
            AppKey::Tab
        } else if c == '\n' || c == '\r' {
            AppKey::Enter
        } else {
            AppKey::Char(c)
        }
    }
}

} // verus!
