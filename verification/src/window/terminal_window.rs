//! The terminal window.

use vstd::prelude::*;

verus! {

/// The terminal window: what it shows, and the title it goes by.
pub struct TerminalWindow {
    buffer: String,
}

impl View for TerminalWindow {
    type V = Seq<char>;

    /// The text in the window.
    closed spec fn view(&self) -> Seq<char> {
        self.buffer@
    }
}

impl TerminalWindow {
    /// The title of the window, which marks the window that has the focus.
    pub open spec fn title_of(focused: bool) -> Seq<char> {
        if focused {
            "Terminal [*]"@
        } else {
            "Terminal"@
        }
    }

    /// The text in the window.
    pub fn buffer(&self) -> (text: &str)
        ensures
            text@ == self@,
    {
        self.buffer.as_str()
    }

    /// The title of the window, with a mark if the window has the focus.
    pub fn title(&self, focused: bool) -> (title: &'static str)
        ensures
            title@ == Self::title_of(focused),
    {
        if focused {
            "Terminal [*]"
        } else {
            "Terminal"
        }
    }
}

impl Default for TerminalWindow {
    /// A terminal window that shows its placeholder text.
    fn default() -> (window: Self)
        ensures
            window@ == "Terminal output will appear here."@,
    {
        TerminalWindow { buffer: String::from_str("Terminal output will appear here.") }
    }
}

} // verus!
