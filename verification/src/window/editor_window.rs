//! The editor window.

use vstd::prelude::*;

verus! {

/// The editor window: what it shows, and the title it goes by.
pub struct EditorWindow {
    buffer: String,
}

impl View for EditorWindow {
    type V = Seq<char>;

    /// The text in the window.
    closed spec fn view(&self) -> Seq<char> {
        self.buffer@
    }
}

impl EditorWindow {
    /// The title of the window, which marks the window that has the focus.
    pub open spec fn title_of(focused: bool) -> Seq<char> {
        if focused {
            "Editor [*]"@
        } else {
            "Editor"@
        }
    }

    /// The text in the window.
    pub fn buffer(&self) -> (text: &str)
        ensures
            text@ == self@,
    {
        self.buffer.as_str()
    }

    /// The title of the window, with a mark if the window has the focus.
    pub fn title(&self, focused: bool) -> (title: &'static str)
        ensures
            title@ == Self::title_of(focused),
    {
        if focused {
            "Editor [*]"
        } else {
            "Editor"
        }
    }
}

impl Default for EditorWindow {
    /// An editor window that shows the welcome text.
    fn default() -> (window: Self)
        ensures
            window@ == "Welcome to Paradiddle.rs!"@,
    {
        EditorWindow { buffer: String::from_str("Welcome to Paradiddle.rs!") }
    }
}

} // verus!
