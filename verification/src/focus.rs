//! Focus tracking: which window has the focus, announced on a bus whenever
//! it changes.

use crate::event::Event;
use crate::window::window_id::WindowId;
use vstd::prelude::*;

verus! {

/// The announcement of a change of focus.
#[derive(Debug, PartialEq, Eq, Structural)]
pub struct FocusChanged {
    /// The window that had the focus, if one had it.
    pub previous: Option<WindowId>,
    /// The window that has the focus now, if one has it.
    pub current: Option<WindowId>,
}

impl Clone for FocusChanged {
    /// A copy of the announcement.
    fn clone(&self) -> (copy: Self)
        ensures
            copy == *self,
    {
        FocusChanged { previous: self.previous, current: self.current }
    }
}

impl FocusChanged {
    /// What is to be announced when the focus is asked to go from `previous`
    /// to `current`: the change, or nothing where the two are the same.
    pub open spec fn between(previous: Option<WindowId>, current: Option<WindowId>) -> Option<
        FocusChanged,
    > {
        if previous == current {
            None
        } else {
            Some(FocusChanged { previous, current })
        }
    }

    /// Decides what is to be announced when the focus is asked to go from
    /// `previous` to `current`.
    pub fn plan(previous: Option<WindowId>, current: Option<WindowId>) -> (change: Option<
        FocusChanged,
    >)
        ensures
            change == Self::between(previous, current),
    {
        let same = match (previous, current) {
            (Some(before), Some(after)) => before == after,
            (None, None) => true,
            _ => false,
        };
        if same {
            None
        } else {
            Some(FocusChanged { previous, current })
        }
    }
}

/// Keeps track of the window that has the focus. At most one has it.
pub struct FocusManager {
    focused: Option<WindowId>,
    on_focus_changed: Event<FocusChanged>,
}

impl View for FocusManager {
    type V = Option<WindowId>;

    /// The window that has the focus, if one has it.
    closed spec fn view(&self) -> Option<WindowId> {
        self.focused
    }
}

impl FocusManager {
    /// The bus on which changes of focus are announced.
    pub closed spec fn announcements(&self) -> Event<FocusChanged> {
        self.on_focus_changed
    }

    /// A manager in which no window has the focus.
    pub fn new() -> (manager: Self)
        ensures
            manager@ == None::<WindowId>,
    {
        FocusManager { focused: None, on_focus_changed: Event::new() }
    }

    /// A manager in which the given window has the focus from the start.
    pub fn with_focus(id: WindowId) -> (manager: Self)
        ensures
            manager@ == Some(id),
    {
        FocusManager { focused: Some(id), on_focus_changed: Event::new() }
    }

    /// The window that has the focus, if one has it.
    pub fn focused(&self) -> (id: Option<WindowId>)
        ensures
            id == self@,
    {
        self.focused
    }

    /// Gives the focus to a window, and announces the change if the window
    /// did not have it already.
    pub fn set_focus(&mut self, id: WindowId)
        ensures
            final(self)@ == Some(id),
            final(self).announcements() == old(self).announcements(),
    {
        match FocusChanged::plan(self.focused, Some(id)) {
            Some(change) => {
                self.focused = Some(id);
                self.on_focus_changed.emit(change);
            },
            None => {},
        }
    }

    /// Takes the focus from whichever window has it, and announces the change
    /// if one had it.
    pub fn clear_focus(&mut self)
        ensures
            final(self)@ == None::<WindowId>,
            final(self).announcements() == old(self).announcements(),
    {
        match FocusChanged::plan(self.focused, None) {
            Some(change) => {
                self.focused = None;
                self.on_focus_changed.emit(change);
            },
            None => {},
        }
    }

    /// Whether the given window has the focus.
    pub fn is_focused(&self, id: WindowId) -> (answer: bool)
        ensures
            answer == (self@ == Some(id)),
    {
        match self.focused {
            Some(current) => current == id,
            None => false,
        }
    }

    /// The bus on which changes of focus are announced, for subscribing.
    pub fn on_focus_changed(&self) -> (bus: &Event<FocusChanged>)
        ensures
            *bus == self.announcements(),
    {
        &self.on_focus_changed
    }
}

impl Default for FocusManager {
    /// A manager in which no window has the focus.
    fn default() -> (manager: Self)
        ensures
            manager@ == None::<WindowId>,
    {
        Self::new()
    }
}

} // verus!
