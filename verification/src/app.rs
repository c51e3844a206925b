//! The application core: the state of the workbench and how events change
//! it, without any terminal.

use crate::focus::FocusManager;
use crate::input::{AppEvent, AppKey};
use crate::keybinding::{default_bindings, Action, KeybindingRouter};
use crate::window::editor_window::EditorWindow;
use crate::window::terminal_window::TerminalWindow;
use crate::window::window_id::{lemma_ids_are_unique, WindowId, WindowIdSource};
use vstd::prelude::*;

verus! {

/// One of the two panes of the workbench.
#[derive(Debug, Clone, Copy, PartialEq, Eq, Structural)]
pub enum FocusedPane {
    /// The editor, on the left.
    Editor,
    /// The terminal, on the right.
    Terminal,
}

impl FocusedPane {
    /// The other pane.
    pub open spec fn other(self) -> FocusedPane {
        match self {
            FocusedPane::Editor => FocusedPane::Terminal,
            FocusedPane::Terminal => FocusedPane::Editor,
        }
    }

    /// The other pane.
    pub fn toggle(self) -> (pane: Self)
        ensures
            pane == self.other(),
            pane.other() == self,
    {
        match self {
            FocusedPane::Editor => FocusedPane::Terminal,
            FocusedPane::Terminal => FocusedPane::Editor,
        }
    }
}

impl Default for FocusedPane {
    /// The editor.
    fn default() -> (pane: Self)
        ensures
            pane == FocusedPane::Editor,
    {
        FocusedPane::Editor
    }
}

/// The state of the application, as far as events can change or read it.
pub struct AppState {
    /// Whether the application is still running.
    pub running: bool,
    /// The window that has the focus, if one has it.
    pub focus: Option<WindowId>,
    /// The width of the terminal.
    pub width: u16,
    /// The height of the terminal.
    pub height: u16,
    /// The global key bindings.
    pub bindings: Map<AppKey, Action>,
    /// The identifier of the editor window.
    pub editor_id: WindowId,
    /// The identifier of the terminal window.
    pub terminal_id: WindowId,
}

impl AppState {
    /// The pane that has the focus: the terminal if its window has it, and
    /// the editor in every other case.
    pub open spec fn pane(self) -> FocusedPane {
        if self.focus == Some(self.editor_id) {
            FocusedPane::Editor
        } else if self.focus == Some(self.terminal_id) {
            FocusedPane::Terminal
        } else {
            FocusedPane::Editor
        }
    }

    /// The state after the focus has moved on: from the editor to the
    /// terminal, and from anywhere else to the editor.
    pub open spec fn toggled(self) -> AppState {
        AppState {
            focus: Some(
                if self.focus == Some(self.editor_id) {
                    self.terminal_id
                } else {
                    self.editor_id
                },
            ),
            ..self
        }
    }

    /// The state after an action: quitting stops the application, each of
    /// the three focus actions moves the focus to the other window, and the
    /// empty action changes nothing.
    pub open spec fn execute(self, action: Action) -> AppState {
        match action {
            Action::Quit => AppState { running: false, ..self },
            Action::ToggleFocus => self.toggled(),
            Action::FocusNext => self.toggled(),
            Action::FocusPrev => self.toggled(),
            Action::Noop => self,
        }
    }

    /// The state after a key press: the action bound to the key is executed,
    /// and a key without a binding is ignored.
    pub open spec fn press(self, key: AppKey) -> AppState {
        if self.bindings.contains_key(key) {
            self.execute(self.bindings[key])
        } else {
            self
        }
    }

    /// The state after an event: a key is pressed, the terminal takes a new
    /// size, or a tick passes and nothing changes.
    pub open spec fn handle(self, event: AppEvent) -> AppState {
        match event {
            AppEvent::Key(key) => self.press(key),
            AppEvent::Resize(width, height) => AppState { width, height, ..self },
            AppEvent::Tick => self,
        }
    }
}

/// Moving the focus on twice brings it back: where the two windows are
/// different and one of them has the focus, the state after two moves is the
/// state before, and each single move changes the pane.
pub proof fn lemma_toggle_twice(state: AppState)
    requires
        state.editor_id != state.terminal_id,
        state.focus == Some(state.editor_id) || state.focus == Some(state.terminal_id),
    ensures
        state.toggled().toggled() == state,
        state.toggled().pane() == state.pane().other(),
{
}

/// The application: its two windows, the focus, the key bindings, and the
/// size of the terminal.
pub struct App {
    editor: EditorWindow,
    terminal: TerminalWindow,
    editor_id: WindowId,
    terminal_id: WindowId,
    focus_manager: FocusManager,
    keybinding_router: KeybindingRouter,
    running: bool,
    width: u16,
    height: u16,
}

impl View for App {
    type V = AppState;

    closed spec fn view(&self) -> AppState {
        AppState {
            running: self.running,
            focus: self.focus_manager@,
            width: self.width,
            height: self.height,
            bindings: self.keybinding_router@,
            editor_id: self.editor_id,
            terminal_id: self.terminal_id,
        }
    }
}

impl App {
    /// The editor window of the application.
    pub closed spec fn editor_window(&self) -> EditorWindow {
        self.editor
    }

    /// The terminal window of the application.
    pub closed spec fn terminal_window(&self) -> TerminalWindow {
        self.terminal
    }

    /// The state of a new application of the given size: running, with the
    /// focus on the editor and the default key bindings.
    pub open spec fn initial(state: AppState, width: u16, height: u16) -> bool {
        &&& state.running
        &&& state.focus == Some(state.editor_id)
        &&& state.editor_id != state.terminal_id
        &&& state.width == width
        &&& state.height == height
        &&& state.bindings == default_bindings()
    }

    /// A new application for a terminal of 80 columns and 24 rows.
    pub fn new() -> (app: Self)
        ensures
            Self::initial(app@, 80, 24),
            app.editor_window()@ == "Welcome to Paradiddle.rs!"@,
            app.terminal_window()@ == "Terminal output will appear here."@,
    {
        let mut ids = WindowIdSource::new();
        let editor_id = WindowId::new(&mut ids);
        let terminal_id = WindowId::new(&mut ids);
        proof {
            lemma_ids_are_unique(0, 1);
        }
        let focus_manager = FocusManager::with_focus(editor_id);
        App {
            editor: EditorWindow::default(),
            terminal: TerminalWindow::default(),
            editor_id,
            terminal_id,
            focus_manager,
            keybinding_router: KeybindingRouter::new(),
            running: true,
            width: 80,
            height: 24,
        }
    }

    /// A new application for a terminal of the given size.
    pub fn with_size(width: u16, height: u16) -> (app: Self)
        ensures
            Self::initial(app@, width, height),
            app.editor_window()@ == "Welcome to Paradiddle.rs!"@,
            app.terminal_window()@ == "Terminal output will appear here."@,
    {
        let mut app = Self::new();
        app.width = width;
        app.height = height;
        app
    }

    /// Whether the application is still running.
    pub fn is_running(&self) -> (running: bool)
        ensures
            running == self@.running,
    {
        self.running
    }

    /// The pane that has the focus.
    pub fn focused(&self) -> (pane: FocusedPane)
        ensures
            pane == self@.pane(),
    {
        if self.focus_manager.is_focused(self.editor_id) {
            FocusedPane::Editor
        } else if self.focus_manager.is_focused(self.terminal_id) {
            FocusedPane::Terminal
        } else {
            FocusedPane::Editor
        }
    }

    /// The window that has the focus, if one has it.
    pub fn focused_id(&self) -> (id: Option<WindowId>)
        ensures
            id == self@.focus,
    {
        self.focus_manager.focused()
    }

    /// The identifier of the editor window.
    pub fn editor_id(&self) -> (id: WindowId)
        ensures
            id == self@.editor_id,
    {
        self.editor_id
    }

    /// The identifier of the terminal window.
    pub fn terminal_id(&self) -> (id: WindowId)
        ensures
            id == self@.terminal_id,
    {
        self.terminal_id
    }

    /// The focus manager.
    pub fn focus_manager(&self) -> (manager: &FocusManager)
        ensures
            manager@ == self@.focus,
    {
        &self.focus_manager
    }

    /// The key bindings.
    pub fn keybinding_router(&self) -> (router: &KeybindingRouter)
        ensures
            router@ == self@.bindings,
    {
        &self.keybinding_router
    }

    /// The key bindings, to change them.
    pub fn keybinding_router_mut(&mut self) -> (router: &mut KeybindingRouter)
        ensures
            router@ == old(self)@.bindings,
            final(self)@ == (AppState { bindings: final(router)@, ..old(self)@ }),
            final(self).editor_window() == old(self).editor_window(),
            final(self).terminal_window() == old(self).terminal_window(),
    {
        &mut self.keybinding_router
    }

    /// The size of the terminal: width, then height.
    pub fn size(&self) -> (size: (u16, u16))
        ensures
            size == (self@.width, self@.height),
    {
        (self.width, self.height)
    }

    /// The editor window.
    pub fn editor(&self) -> (window: &EditorWindow)
        ensures
            *window == self.editor_window(),
    {
        &self.editor
    }

    /// The terminal window.
    pub fn terminal(&self) -> (window: &TerminalWindow)
        ensures
            *window == self.terminal_window(),
    {
        &self.terminal
    }

    /// The editor window, to draw or change it. The state that events act on
    /// and the terminal window stay as they are.
    pub fn editor_mut(&mut self) -> (window: &mut EditorWindow)
        ensures
            *window == old(self).editor_window(),
            final(self).editor_window() == *final(window),
            final(self).terminal_window() == old(self).terminal_window(),
            final(self)@ == old(self)@,
    {
        &mut self.editor
    }

    /// The terminal window, to draw or change it. The state that events act on
    /// and the editor window stay as they are.
    pub fn terminal_mut(&mut self) -> (window: &mut TerminalWindow)
        ensures
            *window == old(self).terminal_window(),
            final(self).terminal_window() == *final(window),
            final(self).editor_window() == old(self).editor_window(),
            final(self)@ == old(self)@,
    {
        &mut self.terminal
    }

    /// Handles one event.
    pub fn handle_event(&mut self, event: AppEvent)
        ensures
            final(self)@ == old(self)@.handle(event),
            final(self).editor_window() == old(self).editor_window(),
            final(self).terminal_window() == old(self).terminal_window(),
    {
        match event {
            AppEvent::Key(key) => self.handle_key(key),
            AppEvent::Resize(width, height) => {
                self.width = width;
                self.height = height;
            },
            AppEvent::Tick => {},
        }
    }

    fn handle_key(&mut self, key: AppKey)
        ensures
            final(self)@ == old(self)@.press(key),
            final(self).editor_window() == old(self).editor_window(),
            final(self).terminal_window() == old(self).terminal_window(),
    {
        match self.keybinding_router.dispatch(key) {
            Some(action) => self.execute_action(action),
            None => {},
        }
    }

    fn execute_action(&mut self, action: Action)
        ensures
            final(self)@ == old(self)@.execute(action),
            final(self).editor_window() == old(self).editor_window(),
            final(self).terminal_window() == old(self).terminal_window(),
    {
        match action {
            Action::Quit => {
                self.running = false;
            },
            Action::ToggleFocus => {
                self.toggle_focus();
            },
            Action::FocusNext => {
                self.toggle_focus();
            },
            Action::FocusPrev => {
                self.toggle_focus();
            },
            Action::Noop => {},
        }
    }

    fn toggle_focus(&mut self)
        ensures
            final(self)@ == old(self)@.toggled(),
            final(self).editor_window() == old(self).editor_window(),
            final(self).terminal_window() == old(self).terminal_window(),
    {
        let next = if self.focus_manager.is_focused(self.editor_id) {
            self.terminal_id
        } else {
            self.editor_id
        };
        self.focus_manager.set_focus(next);
    }
}

impl Default for App {
    /// A new application for a terminal of 80 columns and 24 rows.
    fn default() -> (app: Self)
        ensures
            Self::initial(app@, 80, 24),
            app.editor_window()@ == "Welcome to Paradiddle.rs!"@,
            app.terminal_window()@ == "Terminal output will appear here."@,
    {
        Self::new()
    }
}

} // verus!
