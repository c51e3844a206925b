use cli_ide::app::{App, FocusedPane};
use cli_ide::input::{AppEvent, AppKey};
use cli_ide::keybinding::Action;

#[test]
fn test_app_new() {
    let app = App::new();
    assert!(app.is_running());
    assert_eq!(app.focused(), FocusedPane::Editor);
    assert_eq!(app.size(), (80, 24));
}

#[test]
fn test_app_with_size() {
    let app = App::with_size(120, 40);
    assert_eq!(app.size(), (120, 40));
}

#[test]
fn test_quit_on_q() {
    let mut app = App::new();
    assert!(app.is_running());

    app.handle_event(AppEvent::Key(AppKey::Q));

    assert!(!app.is_running());
}

#[test]
fn test_quit_on_esc() {
    let mut app = App::new();
    assert!(app.is_running());

    app.handle_event(AppEvent::Key(AppKey::Esc));

    assert!(!app.is_running());
}

#[test]
fn test_resize_updates_dimensions() {
    let mut app = App::new();
    assert_eq!(app.size(), (80, 24));

    app.handle_event(AppEvent::Resize(100, 50));

    assert_eq!(app.size(), (100, 50));
}

#[test]
fn test_focus_toggle() {
    let mut app = App::new();
    assert_eq!(app.focused(), FocusedPane::Editor);

    app.handle_event(AppEvent::Key(AppKey::Tab));
    assert_eq!(app.focused(), FocusedPane::Terminal);

    app.handle_event(AppEvent::Key(AppKey::Tab));
    assert_eq!(app.focused(), FocusedPane::Editor);
}

#[test]
fn test_focused_pane_toggle() {
    assert_eq!(FocusedPane::Editor.toggle(), FocusedPane::Terminal);
    assert_eq!(FocusedPane::Terminal.toggle(), FocusedPane::Editor);
}

#[test]
fn test_tick_does_not_change_state() {
    let mut app = App::new();
    let running_before = app.is_running();
    let focused_before = app.focused();
    let size_before = app.size();

    app.handle_event(AppEvent::Tick);

    assert_eq!(app.is_running(), running_before);
    assert_eq!(app.focused(), focused_before);
    assert_eq!(app.size(), size_before);
}

#[test]
fn test_window_ids_are_unique() {
    let app = App::new();
    assert_ne!(app.editor_id(), app.terminal_id());
}

#[test]
fn test_focused_id_tracks_editor() {
    let app = App::new();
    assert_eq!(app.focused_id(), Some(app.editor_id()));
}

#[test]
fn test_focused_id_tracks_terminal() {
    let mut app = App::new();
    app.handle_event(AppEvent::Key(AppKey::Tab));
    assert_eq!(app.focused_id(), Some(app.terminal_id()));
}

#[test]
fn test_focus_manager_accessible() {
    let app = App::new();
    assert!(app.focus_manager().is_focused(app.editor_id()));
}

#[test]
fn test_keybinding_router_accessible() {
    let app = App::new();
    assert!(app.keybinding_router().is_globally_bound(AppKey::Q));
}

#[test]
fn test_keybinding_router_mutable() {
    let mut app = App::new();
    app.keybinding_router_mut()
        .register_global(AppKey::Char('x'), Action::Quit);
    assert!(app.keybinding_router().is_globally_bound(AppKey::Char('x')));
}

#[test]
fn app_starts_running() {
    let app = App::new();
    assert!(app.is_running(), "App should start in running state");
}

#[test]
fn app_quits_on_q_key() {
    let mut app = App::new();
    assert!(app.is_running());

    app.handle_event(AppEvent::Key(AppKey::Q));

    assert!(!app.is_running(), "App should quit after Q key");
}

#[test]
fn app_quits_on_esc_key() {
    let mut app = App::new();
    assert!(app.is_running());

    app.handle_event(AppEvent::Key(AppKey::Esc));

    assert!(!app.is_running(), "App should quit after Esc key");
}

#[test]
fn app_handles_resize_event() {
    let mut app = App::new();
    assert_eq!(app.size(), (80, 24), "Default size should be 80x24");

    app.handle_event(AppEvent::Resize(120, 40));

    assert_eq!(app.size(), (120, 40), "Size should update after resize");
}

#[test]
fn app_toggles_focus_on_tab() {
    let mut app = App::new();
    assert_eq!(app.focused(), FocusedPane::Editor);

    app.handle_event(AppEvent::Key(AppKey::Tab));
    assert_eq!(app.focused(), FocusedPane::Terminal);

    app.handle_event(AppEvent::Key(AppKey::Tab));
    assert_eq!(app.focused(), FocusedPane::Editor);
}

#[test]
fn app_ignores_other_keys() {
    let mut app = App::new();
    let running_before = app.is_running();
    let focused_before = app.focused();
    let size_before = app.size();

    app.handle_event(AppEvent::Key(AppKey::Char('a')));
    app.handle_event(AppEvent::Key(AppKey::Up));
    app.handle_event(AppEvent::Key(AppKey::Other));

    assert_eq!(app.is_running(), running_before);
    assert_eq!(app.focused(), focused_before);
    assert_eq!(app.size(), size_before);
}

#[test]
fn app_handles_event_sequence() {
    let mut app = App::new();

    app.handle_event(AppEvent::Resize(100, 50));
    assert_eq!(app.size(), (100, 50));

    app.handle_event(AppEvent::Key(AppKey::Tab));
    assert_eq!(app.focused(), FocusedPane::Terminal);

    app.handle_event(AppEvent::Key(AppKey::Char('x')));
    assert!(app.is_running());
    assert_eq!(app.focused(), FocusedPane::Terminal);

    app.handle_event(AppEvent::Key(AppKey::Q));
    assert!(!app.is_running());
}

#[test]
fn app_multiple_resizes() {
    let mut app = App::new();

    let sizes = [(100, 50), (80, 24), (120, 40), (60, 20)];

    for (w, h) in sizes {
        app.handle_event(AppEvent::Resize(w, h));
        assert_eq!(
            app.size(),
            (w, h),
            "Size should match after resize to {}x{}",
            w,
            h
        );
    }
}

#[test]
fn app_window_ids_are_unique() {
    let app = App::new();
    assert_ne!(
        app.editor_id(),
        app.terminal_id(),
        "Editor and Terminal should have different IDs"
    );
}

#[test]
fn app_focused_id_matches_focused_pane() {
    let mut app = App::new();

    assert_eq!(app.focused_id(), Some(app.editor_id()));

    app.handle_event(AppEvent::Key(AppKey::Tab));
    assert_eq!(app.focused_id(), Some(app.terminal_id()));

    app.handle_event(AppEvent::Key(AppKey::Tab));
    assert_eq!(app.focused_id(), Some(app.editor_id()));
}

#[test]
fn app_custom_keybinding_works() {
    let mut app = App::new();

    app.keybinding_router_mut()
        .register_global(AppKey::Char('x'), Action::Quit);

    assert!(app.is_running());
    app.handle_event(AppEvent::Key(AppKey::Char('x')));
    assert!(!app.is_running(), "Custom 'x' binding should quit the app");
}

#[test]
fn default_app_is_a_new_app() {
    let app = App::default();
    assert!(app.is_running());
    assert_eq!(app.focused(), FocusedPane::Editor);
    assert_eq!(app.size(), (80, 24));
    assert_eq!(FocusedPane::default(), FocusedPane::Editor);
}

#[test]
fn every_focus_action_moves_the_focus() {
    for action in [Action::ToggleFocus, Action::FocusNext, Action::FocusPrev] {
        let mut app = App::new();
        app.keybinding_router_mut().register_global(AppKey::Char('f'), action);
        app.handle_event(AppEvent::Key(AppKey::Char('f')));
        assert_eq!(app.focused(), FocusedPane::Terminal);
        app.handle_event(AppEvent::Key(AppKey::Char('f')));
        assert_eq!(app.focused(), FocusedPane::Editor);
        assert!(app.is_running());
    }
}

#[test]
fn the_empty_action_changes_nothing() {
    let mut app = App::new();
    app.keybinding_router_mut().register_global(AppKey::Tab, Action::Noop);
    app.handle_event(AppEvent::Key(AppKey::Tab));
    assert_eq!(app.focused(), FocusedPane::Editor);
    assert!(app.is_running());
    assert_eq!(app.size(), (80, 24));
}

#[test]
fn a_focus_change_of_the_app_is_announced() {
    let mut app = App::new();
    let announcements = app.focus_manager().on_focus_changed().subscribe();
    app.handle_event(AppEvent::Key(AppKey::Tab));
    let change = announcements.try_recv().unwrap();
    assert_eq!(change.previous, Some(app.editor_id()));
    assert_eq!(change.current, Some(app.terminal_id()));
    assert!(announcements.try_recv().is_err());
}

#[test]
fn windows_show_their_text_and_titles() {
    let app = App::new();
    assert_eq!(app.editor().buffer(), "Welcome to Paradiddle.rs!");
    assert_eq!(app.terminal().buffer(), "Terminal output will appear here.");
    assert_eq!(app.editor().title(true), "Editor [*]");
    assert_eq!(app.editor().title(false), "Editor");
    assert_eq!(app.terminal().title(true), "Terminal [*]");
    assert_eq!(app.terminal().title(false), "Terminal");
}
