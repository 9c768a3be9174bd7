use engage_shell::events::{FrontendEvent, Notice, ShellAction};
use engage_shell::shell::{
    clear_menu_followup, close_request_actions, menu_actions, menu_command_of,
    menu_runs_detached, tray_click_actions, ButtonState, MenuCommand, MouseButton, ShellState,
    WindowState,
};

fn shown() -> ShellState {
    ShellState { window: Some(WindowState { visible: true, focused: true }), running: true }
}

fn hidden() -> ShellState {
    ShellState { window: Some(WindowState { visible: false, focused: false }), running: true }
}

#[test]
fn tray_click_hides_visible_window() {
    let acts = tray_click_actions(MouseButton::Left, ButtonState::Up, true, Some(true));
    assert_eq!(acts, vec![ShellAction::HideWindow]);
    let mut s = shown();
    s.apply_all(&acts);
    assert_eq!(s, hidden());
}

#[test]
fn tray_click_shows_and_focuses_hidden_window() {
    let acts = tray_click_actions(MouseButton::Left, ButtonState::Up, true, Some(false));
    assert_eq!(acts, vec![ShellAction::ShowWindow, ShellAction::FocusWindow]);
    let mut s = hidden();
    s.apply_all(&acts);
    assert_eq!(s, shown());
}

#[test]
fn tray_click_with_failed_query_shows() {
    let acts = tray_click_actions(MouseButton::Left, ButtonState::Up, true, None);
    assert_eq!(acts, vec![ShellAction::ShowWindow, ShellAction::FocusWindow]);
}

#[test]
fn other_tray_clicks_do_nothing() {
    assert!(tray_click_actions(MouseButton::Right, ButtonState::Up, true, Some(true)).is_empty());
    assert!(tray_click_actions(MouseButton::Left, ButtonState::Down, true, Some(true)).is_empty());
    assert!(tray_click_actions(MouseButton::Left, ButtonState::Up, false, None).is_empty());
}

#[test]
fn close_request_hides_and_keeps_running() {
    let acts = close_request_actions();
    assert_eq!(acts, vec![ShellAction::PreventClose, ShellAction::HideWindow]);
    let mut s = shown();
    s.apply_all(&acts);
    assert_eq!(s, hidden());
    assert!(s.running);
    assert!(s.window.is_some());
}

#[test]
fn only_quit_exits() {
    let all = [
        MenuCommand::Show,
        MenuCommand::Hide,
        MenuCommand::Status,
        MenuCommand::Trigger,
        MenuCommand::ClearNotifications,
        MenuCommand::Quit,
    ];
    for c in all {
        let mut s = shown();
        s.apply_all(&menu_actions(c));
        assert_eq!(s.running, c != MenuCommand::Quit);
    }
}

#[test]
fn menu_entries_act_as_described() {
    assert_eq!(menu_actions(MenuCommand::Show), vec![ShellAction::ShowWindow, ShellAction::FocusWindow]);
    assert_eq!(menu_actions(MenuCommand::Hide), vec![ShellAction::HideWindow]);
    assert_eq!(menu_actions(MenuCommand::Status), vec![ShellAction::Notify(Notice::Health)]);
    assert_eq!(
        menu_actions(MenuCommand::Trigger),
        vec![
            ShellAction::Notify(Notice::ManualTask),
            ShellAction::Emit(FrontendEvent::ManualTaskCompleted)
        ]
    );
    assert_eq!(
        menu_actions(MenuCommand::ClearNotifications),
        vec![ShellAction::Emit(FrontendEvent::ClearDueItemNotifications)]
    );
    assert_eq!(menu_actions(MenuCommand::Quit), vec![ShellAction::Exit]);
    assert!(menu_runs_detached(MenuCommand::Trigger));
    assert!(!menu_runs_detached(MenuCommand::Status));
}

#[test]
fn clear_confirmation_only_after_emission() {
    assert_eq!(clear_menu_followup(true), vec![ShellAction::Notify(Notice::Cleared)]);
    assert!(clear_menu_followup(false).is_empty());
}

#[test]
fn menu_ids_round_trip() {
    assert_eq!(menu_command_of("show"), Some(MenuCommand::Show));
    assert_eq!(menu_command_of("clear-notifications"), Some(MenuCommand::ClearNotifications));
    assert_eq!(menu_command_of("quit"), Some(MenuCommand::Quit));
    assert_eq!(menu_command_of("quitx"), None);
    assert_eq!(menu_command_of(""), None);
    assert_eq!(MenuCommand::Trigger.id(), "trigger");
    assert_eq!(menu_command_of(MenuCommand::Status.id()), Some(MenuCommand::Status));
}

#[test]
fn window_actions_without_window_are_noops() {
    let mut s = ShellState { window: None, running: true };
    s.apply_all(&vec![ShellAction::ShowWindow, ShellAction::FocusWindow, ShellAction::HideWindow]);
    assert_eq!(s, ShellState { window: None, running: true });
}
