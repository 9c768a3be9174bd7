use engage_shell::commands::{
    clear_due_item_actions, clear_result, due_item_notification, get_background_task_status,
    greet, notification_result, trigger_background_task,
};
use engage_shell::events::{FrontendEvent, ShellAction};

#[test]
fn greet_formats_name() {
    assert_eq!(greet("World"), "Hello, World! You've been greeted from Rust!");
    assert_eq!(greet(""), "Hello, ! You've been greeted from Rust!");
}

#[test]
fn status_and_trigger_texts() {
    assert_eq!(get_background_task_status(), "Background task is running");
    assert_eq!(trigger_background_task(), "Background task triggered manually");
}

#[test]
fn notification_success_passes_through() {
    assert_eq!(notification_result(Ok(())), Ok(()));
}

#[test]
fn notification_failure_keeps_message() {
    let r = notification_result(Err("permission denied".to_string()));
    assert_eq!(r, Err("permission denied".to_string()));
}

#[test]
fn notification_failure_never_empty() {
    match notification_result(Err(String::new())) {
        Err(m) => assert!(!m.is_empty()),
        Ok(()) => panic!("a failure must stay a failure"),
    }
}

#[test]
fn due_item_notification_text() {
    let n = due_item_notification("Call Bob", "tomorrow");
    assert_eq!(n.title, "Action Item Due");
    assert_eq!(n.body, "\"Call Bob\" is due tomorrow");
}

#[test]
fn clear_request_emits_one_event() {
    let acts = clear_due_item_actions();
    assert_eq!(acts, vec![ShellAction::Emit(FrontendEvent::ClearDueItemNotifications)]);
    assert_eq!(acts, clear_due_item_actions());
    assert_eq!(FrontendEvent::ClearDueItemNotifications.name(), "clear-due-item-notifications");
    assert_eq!(FrontendEvent::ClearDueItemNotifications.payload(), None);
}

#[test]
fn clear_result_outcomes() {
    assert_eq!(clear_result(Ok(())), Ok("Notification clear request sent to frontend".to_string()));
    assert_eq!(clear_result(Err("no window".to_string())), Err("no window".to_string()));
    match clear_result(Err(String::new())) {
        Err(m) => assert!(!m.is_empty()),
        Ok(_) => panic!("a failure must stay a failure"),
    }
}
