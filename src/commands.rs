//! Command surface: the request/response operations the frontend invokes.
use vstd::prelude::*;
use vstd::string::StringExecFns;
use crate::events::{FrontendEvent, ShellAction};

verus! {

/// Text returned by `greet` for the given name.
pub open spec fn greeting_text(name: Seq<char>) -> Seq<char> {
    "Hello, "@ + name + "! You've been greeted from Rust!"@
}

/// Greets `name`; never fails and has no side effect.
pub fn greet(name: &str) -> (r: String)
    ensures
        r@ == greeting_text(name@),
{
    let mut s = String::from_str("Hello, ");
    s.append(name);
    s.append("! You've been greeted from Rust!");
    s
}

/// Fixed description of the background ticker.
pub open spec fn status_text() -> Seq<char> {
    "Background task is running"@
}

/// Reports that the background ticker is running.
pub fn get_background_task_status() -> (r: String)
    ensures
        r@ == status_text(),
{
    String::from_str("Background task is running")
}

/// Fixed acknowledgement of a manual trigger.
pub open spec fn triggered_text() -> Seq<char> {
    "Background task triggered manually"@
}

/// Acknowledges a manual trigger of the background task.
pub fn trigger_background_task() -> (r: String)
    ensures
        r@ == triggered_text(),
{
    String::from_str("Background task triggered manually")
}

/// Text of an error reported to the frontend: the underlying message, or a
/// generic one where that message is empty, so that a failure always
/// carries a description.
pub open spec fn error_text_spec(e: Seq<char>, fallback: Seq<char>) -> Seq<char> {
    if e.len() == 0 {
        fallback
    } else {
        e
    }
}

/// Turns the outcome of a display request into the command's result: success
/// stays success, and a failure becomes a non-empty error text.
pub fn notification_result(shown: Result<(), String>) -> (r: Result<(), String>)
    ensures
        r is Ok <==> shown is Ok,
        shown matches Err(e) ==> (r matches Err(m) && m@ == error_text_spec(
            e@,
            "notification could not be shown"@,
        )),
        r matches Err(m) ==> m@.len() > 0,
{
    match shown {
        Ok(()) => Ok(()),
        Err(e) => {
            if e.as_str().unicode_len() == 0 {
                proof {
                    reveal_strlit("notification could not be shown");
                }
                Err(String::from_str("notification could not be shown"))
            } else {
                Err(e)
            }
        },
    }
}

/// A notification to display: a title and a body.
pub struct NotificationRequest {
    pub title: String,
    pub body: String,
}

pub open spec fn due_item_title() -> Seq<char> {
    "Action Item Due"@
}

/// Body of the notification for a due item: the title in double quotes,
/// then " is due ", then the due date as given.
pub open spec fn due_item_body(title: Seq<char>, due_date: Seq<char>) -> Seq<char> {
    "\""@ + title + "\" is due "@ + due_date
}

/// The notification announcing that the action item `title` is due.
pub fn due_item_notification(title: &str, due_date: &str) -> (r: NotificationRequest)
    ensures
        r.title@ == due_item_title(),
        r.body@ == due_item_body(title@, due_date@),
{
    let mut body = String::from_str("\"");
    body.append(title);
    body.append("\" is due ");
    body.append(due_date);
    NotificationRequest { title: String::from_str("Action Item Due"), body }
}

/// Number of times `ev` is emitted by `acts`.
pub open spec fn emission_count(acts: Seq<ShellAction>, ev: FrontendEvent) -> nat
    decreases acts.len(),
{
    if acts.len() == 0 {
        0
    } else {
        (if acts[0] == ShellAction::Emit(ev) {
            1nat
        } else {
            0nat
        }) + emission_count(acts.drop_first(), ev)
    }
}

pub open spec fn clear_request_spec() -> Seq<ShellAction> {
    seq![ShellAction::Emit(FrontendEvent::ClearDueItemNotifications)]
}

/// Actions of a request to clear due-item notifications: one signal to the
/// frontend, which owns that state. The operating system is not touched.
pub fn clear_due_item_actions() -> (r: Vec<ShellAction>)
    ensures
        r@ == clear_request_spec(),
{
    let r = vec![ShellAction::Emit(FrontendEvent::ClearDueItemNotifications)];
    assert(r@ =~= clear_request_spec());
    r
}

/// Whatever came before, a clear request emits the clear event exactly once
/// and nothing else.
pub proof fn lemma_clear_emits_once()
    ensures
        emission_count(clear_request_spec(), FrontendEvent::ClearDueItemNotifications) == 1,
        clear_request_spec().len() == 1,
{
    reveal_with_fuel(emission_count, 2);
    assert(clear_request_spec().drop_first() =~= Seq::<ShellAction>::empty());
}

pub open spec fn clear_confirmation() -> Seq<char> {
    "Notification clear request sent to frontend"@
}

/// Result of a clear request given the outcome of its emission.
pub fn clear_result(emitted: Result<(), String>) -> (r: Result<String, String>)
    ensures
        emitted is Ok ==> (r matches Ok(m) && m@ == clear_confirmation()),
        emitted matches Err(e) ==> (r matches Err(m) && m@ == error_text_spec(
            e@,
            "event could not be emitted"@,
        )),
        r matches Err(m) ==> m@.len() > 0,
{
    match emitted {
        Ok(()) => Ok(String::from_str("Notification clear request sent to frontend")),
        Err(e) => {
            if e.as_str().unicode_len() == 0 {
                proof {
                    reveal_strlit("event could not be emitted");
                }
                Err(String::from_str("event could not be emitted"))
            } else {
                Err(e)
            }
        },
    }
}

} // verus!
