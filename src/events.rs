//! What the shell sends out: events toward the frontend, notifications
//! toward the operating system, and the actions on the main window.
use vstd::prelude::*;

verus! {

/// A named signal sent from the shell to the attached frontend.
#[derive(Clone, Copy, Debug, PartialEq, Eq, Structural)]
pub enum FrontendEvent {
    CheckDueActionItems,
    BackgroundTaskCompleted,
    ClearDueItemNotifications,
    ManualTaskCompleted,
}

impl FrontendEvent {
    pub open spec fn spec_name(self) -> Seq<char> {
        match self {
            FrontendEvent::CheckDueActionItems => "check-due-action-items"@,
            FrontendEvent::BackgroundTaskCompleted => "background-task-completed"@,
            FrontendEvent::ClearDueItemNotifications => "clear-due-item-notifications"@,
            FrontendEvent::ManualTaskCompleted => "manual-task-completed"@,
        }
    }

    /// Text payload carried by the event; `None` for an empty payload.
    pub open spec fn spec_payload(self) -> Option<Seq<char>> {
        match self {
            FrontendEvent::CheckDueActionItems => None,
            FrontendEvent::BackgroundTaskCompleted => Some("Task completed successfully"@),
            FrontendEvent::ClearDueItemNotifications => None,
            FrontendEvent::ManualTaskCompleted => Some("Manual task completed successfully"@),
        }
    }

    /// The name under which the frontend listens for this event.
    pub fn name(&self) -> (r: &'static str)
        ensures
            r@ == self.spec_name(),
    {
        match self {
            FrontendEvent::CheckDueActionItems => "check-due-action-items",
            FrontendEvent::BackgroundTaskCompleted => "background-task-completed",
            FrontendEvent::ClearDueItemNotifications => "clear-due-item-notifications",
            FrontendEvent::ManualTaskCompleted => "manual-task-completed",
        }
    }

    /// The event's text payload, if it carries one.
    pub fn payload(&self) -> (r: Option<&'static str>)
        ensures
            r matches Some(p) ==> self.spec_payload() == Some(p@),
            r is None <==> self.spec_payload() is None,
    {
        match self {
            FrontendEvent::CheckDueActionItems => None,
            FrontendEvent::BackgroundTaskCompleted => Some("Task completed successfully"),
            FrontendEvent::ClearDueItemNotifications => None,
            FrontendEvent::ManualTaskCompleted => Some("Manual task completed successfully"),
        }
    }
}

/// A fixed notification that the shell shows on its own initiative.
#[derive(Clone, Copy, Debug, PartialEq, Eq, Structural)]
pub enum Notice {
    /// Health report shown from the tray's status entry.
    Health,
    /// Shown when a manual task is run from the tray.
    ManualTask,
    /// Confirms that the frontend was asked to clear its notifications.
    Cleared,
}

impl Notice {
    pub open spec fn spec_title(self) -> Seq<char> {
        match self {
            Notice::Health => "Background Service"@,
            Notice::ManualTask => "Manual Task"@,
            Notice::Cleared => "Notifications Cleared"@,
        }
    }

    pub open spec fn spec_body(self) -> Seq<char> {
        match self {
            Notice::Health => "Background task is running"@,
            Notice::ManualTask => "Background task triggered manually"@,
            Notice::Cleared => "Due item notifications were cleared"@,
        }
    }

    pub fn title(&self) -> (r: &'static str)
        ensures
            r@ == self.spec_title(),
    {
        match self {
            Notice::Health => "Background Service",
            Notice::ManualTask => "Manual Task",
            Notice::Cleared => "Notifications Cleared",
        }
    }

    pub fn body(&self) -> (r: &'static str)
        ensures
            r@ == self.spec_body(),
    {
        match self {
            Notice::Health => "Background task is running",
            Notice::ManualTask => "Background task triggered manually",
            Notice::Cleared => "Due item notifications were cleared",
        }
    }
}

/// One effect that the host performs on the shell's behalf.
#[derive(Clone, Copy, Debug, PartialEq, Eq, Structural)]
pub enum ShellAction {
    /// Send the event to the frontend.
    Emit(FrontendEvent),
    /// Ask the operating system to display the notice.
    Notify(Notice),
    ShowWindow,
    FocusWindow,
    HideWindow,
    /// Cancel the default handling of a close request.
    PreventClose,
    /// Terminate the process at once.
    Exit,
}

} // verus!
