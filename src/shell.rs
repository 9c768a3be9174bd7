//! Tray, menu and window rules: which actions each user gesture asks for,
//! and what those actions do to the main window and the process.
use vstd::prelude::*;
use crate::events::{FrontendEvent, Notice, ShellAction};
use vstd::string::StrSliceExecFns;

verus! {

/// Mouse button reported with a tray click.
#[derive(Clone, Copy, Debug, PartialEq, Eq, Structural)]
pub enum MouseButton {
    Left,
    Right,
    Middle,
}

/// Whether a tray click reports the press or the release of the button.
#[derive(Clone, Copy, Debug, PartialEq, Eq, Structural)]
pub enum ButtonState {
    Down,
    Up,
}

/// Entries of the tray menu.
#[derive(Clone, Copy, Debug, PartialEq, Eq, Structural)]
pub enum MenuCommand {
    Show,
    Hide,
    Status,
    Trigger,
    ClearNotifications,
    Quit,
}

/// Identifier under which an entry is registered in the tray menu.
pub open spec fn menu_id_spec(c: MenuCommand) -> Seq<char> {
    match c {
        MenuCommand::Show => "show"@,
        MenuCommand::Hide => "hide"@,
        MenuCommand::Status => "status"@,
        MenuCommand::Trigger => "trigger"@,
        MenuCommand::ClearNotifications => "clear-notifications"@,
        MenuCommand::Quit => "quit"@,
    }
}

impl MenuCommand {
    pub fn id(&self) -> (r: &'static str)
        ensures
            r@ == menu_id_spec(*self),
    {
        match self {
            MenuCommand::Show => "show",
            MenuCommand::Hide => "hide",
            MenuCommand::Status => "status",
            MenuCommand::Trigger => "trigger",
            MenuCommand::ClearNotifications => "clear-notifications",
            MenuCommand::Quit => "quit",
        }
    }
}

/// Character-wise equality of two texts.
fn text_eq(a: &str, b: &str) -> (r: bool)
    ensures
        r == (a@ == b@),
{
    let n = a.unicode_len();
    let m = b.unicode_len();
    if n != m {
        return false;
    }
    let mut i: usize = 0;
    while i < n
        invariant
            n == a@.len(),
            m == b@.len(),
            n == m,
            i <= n,
            forall|j: int| 0 <= j < i ==> a@[j] == b@[j],
        decreases n - i,
    {
        if a.get_char(i) != b.get_char(i) {
            return false;
        }
        i = i + 1;
    }
    assert(a@ =~= b@);
    true
}

/// The menu entry registered under `id`, if any.
pub open spec fn menu_command_spec(id: Seq<char>) -> Option<MenuCommand> {
    if id == "show"@ {
        Some(MenuCommand::Show)
    } else if id == "hide"@ {
        Some(MenuCommand::Hide)
    } else if id == "status"@ {
        Some(MenuCommand::Status)
    } else if id == "trigger"@ {
        Some(MenuCommand::Trigger)
    } else if id == "clear-notifications"@ {
        Some(MenuCommand::ClearNotifications)
    } else if id == "quit"@ {
        Some(MenuCommand::Quit)
    } else {
        None
    }
}

pub fn menu_command_of(id: &str) -> (r: Option<MenuCommand>)
    ensures
        r == menu_command_spec(id@),
{
    if text_eq(id, "show") {
        Some(MenuCommand::Show)
    } else if text_eq(id, "hide") {
        Some(MenuCommand::Hide)
    } else if text_eq(id, "status") {
        Some(MenuCommand::Status)
    } else if text_eq(id, "trigger") {
        Some(MenuCommand::Trigger)
    } else if text_eq(id, "clear-notifications") {
        Some(MenuCommand::ClearNotifications)
    } else if text_eq(id, "quit") {
        Some(MenuCommand::Quit)
    } else {
        None
    }
}

/// Each entry is found again under its own identifier.
pub proof fn lemma_menu_id_round_trip(c: MenuCommand)
    ensures
        menu_command_spec(menu_id_spec(c)) == Some(c),
{
    reveal_strlit("show");
    reveal_strlit("hide");
    reveal_strlit("status");
    reveal_strlit("trigger");
    reveal_strlit("clear-notifications");
    reveal_strlit("quit");
    assert("hide"@[0] != "show"@[0]);
    assert("quit"@[0] != "show"@[0]);
    assert("quit"@[0] != "hide"@[0]);
    assert("status"@.len() != "show"@.len() && "status"@.len() != "hide"@.len());
    assert("trigger"@.len() != "show"@.len() && "trigger"@.len() != "hide"@.len());
    assert("trigger"@.len() != "status"@.len());
    assert("clear-notifications"@.len() != "show"@.len());
    assert("clear-notifications"@.len() != "hide"@.len());
    assert("clear-notifications"@.len() != "status"@.len());
    assert("clear-notifications"@.len() != "trigger"@.len());
    assert("quit"@.len() != "status"@.len() && "quit"@.len() != "trigger"@.len());
    assert("quit"@.len() != "clear-notifications"@.len());
}

/// The main window as the shell sees it.
#[derive(Clone, Copy, Debug, PartialEq, Eq, Structural)]
pub struct WindowState {
    pub visible: bool,
    pub focused: bool,
}

/// The process: its one main window, if attached, and whether it still runs.
#[derive(Clone, Copy, Debug, PartialEq, Eq, Structural)]
pub struct ShellState {
    pub window: Option<WindowState>,
    pub running: bool,
}

/// Effect of one action on the shell.
pub open spec fn apply_action(s: ShellState, a: ShellAction) -> ShellState {
    match a {
        ShellAction::ShowWindow => ShellState {
            window: match s.window {
                Some(w) => Some(WindowState { visible: true, ..w }),
                None => None,
            },
            ..s
        },
        ShellAction::FocusWindow => ShellState {
            window: match s.window {
                Some(w) => Some(WindowState { focused: w.visible, ..w }),
                None => None,
            },
            ..s
        },
        ShellAction::HideWindow => ShellState {
            window: match s.window {
                Some(_) => Some(WindowState { visible: false, focused: false }),
                None => None,
            },
            ..s
        },
        ShellAction::Exit => ShellState { running: false, ..s },
        _ => s,
    }
}

/// Effect of a list of actions, performed in order.
pub open spec fn apply_actions(s: ShellState, acts: Seq<ShellAction>) -> ShellState
    decreases acts.len(),
{
    if acts.len() == 0 {
        s
    } else {
        apply_actions(apply_action(s, acts[0]), acts.drop_first())
    }
}

/// Effect of a close request on the main window, given the actions taken
/// in response: unless the close is cancelled, the window goes away and,
/// being the only one, takes the process with it.
pub open spec fn after_close_request(s: ShellState, acts: Seq<ShellAction>) -> ShellState {
    if acts.contains(ShellAction::PreventClose) {
        apply_actions(s, acts)
    } else {
        ShellState { window: None, running: false }
    }
}

impl ShellState {
    /// Performs one action on the model.
    pub fn apply(&mut self, a: ShellAction)
        ensures
            *final(self) == apply_action(*old(self), a),
    {
        match a {
            ShellAction::ShowWindow => {
                if let Some(w) = self.window {
                    self.window = Some(WindowState { visible: true, focused: w.focused });
                }
            },
            ShellAction::FocusWindow => {
                if let Some(w) = self.window {
                    self.window = Some(WindowState { visible: w.visible, focused: w.visible });
                }
            },
            ShellAction::HideWindow => {
                if self.window.is_some() {
                    self.window = Some(WindowState { visible: false, focused: false });
                }
            },
            ShellAction::Exit => {
                self.running = false;
            },
            _ => {},
        }
    }

    /// Performs the actions on the model, in order.
    pub fn apply_all(&mut self, acts: &Vec<ShellAction>)
        ensures
            *final(self) == apply_actions(*old(self), acts@),
    {
        let ghost start = *self;
        let mut i: usize = 0;
        assert(acts@.subrange(0, acts@.len() as int) =~= acts@);
        while i < acts.len()
            invariant
                i <= acts@.len(),
                apply_actions(start, acts@) == apply_actions(*self, acts@.subrange(i as int, acts@.len() as int)),
            decreases acts@.len() - i,
        {
            let ghost rest = acts@.subrange(i as int, acts@.len() as int);
            assert(rest.drop_first() =~= acts@.subrange(i + 1, acts@.len() as int));
            self.apply(acts[i]);
            i = i + 1;
        }
        assert(acts@.subrange(i as int, acts@.len() as int) =~= Seq::<ShellAction>::empty());
    }
}

/// Actions taken on a tray click: a left-button release toggles the main
/// window (hide if visible, else show and focus); a failed visibility query
/// (`visible` is `None`) counts as not visible. Other clicks, or a click
/// while no main window is attached, do nothing.
pub open spec fn tray_click_spec(
    button: MouseButton,
    state: ButtonState,
    attached: bool,
    visible: Option<bool>,
) -> Seq<ShellAction> {
    if button == MouseButton::Left && state == ButtonState::Up && attached {
        if visible == Some(true) {
            seq![ShellAction::HideWindow]
        } else {
            seq![ShellAction::ShowWindow, ShellAction::FocusWindow]
        }
    } else {
        seq![]
    }
}

pub fn tray_click_actions(
    button: MouseButton,
    state: ButtonState,
    attached: bool,
    visible: Option<bool>,
) -> (r: Vec<ShellAction>)
    ensures
        r@ == tray_click_spec(button, state, attached, visible),
{
    let mut r: Vec<ShellAction> = Vec::new();
    if button == MouseButton::Left && state == ButtonState::Up && attached {
        if visible == Some(true) {
            r.push(ShellAction::HideWindow);
        } else {
            r.push(ShellAction::ShowWindow);
            r.push(ShellAction::FocusWindow);
        }
    }
    assert(r@ =~= tray_click_spec(button, state, attached, visible));
    r
}

/// Actions taken for a tray menu entry.
pub open spec fn menu_spec(c: MenuCommand) -> Seq<ShellAction> {
    match c {
        MenuCommand::Show => seq![ShellAction::ShowWindow, ShellAction::FocusWindow],
        MenuCommand::Hide => seq![ShellAction::HideWindow],
        MenuCommand::Status => seq![ShellAction::Notify(Notice::Health)],
        MenuCommand::Trigger => seq![
            ShellAction::Notify(Notice::ManualTask),
            ShellAction::Emit(FrontendEvent::ManualTaskCompleted),
        ],
        MenuCommand::ClearNotifications => seq![
            ShellAction::Emit(FrontendEvent::ClearDueItemNotifications),
        ],
        MenuCommand::Quit => seq![ShellAction::Exit],
    }
}

/// Whether the actions of a menu entry run on a task of their own, so that
/// the menu handler does not wait for them.
pub open spec fn menu_runs_detached_spec(c: MenuCommand) -> bool {
    c == MenuCommand::Trigger
}

pub fn menu_actions(c: MenuCommand) -> (r: Vec<ShellAction>)
    ensures
        r@ == menu_spec(c),
{
    let r = match c {
        MenuCommand::Show => vec![ShellAction::ShowWindow, ShellAction::FocusWindow],
        MenuCommand::Hide => vec![ShellAction::HideWindow],
        MenuCommand::Status => vec![ShellAction::Notify(Notice::Health)],
        MenuCommand::Trigger => vec![
            ShellAction::Notify(Notice::ManualTask),
            ShellAction::Emit(FrontendEvent::ManualTaskCompleted),
        ],
        MenuCommand::ClearNotifications => vec![
            ShellAction::Emit(FrontendEvent::ClearDueItemNotifications),
        ],
        MenuCommand::Quit => vec![ShellAction::Exit],
    };
    assert(r@ =~= menu_spec(c));
    r
}

pub fn menu_runs_detached(c: MenuCommand) -> (r: bool)
    ensures
        r == menu_runs_detached_spec(c),
{
    c == MenuCommand::Trigger
}

/// Actions after the clear entry's emission: the confirmation notice is
/// shown only when the emission succeeded.
pub fn clear_menu_followup(emitted: bool) -> (r: Vec<ShellAction>)
    ensures
        emitted ==> r@ == seq![ShellAction::Notify(Notice::Cleared)],
        !emitted ==> r@.len() == 0,
{
    let mut r: Vec<ShellAction> = Vec::new();
    if emitted {
        r.push(ShellAction::Notify(Notice::Cleared));
    }
    assert(emitted ==> r@ =~= seq![ShellAction::Notify(Notice::Cleared)]);
    r
}

/// Actions taken on a close request of the main window: cancel the close and
/// hide the window instead.
pub open spec fn close_request_spec() -> Seq<ShellAction> {
    seq![ShellAction::PreventClose, ShellAction::HideWindow]
}

pub fn close_request_actions() -> (r: Vec<ShellAction>)
    ensures
        r@ == close_request_spec(),
{
    let r = vec![ShellAction::PreventClose, ShellAction::HideWindow];
    assert(r@ =~= close_request_spec());
    r
}

/// A left-button release on the tray toggles the main window: a visible
/// window ends hidden; a hidden one ends visible and focused. The process
/// keeps running either way.
pub proof fn lemma_tray_click_toggles(s: ShellState)
    requires
        s.window is Some,
    ensures
        ({
            let w = s.window->0;
            let after = apply_actions(
                s,
                tray_click_spec(MouseButton::Left, ButtonState::Up, true, Some(w.visible)),
            );
            &&& after.running == s.running
            &&& w.visible ==> after.window == Some(WindowState { visible: false, focused: false })
            &&& !w.visible ==> after.window == Some(WindowState { visible: true, focused: true })
        }),
{
    reveal_with_fuel(apply_actions, 3);
    let w = s.window->0;
    let acts = tray_click_spec(MouseButton::Left, ButtonState::Up, true, Some(w.visible));
    if !w.visible {
        let s1 = apply_action(s, ShellAction::ShowWindow);
        assert(acts.drop_first() =~= seq![ShellAction::FocusWindow]);
        assert(acts.drop_first().drop_first() =~= Seq::<ShellAction>::empty());
        assert(apply_actions(s, acts) == apply_action(s1, ShellAction::FocusWindow));
    } else {
        assert(acts.drop_first() =~= Seq::<ShellAction>::empty());
    }
}

/// A close request on the main window leaves the window attached but hidden,
/// and the process running.
pub proof fn lemma_close_request_hides(s: ShellState)
    requires
        s.window is Some,
    ensures
        after_close_request(s, close_request_spec()) == (ShellState {
            window: Some(WindowState { visible: false, focused: false }),
            running: s.running,
        }),
{
    reveal_with_fuel(apply_actions, 3);
    let acts = close_request_spec();
    assert(acts[0] == ShellAction::PreventClose);
    assert(acts.drop_first() =~= seq![ShellAction::HideWindow]);
    assert(acts.drop_first().drop_first() =~= Seq::<ShellAction>::empty());
}

/// Of the tray menu entries only quit stops the process; every other entry,
/// and every tray click, leaves a running process running.
pub proof fn lemma_only_quit_exits(
    s: ShellState,
    c: MenuCommand,
    button: MouseButton,
    state: ButtonState,
    attached: bool,
    visible: Option<bool>,
)
    ensures
        apply_actions(s, menu_spec(c)).running == (s.running && c != MenuCommand::Quit),
        apply_actions(s, tray_click_spec(button, state, attached, visible)).running == s.running,
{
    reveal_with_fuel(apply_actions, 3);
    let m = menu_spec(c);
    assert(m.len() == 1 ==> m.drop_first() =~= Seq::<ShellAction>::empty());
    assert(m.len() == 2 ==> m.drop_first() =~= seq![m[1]]);
    assert(m.len() == 2 ==> m.drop_first().drop_first() =~= Seq::<ShellAction>::empty());
    let t = tray_click_spec(button, state, attached, visible);
    assert(t.len() == 1 ==> t.drop_first() =~= Seq::<ShellAction>::empty());
    assert(t.len() == 2 ==> t.drop_first() =~= seq![t[1]]);
    assert(t.len() == 2 ==> t.drop_first().drop_first() =~= Seq::<ShellAction>::empty());
}

} // verus!
