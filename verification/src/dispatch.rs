//! The menu-to-action dispatch table and its effect on the window state.

use vstd::prelude::*;
use crate::ids::{MenuId, Notification, spec_identifier, spec_parse_id, lemma_parse_identifier,
    parse_id};

verus! {

/// The action one menu click dispatches: the dispatch table in closed
/// tagged-variant form.
#[derive(Clone, Copy, Debug, PartialEq, Eq, Structural)]
pub enum Action {
    /// Look up the window named "main"; if it exists, make it visible.
    ShowWindow,
    /// Look up the window named "main"; if it exists, make it hidden.
    HideWindow,
    /// Look up the window named "main"; if it exists, send it the named
    /// notification with no payload.
    Notify(Notification),
    /// Terminate the process immediately with exit code 0.
    Quit,
    /// Do nothing. Dispatched for every unrecognized identifier.
    NoOp,
}

/// What the dispatcher observes of the main window: whether a window named
/// "main" exists at the moment of dispatch, and whether it is visible.
/// `visible` carries no meaning while `exists` is false.
#[derive(Clone, Copy, Debug, PartialEq, Eq, Structural)]
pub struct WindowState {
    pub exists: bool,
    pub visible: bool,
}

/// Everything one dispatch does: the window state afterwards, the notification
/// delivered to the window (at most one, with no payload), and the exit code
/// if and only if the process terminates.
#[derive(Clone, Copy, Debug, PartialEq, Eq)]
pub struct StepOutcome {
    pub window: WindowState,
    pub notification: Option<Notification>,
    pub exit_code: Option<i32>,
}

/// The documented action of each recognized menu identifier.
pub open spec fn spec_action_of(id: MenuId) -> Action {
    match id {
        MenuId::Show => Action::ShowWindow,
        MenuId::Hide => Action::HideWindow,
        MenuId::ClickThrough => Action::Notify(Notification::ToggleClickThrough),
        MenuId::ResetPos => Action::Notify(Notification::ResetPosition),
        MenuId::Autostart => Action::Notify(Notification::ToggleAutostart),
        MenuId::Quit => Action::Quit,
    }
}

/// The action a raw menu-event token dispatches: the documented action of the
/// identifier it denotes, or nothing for a token outside the fixed set.
pub open spec fn spec_dispatch(s: Seq<char>) -> Action {
    match spec_parse_id(s) {
        Some(id) => spec_action_of(id),
        None => Action::NoOp,
    }
}

/// The effect of one action on an observed window state. Every window-directed
/// action is silently skipped when the window does not exist; no action ever
/// fails.
pub open spec fn spec_apply(a: Action, w: WindowState) -> StepOutcome {
    match a {
        Action::ShowWindow => StepOutcome {
            window: if w.exists {
                WindowState { exists: true, visible: true }
            } else {
                w
            },
            notification: None,
            exit_code: None,
        },
        Action::HideWindow => StepOutcome {
            window: if w.exists {
                WindowState { exists: true, visible: false }
            } else {
                w
            },
            notification: None,
            exit_code: None,
        },
        Action::Notify(n) => StepOutcome {
            window: w,
            notification: if w.exists {
                Some(n)
            } else {
                None
            },
            exit_code: None,
        },
        Action::Quit => StepOutcome { window: w, notification: None, exit_code: Some(0) },
        Action::NoOp => StepOutcome { window: w, notification: None, exit_code: None },
    }
}

/// One full dispatch: parse the token, pick the action, apply it to the
/// observed window state.
pub open spec fn spec_step(s: Seq<char>, w: WindowState) -> StepOutcome {
    spec_apply(spec_dispatch(s), w)
}

/// Map a recognized menu identifier to its documented action.
pub fn action_of(id: MenuId) -> (a: Action)
    ensures
        a == spec_action_of(id),
{
    match id {
        MenuId::Show => Action::ShowWindow,
        MenuId::Hide => Action::HideWindow,
        MenuId::ClickThrough => Action::Notify(Notification::ToggleClickThrough),
        MenuId::ResetPos => Action::Notify(Notification::ResetPosition),
        MenuId::Autostart => Action::Notify(Notification::ToggleAutostart),
        MenuId::Quit => Action::Quit,
    }
}

/// Dispatch one raw menu-event token: exactly the documented action for each
/// of the six fixed identifiers, and a no-op for every other token.
pub fn dispatch(s: &str) -> (a: Action)
    ensures
        a == spec_dispatch(s@),
{
    match parse_id(s) {
        Some(id) => action_of(id),
        None => Action::NoOp,
    }
}

/// Apply one action to an observed window state, yielding the full outcome:
/// the window state afterwards, the notification sent (if any), and the exit
/// code (if the process terminates).
pub fn apply(a: Action, w: WindowState) -> (o: StepOutcome)
    ensures
        o == spec_apply(a, w),
{
    match a {
        Action::ShowWindow => StepOutcome {
            window: if w.exists {
                WindowState { exists: true, visible: true }
            } else {
                w
            },
            notification: None,
            exit_code: None,
        },
        Action::HideWindow => StepOutcome {
            window: if w.exists {
                WindowState { exists: true, visible: false }
            } else {
                w
            },
            notification: None,
            exit_code: None,
        },
        Action::Notify(n) => StepOutcome {
            window: w,
            notification: if w.exists {
                Some(n)
            } else {
                None
            },
            exit_code: None,
        },
        Action::Quit => StepOutcome { window: w, notification: None, exit_code: Some(0) },
        Action::NoOp => StepOutcome { window: w, notification: None, exit_code: None },
    }
}

/// One full dispatch step on a raw menu-event token.
pub fn step(s: &str, w: WindowState) -> (o: StepOutcome)
    ensures
        o == spec_step(s@, w),
{
    let a = dispatch(s);
    apply(a, w)
}

/// Law: each of the six fixed identifiers dispatches exactly one of the
/// documented actions and no other — the full outcome of the step is pinned
/// for every identifier and every window state.
pub proof fn lemma_dispatch_table(id: MenuId, w: WindowState)
    ensures
        spec_step(spec_identifier(id), w) == (match id {
            MenuId::Show => (StepOutcome {
                window: if w.exists {
                    WindowState { exists: true, visible: true }
                } else {
                    w
                },
                notification: None,
                exit_code: None,
            }),
            MenuId::Hide => (StepOutcome {
                window: if w.exists {
                    WindowState { exists: true, visible: false }
                } else {
                    w
                },
                notification: None,
                exit_code: None,
            }),
            MenuId::ClickThrough => (StepOutcome {
                window: w,
                notification: if w.exists {
                    Some(Notification::ToggleClickThrough)
                } else {
                    None
                },
                exit_code: None,
            }),
            MenuId::ResetPos => (StepOutcome {
                window: w,
                notification: if w.exists {
                    Some(Notification::ResetPosition)
                } else {
                    None
                },
                exit_code: None,
            }),
            MenuId::Autostart => (StepOutcome {
                window: w,
                notification: if w.exists {
                    Some(Notification::ToggleAutostart)
                } else {
                    None
                },
                exit_code: None,
            }),
            MenuId::Quit => (StepOutcome {
                window: w,
                notification: None,
                exit_code: Some(0),
            }),
        }),
{
    lemma_parse_identifier(id);
}

/// Law: dispatching an unrecognized token is a no-op — the window state is
/// unchanged, no notification is sent, the process does not terminate.
pub proof fn lemma_unrecognized_is_noop(s: Seq<char>, w: WindowState)
    requires
        spec_parse_id(s) is None,
    ensures
        spec_step(s, w) == (StepOutcome { window: w, notification: None, exit_code: None }),
{
}

/// Law: dispatching `show` or `hide` while no window named "main" exists has
/// no observable effect at all.
pub proof fn lemma_show_hide_without_window(id: MenuId, w: WindowState)
    requires
        !w.exists,
        id == MenuId::Show || id == MenuId::Hide,
    ensures
        spec_step(spec_identifier(id), w) == (StepOutcome {
            window: w,
            notification: None,
            exit_code: None,
        }),
{
    lemma_parse_identifier(id);
}

/// Law: dispatching `quit` terminates the process with exit code 0, whatever
/// the window state; it touches no window and sends no notification.
pub proof fn lemma_quit_exits_zero(w: WindowState)
    ensures
        spec_step(spec_identifier(MenuId::Quit), w) == (StepOutcome {
            window: w,
            notification: None,
            exit_code: Some(0),
        }),
{
    lemma_parse_identifier(MenuId::Quit);
}

/// Law: each notifying identifier, dispatched while the window exists,
/// delivers exactly one notification — the one of the corresponding name —
/// and nothing else: the window state is unchanged and the process does not
/// terminate.
pub proof fn lemma_notify_with_window(id: MenuId, w: WindowState)
    requires
        w.exists,
        id == MenuId::ClickThrough || id == MenuId::ResetPos || id == MenuId::Autostart,
    ensures
        id == MenuId::ClickThrough ==> spec_step(spec_identifier(id), w).notification == Some(
            Notification::ToggleClickThrough,
        ),
        id == MenuId::ResetPos ==> spec_step(spec_identifier(id), w).notification == Some(
            Notification::ResetPosition,
        ),
        id == MenuId::Autostart ==> spec_step(spec_identifier(id), w).notification == Some(
            Notification::ToggleAutostart,
        ),
        spec_step(spec_identifier(id), w).window == w,
        spec_step(spec_identifier(id), w).exit_code is None,
{
    lemma_parse_identifier(id);
}

} // verus!

