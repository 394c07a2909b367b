use tray_control::dispatch::{apply, dispatch, step, Action, StepOutcome, WindowState};
use tray_control::ids::{parse_id, MenuId, Notification};

#[test]
fn parse_recognizes_each_identifier() {
    assert_eq!(parse_id("show"), Some(MenuId::Show));
    assert_eq!(parse_id("hide"), Some(MenuId::Hide));
    assert_eq!(parse_id("click_through"), Some(MenuId::ClickThrough));
    assert_eq!(parse_id("reset_pos"), Some(MenuId::ResetPos));
    assert_eq!(parse_id("autostart"), Some(MenuId::Autostart));
    assert_eq!(parse_id("quit"), Some(MenuId::Quit));
}

#[test]
fn parse_round_trips_identifier_tokens() {
    let ids = [
        MenuId::Show,
        MenuId::Hide,
        MenuId::ClickThrough,
        MenuId::ResetPos,
        MenuId::Autostart,
        MenuId::Quit,
    ];
    for id in ids {
        assert_eq!(parse_id(id.identifier()), Some(id));
    }
}

#[test]
fn parse_rejects_unknown_tokens() {
    assert_eq!(parse_id(""), None);
    assert_eq!(parse_id("Show"), None);
    assert_eq!(parse_id("quit "), None);
    assert_eq!(parse_id("restart"), None);
    assert_eq!(parse_id("show_hide"), None);
}

#[test]
fn dispatch_maps_each_identifier_to_its_action() {
    assert_eq!(dispatch("show"), Action::ShowWindow);
    assert_eq!(dispatch("hide"), Action::HideWindow);
    assert_eq!(
        dispatch("click_through"),
        Action::Notify(Notification::ToggleClickThrough)
    );
    assert_eq!(
        dispatch("reset_pos"),
        Action::Notify(Notification::ResetPosition)
    );
    assert_eq!(
        dispatch("autostart"),
        Action::Notify(Notification::ToggleAutostart)
    );
    assert_eq!(dispatch("quit"), Action::Quit);
}

#[test]
fn dispatch_unknown_identifier_is_noop() {
    assert_eq!(dispatch("bogus"), Action::NoOp);
    let before = WindowState {
        exists: true,
        visible: true,
    };
    let outcome = step("bogus", before);
    assert_eq!(
        outcome,
        StepOutcome {
            window: before,
            notification: None,
            exit_code: None,
        }
    );
}

#[test]
fn show_without_window_changes_nothing() {
    let before = WindowState {
        exists: false,
        visible: false,
    };
    let outcome = step("show", before);
    assert_eq!(
        outcome,
        StepOutcome {
            window: before,
            notification: None,
            exit_code: None,
        }
    );
}

#[test]
fn hide_without_window_changes_nothing() {
    let before = WindowState {
        exists: false,
        visible: false,
    };
    let outcome = step("hide", before);
    assert_eq!(
        outcome,
        StepOutcome {
            window: before,
            notification: None,
            exit_code: None,
        }
    );
}

#[test]
fn hide_makes_visible_window_hidden() {
    let before = WindowState {
        exists: true,
        visible: true,
    };
    let outcome = step("hide", before);
    assert_eq!(
        outcome,
        StepOutcome {
            window: WindowState {
                exists: true,
                visible: false,
            },
            notification: None,
            exit_code: None,
        }
    );
}

#[test]
fn show_makes_hidden_window_visible() {
    let before = WindowState {
        exists: true,
        visible: false,
    };
    let outcome = step("show", before);
    assert_eq!(
        outcome,
        StepOutcome {
            window: WindowState {
                exists: true,
                visible: true,
            },
            notification: None,
            exit_code: None,
        }
    );
}

#[test]
fn quit_exits_zero_regardless_of_window_state() {
    let states = [
        WindowState {
            exists: false,
            visible: false,
        },
        WindowState {
            exists: true,
            visible: false,
        },
        WindowState {
            exists: true,
            visible: true,
        },
    ];
    for before in states {
        let outcome = step("quit", before);
        assert_eq!(
            outcome,
            StepOutcome {
                window: before,
                notification: None,
                exit_code: Some(0),
            }
        );
    }
}

#[test]
fn reset_pos_with_window_sends_one_reset_position_notification() {
    let before = WindowState {
        exists: true,
        visible: true,
    };
    let outcome = step("reset_pos", before);
    assert_eq!(
        outcome,
        StepOutcome {
            window: before,
            notification: Some(Notification::ResetPosition),
            exit_code: None,
        }
    );
}

#[test]
fn click_through_with_window_sends_one_toggle_click_through_notification() {
    let before = WindowState {
        exists: true,
        visible: false,
    };
    let outcome = step("click_through", before);
    assert_eq!(
        outcome,
        StepOutcome {
            window: before,
            notification: Some(Notification::ToggleClickThrough),
            exit_code: None,
        }
    );
}

#[test]
fn autostart_with_window_sends_one_toggle_autostart_notification() {
    let before = WindowState {
        exists: true,
        visible: true,
    };
    let outcome = step("autostart", before);
    assert_eq!(
        outcome,
        StepOutcome {
            window: before,
            notification: Some(Notification::ToggleAutostart),
            exit_code: None,
        }
    );
}

#[test]
fn notify_without_window_sends_nothing() {
    let before = WindowState {
        exists: false,
        visible: false,
    };
    for token in ["click_through", "reset_pos", "autostart"] {
        let outcome = step(token, before);
        assert_eq!(
            outcome,
            StepOutcome {
                window: before,
                notification: None,
                exit_code: None,
            }
        );
    }
}

#[test]
fn notification_wire_names_are_fixed() {
    assert_eq!(Notification::ToggleClickThrough.name(), "toggle-click-through");
    assert_eq!(Notification::ResetPosition.name(), "reset-position");
    assert_eq!(Notification::ToggleAutostart.name(), "toggle-autostart");
}

#[test]
fn apply_skips_window_actions_when_window_is_absent() {
    let absent = WindowState {
        exists: false,
        visible: false,
    };
    for action in [
        Action::ShowWindow,
        Action::HideWindow,
        Action::Notify(Notification::ResetPosition),
        Action::NoOp,
    ] {
        let outcome = apply(action, absent);
        assert_eq!(
            outcome,
            StepOutcome {
                window: absent,
                notification: None,
                exit_code: None,
            }
        );
    }
}
