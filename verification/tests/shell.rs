use window_shell::commands::CommandSession;
use window_shell::startup::{
    command_for_name, command_names, run_failure_message, startup_config, validate_registry,
    CommandKind, LogLevel,
};
use window_shell::window::{apply_action, HostAction, HostResponse, WindowState};

/// Drives a command session against a simulated host window. The host applies
/// each mutation request to `state`, except that it rejects the request with
/// index `fail_on.0` (counting the requests actually made) with the error
/// text `fail_on.1`, leaving the state unchanged for that request.
fn drive(
    mut session: CommandSession,
    mut state: WindowState,
    fail_on: Option<(usize, &str)>,
) -> (WindowState, Result<(), String>, Vec<HostAction>) {
    let mut performed: Vec<HostAction> = Vec::new();
    let mut i: usize = 0;
    while let Some(action) = session.next_action() {
        performed.push(action);
        let response = match fail_on {
            Some((k, msg)) if k == i => HostResponse::Failed(msg.to_string()),
            _ => {
                state = apply_action(state, action);
                HostResponse::Succeeded
            }
        };
        session.on_response(response);
        i += 1;
    }
    let outcome = session.outcome().expect("a finished session has an outcome");
    (state, outcome, performed)
}

fn all_set() -> WindowState {
    WindowState { ignore_cursor_events: true, decorations: true, always_on_top: true }
}

fn all_clear() -> WindowState {
    WindowState { ignore_cursor_events: false, decorations: false, always_on_top: false }
}

#[test]
fn set_opacity_plan_is_independent_of_the_value() {
    let values = [0.0_f64, 1.0, -3.5, 2.0, 0.25, f64::NAN, f64::INFINITY];
    for v in values {
        let (state, outcome, performed) =
            drive(CommandSession::set_opacity(v.to_bits()), all_set(), None);
        assert_eq!(
            performed,
            vec![
                HostAction::SetIgnoreCursorEvents(false),
                HostAction::SetDecorations(false),
            ]
        );
        assert_eq!(outcome, Ok(()));
        assert_eq!(
            state,
            WindowState { ignore_cursor_events: false, decorations: false, always_on_top: true }
        );
    }
}

#[test]
fn set_opacity_disables_cursor_ignore_and_decorations() {
    let (state, outcome, _) = drive(CommandSession::set_opacity(0), all_set(), None);
    assert_eq!(outcome, Ok(()));
    assert!(!state.ignore_cursor_events);
    assert!(!state.decorations);
    assert!(state.always_on_top);
}

#[test]
fn set_always_on_top_round_trips_both_flags() {
    for flag in [true, false] {
        for initial in [all_set(), all_clear()] {
            let (state, outcome, performed) =
                drive(CommandSession::set_always_on_top(flag), initial, None);
            assert_eq!(outcome, Ok(()));
            assert_eq!(performed, vec![HostAction::SetAlwaysOnTop(flag)]);
            assert_eq!(state.always_on_top, flag);
            assert_eq!(state.ignore_cursor_events, initial.ignore_cursor_events);
            assert_eq!(state.decorations, initial.decorations);
        }
    }
}

#[test]
fn set_opacity_twice_equals_once() {
    let (once, r1, _) = drive(CommandSession::set_opacity(0), all_set(), None);
    let (twice, r2, _) = drive(CommandSession::set_opacity(0), once, None);
    assert_eq!(r1, Ok(()));
    assert_eq!(r2, Ok(()));
    assert_eq!(once, twice);
}

#[test]
fn set_always_on_top_twice_equals_once() {
    for flag in [true, false] {
        let (once, _, _) = drive(CommandSession::set_always_on_top(flag), all_clear(), None);
        let (twice, _, _) = drive(CommandSession::set_always_on_top(flag), once, None);
        assert_eq!(once, twice);
    }
}

#[test]
fn set_opacity_decorations_failure_keeps_first_step() {
    let (state, outcome, performed) =
        drive(CommandSession::set_opacity(0), all_set(), Some((1, "denied")));
    assert_eq!(outcome, Err("Failed to set decorations: denied".to_string()));
    assert!(!state.ignore_cursor_events);
    assert!(state.decorations);
    assert!(state.always_on_top);
    assert_eq!(performed.len(), 2);
}

#[test]
fn set_opacity_first_failure_short_circuits() {
    let (state, outcome, performed) =
        drive(CommandSession::set_opacity(0), all_set(), Some((0, "no such window")));
    assert_eq!(outcome, Err("Failed to set cursor events: no such window".to_string()));
    assert_eq!(state, all_set());
    assert_eq!(performed, vec![HostAction::SetIgnoreCursorEvents(false)]);
}

#[test]
fn set_always_on_top_failure_is_wrapped() {
    let (state, outcome, _) =
        drive(CommandSession::set_always_on_top(true), all_clear(), Some((0, "gone")));
    assert_eq!(outcome, Err("Failed to set always on top: gone".to_string()));
    assert_eq!(state, all_clear());
}

#[test]
fn startup_attaches_logger_only_in_debug_builds() {
    let debug = startup_config(true);
    assert!(debug.attach_logger);
    assert_eq!(debug.log_level, LogLevel::Info);
    let release = startup_config(false);
    assert!(!release.attach_logger);
    assert_eq!(release.log_level, LogLevel::Info);
}

#[test]
fn command_names_are_fixed() {
    let names = command_names();
    assert_eq!(names, vec!["set_opacity".to_string(), "set_always_on_top".to_string()]);
}

#[test]
fn registry_with_exact_names_is_valid() {
    assert_eq!(validate_registry(&command_names()), Ok(()));
    let swapped = vec!["set_always_on_top".to_string(), "set_opacity".to_string()];
    assert_eq!(validate_registry(&swapped), Ok(()));
}

#[test]
fn registry_with_missing_extra_or_duplicate_names_is_rejected() {
    let expected = Err("invalid command registry".to_string());
    assert_eq!(validate_registry(&vec![]), expected);
    assert_eq!(validate_registry(&vec!["set_opacity".to_string()]), expected);
    assert_eq!(
        validate_registry(&vec!["set_opacity".to_string(), "set_opacity".to_string()]),
        expected
    );
    assert_eq!(
        validate_registry(&vec![
            "set_opacity".to_string(),
            "set_always_on_top".to_string(),
            "quit".to_string(),
        ]),
        expected
    );
    assert_eq!(
        validate_registry(&vec!["set_opacity".to_string(), "quit".to_string()]),
        expected
    );
}

#[test]
fn dispatch_table_maps_names_to_commands() {
    assert_eq!(command_for_name(&"set_opacity".to_string()), Some(CommandKind::SetOpacity));
    assert_eq!(
        command_for_name(&"set_always_on_top".to_string()),
        Some(CommandKind::SetAlwaysOnTop)
    );
    assert_eq!(command_for_name(&"quit".to_string()), None);
    assert_eq!(command_for_name(&"".to_string()), None);
}

#[test]
fn run_loop_failure_diagnostic_is_fixed() {
    assert_eq!(run_failure_message(), "error while running tauri application".to_string());
}

#[test]
fn apply_action_sets_only_the_named_flag() {
    let s = all_clear();
    let a = apply_action(s, HostAction::SetIgnoreCursorEvents(true));
    assert_eq!(
        a,
        WindowState { ignore_cursor_events: true, decorations: false, always_on_top: false }
    );
    let b = apply_action(s, HostAction::SetDecorations(true));
    assert_eq!(
        b,
        WindowState { ignore_cursor_events: false, decorations: true, always_on_top: false }
    );
    let c = apply_action(s, HostAction::SetAlwaysOnTop(true));
    assert_eq!(
        c,
        WindowState { ignore_cursor_events: false, decorations: false, always_on_top: true }
    );
}
