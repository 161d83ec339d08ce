use omega_tui::app::{App, Panel, Rect};
use omega_tui::clipboard::{KeyCode, KeyInput, CONTROL, SHIFT};
use omega_tui::overlay::{ConfirmChoice, ConfirmIntent, OverlayState};
use omega_tui::overlay_keys::{ConfirmFollowUp, OverlayKeyOutcome};
use omega_tui::picker::{
    OperatorPickerAction, OperatorPickerIntent, OperatorPickerItem, OperatorPickerOverlayBehavior, OperatorPickerRequest,
    OperatorPickerShortcut,
};

fn key(code: KeyCode, modifiers: u8) -> KeyInput {
    KeyInput { code, modifiers }
}

/// Presses keys in turn; a picker action that a key triggers is run.
fn replay_keys(app: &mut App, keys: &[(KeyCode, u8)]) -> Vec<OverlayKeyOutcome> {
    let mut outcomes = Vec::new();
    for (code, modifiers) in keys {
        let outcome = app.overlay_key_step(key(*code, *modifiers));
        if let OverlayKeyOutcome::RunPickerAction { action, selected_item } = &outcome {
            app.run_picker_action(action.clone(), selected_item.clone());
        }
        outcomes.push(outcome);
    }
    outcomes
}

fn sample_operator_picker_request() -> OperatorPickerRequest {
    OperatorPickerRequest {
        picker_id: "sessions".to_string(),
        title: " Sessions ".to_string(),
        empty_state: "No sessions found.".to_string(),
        filter_enabled: true,
        items: vec![
            OperatorPickerItem {
                id: "session-alpha".to_string(),
                title: "Session Alpha".to_string(),
                subtitle: Some("resume-ready".to_string()),
                badges: vec!["current".to_string()],
                preview: Some("Last turn: inspect runtime contract".to_string()),
                disabled_reason: None,
            },
            OperatorPickerItem {
                id: "session-beta".to_string(),
                title: "Session Beta".to_string(),
                subtitle: Some("archived".to_string()),
                badges: vec!["resume-ready".to_string()],
                preview: Some("Last turn: validate background worker".to_string()),
                disabled_reason: None,
            },
        ],
        primary_action: OperatorPickerAction {
            action_id: "detail".to_string(),
            label: "Detail".to_string(),
            shortcut: OperatorPickerShortcut::Enter,
            requires_selection: true,
            overlay_behavior: OperatorPickerOverlayBehavior::KeepOpen,
            intent: OperatorPickerIntent::OpenDetail,
        },
        secondary_actions: vec![OperatorPickerAction {
            action_id: "resume".to_string(),
            label: "Resume".to_string(),
            shortcut: OperatorPickerShortcut::Ctrl('r'),
            requires_selection: true,
            overlay_behavior: OperatorPickerOverlayBehavior::CloseOverlay,
            intent: OperatorPickerIntent::SubmitSlashCommand { command_template: "/document health".to_string() },
        }],
    }
}

fn sample_confirm_picker_request() -> OperatorPickerRequest {
    let mut request = sample_operator_picker_request();
    request.secondary_actions.push(OperatorPickerAction {
        action_id: "delete".to_string(),
        label: "Delete".to_string(),
        shortcut: OperatorPickerShortcut::Ctrl('d'),
        requires_selection: true,
        overlay_behavior: OperatorPickerOverlayBehavior::KeepOpen,
        intent: OperatorPickerIntent::RequestConfirmSlashCommand {
            title_template: " Confirm session delete ".to_string(),
            message_template: "Delete session {title} ({id})?".to_string(),
            confirm_label: "Delete".to_string(),
            command_template: "/session delete {id} --picker".to_string(),
        },
    });
    request
}

#[test]
fn picker_enter_opens_selected_item_detail_overlay() {
    let mut app = App::new();
    app.focused_panel = Panel::Logs;
    app.open_picker_overlay(sample_operator_picker_request());

    replay_keys(&mut app, &[(KeyCode::Enter, 0)]);

    match app.overlay.as_ref() {
        Some(OverlayState::Detail(detail)) => {
            assert!(detail.title.contains("Session Alpha"));
            assert!(detail.lines.iter().any(|line| line.contains("session-alpha")));
            assert_eq!(
                detail.lines,
                vec![
                    "id: session-alpha".to_string(),
                    "summary: resume-ready".to_string(),
                    "badges: current".to_string(),
                    String::new(),
                    "Last turn: inspect runtime contract".to_string(),
                ]
            );
        }
        other => panic!("expected detail overlay, got {other:?}"),
    }
    assert_eq!(app.status_notice.as_deref(), Some("Opened Session Alpha detail."));
}

#[test]
fn picker_filter_reduces_visible_items() {
    let mut app = App::new();
    app.open_picker_overlay(sample_operator_picker_request());

    replay_keys(&mut app, &[(KeyCode::Char('/'), 0), (KeyCode::Char('b'), 0), (KeyCode::Char('e'), 0)]);

    match app.overlay.as_ref() {
        Some(OverlayState::Picker(picker)) => {
            assert!(picker.filter_mode);
            assert_eq!(picker.filter_query, "be");
            assert_eq!(picker.visible_items_len(), 1);
            assert_eq!(picker.selected_item().map(|item| item.id.as_str()), Some("session-beta"));
        }
        other => panic!("expected picker overlay, got {other:?}"),
    }
}

#[test]
fn picker_filter_backspace_widens_and_k_moves_up() {
    let mut app = App::new();
    app.open_picker_overlay(sample_operator_picker_request());
    replay_keys(
        &mut app,
        &[(KeyCode::Char('/'), 0), (KeyCode::Char('b'), 0), (KeyCode::Char('e'), 0), (KeyCode::Backspace, 0), (KeyCode::Backspace, 0)],
    );
    match app.overlay.as_ref() {
        Some(OverlayState::Picker(picker)) => {
            assert_eq!(picker.filter_query, "");
            assert_eq!(picker.filter_cursor_pos, 0);
            assert_eq!(picker.visible_items_len(), 2);
        }
        other => panic!("expected picker overlay, got {other:?}"),
    }
    replay_keys(&mut app, &[(KeyCode::Down, 0)]);
    match app.overlay.as_ref() {
        Some(OverlayState::Picker(picker)) => {
            assert!(!picker.filter_mode);
            assert_eq!(picker.selected, 1);
        }
        other => panic!("expected picker overlay, got {other:?}"),
    }
    replay_keys(&mut app, &[(KeyCode::Char('k'), 0)]);
    match app.overlay.as_ref() {
        Some(OverlayState::Picker(picker)) => assert_eq!(picker.selected, 0),
        other => panic!("expected picker overlay, got {other:?}"),
    }
    replay_keys(&mut app, &[(KeyCode::Esc, 0)]);
    assert!(app.overlay.is_none());
}

#[test]
fn picker_ctrl_shortcut_hands_back_slash_command_and_closes() {
    let mut app = App::new();
    app.open_picker_overlay(sample_operator_picker_request());
    let outcome = app.overlay_key_step(key(KeyCode::Char('R'), CONTROL));
    match outcome {
        OverlayKeyOutcome::RunPickerAction { action, selected_item } => {
            assert_eq!(action.action_id, "resume");
            assert_eq!(selected_item.as_ref().map(|item| item.id.as_str()), Some("session-alpha"));
            let command = app.run_picker_action(action, selected_item);
            assert_eq!(command.as_deref(), Some("/document health"));
        }
        other => panic!("expected picker action, got {other:?}"),
    }
    assert!(app.overlay.is_none());
    assert_eq!(app.status_notice.as_deref(), Some("Running operator action: /document health"));
}

#[test]
fn picker_confirm_shortcut_opens_confirm_overlay_and_hands_back_command() {
    let mut app = App::new();
    app.open_picker_overlay(sample_confirm_picker_request());
    replay_keys(&mut app, &[(KeyCode::Char('d'), CONTROL)]);
    match app.overlay.as_ref() {
        Some(OverlayState::Confirm(confirm)) => {
            assert!(confirm.message.contains("Session Alpha"));
            assert_eq!(confirm.message, "Delete session Session Alpha (session-alpha)?");
            assert_eq!(confirm.confirm_label, "Delete");
            assert_eq!(confirm.selected, ConfirmChoice::Cancel);
        }
        other => panic!("expected confirm overlay, got {other:?}"),
    }
    replay_keys(&mut app, &[(KeyCode::Char('y'), 0)]);
    let outcomes = replay_keys(&mut app, &[(KeyCode::Enter, 0)]);
    assert_eq!(
        outcomes,
        vec![OverlayKeyOutcome::RunConfirm(ConfirmIntent::SubmitSlashCommand {
            command: "/session delete session-alpha --picker".to_string(),
        })]
    );
}

#[test]
fn confirm_enter_on_cancel_closes_with_notice() {
    let mut app = App::new();
    app.open_interrupt_confirm_overlay(7);
    replay_keys(&mut app, &[(KeyCode::Tab, 0), (KeyCode::Tab, 0), (KeyCode::Enter, 0)]);
    assert!(app.overlay.is_none());
    assert_eq!(app.status_notice.as_deref(), Some("Interrupt request cancelled."));
}

#[test]
fn disabled_item_reports_its_reason() {
    let mut request = sample_operator_picker_request();
    request.items[0].disabled_reason = Some("Session is locked.".to_string());
    let mut app = App::new();
    app.open_picker_overlay(request);
    replay_keys(&mut app, &[(KeyCode::Enter, 0)]);
    assert!(matches!(app.overlay, Some(OverlayState::Picker(_))));
    assert_eq!(app.status_notice.as_deref(), Some("Session is locked."));
}

#[test]
fn detail_overlay_supports_page_and_edge_navigation() {
    let mut app = App::new();
    app.focused_panel = Panel::Logs;
    app.overlay_rect = Rect::new(0, 0, 80, 16);
    app.open_detail_overlay(" Detail ", (0..30).map(|index| format!("line {index}")).collect());

    replay_keys(&mut app, &[(KeyCode::PageDown, 0)]);
    match app.overlay.as_ref() {
        Some(OverlayState::Detail(detail)) => assert_eq!(detail.scroll, 11),
        other => panic!("expected detail overlay, got {other:?}"),
    }

    replay_keys(&mut app, &[(KeyCode::End, 0)]);
    match app.overlay.as_ref() {
        Some(OverlayState::Detail(detail)) => assert_eq!(detail.scroll, 18),
        other => panic!("expected detail overlay, got {other:?}"),
    }
    replay_keys(&mut app, &[(KeyCode::Home, 0)]);
    match app.overlay.as_ref() {
        Some(OverlayState::Detail(detail)) => assert_eq!(detail.scroll, 0),
        other => panic!("expected detail overlay, got {other:?}"),
    }
}

#[test]
fn search_overlay_edits_query_and_reports_matches() {
    let mut app = App::new();
    app.open_search_overlay();
    replay_keys(
        &mut app,
        &[(KeyCode::Char('A'), SHIFT), (KeyCode::Char('b'), 0), (KeyCode::Left, 0), (KeyCode::Char('x'), 0), (KeyCode::Char('z'), CONTROL)],
    );
    match app.overlay.as_ref() {
        Some(OverlayState::Search(search)) => {
            assert_eq!(search.query, "Axb");
            assert_eq!(search.cursor_pos, 2);
        }
        other => panic!("expected search overlay, got {other:?}"),
    }
    replay_keys(&mut app, &[(KeyCode::Delete, 0), (KeyCode::Home, 0), (KeyCode::Delete, 0), (KeyCode::End, 0)]);
    match app.overlay.as_ref() {
        Some(OverlayState::Search(search)) => {
            assert_eq!(search.query, "x");
            assert_eq!(search.cursor_pos, 1);
        }
        other => panic!("expected search overlay, got {other:?}"),
    }
    replay_keys(&mut app, &[(KeyCode::Enter, 0)]);
    let notice = app.status_notice.clone().unwrap_or_default();
    assert!(notice.starts_with("Search popup captured 'x' with "));
    assert!(notice.ends_with(" match(es). Jump navigation lands in Task 15B-11."));
    replay_keys(&mut app, &[(KeyCode::Esc, 0)]);
    assert!(app.overlay.is_none());
    assert_eq!(app.status_notice.as_deref(), Some("Search popup closed."));
}

#[test]
fn input_prompt_enter_reports_value() {
    let mut app = App::new();
    app.open_input_prompt_overlay(" Runtime Input ", "Name?");
    replay_keys(&mut app, &[(KeyCode::Char('o'), 0), (KeyCode::Char('k'), 0), (KeyCode::Backspace, 0), (KeyCode::Enter, 0)]);
    assert!(app.overlay.is_none());
    assert_eq!(app.status_notice.as_deref(), Some("Input prompt submitted 'o'."));
}

#[test]
fn accepted_slash_command_confirmation_closes_and_hands_back_command() {
    let mut app = App::new();
    app.open_picker_overlay(sample_confirm_picker_request());
    replay_keys(&mut app, &[(KeyCode::Char('d'), CONTROL), (KeyCode::Char('Y'), SHIFT)]);
    let outcome = app.overlay_key_step(key(KeyCode::Enter, 0));
    let intent = match outcome {
        OverlayKeyOutcome::RunConfirm(intent) => intent,
        other => panic!("expected a confirmed intent, got {other:?}"),
    };
    let follow_up = app.run_confirm_intent(intent);
    assert_eq!(follow_up, ConfirmFollowUp::Submit("/session delete session-alpha --picker".to_string()));
    assert!(app.overlay.is_none());
    assert_eq!(
        app.status_notice.as_deref(),
        Some("Running operator action: /session delete session-alpha --picker")
    );
}

#[test]
fn confirm_intents_dismiss_and_finished_turn() {
    let mut app = App::new();
    app.open_runtime_confirm_overlay("Allow the tool?");
    assert_eq!(app.run_confirm_intent(ConfirmIntent::Dismiss), ConfirmFollowUp::Nothing);
    assert!(app.overlay.is_none());
    assert_eq!(app.status_notice.as_deref(), Some("Approval overlay dismissed."));

    app.open_interrupt_confirm_overlay(42);
    assert_eq!(app.run_confirm_intent(ConfirmIntent::InterruptTurn { turn_id: 42 }), ConfirmFollowUp::Nothing);
    assert!(app.overlay.is_none());
    assert_eq!(app.status_notice.as_deref(), Some("Running turn already finished."));
}

#[test]
fn confirm_interrupt_of_running_turn_interrupts_it() {
    let mut app = App::new();
    let turn_id = app.begin_turn();
    app.open_interrupt_confirm_overlay(turn_id);
    let follow_up = app.run_confirm_intent(ConfirmIntent::InterruptTurn { turn_id });
    assert_eq!(follow_up, ConfirmFollowUp::Interrupt(turn_id));
    assert!(app.overlay.is_none());
    assert!(!app.is_running);
    assert_eq!(app.output_msgs.last().map(|m| m.text.as_str()), Some("\u{26a0} Interrupted"));
    assert_eq!(app.status_notice.as_deref(), Some("Running turn interrupted."));
}
