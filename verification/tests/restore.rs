use omega_tui::app::{App, MsgKind, SectionState, SessionStatusSummary, WorkflowRunRole};
use omega_tui::restore::{SessionReplayEntry, SessionReplayEntryKind, SessionRestoreSnapshot};

fn entry(kind: SessionReplayEntryKind, body: &str) -> SessionReplayEntry {
    SessionReplayEntry { kind, body: body.to_string(), title: None, state: None }
}

fn snapshot() -> SessionRestoreSnapshot {
    SessionRestoreSnapshot {
        session_id: "s-7".to_string(),
        root_workflow_id: "root".to_string(),
        active_workflow_id: "feature".to_string(),
        active_workflow_role: WorkflowRunRole::Child,
        recognized_scene_id: Some("implement".to_string()),
        selected_workflow_id: None,
        todo_rendered: "No todos.".to_string(),
        replay_log: vec![
            entry(SessionReplayEntryKind::UserTurn, "fix the bug"),
            entry(SessionReplayEntryKind::ToolSummary, "read_file src/app.rs"),
            SessionReplayEntry {
                kind: SessionReplayEntryKind::CommandSection,
                body: "ran tests".to_string(),
                title: Some("/test".to_string()),
                state: Some("failed".to_string()),
            },
            entry(SessionReplayEntryKind::AssistantResponse, "done"),
            SessionReplayEntry {
                kind: SessionReplayEntryKind::CommandSection,
                body: "   ".to_string(),
                title: None,
                state: None,
            },
            entry(SessionReplayEntryKind::SystemNotice, "restored"),
        ],
    }
}

#[test]
fn restore_session_replays_transcript_and_routing() {
    let mut app = App::new();
    app.push_msg(MsgKind::Agent, "old session");
    app.add_log("old log".to_string());
    app.restore_session(snapshot());

    let kinds: Vec<MsgKind> = app.output_msgs.iter().map(|m| m.kind).collect();
    assert_eq!(
        kinds,
        vec![MsgKind::User, MsgKind::Command, MsgKind::Agent, MsgKind::Command, MsgKind::Separator]
    );
    assert_eq!(app.output_msgs[0].text, "fix the bug");
    let command = &app.output_msgs[1];
    assert_eq!(command.id.as_deref(), Some("restored:s-7:2"));
    assert_eq!(command.title.as_deref(), Some("/test"));
    assert_eq!(command.workflow_id.as_deref(), Some("restored"));
    assert_eq!(command.text, "ran tests");
    assert_eq!(command.state, Some(SectionState::Failed));
    let empty_command = &app.output_msgs[3];
    assert_eq!(empty_command.id.as_deref(), Some("restored:s-7:4"));
    assert_eq!(empty_command.title.as_deref(), Some("Command"));
    assert_eq!(empty_command.text, "");
    assert_eq!(empty_command.state, Some(SectionState::Complete));

    assert_eq!(app.log_lines, vec!["[tool] read_file src/app.rs".to_string()]);
    assert_eq!(app.response_scroll.list.selected, Some(4));
    assert!(!app.response_scroll.pinned);
    assert!(!app.is_running);
    assert_eq!(app.agent_status_label.as_deref(), Some("Idle"));
    match &app.session_status {
        Some(SessionStatusSummary::Routing(r)) => {
            assert_eq!(r.root_workflow_id, "root");
            assert_eq!(r.active_workflow_id, "feature");
        }
        other => panic!("expected session routing, got {other:?}"),
    }
    assert!(app.overlay.is_none());
}

#[test]
fn restoring_an_empty_session_selects_nothing() {
    let mut app = App::new();
    app.push_msg(MsgKind::User, "old");
    let mut snap = snapshot();
    snap.replay_log.clear();
    app.restore_session(snap);
    assert!(app.output_msgs.is_empty());
    assert_eq!(app.response_scroll.list.selected, None);
}
