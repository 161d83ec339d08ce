use omega_tui::app::{
    App, Msg, MsgKind, Panel, SectionState, SessionRoutingSummary, SessionStatusSummary, WorkflowRunRole, WorkflowSummary,
};
use omega_tui::response_text::format_response_header;
use omega_tui::overlay::OverlayState;
use omega_tui::picker::{
    OperatorPickerAction, OperatorPickerIntent, OperatorPickerItem, OperatorPickerOverlayBehavior, OperatorPickerRequest,
    OperatorPickerShortcut,
};
use omega_tui::reducer::{
    session_status_from_status, workflow_summary_from_status, ActivityTarget, OverlayTarget, ResponseSection,
    ResponseSectionKind, RuntimeUiEffect, RuntimeUiEnvelope, RuntimeUiMessage, SectionOrigin, StatusSlot,
    StatusValue, TuiUpdateReducer, UiContent, UiMessageKind, UiSource, UiTarget,
};
use omega_tui::turn_delivery::{ToolRun, ToolRunDetail, ToolRunStatus};

fn message(target: UiTarget, source: UiSource, kind: UiMessageKind, content: &str) -> RuntimeUiMessage {
    RuntimeUiMessage { target, source, kind, content: content.to_string() }
}

fn send(app: &mut App, turn_id: u64, message: RuntimeUiMessage) {
    app.apply_runtime_envelope(RuntimeUiEnvelope::Message { turn_id, message });
}

fn effect(app: &mut App, turn_id: u64, effect: RuntimeUiEffect) {
    TuiUpdateReducer::apply(app, RuntimeUiEnvelope::Effect { turn_id, effect });
}

fn step_source() -> UiSource {
    UiSource::WorkflowStep {
        workflow_id: "feature".to_string(),
        workflow_role: WorkflowRunRole::Child,
        step_id: "plan".to_string(),
        step_label: "Plan".to_string(),
        index: 2,
        total: 5,
    }
}

#[test]
fn messages_of_other_turns_are_dropped() {
    let mut app = App::new();
    app.begin_turn();
    send(&mut app, 7, message(UiTarget::Response, UiSource::Tool, UiMessageKind::Error, "boom"));
    assert!(app.output_msgs.is_empty());
    effect(&mut app, 0, RuntimeUiEffect::FocusHint { target: UiTarget::Todo });
    assert_eq!(app.focused_panel, Panel::Response);
}

#[test]
fn tool_preview_routes_to_logs_instead_of_response() {
    let mut app = App::new();
    send(&mut app, 0, message(UiTarget::Activity(ActivityTarget::Log), UiSource::Tool, UiMessageKind::Log, "ls -la"));
    assert_eq!(app.log_lines, vec!["[tool] ls -la".to_string()]);
    assert!(app.output_msgs.is_empty());
}

#[test]
fn log_lines_tag_steps_and_routing() {
    let mut app = App::new();
    let log = UiTarget::Activity(ActivityTarget::Log);
    send(&mut app, 0, message(log, step_source(), UiMessageKind::Summary, "ignored"));
    send(&mut app, 0, message(log, UiSource::SessionRouting, UiMessageKind::Warning, "fallback"));
    send(&mut app, 0, message(log, UiSource::Assistant, UiMessageKind::Log, "\u{1b}[1mplain\u{1b}[0m"));
    assert_eq!(
        app.log_lines,
        vec!["[child:feature 2/5] Plan (plan)".to_string(), "[route] fallback".to_string(), "plain".to_string()]
    );
}

#[test]
fn response_messages_skip_step_narrative_and_show_errors() {
    let mut app = App::new();
    send(&mut app, 0, message(UiTarget::Response, step_source(), UiMessageKind::Narrative, "thinking"));
    send(&mut app, 0, message(UiTarget::Response, UiSource::Assistant, UiMessageKind::Result, "answer"));
    assert!(app.output_msgs.is_empty());
    send(&mut app, 0, message(UiTarget::Response, step_source(), UiMessageKind::Error, "failed"));
    send(&mut app, 0, message(UiTarget::Response, UiSource::SessionRouting, UiMessageKind::Summary, "routed"));
    assert_eq!(app.output_msgs.len(), 2);
    assert_eq!(app.output_msgs[0].kind, MsgKind::Error);
    assert_eq!(app.output_msgs[0].text, "failed");
    assert_eq!(app.output_msgs[1].kind, MsgKind::Agent);
    assert_eq!(app.output_msgs[1].text, "routed");
}

#[test]
fn todo_messages_use_the_current_turn() {
    let mut app = App::new();
    app.begin_turn();
    send(&mut app, 1, message(UiTarget::Todo, UiSource::Tool, UiMessageKind::Summary, "[x] #1: Done\n\n(1/1 completed)"));
    assert_eq!(app.last_todo_turn_id, Some(1));
    assert_eq!(app.todo_lines, vec!["✓ #1: Done".to_string()]);
}

#[test]
fn status_slots_show_workflow_session_and_agent() {
    let mut app = App::new();
    app.begin_turn();
    effect(
        &mut app,
        1,
        RuntimeUiEffect::SetStatusSlot {
            slot: StatusSlot::Workflow,
            value: StatusValue::WorkflowStep {
                workflow_id: "feature".to_string(),
                workflow_role: WorkflowRunRole::Root,
                step_id: "plan".to_string(),
                step_label: "Plan".to_string(),
                index: 1,
                total: 3,
            },
        },
    );
    let w = app.workflow_summary.clone().unwrap();
    assert_eq!((w.id.as_str(), w.label.as_str(), w.index, w.total), ("plan", "Plan", 1, 3));

    send(&mut app, 1, message(UiTarget::StatusBar(StatusSlot::Session), UiSource::SessionRouting, UiMessageKind::Summary, "routing"));
    assert_eq!(app.session_status, Some(SessionStatusSummary::Label("routing".to_string())));

    effect(&mut app, 1, RuntimeUiEffect::ClearStatusSlot { slot: StatusSlot::Workflow });
    assert!(app.workflow_summary.is_none());

    send(&mut app, 1, message(UiTarget::StatusBar(StatusSlot::Agent), UiSource::Assistant, UiMessageKind::Summary, "Idle"));
    assert!(!app.is_running);
    assert_eq!(app.latest_delivery_turn_id, Some(1));
}

#[test]
fn status_values_convert_to_summaries() {
    let w = workflow_summary_from_status(StatusValue::Label("Thinking".to_string())).unwrap();
    assert_eq!(w.workflow_id, "workflow");
    assert_eq!(w.workflow_role, WorkflowRunRole::Child);
    assert_eq!(w.id, "workflow");
    assert_eq!(w.label, "Thinking");
    assert!(workflow_summary_from_status(StatusValue::Hidden).is_none());
    assert!(session_status_from_status(StatusValue::Hidden).is_none());
}

#[test]
fn detail_overlay_target_can_be_shown_and_hidden() {
    let mut app = App::new();
    effect(&mut app, 0, RuntimeUiEffect::ShowOverlay { target: OverlayTarget::Detail, content: UiContent::Text("line one\nline two".to_string()) });
    match app.overlay.as_ref() {
        Some(OverlayState::Detail(d)) => {
            assert_eq!(d.title, " Runtime Detail ");
            assert_eq!(d.lines, vec!["line one".to_string(), "line two".to_string()]);
        },
        other => panic!("expected a detail overlay, got {other:?}"),
    }
    effect(&mut app, 0, RuntimeUiEffect::HideOverlay { target: OverlayTarget::Search });
    assert!(app.overlay.is_some());
    effect(&mut app, 0, RuntimeUiEffect::HideOverlay { target: OverlayTarget::Detail });
    assert!(app.overlay.is_none());
}

#[test]
fn request_input_effect_opens_input_overlay() {
    let mut app = App::new();
    effect(&mut app, 0, RuntimeUiEffect::ReplacePanel {
        target: UiTarget::Overlay(OverlayTarget::InputPrompt),
        content: "Your name?".to_string(),
    });
    match app.overlay.as_ref() {
        Some(OverlayState::InputPrompt(o)) => {
            assert_eq!(o.title, " Runtime Input ");
            assert_eq!(o.prompt, "Your name?");
        },
        other => panic!("expected an input overlay, got {other:?}"),
    }
}

#[test]
fn focus_hint_routes_to_visible_logs_panel() {
    let mut app = App::new();
    effect(&mut app, 0, RuntimeUiEffect::FocusHint { target: UiTarget::Activity(ActivityTarget::Log) });
    assert_eq!(app.focused_panel, Panel::Response);
    app.logs_rect = omega_tui::app::Rect::new(60, 10, 20, 8);
    effect(&mut app, 0, RuntimeUiEffect::FocusHint { target: UiTarget::Activity(ActivityTarget::Log) });
    assert_eq!(app.focused_panel, Panel::Logs);
}

#[test]
fn sections_and_tool_runs_flow_through_effects() {
    let mut app = App::new();
    app.begin_turn();
    effect(&mut app, 1, RuntimeUiEffect::BeginResponseSection {
        section: ResponseSection {
            id: "turn-1:root:plan".to_string(),
            parent_id: None,
            kind: ResponseSectionKind::Step,
            title: "Plan".to_string(),
            state: SectionState::Streaming,
            scene_id: Some("feature".to_string()),
            subflow_ref: None,
            origin: SectionOrigin::Workflow { workflow_id: "root".to_string(), workflow_role: WorkflowRunRole::Root },
        },
    });
    effect(&mut app, 1, RuntimeUiEffect::AppendResponseSection { id: "turn-1:root:plan".to_string(), delta: "step 1".to_string() });
    effect(&mut app, 1, RuntimeUiEffect::CompleteResponseSection { id: "turn-1:root:plan".to_string(), state: SectionState::Complete });
    let m: &Msg = &app.output_msgs[0];
    assert_eq!(m.title.as_deref(), Some("Plan"));
    assert_eq!(m.workflow_id.as_deref(), Some("root"));
    assert_eq!(m.text, "step 1");
    assert_eq!(m.state, Some(SectionState::Complete));

    effect(&mut app, 1, RuntimeUiEffect::BeginToolRun {
        tool_run: ToolRun {
            id: "t1".to_string(),
            parent_section_id: "turn-1:root:plan".to_string(),
            tool_name: "create_file".to_string(),
            status: ToolRunStatus::Running,
            invocation_preview: "new.rs".to_string(),
            result_preview: None,
            detail: ToolRunDetail { title: " Tool: create_file ".to_string(), lines: Vec::new() },
        },
    });
    effect(&mut app, 1, RuntimeUiEffect::CompleteToolRun { id: "t1".to_string(), status: ToolRunStatus::Failed });
    assert_eq!(app.tool_runs[0].status, ToolRunStatus::Failed);
    assert!(app.delivery_lines.iter().any(|l| l == "tools: 1 calls · 1 unique · 1 failed"));
}

#[test]
fn command_sections_carry_command_name_and_source() {
    let m = Msg::from_response_section(ResponseSection {
        id: "cmd-1".to_string(),
        parent_id: Some("p".to_string()),
        kind: ResponseSectionKind::Command,
        title: "ignored".to_string(),
        state: SectionState::Streaming,
        scene_id: None,
        subflow_ref: None,
        origin: SectionOrigin::Command { command_name: "/plan".to_string(), source: "slash".to_string() },
    });
    assert_eq!(m.kind, MsgKind::Command);
    assert_eq!(m.title.as_deref(), Some("/plan"));
    assert_eq!(m.workflow_id.as_deref(), Some("slash"));
    assert_eq!(m.parent_id.as_deref(), Some("p"));
    assert!(m.text.is_empty());
    assert!(m.tool_lane_collapsed);
}

#[test]
fn search_overlay_target_can_show_runtime_results_and_hide() {
    let mut app = App::new();
    let turn_id = app.begin_turn();
    effect(&mut app, turn_id, RuntimeUiEffect::ShowOverlay {
        target: OverlayTarget::Search,
        content: UiContent::Text("Mode: hybrid\n1. crates/omega-context/src/lib.rs".to_string()),
    });
    match app.overlay.as_ref() {
        Some(OverlayState::SearchResults(overlay)) => {
            assert!(overlay.title.contains("Search Results"));
            assert_eq!(
                overlay.lines,
                vec!["Mode: hybrid".to_string(), "1. crates/omega-context/src/lib.rs".to_string()]
            );
        },
        other => panic!("expected search results overlay, got {other:?}"),
    }
    effect(&mut app, turn_id, RuntimeUiEffect::HideOverlay { target: OverlayTarget::Search });
    assert!(app.overlay.is_none());
}

#[test]
fn open_web_result_view_effect_opens_search_overlay() {
    let mut app = App::new();
    let turn_id = app.begin_turn();
    effect(&mut app, turn_id, RuntimeUiEffect::OpenWebResultView {
        title: " Web Search: omega ".to_string(),
        content: "1. Example".to_string(),
    });
    match app.overlay.as_ref() {
        Some(OverlayState::SearchResults(search)) => {
            assert!(search.title.contains("Web Search: omega"));
            assert!(search.lines.iter().any(|line| line == "1. Example"));
        },
        other => panic!("expected search overlay, got {other:?}"),
    }
}

#[test]
fn diff_preview_effect_opens_detail_overlay() {
    let mut app = App::new();
    let turn_id = app.begin_turn();
    effect(&mut app, turn_id, RuntimeUiEffect::OpenDiffPreview {
        diff: "--- a/file\n+++ b/file\n@@ -1 +1 @@\n-old\n+new".to_string(),
    });
    match app.overlay.as_ref() {
        Some(OverlayState::Detail(detail)) => {
            assert!(detail.title.contains("Diff Preview"));
            assert!(detail.lines.iter().any(|line| line == "--- a/file"));
        },
        other => panic!("expected detail overlay, got {other:?}"),
    }
}

#[test]
fn request_tool_approval_effect_opens_confirm_overlay() {
    let mut app = App::new();
    let turn_id = app.begin_turn();
    effect(&mut app, turn_id, RuntimeUiEffect::RequestToolApproval {
        message: "workspace_write approval required".to_string(),
    });
    match app.overlay.as_ref() {
        Some(OverlayState::Confirm(confirm)) => {
            assert!(confirm.title.contains("Approval Required"));
            assert_eq!(confirm.message, "workspace_write approval required");
        },
        other => panic!("expected confirm overlay, got {other:?}"),
    }
}

#[test]
fn status_bar_session_target_updates_session_slot() {
    let mut app = App::new();
    let turn_id = app.begin_turn();
    effect(&mut app, turn_id, RuntimeUiEffect::SetStatusSlot {
        slot: StatusSlot::Session,
        value: StatusValue::SessionRouting {
            root_workflow_id: "root".to_string(),
            active_workflow_id: "chat".to_string(),
            active_workflow_role: WorkflowRunRole::Child,
            recognized_scene_id: Some("chat".to_string()),
            selected_workflow_id: Some("chat".to_string()),
        },
    });
    assert_eq!(
        app.session_status,
        Some(SessionStatusSummary::Routing(SessionRoutingSummary {
            root_workflow_id: "root".to_string(),
            active_workflow_id: "chat".to_string(),
            active_workflow_role: WorkflowRunRole::Child,
            recognized_scene_id: Some("chat".to_string()),
            selected_workflow_id: Some("chat".to_string()),
        }))
    );
}

#[test]
fn current_turn_workflow_updates_replace_summary_and_clear_on_finish() {
    let mut app = App::new();
    let turn_id = app.begin_turn();
    let step = UiSource::WorkflowStep {
        workflow_id: "feature".to_string(),
        workflow_role: WorkflowRunRole::Child,
        step_id: "plan".to_string(),
        step_label: "Plan".to_string(),
        index: 2,
        total: 4,
    };
    effect(&mut app, turn_id, RuntimeUiEffect::SetStatusSlot {
        slot: StatusSlot::Workflow,
        value: StatusValue::WorkflowStep {
            workflow_id: "feature".to_string(),
            workflow_role: WorkflowRunRole::Child,
            step_id: "plan".to_string(),
            step_label: "Plan".to_string(),
            index: 2,
            total: 4,
        },
    });
    send(&mut app, turn_id, message(UiTarget::Activity(ActivityTarget::Log), step, UiMessageKind::Summary, "Plan"));
    assert_eq!(
        app.workflow_summary,
        Some(WorkflowSummary {
            workflow_id: "feature".to_string(),
            workflow_role: WorkflowRunRole::Child,
            id: "plan".to_string(),
            label: "Plan".to_string(),
            index: 2,
            total: 4,
        })
    );
    assert_eq!(app.log_lines, vec!["[child:feature 2/4] Plan (plan)"]);
    effect(&mut app, turn_id, RuntimeUiEffect::ClearStatusSlot { slot: StatusSlot::Workflow });
    assert!(app.workflow_summary.is_none());
}

#[test]
fn running_turn_marks_todo_as_stale_until_snapshot_arrives() {
    let mut app = App::new();
    let first_turn = app.begin_turn();
    app.set_todo_snapshot(first_turn, "[>] #1: Code\n\n(0/1 completed)");
    effect(&mut app, first_turn, RuntimeUiEffect::SetStatusSlot {
        slot: StatusSlot::Agent,
        value: StatusValue::Label("Idle".to_string()),
    });
    app.begin_turn();
    assert!(app.todo_refresh_pending());
    assert!(app.todo_panel_title().contains("stale"));
}

#[test]
fn step_text_routes_to_response_with_step_label() {
    let mut app = App::new();
    let turn_id = app.begin_turn();
    effect(&mut app, turn_id, RuntimeUiEffect::BeginResponseSection {
        section: ResponseSection {
            id: "turn-1:child:feature:plan".to_string(),
            parent_id: None,
            kind: ResponseSectionKind::Step,
            title: "Plan".to_string(),
            state: SectionState::Streaming,
            scene_id: Some("feature".to_string()),
            subflow_ref: None,
            origin: SectionOrigin::Workflow { workflow_id: "feature".to_string(), workflow_role: WorkflowRunRole::Child },
        },
    });
    effect(&mut app, turn_id, RuntimeUiEffect::AppendResponseSection {
        id: "turn-1:child:feature:plan".to_string(),
        delta: "Line one\nLine two".to_string(),
    });
    effect(&mut app, turn_id, RuntimeUiEffect::CompleteResponseSection {
        id: "turn-1:child:feature:plan".to_string(),
        state: SectionState::Complete,
    });
    let m: &Msg = &app.output_msgs[0];
    assert_eq!(format_response_header(m), "step  child:feature  Plan  ●");
    assert_eq!(m.scene_id.as_deref(), Some("feature"));
    assert_eq!(m.text, "Line one\nLine two");
    assert!(app.log_lines.is_empty());
}

#[test]
fn picker_overlay_target_can_show_typed_runtime_request() {
    let mut app = App::new();
    let turn_id = app.begin_turn();

    effect(&mut app, turn_id, RuntimeUiEffect::ShowOverlay {
        target: OverlayTarget::Picker,
        content: UiContent::OperatorPicker(OperatorPickerRequest {
            picker_id: "sessions".to_string(),
            title: " Sessions ".to_string(),
            empty_state: "No sessions yet.".to_string(),
            filter_enabled: true,
            items: vec![OperatorPickerItem {
                id: "session-1".to_string(),
                title: "Design task".to_string(),
                subtitle: Some("idle".to_string()),
                badges: vec!["resume-ready".to_string()],
                preview: Some("last turn: inspect runtime contract".to_string()),
                disabled_reason: None,
            }],
            primary_action: OperatorPickerAction {
                action_id: "detail".to_string(),
                label: "Detail".to_string(),
                shortcut: OperatorPickerShortcut::Enter,
                requires_selection: true,
                overlay_behavior: OperatorPickerOverlayBehavior::KeepOpen,
                intent: OperatorPickerIntent::OpenDetail,
            },
            secondary_actions: vec![OperatorPickerAction {
                action_id: "resume".to_string(),
                label: "Resume".to_string(),
                shortcut: OperatorPickerShortcut::Ctrl('r'),
                requires_selection: true,
                overlay_behavior: OperatorPickerOverlayBehavior::CloseOverlay,
                intent: OperatorPickerIntent::SubmitSlashCommand {
                    command_template: "/session resume {id}".to_string(),
                },
            }],
        }),
    });

    match app.overlay.as_ref() {
        Some(OverlayState::Picker(picker)) => {
            assert_eq!(picker.request.picker_id, "sessions");
            assert!(picker.filter_enabled());
            assert_eq!(picker.visible_items_len(), 1);
            let selected = picker.selected_item().expect("selected picker item");
            assert_eq!(selected.title, "Design task");
            assert_eq!(selected.badges, vec!["resume-ready".to_string()]);
        }
        other => panic!("expected typed picker overlay, got {other:?}"),
    }
}

#[test]
fn picker_text_request_and_hide_target() {
    let mut app = App::new();
    let turn_id = app.begin_turn();
    effect(&mut app, turn_id, RuntimeUiEffect::ShowOverlay {
        target: OverlayTarget::Picker,
        content: UiContent::Text("a\nb".to_string()),
    });
    assert!(app.overlay.is_none());
    effect(&mut app, turn_id, RuntimeUiEffect::ShowOverlay {
        target: OverlayTarget::Picker,
        content: UiContent::OperatorPicker(OperatorPickerRequest {
            picker_id: "p".to_string(),
            title: " P ".to_string(),
            empty_state: "none".to_string(),
            filter_enabled: false,
            items: vec![],
            primary_action: OperatorPickerAction {
                action_id: "close".to_string(),
                label: "Close".to_string(),
                shortcut: OperatorPickerShortcut::Enter,
                requires_selection: false,
                overlay_behavior: OperatorPickerOverlayBehavior::CloseOverlay,
                intent: OperatorPickerIntent::ClosePicker,
            },
            secondary_actions: vec![],
        }),
    });
    assert!(matches!(app.overlay, Some(OverlayState::Picker(_))));
    effect(&mut app, turn_id, RuntimeUiEffect::HideOverlay { target: OverlayTarget::Detail });
    assert!(matches!(app.overlay, Some(OverlayState::Picker(_))));
    effect(&mut app, turn_id, RuntimeUiEffect::HideOverlay { target: OverlayTarget::Picker });
    assert!(app.overlay.is_none());
}
