use omega_tui::app::{App, Msg, ResponseLineAction, SectionState, WorkflowRunRole};
use omega_tui::overlay::OverlayState;
use omega_tui::reducer::{
    ResponseSection, ResponseSectionKind, RuntimeUiEffect, RuntimeUiEnvelope, SectionOrigin, TuiUpdateReducer,
};
use omega_tui::report::ResponseCardSectionKind;
use omega_tui::subflows::{StepSubflowRef, StepSubflowState, StepSubflowStatus};
use omega_tui::timeline::project_response_card;

fn effect(app: &mut App, turn_id: u64, effect: RuntimeUiEffect) {
    TuiUpdateReducer::apply(app, RuntimeUiEnvelope::Effect { turn_id, effect });
}

#[allow(clippy::too_many_arguments)]
fn status(
    workflow: &str,
    index: usize,
    total: usize,
    item_id: &str,
    label: &str,
    state: StepSubflowState,
    repeats: u32,
    source: Option<&str>,
) -> StepSubflowStatus {
    StepSubflowStatus {
        workflow_id: workflow.to_string(),
        workflow_role: WorkflowRunRole::Child,
        step_id: "execute".to_string(),
        step_label: "Execute".to_string(),
        subflow_id: format!("execute-{index}"),
        item_id: Some(item_id.to_string()),
        item_label: Some(label.to_string()),
        item_index: index,
        item_total: total,
        status: state,
        repeat_count_for_item: repeats,
        no_progress_streak_for_item: 0,
        completion_source: source.map(|s| s.to_string()),
    }
}

fn begin_item(app: &mut App, turn_id: u64, section_id: &str, workflow: &str, index: usize, total: usize, item_id: &str, label: &str) {
    effect(app, turn_id, RuntimeUiEffect::BeginResponseSection {
        section: ResponseSection {
            id: section_id.to_string(),
            parent_id: None,
            kind: ResponseSectionKind::Step,
            title: "Execute".to_string(),
            state: SectionState::Streaming,
            scene_id: Some(workflow.to_string()),
            subflow_ref: Some(StepSubflowRef {
                parent_workflow_id: workflow.to_string(),
                parent_step_id: "execute".to_string(),
                parent_step_label: "Execute".to_string(),
                subflow_id: format!("execute-{index}"),
                item_id: Some(item_id.to_string()),
                item_label: Some(label.to_string()),
                item_index: index,
                item_total: total,
            }),
            origin: SectionOrigin::Workflow { workflow_id: workflow.to_string(), workflow_role: WorkflowRunRole::Child },
        },
    });
}

fn group_texts(app: &App) -> Vec<String> {
    let msgs: &[Msg] = &app.output_msgs;
    app.render_subflow_group(msgs).into_iter().map(|l| l.text).collect()
}

#[test]
fn step_subflow_sections_render_as_nested_timeline() {
    let mut app = App::new();
    let turn_id = app.begin_turn();
    app.set_todo_snapshot(
        turn_id,
        "[x] #risk-1: Inspect state\n[>] #risk-2: Validate risk\n[ ] #risk-3: Ship\n\n(1/3 completed)",
    );
    effect(&mut app, turn_id, RuntimeUiEffect::UpsertStepSubflow {
        subflow: status("feature", 1, 3, "risk-1", "Inspect state", StepSubflowState::Complete, 0, Some("structured_output")),
    });
    effect(&mut app, turn_id, RuntimeUiEffect::UpsertStepSubflow {
        subflow: status("feature", 2, 3, "risk-2", "Validate risk", StepSubflowState::Running, 1, None),
    });
    for (section_id, item_id, label, index, text) in [
        ("turn-21:child:feature:execute-1", "risk-1", "Inspect state", 1usize, "inspected runtime state"),
        ("turn-21:child:feature:execute-2", "risk-2", "Validate risk", 2usize, "validating current risk"),
    ] {
        begin_item(&mut app, turn_id, section_id, "feature", index, 3, item_id, label);
        effect(&mut app, turn_id, RuntimeUiEffect::AppendResponseSection {
            id: section_id.to_string(),
            delta: text.to_string(),
        });
    }
    assert_eq!(
        group_texts(&app),
        vec![
            "step  child:feature  Execute  ◉".to_string(),
            "  scene feature".to_string(),
            "  items 2/3 · current execute-2 · todo #risk-2 · repeat 1".to_string(),
            "  subflow  execute-1  #risk-1  Inspect state  ●".to_string(),
            "  subflow  execute-2  #risk-2  Validate risk  ◉  repeat 1".to_string(),
            "    validating current risk".to_string(),
            "  subflow  execute-3  #risk-3  Ship  ◦".to_string(),
        ]
    );
    assert_eq!(app.highlighted_todo_line_index(), Some(1));
}

#[test]
fn activating_subflow_header_opens_detail_overlay() {
    let mut app = App::new();
    let turn_id = app.begin_turn();
    effect(&mut app, turn_id, RuntimeUiEffect::UpsertStepSubflow {
        subflow: status("feature", 2, 3, "risk-2", "Validate risk", StepSubflowState::Running, 1, None),
    });
    begin_item(&mut app, turn_id, "turn-22:child:feature:execute-2", "feature", 2, 3, "risk-2", "Validate risk");

    let msgs: &[Msg] = &app.output_msgs;
    let lines = app.render_subflow_group(msgs);
    let line = lines
        .iter()
        .find(|line| line.text == "  subflow  execute-2  #risk-2  Validate risk  ◉  repeat 1")
        .unwrap();
    let id = match &line.action {
        Some(ResponseLineAction::OpenStepSubflowDetail(id)) => id.clone(),
        other => panic!("expected a subflow detail action, got {other:?}"),
    };
    assert_eq!(app.open_step_subflow_detail(&id), Some("Validate risk".to_string()));
    match app.overlay.as_ref() {
        Some(OverlayState::Detail(detail)) => {
            assert_eq!(detail.title, " Subflow: execute-2 ");
            assert!(detail.lines.iter().any(|line| line == "todo: #risk-2"));
            assert!(detail.lines.iter().any(|line| line == "status: running"));
        },
        other => panic!("expected detail overlay, got {other:?}"),
    }
}

#[test]
fn todo_snapshot_backfills_prior_subflow_statuses_without_replayed_sections() {
    let mut app = App::new();
    let turn_id = app.begin_turn();
    app.set_todo_snapshot(
        turn_id,
        "[x] #risk-1: FFI audit\n[x] #risk-2: Bash boundary\n[x] #risk-3: API fallback\n[>] #risk-4: Coverage analysis\n[ ] #risk-5: Dependency audit\n\n(3/5 completed)",
    );
    let mut st = status("research", 4, 5, "risk-4", "Coverage analysis", StepSubflowState::Running, 3, None);
    st.no_progress_streak_for_item = 1;
    effect(&mut app, turn_id, RuntimeUiEffect::UpsertStepSubflow { subflow: st });
    begin_item(&mut app, turn_id, "turn-30:child:research:execute-4", "research", 4, 5, "risk-4", "Coverage analysis");
    effect(&mut app, turn_id, RuntimeUiEffect::AppendResponseSection {
        id: "turn-30:child:research:execute-4".to_string(),
        delta: "collecting coverage gaps".to_string(),
    });
    assert_eq!(
        group_texts(&app),
        vec![
            "step  child:research  Execute  ◉".to_string(),
            "  scene research".to_string(),
            "  items 4/5 · current execute-4 · todo #risk-4 · repeat 3".to_string(),
            "  subflow  execute-1  #risk-1  FFI audit  ●".to_string(),
            "  subflow  execute-2  #risk-2  Bash boundary  ●".to_string(),
            "  subflow  execute-3  #risk-3  API fallback  ●".to_string(),
            "  subflow  execute-4  #risk-4  Coverage analysis  ◉  repeat 3".to_string(),
            "    collecting coverage gaps".to_string(),
            "  subflow  execute-5  #risk-5  Dependency audit  ◦".to_string(),
        ]
    );
}

#[test]
fn later_subflows_do_not_render_done_while_earlier_item_is_still_running() {
    let mut app = App::new();
    let turn_id = app.begin_turn();
    app.set_todo_snapshot(
        turn_id,
        "[>] #plan-1: Verify duplicated diagnostics path\n[x] #plan-2: Trace tool callback path\n[ ] #plan-3: Compare archive paths\n\n(1/3 completed)",
    );
    effect(&mut app, turn_id, RuntimeUiEffect::UpsertStepSubflow {
        subflow: status("feature", 2, 3, "plan-2", "Trace tool callback path", StepSubflowState::Complete, 0, Some("structured_output")),
    });
    effect(&mut app, turn_id, RuntimeUiEffect::UpsertStepSubflow {
        subflow: status("feature", 1, 3, "plan-1", "Verify duplicated diagnostics path", StepSubflowState::Running, 0, None),
    });
    begin_item(&mut app, turn_id, "turn-31:child:feature:execute-1", "feature", 1, 3, "plan-1", "Verify duplicated diagnostics path");
    assert_eq!(
        group_texts(&app),
        vec![
            "step  child:feature  Execute  ◉".to_string(),
            "  scene feature".to_string(),
            "  items 1/3 · current execute-1 · todo #plan-1".to_string(),
            "  subflow  execute-1  #plan-1  Verify duplicated diagnostics path  ◉".to_string(),
            "    …".to_string(),
            "  subflow  execute-2  #plan-2  Trace tool callback path  ◦".to_string(),
            "  subflow  execute-3  #plan-3  Compare archive paths  ◦".to_string(),
        ]
    );
}

#[test]
fn subflow_card_splits_header_from_items() {
    let mut app = App::new();
    let turn_id = app.begin_turn();
    begin_item(&mut app, turn_id, "turn-1:child:feature:execute-1", "feature", 1, 1, "a", "Only item");
    let msgs: &[Msg] = &app.output_msgs;
    let card = app.build_subflow_card(msgs);
    assert_eq!(card.header_line.text, "step  child:feature  Execute  ◉");
    assert_eq!(card.sections.len(), 1);
    assert_eq!(card.sections[0].kind, ResponseCardSectionKind::Subflow);
    let all: Vec<String> = project_response_card(card).into_iter().map(|l| l.text).collect();
    assert_eq!(all, group_texts(&app));
    let empty = app.build_subflow_card(&[]);
    assert!(empty.sections.is_empty());
    assert_eq!(empty.header_line.text, "");
}
