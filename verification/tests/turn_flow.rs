use omega_tui::app::{App, Msg, MsgKind, SectionState};
use omega_tui::delivery::{DeliveryStatus, DeliverySummary};
use omega_tui::overlay::OverlayState;
use omega_tui::app::WorkflowRunRole;
use omega_tui::diagnostics::{
    CacheDiagnostics, StepDiagnostics, StepInputDiagnostics, StepInputStatus, StepOutputAttemptKind,
    StepOutputDiagnostics, StepOutputStatus,
};
use omega_tui::knowledge::{
    ResponseDocumentKnowledge, ResponseMemoryKnowledge, StepKnowledgeSummary, SupervisionReadiness,
};
use omega_tui::rail::SidebarSection;
use omega_tui::turn_delivery::{DeliverySkillLoad, ToolRun, ToolRunDetail, ToolRunStatus};

fn document_search(query: &str) -> ResponseDocumentKnowledge {
    ResponseDocumentKnowledge {
        raw_query: query.to_string(),
        planned_queries: vec![query.to_string()],
        rewrite_reason: None,
        rewrite_queries: Vec::new(),
        recovery_path: None,
        readiness: SupervisionReadiness::Ready,
        query: query.to_string(),
        mode: "keyword".to_string(),
        degraded_from: None,
        reason: None,
        result_count: 1,
        top_hits: Vec::new(),
    }
}

fn memory_search(memory_query: &str, observation_query: &str) -> ResponseMemoryKnowledge {
    ResponseMemoryKnowledge {
        raw_query: None,
        planned_queries: Vec::new(),
        rewrite_reason: None,
        rewrite_queries: Vec::new(),
        recovery_path: None,
        memory_query: Some(memory_query.to_string()),
        observation_query: Some(observation_query.to_string()),
        selected_summary_count: 0,
        top_selected_summaries: Vec::new(),
        memory_hit_count: 0,
        observation_hit_count: 0,
        top_memory_hits: Vec::new(),
        top_observations: Vec::new(),
    }
}

fn step_usage(attempts: u32, request: u32, creation: Option<u32>, read: Option<u32>) -> StepDiagnostics {
    StepDiagnostics {
        id: "child:feature:plan".to_string(),
        workflow_id: "feature".to_string(),
        workflow_role: WorkflowRunRole::Child,
        step_id: "plan".to_string(),
        step_label: "Plan".to_string(),
        index: 1,
        total: 1,
        input: StepInputDiagnostics {
            status: StepInputStatus::Ready,
            summary_sources: Vec::new(),
            expected_structured_sources: Vec::new(),
            resolved_structured_sources: Vec::new(),
            missing_structured_sources: Vec::new(),
            structured_input_preview: None,
            todo_state_preview: None,
            error: None,
        },
        output: StepOutputDiagnostics {
            status: StepOutputStatus::Valid,
            attempt_kind: StepOutputAttemptKind::Primary,
            recovery_decision: None,
            attempts,
            retry_count: 0,
            max_retries: 0,
            format: None,
            schema_path: None,
            previous_response_preview: None,
            extracted_json_preview: None,
            validation_error: None,
        },
        tool_capabilities: None,
        cache: Some(CacheDiagnostics {
            token_count_source: "estimate".to_string(),
            request_input_tokens: request,
            budget_input_tokens: 0,
            cache_breakpoints: Vec::new(),
            cache_creation_input_tokens: creation,
            cache_read_input_tokens: read,
            uncached_input_tokens: None,
            cache_hit_ratio_percent: None,
        }),
        context: None,
        execute_progress: None,
        session_writes: Vec::new(),
    }
}

fn tool_run(id: &str, section: &str, name: &str, status: ToolRunStatus, preview: &str) -> ToolRun {
    ToolRun {
        id: id.to_string(),
        parent_section_id: section.to_string(),
        tool_name: name.to_string(),
        status,
        invocation_preview: preview.to_string(),
        result_preview: None,
        detail: ToolRunDetail { title: format!(" Tool: {name} "), lines: vec![format!("path: {preview}")] },
    }
}

fn section(kind: MsgKind, id: &str, state: SectionState) -> Msg {
    let mut m = Msg::plain(kind, String::new());
    m.id = Some(id.to_string());
    m.state = Some(state);
    m
}

fn run_sample_turn(app: &mut App) -> u64 {
    let turn_id = app.begin_turn();
    app.remember_delivery_model_name("gpt-5.4");
    app.upsert_step_diagnostics(step_usage(2, 100, Some(20), None));
    app.begin_tool_run(tool_run(
        "tool-1",
        "turn-1:child:feature:plan",
        "write_file",
        ToolRunStatus::Running,
        "crates/omega-tui/src/app.rs",
    ));
    app.complete_tool_run("tool-1", ToolRunStatus::Completed);
    turn_id
}

#[test]
fn begin_turn_counts_turns_and_runs() {
    let mut app = App::new();
    assert_eq!(app.begin_turn(), 1);
    assert!(app.is_running);
    assert_eq!(app.agent_status_label.as_deref(), Some("Running"));
    assert_eq!(app.begin_turn(), 2);
    app.active_turn_id = u64::MAX;
    assert_eq!(app.begin_turn(), 0);
}

#[test]
fn running_turn_reports_a_running_summary() {
    let mut app = App::new();
    run_sample_turn(&mut app);
    assert!(app.delivery_lines.iter().any(|l| l == "status: running"));
    assert!(app.delivery_lines.iter().any(|l| l == "tokens: 120 total"));
    assert_eq!(app.delivery_badge_text().as_deref(), Some("120 tok · 2 llm · 1 tools · 1 files"));
}

#[test]
fn finishing_turn_builds_delivery_lines_and_transcript_section() {
    let mut app = App::new();
    let turn_id = run_sample_turn(&mut app);

    app.set_agent_status_label("Idle");

    assert_eq!(turn_id, 1);
    assert!(!app.is_running);
    assert_eq!(app.latest_delivery_turn_id, Some(1));
    assert!(app.delivery_lines.iter().any(|l| l == "status: complete"));
    assert!(app.delivery_lines.iter().any(|l| l.contains("model: gpt-5.4")));
    assert!(app.delivery_lines.iter().any(|l| l.contains("files: 1 changed")));
    assert!(app.delivery_lines.iter().any(|l| l == "paths: crates/omega-tui/src/app.rs"));
    assert_eq!(app.delivery_summaries.len(), 1);
    assert_eq!(app.delivery_summaries[0].status, DeliveryStatus::Complete);
    assert_eq!(app.delivery_summaries[0].llm_request_count, 2);

    let last = app.output_msgs.last().unwrap();
    assert_eq!(last.kind, MsgKind::Step);
    assert_eq!(last.id.as_deref(), Some("turn-1:delivery-summary"));
    assert_eq!(last.title.as_deref(), Some("Task Delivery Summary"));
    assert_eq!(last.workflow_id.as_deref(), Some("delivery-1"));
    assert_eq!(last.scene_id.as_deref(), Some("delivery"));
    assert_eq!(last.state, Some(SectionState::Complete));
    assert!(last.text.starts_with("complete · gpt-5.4 · 120 tok · 2 llm · 1 tools · 0 skills · 1 files"));
}

#[test]
fn finishing_a_turn_twice_keeps_one_summary_and_one_section() {
    let mut app = App::new();
    run_sample_turn(&mut app);
    app.set_agent_status_label("Idle");
    app.set_agent_status_label("Working");
    app.set_agent_status_label("Idle");
    assert_eq!(app.delivery_summaries.len(), 1);
    let sections = app
        .output_msgs
        .iter()
        .filter(|m| m.id.as_deref() == Some("turn-1:delivery-summary"))
        .count();
    assert_eq!(sections, 1);
}

#[test]
fn failed_section_marks_the_turn_failed() {
    let mut app = App::new();
    app.begin_turn();
    app.begin_response_section(section(MsgKind::Step, "turn-1:root:plan", SectionState::Streaming));
    app.complete_response_section("turn-1:root:plan", SectionState::Failed);
    assert!(app.current_turn_failed());
    app.set_agent_status_label("Idle");
    assert_eq!(app.delivery_summaries[0].status, DeliveryStatus::Failed);
}

#[test]
fn failed_reasoning_does_not_fail_the_turn() {
    let mut app = App::new();
    app.begin_turn();
    app.begin_response_section(section(MsgKind::Thinking, "turn-1:root:think", SectionState::Streaming));
    app.complete_response_section("turn-1:root:think", SectionState::Failed);
    assert!(!app.current_turn_failed());
    assert!(app.output_msgs[0].collapsed);
}

#[test]
fn interrupt_turn_stops_streaming_sections_and_running_tools() {
    let mut app = App::new();
    app.begin_turn();
    app.begin_response_section(section(MsgKind::Thinking, "turn-1:root:think", SectionState::Streaming));
    app.append_response_section("turn-1:root:think", "\u{1b}[2mponder\u{1b}[0m");
    app.begin_tool_run(tool_run("tool-1", "turn-1:root:plan", "read_file", ToolRunStatus::Running, "a.rs"));

    app.interrupt_turn();

    assert!(!app.is_running);
    assert_eq!(app.active_turn_id, 2);
    assert_eq!(app.agent_status_label.as_deref(), Some("Idle"));
    assert_eq!(app.output_msgs[0].text, "ponder");
    assert_eq!(app.output_msgs[0].state, Some(SectionState::Failed));
    assert!(app.output_msgs[0].collapsed);
    assert_eq!(app.tool_runs[0].status, ToolRunStatus::Failed);
    assert_eq!(app.delivery_summaries[0].status, DeliveryStatus::Interrupted);
    assert_eq!(app.latest_delivery_turn_id, Some(1));
    assert!(app.delivery_lines.iter().any(|l| l == "status: interrupted"));
}

#[test]
fn interrupt_before_any_turn_stores_nothing() {
    let mut app = App::new();
    app.interrupt_turn();
    assert!(app.delivery_summaries.is_empty());
    assert_eq!(app.active_turn_id, 1);
    assert_eq!(app.delivery_lines, vec!["Tracking current turn delivery. No delivery signals yet.".to_string()]);
}

#[test]
fn appending_to_a_missing_section_changes_nothing() {
    let mut app = App::new();
    app.push_msg(MsgKind::User, "hi");
    app.append_response_section("nope", "text");
    app.complete_response_section("nope", SectionState::Complete);
    assert_eq!(app.output_msgs.len(), 1);
    assert_eq!(app.output_msgs[0].text, "hi");
}

#[test]
fn reopening_a_section_replaces_it() {
    let mut app = App::new();
    app.begin_response_section(section(MsgKind::Step, "s1", SectionState::Streaming));
    app.append_response_section("s1", "old");
    app.begin_response_section(section(MsgKind::Step, "s1", SectionState::Streaming));
    assert_eq!(app.output_msgs.len(), 1);
    assert_eq!(app.output_msgs[0].text, "");
}

#[test]
fn tool_run_updates_replace_by_id_and_strip_escapes() {
    let mut app = App::new();
    app.begin_turn();
    app.begin_tool_run(tool_run("t", "turn-1:a", "read_file", ToolRunStatus::Running, "\u{1b}[1mx.rs\u{1b}[0m"));
    app.update_tool_run(tool_run("t", "turn-1:a", "read_file", ToolRunStatus::Failed, "y.rs"));
    assert_eq!(app.tool_runs.len(), 1);
    assert_eq!(app.tool_runs[0].invocation_preview, "y.rs");
    assert_eq!(app.tool_runs[0].status, ToolRunStatus::Failed);
    app.begin_tool_run(tool_run("u", "turn-1:a", "edit_file", ToolRunStatus::Running, "\u{1b}[1mz.rs\u{1b}[0m"));
    assert_eq!(app.tool_runs[1].invocation_preview, "z.rs");
    app.complete_tool_run("missing", ToolRunStatus::Completed);
    assert_eq!(app.tool_runs.len(), 2);
}

#[test]
fn skill_loads_fill_the_skills_panel_and_the_summary() {
    let mut app = App::new();
    app.begin_turn();
    app.upsert_skill_load_summary(DeliverySkillLoad {
        section_id: "turn-1:root:root:load-skills".to_string(),
        source_step_id: Some("select-skills".to_string()),
        recognized_skill_ids: vec!["docs-specs".to_string(), "plan".to_string()],
        loaded_skill_ids: vec!["docs-specs".to_string()],
        ignored_skill_ids: vec!["plan".to_string()],
        selection_reason: Some("spec task".to_string()),
    });
    assert_eq!(
        app.skill_lines,
        vec![
            "recognized: 2",
            "loaded: 1",
            "ignored: 1",
            "",
            "recognized ids: docs-specs, plan",
            "loaded ids: docs-specs",
            "ignored ids: plan",
            "",
            "source step: select-skills",
            "reason: spec task",
        ]
    );
    assert!(app.delivery_lines.iter().any(|l| l == "skills: 1 loaded / 2 recognized / 1 ignored"));
    assert!(app.open_skill_load_detail());
    match app.overlay.as_ref() {
        Some(OverlayState::Detail(d)) => assert_eq!(d.title, " Routed Skills "),
        other => panic!("expected a detail overlay, got {other:?}"),
    }
    app.begin_turn();
    assert!(app.skill_load_summaries.is_empty());
    assert_eq!(app.skill_lines, vec!["No routed skills loaded yet.".to_string()]);
    assert!(!app.open_skill_load_detail_for_section("turn-1:root:root:load-skills"));
}

#[test]
fn knowledge_searches_stay_in_section_order() {
    let mut app = App::new();
    app.begin_turn();
    let search = |id: &str, q: &str| StepKnowledgeSummary {
        section_id: id.to_string(),
        document: Some(document_search(q)),
        memory: Some(memory_search("m", "o")),
    };
    app.upsert_step_knowledge_summary(search("turn-1:b", "beta"));
    app.upsert_step_knowledge_summary(search("turn-1:a", "alpha"));
    app.upsert_step_knowledge_summary(search("turn-1:b", "gamma"));
    let ids: Vec<&str> = app.step_knowledge_summaries.iter().map(|k| k.section_id.as_str()).collect();
    assert_eq!(ids, vec!["turn-1:a", "turn-1:b"]);
    app.set_agent_status_label("Idle");
    let s: &DeliverySummary = &app.delivery_summaries[0];
    assert_eq!(s.document_queries, vec!["alpha".to_string(), "gamma".to_string()]);
    assert_eq!(s.memory_queries, vec!["m".to_string()]);
    assert_eq!(s.document_search_count, 2);
    assert_eq!(s.observation_search_count, 2);
}

#[test]
fn delivery_detail_opens_for_a_finished_turn() {
    let mut app = App::new();
    run_sample_turn(&mut app);
    app.set_agent_status_label("Idle");
    assert!(app.open_delivery_detail_for_turn(1));
    match app.overlay.as_ref() {
        Some(OverlayState::Detail(detail)) => {
            assert_eq!(detail.title, " Task Delivery ");
            assert!(detail.lines.iter().any(|line| line.contains("model: gpt-5.4")));
            assert!(detail.lines.iter().any(|line| line.contains("crates/omega-tui/src/app.rs [update]")));
        },
        other => panic!("expected delivery detail overlay, got {other:?}"),
    }
    app.close_overlay();
    assert!(!app.open_delivery_detail_for_turn(7));
    assert!(app.open_latest_delivery_detail());
}

#[test]
fn finishing_turn_builds_delivery_sidebar_lines_and_badge() {
    let mut app = App::new();
    let turn_id = app.begin_turn();
    app.remember_delivery_model_name("gpt-5.4");
    app.upsert_step_diagnostics(step_usage(2, 100, Some(20), None));
    app.upsert_skill_load_summary(DeliverySkillLoad {
        section_id: "turn-1:root:root:load-skills".to_string(),
        source_step_id: Some("select-skills".to_string()),
        recognized_skill_ids: vec!["docs-specs".to_string(), "plan".to_string()],
        loaded_skill_ids: vec!["docs-specs".to_string()],
        ignored_skill_ids: vec!["plan".to_string()],
        selection_reason: Some("spec task".to_string()),
    });
    app.upsert_step_knowledge_summary(StepKnowledgeSummary {
        section_id: "turn-1:child:feature:plan".to_string(),
        document: Some(document_search("delivery summary")),
        memory: Some(memory_search("delivery memory", "delivery observation")),
    });
    app.begin_tool_run(tool_run(
        "tool-1",
        "turn-1:child:feature:plan",
        "write_file",
        ToolRunStatus::Running,
        "crates/omega-tui/src/app.rs",
    ));
    app.complete_tool_run("tool-1", ToolRunStatus::Completed);

    app.set_agent_status_label("Idle");

    assert_eq!(turn_id, 1);
    assert_eq!(app.rail_badge(SidebarSection::Delivery), "V 2/1");
    assert_eq!(app.rail_badge(SidebarSection::Skills), "S 1/2");
    assert!(app.delivery_lines.iter().any(|line| line.contains("model: gpt-5.4")));
    assert!(app.delivery_lines.iter().any(|line| line.contains("files: 1 changed")));
    assert!(app.output_msgs.iter().any(|m| m.title.as_deref() == Some("Task Delivery Summary")));
}
