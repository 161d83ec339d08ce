use omega_tui::app::{App, Panel, Rect, WorkflowRunRole};
use omega_tui::context_supervision::{DocumentHealthStatus, HealthScore};
use omega_tui::diagnostics::{
    build_diagnostics_lines, build_step_diagnostics_detail_lines, context_budget_percent, context_headroom_tokens,
    sanitize_step_diagnostics, CacheDiagnostics, ContextBudget, ContextDiagnostics, ContextDocument,
    ContextMemory, ContextStore, ExecuteProgress, StepContextWrite, StepContextWriteKind, StepDiagnostics,
    StepInputDiagnostics, StepInputStatus, StepOutputAttemptKind, StepOutputDiagnostics,
    StepOutputRecoveryDecision, StepOutputStatus, SummarySource, ToolCapabilityDiagnostics,
};
use omega_tui::overlay::OverlayState;
use omega_tui::rail::SidebarSection;

fn sample_step_diagnostics() -> StepDiagnostics {
    StepDiagnostics {
        id: "child:feature:plan".to_string(),
        workflow_id: "feature".to_string(),
        workflow_role: WorkflowRunRole::Child,
        step_id: "plan".to_string(),
        step_label: "Plan".to_string(),
        index: 2,
        total: 4,
        context: Some(ContextDiagnostics {
            budget: ContextBudget {
                budget_input_tokens: 1024,
                request_input_tokens: 321,
                headroom_tokens: 703,
                usage_percent: 31,
                selected_summary_count: 1,
                available_summary_count: 2,
            },
            memory: ContextMemory {
                total_turns_archived: 2,
                compactions_triggered: 1,
                current_summary_tokens: 144,
                current_summary_count: 1,
                compression_ratio_avg_percent: 50,
            },
            document: ContextDocument {
                total_files_indexed: 12,
                total_chunks: 48,
                total_embeddings: 48,
                index_staleness_seconds: 4,
                governance_health: Some(HealthScore::NeedsAttention),
                health_status: DocumentHealthStatus::NeedsAttention,
                active_version: None,
                pending_version: None,
                last_promotion_error: None,
            },
            store: ContextStore {
                lance_db_size_bytes: 4096,
                tantivy_index_size_bytes: 2048,
                todo_items_count: 3,
                turn_archive_count: 2,
            },
        }),
        cache: Some(CacheDiagnostics {
            token_count_source: "provider_count_tokens".to_string(),
            request_input_tokens: 321,
            budget_input_tokens: 1024,
            cache_breakpoints: vec!["tools".to_string(), "system:stable".to_string()],
            cache_creation_input_tokens: Some(40),
            cache_read_input_tokens: Some(60),
            uncached_input_tokens: Some(120),
            cache_hit_ratio_percent: Some(33),
        }),
        execute_progress: Some(ExecuteProgress {
            todo_total: 2,
            todo_completed: 1,
            todo_open: 1,
            current_item_id: Some("task-2".to_string()),
            current_item_index: Some(2),
            current_item_total: Some(2),
            repeat_count: 1,
            no_progress_streak: 0,
            max_step_repeats: 8,
            max_item_repeats: Some(3),
            completion_source: Some("structured_output".to_string()),
        }),
        input: StepInputDiagnostics {
            status: StepInputStatus::Ready,
            summary_sources: vec![SummarySource {
                workflow_id: "feature".to_string(),
                step_id: "explore".to_string(),
                title: "Explore".to_string(),
            }],
            expected_structured_sources: vec!["explore".to_string()],
            resolved_structured_sources: vec!["explore".to_string()],
            missing_structured_sources: vec![],
            structured_input_preview: Some("{\"explore\":{\"objective\":\"Ship\"}}".to_string()),
            todo_state_preview: None,
            error: None,
        },
        output: StepOutputDiagnostics {
            format: Some("json".to_string()),
            schema_path: Some(".omega/schema/step/plan.json".to_string()),
            status: StepOutputStatus::Valid,
            attempt_kind: StepOutputAttemptKind::Repair,
            extracted_json_preview: Some("{\"tasks\":[{\"id\":\"task-1\"}]}".to_string()),
            previous_response_preview: Some("{\"tasks\":[]}".to_string()),
            attempts: 2,
            retry_count: 1,
            max_retries: 2,
            validation_error: Some("missing validation_targets".to_string()),
            recovery_decision: Some(StepOutputRecoveryDecision::Regenerate),
        },
        session_writes: vec![StepContextWrite {
            path: "step_outputs.plan".to_string(),
            kind: StepContextWriteKind::Added,
            before_preview: None,
            after_preview: Some("{\"tasks\":[{\"id\":\"task-1\"}]}".to_string()),
        }],
        tool_capabilities: Some(ToolCapabilityDiagnostics {
            tool_invocations: vec![("ask_user_question".to_string(), 1), ("grep_search".to_string(), 1)],
            family_invocations: vec![("interaction".to_string(), 1), ("workspace_inspection".to_string(), 1)],
            tool_failure_count_by_kind: vec![("policy".to_string(), 1)],
            bash_fallback_count: 0,
            question_block_count: 1,
            tool_switch_after_failure: 1,
            same_intent_retry_count: 0,
        }),
    }
}

fn texts(app: &App) -> Vec<String> {
    app.diagnostics_lines.iter().map(|l| l.text.clone()).collect()
}

#[test]
fn step_diagnostics_build_panel_lines() {
    let mut app = App::new();

    app.upsert_step_diagnostics(sample_step_diagnostics());

    assert_eq!(app.step_diagnostics.len(), 1);
    let lines = texts(&app);
    assert!(!lines.is_empty());
    assert!(lines.iter().any(|line| line.contains("child:feature 2/4 Plan")));
    assert!(lines.iter().any(|line| line.contains("attempt=repair · next=regenerate")));
    assert!(lines.iter().any(|line| line.contains("budget=31%")));
    assert!(lines.iter().any(|line| line.contains("headroom=703")));
    assert!(lines.iter().any(|line| line.contains("context memory turns=2 compact=1 summaries=1")));
    assert!(lines.iter().any(|line| line.contains("context docs files=12 chunks=48 health=needs_attention")));
    assert!(lines.iter().any(|line| line.contains("current=task-2")));
    assert!(app.diagnostics_lines.iter().all(|l| l.diagnostic_id.as_deref() == Some("child:feature:plan")));
}

#[test]
fn step_panel_lines_are_exact() {
    let lines: Vec<String> = build_diagnostics_lines(&sample_step_diagnostics()).into_iter().map(|l| l.text).collect();
    assert_eq!(
        lines,
        vec![
            "child:feature 2/4 Plan",
            "  input ready · summaries=1 · structured=1",
            "  output valid · attempt=repair · next=regenerate · retries=1/2 · writes=1",
            "  tools invocations=2 failures=1 bash_fallback=0 questions=1 switch_after_failure=1 retry_same_tool=0",
            "  cache provider_count_tokens · budget=31% · headroom=703 · anchors=2 · hit=33%",
            "  context memory turns=2 compact=1 summaries=1",
            "  context docs files=12 chunks=48 health=needs_attention",
            "  context store todo=3 tantivy=2048 lance=4096",
            "  execute todos=1/2 open=1 repeats=1 · current=task-2 · source=structured_output",
            "  error missing validation_targets",
        ]
    );
}

#[test]
fn activating_diagnostics_item_opens_detail_overlay() {
    let mut app = App::new();
    app.upsert_step_diagnostics(sample_step_diagnostics());
    app.focused_panel = Panel::Diagnostics;
    app.diagnostics_rect = Rect::new(0, 0, 80, 8);
    app.diagnostics_scroll.list.select(Some(0));

    let opened = app.activate_selected_diagnostics_item();

    assert_eq!(opened, Some("Plan".to_string()));
    match app.overlay.as_ref() {
        Some(OverlayState::Detail(detail)) => {
            assert!(detail.title.contains("Plan"));
            assert!(detail.lines.iter().any(|line| line.contains("context_budget_percent: 31")));
            assert!(detail.lines.iter().any(|line| line.contains("context_headroom_tokens: 703")));
            assert!(detail
                .lines
                .iter()
                .any(|line| line.contains("context_memory: turns_archived=2 compactions_triggered=1")));
            assert!(detail.lines.iter().any(|line| line.contains("context_document: files=12 chunks=48 embeddings=48 staleness_seconds=4 health=needs_attention governance_health=needs_attention")));
            assert!(detail.lines.iter().any(|line| line.contains("context_store: todo_items=3 turn_archive_count=2 tantivy_index_size_bytes=2048 lance_db_size_bytes=4096")));
            assert!(detail.lines.iter().any(|line| line.contains("execute_progress: todos=1/2 open=1")));
            assert!(detail.lines.iter().any(|line| line.contains("current_item: task-2 (2/2)")));
            assert!(detail.lines.iter().any(|line| line.contains("completion_source: structured_output")));
            assert!(detail.lines.iter().any(|line| line.contains("step_outputs.plan")));
            assert!(detail.lines.iter().any(|line| line.contains("recovery_decision: regenerate")));
            assert!(detail.lines.iter().any(|line| line.contains("validation_error: missing validation_targets")));
            assert!(detail.lines.iter().any(|line| line.contains("previous_response_preview:")));
            assert!(detail.lines.iter().any(|line| line.contains("extracted_json_preview:")));
            assert!(detail.lines.iter().any(|line| line.contains("(added)")));
            assert!(detail.lines.iter().any(|line| line.contains("after  {\"tasks\"")));
        },
        other => panic!("expected detail overlay, got {other:?}"),
    }
}

#[test]
fn detail_lines_start_with_the_step_and_its_sources() {
    let lines = build_step_diagnostics_detail_lines(&sample_step_diagnostics());
    assert_eq!(
        &lines[..7],
        &[
            "step: child:feature Plan 2/4",
            "step_id: plan",
            "input: ready",
            "summary_sources: feature:explore (Explore)",
            "structured_expected: explore",
            "structured_resolved: explore",
            "structured_input_preview:",
        ]
    );
    assert!(lines.iter().any(|l| l == "output_contract: format=json · status=valid · attempt=repair · schema=.omega/schema/step/plan.json · attempts=2 · retries=1/2"));
    assert!(lines.iter().any(|l| l == "tool_invocations: ask_user_question=1, grep_search=1"));
    assert!(lines.iter().any(|l| l == "cache_breakpoints: tools, system:stable"));
    assert_eq!(lines.last().unwrap(), "    after  {\"tasks\":[{\"id\":\"task-1\"}]}");
}

#[test]
fn diagnostics_are_kept_in_panel_order_and_replaced_by_id() {
    let mut app = App::new();
    let mut root = sample_step_diagnostics();
    root.id = "root:main:a".to_string();
    root.workflow_role = WorkflowRunRole::Root;
    let mut late = sample_step_diagnostics();
    late.id = "child:feature:late".to_string();
    late.index = 3;
    app.upsert_step_diagnostics(root);
    app.upsert_step_diagnostics(late);
    app.upsert_step_diagnostics(sample_step_diagnostics());
    let ids: Vec<&str> = app.step_diagnostics.iter().map(|d| d.id.as_str()).collect();
    assert_eq!(ids, vec!["child:feature:plan", "child:feature:late", "root:main:a"]);

    let mut again = sample_step_diagnostics();
    again.output.status = StepOutputStatus::Invalid;
    app.upsert_step_diagnostics(again);
    assert_eq!(app.step_diagnostics.len(), 3);
    assert_eq!(app.diagnostics_panel_title(), " Contract Diagnostics (!1) ");
    app.focused_panel = Panel::Diagnostics;
    app.diagnostics_rect = Rect::new(0, 0, 80, 8);
    assert_eq!(app.diagnostics_panel_title(), " Contract Diagnostics (!1) ◆ ");
}

#[test]
fn sanitizing_strips_escapes_from_quoted_text() {
    let mut d = sample_step_diagnostics();
    d.input.error = Some("\u{1b}[31mbad\u{1b}[0m".to_string());
    d.session_writes[0].path = "\u{1b}[1mpath\u{1b}[0m".to_string();
    let clean = sanitize_step_diagnostics(d);
    assert_eq!(clean.input.error.as_deref(), Some("bad"));
    assert_eq!(clean.session_writes[0].path, "path");
}

#[test]
fn budget_percent_and_headroom() {
    let mut c = sample_step_diagnostics().cache.unwrap();
    assert_eq!(context_budget_percent(&c), Some(31));
    assert_eq!(context_headroom_tokens(&c), 703);
    c.request_input_tokens = 5000;
    assert_eq!(context_budget_percent(&c), Some(100));
    assert_eq!(context_headroom_tokens(&c), 0);
    c.request_input_tokens = u32::MAX;
    assert_eq!(context_budget_percent(&c), Some(100));
    c.budget_input_tokens = 0;
    assert_eq!(context_budget_percent(&c), None);
}

#[test]
fn missing_selection_opens_nothing() {
    let mut app = App::new();
    app.upsert_step_diagnostics(sample_step_diagnostics());
    assert_eq!(app.activate_selected_diagnostics_item(), None);
    assert!(app.overlay.is_none());
    assert_eq!(app.open_step_diagnostics_detail("nope"), None);
}

#[test]
fn upserting_step_diagnostics_builds_sidebar_lines() {
    let mut app = App::new();

    app.upsert_step_diagnostics(sample_step_diagnostics());

    assert_eq!(app.step_diagnostics.len(), 1);
    let lines = texts(&app);
    assert!(!lines.is_empty());
    assert!(lines.iter().any(|line| line.contains("child:feature 2/4 Plan")));
    assert!(lines.iter().any(|line| line.contains("attempt=repair · next=regenerate")));
    assert!(lines.iter().any(|line| line.contains("budget=31%")));
    assert!(lines.iter().any(|line| line.contains("headroom=703")));
    assert!(lines.iter().any(|line| line.contains("context memory turns=2 compact=1 summaries=1")));
    assert!(lines.iter().any(|line| line.contains("context docs files=12 chunks=48 health=needs_attention")));
    assert!(lines.iter().any(|line| line.contains("current=task-2")));
    assert_eq!(app.rail_badge(SidebarSection::Diagnostics), "D 1");
}

#[test]
fn rail_badges_without_records() {
    let app = App::new();
    assert_eq!(app.rail_badge(SidebarSection::Diagnostics), "D --");
    assert_eq!(app.rail_badge(SidebarSection::Delivery), "V --");
    assert_eq!(app.rail_badge(SidebarSection::Skills), "S --");
    assert_eq!(app.rail_badge(SidebarSection::Project), "P --");
    assert_eq!(app.rail_badge(SidebarSection::Knowledge), "K --");
    assert_eq!(app.rail_badge(SidebarSection::Todos), "T --");
    assert_eq!(app.rail_badge(SidebarSection::Logs), "0");
}
