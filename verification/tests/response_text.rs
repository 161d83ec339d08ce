use omega_tui::app::{App, Msg, MsgKind, SectionState, WorkflowRunRole};
use omega_tui::overlay::OverlayState;
use omega_tui::response_text::{
    command_placeholder_text, format_response_header, format_tool_lane_header, format_tool_summary,
    restored_response_state, summarize_command_text, summarize_thinking_text, thinking_body_prefix,
    thinking_header_title, tool_name_width, tool_run_status_label, visible_thinking_body_lines,
};
use omega_tui::turn_delivery::{ToolRun, ToolRunDetail, ToolRunStatus};

fn run(id: &str, name: &str, status: ToolRunStatus, result: Option<&str>) -> ToolRun {
    ToolRun {
        id: id.to_string(),
        parent_section_id: "turn-1:s".to_string(),
        tool_name: name.to_string(),
        status,
        invocation_preview: "src/app.rs".to_string(),
        result_preview: result.map(str::to_string),
        detail: ToolRunDetail { title: format!(" Tool: {name} "), lines: vec!["path: src/app.rs".to_string()] },
    }
}

#[test]
fn folded_command_sections_summarize_their_lines() {
    assert_eq!(summarize_command_text("", SectionState::Streaming), "running command");
    assert_eq!(summarize_command_text("  ok  \n", SectionState::Complete), "1 line · ok");
    assert_eq!(
        summarize_command_text("\ncargo test --workspace --all-features\nok", SectionState::Complete),
        "2 lines · cargo test --workspace --all..."
    );
    assert_eq!(command_placeholder_text(SectionState::Failed), "command failed");
}

#[test]
fn folded_reasoning_sections_summarize_their_lines() {
    assert_eq!(summarize_thinking_text("", SectionState::Streaming), "reasoning live · waiting for reasoning...");
    assert_eq!(summarize_thinking_text("think", SectionState::Complete), "reasoning · 1 line · think");
    assert_eq!(
        summarize_thinking_text("a\nb\nc", SectionState::Failed),
        "reasoning failed · 3 lines · a"
    );
    assert_eq!(thinking_header_title(SectionState::Streaming), "Reasoning live");
}

#[test]
fn streaming_reasoning_shows_its_last_two_lines() {
    assert_eq!(visible_thinking_body_lines("a\nb\nc", SectionState::Streaming), vec!["b", "c"]);
    assert_eq!(visible_thinking_body_lines("a\nb\nc", SectionState::Complete), vec!["a", "b", "c"]);
    assert_eq!(visible_thinking_body_lines("", SectionState::Streaming), vec![""]);
}

#[test]
fn reasoning_prefix_spins_while_streaming() {
    assert_eq!(thinking_body_prefix(SectionState::Streaming, 0), "⠋");
    assert_eq!(thinking_body_prefix(SectionState::Streaming, 3), "⠙");
    assert_eq!(thinking_body_prefix(SectionState::Streaming, 23), "⠙");
    assert_eq!(thinking_body_prefix(SectionState::Complete, 3), "│");
}

#[test]
fn restored_states_are_failed_or_complete() {
    assert_eq!(restored_response_state(Some("failed")), SectionState::Failed);
    assert_eq!(restored_response_state(Some("streaming")), SectionState::Complete);
    assert_eq!(restored_response_state(None), SectionState::Complete);
}

#[test]
fn tool_lanes_count_and_align_calls() {
    let runs = vec![
        run("1", "read_file", ToolRunStatus::Completed, Some("12 lines")),
        run("2", "grep", ToolRunStatus::Failed, None),
    ];
    let refs: Vec<&ToolRun> = runs.iter().collect();
    assert_eq!(format_tool_lane_header(&refs, true, true), "  tools  2 total · 1 failed  expand");
    assert_eq!(format_tool_lane_header(&refs, false, true), "  tools  2 total · 1 failed");
    let running = run("3", "bash", ToolRunStatus::Running, None);
    assert_eq!(format_tool_lane_header(&[&running], true, false), "  tools  1 total · 1 running  collapse");
    assert_eq!(format_tool_lane_header(&[], false, false), "  tools  0 total");
    assert_eq!(tool_name_width(&refs), 9);
    assert_eq!(format_tool_summary(&runs[0], 9), "    read_file  ●  src/app.rs -> 12 lines");
    assert_eq!(format_tool_summary(&runs[1], 9), "    grep       ✕  src/app.rs");
    assert_eq!(tool_run_status_label(ToolRunStatus::Running), "◉");
}

#[test]
fn section_headers_name_kind_origin_title_and_state() {
    let mut step = Msg::plain(MsgKind::Step, String::new());
    step.title = Some("Plan".to_string());
    step.workflow_id = Some("feature".to_string());
    step.workflow_role = Some(WorkflowRunRole::Child);
    step.state = Some(SectionState::Streaming);
    assert_eq!(format_response_header(&step), "step  child:feature  Plan  ◉");

    let mut cmd = Msg::plain(MsgKind::Command, String::new());
    cmd.title = Some("/plan".to_string());
    cmd.collapsed = true;
    assert_eq!(format_response_header(&cmd), "command  builtin  /plan  ●  expand");

    let mut thinking = Msg::plain(MsgKind::Thinking, String::new());
    thinking.state = Some(SectionState::Failed);
    assert_eq!(format_response_header(&thinking), "  reasoning  unknown:workflow  Reasoning failed  ✕");
}

#[test]
fn sections_fold_by_id_and_kind() {
    let mut app = App::new();
    let mut thinking = Msg::plain(MsgKind::Thinking, String::new());
    thinking.id = Some("t".to_string());
    let mut step = Msg::plain(MsgKind::Step, String::new());
    step.id = Some("s".to_string());
    app.begin_response_section(thinking);
    app.begin_response_section(step);

    assert_eq!(app.toggle_thinking_section("t"), Some(true));
    assert_eq!(app.toggle_thinking_section("t"), Some(false));
    assert_eq!(app.toggle_thinking_section("s"), None);
    assert_eq!(app.toggle_command_section("t"), None);
    assert_eq!(app.toggle_tool_lane("s"), Some(false));
    assert!(!app.output_msgs[1].tool_lane_collapsed);

    app.set_show_thinking(false);
    assert!(!app.show_thinking);
}

#[test]
fn tool_run_detail_opens_by_id() {
    let mut app = App::new();
    app.begin_turn();
    app.begin_tool_run(run("t1", "write_file", ToolRunStatus::Running, None));
    assert_eq!(app.open_tool_run_detail("t1"), Some("write_file".to_string()));
    match app.overlay.as_ref() {
        Some(OverlayState::Detail(d)) => {
            assert_eq!(d.title, " Tool: write_file ");
            assert_eq!(d.lines, vec!["path: src/app.rs".to_string()]);
        },
        other => panic!("expected a detail overlay, got {other:?}"),
    }
    app.close_overlay();
    assert_eq!(app.open_tool_run_detail("missing"), None);
    assert!(app.overlay.is_none());
}
