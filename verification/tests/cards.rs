use omega_tui::app::{App, Msg, MsgKind, ResponseLineAction, SectionState, ThinkingLineKind};
use omega_tui::lanes::ResponseDisplayLine;
use omega_tui::report::ResponseCardSectionKind;
use omega_tui::response_text::format_response_header;
use omega_tui::timeline::{project_response_card, ResponseCard, ResponseCardSection};
use omega_tui::turn_delivery::{ToolRun, ToolRunDetail, ToolRunStatus};

fn msg(kind: MsgKind, text: &str, id: Option<&str>) -> Msg {
    let mut m = Msg::plain(kind, text.to_string());
    m.id = id.map(str::to_string);
    m
}

fn run(id: &str, section: &str, name: &str) -> ToolRun {
    ToolRun {
        id: id.to_string(),
        parent_section_id: section.to_string(),
        tool_name: name.to_string(),
        status: ToolRunStatus::Completed,
        invocation_preview: "src/app.rs".to_string(),
        result_preview: None,
        detail: ToolRunDetail { title: format!(" Tool: {name} "), lines: vec![] },
    }
}

fn texts(card: ResponseCard) -> Vec<String> {
    project_response_card(card).into_iter().map(|l| l.text).collect()
}

#[test]
fn user_and_error_messages_mark_their_first_line() {
    let app = App::new();
    let card = app.build_message_card(&msg(MsgKind::User, "hello\nworld", None), vec![]);
    assert_eq!(card.header_line.text, "\u{25b6} hello");
    assert_eq!(card.sections.len(), 1);
    assert_eq!(card.sections[0].kind, ResponseCardSectionKind::RawDetail);
    assert_eq!(texts(card), vec!["\u{25b6} hello".to_string(), "world".to_string()]);

    let card = app.build_message_card(&msg(MsgKind::Error, "boom", None), vec![]);
    assert_eq!(card.header_line.text, "\u{2717} boom");
    assert!(card.sections.is_empty());

    let card = app.build_message_card(&msg(MsgKind::Agent, "", None), vec![]);
    assert_eq!(card.header_line.text, "");
}

#[test]
fn empty_final_answer_shows_rule_header_and_ellipsis() {
    let app = App::new();
    let m = msg(MsgKind::FinalAnswer, "", Some("turn-1:root:final"));
    let card = app.build_message_card(&m, vec![]);
    assert_eq!(card.prelude_lines.len(), 1);
    assert_eq!(card.prelude_lines[0].text, "\u{2501}".repeat(40));
    assert!(card.header_line.is_header);
    assert_eq!(card.header_line.text, format_response_header(&m));
    assert_eq!(card.sections.len(), 1);
    assert_eq!(card.sections[0].lines[0].text, "  \u{2502} \u{2026}");
}

#[test]
fn routing_card_shows_scene_and_first_result_line() {
    let app = App::new();
    let mut m = msg(MsgKind::Routing, "\n  \nroute to plan\nmore", Some("r1"));
    m.scene_id = Some("feature".to_string());
    let card = app.build_message_card(&m, vec![]);
    let kinds: Vec<ResponseCardSectionKind> = card.sections.iter().map(|s| s.kind).collect();
    assert_eq!(kinds, vec![ResponseCardSectionKind::Meta, ResponseCardSectionKind::ResultsSummary]);
    assert_eq!(card.sections[0].lines[0].text, "  scene feature");
    assert_eq!(card.sections[1].lines[0].text, "  result route to plan");
}

#[test]
fn step_body_uses_rendered_report_sections() {
    let app = App::new();
    let m = msg(MsgKind::Step, "## Summary\n- done", Some("turn-1:root:plan"));
    let report = vec![ResponseCardSection {
        kind: ResponseCardSectionKind::ResultsSummary,
        title: Some("Summary".to_string()),
        header_line: None,
        lines: vec![ResponseDisplayLine::plain(MsgKind::Step, "  - done".to_string())],
    }];
    let card = app.build_message_card(&m, report);
    assert_eq!(card.sections.len(), 1);
    assert_eq!(card.sections[0].title.as_deref(), Some("Summary"));
    assert_eq!(card.sections[0].lines[0].text, "  - done");
}

#[test]
fn tool_lane_folds_at_six_calls() {
    let mut app = App::new();
    for i in 0..2 {
        app.tool_runs.push(run(&format!("t{i}"), "turn-1:root:plan", "read_file"));
    }
    let m = msg(MsgKind::Step, "", Some("turn-1:root:plan"));
    let card = app.build_message_card(&m, vec![]);
    assert_eq!(card.sections.len(), 1);
    let lane = &card.sections[0];
    assert_eq!(lane.kind, ResponseCardSectionKind::ToolRuns);
    assert_eq!(lane.lines.len(), 3);
    assert_eq!(lane.lines[0].action, None);
    assert_eq!(lane.lines[1].action, Some(ResponseLineAction::OpenToolRunDetail("t0".to_string())));

    for i in 2..6 {
        app.tool_runs.push(run(&format!("t{i}"), "turn-1:root:plan", "grep_search"));
    }
    let mut folded = m.clone();
    folded.tool_lane_collapsed = true;
    let card = app.build_message_card(&folded, vec![]);
    let lane = card.sections.iter().find(|s| s.kind == ResponseCardSectionKind::ToolRuns).unwrap();
    assert_eq!(lane.lines.len(), 1);
    assert_eq!(lane.lines[0].action, Some(ResponseLineAction::ToggleToolLane("turn-1:root:plan".to_string())));

    folded.tool_lane_collapsed = false;
    let card = app.build_message_card(&folded, vec![]);
    let lane = card.sections.iter().find(|s| s.kind == ResponseCardSectionKind::ToolRuns).unwrap();
    assert_eq!(lane.lines.len(), 7);
}

#[test]
fn folded_command_shows_its_summary() {
    let app = App::new();
    let mut m = msg(MsgKind::Command, "line one\nline two", Some("cmd-1"));
    m.collapsed = true;
    let card = app.build_message_card(&m, vec![]);
    assert_eq!(card.header_line.action, Some(ResponseLineAction::ToggleCommandSection("cmd-1".to_string())));
    assert_eq!(card.sections.len(), 1);
    assert!(card.sections[0].lines[0].text.starts_with("  \u{bb} \u{25b8} "));
    assert_eq!(card.sections[0].lines[0].response_state, Some(SectionState::Complete));
}

#[test]
fn reasoning_card_folds_and_shows_visible_lines() {
    let app = App::new();
    let mut m = msg(MsgKind::Thinking, "a\nb\nc", Some("th-1"));
    m.state = Some(SectionState::Streaming);
    let card = app.build_message_card(&m, vec![]);
    let lines = &card.sections[0].lines;
    assert_eq!(card.sections[0].kind, ResponseCardSectionKind::Thinking);
    assert_eq!(lines.len(), 2);
    assert!(lines[0].text.ends_with(" b"));
    assert!(lines[1].text.ends_with(" c"));
    assert_eq!(lines[0].thinking_line_kind, Some(ThinkingLineKind::Body));

    m.collapsed = true;
    let card = app.build_message_card(&m, vec![]);
    assert_eq!(card.sections[0].lines.len(), 1);
    assert!(card.sections[0].lines[0].text.starts_with("    \u{25b8} "));
    assert_eq!(card.sections[0].lines[0].thinking_line_kind, Some(ThinkingLineKind::Summary));
}

#[test]
fn delivery_lane_needs_the_delivery_section_of_a_known_turn() {
    let app = App::new();
    assert!(app.render_delivery_lane("turn-1:delivery-summary", MsgKind::Step, "  ").is_empty());
    assert!(app.render_delivery_lane("not-a-turn", MsgKind::Step, "  ").is_empty());
}

#[test]
fn running_turn_delivery_section_shows_delivery_lane() {
    let mut app = App::new();
    let turn_id = app.begin_turn();
    let section = format!("turn-{turn_id}:delivery-summary");
    let lane = app.render_delivery_lane(&section, MsgKind::Step, "  ");
    assert_eq!(lane.len(), 2);
    assert!(lane[0].text.starts_with("  delivery  "));
    assert_eq!(lane[1].text, "    knowledge  doc=0 \u{b7} mem=0 \u{b7} obs=0  |  files 0");
    assert_eq!(lane[0].action, Some(ResponseLineAction::OpenDeliveryDetail(turn_id)));

    let m = msg(MsgKind::Step, "", Some(&section));
    let card = app.build_message_card(&m, vec![]);
    let kinds: Vec<ResponseCardSectionKind> = card.sections.iter().map(|s| s.kind).collect();
    assert_eq!(kinds, vec![ResponseCardSectionKind::RawDetail, ResponseCardSectionKind::Delivery]);
}
