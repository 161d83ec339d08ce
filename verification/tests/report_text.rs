use omega_tui::config::{loaded_config, ConfigLoadOutcome, TuiBehaviorConfig};
use omega_tui::delivery::{
    build_delivery_detail_lines, build_delivery_panel_lines, dedupe, delivery_section_id,
    extract_turn_id_from_section_id, tool_change_kind, turn_prefix, DeliveryChangedFile, DeliveryFileChangeKind,
    DeliveryStatus, DeliverySummary,
};
use omega_tui::report::{
    classify_report_section, count_markdown_table_rows, first_non_empty_line, format_counter_map,
    format_skill_ids, is_bullet_or_ordered_item, is_markdown_table_row, is_markdown_table_separator,
    looks_like_code_token, looks_like_metric, normalize_section_title, parse_markdown_table_row,
    parse_section_heading, split_or_empty, split_report_sections, summarize_report_section,
    summarize_skill_ids, truncate_preview, ResponseCardSectionKind,
};
use omega_tui::supervision::{compact_bar, format_kv_counts, hits_dashboard_lines};
use omega_tui::todo::summarize_todo_lines;

fn sample_summary() -> DeliverySummary {
    DeliverySummary {
        turn_id: 3,
        status: DeliveryStatus::Complete,
        primary_model: Some("gpt-5.4".to_string()),
        llm_request_count: 2,
        input_tokens: 100,
        cache_creation_input_tokens: 20,
        cache_read_input_tokens: 5,
        token_stats_partial: true,
        tool_call_count: 3,
        unique_tool_count: 2,
        failed_tool_count: 1,
        tool_counts: vec![("read_file".to_string(), 2), ("write_file".to_string(), 1)],
        recognized_skill_ids: vec!["plan".to_string()],
        loaded_skill_ids: vec!["plan".to_string()],
        ignored_skill_ids: Vec::new(),
        document_search_count: 1,
        memory_search_count: 0,
        observation_search_count: 0,
        document_queries: vec!["q".to_string()],
        memory_queries: Vec::new(),
        changed_files: vec![DeliveryChangedFile { path: "a.rs".to_string(), kind: DeliveryFileChangeKind::Update }],
    }
}

#[test]
fn section_headings_are_trimmed_titles() {
    assert_eq!(parse_section_heading("  ## Results Summary  "), Some("Results Summary".to_string()));
    assert_eq!(parse_section_heading("### Tests"), Some("Tests".to_string()));
    assert_eq!(parse_section_heading("# Title"), Some("Title".to_string()));
    assert_eq!(parse_section_heading("##"), None);
    assert_eq!(parse_section_heading("#### Deep"), None);
    assert_eq!(parse_section_heading("plain"), None);
}

#[test]
fn section_titles_normalize_to_words() {
    assert_eq!(normalize_section_title("  Next-Steps!! "), "next steps");
    assert_eq!(normalize_section_title("Test   Results"), "test results");
    assert_eq!(classify_report_section("Results Summary"), ResponseCardSectionKind::ResultsSummary);
    assert_eq!(classify_report_section("Changes"), ResponseCardSectionKind::ChangesMade);
    assert_eq!(classify_report_section("Test results"), ResponseCardSectionKind::Verification);
    assert_eq!(classify_report_section("How to use"), ResponseCardSectionKind::Usage);
    assert_eq!(classify_report_section("Next steps"), ResponseCardSectionKind::OptionalNextStep);
    assert_eq!(classify_report_section("Highlights"), ResponseCardSectionKind::KeyPoints);
    assert_eq!(classify_report_section("Anything else"), ResponseCardSectionKind::Custom);
}

#[test]
fn reports_split_at_headings() {
    let text = "intro\n## Summary\n- a\n- b\n## Empty\n\n## Tests\nok";
    assert_eq!(
        split_report_sections(text),
        vec![
            (None, "intro".to_string()),
            (Some("Summary".to_string()), "- a\n- b".to_string()),
            (Some("Tests".to_string()), "ok".to_string()),
        ]
    );
    assert_eq!(split_report_sections("no headings\nhere"), vec![(None, "no headings\nhere".to_string())]);
}

#[test]
fn tables_are_recognised_and_counted() {
    assert!(is_markdown_table_row("| a | b |"));
    assert!(!is_markdown_table_row("a | b"));
    assert!(is_markdown_table_separator("|---|:---:|"));
    assert!(!is_markdown_table_separator("| a | b |"));
    assert_eq!(parse_markdown_table_row("| a |  b |"), vec!["a".to_string(), "b".to_string()]);
    assert_eq!(count_markdown_table_rows("| h | i |\n|---|---|\n| 1 | 2 |\n| 3 | 4 |\ntext"), 2);
    assert_eq!(count_markdown_table_rows("| 1 | 2 |"), 0);
}

#[test]
fn section_summaries_count_what_they_hold() {
    assert_eq!(summarize_report_section(ResponseCardSectionKind::ResultsSummary, "- a\n- b\n\nc"), Some("2 items".to_string()));
    assert_eq!(summarize_report_section(ResponseCardSectionKind::ChangesMade, "one\ntwo"), Some("2 lines".to_string()));
    assert_eq!(
        summarize_report_section(ResponseCardSectionKind::Verification, "| h | i |\n|---|---|\n| 1 | 2 |"),
        Some("1 rows".to_string())
    );
    assert_eq!(summarize_report_section(ResponseCardSectionKind::Verification, "ok\nfine"), Some("2 checks".to_string()));
    assert_eq!(summarize_report_section(ResponseCardSectionKind::Usage, "$ run\nuse `x`\nnote"), Some("2 commands".to_string()));
    assert_eq!(summarize_report_section(ResponseCardSectionKind::Custom, "a\n\nb"), Some("2 lines".to_string()));
    assert_eq!(summarize_report_section(ResponseCardSectionKind::Meta, "a"), None);
    assert_eq!(summarize_report_section(ResponseCardSectionKind::Custom, "  \n"), None);
}

#[test]
fn list_items_metrics_and_code_tokens() {
    assert!(is_bullet_or_ordered_item("- a"));
    assert!(is_bullet_or_ordered_item("* a"));
    assert!(is_bullet_or_ordered_item("12. a"));
    assert!(!is_bullet_or_ordered_item(". a"));
    assert!(!is_bullet_or_ordered_item("1a. b"));
    assert!(looks_like_metric(" 95% "));
    assert!(looks_like_metric("passed"));
    assert!(!looks_like_metric("none"));
    assert!(looks_like_code_token("src/app.rs"));
    assert!(looks_like_code_token("a::b"));
    assert!(looks_like_code_token("$HOME"));
    assert!(!looks_like_code_token("word"));
}

#[test]
fn small_text_helpers() {
    assert_eq!(split_or_empty(""), vec![String::new()]);
    assert_eq!(split_or_empty("a\nb"), vec!["a".to_string(), "b".to_string()]);
    assert_eq!(first_non_empty_line("\n  \nsecond\nthird"), Some("second".to_string()));
    assert_eq!(first_non_empty_line(" \n"), None);
    assert_eq!(summarize_skill_ids(&vec![]), "none");
    assert_eq!(format_skill_ids(&vec!["a".to_string(), "b".to_string()]), "a, b");
    assert_eq!(format_counter_map(&vec![]), "none");
    assert_eq!(format_counter_map(&vec![("a".to_string(), 1), ("b".to_string(), 2)]), "a=1, b=2");
    assert_eq!(truncate_preview("héllo", 2), "hé...");
    assert_eq!(truncate_preview("hé", 2), "hé");
}

#[test]
fn delivery_lines_report_a_summary() {
    let s = sample_summary();
    assert_eq!(s.total_tokens(), 125);
    assert_eq!(s.summary_line(), "complete · gpt-5.4 · 125 tok partial · 2 llm · 3 tools · 1 skills · 1 files");
    assert_eq!(s.compact_badge(), "125 tok · 2 llm · 3 tools · 1 files");
    assert_eq!(
        build_delivery_panel_lines(&s),
        vec![
            "status: complete",
            "model: gpt-5.4",
            "tokens: 125 total (partial)",
            "llm: 2 requests",
            "tools: 3 calls · 2 unique · 1 failed",
            "skills: 1 loaded / 1 recognized / 0 ignored",
            "knowledge: document 1 · memory 0 · observations 0",
            "files: 1 changed",
            "paths: a.rs",
        ]
    );
    assert!(build_delivery_detail_lines(&s).iter().any(|l| l == "- a.rs [update]"));
}

#[test]
fn total_tokens_saturate() {
    let mut s = sample_summary();
    s.input_tokens = u32::MAX;
    assert_eq!(s.total_tokens(), u32::MAX);
}

#[test]
fn turn_ids_round_trip_through_section_ids() {
    assert_eq!(turn_prefix(12), "turn-12:");
    assert_eq!(delivery_section_id(12), "turn-12:delivery-summary");
    assert_eq!(extract_turn_id_from_section_id("turn-12:delivery-summary"), Some(12));
    assert_eq!(extract_turn_id_from_section_id("turn-7"), Some(7));
    assert_eq!(extract_turn_id_from_section_id("turn-x:a"), None);
    assert_eq!(extract_turn_id_from_section_id("step-1:a"), None);
    assert_eq!(extract_turn_id_from_section_id("turn-99999999999999999999:a"), None);
}

#[test]
fn file_tools_map_to_change_kinds() {
    assert_eq!(tool_change_kind("create_file"), Some(DeliveryFileChangeKind::Create));
    assert_eq!(tool_change_kind("apply_patch"), Some(DeliveryFileChangeKind::Update));
    assert_eq!(tool_change_kind("edit_file"), Some(DeliveryFileChangeKind::Update));
    assert_eq!(tool_change_kind("write_file"), Some(DeliveryFileChangeKind::Update));
    assert_eq!(tool_change_kind("read_file"), None);
}

#[test]
fn dedupe_keeps_first_occurrences() {
    let v = vec!["b".to_string(), "a".to_string(), "b".to_string(), "c".to_string(), "a".to_string()];
    assert_eq!(dedupe(v), vec!["b".to_string(), "a".to_string(), "c".to_string()]);
}

#[test]
fn knowledge_dashboard_bars() {
    assert_eq!(
        hits_dashboard_lines(3, 2, 1),
        vec![
            "hits:".to_string(),
            "  doc ██████ 3".to_string(),
            "  mem ████░░ 2".to_string(),
            "  obs ██░░░░ 1".to_string(),
        ]
    );
    assert_eq!(compact_bar(0, 0, 4), "░░░░");
    assert_eq!(format_kv_counts(&vec![]), "none");
    assert_eq!(format_kv_counts(&vec![("a".to_string(), 1), ("b".to_string(), 2)]), "a=1, b=2");
}

#[test]
fn todo_lines_summarize_their_progress() {
    let lines = vec!["[x] #1: Plan".to_string(), "  [>] #2: Code".to_string(), "[ ] #3: Test".to_string(), "note".to_string()];
    let s = summarize_todo_lines(&lines).unwrap();
    assert_eq!((s.completed, s.total), (1, 3));
    assert_eq!(summarize_todo_lines(&vec!["note".to_string()]), None);
}

#[test]
fn config_overrides_and_load_outcomes() {
    assert!(TuiBehaviorConfig::from_overrides(None).show_thinking);
    assert!(!TuiBehaviorConfig::from_overrides(Some(false)).show_thinking);
    let loaded = loaded_config(".omega/tui.toml", ConfigLoadOutcome::Read(Ok(Some(false))));
    assert!(!loaded.config.show_thinking);
    assert!(loaded.warnings.is_empty());
    assert_eq!(loaded.source.source_label(), ".omega/tui.toml");
    let broken = loaded_config("x.toml", ConfigLoadOutcome::Read(Err("bad key".to_string())));
    assert!(broken.config.show_thinking);
    assert_eq!(
        broken.warnings,
        vec!["Invalid TUI config at x.toml: bad key. Falling back to built-in defaults.".to_string()]
    );
    let failed = loaded_config("y.toml", ConfigLoadOutcome::CreateFailed("denied".to_string()));
    assert_eq!(failed.source.source_label(), "builtin");
}
