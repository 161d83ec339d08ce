use omega_tui::app::{App, InteractionMode, Panel, Rect};
use omega_tui::overlay::{overlay_area, OverlaySize};
use omega_tui::text::{preview_text, strip_ansi};

#[test]
fn preview_text_preserves_utf8_boundaries() {
    assert_eq!(preview_text("你好世界", 3), "你好世...");
}

#[test]
fn preview_text_keeps_short_text() {
    assert_eq!(preview_text("abc", 3), "abc");
    assert_eq!(preview_text("abcd", 0), "...");
}

#[test]
fn strips_csi_escape_sequences() {
    assert_eq!(strip_ansi("\u{1b}[31mhello\u{1b}[0m"), "hello");
}

#[test]
fn strips_osc_sequences_ended_by_bell_or_st() {
    assert_eq!(strip_ansi("a\u{1b}]0;title\u{7}b"), "ab");
    assert_eq!(strip_ansi("a\u{1b}]8;;x\u{1b}\\b"), "ab");
}

#[test]
fn add_log_strips_ansi_sequences() {
    let mut app = App::new();
    app.add_log("\u{1b}[32mhello\u{1b}[0m".to_string());

    assert_eq!(app.log_lines, vec!["hello"]);
}

#[test]
fn panel_hit_testing_distinguishes_todo_and_logs() {
    let mut app = App::new();
    app.todo_rect = Rect::new(60, 1, 20, 8);
    app.logs_rect = Rect::new(60, 9, 20, 10);

    assert_eq!(app.panel_at(10, 5), Panel::Response);
    assert_eq!(app.panel_at(65, 4), Panel::Todo);
    assert_eq!(app.panel_at(65, 12), Panel::Logs);
}

#[test]
fn panel_hit_testing_respects_sidebar_panel_right_edges() {
    let mut app = App::new();
    app.diagnostics_rect = Rect::new(60, 1, 20, 8);
    app.sidebar_rail_rect = Rect::new(82, 1, 10, 12);

    assert_eq!(app.panel_at(79, 4), Panel::Diagnostics);
    assert_eq!(app.panel_at(81, 4), Panel::Response);
    assert_eq!(app.panel_at(85, 4), Panel::SidebarRail);
}

#[test]
fn normalize_focus_returns_to_response_when_sidebar_hides() {
    let mut app = App::new();
    app.focused_panel = Panel::Todo;
    app.todo_rect = Rect::default();
    app.logs_rect = Rect::default();

    app.normalize_focus();

    assert_eq!(app.focused_panel, Panel::Response);
    assert_eq!(app.next_focus_panel(), Panel::Response);
}

#[test]
fn normalize_mode_returns_to_normal_when_input_is_disabled() {
    let mut app = App::new();
    app.interaction_mode = InteractionMode::Insert;
    app.input_enabled = false;

    app.normalize_mode();

    assert_eq!(app.interaction_mode, InteractionMode::Normal);
    assert!(app
        .status_notice
        .as_deref()
        .is_some_and(|notice| notice.contains("Insert mode")));
}

#[test]
fn next_focus_panel_cycles_through_visible_panels() {
    let mut app = App::new();
    app.sidebar_rect = Rect::new(60, 0, 30, 20);
    app.todo_rect = Rect::new(60, 1, 20, 8);
    app.logs_rect = Rect::new(60, 9, 20, 10);

    assert_eq!(app.next_focus_panel(), Panel::SidebarRail);
    app.focused_panel = Panel::SidebarRail;
    assert_eq!(app.next_focus_panel(), Panel::Todo);
    app.focused_panel = Panel::Todo;
    assert_eq!(app.next_focus_panel(), Panel::Logs);
    app.focused_panel = Panel::Logs;
    assert_eq!(app.next_focus_panel(), Panel::Response);
}

#[test]
fn scrolling_panels_moves_selection_and_pins() {
    let mut app = App::new();
    for i in 0..5 {
        app.add_log(format!("line {i}"));
    }
    app.scroll_panel_up(Panel::Logs, 2);
    assert_eq!(app.logs_scroll.list.selected(), Some(2));
    assert!(app.logs_scroll.pinned);
    app.scroll_panel_down(Panel::Logs, 1);
    assert_eq!(app.logs_scroll.list.selected(), Some(3));
    assert!(app.logs_scroll.pinned);
    app.scroll_panel_down(Panel::Logs, 10);
    assert_eq!(app.logs_scroll.list.selected(), Some(4));
    assert!(!app.logs_scroll.pinned);
}

#[test]
fn overlay_area_shrinks_inside_narrow_terminal() {
    let area = overlay_area(Rect::new(0, 0, 40, 12), OverlaySize::Large);

    assert!(area.width <= 38);
    assert!(area.height <= 10);
    assert!(area.width > 0);
    assert!(area.height > 0);
}

#[test]
fn overlay_area_centres_a_share_of_a_wide_terminal() {
    let area = overlay_area(Rect::new(0, 0, 200, 50), OverlaySize::Small);
    assert_eq!(area, Rect::new(48, 18, 104, 14));
}

#[test]
fn panel_titles_mark_focus() {
    let mut app = App::new();
    assert_eq!(app.logs_panel_title(), " Activity & Logs ");
    app.focused_panel = Panel::Logs;
    assert_eq!(app.logs_panel_title(), " Activity & Logs ◆ ");
}
