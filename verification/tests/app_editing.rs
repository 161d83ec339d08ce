use std::cell::Cell;

use omega_tui::app::{todo_empty_lines, App, InteractionMode, Panel, Rect, TodoPanelStatus, TodoSummary};
use omega_tui::clipboard::{
    copy_selected_text_with_backend, is_copy_shortcut, write_text_with_backend, ClipboardBackend, KeyCode,
    KeyInput,
};
use omega_tui::navigation::{MouseAction, MouseInput};
use omega_tui::overlay::OverlayState;

#[derive(Default)]
struct FakeClipboard {
    writes: Vec<String>,
    fail_next_write: bool,
}

impl ClipboardBackend for FakeClipboard {
    fn set_text(&mut self, text: &str) -> Result<(), String> {
        if self.fail_next_write {
            self.fail_next_write = false;
            return Err("clipboard unavailable".to_string());
        }
        self.writes.push(text.to_string());
        Ok(())
    }
}

#[test]
fn input_editing_uses_character_indices() {
    let mut app = App::new();
    app.insert_char('你');
    app.insert_char('好');
    app.move_cursor_left();
    app.insert_char('们');

    assert_eq!(app.input_buffer, "你们好");
    assert_eq!(app.cursor_pos, 2);
}

#[test]
fn vertical_cursor_motion_follows_wrapped_input_lines() {
    let mut app = App::new();
    app.input_rect = Rect::new(0, 0, 7, 4);
    app.insert_text("abcdefghij");

    app.move_cursor_up();
    assert_eq!(app.cursor_pos, 6);

    app.move_cursor_up();
    assert_eq!(app.cursor_pos, 2);

    app.move_cursor_down();
    assert_eq!(app.cursor_pos, 6);
}

#[test]
fn deleting_around_the_cursor_counts_characters() {
    let mut app = App::new();
    app.insert_text("añb");
    app.move_cursor_left();
    app.delete_char_before();
    assert_eq!(app.input_buffer, "ab");
    assert_eq!(app.cursor_pos, 1);
    assert_eq!(app.cursor_byte_pos(), 1);

    app.delete_char_at();
    assert_eq!(app.input_buffer, "a");
    assert_eq!(app.cursor_pos, 1);

    app.move_cursor_home();
    assert_eq!(app.cursor_pos, 0);
    app.move_cursor_end();
    assert_eq!(app.cursor_pos, 1);
}

#[test]
fn take_input_empties_the_box() {
    let mut app = App::new();
    app.insert_text("hello");
    app.insert_newline();
    assert_eq!(app.take_input(), "hello\n");
    assert_eq!(app.input_buffer, "");
    assert_eq!(app.cursor_pos, 0);
    assert_eq!(app.input_scroll_top, 0);
}

#[test]
fn mouse_wheel_scrolls_input_viewport_when_pointer_is_inside_input() {
    let mut app = App::new();
    app.interaction_mode = InteractionMode::Insert;
    app.input_rect = Rect::new(2, 10, 20, 4);
    app.insert_text("alpha\nbeta\ngamma\ndelta\nepsilon\nzeta");

    let down = MouseInput { kind: MouseAction::ScrollDown, column: 3, row: 11 };
    app.handle_mouse_event(down);
    app.handle_mouse_event(down);
    assert_eq!(app.input_scroll_top, 2);

    app.handle_mouse_event(MouseInput { kind: MouseAction::ScrollUp, column: 3, row: 11 });
    assert_eq!(app.input_scroll_top, 0);
}

#[test]
fn todo_snapshot_replaces_lines() {
    let mut app = App::new();
    app.set_todo_snapshot(1, "[ ] #1: Plan\n[>] #2: Code\n\n(0/2 completed)");

    assert_eq!(app.todo_lines, vec!["○ #1: Plan", "→ #2: Code"]);
    assert_eq!(app.todo_summary, Some(TodoSummary { completed: 0, total: 2 }));
}

#[test]
fn empty_todo_snapshot_uses_actionable_copy() {
    let mut app = App::new();
    app.set_todo_snapshot(2, "No todos.");

    assert_eq!(app.todo_status, TodoPanelStatus::Empty);
    assert_eq!(app.todo_lines, todo_empty_lines());
    assert_eq!(app.todo_summary, Some(TodoSummary { completed: 0, total: 0 }));
}

#[test]
fn overlay_close_restores_origin_focus() {
    let mut app = App::new();
    app.focused_panel = Panel::Logs;
    app.logs_rect = Rect::new(60, 10, 20, 8);

    app.open_search_overlay();
    app.focused_panel = Panel::Response;
    app.close_overlay();

    assert_eq!(app.focused_panel, Panel::Logs);
    assert!(!app.overlay_active());
}

#[test]
fn search_match_count_uses_overlay_target_panel() {
    let mut app = App::new();
    app.log_lines = vec!["alpha beta".to_string(), "alpha".to_string()];
    app.focused_panel = Panel::Logs;
    app.open_search_overlay();

    if let Some(OverlayState::Search(overlay)) = app.overlay.as_mut() {
        overlay.query = "alpha".to_string();
        overlay.cursor_pos = 5;
    }

    assert_eq!(app.panel_search_match_count(), Some((Panel::Logs, 2)));
}

#[test]
fn wrapped_selection_copies_without_soft_newlines() {
    let mut app = App::new();
    app.logs_rect = Rect::new(0, 0, 7, 5);
    app.log_lines = vec!["abcdefg".to_string()];

    assert!(app.begin_mouse_selection(Panel::Logs, 2, 1));
    assert!(app.update_mouse_selection(3, 2));

    assert_eq!(app.selected_text().as_deref(), Some("bcdefg"));
}

#[test]
fn panel_text_point_accounts_for_scroll_offset() {
    let mut app = App::new();
    app.logs_rect = Rect::new(0, 0, 8, 5);
    app.log_lines = vec!["first".to_string(), "second".to_string(), "third".to_string()];
    app.logs_scroll.list.offset = 1;

    let point = app.panel_text_point_at(Panel::Logs, 1, 1).unwrap();

    assert_eq!(point.line_index, 1);
    assert_eq!(point.column, 0);
}

#[test]
fn clipboard_backend_is_reused_between_writes() {
    let init_count = Cell::new(0);
    let mut backend = None;

    write_text_with_backend(&mut backend, "alpha", || {
        init_count.set(init_count.get() + 1);
        Ok(FakeClipboard::default())
    })
    .unwrap();
    write_text_with_backend(&mut backend, "beta", || {
        init_count.set(init_count.get() + 1);
        Ok(FakeClipboard::default())
    })
    .unwrap();

    assert_eq!(init_count.get(), 1);
    assert_eq!(backend.unwrap().writes, vec!["alpha".to_string(), "beta".to_string()]);
}

#[test]
fn clipboard_backend_reinitializes_after_write_failure() {
    let init_count = Cell::new(0);
    let mut backend = Some(FakeClipboard { writes: Vec::new(), fail_next_write: true });

    write_text_with_backend(&mut backend, "recovered", || {
        init_count.set(init_count.get() + 1);
        Ok(FakeClipboard::default())
    })
    .unwrap();

    assert_eq!(init_count.get(), 1);
    assert_eq!(backend.unwrap().writes, vec!["recovered".to_string()]);
}

#[test]
fn clipboard_init_error_is_returned() {
    let mut backend: Option<FakeClipboard> = None;
    let result = write_text_with_backend(&mut backend, "x", || Err("no display".to_string()));
    assert_eq!(result, Err("no display".to_string()));
    assert!(backend.is_none());
}

#[test]
fn copy_selected_text_uses_current_selection() {
    let mut app = App::new();
    app.logs_rect = Rect::new(0, 0, 7, 5);
    app.log_lines = vec!["abcdefg".to_string()];
    app.begin_mouse_selection(Panel::Logs, 2, 1);
    app.update_mouse_selection(3, 2);
    app.finish_mouse_selection(3, 2);

    let mut backend = Some(FakeClipboard::default());
    let copied = copy_selected_text_with_backend(&app, &mut backend, || Ok(FakeClipboard::default())).unwrap();

    assert_eq!(copied, Some(6));
    assert_eq!(backend.unwrap().writes, vec!["bcdefg".to_string()]);
}

#[test]
fn copy_without_selection_copies_nothing() {
    let app = App::new();
    let mut backend = Some(FakeClipboard::default());
    let copied = copy_selected_text_with_backend(&app, &mut backend, || Ok(FakeClipboard::default())).unwrap();
    assert_eq!(copied, None);
    assert!(backend.unwrap().writes.is_empty());
}

#[test]
fn copy_shortcuts_are_y_and_ctrl_c() {
    assert!(is_copy_shortcut(KeyInput { code: KeyCode::Char('y'), modifiers: 0 }));
    assert!(is_copy_shortcut(KeyInput { code: KeyCode::Char('Y'), modifiers: 1 }));
    assert!(is_copy_shortcut(KeyInput { code: KeyCode::Char('c'), modifiers: 2 }));
    assert!(!is_copy_shortcut(KeyInput { code: KeyCode::Char('c'), modifiers: 0 }));
    assert!(!is_copy_shortcut(KeyInput { code: KeyCode::Char('y'), modifiers: 4 }));
}
