use omega_tui::app::{App, Panel, Rect};

fn laid_out() -> App {
    let mut app = App::new();
    app.delivery_rect = Rect::new(60, 0, 20, 6);
    app.todo_rect = Rect::new(60, 6, 20, 6);
    app.logs_rect = Rect::new(60, 12, 20, 6);
    app
}

#[test]
fn visible_sidebar_panels_follow_layout_order() {
    let app = laid_out();
    assert_eq!(app.visible_sidebar_panels(), vec![Panel::Delivery, Panel::Todo, Panel::Logs]);
    assert!(App::new().visible_sidebar_panels().is_empty());
}

#[test]
fn cycling_sidebar_focus_wraps_and_seeds_selection() {
    let mut app = laid_out();
    app.cycle_focused_sidebar_panel_next();
    assert_eq!(app.focused_panel, Panel::Delivery);
    app.cycle_focused_sidebar_panel_next();
    assert_eq!(app.focused_panel, Panel::Todo);
    assert_eq!(app.todo_scroll.list.selected, Some(0));
    app.cycle_focused_sidebar_panel_next();
    app.cycle_focused_sidebar_panel_next();
    assert_eq!(app.focused_panel, Panel::Delivery);
    app.cycle_focused_sidebar_panel_previous();
    assert_eq!(app.focused_panel, Panel::Logs);

    let mut other = laid_out();
    other.cycle_focused_sidebar_panel_previous();
    assert_eq!(other.focused_panel, Panel::Logs);

    let mut empty = App::new();
    empty.cycle_focused_sidebar_panel_next();
    assert_eq!(empty.focused_panel, Panel::Response);
}

#[test]
fn selecting_a_sidebar_item_clamps_and_pins() {
    let mut app = laid_out();
    assert!(!app.select_sidebar_panel_item(Panel::Todo, 1));
    app.todo_scroll.displayed = 3;
    assert!(app.select_sidebar_panel_item(Panel::Todo, 9));
    assert_eq!(app.focused_panel, Panel::Todo);
    assert_eq!(app.todo_scroll.list.selected, Some(2));
    assert!(app.todo_scroll.pinned);
    assert!(!app.select_sidebar_panel_item(Panel::Memory, 0));
    assert!(!app.select_sidebar_panel_item(Panel::Response, 0));
}

#[test]
fn pointer_focus_keeps_an_existing_selection() {
    let mut app = laid_out();
    app.logs_scroll.list.selected = Some(4);
    app.log_lines = vec!["a".to_string(); 6];
    app.focus_sidebar_panel_from_pointer(Panel::Logs);
    assert_eq!(app.focused_panel, Panel::Logs);
    assert_eq!(app.logs_scroll.list.selected, Some(4));
}
