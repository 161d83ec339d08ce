use omega_tui::app::Panel;
use omega_tui::picker::{
    OperatorPickerAction, OperatorPickerIntent, OperatorPickerItem, OperatorPickerOverlayBehavior, OperatorPickerRequest,
    OperatorPickerShortcut, PickerOverlay,
};

fn item(id: &str, title: &str, subtitle: Option<&str>, badges: &[&str]) -> OperatorPickerItem {
    OperatorPickerItem {
        id: id.to_string(),
        title: title.to_string(),
        subtitle: subtitle.map(|s| s.to_string()),
        badges: badges.iter().map(|b| b.to_string()).collect(),
        preview: None,
        disabled_reason: None,
    }
}

fn action(id: &str, shortcut: OperatorPickerShortcut) -> OperatorPickerAction {
    OperatorPickerAction {
        action_id: id.to_string(),
        label: id.to_string(),
        shortcut,
        requires_selection: true,
        overlay_behavior: OperatorPickerOverlayBehavior::KeepOpen,
        intent: OperatorPickerIntent::OpenDetail,
    }
}

fn request(filter_enabled: bool) -> OperatorPickerRequest {
    OperatorPickerRequest {
        picker_id: "sessions".to_string(),
        title: " Sessions ".to_string(),
        empty_state: "No sessions yet.".to_string(),
        filter_enabled,
        items: vec![
            item("session-alpha", "Design task", Some("idle"), &["resume-ready"]),
            item("session-beta", "Review PR", None, &[]),
            item("session-gamma", "Release notes", Some("RUNNING"), &["Pinned"]),
        ],
        primary_action: action("detail", OperatorPickerShortcut::Enter),
        secondary_actions: vec![
            action("resume", OperatorPickerShortcut::Ctrl('r')),
            action("delete", OperatorPickerShortcut::Ctrl('d')),
            action("resume-again", OperatorPickerShortcut::Ctrl('r')),
        ],
    }
}

#[test]
fn new_picker_shows_every_item_and_selects_the_first() {
    let picker = PickerOverlay::new(Panel::Response, request(true));
    assert_eq!(picker.title(), " Sessions ");
    assert_eq!(picker.visible_item_indices, vec![0, 1, 2]);
    assert_eq!(picker.selected, 0);
    assert!(!picker.filter_mode);
    assert!(picker.dismiss_on_backdrop);
    assert_eq!(picker.selected_item().unwrap().id, "session-alpha");
    assert_eq!(picker.visible_item(2).unwrap().id, "session-gamma");
    assert!(picker.visible_item(3).is_none());
}

#[test]
fn filter_matches_case_insensitively_across_fields() {
    let mut picker = PickerOverlay::new(Panel::Response, request(true));
    picker.filter_query = "  running ".to_string();
    picker.apply_filter_query();
    assert!(picker.filter_mode);
    assert_eq!(picker.visible_item_indices, vec![2]);

    picker.filter_query = "PINNED".to_string();
    picker.apply_filter_query();
    assert_eq!(picker.visible_item_indices, vec![2]);

    picker.filter_query = "session-".to_string();
    picker.apply_filter_query();
    assert_eq!(picker.visible_item_indices, vec![0, 1, 2]);

    picker.filter_query = "idle resume".to_string();
    picker.apply_filter_query();
    assert_eq!(picker.visible_item_indices, vec![0]);
}

#[test]
fn filter_keeps_selection_within_visible_items() {
    let mut picker = PickerOverlay::new(Panel::Response, request(true));
    picker.move_selection_down();
    picker.move_selection_down();
    assert_eq!(picker.selected, 2);
    picker.filter_query = "review".to_string();
    picker.apply_filter_query();
    assert_eq!(picker.visible_item_indices, vec![1]);
    assert_eq!(picker.selected, 0);
    assert_eq!(picker.selected_item().unwrap().title, "Review PR");

    picker.filter_query = "nothing like this".to_string();
    picker.apply_filter_query();
    assert_eq!(picker.visible_items_len(), 0);
    assert_eq!(picker.selected, 0);
    assert!(picker.selected_item().is_none());
    assert_eq!(picker.empty_state_text(), "No matches for 'nothing like this'.");
}

#[test]
fn selection_moves_stay_in_range_and_leave_filter_mode() {
    let mut picker = PickerOverlay::new(Panel::Response, request(true));
    picker.enter_filter_mode();
    assert!(picker.filter_mode);
    picker.move_selection_up();
    assert_eq!(picker.selected, 0);
    assert!(!picker.filter_mode);
    for _ in 0..5 {
        picker.move_selection_down();
    }
    assert_eq!(picker.selected, 2);
    picker.move_selection_up();
    assert_eq!(picker.selected, 1);
}

#[test]
fn filter_mode_needs_a_filter_enabled_request() {
    let mut picker = PickerOverlay::new(Panel::Todo, request(false));
    assert!(!picker.filter_enabled());
    picker.enter_filter_mode();
    assert!(!picker.filter_mode);
    assert_eq!(picker.origin_panel, Panel::Todo);
}

#[test]
fn shortcut_finds_primary_then_first_secondary() {
    let picker = PickerOverlay::new(Panel::Response, request(true));
    assert_eq!(picker.action_for_shortcut(OperatorPickerShortcut::Enter).unwrap().action_id, "detail");
    assert_eq!(picker.action_for_shortcut(OperatorPickerShortcut::Ctrl('r')).unwrap().action_id, "resume");
    assert_eq!(picker.action_for_shortcut(OperatorPickerShortcut::Ctrl('d')).unwrap().action_id, "delete");
    assert!(picker.action_for_shortcut(OperatorPickerShortcut::Ctrl('x')).is_none());
}

#[test]
fn empty_state_without_filter_is_the_request_text() {
    let mut req = request(true);
    req.items.clear();
    let mut picker = PickerOverlay::new(Panel::Response, req);
    assert_eq!(picker.empty_state_text(), "No sessions yet.");
    picker.filter_query = "   ".to_string();
    assert_eq!(picker.empty_state_text(), "No sessions yet.");
}
