use omega_tui::app::{App, Panel};
use omega_tui::clipboard::{KeyCode, KeyInput};
use omega_tui::navigator::{
    DocumentNavigatorBody, DocumentNavigatorBodyKind, DocumentNavigatorEntry, DocumentNavigatorEntryKind,
    DocumentNavigatorFocus, DocumentNavigatorGroup, DocumentNavigatorOverlay, DocumentNavigatorRequest,
};
use omega_tui::overlay::OverlayState;

fn entry(id: &str, label: &str, group: DocumentNavigatorGroup, lines: &[&str]) -> DocumentNavigatorEntry {
    DocumentNavigatorEntry {
        id: id.to_string(),
        label: label.to_string(),
        subtitle: Some(format!("About {label}")),
        preview: None,
        group,
        kind: DocumentNavigatorEntryKind::Document,
        disabled_reason: None,
        body: DocumentNavigatorBody {
            title: label.to_string(),
            subtitle: None,
            breadcrumbs: vec![],
            kind: DocumentNavigatorBodyKind::Markdown,
            lines: lines.iter().map(|l| l.to_string()).collect(),
        },
    }
}

fn sample_document_navigator_request() -> DocumentNavigatorRequest {
    DocumentNavigatorRequest {
        navigator_id: "plan-links:TASK-0001".to_string(),
        title: " TASK-0001: Build navigator ".to_string(),
        origin_label: "Task TASK-0001 linked artifacts".to_string(),
        active_entry_id: "docs/specs/navigator.md".to_string(),
        entries: vec![
            DocumentNavigatorEntry {
                id: "docs/specs/navigator.md".to_string(),
                label: "Navigator Spec".to_string(),
                subtitle: Some("Design · docs/specs/navigator.md".to_string()),
                preview: Some("Shared overlay structure".to_string()),
                group: DocumentNavigatorGroup::Context,
                kind: DocumentNavigatorEntryKind::Document,
                disabled_reason: None,
                body: DocumentNavigatorBody {
                    title: "Navigator Spec".to_string(),
                    subtitle: Some("docs/specs/navigator.md".to_string()),
                    breadcrumbs: vec!["TASK-0001".to_string(), "Design".to_string()],
                    kind: DocumentNavigatorBodyKind::Markdown,
                    lines: vec![
                        "File: docs/specs/navigator.md".to_string(),
                        String::new(),
                        "Line 1".to_string(),
                        "Line 2".to_string(),
                        "Line 3".to_string(),
                    ],
                },
            },
            DocumentNavigatorEntry {
                id: "src/navigator.rs".to_string(),
                label: "navigator.rs".to_string(),
                subtitle: Some("Implementation · src/navigator.rs".to_string()),
                preview: Some("pub fn navigator_overlay()".to_string()),
                group: DocumentNavigatorGroup::Context,
                kind: DocumentNavigatorEntryKind::File,
                disabled_reason: None,
                body: DocumentNavigatorBody {
                    title: "navigator.rs".to_string(),
                    subtitle: Some("src/navigator.rs".to_string()),
                    breadcrumbs: vec!["TASK-0001".to_string(), "Implementation".to_string()],
                    kind: DocumentNavigatorBodyKind::File,
                    lines: vec![
                        "File: src/navigator.rs".to_string(),
                        String::new(),
                        "pub fn navigator_overlay() {}".to_string(),
                        "pub fn open_related() {}".to_string(),
                    ],
                },
            },
            DocumentNavigatorEntry {
                id: "docs/guide/linked-navigation.md".to_string(),
                label: "Linked Navigation Guide".to_string(),
                subtitle: Some("references · docs/guide/linked-navigation.md".to_string()),
                preview: Some("Related navigation guidance".to_string()),
                group: DocumentNavigatorGroup::Related,
                kind: DocumentNavigatorEntryKind::Document,
                disabled_reason: None,
                body: DocumentNavigatorBody {
                    title: "Linked Navigation Guide".to_string(),
                    subtitle: Some("docs/guide/linked-navigation.md".to_string()),
                    breadcrumbs: vec!["Navigator Spec".to_string(), "Related via references".to_string()],
                    kind: DocumentNavigatorBodyKind::Markdown,
                    lines: vec!["Guide line 1".to_string()],
                },
            },
        ],
    }
}

fn press(app: &mut App, code: KeyCode) {
    app.overlay_key_step(KeyInput { code, modifiers: 0 });
}

#[test]
fn document_navigator_keys_switch_active_entry_and_scroll_content() {
    let mut app = App::new();
    app.open_document_navigator_overlay(sample_document_navigator_request());

    for code in [KeyCode::Down, KeyCode::Enter, KeyCode::Tab, KeyCode::Down] {
        press(&mut app, code);
    }

    match app.overlay.as_ref() {
        Some(OverlayState::DocumentNavigator(overlay)) => {
            assert_eq!(overlay.request.active_entry_id, "src/navigator.rs");
            assert_eq!(overlay.focus, DocumentNavigatorFocus::Content);
            assert_eq!(overlay.content_scroll, 1);
            assert_eq!(overlay.history_entry_ids, vec!["docs/specs/navigator.md".to_string()]);
        }
        other => panic!("expected document navigator overlay, got {other:?}"),
    }
    press(&mut app, KeyCode::Esc);
    assert!(app.overlay.is_none());
}

#[test]
fn rail_lists_history_newest_first_and_follows_active_entry() {
    let mut nav = DocumentNavigatorOverlay::new(Panel::Response, sample_document_navigator_request());
    assert_eq!(nav.selected, 0);
    nav.move_selection_down();
    nav.activate_selected();
    nav.move_selection_to_end();
    assert_eq!(nav.selected, 3);
    nav.move_selection_up();
    nav.activate_selected();
    assert_eq!(nav.request.active_entry_id, "docs/guide/linked-navigation.md");
    assert_eq!(
        nav.history_entry_ids,
        vec!["docs/specs/navigator.md".to_string(), "src/navigator.rs".to_string()]
    );
    let rail = nav.visible_items();
    let ids: Vec<&str> = rail.iter().map(|item| item.id.as_str()).collect();
    assert_eq!(
        ids,
        vec![
            "docs/specs/navigator.md",
            "src/navigator.rs",
            "docs/guide/linked-navigation.md",
            "src/navigator.rs",
            "docs/specs/navigator.md",
        ]
    );
    assert_eq!(rail[3].group, DocumentNavigatorGroup::History);
    assert_eq!(rail[2].group, DocumentNavigatorGroup::Related);
    assert_eq!(nav.selected, 2);
    assert_eq!(nav.visible_items_len(), 5);
}

#[test]
fn history_keeps_the_last_five_documents() {
    let entries: Vec<DocumentNavigatorEntry> = (0..8)
        .map(|i| entry(&format!("doc-{i}"), &format!("Doc {i}"), DocumentNavigatorGroup::Context, &["a"]))
        .collect();
    let request = DocumentNavigatorRequest {
        navigator_id: "n".to_string(),
        title: "t".to_string(),
        origin_label: "o".to_string(),
        active_entry_id: "doc-0".to_string(),
        entries,
    };
    let mut nav = DocumentNavigatorOverlay::new(Panel::Response, request);
    for target in 1..8 {
        nav.selected = target;
        nav.activate_selected();
    }
    assert_eq!(nav.request.active_entry_id, "doc-7");
    assert_eq!(
        nav.history_entry_ids,
        vec!["doc-2", "doc-3", "doc-4", "doc-5", "doc-6"].into_iter().map(String::from).collect::<Vec<_>>()
    );
    nav.selected = 3;
    nav.activate_selected();
    assert_eq!(nav.request.active_entry_id, "doc-3");
    assert_eq!(
        nav.history_entry_ids,
        vec!["doc-3", "doc-4", "doc-5", "doc-6", "doc-7"].into_iter().map(String::from).collect::<Vec<_>>()
    );
}

#[test]
fn replace_request_keeps_known_history_and_previous_active_entry() {
    let mut nav = DocumentNavigatorOverlay::new(Panel::Response, sample_document_navigator_request());
    nav.move_selection_down();
    nav.activate_selected();
    nav.content_scroll = 4;
    let mut next = sample_document_navigator_request();
    next.entries.remove(0);
    next.active_entry_id = "missing".to_string();
    nav.replace_request(next);
    assert_eq!(nav.request.active_entry_id, "src/navigator.rs");
    assert!(nav.history_entry_ids.is_empty());
    assert_eq!(nav.content_scroll, 0);
    assert_eq!(nav.selected, 0);

    let mut other = sample_document_navigator_request();
    other.active_entry_id = "docs/guide/linked-navigation.md".to_string();
    nav.replace_request(other);
    assert_eq!(nav.request.active_entry_id, "docs/guide/linked-navigation.md");
    assert_eq!(nav.history_entry_ids, vec!["src/navigator.rs".to_string()]);

    nav.replace_request(DocumentNavigatorRequest { entries: vec![], ..sample_document_navigator_request() });
    assert_eq!(nav.request.active_entry_id, "");
    assert!(nav.active_entry().is_none());
}

#[test]
fn content_scroll_to_end_uses_active_body() {
    let mut nav = DocumentNavigatorOverlay::new(Panel::Response, sample_document_navigator_request());
    nav.scroll_content_to_end(2);
    assert_eq!(nav.content_scroll, 3);
    nav.scroll_content_to_end(0);
    assert_eq!(nav.content_scroll, 4);
    nav.scroll_content_up(10);
    assert_eq!(nav.content_scroll, 0);
    nav.toggle_focus();
    assert_eq!(nav.focus, DocumentNavigatorFocus::Content);
    assert_eq!(nav.active_entry().map(|e| e.label.as_str()), Some("Navigator Spec"));
}
