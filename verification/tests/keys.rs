use omega_tui::app::App;
use omega_tui::clipboard::{KeyCode, KeyInput};
use omega_tui::keys::describe_key_event;

fn key(code: KeyCode) -> KeyInput {
    KeyInput { code, modifiers: 0 }
}

#[test]
fn describes_keys_by_name() {
    assert_eq!(describe_key_event(&key(KeyCode::Char(' '))), "<space>");
    assert_eq!(describe_key_event(&key(KeyCode::Char('g'))), "g");
    assert_eq!(describe_key_event(&key(KeyCode::Esc)), "Esc");
    assert_eq!(describe_key_event(&key(KeyCode::PageDown)), "PageDown");
    assert_eq!(describe_key_event(&key(KeyCode::F(5))), "F(5)");
}

#[test]
fn no_hint_without_pending_sequence() {
    let app = App::new();
    assert_eq!(app.pending_sequence_hint(), None);
    assert!(app.pending_key_events().is_empty());
}

#[test]
fn leader_hint_lists_keys_and_bindings() {
    let mut app = App::new();
    app.status_notice = Some("old".to_string());
    app.begin_leader_pending(key(KeyCode::Char(' ')), 500, 100);
    app.extend_pending_sequence(key(KeyCode::Char('g')), None, 500, 120);
    assert_eq!(app.status_notice, None);
    assert_eq!(app.pending_key_events().len(), 2);
    assert_eq!(
        app.pending_sequence_hint().unwrap(),
        " Leader pending: <space> g  jk=Toggle mode  Tab=Focus  ↑/↓=Scroll  c=Interrupt  q=Quit  Esc=Cancel"
    );
}

#[test]
fn replay_hint_quotes_the_replayed_text() {
    let mut app = App::new();
    app.begin_pending_key_sequence(key(KeyCode::Char('j')), Some("j\"".to_string()), 300, 0);
    assert_eq!(
        app.pending_sequence_hint().unwrap(),
        " Pending keys: j  (timeout replays \"j\\\"\")  Esc=Cancel"
    );
}

#[test]
fn expiry_waits_for_the_timeout_then_replays() {
    let mut app = App::new();
    app.begin_pending_key_sequence(key(KeyCode::Char('j')), Some("j".to_string()), 50, 100);
    assert_eq!(app.expire_pending_key_sequence(120), None);
    assert!(app.is_leader_pending());
    assert_eq!(app.expire_pending_key_sequence(150), Some("j".to_string()));
    assert!(!app.is_leader_pending());
    assert_eq!(app.status_notice, None);
}

#[test]
fn expired_leader_leaves_a_notice() {
    let mut app = App::new();
    app.begin_leader_pending(key(KeyCode::Char(' ')), 50, 100);
    assert_eq!(app.expire_pending_key_sequence(90), None);
    assert!(app.is_leader_pending());
    assert_eq!(app.expire_pending_key_sequence(200), None);
    assert!(!app.is_leader_pending());
    assert_eq!(app.status_notice.as_deref(), Some("Pending key sequence timed out."));
}
