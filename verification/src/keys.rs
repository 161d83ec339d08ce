//! Key sequences in progress: a leader key or the first keys of a binding,
//! how the status bar describes them, and how they time out.
use vstd::prelude::*;

use crate::app::{App, PendingKeySequenceState};
use crate::chars::{join, push_char, push_str, views};
use crate::clipboard::{KeyCode, KeyInput};
use crate::transcript::opt_view;

verus! {

/// `format!("{:?}", s)`: the text as a quoted Rust string literal.
pub uninterp spec fn debug_str(s: Seq<char>) -> Seq<char>;

/// `<str as Debug>::fmt`, as `format!("{:?}", s)` writes it: the result is
/// named and depends on the text alone.
#[verifier::external_body]
fn debug_quoted(s: &str) -> (r: String)
    ensures
        r@ == debug_str(s@),
{
    format!("{:?}", s)
}

/// How the status bar names a key.
pub open spec fn key_label(key: KeyInput) -> Seq<char> {
    match key.code {
        KeyCode::Char(' ') => "<space>"@,
        KeyCode::Char(c) => seq![c],
        KeyCode::Esc => "Esc"@,
        KeyCode::Tab => "Tab"@,
        KeyCode::Enter => "Enter"@,
        KeyCode::Backspace => "Backspace"@,
        KeyCode::Delete => "Delete"@,
        KeyCode::Left => "Left"@,
        KeyCode::Right => "Right"@,
        KeyCode::Up => "Up"@,
        KeyCode::Down => "Down"@,
        KeyCode::Home => "Home"@,
        KeyCode::End => "End"@,
        KeyCode::BackTab => "BackTab"@,
        KeyCode::PageUp => "PageUp"@,
        KeyCode::PageDown => "PageDown"@,
        KeyCode::Insert => "Insert"@,
        KeyCode::F(n) => "F("@ + crate::chars::dec(n as nat) + ")"@,
        KeyCode::Null => "Null"@,
    }
}

pub fn describe_key_event(key: &KeyInput) -> (r: String)
    ensures
        r@ == key_label(*key),
{
    match key.code {
        KeyCode::Char(c) => {
            if c == ' ' {
                "<space>".to_owned()
            } else {
                let mut s = String::new();
                push_char(&mut s, c);
                proof {
                    assert(s@ =~= seq![c]);
                }
                s
            }
        },
        KeyCode::Esc => "Esc".to_owned(),
        KeyCode::Tab => "Tab".to_owned(),
        KeyCode::Enter => "Enter".to_owned(),
        KeyCode::Backspace => "Backspace".to_owned(),
        KeyCode::Delete => "Delete".to_owned(),
        KeyCode::Left => "Left".to_owned(),
        KeyCode::Right => "Right".to_owned(),
        KeyCode::Up => "Up".to_owned(),
        KeyCode::Down => "Down".to_owned(),
        KeyCode::Home => "Home".to_owned(),
        KeyCode::End => "End".to_owned(),
        KeyCode::BackTab => "BackTab".to_owned(),
        KeyCode::PageUp => "PageUp".to_owned(),
        KeyCode::PageDown => "PageDown".to_owned(),
        KeyCode::Insert => "Insert".to_owned(),
        KeyCode::F(n) => {
            let mut s = "F(".to_owned();
            push_str(&mut s, crate::chars::dec_string(n as u64).as_str());
            push_str(&mut s, ")");
            s
        },
        KeyCode::Null => "Null".to_owned(),
    }
}

/// The labels of the keys pressed so far, joined by spaces.
pub open spec fn keys_text(keys: Seq<KeyInput>) -> Seq<char> {
    join(keys.map_values(|k: KeyInput| key_label(k)), " "@)
}

fn keys_text_of(keys: &Vec<KeyInput>) -> (r: String)
    ensures
        r@ == keys_text(keys@),
{
    let mut labels: Vec<String> = Vec::new();
    let mut i: usize = 0;
    while i < keys.len()
        invariant
            i <= keys@.len(),
            views(labels@) == keys@.take(i as int).map_values(|k: KeyInput| key_label(k)),
        decreases keys.len() - i,
    {
        let l = describe_key_event(&keys[i]);
        let ghost lv = l@;
        labels.push(l);
        proof {
            assert(views(labels@) =~= views(labels@.drop_last()).push(lv));
            assert(keys@.take(i + 1).map_values(|k: KeyInput| key_label(k)) =~= keys@.take(i as int).map_values(
                |k: KeyInput| key_label(k),
            ).push(key_label(keys@[i as int])));
        }
        i = i + 1;
    }
    proof {
        assert(keys@.take(keys@.len() as int) =~= keys@);
    }
    crate::chars::join_strings(&labels, " ")
}

/// The status bar hint of a pending sequence: the keys so far, and what a
/// timeout replays, or the leader's bindings.
pub open spec fn spec_pending_hint(p: PendingKeySequenceState) -> Seq<char> {
    match p.replay_text {
        Some(t) => " Pending keys: "@ + keys_text(p.key_events@) + "  (timeout replays "@ + debug_str(t@)
            + ")  Esc=Cancel"@,
        None => " Leader pending: "@ + keys_text(p.key_events@)
            + "  jk=Toggle mode  Tab=Focus  ↑/↓=Scroll  c=Interrupt  q=Quit  Esc=Cancel"@,
    }
}

/// Whether a sequence that started at `started` with `timeout` has run out
/// at `now` (a clock that went back counts no time).
pub open spec fn timed_out(started: u64, timeout: u64, now: u64) -> bool {
    (if now >= started { now - started } else { 0 }) >= timeout
}

impl App {
    pub fn pending_sequence_hint(&self) -> (r: Option<String>)
        ensures
            opt_view(r) == match self.pending_key_sequence {
                Some(p) => Some(spec_pending_hint(p)),
                None => None,
            },
    {
        let p = match &self.pending_key_sequence {
            Some(p) => p,
            None => return None,
        };
        let keys = keys_text_of(&p.key_events);
        match &p.replay_text {
            Some(t) => {
                let mut s = " Pending keys: ".to_owned();
                push_str(&mut s, keys.as_str());
                push_str(&mut s, "  (timeout replays ");
                push_str(&mut s, debug_quoted(t.as_str()).as_str());
                push_str(&mut s, ")  Esc=Cancel");
                Some(s)
            },
            None => {
                let mut s = " Leader pending: ".to_owned();
                push_str(&mut s, keys.as_str());
                push_str(&mut s, "  jk=Toggle mode  Tab=Focus  ↑/↓=Scroll  c=Interrupt  q=Quit  Esc=Cancel");
                Some(s)
            },
        }
    }

    /// The keys of the pending sequence, none when there is none.
    pub fn pending_key_events(&self) -> (r: &[KeyInput])
        ensures
            r@ == match self.pending_key_sequence {
                Some(p) => p.key_events@,
                None => Seq::empty(),
            },
    {
        match &self.pending_key_sequence {
            Some(p) => p.key_events.as_slice(),
            None => &[],
        }
    }

    /// Starts a sequence with `key` at `now_ms`.
    pub fn begin_pending_key_sequence(&mut self, key: KeyInput, replay_text: Option<String>, timeout_ms: u64, now_ms: u64)
        ensures
            final(self).pending_key_sequence matches Some(p) && p.started_at_ms == now_ms && p.timeout_ms
                == timeout_ms && p.key_events@ == seq![key] && p.replay_text == replay_text,
            *final(self) == (App { pending_key_sequence: final(self).pending_key_sequence, ..*old(self) }),
    {
        let mut keys: Vec<KeyInput> = Vec::new();
        keys.push(key);
        proof {
            assert(keys@ =~= seq![key]);
        }
        self.pending_key_sequence = Some(
            PendingKeySequenceState { started_at_ms: now_ms, timeout_ms, key_events: keys, replay_text },
        );
    }

    /// Starts a leader sequence with `key` and clears the notice.
    pub fn begin_leader_pending(&mut self, leader_key: KeyInput, timeout_ms: u64, now_ms: u64)
        ensures
            final(self).pending_key_sequence matches Some(p) && p.started_at_ms == now_ms && p.timeout_ms
                == timeout_ms && p.key_events@ == seq![leader_key] && p.replay_text.is_none(),
            *final(self) == (App {
                pending_key_sequence: final(self).pending_key_sequence,
                status_notice: None,
                ..*old(self)
            }),
    {
        self.begin_pending_key_sequence(leader_key, None, timeout_ms, now_ms);
        self.status_notice = None;
    }

    /// Adds `key` to the pending sequence (or starts one), restarting its
    /// clock; clears the notice.
    pub fn extend_pending_sequence(&mut self, key: KeyInput, replay_text: Option<String>, timeout_ms: u64, now_ms: u64)
        ensures
            final(self).pending_key_sequence matches Some(p) && p.started_at_ms == now_ms && p.timeout_ms
                == timeout_ms && p.replay_text == replay_text && p.key_events@ == match old(
                self,
            ).pending_key_sequence {
                Some(q) => q.key_events@.push(key),
                None => seq![key],
            },
            *final(self) == (App {
                pending_key_sequence: final(self).pending_key_sequence,
                status_notice: None,
                ..*old(self)
            }),
    {
        let mut taken: Option<PendingKeySequenceState> = None;
        std::mem::swap(&mut taken, &mut self.pending_key_sequence);
        match taken {
            Some(mut p) => {
                p.started_at_ms = now_ms;
                p.timeout_ms = timeout_ms;
                p.replay_text = replay_text;
                p.key_events.push(key);
                self.pending_key_sequence = Some(p);
            },
            None => {
                self.begin_pending_key_sequence(key, replay_text, timeout_ms, now_ms);
            },
        }
        self.status_notice = None;
    }

    /// Ends a pending sequence that ran out at `now_ms`: gives the text it
    /// replays; a leader sequence that ran out leaves a notice.
    pub fn expire_pending_key_sequence(&mut self, now_ms: u64) -> (r: Option<String>)
        ensures
            match old(self).pending_key_sequence {
                None => r.is_none() && *final(self) == *old(self),
                Some(p) => if timed_out(p.started_at_ms, p.timeout_ms, now_ms) {
                    &&& r == p.replay_text
                    &&& final(self).pending_key_sequence.is_none()
                    &&& if p.replay_text.is_none() {
                        final(self).status_notice matches Some(n) && n@ == "Pending key sequence timed out."@
                    } else {
                        final(self).status_notice == old(self).status_notice
                    }
                    &&& *final(self) == (App {
                        pending_key_sequence: None,
                        status_notice: final(self).status_notice,
                        ..*old(self)
                    })
                } else {
                    r.is_none() && *final(self) == *old(self)
                },
            },
    {
        let (started, timeout) = match &self.pending_key_sequence {
            Some(p) => (p.started_at_ms, p.timeout_ms),
            None => return None,
        };
        let elapsed: u64 = if now_ms >= started {
            now_ms - started
        } else {
            0
        };
        if elapsed < timeout {
            return None;
        }
        let replay: Option<String> = match &self.pending_key_sequence {
            Some(p) => match &p.replay_text {
                Some(t) => Some(t.clone()),
                None => None,
            },
            None => None,
        };
        self.pending_key_sequence = None;
        if replay.is_none() {
            self.status_notice = Some("Pending key sequence timed out.".to_owned());
        }
        replay
    }
}

} // verus!
