//! Restoring a saved session: the UI is cleared of the old session's
//! records, shows the saved routing, todo list and replayed transcript.
use vstd::prelude::*;

use crate::app::{App, ListState, Msg, MsgKind, PanelScroll, SectionState, WorkflowRunRole};
use crate::chars::{concat2, dec, dec_usize, is_blank, push_str, trim};
use crate::reducer::{ResponseSection, ResponseSectionKind, SectionOrigin, StatusSlot, StatusValue};
use crate::response_text::{restored_response_state, spec_restored_state};
use crate::transcript::opt_view;

verus! {

/// What an entry of a saved transcript was.
#[derive(Debug, Clone, Copy, PartialEq, Eq, Structural)]
pub enum SessionReplayEntryKind {
    UserTurn,
    AssistantResponse,
    SystemNotice,
    ToolSummary,
    CommandSection,
}

/// One entry of a saved transcript.
#[derive(Debug, Clone, PartialEq, Eq)]
pub struct SessionReplayEntry {
    pub kind: SessionReplayEntryKind,
    pub body: String,
    pub title: Option<String>,
    pub state: Option<String>,
}

/// What a saved session gives the UI back.
#[derive(Debug, Clone, PartialEq, Eq)]
pub struct SessionRestoreSnapshot {
    pub session_id: String,
    pub root_workflow_id: String,
    pub active_workflow_id: String,
    pub active_workflow_role: WorkflowRunRole,
    pub recognized_scene_id: Option<String>,
    pub selected_workflow_id: Option<String>,
    pub todo_rendered: String,
    pub replay_log: Vec<SessionReplayEntry>,
}

/// The id of the section that replays command entry `index`.
pub open spec fn restored_section_id(session_id: Seq<char>, index: nat) -> Seq<char> {
    "restored:"@ + session_id + ":"@ + dec(index)
}

/// The title of a replayed command section.
pub open spec fn restored_title(e: SessionReplayEntry) -> Seq<char> {
    match e.title {
        Some(t) => t@,
        None => "Command"@,
    }
}

/// Whether `m` is the empty command section that replays entry `e` under
/// id `sid`: titled after the entry, run from `restored`.
pub open spec fn is_restored_command(m: Msg, sid: Seq<char>, e: SessionReplayEntry) -> bool {
    &&& m.kind == MsgKind::Command
    &&& m.text@.len() == 0
    &&& opt_view(m.id) == Some(sid)
    &&& m.parent_id.is_none()
    &&& m.state == Some(spec_restored_state(opt_view(e.state)))
    &&& m.scene_id.is_none()
    &&& m.subflow_ref.is_none()
    &&& opt_view(m.title) == Some(restored_title(e))
    &&& opt_view(m.workflow_id) == Some("restored"@)
    &&& m.workflow_role.is_none()
    &&& !m.collapsed
    &&& m.tool_lane_collapsed
}

impl App {
    /// `after` is `before` cleared of the old session: no transcript, tool
    /// calls, logs, subflows, skill loads, knowledge, diagnostics or
    /// context; nothing selected or pinned in the response and log panels;
    /// no overlay.
    pub open spec fn restore_cleared(before: App, after: App) -> bool {
        &&& after.output_msgs@.len() == 0
        &&& after.tool_runs@.len() == 0
        &&& after.log_lines@.len() == 0
        &&& crate::turns::turn_records_cleared(after)
        &&& after.response_scroll == (PanelScroll {
            list: ListState { offset: 0, selected: None },
            pinned: false,
            ..before.response_scroll
        })
        &&& after.logs_scroll == (PanelScroll {
            list: ListState { offset: 0, selected: None },
            pinned: false,
            ..before.logs_scroll
        })
        &&& after.overlay.is_none()
        &&& crate::turns::only_turn_records_differ(
            App {
                output_msgs: after.output_msgs,
                tool_runs: after.tool_runs,
                log_lines: after.log_lines,
                response_scroll: after.response_scroll,
                logs_scroll: after.logs_scroll,
                overlay: None,
                ..before
            },
            after,
        )
    }

    /// `after` is `before` with entry `index` of a saved transcript
    /// replayed: a user turn, an answer or a notice as a message, a tool
    /// summary as a log line, a command as a command section with its body
    /// (when not blank), closed with its saved state.
    pub open spec fn entry_replayed(before: App, after: App, session_id: Seq<char>, index: nat, e: SessionReplayEntry) -> bool {
        match e.kind {
            SessionReplayEntryKind::UserTurn => App::msg_pushed(before, after, MsgKind::User, e.body@),
            SessionReplayEntryKind::AssistantResponse => App::msg_pushed(before, after, MsgKind::Agent, e.body@),
            SessionReplayEntryKind::SystemNotice => App::msg_pushed(before, after, MsgKind::Separator, e.body@),
            SessionReplayEntryKind::ToolSummary => App::log_added(before, after, "[tool] "@ + e.body@),
            SessionReplayEntryKind::CommandSection => {
                let sid = restored_section_id(session_id, index);
                exists|m: Msg, a: App, b: App|
                    #![trigger App::section_begun(before, a, m), App::section_completed(b, after, sid, spec_restored_state(opt_view(e.state)))]
                    {
                        &&& is_restored_command(m, sid, e)
                        &&& App::section_begun(before, a, m)
                        &&& if trim(e.body@).len() > 0 {
                            App::section_appended(a, b, sid, e.body@)
                        } else {
                            b == a
                        }
                        &&& App::section_completed(b, after, sid, spec_restored_state(opt_view(e.state)))
                    }
            },
        }
    }

    /// `after` is `before` with entries `0..n` of `log` replayed in turn.
    pub open spec fn log_replayed(
        before: App,
        after: App,
        session_id: Seq<char>,
        log: Seq<SessionReplayEntry>,
        states: Seq<App>,
    ) -> bool {
        &&& states.len() == log.len() + 1
        &&& states[0] == before
        &&& states.last() == after
        &&& forall|i: int|
            0 <= i < log.len() ==> #[trigger] App::entry_replayed(states[i], states[i + 1], session_id, i as nat, log[i])
    }

    /// Whether `after` is `before` with session `snap` restored: the old
    /// session cleared; the session slot showing the saved routing; the
    /// agent idle; the saved todo list shown for the current turn; the saved
    /// transcript replayed; its last message selected; and the delivery
    /// panel refreshed.
    pub open spec fn session_restored(before: App, after: App, snap: SessionRestoreSnapshot) -> bool {
        exists|c: App, s1: App, s2: App, s3: App, states: Seq<App>|
            #![trigger App::restore_cleared(before, c), App::agent_label_set(s1, s2, "Idle"@), App::todo_snapshot_shown(s2, s3, s2.active_turn_id, snap.todo_rendered@), App::log_replayed(s3, states.last(), snap.session_id@, snap.replay_log@, states)]
            {
                let r = states.last();
                let n = r.output_msgs@.len();
                let selected = if n > 0 {
                    App {
                        response_scroll: PanelScroll {
                            list: ListState { selected: Some((n - 1) as usize), ..r.response_scroll.list },
                            ..r.response_scroll
                        },
                        ..r
                    }
                } else {
                    r
                };
                &&& App::restore_cleared(before, c)
                &&& App::status_slot_set(
                    c,
                    s1,
                    StatusSlot::Session,
                    StatusValue::SessionRouting {
                        root_workflow_id: snap.root_workflow_id,
                        active_workflow_id: snap.active_workflow_id,
                        active_workflow_role: snap.active_workflow_role,
                        recognized_scene_id: snap.recognized_scene_id,
                        selected_workflow_id: snap.selected_workflow_id,
                    },
                )
                &&& App::agent_label_set(s1, s2, "Idle"@)
                &&& App::todo_snapshot_shown(s2, s3, s2.active_turn_id, snap.todo_rendered@)
                &&& App::log_replayed(s3, r, snap.session_id@, snap.replay_log@, states)
                &&& after.shows_panel(crate::chars::views(after.delivery_lines@))
                &&& after == (App { delivery_lines: after.delivery_lines, ..selected })
            }
    }
}

impl App {
    fn restore_clear(&mut self)
        ensures
            App::restore_cleared(*old(self), *final(self)),
            final(self).delivery_fits(),
    {
        self.output_msgs.clear();
        self.tool_runs.clear();
        self.log_lines.clear();
        self.step_subflows.clear();
        self.clear_skill_load_summaries();
        self.step_knowledge_summaries.clear();
        self.clear_step_diagnostics();
        self.clear_context_supervision();
        self.response_scroll.list = ListState { offset: 0, selected: None };
        self.response_scroll.pinned = false;
        self.logs_scroll.list = ListState { offset: 0, selected: None };
        self.logs_scroll.pinned = false;
        self.overlay = None;
        proof {
            assert(self.step_diagnostics@ =~= Seq::empty());
            assert(crate::diagnostics::step_usages(self.step_diagnostics@) =~= Seq::empty());
        }
    }

    fn replay_entry(&mut self, session_id: &str, index: usize, e: &SessionReplayEntry)
        ensures
            App::entry_replayed(*old(self), *final(self), session_id@, index as nat, *e),
    {
        match e.kind {
            SessionReplayEntryKind::UserTurn => self.push_msg(MsgKind::User, e.body.as_str()),
            SessionReplayEntryKind::AssistantResponse => self.push_msg(MsgKind::Agent, e.body.as_str()),
            SessionReplayEntryKind::SystemNotice => self.push_msg(MsgKind::Separator, e.body.as_str()),
            SessionReplayEntryKind::ToolSummary => self.add_log(concat2("[tool] ", e.body.as_str())),
            SessionReplayEntryKind::CommandSection => {
                let mut section_id = concat2("restored:", session_id);
                push_str(&mut section_id, ":");
                push_str(&mut section_id, dec_usize(index).as_str());
                let title = match &e.title {
                    Some(t) => t.clone(),
                    None => "Command".to_owned(),
                };
                let state = restored_response_state(
                    match &e.state {
                        Some(s) => Some(s.as_str()),
                        None => None,
                    },
                );
                let section = ResponseSection {
                    id: section_id.clone(),
                    parent_id: None,
                    kind: ResponseSectionKind::Command,
                    title: title.clone(),
                    state,
                    scene_id: None,
                    subflow_ref: None,
                    origin: SectionOrigin::Command { command_name: title, source: "restored".to_owned() },
                };
                let m = Msg::from_response_section(section);
                let ghost before = *self;
                self.begin_response_section(m);
                let ghost a = *self;
                if !is_blank(e.body.as_str()) {
                    self.append_response_section(section_id.as_str(), e.body.as_str());
                }
                let ghost b = *self;
                self.complete_response_section(section_id.as_str(), state);
                proof {
                    reveal_strlit("restored");
                    reveal_strlit("Command");
                    let sid = restored_section_id(session_id@, index as nat);
                    let st = spec_restored_state(opt_view(e.state));
                    assert(section_id@ == sid);
                    assert(state == st);
                    assert(is_restored_command(m, sid, *e));
                    assert(App::section_begun(before, a, m));
                    assert(if trim(e.body@).len() > 0 {
                        App::section_appended(a, b, sid, e.body@)
                    } else {
                        b == a
                    });
                    assert(App::section_completed(b, *self, sid, st));
                }
            },
        }
    }

    /// Restores a saved session: clears the old session's records, shows
    /// the saved routing in the session slot, sets the agent idle, shows
    /// the saved todo list, replays the saved transcript, selects its last
    /// message and refreshes the delivery panel.
    pub fn restore_session(&mut self, snapshot: SessionRestoreSnapshot)
        ensures
            App::session_restored(*old(self), *final(self), snapshot),
    {
        let ghost snap = snapshot;
        let ghost before = *self;
        self.restore_clear();
        let ghost c = *self;
        let SessionRestoreSnapshot {
            session_id,
            root_workflow_id,
            active_workflow_id,
            active_workflow_role,
            recognized_scene_id,
            selected_workflow_id,
            todo_rendered,
            replay_log,
        } = snapshot;
        self.set_status_slot(
            StatusSlot::Session,
            StatusValue::SessionRouting {
                root_workflow_id,
                active_workflow_id,
                active_workflow_role,
                recognized_scene_id,
                selected_workflow_id,
            },
        );
        let ghost s1 = *self;
        self.set_agent_status_label("Idle");
        proof {
            reveal_strlit("Idle");
        }
        let ghost s2 = *self;
        let turn = self.active_turn_id;
        self.set_todo_snapshot(turn, todo_rendered.as_str());
        let ghost s3 = *self;
        let ghost mut states: Seq<App> = seq![*self];
        let mut i: usize = 0;
        while i < replay_log.len()
            invariant
                i <= replay_log@.len(),
                replay_log@ == snap.replay_log@,
                session_id@ == snap.session_id@,
                states.len() == i + 1,
                states[0] == s3,
                states.last() == *self,
                self.tool_runs@.len() == 0,
                self.step_diagnostics@.len() == 0,
                forall|k: int|
                    0 <= k < i ==> #[trigger] App::entry_replayed(states[k], states[k + 1], snap.session_id@, k as nat, snap.replay_log@[k]),
            decreases replay_log.len() - i,
        {
            let ghost prev = states;
            self.replay_entry(session_id.as_str(), i, &replay_log[i]);
            proof {
                states = prev.push(*self);
                assert forall|k: int| 0 <= k < i + 1 implies #[trigger] App::entry_replayed(
                    states[k],
                    states[k + 1],
                    snap.session_id@,
                    k as nat,
                    snap.replay_log@[k],
                ) by {
                    if k < i {
                        assert(states[k] == prev[k]);
                        assert(states[k + 1] == prev[k + 1]);
                    }
                }
            }
            i = i + 1;
        }
        proof {
            assert(replay_log@.len() == snap.replay_log@.len());
            assert(App::log_replayed(s3, states.last(), snap.session_id@, snap.replay_log@, states));
        }
        let n = self.output_msgs.len();
        if n > 0 {
            self.response_scroll.list.selected = Some(n - 1);
        }
        proof {
            assert(self.step_diagnostics@ =~= Seq::empty());
            assert(crate::diagnostics::step_usages(self.step_diagnostics@) =~= Seq::empty());
        }
        self.refresh_delivery_panel();
    }
}

} // verus!
