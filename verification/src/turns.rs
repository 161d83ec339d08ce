//! The life of a turn: it begins, runs, and ends complete, failed or
//! interrupted; its delivery summary is then stored and closes the turn's
//! part of the transcript.
use vstd::prelude::*;

use crate::app::{
    knowledge_placeholder, knowledge_placeholder_lines, memory_placeholder, memory_placeholder_lines,
    skill_placeholder, skill_placeholder_lines, App, Msg, MsgKind, PanelScroll, SectionState, WorkflowRunRole,
};
use crate::chars::{dec, dec_string, push_str, str_eq, views};
use crate::delivery::{
    build_delivery_response_body, delivery_section_id, spec_response_body, spec_turn_prefix,
    DeliveryStatus, DeliverySummary,
};
use crate::text::without_escapes;
use crate::delivery_app::{lemma_summary_index, same_summary, summary_index_from};
use crate::transcript::{settled_msgs, settled_runs, msg_position, opt_view, section_position};
use crate::turn_delivery::ToolRun;

verus! {

/// The id of the transcript section that closes turn `t`.
pub open spec fn spec_delivery_section_id(t: u64) -> Seq<char> {
    spec_turn_prefix(t) + "delivery-summary"@
}

/// Whether `m` is the transcript section that reports summary `x`.
pub open spec fn is_delivery_msg(m: Msg, x: DeliverySummary) -> bool {
    &&& m.kind == MsgKind::Step
    &&& m.text@ == without_escapes(spec_response_body(&x))
    &&& opt_view(m.id) == Some(spec_delivery_section_id(x.turn_id))
    &&& m.parent_id.is_none()
    &&& opt_view(m.title) == Some("Task Delivery Summary"@)
    &&& m.state == Some(SectionState::Complete)
    &&& opt_view(m.workflow_id) == Some("delivery-"@ + dec(x.turn_id as nat))
    &&& m.workflow_role == Some(WorkflowRunRole::Child)
    &&& opt_view(m.scene_id) == Some("delivery"@)
    &&& !m.collapsed
    &&& m.tool_lane_collapsed
}

/// `after` is `before` with the section `id` replaced by, or else followed
/// by, a message that meets `p`.
pub open spec fn upserted(before: Seq<Msg>, after: Seq<Msg>, id: Seq<char>, p: spec_fn(Msg) -> bool) -> bool {
    let k = section_position(before, Some(id));
    if k >= 0 {
        &&& after.len() == before.len()
        &&& forall|j: int| 0 <= j < before.len() && j != k ==> #[trigger] after[j] == before[j]
        &&& p(after[k])
    } else {
        &&& after.len() == before.len() + 1
        &&& forall|j: int| 0 <= j < before.len() ==> #[trigger] after[j] == before[j]
        &&& p(after[before.len() as int])
    }
}

/// `after` is `before` closed by the transcript section of summary `x` of
/// turn `t`.
pub open spec fn closes_turn(before: Seq<Msg>, after: Seq<Msg>, t: u64, x: DeliverySummary) -> bool {
    upserted(before, after, spec_delivery_section_id(t), |m: Msg| is_delivery_msg(m, x))
}

/// Where the first message with id `id` stands once a message with that id
/// replaced the first one or was added last.
proof fn lemma_position_after_upsert(s: Seq<Msg>, s2: Seq<Msg>, id: Option<Seq<char>>, i: int)
    requires
        0 <= i <= s.len(),
        ({
            let k = msg_position(s, id, 0);
            if k >= 0 {
                &&& s2.len() == s.len()
                &&& forall|j: int| 0 <= j < s.len() && j != k ==> #[trigger] s2[j] == s[j]
                &&& opt_view(s2[k].id) == id
                &&& i <= k
            } else {
                &&& s2.len() == s.len() + 1
                &&& forall|j: int| 0 <= j < s.len() ==> #[trigger] s2[j] == s[j]
                &&& opt_view(s2[s.len() as int].id) == id
            }
        }),
        forall|j: int| 0 <= j < i ==> opt_view(#[trigger] s[j].id) != id,
        msg_position(s, id, 0) == msg_position(s, id, i),
    ensures
        msg_position(s2, id, i) == if msg_position(s, id, 0) >= 0 {
            msg_position(s, id, 0)
        } else {
            s.len() as int
        },
    decreases s.len() - i,
{
    crate::transcript::lemma_msg_position(s, id, i);
    let k = msg_position(s, id, 0);
    if i < s.len() && i != k {
        assert(s2[i] == s[i]);
        assert(opt_view(s[i].id) != id);
        lemma_position_after_upsert(s, s2, id, i + 1);
    }
}

proof fn lemma_summary_index_after_store(s: Seq<DeliverySummary>, s2: Seq<DeliverySummary>, t: u64, i: int)
    requires
        0 <= i <= s.len(),
        ({
            let k = summary_index_from(s, t, 0);
            if k >= 0 {
                &&& s2.len() == s.len()
                &&& forall|j: int| 0 <= j < s.len() && j != k ==> #[trigger] s2[j] == s[j]
                &&& s2[k].turn_id == t
                &&& i <= k
            } else {
                &&& s2.len() == s.len() + 1
                &&& forall|j: int| 0 <= j < s.len() ==> #[trigger] s2[j] == s[j]
                &&& s2[s.len() as int].turn_id == t
            }
        }),
        summary_index_from(s, t, 0) == summary_index_from(s, t, i),
    ensures
        summary_index_from(s2, t, i) == if summary_index_from(s, t, 0) >= 0 {
            summary_index_from(s, t, 0)
        } else {
            s.len() as int
        },
    decreases s.len() - i,
{
    lemma_summary_index(s, t, i);
    let k = summary_index_from(s, t, 0);
    if i < s.len() && i != k {
        assert(s2[i] == s[i]);
        lemma_summary_index_after_store(s, s2, t, i + 1);
    }
}

/// Once the summary of a turn is stored and the turn no longer runs, the
/// UI's summary of that turn is the stored one and no other.
pub proof fn law_stored_summary_is_read_back(before: App, after: App, x: DeliverySummary)
    requires
        before.stores(after.delivery_summaries@, x),
        !(after.is_running && after.active_turn_id == x.turn_id),
    ensures
        after.has_summary_for(x.turn_id),
        forall|y: DeliverySummary| #[trigger] after.is_summary_for(y, x.turn_id) <==> same_summary(y, x),
{
    let s = before.delivery_summaries@;
    let s2 = after.delivery_summaries@;
    let t = x.turn_id;
    lemma_summary_index(s, t, 0);
    lemma_summary_index_after_store(s, s2, t, 0);
}

/// A section that was opened is the one found under its id: the first
/// message with that id is the opened one.
pub proof fn law_opened_section_is_found(before: Seq<Msg>, next: Msg)
    ensures
        ({
            let id = opt_view(next.id);
            let k = section_position(before, id);
            let after = if k >= 0 {
                before.update(k, next)
            } else {
                before.push(next)
            };
            section_position(after, id) >= 0 && after[section_position(after, id)] == next
        }),
{
    let id = opt_view(next.id);
    let k = section_position(before, id);
    let after = if k >= 0 {
        before.update(k, next)
    } else {
        before.push(next)
    };
    crate::transcript::lemma_msg_position(before, id, 0);
    lemma_position_after_upsert(before, after, id, 0);
}

impl App {
    /// The status a turn ends with.
    pub open spec fn closing_status(self, interrupted: bool) -> DeliveryStatus {
        if interrupted {
            DeliveryStatus::Interrupted
        } else if self.spec_turn_failed() {
            DeliveryStatus::Failed
        } else {
            DeliveryStatus::Complete
        }
    }

    /// `after` stores `x` as the summary of its turn: in place of the
    /// summary stored for that turn, or last.
    pub open spec fn stores(self, after: Seq<DeliverySummary>, x: DeliverySummary) -> bool {
        let k = self.stored_summary(x.turn_id);
        after == if k >= 0 {
            self.delivery_summaries@.update(k, x)
        } else {
            self.delivery_summaries@.push(x)
        }
    }

    /// Stores the summary of the current turn, shows it in the delivery
    /// panel and closes the turn's transcript with it. Turn 0 (no turn
    /// yet) is left alone.
    pub fn finalize_current_delivery_summary(&mut self, interrupted: bool)
        requires
            old(self).delivery_fits(),
        ensures
            old(self).active_turn_id == 0 ==> *final(self) == *old(self),
            old(self).active_turn_id != 0 ==> exists|x: DeliverySummary|
                #![trigger old(self).built_summary(x, old(self).active_turn_id, old(self).closing_status(interrupted))]
                {
                    &&& old(self).built_summary(x, old(self).active_turn_id, old(self).closing_status(interrupted))
                    &&& old(self).stores(final(self).delivery_summaries@, x)
                    &&& closes_turn(old(self).output_msgs@, final(self).output_msgs@, old(self).active_turn_id, x)
                },
            old(self).active_turn_id != 0 ==> final(self).latest_delivery_turn_id == Some(old(self).active_turn_id),
            old(self).active_turn_id != 0 ==> final(self).shows_panel(views(final(self).delivery_lines@)),
            *final(self) == (App {
                delivery_summaries: final(self).delivery_summaries,
                latest_delivery_turn_id: final(self).latest_delivery_turn_id,
                delivery_lines: final(self).delivery_lines,
                output_msgs: final(self).output_msgs,
                ..*old(self)
            }),
    {
        if self.active_turn_id == 0 {
            return;
        }
        let t = self.active_turn_id;
        let status = if interrupted {
            DeliveryStatus::Interrupted
        } else if self.current_turn_failed() {
            DeliveryStatus::Failed
        } else {
            DeliveryStatus::Complete
        };
        let summary = self.build_delivery_summary(t, status);
        let ghost x = summary;
        self.upsert_delivery_response_section(&summary);
        match self.stored_summary_index(t) {
            Some(k) => {
                self.delivery_summaries.set(k, summary);
            },
            None => {
                self.delivery_summaries.push(summary);
            },
        }
        self.latest_delivery_turn_id = Some(t);
        self.refresh_delivery_panel();
        proof {
            assert(old(self).stores(self.delivery_summaries@, x));
        }
    }

    /// Opens, fills and closes the transcript section of summary `s`.
    fn upsert_delivery_response_section(&mut self, s: &DeliverySummary)
        ensures
            upserted(
                old(self).output_msgs@,
                final(self).output_msgs@,
                spec_delivery_section_id(s.turn_id),
                |m: Msg| is_delivery_msg(m, *s),
            ),
            *final(self) == (App { output_msgs: final(self).output_msgs, ..*old(self) }),
    {
        let section_id = delivery_section_id(s.turn_id);
        let body = build_delivery_response_body(s);
        let mut workflow_id = "delivery-".to_owned();
        push_str(&mut workflow_id, dec_string(s.turn_id).as_str());
        let next = Msg {
            kind: MsgKind::Step,
            text: String::new(),
            state: Some(SectionState::Complete),
            id: Some(section_id.clone()),
            parent_id: None,
            title: Some("Task Delivery Summary".to_owned()),
            workflow_id: Some(workflow_id),
            workflow_role: Some(WorkflowRunRole::Child),
            scene_id: Some("delivery".to_owned()),
            subflow_ref: None,
            collapsed: false,
            tool_lane_collapsed: true,
        };
        let ghost s0 = self.output_msgs@;
        let ghost id = Some(section_id@);
        self.begin_response_section(next);
        let ghost s1 = self.output_msgs@;
        proof {
            crate::transcript::lemma_msg_position(s0, id, 0);
            lemma_position_after_upsert(s0, s1, id, 0);
        }
        self.append_response_section(section_id.as_str(), body.as_str());
        let ghost s2 = self.output_msgs@;
        self.complete_response_section(section_id.as_str(), SectionState::Complete);
        proof {
            let k = section_position(s0, id);
            let slot = if k >= 0 { k } else { s0.len() as int };
            assert(section_position(s1, id) == slot);
            assert(section_position(s2, id) == slot) by {
                lemma_position_after_upsert(s0, s2, id, 0);
            }
            assert(is_delivery_msg(self.output_msgs@[slot], *s));
        }
    }
}

/// The turn after `t`; the count wraps around.
pub open spec fn next_turn(t: u64) -> u64 {
    if t == u64::MAX {
        0
    } else {
        (t + 1) as u64
    }
}

/// Whether `after` holds no record of a turn: no skill loads, knowledge
/// searches, subflows or model steps, and its skill, diagnostics, knowledge
/// and memory panels are back to their first state.
pub open spec fn turn_records_cleared(after: App) -> bool {
    &&& after.skill_load_summaries@.len() == 0
    &&& after.latest_skill_load_section_id.is_none()
    &&& views(after.skill_lines@) == skill_placeholder()
    &&& after.skills_scroll == PanelScroll::spec_new()
    &&& after.step_knowledge_summaries@.len() == 0
    &&& after.step_subflows@.len() == 0
    &&& after.step_diagnostics@.len() == 0
    &&& after.diagnostics_lines@.len() == 0
    &&& after.diagnostics_scroll == PanelScroll::spec_new()
    &&& after.context_supervision.is_none()
    &&& views(after.document_lines@) == knowledge_placeholder()
    &&& views(after.memory_lines@) == memory_placeholder()
    &&& after.document_scroll == PanelScroll::spec_new()
    &&& after.memory_scroll == PanelScroll::spec_new()
}

/// `after` is `before` but for the turn records and the panels that show
/// them.
pub open spec fn only_turn_records_differ(before: App, after: App) -> bool {
    after == (App {
        skill_load_summaries: after.skill_load_summaries,
        latest_skill_load_section_id: after.latest_skill_load_section_id,
        skill_lines: after.skill_lines,
        skills_scroll: after.skills_scroll,
        step_knowledge_summaries: after.step_knowledge_summaries,
        step_subflows: after.step_subflows,
        step_diagnostics: after.step_diagnostics,
        diagnostics_lines: after.diagnostics_lines,
        diagnostics_scroll: after.diagnostics_scroll,
        context_supervision: after.context_supervision,
        document_lines: after.document_lines,
        memory_lines: after.memory_lines,
        document_scroll: after.document_scroll,
        memory_scroll: after.memory_scroll,
        ..before
    })
}

impl App {
    pub(crate) fn clear_skill_load_summaries(&mut self)
        ensures
            final(self).skill_load_summaries@.len() == 0,
            final(self).latest_skill_load_section_id.is_none(),
            views(final(self).skill_lines@) == skill_placeholder(),
            final(self).skills_scroll == PanelScroll::spec_new(),
            *final(self) == (App {
                skill_load_summaries: final(self).skill_load_summaries,
                latest_skill_load_section_id: final(self).latest_skill_load_section_id,
                skill_lines: final(self).skill_lines,
                skills_scroll: final(self).skills_scroll,
                ..*old(self)
            }),
    {
        self.skill_load_summaries.clear();
        self.latest_skill_load_section_id = None;
        self.skill_lines = skill_placeholder_lines();
        self.skills_scroll = PanelScroll::new();
    }

    pub(crate) fn clear_step_diagnostics(&mut self)
        ensures
            final(self).step_diagnostics@.len() == 0,
            final(self).diagnostics_lines@.len() == 0,
            final(self).diagnostics_scroll == PanelScroll::spec_new(),
            *final(self) == (App {
                step_diagnostics: final(self).step_diagnostics,
                diagnostics_lines: final(self).diagnostics_lines,
                diagnostics_scroll: final(self).diagnostics_scroll,
                ..*old(self)
            }),
    {
        self.step_diagnostics.clear();
        self.diagnostics_lines.clear();
        self.diagnostics_scroll = PanelScroll::new();
    }

    pub(crate) fn clear_context_supervision(&mut self)
        ensures
            final(self).context_supervision.is_none(),
            views(final(self).document_lines@) == knowledge_placeholder(),
            views(final(self).memory_lines@) == memory_placeholder(),
            final(self).document_scroll == PanelScroll::spec_new(),
            final(self).memory_scroll == PanelScroll::spec_new(),
            *final(self) == (App {
                context_supervision: final(self).context_supervision,
                document_lines: final(self).document_lines,
                memory_lines: final(self).memory_lines,
                document_scroll: final(self).document_scroll,
                memory_scroll: final(self).memory_scroll,
                ..*old(self)
            }),
    {
        self.context_supervision = None;
        self.document_lines = knowledge_placeholder_lines();
        self.memory_lines = memory_placeholder_lines();
        self.document_scroll = PanelScroll::new();
        self.memory_scroll = PanelScroll::new();
    }

    fn clear_turn_records(&mut self)
        ensures
            turn_records_cleared(*final(self)),
            only_turn_records_differ(*old(self), *final(self)),
    {
        self.clear_skill_load_summaries();
        self.step_knowledge_summaries.clear();
        self.step_subflows.clear();
        self.clear_step_diagnostics();
        self.clear_context_supervision();
    }

    /// Starts the next turn: it runs, and the records of the last one are
    /// cleared. Returns the new turn's number.
    pub fn begin_turn(&mut self) -> (r: u64)
        requires
            old(self).delivery_fits(),
        ensures
            r == next_turn(old(self).active_turn_id),
            final(self).active_turn_id == r,
            final(self).is_running,
            final(self).workflow_summary.is_none(),
            final(self).session_status.is_none(),
            opt_view(final(self).agent_status_label) == Some("Running"@),
            turn_records_cleared(*final(self)),
            final(self).shows_panel(views(final(self).delivery_lines@)),
            only_turn_records_differ(
                App {
                    active_turn_id: final(self).active_turn_id,
                    is_running: final(self).is_running,
                    workflow_summary: None,
                    session_status: None,
                    agent_status_label: final(self).agent_status_label,
                    delivery_lines: final(self).delivery_lines,
                    ..*old(self)
                },
                *final(self),
            ),
    {
        self.active_turn_id = if self.active_turn_id == u64::MAX {
            0
        } else {
            self.active_turn_id + 1
        };
        self.is_running = true;
        self.workflow_summary = None;
        self.session_status = None;
        self.agent_status_label = Some("Running".to_owned());
        self.clear_turn_records();
        self.refresh_delivery_panel();
        self.active_turn_id
    }

    /// Interrupts the running turn: its summary is stored as interrupted,
    /// what still streams or runs fails, and the UI goes idle on a fresh
    /// turn number.
    pub fn interrupt_turn(&mut self)
        requires
            old(self).delivery_fits(),
        ensures
            old(self).active_turn_id == 0 ==> {
                &&& final(self).delivery_summaries == old(self).delivery_summaries
                &&& final(self).latest_delivery_turn_id == old(self).latest_delivery_turn_id
                &&& final(self).output_msgs@ == settled_msgs(old(self).output_msgs@)
            },
            old(self).active_turn_id != 0 ==> exists|x: DeliverySummary, msgs: Seq<Msg>|
                #![trigger old(self).built_summary(x, old(self).active_turn_id, DeliveryStatus::Interrupted), closes_turn(old(self).output_msgs@, msgs, old(self).active_turn_id, x)]
                {
                    &&& old(self).built_summary(x, old(self).active_turn_id, DeliveryStatus::Interrupted)
                    &&& old(self).stores(final(self).delivery_summaries@, x)
                    &&& closes_turn(old(self).output_msgs@, msgs, old(self).active_turn_id, x)
                    &&& final(self).output_msgs@ == settled_msgs(msgs)
                    &&& final(self).latest_delivery_turn_id == Some(old(self).active_turn_id)
                },
            final(self).tool_runs@ == settled_runs(old(self).tool_runs@),
            final(self).active_turn_id == next_turn(old(self).active_turn_id),
            !final(self).is_running,
            final(self).workflow_summary.is_none(),
            final(self).session_status.is_none(),
            opt_view(final(self).agent_status_label) == Some("Idle"@),
            turn_records_cleared(*final(self)),
            final(self).shows_panel(views(final(self).delivery_lines@)),
            only_turn_records_differ(
                App {
                    output_msgs: final(self).output_msgs,
                    tool_runs: final(self).tool_runs,
                    delivery_summaries: final(self).delivery_summaries,
                    latest_delivery_turn_id: final(self).latest_delivery_turn_id,
                    active_turn_id: final(self).active_turn_id,
                    is_running: final(self).is_running,
                    workflow_summary: None,
                    session_status: None,
                    agent_status_label: final(self).agent_status_label,
                    delivery_lines: final(self).delivery_lines,
                    ..*old(self)
                },
                *final(self),
            ),
    {
        self.finalize_current_delivery_summary(true);
        let ghost msgs = self.output_msgs@;
        self.fail_streaming_response_sections();
        self.fail_running_tool_runs();
        self.active_turn_id = if self.active_turn_id == u64::MAX {
            0
        } else {
            self.active_turn_id + 1
        };
        self.is_running = false;
        self.workflow_summary = None;
        self.session_status = None;
        self.agent_status_label = Some("Idle".to_owned());
        self.clear_turn_records();
        self.refresh_delivery_panel();
    }

    /// `after` is `before` with the agent's status label `label`: any label
    /// but `Idle` means a turn is running, and a turn that stops running is
    /// closed with its summary.
    pub open spec fn agent_label_set(before: App, after: App, label: Seq<char>) -> bool {
        let closes = before.is_running && label == "Idle"@ && before.active_turn_id != 0;
        let t = before.active_turn_id;
        &&& after.is_running == (label != "Idle"@)
        &&& opt_view(after.agent_status_label) == Some(label)
        &&& closes ==> {
            &&& exists|x: DeliverySummary|
                #![trigger before.built_summary(x, t, before.closing_status(false))]
                {
                    &&& before.built_summary(x, t, before.closing_status(false))
                    &&& before.stores(after.delivery_summaries@, x)
                    &&& closes_turn(before.output_msgs@, after.output_msgs@, t, x)
                }
            &&& after.latest_delivery_turn_id == Some(t)
            &&& after.shows_panel(views(after.delivery_lines@))
        }
        &&& !closes ==> {
            &&& after.delivery_summaries == before.delivery_summaries
            &&& after.latest_delivery_turn_id == before.latest_delivery_turn_id
            &&& after.delivery_lines == before.delivery_lines
            &&& after.output_msgs == before.output_msgs
        }
        &&& after == (App {
            is_running: after.is_running,
            agent_status_label: after.agent_status_label,
            delivery_summaries: after.delivery_summaries,
            latest_delivery_turn_id: after.latest_delivery_turn_id,
            delivery_lines: after.delivery_lines,
            output_msgs: after.output_msgs,
            ..before
        })
    }

    /// Sets the agent's status label: any label but `Idle` means a turn is
    /// running, and a turn that stops running is closed with its summary.
    pub fn set_agent_status_label(&mut self, label: &str)
        requires
            old(self).delivery_fits(),
        ensures
            App::agent_label_set(*old(self), *final(self), label@),
    {
        let was_running = self.is_running;
        self.is_running = !str_eq(label, "Idle");
        self.agent_status_label = Some(label.to_owned());
        let ghost mid = *self;
        if was_running && !self.is_running {
            self.finalize_current_delivery_summary(false);
            proof {
                if mid.active_turn_id != 0 {
                    let t = mid.active_turn_id;
                    let x = choose|x: DeliverySummary|
                        #![trigger mid.built_summary(x, t, mid.closing_status(false))]
                        {
                            &&& mid.built_summary(x, t, mid.closing_status(false))
                            &&& mid.stores(self.delivery_summaries@, x)
                            &&& closes_turn(mid.output_msgs@, self.output_msgs@, t, x)
                        };
                    assert(old(self).built_summary(x, t, old(self).closing_status(false)));
                }
            }
        }
    }

    /// Hides the agent's status: no label, and no turn running.
    pub fn hide_agent_status(&mut self)
        ensures
            *final(self) == (App { is_running: false, agent_status_label: None, ..*old(self) }),
    {
        self.is_running = false;
        self.agent_status_label = None;
    }
}

} // verus!
