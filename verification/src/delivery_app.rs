//! The delivery panel of the UI: which turn it reports, the summaries kept
//! for finished turns, and the transcript section that closes a turn.
use vstd::prelude::*;

use crate::app::{delivery_placeholder, delivery_placeholder_lines, App, Msg, MsgKind, SectionState};
use crate::chars::{starts_with, str_starts_with, views};
use crate::diagnostics::{step_usages, step_usages_of};
use crate::delivery::{
    build_delivery_detail_lines, build_delivery_panel_lines, build_delivery_response_body,
    delivery_section_id, spec_detail_lines, spec_panel_lines, spec_response_body, spec_turn_prefix,
    turn_prefix, DeliveryChangedFile, DeliveryStatus, DeliverySummary,
};
use crate::overlay::OverlayState;
use crate::tools::copy_strings;
use crate::turn_delivery::{build_delivery_summary, sums_fit, summarizes};

verus! {

/// Two summaries that hold the same values.
pub open spec fn same_summary(a: DeliverySummary, b: DeliverySummary) -> bool {
    &&& a.turn_id == b.turn_id
    &&& a.status == b.status
    &&& a.primary_model == b.primary_model
    &&& a.llm_request_count == b.llm_request_count
    &&& a.input_tokens == b.input_tokens
    &&& a.cache_creation_input_tokens == b.cache_creation_input_tokens
    &&& a.cache_read_input_tokens == b.cache_read_input_tokens
    &&& a.token_stats_partial == b.token_stats_partial
    &&& a.tool_call_count == b.tool_call_count
    &&& a.unique_tool_count == b.unique_tool_count
    &&& a.failed_tool_count == b.failed_tool_count
    &&& a.tool_counts@ == b.tool_counts@
    &&& a.recognized_skill_ids@ == b.recognized_skill_ids@
    &&& a.loaded_skill_ids@ == b.loaded_skill_ids@
    &&& a.ignored_skill_ids@ == b.ignored_skill_ids@
    &&& a.document_search_count == b.document_search_count
    &&& a.memory_search_count == b.memory_search_count
    &&& a.observation_search_count == b.observation_search_count
    &&& a.document_queries@ == b.document_queries@
    &&& a.memory_queries@ == b.memory_queries@
    &&& a.changed_files@ == b.changed_files@
}

fn copy_counts(v: &Vec<(String, u32)>) -> (r: Vec<(String, u32)>)
    ensures
        r@ == v@,
{
    let mut r: Vec<(String, u32)> = Vec::new();
    let mut i: usize = 0;
    while i < v.len()
        invariant
            i <= v@.len(),
            r@ == v@.take(i as int),
        decreases v.len() - i,
    {
        r.push((v[i].0.clone(), v[i].1));
        i = i + 1;
        proof {
            assert(r@ =~= v@.take(i as int));
        }
    }
    proof {
        assert(v@.take(v@.len() as int) =~= v@);
    }
    r
}

fn copy_files(v: &Vec<DeliveryChangedFile>) -> (r: Vec<DeliveryChangedFile>)
    ensures
        r@ == v@,
{
    let mut r: Vec<DeliveryChangedFile> = Vec::new();
    let mut i: usize = 0;
    while i < v.len()
        invariant
            i <= v@.len(),
            r@ == v@.take(i as int),
        decreases v.len() - i,
    {
        r.push(DeliveryChangedFile { path: v[i].path.clone(), kind: v[i].kind });
        i = i + 1;
        proof {
            assert(r@ =~= v@.take(i as int));
        }
    }
    proof {
        assert(v@.take(v@.len() as int) =~= v@);
    }
    r
}

/// A copy of a summary.
pub fn copy_summary(s: &DeliverySummary) -> (r: DeliverySummary)
    ensures
        same_summary(r, *s),
{
    DeliverySummary {
        turn_id: s.turn_id,
        status: s.status,
        primary_model: match &s.primary_model {
            Some(m) => Some(m.clone()),
            None => None,
        },
        llm_request_count: s.llm_request_count,
        input_tokens: s.input_tokens,
        cache_creation_input_tokens: s.cache_creation_input_tokens,
        cache_read_input_tokens: s.cache_read_input_tokens,
        token_stats_partial: s.token_stats_partial,
        tool_call_count: s.tool_call_count,
        unique_tool_count: s.unique_tool_count,
        failed_tool_count: s.failed_tool_count,
        tool_counts: copy_counts(&s.tool_counts),
        recognized_skill_ids: copy_strings(&s.recognized_skill_ids),
        loaded_skill_ids: copy_strings(&s.loaded_skill_ids),
        ignored_skill_ids: copy_strings(&s.ignored_skill_ids),
        document_search_count: s.document_search_count,
        memory_search_count: s.memory_search_count,
        observation_search_count: s.observation_search_count,
        document_queries: copy_strings(&s.document_queries),
        memory_queries: copy_strings(&s.memory_queries),
        changed_files: copy_files(&s.changed_files),
    }
}

/// The first stored summary of turn `t` at or after `i`, or -1.
pub open spec fn summary_index_from(s: Seq<DeliverySummary>, t: u64, i: int) -> int
    decreases s.len() - i,
{
    if i < 0 || i >= s.len() {
        -1
    } else if s[i].turn_id == t {
        i
    } else {
        summary_index_from(s, t, i + 1)
    }
}

pub proof fn lemma_summary_index(s: Seq<DeliverySummary>, t: u64, i: int)
    requires
        0 <= i,
    ensures
        summary_index_from(s, t, i) == -1 || (i <= summary_index_from(s, t, i) < s.len()
            && s[summary_index_from(s, t, i)].turn_id == t),
    decreases s.len() - i,
{
    if i < s.len() && s[i].turn_id != t {
        lemma_summary_index(s, t, i + 1);
    }
}

impl App {
    /// The records of the current turn fit the counters of a summary.
    pub open spec fn delivery_fits(self) -> bool {
        sums_fit(self.tool_runs@, step_usages(self.step_diagnostics@))
    }

    /// The position of the stored summary of turn `t`, or -1.
    pub open spec fn stored_summary(self, t: u64) -> int {
        summary_index_from(self.delivery_summaries@, t, 0)
    }

    /// Whether `x` is the summary of turn `t` with status `status` built
    /// from the records the UI holds.
    pub open spec fn built_summary(self, x: DeliverySummary, t: u64, status: DeliveryStatus) -> bool {
        summarizes(
            x,
            t,
            status,
            self.delivery_model_name,
            self.tool_runs@,
            self.skill_load_summaries@,
            self.step_knowledge_summaries@,
            step_usages(self.step_diagnostics@),
        )
    }

    /// The summary of turn `t`: built as the turn runs, stored once it ended.
    pub open spec fn is_summary_for(self, x: DeliverySummary, t: u64) -> bool {
        if self.is_running && self.active_turn_id == t {
            self.built_summary(x, t, DeliveryStatus::Running)
        } else {
            self.stored_summary(t) >= 0 && same_summary(x, self.delivery_summaries@[self.stored_summary(t)])
        }
    }

    /// Whether the UI has a summary for turn `t`.
    pub open spec fn has_summary_for(self, t: u64) -> bool {
        (self.is_running && self.active_turn_id == t) || self.stored_summary(t) >= 0
    }

    /// The turn the delivery panel reports: the running turn, or the last
    /// one that finished.
    pub open spec fn spec_panel_turn(self) -> Option<u64> {
        if self.is_running && self.active_turn_id > 0 {
            Some(self.active_turn_id)
        } else {
            self.latest_delivery_turn_id
        }
    }

    pub fn delivery_panel_turn_id(&self) -> (r: Option<u64>)
        ensures
            r == self.spec_panel_turn(),
    {
        if self.is_running && self.active_turn_id > 0 {
            Some(self.active_turn_id)
        } else {
            self.latest_delivery_turn_id
        }
    }

    pub(crate) fn stored_summary_index(&self, turn_id: u64) -> (r: Option<usize>)
        ensures
            match r {
                Some(i) => i as int == self.stored_summary(turn_id) && i < self.delivery_summaries@.len(),
                None => self.stored_summary(turn_id) == -1,
            },
    {
        let mut i: usize = 0;
        proof {
            lemma_summary_index(self.delivery_summaries@, turn_id, 0);
        }
        while i < self.delivery_summaries.len()
            invariant
                i <= self.delivery_summaries@.len(),
                summary_index_from(self.delivery_summaries@, turn_id, 0) == summary_index_from(
                    self.delivery_summaries@,
                    turn_id,
                    i as int,
                ),
            decreases self.delivery_summaries.len() - i,
        {
            if self.delivery_summaries[i].turn_id == turn_id {
                return Some(i);
            }
            i = i + 1;
        }
        None
    }

    /// The summary of turn `turn_id` with `status`, from the records held.
    pub fn build_delivery_summary(&self, turn_id: u64, status: DeliveryStatus) -> (r: DeliverySummary)
        requires
            self.delivery_fits(),
        ensures
            self.built_summary(r, turn_id, status),
    {
        build_delivery_summary(
            turn_id,
            status,
            &self.delivery_model_name,
            &self.tool_runs,
            &self.skill_load_summaries,
            &self.step_knowledge_summaries,
            &step_usages_of(&self.step_diagnostics),
        )
    }

    /// The summary of turn `turn_id`: built while it runs, else the stored
    /// one, else none.
    pub fn delivery_summary_for_turn(&self, turn_id: u64) -> (r: Option<DeliverySummary>)
        requires
            self.delivery_fits(),
        ensures
            r.is_some() == self.has_summary_for(turn_id),
            r matches Some(x) ==> self.is_summary_for(x, turn_id),
    {
        if self.is_running && self.active_turn_id == turn_id {
            return Some(self.build_delivery_summary(turn_id, DeliveryStatus::Running));
        }
        match self.stored_summary_index(turn_id) {
            Some(i) => Some(copy_summary(&self.delivery_summaries[i])),
            None => None,
        }
    }

    /// The summary that the delivery panel reports, if any.
    pub fn delivery_panel_summary(&self) -> (r: Option<DeliverySummary>)
        requires
            self.delivery_fits(),
        ensures
            match self.spec_panel_turn() {
                Some(t) => r.is_some() == self.has_summary_for(t) && (r matches Some(x) ==> self.is_summary_for(x, t)),
                None => r.is_none(),
            },
    {
        match self.delivery_panel_turn_id() {
            Some(t) => self.delivery_summary_for_turn(t),
            None => None,
        }
    }

    /// Whether `lines` are what the delivery panel shows: the lines of the
    /// reported turn's summary, or the placeholder when there is none.
    pub open spec fn shows_panel(self, lines: Seq<Seq<char>>) -> bool {
        match self.spec_panel_turn() {
            Some(t) => if self.has_summary_for(t) {
                exists|x: DeliverySummary| self.is_summary_for(x, t) && lines == spec_panel_lines(&x)
            } else {
                lines == delivery_placeholder()
            },
            None => lines == delivery_placeholder(),
        }
    }

    /// The delivery panel's lines: the reported summary, or the placeholder.
    pub fn refresh_delivery_panel(&mut self)
        requires
            old(self).delivery_fits(),
        ensures
            final(self).shows_panel(views(final(self).delivery_lines@)),
            *final(self) == (App { delivery_lines: final(self).delivery_lines, ..*old(self) }),
    {
        let lines = match self.delivery_panel_summary() {
            Some(s) => build_delivery_panel_lines(&s),
            None => delivery_placeholder_lines(),
        };
        self.delivery_lines = lines;
    }

    /// The compact badge of the reported summary.
    pub fn delivery_badge_text(&self) -> (r: Option<String>)
        requires
            self.delivery_fits(),
        ensures
            match self.spec_panel_turn() {
                Some(t) => r.is_some() == self.has_summary_for(t) && (r matches Some(b) ==> exists|
                    x: DeliverySummary,
                | self.is_summary_for(x, t) && b@ == x.spec_compact_badge()),
                None => r.is_none(),
            },
    {
        match self.delivery_panel_summary() {
            Some(s) => Some(s.compact_badge()),
            None => None,
        }
    }

    /// Opens the detail overlay of turn `turn_id`'s summary, when there is
    /// one.
    pub fn open_delivery_detail_for_turn(&mut self, turn_id: u64) -> (r: bool)
        requires
            old(self).delivery_fits(),
        ensures
            r == old(self).has_summary_for(turn_id),
            !r ==> *final(self) == *old(self),
            r ==> exists|x: DeliverySummary|
                old(self).is_summary_for(x, turn_id) && (final(self).overlay matches Some(
                    OverlayState::Detail(o),
                ) && o.title@ == " Task Delivery "@ && views(o.lines@) == spec_detail_lines(&x)),
    {
        let summary = match self.delivery_summary_for_turn(turn_id) {
            Some(s) => s,
            None => return false,
        };
        let lines = build_delivery_detail_lines(&summary);
        self.open_detail_overlay(" Task Delivery ", lines);
        true
    }

    /// Opens the detail overlay of the reported turn (the current turn when
    /// none is reported).
    pub fn open_latest_delivery_detail(&mut self) -> (r: bool)
        requires
            old(self).delivery_fits(),
        ensures
            r == old(self).has_summary_for(
                match old(self).spec_panel_turn() {
                    Some(t) => t,
                    None => old(self).active_turn_id,
                },
            ),
    {
        let turn_id = match self.delivery_panel_turn_id() {
            Some(t) => t,
            None => self.active_turn_id,
        };
        self.open_delivery_detail_for_turn(turn_id)
    }

    /// Whether a section of the current turn failed (reasoning aside).
    pub open spec fn spec_turn_failed(self) -> bool {
        exists|i: int|
            0 <= i < self.output_msgs@.len() && {
                let m = #[trigger] self.output_msgs@[i];
                &&& m.id matches Some(id) && starts_with(id@, spec_turn_prefix(self.active_turn_id))
                &&& m.state == Some(SectionState::Failed)
                &&& m.kind != MsgKind::Thinking
            }
    }

    pub fn current_turn_failed(&self) -> (r: bool)
        ensures
            r == self.spec_turn_failed(),
    {
        let prefix = turn_prefix(self.active_turn_id);
        let mut i: usize = 0;
        while i < self.output_msgs.len()
            invariant
                i <= self.output_msgs@.len(),
                prefix@ == spec_turn_prefix(self.active_turn_id),
                forall|j: int|
                    0 <= j < i ==> !({
                        let m = #[trigger] self.output_msgs@[j];
                        &&& m.id matches Some(id) && starts_with(id@, spec_turn_prefix(self.active_turn_id))
                        &&& m.state == Some(SectionState::Failed)
                        &&& m.kind != MsgKind::Thinking
                    }),
            decreases self.output_msgs.len() - i,
        {
            let m = &self.output_msgs[i];
            let in_turn = match &m.id {
                Some(id) => str_starts_with(id.as_str(), prefix.as_str()),
                None => false,
            };
            let failed = match m.state {
                Some(SectionState::Failed) => true,
                _ => false,
            };
            if in_turn && failed && m.kind != MsgKind::Thinking {
                return true;
            }
            i = i + 1;
        }
        false
    }
}

} // verus!
