//! The sidebar rail: one short badge per section, summing up what the
//! section's panel holds.
use vstd::prelude::*;

use crate::app::App;
use crate::chars::{dec, push_num, push_str};
use crate::diagnostics::{invalid_count, StepDiagnostics, StepOutputStatus};
use crate::skills::load_position;

verus! {

/// A section of the sidebar.
#[derive(Debug, Clone, Copy, PartialEq, Eq, Structural)]
pub enum SidebarSection {
    Diagnostics,
    Delivery,
    Skills,
    Project,
    Knowledge,
    Todos,
    Logs,
}

/// The number of steps whose output is still pending.
pub open spec fn pending_count(ds: Seq<StepDiagnostics>) -> nat
    decreases ds.len(),
{
    if ds.len() == 0 {
        0
    } else {
        pending_count(ds.drop_last()) + if ds.last().output.status == StepOutputStatus::Pending {
            1nat
        } else {
            0nat
        }
    }
}

/// The diagnostics badge: broken contracts first, then pending outputs,
/// then the number of steps.
pub open spec fn diagnostics_badge(ds: Seq<StepDiagnostics>) -> Seq<char> {
    if invalid_count(ds) > 0 {
        "D !"@ + dec(invalid_count(ds))
    } else if pending_count(ds) > 0 {
        "D …"@ + dec(pending_count(ds))
    } else if ds.len() > 0 {
        "D "@ + dec(ds.len())
    } else {
        "D --"@
    }
}

/// The text `prefix` followed by `a/b`.
pub open spec fn ratio(prefix: Seq<char>, a: nat, b: nat) -> Seq<char> {
    prefix + dec(a) + "/"@ + dec(b)
}

impl App {
    /// The skills badge: loaded and recognized skills of the latest load.
    pub open spec fn skills_badge(self) -> Seq<char> {
        match self.latest_skill_load_section_id {
            Some(id) => {
                let k = load_position(self.skill_load_summaries@, id@);
                if k >= 0 {
                    let s = self.skill_load_summaries@[k];
                    ratio("S "@, s.loaded_skill_ids@.len(), s.recognized_skill_ids@.len())
                } else {
                    "S --"@
                }
            },
            None => "S --"@,
        }
    }

    /// The knowledge badge: the hit counts of the last document and memory
    /// queries, else their readiness; `off` when both are disabled.
    pub open spec fn knowledge_badge(self) -> Seq<char> {
        match self.context_supervision {
            Some(snap) => if !snap.document.enabled && !snap.memory.enabled {
                "K off"@
            } else {
                "K "@ + match snap.document.current_hits {
                    Some(h) => dec(h.result_count as nat),
                    None => snap.document.readiness@,
                } + "/"@ + match snap.memory.current_query {
                    Some(q) => dec(q.result_count as nat),
                    None => snap.memory.readiness@,
                }
            },
            None => "K --"@,
        }
    }

    /// Whether `r` is the rail badge of `section`.
    pub open spec fn is_rail_badge(self, section: SidebarSection, r: Seq<char>) -> bool {
        match section {
            SidebarSection::Diagnostics => r == diagnostics_badge(self.step_diagnostics@),
            SidebarSection::Delivery => match self.spec_panel_turn() {
                Some(t) => if self.has_summary_for(t) {
                    exists|x: crate::delivery::DeliverySummary|
                        #[trigger] self.is_summary_for(x, t) && r == ratio(
                            "V "@,
                            x.llm_request_count as nat,
                            x.changed_files@.len(),
                        )
                } else {
                    r == "V --"@
                },
                None => r == "V --"@,
            },
            SidebarSection::Skills => r == self.skills_badge(),
            SidebarSection::Project => r == match self.project_status {
                Some(p) => ratio("P "@, p.current_task_count as nat, p.history_task_count as nat),
                None => "P --"@,
            },
            SidebarSection::Knowledge => r == self.knowledge_badge(),
            SidebarSection::Todos => r == match self.todo_summary {
                Some(s) => ratio("T "@, s.completed as nat, s.total as nat),
                None => "T --"@,
            },
            SidebarSection::Logs => r == dec(self.log_lines@.len()),
        }
    }

    fn diagnostics_badge_of(&self) -> (r: String)
        ensures
            r@ == diagnostics_badge(self.step_diagnostics@),
    {
        let ghost ds = self.step_diagnostics@;
        let mut invalid: usize = 0;
        let mut pending: usize = 0;
        let mut i: usize = 0;
        while i < self.step_diagnostics.len()
            invariant
                ds == self.step_diagnostics@,
                i <= ds.len(),
                invalid == invalid_count(ds.take(i as int)),
                pending == pending_count(ds.take(i as int)),
                invalid <= i,
                pending <= i,
            decreases ds.len() - i,
        {
            proof {
                assert(ds.take(i + 1).drop_last() =~= ds.take(i as int));
            }
            let status = self.step_diagnostics[i].output.status;
            if status == StepOutputStatus::Invalid {
                invalid = invalid + 1;
            } else if status == StepOutputStatus::Pending {
                pending = pending + 1;
            }
            i = i + 1;
        }
        proof {
            assert(ds.take(ds.len() as int) =~= ds);
        }
        if invalid > 0 {
            let mut s = "D !".to_owned();
            push_num(&mut s, invalid as u64);
            s
        } else if pending > 0 {
            let mut s = "D …".to_owned();
            push_num(&mut s, pending as u64);
            s
        } else if self.step_diagnostics.len() > 0 {
            let mut s = "D ".to_owned();
            push_num(&mut s, self.step_diagnostics.len() as u64);
            s
        } else {
            "D --".to_owned()
        }
    }

    fn ratio_text(prefix: &str, a: u64, b: u64) -> (r: String)
        ensures
            r@ == ratio(prefix@, a as nat, b as nat),
    {
        let mut s = prefix.to_owned();
        push_num(&mut s, a);
        push_str(&mut s, "/");
        push_num(&mut s, b);
        s
    }

    fn skills_badge_of(&self) -> (r: String)
        ensures
            r@ == self.skills_badge(),
    {
        match &self.latest_skill_load_section_id {
            Some(id) => match self.find_skill_load(id.as_str()) {
                Some(k) => {
                    let s = &self.skill_load_summaries[k];
                    Self::ratio_text("S ", s.loaded_skill_ids.len() as u64, s.recognized_skill_ids.len() as u64)
                },
                None => "S --".to_owned(),
            },
            None => "S --".to_owned(),
        }
    }

    fn knowledge_badge_of(&self) -> (r: String)
        ensures
            r@ == self.knowledge_badge(),
    {
        match &self.context_supervision {
            Some(snap) => {
                if !snap.document.enabled && !snap.memory.enabled {
                    return "K off".to_owned();
                }
                let mut s = "K ".to_owned();
                match &snap.document.current_hits {
                    Some(h) => push_num(&mut s, h.result_count),
                    None => push_str(&mut s, snap.document.readiness.as_str()),
                }
                push_str(&mut s, "/");
                match &snap.memory.current_query {
                    Some(q) => push_num(&mut s, q.result_count),
                    None => push_str(&mut s, snap.memory.readiness.as_str()),
                }
                s
            },
            None => "K --".to_owned(),
        }
    }

    /// The badge the rail shows for `section`.
    pub fn rail_badge(&self, section: SidebarSection) -> (r: String)
        requires
            self.delivery_fits(),
        ensures
            self.is_rail_badge(section, r@),
    {
        match section {
            SidebarSection::Diagnostics => self.diagnostics_badge_of(),
            SidebarSection::Delivery => match self.delivery_panel_summary() {
                Some(summary) => Self::ratio_text(
                    "V ",
                    summary.llm_request_count as u64,
                    summary.changed_files.len() as u64,
                ),
                None => "V --".to_owned(),
            },
            SidebarSection::Skills => self.skills_badge_of(),
            SidebarSection::Project => match self.project_status {
                Some(p) => Self::ratio_text("P ", p.current_task_count, p.history_task_count),
                None => "P --".to_owned(),
            },
            SidebarSection::Knowledge => self.knowledge_badge_of(),
            SidebarSection::Todos => match self.todo_summary {
                Some(s) => Self::ratio_text("T ", s.completed as u64, s.total as u64),
                None => "T --".to_owned(),
            },
            SidebarSection::Logs => {
                let mut s = String::new();
                push_num(&mut s, self.log_lines.len() as u64);
                proof {
                    assert(s@ =~= dec(self.log_lines@.len()));
                }
                s
            },
        }
    }
}

} // verus!
