//! The skills panel: the skills that a step's routing recognised, loaded
//! and ignored, and the knowledge searches that a step made.
use vstd::prelude::*;

use crate::app::{skill_placeholder, skill_placeholder_lines, App};
use crate::chars::{dec, dec_usize, push_str, str_eq, views};
use crate::delivery::{join_or_none, spec_join_or_none};
use crate::overlay::OverlayState;
use crate::sorted::{lemma_lex_lt_trans, lex_lt, strictly_sorted};
use crate::chars::{lemma_lex_total, str_le};
use crate::transcript::opt_view;
use crate::knowledge::StepKnowledgeSummary;
use crate::turn_delivery::DeliverySkillLoad;

verus! {

/// The detail lines of a skill load.
pub open spec fn spec_skill_detail_lines(s: DeliverySkillLoad) -> Seq<Seq<char>> {
    let head = seq![
        "recognized: "@ + dec(s.recognized_skill_ids@.len()),
        "loaded: "@ + dec(s.loaded_skill_ids@.len()),
        "ignored: "@ + dec(s.ignored_skill_ids@.len()),
        Seq::<char>::empty(),
        "recognized ids: "@ + spec_join_or_none(views(s.recognized_skill_ids@)),
        "loaded ids: "@ + spec_join_or_none(views(s.loaded_skill_ids@)),
        "ignored ids: "@ + spec_join_or_none(views(s.ignored_skill_ids@)),
    ];
    let with_step = match s.source_step_id {
        Some(step) => head + seq![Seq::<char>::empty(), "source step: "@ + step@],
        None => head,
    };
    match s.selection_reason {
        Some(reason) => with_step.push("reason: "@ + reason@),
        None => with_step,
    }
}

fn push_line(v: &mut Vec<String>, line: String)
    ensures
        views(final(v)@) == views(old(v)@).push(line@),
{
    v.push(line);
    proof {
        assert(views(v@) =~= views(old(v)@).push(line@));
    }
}

fn labelled(label: &str, value: &str) -> (r: String)
    ensures
        r@ == label@ + value@,
{
    let mut s = label.to_owned();
    push_str(&mut s, value);
    s
}

/// The detail lines of a skill load: counts, ids, and where known the
/// step that chose them and why.
pub fn build_skill_detail_lines(s: &DeliverySkillLoad) -> (r: Vec<String>)
    ensures
        views(r@) == spec_skill_detail_lines(*s),
{
    let mut lines: Vec<String> = Vec::new();
    push_line(&mut lines, labelled("recognized: ", dec_usize(s.recognized_skill_ids.len()).as_str()));
    push_line(&mut lines, labelled("loaded: ", dec_usize(s.loaded_skill_ids.len()).as_str()));
    push_line(&mut lines, labelled("ignored: ", dec_usize(s.ignored_skill_ids.len()).as_str()));
    push_line(&mut lines, String::new());
    push_line(&mut lines, labelled("recognized ids: ", join_or_none(&s.recognized_skill_ids).as_str()));
    push_line(&mut lines, labelled("loaded ids: ", join_or_none(&s.loaded_skill_ids).as_str()));
    push_line(&mut lines, labelled("ignored ids: ", join_or_none(&s.ignored_skill_ids).as_str()));
    match &s.source_step_id {
        Some(step) => {
            push_line(&mut lines, String::new());
            push_line(&mut lines, labelled("source step: ", step.as_str()));
        },
        None => {},
    }
    match &s.selection_reason {
        Some(reason) => {
            push_line(&mut lines, labelled("reason: ", reason.as_str()));
        },
        None => {},
    }
    proof {
        assert(views(lines@) =~= spec_skill_detail_lines(*s));
    }
    lines
}

/// The first skill load at or after `i` of section `id`, or -1.
pub open spec fn load_position_from(s: Seq<DeliverySkillLoad>, id: Seq<char>, i: int) -> int
    decreases s.len() - i,
{
    if i < 0 || i >= s.len() {
        -1
    } else if s[i].section_id@ == id {
        i
    } else {
        load_position_from(s, id, i + 1)
    }
}

/// The skill load of section `id`, or -1.
pub open spec fn load_position(s: Seq<DeliverySkillLoad>, id: Seq<char>) -> int {
    load_position_from(s, id, 0)
}

pub proof fn lemma_load_position(s: Seq<DeliverySkillLoad>, id: Seq<char>, i: int)
    requires
        0 <= i,
    ensures
        load_position_from(s, id, i) == -1 || (i <= load_position_from(s, id, i) < s.len()
            && s[load_position_from(s, id, i)].section_id@ == id),
    decreases s.len() - i,
{
    if i < s.len() && s[i].section_id@ != id {
        lemma_load_position(s, id, i + 1);
    }
}

/// The section ids of knowledge searches.
pub open spec fn knowledge_ids(s: Seq<StepKnowledgeSummary>) -> Seq<Seq<char>> {
    s.map_values(|k: StepKnowledgeSummary| k.section_id@)
}

/// Where section `x` belongs among knowledge searches kept in ascending
/// section order: the first position not below `x`, and whether it is `x`.
fn find_knowledge_slot(v: &Vec<StepKnowledgeSummary>, x: &str) -> (r: (usize, bool))
    requires
        strictly_sorted(knowledge_ids(v@)),
    ensures
        r.0 <= v@.len(),
        forall|i: int| 0 <= i < r.0 ==> lex_lt(#[trigger] knowledge_ids(v@)[i], x@),
        r.1 ==> r.0 < v@.len() && knowledge_ids(v@)[r.0 as int] == x@,
        !r.1 ==> !knowledge_ids(v@).contains(x@),
        !r.1 && r.0 < v@.len() ==> lex_lt(x@, knowledge_ids(v@)[r.0 as int]),
{
    let ghost ks = knowledge_ids(v@);
    let mut i: usize = 0;
    while i < v.len()
        invariant
            i <= v@.len(),
            ks == knowledge_ids(v@),
            strictly_sorted(ks),
            forall|j: int| 0 <= j < i ==> lex_lt(#[trigger] ks[j], x@),
        decreases v.len() - i,
    {
        let k = v[i].section_id.as_str();
        proof {
            assert(ks[i as int] == v@[i as int].section_id@);
        }
        if str_eq(k, x) {
            return (i, true);
        }
        if !str_le(k, x) {
            proof {
                lemma_lex_total(ks[i as int], x@);
                assert forall|j: int| 0 <= j < ks.len() implies #[trigger] ks[j] != x@ by {
                    if j > i {
                        lemma_lex_lt_trans(x@, ks[i as int], ks[j]);
                    }
                }
            }
            return (i, false);
        }
        i = i + 1;
    }
    (i, false)
}

/// `after` is `before` with `x` at position `p`: in place of the search of
/// its section, or inserted there when there was none.
pub open spec fn knowledge_upserted(
    before: Seq<StepKnowledgeSummary>,
    after: Seq<StepKnowledgeSummary>,
    x: StepKnowledgeSummary,
    p: int,
) -> bool {
    let ks = knowledge_ids(before);
    &&& 0 <= p <= before.len()
    &&& if ks.contains(x.section_id@) {
        &&& p < ks.len()
        &&& ks[p] == x.section_id@
        &&& after == before.update(p, x)
    } else {
        after == before.insert(p, x)
    }
}

impl App {
    pub(crate) fn find_skill_load(&self, id: &str) -> (r: Option<usize>)
        ensures
            match r {
                Some(k) => k as int == load_position(self.skill_load_summaries@, id@) && k
                    < self.skill_load_summaries@.len(),
                None => load_position(self.skill_load_summaries@, id@) == -1,
            },
    {
        proof {
            lemma_load_position(self.skill_load_summaries@, id@, 0);
        }
        let mut i: usize = 0;
        while i < self.skill_load_summaries.len()
            invariant
                i <= self.skill_load_summaries@.len(),
                load_position(self.skill_load_summaries@, id@) == load_position_from(
                    self.skill_load_summaries@,
                    id@,
                    i as int,
                ),
            decreases self.skill_load_summaries.len() - i,
        {
            if str_eq(self.skill_load_summaries[i].section_id.as_str(), id) {
                return Some(i);
            }
            i = i + 1;
        }
        None
    }

    /// The skill load that the panel shows: the latest one recorded.
    pub open spec fn shown_skill_load(self) -> int {
        match self.latest_skill_load_section_id {
            Some(id) => load_position(self.skill_load_summaries@, id@),
            None => -1,
        }
    }

    /// Whether `lines` are what the skills panel shows.
    pub open spec fn shows_skills(self, lines: Seq<Seq<char>>) -> bool {
        let k = self.shown_skill_load();
        lines == if k >= 0 {
            spec_skill_detail_lines(self.skill_load_summaries@[k])
        } else {
            skill_placeholder()
        }
    }

    fn rebuild_skill_lines(&mut self)
        ensures
            final(self).shows_skills(views(final(self).skill_lines@)),
            *final(self) == (App { skill_lines: final(self).skill_lines, ..*old(self) }),
    {
        let found = match &self.latest_skill_load_section_id {
            Some(id) => self.find_skill_load(id.as_str()),
            None => None,
        };
        let lines = match found {
            Some(k) => build_skill_detail_lines(&self.skill_load_summaries[k]),
            None => skill_placeholder_lines(),
        };
        self.skill_lines = lines;
    }

    /// Records the skills a step loaded: it replaces the load of the same
    /// section or comes last, becomes the latest one, and the skills and
    /// delivery panels are refreshed.
    pub fn upsert_skill_load_summary(&mut self, summary: DeliverySkillLoad)
        requires
            old(self).delivery_fits(),
        ensures
            ({
                let k = load_position(old(self).skill_load_summaries@, summary.section_id@);
                final(self).skill_load_summaries@ == if k >= 0 {
                    old(self).skill_load_summaries@.update(k, summary)
                } else {
                    old(self).skill_load_summaries@.push(summary)
                }
            }),
            opt_view(final(self).latest_skill_load_section_id) == Some(summary.section_id@),
            final(self).shows_skills(views(final(self).skill_lines@)),
            final(self).shows_panel(views(final(self).delivery_lines@)),
            *final(self) == (App {
                skill_load_summaries: final(self).skill_load_summaries,
                latest_skill_load_section_id: final(self).latest_skill_load_section_id,
                skill_lines: final(self).skill_lines,
                delivery_lines: final(self).delivery_lines,
                ..*old(self)
            }),
    {
        self.latest_skill_load_section_id = Some(summary.section_id.clone());
        match self.find_skill_load(summary.section_id.as_str()) {
            Some(k) => {
                self.skill_load_summaries.set(k, summary);
            },
            None => {
                self.skill_load_summaries.push(summary);
            },
        }
        self.rebuild_skill_lines();
        self.refresh_delivery_panel();
    }

    /// Opens the detail of the skill load of section `section_id`, when
    /// there is one.
    pub fn open_skill_load_detail_for_section(&mut self, section_id: &str) -> (r: bool)
        ensures
            ({
                let k = load_position(old(self).skill_load_summaries@, section_id@);
                &&& r == (k >= 0)
                &&& !r ==> *final(self) == *old(self)
                &&& r ==> (final(self).overlay matches Some(OverlayState::Detail(o)) && o.title@
                    == " Routed Skills "@ && views(o.lines@) == spec_skill_detail_lines(
                    old(self).skill_load_summaries@[k],
                ))
            }),
    {
        match self.find_skill_load(section_id) {
            Some(k) => {
                let lines = build_skill_detail_lines(&self.skill_load_summaries[k]);
                self.open_detail_overlay(" Routed Skills ", lines);
                true
            },
            None => false,
        }
    }

    /// Opens the detail of the latest skill load, when there is one.
    pub fn open_skill_load_detail(&mut self) -> (r: bool)
        ensures
            r == (old(self).shown_skill_load() >= 0),
            r ==> (final(self).overlay matches Some(OverlayState::Detail(o)) && o.title@ == " Routed Skills "@
                && views(o.lines@) == spec_skill_detail_lines(old(self).skill_load_summaries@[old(self).shown_skill_load()])),
            !r ==> *final(self) == *old(self),
    {
        let id = match &self.latest_skill_load_section_id {
            Some(id) => id.clone(),
            None => return false,
        };
        self.open_skill_load_detail_for_section(id.as_str())
    }

    /// Records the knowledge searches of a step, keeping them in ascending
    /// section order: it replaces the search of the same section or is
    /// inserted in its place; the delivery panel is refreshed.
    pub fn upsert_step_knowledge_summary(&mut self, summary: StepKnowledgeSummary)
        requires
            old(self).delivery_fits(),
            strictly_sorted(knowledge_ids(old(self).step_knowledge_summaries@)),
        ensures
            strictly_sorted(knowledge_ids(final(self).step_knowledge_summaries@)),
            exists|p: int|
                knowledge_upserted(old(self).step_knowledge_summaries@, final(self).step_knowledge_summaries@, summary, p),
            final(self).shows_panel(views(final(self).delivery_lines@)),
            *final(self) == (App {
                step_knowledge_summaries: final(self).step_knowledge_summaries,
                delivery_lines: final(self).delivery_lines,
                ..*old(self)
            }),
    {
        let ghost ks = knowledge_ids(self.step_knowledge_summaries@);
        let (pos, found) = find_knowledge_slot(&self.step_knowledge_summaries, summary.section_id.as_str());
        let ghost id = summary.section_id@;
        if found {
            self.step_knowledge_summaries.set(pos, summary);
            proof {
                assert(knowledge_ids(self.step_knowledge_summaries@) =~= ks);
            }
        } else {
            self.step_knowledge_summaries.insert(pos, summary);
            proof {
                let nk = knowledge_ids(self.step_knowledge_summaries@);
                assert(nk =~= ks.insert(pos as int, id));
                assert forall|i: int, j: int| 0 <= i < j < nk.len() implies lex_lt(#[trigger] nk[i], #[trigger] nk[j]) by {
                    if j < pos {
                    } else if i < pos && j == pos {
                    } else if i < pos {
                        assert(nk[j] == ks[j - 1]);
                        if j - 1 > pos {
                            lemma_lex_lt_trans(id, ks[pos as int], ks[j - 1]);
                        }
                        lemma_lex_lt_trans(nk[i], id, nk[j]);
                    } else if i == pos {
                        assert(nk[j] == ks[j - 1]);
                        if j - 1 > pos {
                            lemma_lex_lt_trans(id, ks[pos as int], ks[j - 1]);
                        }
                    } else {
                        assert(nk[i] == ks[i - 1]);
                        assert(nk[j] == ks[j - 1]);
                    }
                }
            }
        }
        proof {
            assert(knowledge_upserted(old(self).step_knowledge_summaries@, self.step_knowledge_summaries@, summary, pos as int));
        }
        self.refresh_delivery_panel();
    }
}

} // verus!
