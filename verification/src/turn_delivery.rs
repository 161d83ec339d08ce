//! Building the delivery summary of one turn from what the turn recorded:
//! its tool runs, skill loads, knowledge searches and model steps.
use vstd::prelude::*;

use crate::chars::{is_blank, starts_with, str_starts_with, trim, trim_string, views};
use crate::delivery::{
    dedupe, dedupe_spec, spec_tool_change_kind, tool_change_kind, turn_prefix, DeliveryChangedFile,
    DeliveryFileChangeKind, DeliveryStatus, DeliverySummary,
};
use crate::sorted::{
    count_insert, find_key, keys_of, lemma_keys_values, lemma_value_of_at, set_insert,
    strictly_sorted, value_of,
};

use crate::knowledge::StepKnowledgeSummary;

verus! {

/// Where a tool call stands.
#[derive(Debug, Clone, Copy, PartialEq, Eq, Structural)]
pub enum ToolRunStatus {
    Running,
    Completed,
    Failed,
}

/// A tool call of a turn.
#[derive(Debug, Clone, PartialEq, Eq)]
pub struct ToolRun {
    pub id: String,
    pub parent_section_id: String,
    pub tool_name: String,
    pub status: ToolRunStatus,
    pub invocation_preview: String,
    pub result_preview: Option<String>,
    pub detail: ToolRunDetail,
}

/// What the detail view of a tool call shows.
#[derive(Debug, Clone, PartialEq, Eq)]
pub struct ToolRunDetail {
    pub title: String,
    pub lines: Vec<String>,
}

/// The skills that one step recognised, loaded and ignored.
#[derive(Debug, Clone, PartialEq, Eq)]
pub struct DeliverySkillLoad {
    pub section_id: String,
    pub source_step_id: Option<String>,
    pub recognized_skill_ids: Vec<String>,
    pub loaded_skill_ids: Vec<String>,
    pub ignored_skill_ids: Vec<String>,
    pub selection_reason: Option<String>,
}

/// Token use reported by a model step.
#[derive(Debug, Clone, Copy, PartialEq, Eq, Structural)]
pub struct DeliveryCacheUsage {
    pub request_input_tokens: u32,
    pub cache_creation_input_tokens: Option<u32>,
    pub cache_read_input_tokens: Option<u32>,
}

/// A model step: how many attempts it made and its token use, when known.
#[derive(Debug, Clone, Copy, PartialEq, Eq, Structural)]
pub struct DeliveryStepUsage {
    pub attempts: u32,
    pub cache: Option<DeliveryCacheUsage>,
}

// ---------------------------------------------------------------------------
// Tool runs
// ---------------------------------------------------------------------------

pub open spec fn in_turn(section_id: Seq<char>, prefix: Seq<char>) -> bool {
    starts_with(section_id, prefix)
}

/// The number of the turn's tool runs.
pub open spec fn turn_calls(ts: Seq<ToolRun>, prefix: Seq<char>) -> nat
    decreases ts.len(),
{
    if ts.len() == 0 {
        0
    } else {
        turn_calls(ts.drop_last(), prefix) + if in_turn(ts.last().parent_section_id@, prefix) {
            1nat
        } else {
            0nat
        }
    }
}

/// The number of the turn's failed tool runs.
pub open spec fn turn_failures(ts: Seq<ToolRun>, prefix: Seq<char>) -> nat
    decreases ts.len(),
{
    if ts.len() == 0 {
        0
    } else {
        turn_failures(ts.drop_last(), prefix) + if in_turn(ts.last().parent_section_id@, prefix)
            && ts.last().status == ToolRunStatus::Failed {
            1nat
        } else {
            0nat
        }
    }
}

/// The number of the turn's runs of the tool `name`.
pub open spec fn turn_runs_of(ts: Seq<ToolRun>, prefix: Seq<char>, name: Seq<char>) -> nat
    decreases ts.len(),
{
    if ts.len() == 0 {
        0
    } else {
        turn_runs_of(ts.drop_last(), prefix, name) + if in_turn(ts.last().parent_section_id@, prefix)
            && ts.last().tool_name@ == name {
            1nat
        } else {
            0nat
        }
    }
}

pub proof fn lemma_runs_of_le_calls(ts: Seq<ToolRun>, prefix: Seq<char>, name: Seq<char>)
    ensures
        turn_runs_of(ts, prefix, name) <= turn_calls(ts, prefix),
        turn_calls(ts, prefix) <= ts.len(),
        turn_failures(ts, prefix) <= turn_calls(ts, prefix),
    decreases ts.len(),
{
    if ts.len() > 0 {
        lemma_runs_of_le_calls(ts.drop_last(), prefix, name);
    }
}

/// What the counting map holds for `k`: the number of runs, when positive.
pub open spec fn runs_entry(ts: Seq<ToolRun>, prefix: Seq<char>, k: Seq<char>) -> Option<u32> {
    if turn_runs_of(ts, prefix, k) > 0 {
        Some(turn_runs_of(ts, prefix, k) as u32)
    } else {
        None
    }
}

/// The change that a file ends up with after the turn's tool runs: a
/// creation stays a creation, other changes keep the first kind recorded.
pub open spec fn merged_kind(prev: Option<DeliveryFileChangeKind>, kind: DeliveryFileChangeKind) -> DeliveryFileChangeKind {
    match prev {
        None => kind,
        Some(p) => if kind == DeliveryFileChangeKind::Create {
            DeliveryFileChangeKind::Create
        } else {
            p
        },
    }
}

/// Whether a tool run of the turn changes the file at `path`, and how.
pub open spec fn run_change(t: ToolRun, prefix: Seq<char>) -> Option<DeliveryFileChangeKind> {
    if in_turn(t.parent_section_id@, prefix) && trim(t.invocation_preview@).len() > 0 {
        spec_tool_change_kind(t.tool_name@)
    } else {
        None
    }
}

/// The recorded change of the file at `path` after the turn's tool runs.
pub open spec fn file_change(ts: Seq<ToolRun>, prefix: Seq<char>, path: Seq<char>) -> Option<DeliveryFileChangeKind>
    decreases ts.len(),
{
    if ts.len() == 0 {
        None
    } else {
        let prev = file_change(ts.drop_last(), prefix, path);
        match run_change(ts.last(), prefix) {
            Some(kind) => if trim(ts.last().invocation_preview@) == path {
                Some(merged_kind(prev, kind))
            } else {
                prev
            },
            None => prev,
        }
    }
}

/// Records one more change of the file at `path`.
fn kind_upsert(v: &mut Vec<(String, DeliveryFileChangeKind)>, path: &str, kind: DeliveryFileChangeKind)
    requires
        strictly_sorted(keys_of(old(v)@)),
    ensures
        strictly_sorted(keys_of(final(v)@)),
        forall|k: Seq<char>| k != path@ ==> value_of(final(v)@, k) == value_of(old(v)@, k),
        value_of(final(v)@, path@) == Some(merged_kind(value_of(old(v)@, path@), kind)),
{
    let (pos, found) = find_key(v, path);
    if found {
        proof {
            assert(keys_of(v@)[pos as int] == v@[pos as int].0@);
            lemma_value_of_at(v@, pos as int);
        }
        if kind == DeliveryFileChangeKind::Create {
            let e = (v[pos].0.clone(), DeliveryFileChangeKind::Create);
            proof {
                crate::sorted::lemma_value_of_update(v@, pos as int, e);
            }
            v.set(pos, e);
        }
    } else {
        proof {
            crate::sorted::lemma_value_of_absent(v@, path@);
        }
        let e = (path.to_owned(), kind);
        proof {
            crate::sorted::lemma_insert_entry(v@, v@.insert(pos as int, e), pos as int, e);
        }
        v.insert(pos, e);
    }
}

/// The tool counts, call count, failure count and file changes of a turn.
fn tally_tool_runs(tools: &Vec<ToolRun>, prefix: &str) -> (r: (
    Vec<(String, u32)>,
    usize,
    usize,
    Vec<(String, DeliveryFileChangeKind)>,
))
    requires
        tools@.len() <= u32::MAX,
    ensures
        strictly_sorted(keys_of(r.0@)),
        forall|k: Seq<char>| #[trigger] value_of(r.0@, k) == runs_entry(tools@, prefix@, k),
        r.1 == turn_calls(tools@, prefix@),
        r.2 == turn_failures(tools@, prefix@),
        strictly_sorted(keys_of(r.3@)),
        forall|k: Seq<char>| #[trigger] value_of(r.3@, k) == file_change(tools@, prefix@, k),
{
    let mut counts: Vec<(String, u32)> = Vec::new();
    let mut files: Vec<(String, DeliveryFileChangeKind)> = Vec::new();
    let mut calls: usize = 0;
    let mut failed: usize = 0;
    let mut i: usize = 0;
    while i < tools.len()
        invariant
            i <= tools@.len(),
            tools@.len() <= u32::MAX,
            strictly_sorted(keys_of(counts@)),
            forall|k: Seq<char>| #[trigger] value_of(counts@, k) == runs_entry(tools@.take(i as int), prefix@, k),
            calls == turn_calls(tools@.take(i as int), prefix@),
            failed == turn_failures(tools@.take(i as int), prefix@),
            strictly_sorted(keys_of(files@)),
            forall|k: Seq<char>| #[trigger] value_of(files@, k) == file_change(tools@.take(i as int), prefix@, k),
        decreases tools.len() - i,
    {
        let t = &tools[i];
        let ghost before = tools@.take(i as int);
        let ghost after = tools@.take(i + 1);
        proof {
            assert(after.drop_last() =~= before);
            assert(after.last() == *t);
            lemma_runs_of_le_calls(before, prefix@, t.tool_name@);
        }
        if str_starts_with(t.parent_section_id.as_str(), prefix) {
            calls = calls + 1;
            if t.status == ToolRunStatus::Failed {
                failed = failed + 1;
            }
            let ghost old_counts = counts@;
            count_insert(&mut counts, t.tool_name.as_str());
            proof {
                assert forall|k: Seq<char>| #[trigger] value_of(counts@, k) == runs_entry(after, prefix@, k) by {
                    if k != t.tool_name@ {
                        assert(value_of(old_counts, k) == runs_entry(before, prefix@, k));
                    } else {
                        assert(value_of(old_counts, k) == runs_entry(before, prefix@, k));
                    }
                }
            }
            match tool_change_kind(t.tool_name.as_str()) {
                Some(kind) => {
                    let path = trim_string(t.invocation_preview.as_str());
                    if !is_blank(t.invocation_preview.as_str()) {
                        let ghost old_files = files@;
                        kind_upsert(&mut files, path.as_str(), kind);
                        proof {
                            assert forall|k: Seq<char>| #[trigger] value_of(files@, k) == file_change(after, prefix@, k) by {
                                assert(value_of(old_files, k) == file_change(before, prefix@, k));
                            }
                        }
                    } else {
                        proof {
                            assert forall|k: Seq<char>| #[trigger] value_of(files@, k) == file_change(after, prefix@, k) by {
                                assert(value_of(files@, k) == file_change(before, prefix@, k));
                            }
                        }
                    }
                },
                None => {
                    proof {
                        assert forall|k: Seq<char>| #[trigger] value_of(files@, k) == file_change(after, prefix@, k) by {
                            assert(value_of(files@, k) == file_change(before, prefix@, k));
                        }
                    }
                },
            }
        } else {
            proof {
                assert forall|k: Seq<char>| #[trigger] value_of(counts@, k) == runs_entry(after, prefix@, k) by {
                    assert(value_of(counts@, k) == runs_entry(before, prefix@, k));
                }
                assert forall|k: Seq<char>| #[trigger] value_of(files@, k) == file_change(after, prefix@, k) by {
                    assert(value_of(files@, k) == file_change(before, prefix@, k));
                }
            }
        }
        i = i + 1;
    }
    proof {
        assert(tools@.take(tools@.len() as int) =~= tools@);
    }
    (counts, calls, failed, files)
}

// ---------------------------------------------------------------------------
// Skills
// ---------------------------------------------------------------------------

/// Which of the three skill lists of a load.
#[derive(Debug, Clone, Copy, PartialEq, Eq, Structural)]
pub enum SkillList {
    Recognized,
    Loaded,
    Ignored,
}

pub open spec fn skill_ids(l: DeliverySkillLoad, which: SkillList) -> Seq<String> {
    match which {
        SkillList::Recognized => l.recognized_skill_ids@,
        SkillList::Loaded => l.loaded_skill_ids@,
        SkillList::Ignored => l.ignored_skill_ids@,
    }
}

/// Every id of the chosen list over the turn's skill loads.
pub open spec fn turn_skills(loads: Seq<DeliverySkillLoad>, prefix: Seq<char>, which: SkillList) -> Set<Seq<char>>
    decreases loads.len(),
{
    if loads.len() == 0 {
        Set::empty()
    } else {
        let prev = turn_skills(loads.drop_last(), prefix, which);
        if in_turn(loads.last().section_id@, prefix) {
            prev.union(views(skill_ids(loads.last(), which)).to_set())
        } else {
            prev
        }
    }
}

fn ids_of(l: &DeliverySkillLoad, which: SkillList) -> (r: &Vec<String>)
    ensures
        r@ == skill_ids(*l, which),
{
    match which {
        SkillList::Recognized => &l.recognized_skill_ids,
        SkillList::Loaded => &l.loaded_skill_ids,
        SkillList::Ignored => &l.ignored_skill_ids,
    }
}

/// The ids of the chosen list over the turn's skill loads, each once, in
/// ascending order.
fn collect_skills(loads: &Vec<DeliverySkillLoad>, prefix: &str, which: SkillList) -> (r: Vec<String>)
    ensures
        strictly_sorted(views(r@)),
        views(r@).to_set() == turn_skills(loads@, prefix@, which),
{
    let mut out: Vec<String> = Vec::new();
    let mut i: usize = 0;
    proof {
        assert(views(out@).to_set() =~= Set::<Seq<char>>::empty());
    }
    while i < loads.len()
        invariant
            i <= loads@.len(),
            strictly_sorted(views(out@)),
            views(out@).to_set() == turn_skills(loads@.take(i as int), prefix@, which),
        decreases loads.len() - i,
    {
        let l = &loads[i];
        proof {
            assert(loads@.take(i + 1).drop_last() =~= loads@.take(i as int));
        }
        if str_starts_with(l.section_id.as_str(), prefix) {
            let ids = ids_of(l, which);
            let ghost base = views(out@).to_set();
            let mut j: usize = 0;
            while j < ids.len()
                invariant
                    j <= ids@.len(),
                    strictly_sorted(views(out@)),
                    views(out@).to_set() == base.union(views(ids@.take(j as int)).to_set()),
                decreases ids.len() - j,
            {
                set_insert(&mut out, ids[j].as_str());
                proof {
                    assert(views(ids@.take(j + 1)) =~= views(ids@.take(j as int)).push(ids@[j as int]@));
                    views(ids@.take(j as int)).lemma_push_to_set_commute(ids@[j as int]@);
                    assert(views(out@).to_set() =~= base.union(views(ids@.take(j + 1)).to_set()));
                }
                j = j + 1;
            }
            proof {
                assert(ids@.take(ids@.len() as int) =~= ids@);
            }
        }
        i = i + 1;
    }
    proof {
        assert(loads@.take(loads@.len() as int) =~= loads@);
    }
    out
}

// ---------------------------------------------------------------------------
// Knowledge searches
// ---------------------------------------------------------------------------

pub open spec fn ks_in_turn(k: StepKnowledgeSummary, prefix: Seq<char>) -> bool {
    in_turn(k.section_id@, prefix)
}

/// The turn's document searches.
pub open spec fn document_searches(ks: Seq<StepKnowledgeSummary>, prefix: Seq<char>) -> nat
    decreases ks.len(),
{
    if ks.len() == 0 {
        0
    } else {
        document_searches(ks.drop_last(), prefix) + if ks_in_turn(ks.last(), prefix)
            && ks.last().document.is_some() {
            1nat
        } else {
            0nat
        }
    }
}

/// The turn's memory searches.
pub open spec fn memory_searches(ks: Seq<StepKnowledgeSummary>, prefix: Seq<char>) -> nat
    decreases ks.len(),
{
    if ks.len() == 0 {
        0
    } else {
        memory_searches(ks.drop_last(), prefix) + if ks_in_turn(ks.last(), prefix)
            && ks.last().memory.is_some() {
            1nat
        } else {
            0nat
        }
    }
}

/// The turn's memory searches that also searched observations.
pub open spec fn observation_searches(ks: Seq<StepKnowledgeSummary>, prefix: Seq<char>) -> nat
    decreases ks.len(),
{
    if ks.len() == 0 {
        0
    } else {
        observation_searches(ks.drop_last(), prefix) + if ks_in_turn(ks.last(), prefix) && (
        ks.last().memory matches Some(m) && m.observation_query.is_some()) {
            1nat
        } else {
            0nat
        }
    }
}

/// A query worth reporting: present and not blank.
pub open spec fn reported(q: Option<String>) -> Seq<Seq<char>> {
    match q {
        Some(s) => if trim(s@).len() > 0 {
            seq![s@]
        } else {
            Seq::empty()
        },
        None => Seq::empty(),
    }
}

/// The turn's document queries, in order, blank ones left out.
pub open spec fn document_queries(ks: Seq<StepKnowledgeSummary>, prefix: Seq<char>) -> Seq<Seq<char>>
    decreases ks.len(),
{
    if ks.len() == 0 {
        Seq::empty()
    } else {
        document_queries(ks.drop_last(), prefix) + if ks_in_turn(ks.last(), prefix) {
            match ks.last().document {
                Some(d) => reported(Some(d.query)),
                None => Seq::empty(),
            }
        } else {
            Seq::empty()
        }
    }
}

/// The turn's memory queries, in order, blank ones left out.
pub open spec fn memory_queries(ks: Seq<StepKnowledgeSummary>, prefix: Seq<char>) -> Seq<Seq<char>>
    decreases ks.len(),
{
    if ks.len() == 0 {
        Seq::empty()
    } else {
        memory_queries(ks.drop_last(), prefix) + if ks_in_turn(ks.last(), prefix) {
            match ks.last().memory {
                Some(m) => reported(m.memory_query),
                None => Seq::empty(),
            }
        } else {
            Seq::empty()
        }
    }
}

proof fn lemma_search_counts(ks: Seq<StepKnowledgeSummary>, prefix: Seq<char>)
    ensures
        document_searches(ks, prefix) <= ks.len(),
        memory_searches(ks, prefix) <= ks.len(),
        observation_searches(ks, prefix) <= ks.len(),
    decreases ks.len(),
{
    if ks.len() > 0 {
        lemma_search_counts(ks.drop_last(), prefix);
    }
}

fn push_reported(out: &mut Vec<String>, q: &Option<String>)
    ensures
        views(final(out)@) == views(old(out)@) + reported(*q),
{
    match q {
        Some(s) => {
            if !is_blank(s.as_str()) {
                out.push(s.clone());
                proof {
                    assert(views(out@) =~= views(old(out)@) + seq![s@]);
                }
            } else {
                proof {
                    assert(views(out@) =~= views(old(out)@) + Seq::<Seq<char>>::empty());
                }
            }
        },
        None => {
            proof {
                assert(views(out@) =~= views(old(out)@) + Seq::<Seq<char>>::empty());
            }
        },
    }
}

fn push_reported_text(out: &mut Vec<String>, q: &String)
    ensures
        views(final(out)@) == views(old(out)@) + reported(Some(*q)),
{
    if !is_blank(q.as_str()) {
        out.push(q.clone());
        proof {
            assert(views(out@) =~= views(old(out)@) + seq![q@]);
        }
    } else {
        proof {
            assert(views(out@) =~= views(old(out)@) + Seq::<Seq<char>>::empty());
        }
    }
}

/// The turn's search counts and queries (queries not yet deduplicated).
fn tally_knowledge(ks: &Vec<StepKnowledgeSummary>, prefix: &str) -> (r: (usize, usize, usize, Vec<String>, Vec<String>))
    ensures
        r.0 == document_searches(ks@, prefix@),
        r.1 == memory_searches(ks@, prefix@),
        r.2 == observation_searches(ks@, prefix@),
        views(r.3@) == document_queries(ks@, prefix@),
        views(r.4@) == memory_queries(ks@, prefix@),
{
    let mut docs: usize = 0;
    let mut mems: usize = 0;
    let mut obs: usize = 0;
    let mut dq: Vec<String> = Vec::new();
    let mut mq: Vec<String> = Vec::new();
    let mut i: usize = 0;
    while i < ks.len()
        invariant
            i <= ks@.len(),
            docs == document_searches(ks@.take(i as int), prefix@),
            mems == memory_searches(ks@.take(i as int), prefix@),
            obs == observation_searches(ks@.take(i as int), prefix@),
            views(dq@) == document_queries(ks@.take(i as int), prefix@),
            views(mq@) == memory_queries(ks@.take(i as int), prefix@),
        decreases ks.len() - i,
    {
        let k = &ks[i];
        proof {
            assert(ks@.take(i + 1).drop_last() =~= ks@.take(i as int));
            lemma_search_counts(ks@.take(i as int), prefix@);
        }
        if str_starts_with(k.section_id.as_str(), prefix) {
            match &k.document {
                Some(d) => {
                    docs = docs + 1;
                    push_reported_text(&mut dq, &d.query);
                },
                None => {
                    proof {
                        assert(views(dq@) =~= views(dq@) + Seq::<Seq<char>>::empty());
                    }
                },
            }
            match &k.memory {
                Some(m) => {
                    mems = mems + 1;
                    push_reported(&mut mq, &m.memory_query);
                    if m.observation_query.is_some() {
                        obs = obs + 1;
                    }
                },
                None => {
                    proof {
                        assert(views(mq@) =~= views(mq@) + Seq::<Seq<char>>::empty());
                    }
                },
            }
        } else {
            proof {
                assert(views(dq@) =~= views(dq@) + Seq::<Seq<char>>::empty());
                assert(views(mq@) =~= views(mq@) + Seq::<Seq<char>>::empty());
            }
        }
        i = i + 1;
    }
    proof {
        assert(ks@.take(ks@.len() as int) =~= ks@);
    }
    (docs, mems, obs, dq, mq)
}

// ---------------------------------------------------------------------------
// Model steps
// ---------------------------------------------------------------------------

/// The model requests of the steps: each step's attempts, at least one.
pub open spec fn llm_requests(steps: Seq<DeliveryStepUsage>) -> nat
    decreases steps.len(),
{
    if steps.len() == 0 {
        0
    } else {
        llm_requests(steps.drop_last()) + if steps.last().attempts >= 1 {
            steps.last().attempts as nat
        } else {
            1nat
        }
    }
}

/// The request input tokens of the steps that reported token use.
pub open spec fn input_tokens_of(steps: Seq<DeliveryStepUsage>) -> nat
    decreases steps.len(),
{
    if steps.len() == 0 {
        0
    } else {
        input_tokens_of(steps.drop_last()) + match steps.last().cache {
            Some(c) => c.request_input_tokens as nat,
            None => 0nat,
        }
    }
}

/// The cache creation tokens that the steps reported.
pub open spec fn creation_tokens_of(steps: Seq<DeliveryStepUsage>) -> nat
    decreases steps.len(),
{
    if steps.len() == 0 {
        0
    } else {
        creation_tokens_of(steps.drop_last()) + match steps.last().cache {
            Some(c) => match c.cache_creation_input_tokens {
                Some(n) => n as nat,
                None => 0nat,
            },
            None => 0nat,
        }
    }
}

/// The cache read tokens that the steps reported.
pub open spec fn read_tokens_of(steps: Seq<DeliveryStepUsage>) -> nat
    decreases steps.len(),
{
    if steps.len() == 0 {
        0
    } else {
        read_tokens_of(steps.drop_last()) + match steps.last().cache {
            Some(c) => match c.cache_read_input_tokens {
                Some(n) => n as nat,
                None => 0nat,
            },
            None => 0nat,
        }
    }
}

/// Whether some step reported no token use.
pub open spec fn some_usage_missing(steps: Seq<DeliveryStepUsage>) -> bool {
    exists|i: int| 0 <= i < steps.len() && (#[trigger] steps[i]).cache.is_none()
}

proof fn lemma_sums_grow(steps: Seq<DeliveryStepUsage>, i: int)
    requires
        0 <= i <= steps.len(),
    ensures
        llm_requests(steps.take(i)) <= llm_requests(steps),
        input_tokens_of(steps.take(i)) <= input_tokens_of(steps),
        creation_tokens_of(steps.take(i)) <= creation_tokens_of(steps),
        read_tokens_of(steps.take(i)) <= read_tokens_of(steps),
    decreases steps.len() - i,
{
    if i < steps.len() {
        lemma_sums_grow(steps, i + 1);
        assert(steps.take(i + 1).drop_last() =~= steps.take(i));
    } else {
        assert(steps.take(i) =~= steps);
    }
}

/// The sums over the model steps: requests, input tokens, cache creation
/// and cache read tokens, and whether some step reported no token use.
fn tally_steps(steps: &Vec<DeliveryStepUsage>) -> (r: (u32, u32, u32, u32, bool))
    requires
        llm_requests(steps@) <= u32::MAX,
        input_tokens_of(steps@) <= u32::MAX,
        creation_tokens_of(steps@) <= u32::MAX,
        read_tokens_of(steps@) <= u32::MAX,
    ensures
        r.0 == llm_requests(steps@),
        r.1 == input_tokens_of(steps@),
        r.2 == creation_tokens_of(steps@),
        r.3 == read_tokens_of(steps@),
        r.4 == some_usage_missing(steps@),
{
    let mut llm: u32 = 0;
    let mut input: u32 = 0;
    let mut creation: u32 = 0;
    let mut read: u32 = 0;
    let mut missing = false;
    let mut i: usize = 0;
    while i < steps.len()
        invariant
            i <= steps@.len(),
            llm_requests(steps@) <= u32::MAX,
            input_tokens_of(steps@) <= u32::MAX,
            creation_tokens_of(steps@) <= u32::MAX,
            read_tokens_of(steps@) <= u32::MAX,
            llm == llm_requests(steps@.take(i as int)),
            input == input_tokens_of(steps@.take(i as int)),
            creation == creation_tokens_of(steps@.take(i as int)),
            read == read_tokens_of(steps@.take(i as int)),
            missing == some_usage_missing(steps@.take(i as int)),
        decreases steps.len() - i,
    {
        let st = steps[i];
        proof {
            assert(steps@.take(i + 1).drop_last() =~= steps@.take(i as int));
            assert(steps@.take(i + 1).last() == st);
            lemma_sums_grow(steps@, i + 1);
        }
        let attempts = if st.attempts >= 1 {
            st.attempts
        } else {
            1
        };
        llm = llm + attempts;
        match st.cache {
            Some(c) => {
                input = input + c.request_input_tokens;
                match c.cache_creation_input_tokens {
                    Some(n) => {
                        creation = creation + n;
                    },
                    None => {},
                }
                match c.cache_read_input_tokens {
                    Some(n) => {
                        read = read + n;
                    },
                    None => {},
                }
            },
            None => {
                missing = true;
            },
        }
        proof {
            let t = steps@.take(i + 1);
            if st.cache.is_none() {
                assert(t[i as int].cache.is_none());
            }
            if some_usage_missing(steps@.take(i as int)) {
                let j = choose|j: int| 0 <= j < i && (#[trigger] steps@.take(i as int)[j]).cache.is_none();
                assert(t[j] == steps@.take(i as int)[j]);
            }
            if some_usage_missing(t) {
                let j = choose|j: int| 0 <= j < t.len() && (#[trigger] t[j]).cache.is_none();
                if j < i {
                    assert(t[j] == steps@.take(i as int)[j]);
                }
            }
        }
        i = i + 1;
    }
    proof {
        assert(steps@.take(steps@.len() as int) =~= steps@);
    }
    (llm, input, creation, read, missing)
}

// ---------------------------------------------------------------------------
// The summary
// ---------------------------------------------------------------------------

/// The changed files as (path, kind) entries.
pub open spec fn file_pairs(files: Seq<DeliveryChangedFile>) -> Seq<(String, DeliveryFileChangeKind)> {
    files.map_values(|f: DeliveryChangedFile| (f.path, f.kind))
}

fn to_changed_files(pairs: Vec<(String, DeliveryFileChangeKind)>) -> (r: Vec<DeliveryChangedFile>)
    ensures
        file_pairs(r@) == pairs@,
{
    let mut out: Vec<DeliveryChangedFile> = Vec::new();
    let mut rest = pairs;
    let ghost all = rest@;
    let mut reversed: Vec<DeliveryChangedFile> = Vec::new();
    while rest.len() > 0
        invariant
            rest@.len() + reversed@.len() == all.len(),
            rest@ == all.take(rest@.len() as int),
            forall|j: int| 0 <= j < reversed@.len() ==> (#[trigger] reversed@[j]).path == all[all.len() - 1 - j].0
                && reversed@[j].kind == all[all.len() - 1 - j].1,
        decreases rest.len(),
    {
        let (path, kind) = rest.pop().unwrap();
        reversed.push(DeliveryChangedFile { path, kind });
        proof {
            assert(rest@ =~= all.take(rest@.len() as int));
        }
    }
    while reversed.len() > 0
        invariant
            reversed@.len() + out@.len() == all.len(),
            forall|j: int| 0 <= j < reversed@.len() ==> (#[trigger] reversed@[j]).path == all[all.len() - 1 - j].0
                && reversed@[j].kind == all[all.len() - 1 - j].1,
            file_pairs(out@) == all.take(out@.len() as int),
        decreases reversed.len(),
    {
        let f = reversed.pop().unwrap();
        out.push(f);
        proof {
            assert(file_pairs(out@) =~= all.take(out@.len() as int));
        }
    }
    proof {
        assert(all.take(all.len() as int) =~= all);
    }
    out
}

fn copy_model(m: &Option<String>) -> (r: Option<String>)
    ensures
        r == *m,
{
    match m {
        Some(s) => Some(s.clone()),
        None => None,
    }
}

/// Whether `r` is the delivery summary of turn `turn_id` with the given
/// status: tool runs, skill loads and knowledge searches count when their
/// section id starts with `turn-<id>:`; model steps all count.
pub open spec fn summarizes(
    r: DeliverySummary,
    turn_id: u64,
    status: DeliveryStatus,
    model: Option<String>,
    tools: Seq<ToolRun>,
    skill_loads: Seq<DeliverySkillLoad>,
    knowledge: Seq<StepKnowledgeSummary>,
    steps: Seq<DeliveryStepUsage>,
) -> bool {
    let p = crate::delivery::spec_turn_prefix(turn_id);
    &&& r.turn_id == turn_id
    &&& r.status == status
    &&& r.primary_model == model
    &&& r.llm_request_count == llm_requests(steps)
    &&& r.input_tokens == input_tokens_of(steps)
    &&& r.cache_creation_input_tokens == creation_tokens_of(steps)
    &&& r.cache_read_input_tokens == read_tokens_of(steps)
    &&& r.token_stats_partial == some_usage_missing(steps)
    &&& r.tool_call_count == turn_calls(tools, p)
    &&& r.failed_tool_count == turn_failures(tools, p)
    &&& strictly_sorted(keys_of(r.tool_counts@))
    &&& (forall|k: Seq<char>| #[trigger] value_of(r.tool_counts@, k) == runs_entry(tools, p, k))
    &&& r.unique_tool_count == r.tool_counts@.len()
    &&& strictly_sorted(views(r.recognized_skill_ids@))
    &&& views(r.recognized_skill_ids@).to_set() == turn_skills(skill_loads, p, SkillList::Recognized)
    &&& strictly_sorted(views(r.loaded_skill_ids@))
    &&& views(r.loaded_skill_ids@).to_set() == turn_skills(skill_loads, p, SkillList::Loaded)
    &&& strictly_sorted(views(r.ignored_skill_ids@))
    &&& views(r.ignored_skill_ids@).to_set() == turn_skills(skill_loads, p, SkillList::Ignored)
    &&& r.document_search_count == document_searches(knowledge, p)
    &&& r.memory_search_count == memory_searches(knowledge, p)
    &&& r.observation_search_count == observation_searches(knowledge, p)
    &&& views(r.document_queries@) == dedupe_spec(document_queries(knowledge, p))
    &&& views(r.memory_queries@) == dedupe_spec(memory_queries(knowledge, p))
    &&& strictly_sorted(keys_of(file_pairs(r.changed_files@)))
    &&& forall|k: Seq<char>| #[trigger] value_of(file_pairs(r.changed_files@), k) == file_change(tools, p, k)
}

/// Whether the keyed lists of a summary are held as the maps and sets they
/// stand for: the tool counts by tool name, the skill ids and the changed
/// files by path, each in strictly ascending order.
pub open spec fn summary_ordered(r: DeliverySummary) -> bool {
    &&& strictly_sorted(keys_of(r.tool_counts@))
    &&& strictly_sorted(views(r.recognized_skill_ids@))
    &&& strictly_sorted(views(r.loaded_skill_ids@))
    &&& strictly_sorted(views(r.ignored_skill_ids@))
    &&& strictly_sorted(keys_of(file_pairs(r.changed_files@)))
}

/// A summary built from the records of a turn keeps its keyed lists in
/// strictly ascending order, with no key twice.
pub proof fn law_built_summary_is_ordered(
    r: DeliverySummary,
    turn_id: u64,
    status: DeliveryStatus,
    model: Option<String>,
    tools: Seq<ToolRun>,
    skill_loads: Seq<DeliverySkillLoad>,
    knowledge: Seq<StepKnowledgeSummary>,
    steps: Seq<DeliveryStepUsage>,
)
    requires
        summarizes(r, turn_id, status, model, tools, skill_loads, knowledge, steps),
    ensures
        summary_ordered(r),
{
}

/// Whether the turn's records fit the counters of a summary.
pub open spec fn sums_fit(tools: Seq<ToolRun>, steps: Seq<DeliveryStepUsage>) -> bool {
    &&& tools.len() <= u32::MAX
    &&& llm_requests(steps) <= u32::MAX
    &&& input_tokens_of(steps) <= u32::MAX
    &&& creation_tokens_of(steps) <= u32::MAX
    &&& read_tokens_of(steps) <= u32::MAX
}

/// The delivery summary of turn `turn_id` with the given status.
pub fn build_delivery_summary(
    turn_id: u64,
    status: DeliveryStatus,
    model: &Option<String>,
    tools: &Vec<ToolRun>,
    skill_loads: &Vec<DeliverySkillLoad>,
    knowledge: &Vec<StepKnowledgeSummary>,
    steps: &Vec<DeliveryStepUsage>,
) -> (r: DeliverySummary)
    requires
        sums_fit(tools@, steps@),
    ensures
        summarizes(r, turn_id, status, *model, tools@, skill_loads@, knowledge@, steps@),
{
    let prefix = turn_prefix(turn_id);
    let (tool_counts, calls, failed, files) = tally_tool_runs(tools, prefix.as_str());
    let recognized = collect_skills(skill_loads, prefix.as_str(), SkillList::Recognized);
    let loaded = collect_skills(skill_loads, prefix.as_str(), SkillList::Loaded);
    let ignored = collect_skills(skill_loads, prefix.as_str(), SkillList::Ignored);
    let (docs, mems, obs, dq, mq) = tally_knowledge(knowledge, prefix.as_str());
    let (llm, input, creation, read, missing) = tally_steps(steps);
    let unique = tool_counts.len();
    DeliverySummary {
        turn_id,
        status,
        primary_model: copy_model(model),
        llm_request_count: llm,
        input_tokens: input,
        cache_creation_input_tokens: creation,
        cache_read_input_tokens: read,
        token_stats_partial: missing,
        tool_call_count: calls,
        unique_tool_count: unique,
        failed_tool_count: failed,
        tool_counts,
        recognized_skill_ids: recognized,
        loaded_skill_ids: loaded,
        ignored_skill_ids: ignored,
        document_search_count: docs,
        memory_search_count: mems,
        observation_search_count: obs,
        document_queries: dedupe(dq),
        memory_queries: dedupe(mq),
        changed_files: to_changed_files(files),
    }
}

} // verus!
