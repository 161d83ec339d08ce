//! What a step learned from the document index and the memory store: the
//! one-line summaries of its knowledge lane and the lines of their detail
//! overlays.
use vstd::prelude::*;

use crate::chars::{
    cat, dec, join, join_strings, opt_line, push_num, push_opt_line, push_str, push_text, push_texts, str_eq, trim,
    views,
};
use crate::app::App;
use crate::context_supervision::DocumentHit;
use crate::report::truncate_preview;
use crate::text::preview_of;

verus! {

/// How ready a knowledge source was when a step searched it.
#[derive(Debug, Clone, Copy, PartialEq, Eq, Structural)]
pub enum SupervisionReadiness {
    Ready,
    Degraded,
    Uninitialized,
    Failed,
}

impl SupervisionReadiness {
    pub open spec fn spec_name(self) -> Seq<char> {
        match self {
            SupervisionReadiness::Ready => "ready"@,
            SupervisionReadiness::Degraded => "degraded"@,
            SupervisionReadiness::Uninitialized => "uninitialized"@,
            SupervisionReadiness::Failed => "failed"@,
        }
    }

    pub fn as_str(self) -> (r: &'static str)
        ensures
            r@ == self.spec_name(),
    {
        match self {
            SupervisionReadiness::Ready => "ready",
            SupervisionReadiness::Degraded => "degraded",
            SupervisionReadiness::Uninitialized => "uninitialized",
            SupervisionReadiness::Failed => "failed",
        }
    }
}

/// How current a recalled observation is.
#[derive(Debug, Clone, Copy, PartialEq, Eq, Structural)]
pub enum ObservationFreshness {
    Fresh,
    Stale,
    Superseded,
}

impl ObservationFreshness {
    pub open spec fn spec_name(self) -> Seq<char> {
        match self {
            ObservationFreshness::Fresh => "fresh"@,
            ObservationFreshness::Stale => "stale"@,
            ObservationFreshness::Superseded => "superseded"@,
        }
    }

    pub fn as_str(self) -> (r: &'static str)
        ensures
            r@ == self.spec_name(),
    {
        match self {
            ObservationFreshness::Fresh => "fresh",
            ObservationFreshness::Stale => "stale",
            ObservationFreshness::Superseded => "superseded",
        }
    }
}

/// A step summary that memory selected for a step.
#[derive(Debug, Clone, PartialEq, Eq)]
pub struct MemoryHitItem {
    pub workflow_id: String,
    pub step_id: String,
    pub title: String,
    pub preview: String,
}

/// An archived memory that a query found.
#[derive(Debug, Clone, PartialEq, Eq)]
pub struct MemoryQueryHitItem {
    pub profile: String,
    pub title: String,
    pub preview: String,
}

/// An observation that a query recalled.
#[derive(Debug, Clone, PartialEq, Eq)]
pub struct ObservationRecallHitItem {
    pub id: String,
    pub title: String,
    pub summary: String,
    pub freshness: ObservationFreshness,
}

/// The document search of a step.
#[derive(Debug, Clone, PartialEq, Eq)]
pub struct ResponseDocumentKnowledge {
    pub raw_query: String,
    pub planned_queries: Vec<String>,
    pub rewrite_reason: Option<String>,
    pub rewrite_queries: Vec<String>,
    pub recovery_path: Option<String>,
    pub readiness: SupervisionReadiness,
    pub query: String,
    pub mode: String,
    pub degraded_from: Option<String>,
    pub reason: Option<String>,
    pub result_count: u64,
    pub top_hits: Vec<DocumentHit>,
}

/// The memory search of a step.
#[derive(Debug, Clone, PartialEq, Eq)]
pub struct ResponseMemoryKnowledge {
    pub raw_query: Option<String>,
    pub planned_queries: Vec<String>,
    pub rewrite_reason: Option<String>,
    pub rewrite_queries: Vec<String>,
    pub recovery_path: Option<String>,
    pub memory_query: Option<String>,
    pub observation_query: Option<String>,
    pub selected_summary_count: u64,
    pub top_selected_summaries: Vec<MemoryHitItem>,
    pub memory_hit_count: u64,
    pub observation_hit_count: u64,
    pub top_memory_hits: Vec<MemoryQueryHitItem>,
    pub top_observations: Vec<ObservationRecallHitItem>,
}

/// The knowledge searches of the response section `section_id`.
#[derive(Debug, Clone, PartialEq, Eq)]
pub struct StepKnowledgeSummary {
    pub section_id: String,
    pub document: Option<ResponseDocumentKnowledge>,
    pub memory: Option<ResponseMemoryKnowledge>,
}

// ---------------------------------------------------------------------------
// One-line summaries
// ---------------------------------------------------------------------------

pub open spec fn bullet(text: Seq<char>) -> Seq<char> {
    "  ·  "@ + preview_of(text, 28)
}

/// The document line of a knowledge lane: readiness, hit count, the query
/// (or the first planned one), then the reason (or the first hit).
pub open spec fn spec_document_summary(s: ResponseDocumentKnowledge) -> Seq<char> {
    "document  ["@ + s.readiness.spec_name() + "]  "@ + dec(s.result_count as nat) + " hits"@ + (if trim(s.query@).len()
        > 0 {
        bullet(s.query@)
    } else if s.planned_queries@.len() > 0 {
        bullet(s.planned_queries@[0]@)
    } else {
        Seq::empty()
    }) + match s.reason {
        Some(r) => "  ·  "@ + r@,
        None => if s.top_hits@.len() > 0 {
            bullet(s.top_hits@[0].path@)
        } else {
            Seq::empty()
        },
    }
}

fn push_bullet(s: &mut String, text: &str)
    ensures
        final(s)@ == old(s)@ + bullet(text@),
{
    push_str(s, "  ·  ");
    push_str(s, truncate_preview(text, 28).as_str());
}

pub fn format_document_knowledge_summary(summary: &ResponseDocumentKnowledge) -> (r: String)
    ensures
        r@ == spec_document_summary(*summary),
{
    let mut text = "document  [".to_owned();
    push_str(&mut text, summary.readiness.as_str());
    push_str(&mut text, "]  ");
    push_num(&mut text, summary.result_count);
    push_str(&mut text, " hits");
    let ghost a = text@;
    if !crate::chars::is_blank(summary.query.as_str()) {
        push_bullet(&mut text, summary.query.as_str());
    } else if summary.planned_queries.len() > 0 {
        push_bullet(&mut text, summary.planned_queries[0].as_str());
    }
    let ghost b = text@;
    match &summary.reason {
        Some(reason) => {
            push_str(&mut text, "  ·  ");
            push_str(&mut text, reason.as_str());
        },
        None => {
            if summary.top_hits.len() > 0 {
                push_bullet(&mut text, summary.top_hits[0].path.as_str());
            }
        },
    }
    proof {
        assert(b =~= a + (if trim(summary.query@).len() > 0 {
            bullet(summary.query@)
        } else if summary.planned_queries@.len() > 0 {
            bullet(summary.planned_queries@[0]@)
        } else {
            Seq::empty()
        }));
    }
    text
}

/// The memory line of a knowledge lane: the three counts, then the first of
/// the planned queries, the memory query, the observation query and the
/// first selected summary's title.
pub open spec fn spec_memory_summary(s: ResponseMemoryKnowledge) -> Seq<char> {
    "memory  "@ + dec(s.selected_summary_count as nat) + " selected  ·  "@ + dec(s.memory_hit_count as nat)
        + " archived  ·  "@ + dec(s.observation_hit_count as nat) + " observations"@ + if s.planned_queries@.len()
        > 0 {
        bullet(s.planned_queries@[0]@)
    } else if s.memory_query.is_some() {
        bullet(s.memory_query.unwrap()@)
    } else if s.observation_query.is_some() {
        bullet(s.observation_query.unwrap()@)
    } else if s.top_selected_summaries@.len() > 0 {
        bullet(s.top_selected_summaries@[0].title@)
    } else {
        Seq::empty()
    }
}

pub fn format_memory_knowledge_summary(summary: &ResponseMemoryKnowledge) -> (r: String)
    ensures
        r@ == spec_memory_summary(*summary),
{
    let mut text = "memory  ".to_owned();
    push_num(&mut text, summary.selected_summary_count);
    push_str(&mut text, " selected  ·  ");
    push_num(&mut text, summary.memory_hit_count);
    push_str(&mut text, " archived  ·  ");
    push_num(&mut text, summary.observation_hit_count);
    push_str(&mut text, " observations");
    if summary.planned_queries.len() > 0 {
        push_bullet(&mut text, summary.planned_queries[0].as_str());
    } else if let Some(query) = &summary.memory_query {
        push_bullet(&mut text, query.as_str());
    } else if let Some(query) = &summary.observation_query {
        push_bullet(&mut text, query.as_str());
    } else if summary.top_selected_summaries.len() > 0 {
        push_bullet(&mut text, summary.top_selected_summaries[0].title.as_str());
    }
    text
}

// ---------------------------------------------------------------------------
// Detail overlays
// ---------------------------------------------------------------------------

/// `label` and the queries joined by ` | `, when there are any.
pub open spec fn queries_line(label: Seq<char>, queries: Seq<String>) -> Seq<Seq<char>> {
    if queries.len() > 0 {
        seq![label + join(views(queries), " | "@)]
    } else {
        Seq::empty()
    }
}

fn push_queries_line(v: &mut Vec<String>, label: &str, queries: &Vec<String>)
    ensures
        views(final(v)@) == views(old(v)@) + queries_line(label@, queries@),
{
    if queries.len() > 0 {
        push_text(v, cat(label, join_strings(queries, " | ").as_str()));
    }
    proof {
        assert(views(v@) =~= views(old(v)@) + queries_line(label@, queries@));
    }
}

/// `label` and the text, when it is not blank.
pub open spec fn text_line(label: Seq<char>, text: Seq<char>) -> Seq<Seq<char>> {
    if trim(text).len() > 0 {
        seq![label + text]
    } else {
        Seq::empty()
    }
}

fn push_text_line(v: &mut Vec<String>, label: &str, text: &str)
    ensures
        views(final(v)@) == views(old(v)@) + text_line(label@, text@),
{
    if !crate::chars::is_blank(text) {
        push_text(v, cat(label, text));
    }
    proof {
        assert(views(v@) =~= views(old(v)@) + text_line(label@, text@));
    }
}

/// A hit: its heading, then its preview indented when it is not blank.
pub open spec fn hit_lines(heading: Seq<char>, preview: Seq<char>) -> Seq<Seq<char>> {
    seq!["- "@ + heading] + text_line("  "@, preview)
}

/// A titled block of hits after an empty line, none when there are none.
pub open spec fn hits_block(title: Seq<char>, hits: Seq<Seq<Seq<char>>>) -> Seq<Seq<char>> {
    if hits.len() > 0 {
        seq![Seq::empty(), title] + hits.flatten()
    } else {
        Seq::empty()
    }
}

pub open spec fn document_hit_lines(h: DocumentHit) -> Seq<Seq<char>> {
    hit_lines(h.path@, h.preview@)
}

pub open spec fn spec_document_detail(s: ResponseDocumentKnowledge) -> Seq<Seq<char>> {
    seq!["readiness: "@ + s.readiness.spec_name()] + text_line("raw query: "@, s.raw_query@) + queries_line(
        "planned queries: "@,
        s.planned_queries@,
    ) + opt_line("rewrite reason: "@, s.rewrite_reason) + queries_line("rewrite queries: "@, s.rewrite_queries@)
        + opt_line("recovery path: "@, s.recovery_path) + text_line("query: "@, s.query@) + seq![
        "mode: "@ + s.mode@,
    ] + opt_line("degraded from: "@, s.degraded_from) + seq!["result count: "@ + dec(s.result_count as nat)]
        + opt_line("reason: "@, s.reason) + hits_block(
        "top hits:"@,
        s.top_hits@.map_values(|h: DocumentHit| document_hit_lines(h)),
    )
}

fn push_hit(v: &mut Vec<String>, heading: String, preview: &str)
    ensures
        views(final(v)@) == views(old(v)@) + hit_lines(heading@, preview@),
{
    push_text(v, cat("- ", heading.as_str()));
    push_text_line(v, "  ", preview);
    proof {
        assert(views(v@) =~= views(old(v)@) + hit_lines(heading@, preview@));
    }
}

fn document_hits_block(hits: &Vec<DocumentHit>) -> (r: Vec<String>)
    ensures
        views(r@) == hits_block("top hits:"@, hits@.map_values(|h: DocumentHit| document_hit_lines(h))),
{
    let mut out: Vec<String> = Vec::new();
    if hits.len() == 0 {
        proof {
            assert(views(out@) =~= Seq::<Seq<char>>::empty());
        }
        return out;
    }
    push_text(&mut out, String::new());
    push_text(&mut out, "top hits:".to_owned());
    let ghost head = views(out@);
    let mut i: usize = 0;
    while i < hits.len()
        invariant
            i <= hits@.len(),
            views(out@) == head + hits@.take(i as int).map_values(|h: DocumentHit| document_hit_lines(h)).flatten(),
        decreases hits.len() - i,
    {
        let h = &hits[i];
        push_hit(&mut out, h.path.clone(), h.preview.as_str());
        proof {
            let f = |h: DocumentHit| document_hit_lines(h);
            assert(hits@.take(i + 1).map_values(f) =~= hits@.take(i as int).map_values(f).push(f(hits@[i as int])));
            hits@.take(i as int).map_values(f).lemma_flatten_push(f(hits@[i as int]));
        }
        i = i + 1;
    }
    proof {
        assert(hits@.take(hits@.len() as int) =~= hits@);
        assert(head =~= seq![Seq::<char>::empty(), "top hits:"@]);
    }
    out
}

pub fn build_document_knowledge_detail_lines(summary: &ResponseDocumentKnowledge) -> (r: Vec<String>)
    ensures
        views(r@) == spec_document_detail(*summary),
{
    let mut lines: Vec<String> = Vec::new();
    push_text(&mut lines, cat("readiness: ", summary.readiness.as_str()));
    push_text_line(&mut lines, "raw query: ", summary.raw_query.as_str());
    push_queries_line(&mut lines, "planned queries: ", &summary.planned_queries);
    push_opt_line(&mut lines, "rewrite reason: ", &summary.rewrite_reason);
    push_queries_line(&mut lines, "rewrite queries: ", &summary.rewrite_queries);
    push_opt_line(&mut lines, "recovery path: ", &summary.recovery_path);
    push_text_line(&mut lines, "query: ", summary.query.as_str());
    push_text(&mut lines, cat("mode: ", summary.mode.as_str()));
    push_opt_line(&mut lines, "degraded from: ", &summary.degraded_from);
    let mut count = "result count: ".to_owned();
    push_num(&mut count, summary.result_count);
    push_text(&mut lines, count);
    push_opt_line(&mut lines, "reason: ", &summary.reason);
    let ghost before_hits = views(lines@);
    push_texts(&mut lines, document_hits_block(&summary.top_hits));
    proof {
        let s = *summary;
        assert(before_hits =~= seq!["readiness: "@ + s.readiness.spec_name()] + text_line("raw query: "@, s.raw_query@)
            + queries_line("planned queries: "@, s.planned_queries@) + opt_line("rewrite reason: "@, s.rewrite_reason)
            + queries_line("rewrite queries: "@, s.rewrite_queries@) + opt_line("recovery path: "@, s.recovery_path)
            + text_line("query: "@, s.query@) + seq!["mode: "@ + s.mode@] + opt_line("degraded from: "@, s.degraded_from)
            + seq!["result count: "@ + dec(s.result_count as nat)] + opt_line("reason: "@, s.reason));
    }
    lines
}

pub open spec fn selected_summary_lines(h: MemoryHitItem) -> Seq<Seq<char>> {
    hit_lines(h.workflow_id@ + ":"@ + h.step_id@ + "  "@ + h.title@, h.preview@)
}

pub open spec fn memory_hit_lines(h: MemoryQueryHitItem) -> Seq<Seq<char>> {
    hit_lines("["@ + h.profile@ + "] "@ + h.title@, h.preview@)
}

pub open spec fn observation_lines(h: ObservationRecallHitItem) -> Seq<Seq<char>> {
    hit_lines(h.title@ + " ["@ + h.freshness.spec_name() + "]"@, h.summary@)
}

/// The raw query of a memory search, when there is one and it is not blank.
pub open spec fn raw_query_line(q: Option<String>) -> Seq<Seq<char>> {
    match q {
        Some(t) => text_line("raw query: "@, t@),
        None => Seq::empty(),
    }
}

pub open spec fn spec_memory_detail(s: ResponseMemoryKnowledge) -> Seq<Seq<char>> {
    seq!["selected summaries: "@ + dec(s.selected_summary_count as nat)] + raw_query_line(s.raw_query) + queries_line(
        "planned queries: "@,
        s.planned_queries@,
    ) + opt_line("rewrite reason: "@, s.rewrite_reason) + queries_line("rewrite queries: "@, s.rewrite_queries@)
        + opt_line("recovery path: "@, s.recovery_path) + opt_line("memory query: "@, s.memory_query) + opt_line(
        "observation query: "@,
        s.observation_query,
    ) + seq![
        "memory hit count: "@ + dec(s.memory_hit_count as nat),
        "observation hit count: "@ + dec(s.observation_hit_count as nat),
    ] + hits_block(
        "selected summaries:"@,
        s.top_selected_summaries@.map_values(|h: MemoryHitItem| selected_summary_lines(h)),
    ) + hits_block("archived memory hits:"@, s.top_memory_hits@.map_values(|h: MemoryQueryHitItem| memory_hit_lines(h)))
        + hits_block(
        "observations:"@,
        s.top_observations@.map_values(|h: ObservationRecallHitItem| observation_lines(h)),
    )
}

fn selected_block(hits: &Vec<MemoryHitItem>) -> (r: Vec<String>)
    ensures
        views(r@) == hits_block("selected summaries:"@, hits@.map_values(|h: MemoryHitItem| selected_summary_lines(h))),
{
    let mut out: Vec<String> = Vec::new();
    if hits.len() == 0 {
        proof {
            assert(views(out@) =~= Seq::<Seq<char>>::empty());
        }
        return out;
    }
    push_text(&mut out, String::new());
    push_text(&mut out, "selected summaries:".to_owned());
    let ghost head = views(out@);
    let mut i: usize = 0;
    while i < hits.len()
        invariant
            i <= hits@.len(),
            views(out@) == head + hits@.take(i as int).map_values(|h: MemoryHitItem| selected_summary_lines(h)).flatten(),
        decreases hits.len() - i,
    {
        let h = &hits[i];
        let mut heading = h.workflow_id.clone();
        push_str(&mut heading, ":");
        push_str(&mut heading, h.step_id.as_str());
        push_str(&mut heading, "  ");
        push_str(&mut heading, h.title.as_str());
        push_hit(&mut out, heading, h.preview.as_str());
        proof {
            let f = |h: MemoryHitItem| selected_summary_lines(h);
            assert(hits@.take(i + 1).map_values(f) =~= hits@.take(i as int).map_values(f).push(f(hits@[i as int])));
            hits@.take(i as int).map_values(f).lemma_flatten_push(f(hits@[i as int]));
        }
        i = i + 1;
    }
    proof {
        assert(hits@.take(hits@.len() as int) =~= hits@);
        assert(head =~= seq![Seq::<char>::empty(), "selected summaries:"@]);
    }
    out
}

fn memory_hits_block(hits: &Vec<MemoryQueryHitItem>) -> (r: Vec<String>)
    ensures
        views(r@) == hits_block("archived memory hits:"@, hits@.map_values(|h: MemoryQueryHitItem| memory_hit_lines(h))),
{
    let mut out: Vec<String> = Vec::new();
    if hits.len() == 0 {
        proof {
            assert(views(out@) =~= Seq::<Seq<char>>::empty());
        }
        return out;
    }
    push_text(&mut out, String::new());
    push_text(&mut out, "archived memory hits:".to_owned());
    let ghost head = views(out@);
    let mut i: usize = 0;
    while i < hits.len()
        invariant
            i <= hits@.len(),
            views(out@) == head + hits@.take(i as int).map_values(|h: MemoryQueryHitItem| memory_hit_lines(h)).flatten(),
        decreases hits.len() - i,
    {
        let h = &hits[i];
        let mut heading = "[".to_owned();
        push_str(&mut heading, h.profile.as_str());
        push_str(&mut heading, "] ");
        push_str(&mut heading, h.title.as_str());
        push_hit(&mut out, heading, h.preview.as_str());
        proof {
            let f = |h: MemoryQueryHitItem| memory_hit_lines(h);
            assert(hits@.take(i + 1).map_values(f) =~= hits@.take(i as int).map_values(f).push(f(hits@[i as int])));
            hits@.take(i as int).map_values(f).lemma_flatten_push(f(hits@[i as int]));
        }
        i = i + 1;
    }
    proof {
        assert(hits@.take(hits@.len() as int) =~= hits@);
        assert(head =~= seq![Seq::<char>::empty(), "archived memory hits:"@]);
    }
    out
}

fn observations_block(hits: &Vec<ObservationRecallHitItem>) -> (r: Vec<String>)
    ensures
        views(r@) == hits_block("observations:"@, hits@.map_values(|h: ObservationRecallHitItem| observation_lines(h))),
{
    let mut out: Vec<String> = Vec::new();
    if hits.len() == 0 {
        proof {
            assert(views(out@) =~= Seq::<Seq<char>>::empty());
        }
        return out;
    }
    push_text(&mut out, String::new());
    push_text(&mut out, "observations:".to_owned());
    let ghost head = views(out@);
    let mut i: usize = 0;
    while i < hits.len()
        invariant
            i <= hits@.len(),
            views(out@) == head + hits@.take(i as int).map_values(|h: ObservationRecallHitItem| observation_lines(h)).flatten(),
        decreases hits.len() - i,
    {
        let h = &hits[i];
        let mut heading = h.title.clone();
        push_str(&mut heading, " [");
        push_str(&mut heading, h.freshness.as_str());
        push_str(&mut heading, "]");
        push_hit(&mut out, heading, h.summary.as_str());
        proof {
            let f = |h: ObservationRecallHitItem| observation_lines(h);
            assert(hits@.take(i + 1).map_values(f) =~= hits@.take(i as int).map_values(f).push(f(hits@[i as int])));
            hits@.take(i as int).map_values(f).lemma_flatten_push(f(hits@[i as int]));
        }
        i = i + 1;
    }
    proof {
        assert(hits@.take(hits@.len() as int) =~= hits@);
        assert(head =~= seq![Seq::<char>::empty(), "observations:"@]);
    }
    out
}

pub fn build_memory_knowledge_detail_lines(summary: &ResponseMemoryKnowledge) -> (r: Vec<String>)
    ensures
        views(r@) == spec_memory_detail(*summary),
{
    let mut lines: Vec<String> = Vec::new();
    let mut first = "selected summaries: ".to_owned();
    push_num(&mut first, summary.selected_summary_count);
    push_text(&mut lines, first);
    match &summary.raw_query {
        Some(q) => push_text_line(&mut lines, "raw query: ", q.as_str()),
        None => {},
    }
    proof {
        assert(views(lines@) =~= seq!["selected summaries: "@ + dec(summary.selected_summary_count as nat)]
            + raw_query_line(summary.raw_query));
    }
    push_queries_line(&mut lines, "planned queries: ", &summary.planned_queries);
    push_opt_line(&mut lines, "rewrite reason: ", &summary.rewrite_reason);
    push_queries_line(&mut lines, "rewrite queries: ", &summary.rewrite_queries);
    push_opt_line(&mut lines, "recovery path: ", &summary.recovery_path);
    push_opt_line(&mut lines, "memory query: ", &summary.memory_query);
    push_opt_line(&mut lines, "observation query: ", &summary.observation_query);
    let mut hits = "memory hit count: ".to_owned();
    push_num(&mut hits, summary.memory_hit_count);
    push_text(&mut lines, hits);
    let mut obs = "observation hit count: ".to_owned();
    push_num(&mut obs, summary.observation_hit_count);
    push_text(&mut lines, obs);
    let ghost counts = views(lines@);
    push_texts(&mut lines, selected_block(&summary.top_selected_summaries));
    push_texts(&mut lines, memory_hits_block(&summary.top_memory_hits));
    push_texts(&mut lines, observations_block(&summary.top_observations));
    proof {
        let s = *summary;
        assert(counts =~= seq!["selected summaries: "@ + dec(s.selected_summary_count as nat)] + raw_query_line(s.raw_query)
            + queries_line("planned queries: "@, s.planned_queries@) + opt_line("rewrite reason: "@, s.rewrite_reason)
            + queries_line("rewrite queries: "@, s.rewrite_queries@) + opt_line("recovery path: "@, s.recovery_path)
            + opt_line("memory query: "@, s.memory_query) + opt_line("observation query: "@, s.observation_query) + seq![
            "memory hit count: "@ + dec(s.memory_hit_count as nat),
            "observation hit count: "@ + dec(s.observation_hit_count as nat),
        ]);
    }
    lines
}

// ---------------------------------------------------------------------------
// Looking a step's searches up
// ---------------------------------------------------------------------------

/// The first knowledge summary at or after `i` of section `id`, or -1.
pub open spec fn knowledge_position_from(s: Seq<StepKnowledgeSummary>, id: Seq<char>, i: int) -> int
    decreases s.len() - i,
{
    if i < 0 || i >= s.len() {
        -1
    } else if s[i].section_id@ == id {
        i
    } else {
        knowledge_position_from(s, id, i + 1)
    }
}

/// The knowledge summary of section `id`, or -1.
pub open spec fn knowledge_position(s: Seq<StepKnowledgeSummary>, id: Seq<char>) -> int {
    knowledge_position_from(s, id, 0)
}

pub proof fn lemma_knowledge_position(s: Seq<StepKnowledgeSummary>, id: Seq<char>, i: int)
    requires
        0 <= i,
    ensures
        knowledge_position_from(s, id, i) == -1 || (i <= knowledge_position_from(s, id, i) < s.len()
            && s[knowledge_position_from(s, id, i)].section_id@ == id),
    decreases s.len() - i,
{
    if i < s.len() && s[i].section_id@ != id {
        lemma_knowledge_position(s, id, i + 1);
    }
}

/// The knowledge summary of section `id`, if one was recorded.
pub open spec fn knowledge_of(s: Seq<StepKnowledgeSummary>, id: Seq<char>) -> Option<StepKnowledgeSummary> {
    let k = knowledge_position(s, id);
    if k >= 0 {
        Some(s[k])
    } else {
        None
    }
}

impl App {
    pub(crate) fn find_knowledge(&self, id: &str) -> (r: Option<usize>)
        ensures
            match r {
                Some(k) => k as int == knowledge_position(self.step_knowledge_summaries@, id@) && k
                    < self.step_knowledge_summaries@.len(),
                None => knowledge_position(self.step_knowledge_summaries@, id@) == -1,
            },
    {
        proof {
            lemma_knowledge_position(self.step_knowledge_summaries@, id@, 0);
        }
        let mut i: usize = 0;
        while i < self.step_knowledge_summaries.len()
            invariant
                i <= self.step_knowledge_summaries@.len(),
                knowledge_position(self.step_knowledge_summaries@, id@) == knowledge_position_from(
                    self.step_knowledge_summaries@,
                    id@,
                    i as int,
                ),
            decreases self.step_knowledge_summaries.len() - i,
        {
            if str_eq(self.step_knowledge_summaries[i].section_id.as_str(), id) {
                return Some(i);
            }
            i = i + 1;
        }
        None
    }

    /// Opens the detail of the document search of section `section_id`,
    /// when that section has one.
    pub fn open_document_knowledge_detail(&mut self, section_id: &str) -> (r: bool)
        ensures
            match knowledge_of(old(self).step_knowledge_summaries@, section_id@) {
                Some(StepKnowledgeSummary { document: Some(d), .. }) => r && App::detail_opened(
                    *old(self),
                    *final(self),
                    " Document Knowledge "@,
                    spec_document_detail(d),
                ),
                _ => !r && *final(self) == *old(self),
            },
    {
        let k = match self.find_knowledge(section_id) {
            Some(k) => k,
            None => return false,
        };
        let lines = match &self.step_knowledge_summaries[k].document {
            Some(d) => build_document_knowledge_detail_lines(d),
            None => return false,
        };
        self.open_detail_overlay(" Document Knowledge ", lines);
        true
    }

    /// Opens the detail of the memory search of section `section_id`, when
    /// that section has one.
    pub fn open_memory_knowledge_detail(&mut self, section_id: &str) -> (r: bool)
        ensures
            match knowledge_of(old(self).step_knowledge_summaries@, section_id@) {
                Some(StepKnowledgeSummary { memory: Some(m), .. }) => r && App::detail_opened(
                    *old(self),
                    *final(self),
                    " Memory Knowledge "@,
                    spec_memory_detail(m),
                ),
                _ => !r && *final(self) == *old(self),
            },
    {
        let k = match self.find_knowledge(section_id) {
            Some(k) => k,
            None => return false,
        };
        let lines = match &self.step_knowledge_summaries[k].memory {
            Some(m) => build_memory_knowledge_detail_lines(m),
            None => return false,
        };
        self.open_detail_overlay(" Memory Knowledge ", lines);
        true
    }
}

} // verus!
