//! The knowledge and memory supervision panels: what the document index and
//! the memory store report, as lines of text.
use vstd::prelude::*;

use crate::app::{knowledge_placeholder, memory_placeholder, App};
use crate::chars::{cat, dec, dec_string, join, join_strings, push_num, push_str, views};
use crate::supervision::{dashboard_max, format_kv_counts, gauge_line, hits_dashboard_lines, sat_mul64, spec_kv_counts};

verus! {

#[derive(Debug, Clone, Copy, PartialEq, Eq, Structural)]
pub enum HealthScore {
    Good,
    NeedsAttention,
    Critical,
}

#[derive(Debug, Clone, Copy, PartialEq, Eq, Structural)]
pub enum DocumentHealthStatus {
    NeverChecked,
    Good,
    NeedsAttention,
    Critical,
    Failed,
}

impl DocumentHealthStatus {
    pub open spec fn spec_name(self) -> Seq<char> {
        match self {
            DocumentHealthStatus::NeverChecked => "never_checked"@,
            DocumentHealthStatus::Good => "good"@,
            DocumentHealthStatus::NeedsAttention => "needs_attention"@,
            DocumentHealthStatus::Critical => "critical"@,
            DocumentHealthStatus::Failed => "failed"@,
        }
    }

    pub fn as_str(self) -> (r: &'static str)
        ensures
            r@ == self.spec_name(),
    {
        match self {
            DocumentHealthStatus::NeverChecked => "never_checked",
            DocumentHealthStatus::Good => "good",
            DocumentHealthStatus::NeedsAttention => "needs_attention",
            DocumentHealthStatus::Critical => "critical",
            DocumentHealthStatus::Failed => "failed",
        }
    }
}

/// How often one operator used the document index.
#[derive(Debug, Clone, PartialEq, Eq)]
pub struct OperatorUsage {
    pub operator: String,
    pub source: String,
    pub count: u64,
    pub last_used_at: Option<u64>,
}

/// Something the document index did lately.
#[derive(Debug, Clone, PartialEq, Eq)]
pub struct SupervisionActivity {
    pub label: String,
    pub at: u64,
    pub detail: String,
}

#[derive(Debug, Clone, PartialEq, Eq)]
pub struct DocumentHit {
    pub path: String,
    pub preview: String,
}

/// The hits of the last document query.
#[derive(Debug, Clone, PartialEq, Eq)]
pub struct DocumentHitSummary {
    pub query: String,
    pub result_count: u64,
    pub mode: String,
    pub degraded_from: Option<String>,
    pub top_hits: Vec<DocumentHit>,
}

/// A version of the document store.
#[derive(Debug, Clone, PartialEq, Eq)]
pub struct DocumentStoreVersion {
    pub version_id: String,
    pub manifest_revision: u64,
    pub tantivy_revision: u64,
    pub lance_revision: Option<u64>,
    pub storage_path: String,
}

#[derive(Debug, Clone, PartialEq, Eq)]
pub struct DocumentTotals {
    pub total_files_indexed: u64,
    pub total_chunks: u64,
    pub total_embeddings: u64,
    pub lance_db_size_bytes: u64,
    pub tantivy_index_size_bytes: u64,
    pub index_staleness_seconds: u64,
    pub last_health_check: Option<u64>,
    pub governance_health: Option<HealthScore>,
}

/// What the document index reports. `readiness` is the readiness label.
#[derive(Debug, Clone, PartialEq, Eq)]
pub struct DocumentSupervisionSnapshot {
    pub enabled: bool,
    pub readiness: String,
    pub totals: DocumentTotals,
    pub health_status: DocumentHealthStatus,
    pub active_version: Option<DocumentStoreVersion>,
    pub pending_version: Option<DocumentStoreVersion>,
    pub last_promotion_error: Option<String>,
    pub operator_usage: Vec<OperatorUsage>,
    pub recent_activity: Vec<SupervisionActivity>,
    pub current_hits: Option<DocumentHitSummary>,
}

#[derive(Debug, Clone, PartialEq, Eq)]
pub struct MemoryTotals {
    pub total_turns_archived: u64,
    pub compactions_triggered: u64,
    pub current_summary_count: u64,
    pub current_summary_tokens: u64,
    pub turn_archive_count: u64,
    pub turn_archive_size_bytes: u64,
    pub retention_candidates_accepted: u64,
    pub retention_candidates_dropped: u64,
    pub memory_query_count: u64,
    pub memory_query_hit_mix: Vec<(String, u64)>,
    pub observation_count: u64,
    pub observation_fresh_count: u64,
    pub observation_stale_count: u64,
    pub observation_superseded_count: u64,
    pub observation_corrected_count: u64,
    pub observation_correction_activity: u64,
    pub dropped_candidates_by_profile: Vec<(String, u64)>,
}

#[derive(Debug, Clone, PartialEq, Eq)]
pub struct SummaryHit {
    pub title: String,
    pub workflow_id: String,
    pub step_id: String,
    pub preview: String,
}

/// The step summaries selected for the current step.
#[derive(Debug, Clone, PartialEq, Eq)]
pub struct SelectedSummaries {
    pub selected_count: u64,
    pub total_tokens: u64,
    pub top_hits: Vec<SummaryHit>,
}

#[derive(Debug, Clone, PartialEq, Eq)]
pub struct MemoryHit {
    pub profile: String,
    pub title: String,
    pub preview: String,
}

/// The last query of the memory archive.
#[derive(Debug, Clone, PartialEq, Eq)]
pub struct MemoryQuery {
    pub query: String,
    pub planned_queries: Vec<String>,
    pub rewrite_reason: Option<String>,
    pub rewrite_queries: Vec<String>,
    pub result_count: u64,
    pub hit_mix: Vec<(String, u64)>,
    pub top_hits: Vec<MemoryHit>,
}

/// An observation that came back; `freshness` is its freshness label.
#[derive(Debug, Clone, PartialEq, Eq)]
pub struct ObservationHit {
    pub freshness: String,
    pub title: String,
    pub summary: String,
}

/// The last recall of project observations.
#[derive(Debug, Clone, PartialEq, Eq)]
pub struct ObservationRecall {
    pub query: String,
    pub planned_queries: Vec<String>,
    pub rewrite_reason: Option<String>,
    pub rewrite_queries: Vec<String>,
    pub result_count: u64,
    pub freshness_mix: Vec<(String, u64)>,
    pub top_hits: Vec<ObservationHit>,
}

/// What the memory store reports. `readiness` is the readiness label.
#[derive(Debug, Clone, PartialEq, Eq)]
pub struct MemorySupervisionSnapshot {
    pub enabled: bool,
    pub readiness: String,
    pub totals: MemoryTotals,
    pub current_hits: Option<SelectedSummaries>,
    pub current_query: Option<MemoryQuery>,
    pub current_observations: Option<ObservationRecall>,
}

/// Byte sizes as the panels print them (`12.0 KiB`); the caller renders
/// them from the byte counts of the snapshot.
#[derive(Debug, Clone, PartialEq, Eq)]
pub struct ByteSizeLabels {
    pub lance_db: String,
    pub tantivy_index: String,
    pub turn_archive: String,
}

/// What the document index and the memory store report.
#[derive(Debug, Clone, PartialEq, Eq)]
pub struct ContextSupervisionSnapshot {
    pub document: DocumentSupervisionSnapshot,
    pub memory: MemorySupervisionSnapshot,
    pub sizes: ByteSizeLabels,
}

// ---------------------------------------------------------------------------
// Small pieces
// ---------------------------------------------------------------------------

pub open spec fn on_off(b: bool) -> Seq<char> {
    if b {
        "on"@
    } else {
        "off"@
    }
}

pub open spec fn enabled_label(b: bool) -> Seq<char> {
    if b {
        "enabled"@
    } else {
        "disabled"@
    }
}

pub open spec fn health_label(h: Option<HealthScore>) -> Seq<char> {
    match h {
        Some(HealthScore::Good) => "good"@,
        Some(HealthScore::NeedsAttention) => "needs_attention"@,
        Some(HealthScore::Critical) => "critical"@,
        None => "unknown"@,
    }
}

/// The governance health, or `pending_health_check` before the first check.
pub open spec fn governance_label(status: DocumentHealthStatus, governance: Option<HealthScore>) -> Seq<char> {
    if governance.is_none() && status == DocumentHealthStatus::NeverChecked {
        "pending_health_check"@
    } else {
        health_label(governance)
    }
}

fn governance_label_of(status: DocumentHealthStatus, governance: Option<HealthScore>) -> (r: &'static str)
    ensures
        r@ == governance_label(status, governance),
{
    if governance.is_none() && status == DocumentHealthStatus::NeverChecked {
        return "pending_health_check";
    }
    match governance {
        Some(HealthScore::Good) => "good",
        Some(HealthScore::NeedsAttention) => "needs_attention",
        Some(HealthScore::Critical) => "critical",
        None => "unknown",
    }
}

/// A query as the panels show it: `(empty query)` for an empty one.
pub open spec fn query_label(q: Seq<char>) -> Seq<char> {
    if q.len() == 0 {
        "(empty query)"@
    } else {
        q
    }
}

fn query_label_of(q: &String) -> (r: String)
    ensures
        r@ == query_label(q@),
{
    if crate::chars::chars_of(q.as_str()).len() == 0 {
        "(empty query)".to_owned()
    } else {
        q.clone()
    }
}

/// The first `n` items of `s` (all of them when there are fewer).
pub open spec fn first_n<A>(s: Seq<A>, n: nat) -> Seq<A> {
    if s.len() <= n {
        s
    } else {
        s.take(n as int)
    }
}

/// Two lines for each item, in order.
pub open spec fn pair_lines<A>(s: Seq<A>, f: spec_fn(A) -> (Seq<char>, Seq<char>)) -> Seq<Seq<char>>
    decreases s.len(),
{
    if s.len() == 0 {
        Seq::empty()
    } else {
        pair_lines(s.drop_last(), f) + seq![f(s.last()).0, f(s.last()).1]
    }
}

proof fn lemma_pair_lines_step<A>(s: Seq<A>, i: int, f: spec_fn(A) -> (Seq<char>, Seq<char>))
    requires
        0 <= i < s.len(),
    ensures
        pair_lines(s.take(i + 1), f) == pair_lines(s.take(i), f) + seq![f(s[i]).0, f(s[i]).1],
{
    assert(s.take(i + 1).drop_last() =~= s.take(i));
    assert(s.take(i + 1).last() == s[i]);
}

fn push_line(v: &mut Vec<String>, line: String)
    ensures
        views(final(v)@) == views(old(v)@).push(line@),
{
    v.push(line);
    proof {
        assert(views(v@) =~= views(old(v)@).push(line@));
    }
}

fn push_lines(v: &mut Vec<String>, more: Vec<String>)
    ensures
        views(final(v)@) == views(old(v)@) + views(more@),
{
    let mut more = more;
    let ghost mv = views(more@);
    v.append(&mut more);
    proof {
        assert(views(v@) =~= views(old(v)@) + mv);
    }
}

// ---------------------------------------------------------------------------
// The knowledge panel
// ---------------------------------------------------------------------------

pub open spec fn usage_total(us: Seq<OperatorUsage>) -> nat
    decreases us.len(),
{
    if us.len() == 0 {
        0
    } else {
        usage_total(us.drop_last()) + us.last().count as nat
    }
}

pub open spec fn doc_hit_count(d: DocumentSupervisionSnapshot) -> u64 {
    match d.current_hits {
        Some(h) => h.result_count,
        None => 0,
    }
}

pub open spec fn mem_hit_count(m: MemorySupervisionSnapshot) -> u64 {
    match m.current_query {
        Some(q) => q.result_count,
        None => 0,
    }
}

pub open spec fn obs_hit_count(m: MemorySupervisionSnapshot) -> u64 {
    match m.current_observations {
        Some(o) => o.result_count,
        None => 0,
    }
}

/// The counts of the knowledge panel fit its arithmetic: the hit gauges and
/// the sum of the document queries.
pub open spec fn knowledge_fits(s: ContextSupervisionSnapshot) -> bool {
    let d = doc_hit_count(s.document);
    let m = mem_hit_count(s.memory);
    let o = obs_hit_count(s.memory);
    let max = dashboard_max(d, m, o);
    &&& sat_mul64(d, 6) + max <= u64::MAX
    &&& sat_mul64(m, 6) + max <= u64::MAX
    &&& sat_mul64(o, 6) + max <= u64::MAX
    &&& usage_total(s.document.operator_usage@) <= u64::MAX
}

/// The lead lines of the knowledge panel: the first document, memory and
/// observation hit, where there is one.
pub open spec fn lead_lines(s: ContextSupervisionSnapshot) -> Seq<Seq<char>> {
    let doc = match s.document.current_hits {
        Some(h) => if h.top_hits@.len() > 0 {
            seq!["doc lead: "@ + h.top_hits@[0].path@]
        } else {
            Seq::empty()
        },
        None => Seq::empty(),
    };
    let mem = match s.memory.current_query {
        Some(q) => if q.top_hits@.len() > 0 {
            seq!["mem lead: ["@ + q.top_hits@[0].profile@ + "] "@ + q.top_hits@[0].title@]
        } else {
            Seq::empty()
        },
        None => Seq::empty(),
    };
    let obs = match s.memory.current_observations {
        Some(o) => if o.top_hits@.len() > 0 {
            seq!["obs lead: ["@ + o.top_hits@[0].freshness@ + "] "@ + o.top_hits@[0].title@]
        } else {
            Seq::empty()
        },
        None => Seq::empty(),
    };
    doc + mem + obs
}

/// The status, store and health lines of the knowledge panel.
pub open spec fn knowledge_head(s: ContextSupervisionSnapshot) -> Seq<Seq<char>> {
    let d = s.document;
    let m = s.memory;
    seq![
        "status: doc "@ + on_off(d.enabled) + " ("@ + d.readiness@ + ") · mem "@ + on_off(m.enabled) + " ("@
            + m.readiness@ + ")"@,
        "stores: files="@ + dec(d.totals.total_files_indexed as nat) + " chunks="@ + dec(
            d.totals.total_chunks as nat,
        ) + " turns="@ + dec(m.totals.total_turns_archived as nat) + " summaries="@ + dec(
            m.totals.current_summary_count as nat,
        ),
        "health: doc="@ + d.health_status.spec_name() + " govern="@ + governance_label(
            d.health_status,
            d.totals.governance_health,
        ) + " obs="@ + dec(m.totals.observation_count as nat),
    ]
}

/// The hit gauges of the knowledge panel.
pub open spec fn knowledge_gauges(s: ContextSupervisionSnapshot) -> Seq<Seq<char>> {
    let dh = doc_hit_count(s.document);
    let mh = mem_hit_count(s.memory);
    let oh = obs_hit_count(s.memory);
    let max = dashboard_max(dh, mh, oh);
    seq!["hits:"@, gauge_line("doc"@, dh, max), gauge_line("mem"@, mh, max), gauge_line("obs"@, oh, max)]
}

/// The query counts of the knowledge panel.
pub open spec fn queries_line(s: ContextSupervisionSnapshot) -> Seq<char> {
    "queries: doc="@ + dec(usage_total(s.document.operator_usage@)) + " mem="@ + dec(
        s.memory.totals.memory_query_count as nat,
    ) + " corrections="@ + dec(s.memory.totals.observation_correction_activity as nat)
}

/// The lines of the knowledge panel.
pub open spec fn spec_knowledge_lines(s: ContextSupervisionSnapshot) -> Seq<Seq<char>> {
    knowledge_head(s) + knowledge_gauges(s) + seq![queries_line(s)] + lead_lines(s)
}

fn knowledge_head_of(s: &ContextSupervisionSnapshot) -> (r: Vec<String>)
    ensures
        views(r@) == knowledge_head(*s),
{
    let d = &s.document;
    let m = &s.memory;
    let mut lines: Vec<String> = Vec::new();
    let mut t = "status: doc ".to_owned();
    push_str(&mut t, if d.enabled { "on" } else { "off" });
    push_str(&mut t, " (");
    push_str(&mut t, d.readiness.as_str());
    push_str(&mut t, ") · mem ");
    push_str(&mut t, if m.enabled { "on" } else { "off" });
    push_str(&mut t, " (");
    push_str(&mut t, m.readiness.as_str());
    push_str(&mut t, ")");
    push_line(&mut lines, t);
    let mut t = "stores: files=".to_owned();
    push_num(&mut t, d.totals.total_files_indexed);
    push_str(&mut t, " chunks=");
    push_num(&mut t, d.totals.total_chunks);
    push_str(&mut t, " turns=");
    push_num(&mut t, m.totals.total_turns_archived);
    push_str(&mut t, " summaries=");
    push_num(&mut t, m.totals.current_summary_count);
    push_line(&mut lines, t);
    let mut t = "health: doc=".to_owned();
    push_str(&mut t, d.health_status.as_str());
    push_str(&mut t, " govern=");
    push_str(&mut t, governance_label_of(d.health_status, d.totals.governance_health));
    push_str(&mut t, " obs=");
    push_num(&mut t, m.totals.observation_count);
    push_line(&mut lines, t);
    proof {
        assert(views(lines@) =~= knowledge_head(*s));
    }
    lines
}

fn lead_lines_of(s: &ContextSupervisionSnapshot) -> (r: Vec<String>)
    ensures
        views(r@) == lead_lines(*s),
{
    let mut lines: Vec<String> = Vec::new();
    match &s.document.current_hits {
        Some(h) => {
            if h.top_hits.len() > 0 {
                push_line(&mut lines, cat("doc lead: ", h.top_hits[0].path.as_str()));
            }
        },
        None => {},
    }
    let ghost a = views(lines@);
    match &s.memory.current_query {
        Some(q) => {
            if q.top_hits.len() > 0 {
                let mut t = "mem lead: [".to_owned();
                push_str(&mut t, q.top_hits[0].profile.as_str());
                push_str(&mut t, "] ");
                push_str(&mut t, q.top_hits[0].title.as_str());
                push_line(&mut lines, t);
            }
        },
        None => {},
    }
    let ghost b = views(lines@);
    match &s.memory.current_observations {
        Some(o) => {
            if o.top_hits.len() > 0 {
                let mut t = "obs lead: [".to_owned();
                push_str(&mut t, o.top_hits[0].freshness.as_str());
                push_str(&mut t, "] ");
                push_str(&mut t, o.top_hits[0].title.as_str());
                push_line(&mut lines, t);
            }
        },
        None => {},
    }
    proof {
        assert(views(lines@) =~= lead_lines(*s));
    }
    lines
}

fn usage_sum(us: &Vec<OperatorUsage>) -> (r: u64)
    requires
        usage_total(us@) <= u64::MAX,
    ensures
        r == usage_total(us@),
{
    let mut total: u64 = 0;
    let mut i: usize = 0;
    while i < us.len()
        invariant
            i <= us@.len(),
            total == usage_total(us@.take(i as int)),
            usage_total(us@) <= u64::MAX,
        decreases us.len() - i,
    {
        proof {
            assert(us@.take(i + 1).drop_last() =~= us@.take(i as int));
            lemma_usage_total_prefix(us@, i + 1);
        }
        total = total + us[i].count;
        i = i + 1;
    }
    proof {
        assert(us@.take(us@.len() as int) =~= us@);
    }
    total
}

proof fn lemma_usage_total_prefix(us: Seq<OperatorUsage>, i: int)
    requires
        0 <= i <= us.len(),
    ensures
        usage_total(us.take(i)) <= usage_total(us),
    decreases us.len() - i,
{
    if i < us.len() {
        lemma_usage_total_prefix(us, i + 1);
        assert(us.take(i + 1).drop_last() =~= us.take(i));
    } else {
        assert(us.take(i) =~= us);
    }
}

/// The knowledge panel: status, store sizes, health, hit gauges, query
/// counts and the leading hits.
pub fn build_knowledge_lines(s: &ContextSupervisionSnapshot) -> (r: Vec<String>)
    requires
        knowledge_fits(*s),
    ensures
        views(r@) == spec_knowledge_lines(*s),
{
    let dh: u64 = match &s.document.current_hits {
        Some(h) => h.result_count,
        None => 0,
    };
    let mh: u64 = match &s.memory.current_query {
        Some(q) => q.result_count,
        None => 0,
    };
    let oh: u64 = match &s.memory.current_observations {
        Some(o) => o.result_count,
        None => 0,
    };
    let mut lines = knowledge_head_of(s);
    push_lines(&mut lines, hits_dashboard_lines(dh, mh, oh));
    let mut t = "queries: doc=".to_owned();
    push_num(&mut t, usage_sum(&s.document.operator_usage));
    push_str(&mut t, " mem=");
    push_num(&mut t, s.memory.totals.memory_query_count);
    push_str(&mut t, " corrections=");
    push_num(&mut t, s.memory.totals.observation_correction_activity);
    push_line(&mut lines, t);
    push_lines(&mut lines, lead_lines_of(s));
    proof {
        assert(views(lines@) =~= spec_knowledge_lines(*s));
    }
    lines
}

// ---------------------------------------------------------------------------
// The document lane
// ---------------------------------------------------------------------------

pub open spec fn opt_num(n: Option<u64>, fallback: Seq<char>) -> Seq<char> {
    match n {
        Some(v) => dec(v as nat),
        None => fallback,
    }
}

fn opt_num_of(n: Option<u64>, fallback: &str) -> (r: String)
    ensures
        r@ == opt_num(n, fallback@),
{
    match n {
        Some(v) => dec_string(v),
        None => fallback.to_owned(),
    }
}

/// The status, totals, store and freshness lines of the document lane.
pub open spec fn document_head(d: DocumentSupervisionSnapshot, sizes: ByteSizeLabels) -> Seq<Seq<char>> {
    seq![
        "status: "@ + enabled_label(d.enabled) + " ("@ + d.readiness@ + ")"@,
        "totals: files="@ + dec(d.totals.total_files_indexed as nat) + " chunks="@ + dec(
            d.totals.total_chunks as nat,
        ) + " embeddings="@ + dec(d.totals.total_embeddings as nat),
        "store: lance="@ + sizes.lance_db@ + " tantivy="@ + sizes.tantivy_index@,
        "freshness: staleness="@ + dec(d.totals.index_staleness_seconds as nat) + "s health="@
            + d.health_status.spec_name() + " governance="@ + governance_label(
            d.health_status,
            d.totals.governance_health,
        ),
    ]
}

fn document_head_of(d: &DocumentSupervisionSnapshot, sizes: &ByteSizeLabels) -> (r: Vec<String>)
    ensures
        views(r@) == document_head(*d, *sizes),
{
    let mut lines: Vec<String> = Vec::new();
    let mut t = "status: ".to_owned();
    push_str(&mut t, if d.enabled { "enabled" } else { "disabled" });
    push_str(&mut t, " (");
    push_str(&mut t, d.readiness.as_str());
    push_str(&mut t, ")");
    push_line(&mut lines, t);
    let mut t = "totals: files=".to_owned();
    push_num(&mut t, d.totals.total_files_indexed);
    push_str(&mut t, " chunks=");
    push_num(&mut t, d.totals.total_chunks);
    push_str(&mut t, " embeddings=");
    push_num(&mut t, d.totals.total_embeddings);
    push_line(&mut lines, t);
    let mut t = "store: lance=".to_owned();
    push_str(&mut t, sizes.lance_db.as_str());
    push_str(&mut t, " tantivy=");
    push_str(&mut t, sizes.tantivy_index.as_str());
    push_line(&mut lines, t);
    let mut t = "freshness: staleness=".to_owned();
    push_num(&mut t, d.totals.index_staleness_seconds);
    push_str(&mut t, "s health=");
    push_str(&mut t, d.health_status.as_str());
    push_str(&mut t, " governance=");
    push_str(&mut t, governance_label_of(d.health_status, d.totals.governance_health));
    push_line(&mut lines, t);
    proof {
        assert(views(lines@) =~= document_head(*d, *sizes));
    }
    lines
}

/// The store version lines of the document lane: the active version (or
/// its absence), the pending one, the last promotion error and the last
/// health check.
pub open spec fn version_lines(d: DocumentSupervisionSnapshot) -> Seq<Seq<char>> {
    let active = match d.active_version {
        Some(v) => seq![
            "active: "@ + v.version_id@ + " rev="@ + dec(v.manifest_revision as nat) + " tantivy="@ + dec(
                v.tantivy_revision as nat,
            ) + " lance="@ + opt_num(v.lance_revision, "none"@) + " path="@ + v.storage_path@,
        ],
        None => if d.totals.lance_db_size_bytes > 0 || d.totals.tantivy_index_size_bytes > 0 {
            seq![
                "active: no promoted store version yet"@,
                "store note: disk bytes exist, but no promoted store version is active yet"@,
            ]
        } else {
            seq!["active: no promoted store version yet"@]
        },
    };
    let pending = match d.pending_version {
        Some(v) => seq!["pending: "@ + v.version_id@ + " rev="@ + dec(v.manifest_revision as nat) + " path="@ + v.storage_path@],
        None => Seq::empty(),
    };
    let promotion = match d.last_promotion_error {
        Some(e) => seq!["promotion: "@ + e@],
        None => Seq::empty(),
    };
    let health = match d.totals.last_health_check {
        Some(t) => seq!["health check: last_run="@ + dec(t as nat) + "s"@],
        None => if d.health_status == DocumentHealthStatus::NeverChecked {
            seq!["health check: never run"@]
        } else {
            Seq::empty()
        },
    };
    active + pending + promotion + health
}

fn version_lines_of(d: &DocumentSupervisionSnapshot) -> (r: Vec<String>)
    ensures
        views(r@) == version_lines(*d),
{
    let mut lines: Vec<String> = Vec::new();
    match &d.active_version {
        Some(v) => {
            let mut t = "active: ".to_owned();
            push_str(&mut t, v.version_id.as_str());
            push_str(&mut t, " rev=");
            push_num(&mut t, v.manifest_revision);
            push_str(&mut t, " tantivy=");
            push_num(&mut t, v.tantivy_revision);
            push_str(&mut t, " lance=");
            push_str(&mut t, opt_num_of(v.lance_revision, "none").as_str());
            push_str(&mut t, " path=");
            push_str(&mut t, v.storage_path.as_str());
            push_line(&mut lines, t);
        },
        None => {
            push_line(&mut lines, "active: no promoted store version yet".to_owned());
            if d.totals.lance_db_size_bytes > 0 || d.totals.tantivy_index_size_bytes > 0 {
                push_line(
                    &mut lines,
                    "store note: disk bytes exist, but no promoted store version is active yet".to_owned(),
                );
            }
        },
    }
    let ghost a = views(lines@);
    match &d.pending_version {
        Some(v) => {
            let mut t = "pending: ".to_owned();
            push_str(&mut t, v.version_id.as_str());
            push_str(&mut t, " rev=");
            push_num(&mut t, v.manifest_revision);
            push_str(&mut t, " path=");
            push_str(&mut t, v.storage_path.as_str());
            push_line(&mut lines, t);
        },
        None => {},
    }
    let ghost b = views(lines@);
    match &d.last_promotion_error {
        Some(e) => push_line(&mut lines, cat("promotion: ", e.as_str())),
        None => {},
    }
    let ghost c = views(lines@);
    match d.totals.last_health_check {
        Some(t) => {
            let mut l = "health check: last_run=".to_owned();
            push_num(&mut l, t);
            push_str(&mut l, "s");
            push_line(&mut lines, l);
        },
        None => {
            if d.health_status == DocumentHealthStatus::NeverChecked {
                push_line(&mut lines, "health check: never run".to_owned());
            }
        },
    }
    proof {
        assert(views(lines@) =~= version_lines(*d));
    }
    lines
}

pub open spec fn usage_line(u: OperatorUsage) -> Seq<char> {
    "- "@ + u.operator@ + " via "@ + u.source@ + " count="@ + dec(u.count as nat) + " last="@ + opt_num(
        u.last_used_at,
        "unknown"@,
    )
}

/// The usage lines of the document lane: the first three operators.
pub open spec fn usage_lines(d: DocumentSupervisionSnapshot) -> Seq<Seq<char>> {
    if d.operator_usage@.len() == 0 {
        Seq::empty()
    } else {
        seq!["usage:"@] + first_n(d.operator_usage@, 3).map_values(|u: OperatorUsage| usage_line(u))
    }
}

fn usage_lines_of(d: &DocumentSupervisionSnapshot) -> (r: Vec<String>)
    ensures
        views(r@) == usage_lines(*d),
{
    let mut lines: Vec<String> = Vec::new();
    let us = &d.operator_usage;
    if us.len() == 0 {
        proof {
            assert(views(lines@) =~= usage_lines(*d));
        }
        return lines;
    }
    push_line(&mut lines, "usage:".to_owned());
    let n: usize = if us.len() < 3 { us.len() } else { 3 };
    let ghost f = |u: OperatorUsage| usage_line(u);
    let mut i: usize = 0;
    while i < n
        invariant
            i <= n,
            n <= us@.len(),
            n as nat == first_n(us@, 3).len(),
            views(lines@) == seq!["usage:"@] + us@.take(i as int).map_values(f),
            f == (|u: OperatorUsage| usage_line(u)),
        decreases n - i,
    {
        let u = &us[i];
        let mut t = "- ".to_owned();
        push_str(&mut t, u.operator.as_str());
        push_str(&mut t, " via ");
        push_str(&mut t, u.source.as_str());
        push_str(&mut t, " count=");
        push_num(&mut t, u.count);
        push_str(&mut t, " last=");
        push_str(&mut t, opt_num_of(u.last_used_at, "unknown").as_str());
        push_line(&mut lines, t);
        proof {
            assert(us@.take(i + 1).map_values(f) =~= us@.take(i as int).map_values(f).push(f(us@[i as int])));
        }
        i = i + 1;
    }
    proof {
        assert(us@.take(n as int) =~= first_n(us@, 3));
        assert(views(lines@) =~= usage_lines(*d));
    }
    lines
}

pub open spec fn activity_pair(a: SupervisionActivity) -> (Seq<char>, Seq<char>) {
    ("- "@ + a.label@ + " @"@ + dec(a.at as nat), "  "@ + a.detail@)
}

/// The activity lines of the document lane: the first three activities.
pub open spec fn activity_lines(d: DocumentSupervisionSnapshot) -> Seq<Seq<char>> {
    if d.recent_activity@.len() == 0 {
        Seq::empty()
    } else {
        seq!["activity:"@] + pair_lines(first_n(d.recent_activity@, 3), |a: SupervisionActivity| activity_pair(a))
    }
}

fn activity_lines_of(d: &DocumentSupervisionSnapshot) -> (r: Vec<String>)
    ensures
        views(r@) == activity_lines(*d),
{
    let mut lines: Vec<String> = Vec::new();
    let acts = &d.recent_activity;
    if acts.len() == 0 {
        proof {
            assert(views(lines@) =~= activity_lines(*d));
        }
        return lines;
    }
    push_line(&mut lines, "activity:".to_owned());
    let n: usize = if acts.len() < 3 { acts.len() } else { 3 };
    let ghost f = |a: SupervisionActivity| activity_pair(a);
    let mut i: usize = 0;
    while i < n
        invariant
            i <= n,
            n <= acts@.len(),
            views(lines@) == seq!["activity:"@] + pair_lines(acts@.take(i as int), f),
            f == (|a: SupervisionActivity| activity_pair(a)),
        decreases n - i,
    {
        let a = &acts[i];
        let mut t = "- ".to_owned();
        push_str(&mut t, a.label.as_str());
        push_str(&mut t, " @");
        push_num(&mut t, a.at);
        push_line(&mut lines, t);
        push_line(&mut lines, cat("  ", a.detail.as_str()));
        proof {
            lemma_pair_lines_step(acts@, i as int, f);
        }
        i = i + 1;
    }
    proof {
        assert(acts@.take(n as int) =~= first_n(acts@, 3));
        assert(views(lines@) =~= activity_lines(*d));
    }
    lines
}

pub open spec fn doc_hit_pair(h: DocumentHit) -> (Seq<char>, Seq<char>) {
    ("- "@ + h.path@, "  "@ + h.preview@)
}

/// Whether an operator that queries the document index was used.
pub open spec fn has_document_query_activity(d: DocumentSupervisionSnapshot) -> bool {
    exists|i: int|
        0 <= i < d.operator_usage@.len() && (#[trigger] d.operator_usage@[i].operator@ == "context_recall_planner"@
            || d.operator_usage@[i].operator@ == "search_codebase"@)
}

/// The query lines of the document lane: the last query and its hits, or
/// why there are none.
pub open spec fn document_hit_lines(d: DocumentSupervisionSnapshot) -> Seq<Seq<char>> {
    match d.current_hits {
        Some(h) => seq![
            Seq::<char>::empty(),
            "query: "@ + query_label(h.query@),
            "results: "@ + dec(h.result_count as nat) + " via "@ + h.mode@ + match h.degraded_from {
                Some(m) => " (degraded from "@ + m@ + ")"@,
                None => Seq::<char>::empty(),
            },
        ] + if h.top_hits@.len() == 0 {
            seq!["hits: no matches returned"@]
        } else {
            seq!["hits:"@] + pair_lines(h.top_hits@, |x: DocumentHit| doc_hit_pair(x))
        },
        None => if has_document_query_activity(d) {
            if d.active_version.is_none() {
                seq!["hits: recent document recall attempts ran before any promoted store version was available"@]
            } else {
                seq!["hits: recent document queries returned no captured result snapshot"@]
            }
        } else {
            seq!["hits: no document query has populated supervision yet"@]
        },
    }
}

fn queries_document(us: &Vec<OperatorUsage>) -> (r: bool)
    ensures
        r == exists|i: int|
            0 <= i < us@.len() && (#[trigger] us@[i].operator@ == "context_recall_planner"@ || us@[i].operator@
                == "search_codebase"@),
{
    let mut i: usize = 0;
    while i < us.len()
        invariant
            i <= us@.len(),
            forall|j: int|
                0 <= j < i ==> !(#[trigger] us@[j].operator@ == "context_recall_planner"@ || us@[j].operator@
                    == "search_codebase"@),
        decreases us.len() - i,
    {
        let op = us[i].operator.as_str();
        if crate::chars::str_eq(op, "context_recall_planner") || crate::chars::str_eq(op, "search_codebase") {
            return true;
        }
        i = i + 1;
    }
    false
}

fn document_hit_lines_of(d: &DocumentSupervisionSnapshot) -> (r: Vec<String>)
    ensures
        views(r@) == document_hit_lines(*d),
{
    let mut lines: Vec<String> = Vec::new();
    match &d.current_hits {
        Some(h) => {
            push_line(&mut lines, String::new());
            push_line(&mut lines, cat("query: ", query_label_of(&h.query).as_str()));
            let mut t = "results: ".to_owned();
            push_num(&mut t, h.result_count);
            push_str(&mut t, " via ");
            push_str(&mut t, h.mode.as_str());
            match &h.degraded_from {
                Some(m) => {
                    push_str(&mut t, " (degraded from ");
                    push_str(&mut t, m.as_str());
                    push_str(&mut t, ")");
                },
                None => {
                    proof {
                        assert(t@ + Seq::<char>::empty() =~= t@);
                    }
                },
            }
            push_line(&mut lines, t);
            let ghost head = views(lines@);
            proof {
                assert(head.len() == 3);
                assert(head[0] =~= Seq::<char>::empty());
                assert(head[1] =~= "query: "@ + query_label(h.query@));
                assert(head[2] =~= "results: "@ + dec(h.result_count as nat) + " via "@ + h.mode@ + match h.degraded_from {
                    Some(m) => " (degraded from "@ + m@ + ")"@,
                    None => Seq::<char>::empty(),
                });
                assert(head =~= seq![
                    Seq::<char>::empty(),
                    "query: "@ + query_label(h.query@),
                    "results: "@ + dec(h.result_count as nat) + " via "@ + h.mode@ + match h.degraded_from {
                        Some(m) => " (degraded from "@ + m@ + ")"@,
                        None => Seq::<char>::empty(),
                    },
                ]);
            }
            if h.top_hits.len() == 0 {
                push_line(&mut lines, "hits: no matches returned".to_owned());
            } else {
                push_line(&mut lines, "hits:".to_owned());
                let ghost f = |x: DocumentHit| doc_hit_pair(x);
                let mut i: usize = 0;
                while i < h.top_hits.len()
                    invariant
                        i <= h.top_hits@.len(),
                        views(lines@) == head + seq!["hits:"@] + pair_lines(h.top_hits@.take(i as int), f),
                        f == (|x: DocumentHit| doc_hit_pair(x)),
                    decreases h.top_hits.len() - i,
                {
                    push_line(&mut lines, cat("- ", h.top_hits[i].path.as_str()));
                    push_line(&mut lines, cat("  ", h.top_hits[i].preview.as_str()));
                    proof {
                        lemma_pair_lines_step(h.top_hits@, i as int, f);
                    }
                    i = i + 1;
                }
                proof {
                    assert(h.top_hits@.take(h.top_hits@.len() as int) =~= h.top_hits@);
                }
            }
            proof {
                assert(views(lines@) =~= document_hit_lines(*d));
            }
        },
        None => {
            if queries_document(&d.operator_usage) {
                if d.active_version.is_none() {
                    push_line(
                        &mut lines,
                        "hits: recent document recall attempts ran before any promoted store version was available".to_owned(),
                    );
                } else {
                    push_line(&mut lines, "hits: recent document queries returned no captured result snapshot".to_owned());
                }
            } else {
                push_line(&mut lines, "hits: no document query has populated supervision yet".to_owned());
            }
        },
    }
    proof {
        assert(views(lines@) =~= document_hit_lines(*d));
    }
    lines
}

/// The lines of the document lane.
pub open spec fn spec_document_lines(s: ContextSupervisionSnapshot) -> Seq<Seq<char>> {
    document_head(s.document, s.sizes) + version_lines(s.document) + usage_lines(s.document) + activity_lines(
        s.document,
    ) + document_hit_lines(s.document)
}

/// The document lane: status, totals, store, freshness, versions, usage,
/// activity and the last query with its hits.
pub fn build_document_lines(s: &ContextSupervisionSnapshot) -> (r: Vec<String>)
    ensures
        views(r@) == spec_document_lines(*s),
{
    let mut lines = document_head_of(&s.document, &s.sizes);
    push_lines(&mut lines, version_lines_of(&s.document));
    push_lines(&mut lines, usage_lines_of(&s.document));
    push_lines(&mut lines, activity_lines_of(&s.document));
    push_lines(&mut lines, document_hit_lines_of(&s.document));
    lines
}

// ---------------------------------------------------------------------------
// The memory lane
// ---------------------------------------------------------------------------

/// The status, totals, selection, archive, retention, query and
/// observation lines of the memory lane, and the dropped candidates.
pub open spec fn memory_head(m: MemorySupervisionSnapshot, sizes: ByteSizeLabels) -> Seq<Seq<char>> {
    let t = m.totals;
    seq![
        "status: "@ + enabled_label(m.enabled) + " ("@ + m.readiness@ + ")"@,
        "totals: archived_turns="@ + dec(t.total_turns_archived as nat) + " compactions="@ + dec(
            t.compactions_triggered as nat,
        ),
        "selection: summaries="@ + dec(t.current_summary_count as nat) + " tokens="@ + dec(
            t.current_summary_tokens as nat,
        ),
        "archive: count="@ + dec(t.turn_archive_count as nat) + " size="@ + sizes.turn_archive@,
        "retention: accepted="@ + dec(t.retention_candidates_accepted as nat) + " dropped="@ + dec(
            t.retention_candidates_dropped as nat,
        ),
        "queries: count="@ + dec(t.memory_query_count as nat) + " mix="@ + spec_kv_counts(t.memory_query_hit_mix@),
        "observations: total="@ + dec(t.observation_count as nat) + " fresh="@ + dec(
            t.observation_fresh_count as nat,
        ) + " stale="@ + dec(t.observation_stale_count as nat) + " superseded="@ + dec(
            t.observation_superseded_count as nat,
        ) + " corrected="@ + dec(t.observation_corrected_count as nat) + " corrections="@ + dec(
            t.observation_correction_activity as nat,
        ),
    ] + if t.dropped_candidates_by_profile@.len() == 0 {
        Seq::empty()
    } else {
        seq!["dropped by profile: "@ + spec_kv_counts(t.dropped_candidates_by_profile@)]
    }
}

fn memory_head_of(m: &MemorySupervisionSnapshot, sizes: &ByteSizeLabels) -> (r: Vec<String>)
    ensures
        views(r@) == memory_head(*m, *sizes),
{
    let t = &m.totals;
    let mut lines: Vec<String> = Vec::new();
    let mut l = "status: ".to_owned();
    push_str(&mut l, if m.enabled { "enabled" } else { "disabled" });
    push_str(&mut l, " (");
    push_str(&mut l, m.readiness.as_str());
    push_str(&mut l, ")");
    push_line(&mut lines, l);
    let mut l = "totals: archived_turns=".to_owned();
    push_num(&mut l, t.total_turns_archived);
    push_str(&mut l, " compactions=");
    push_num(&mut l, t.compactions_triggered);
    push_line(&mut lines, l);
    let mut l = "selection: summaries=".to_owned();
    push_num(&mut l, t.current_summary_count);
    push_str(&mut l, " tokens=");
    push_num(&mut l, t.current_summary_tokens);
    push_line(&mut lines, l);
    let mut l = "archive: count=".to_owned();
    push_num(&mut l, t.turn_archive_count);
    push_str(&mut l, " size=");
    push_str(&mut l, sizes.turn_archive.as_str());
    push_line(&mut lines, l);
    let mut l = "retention: accepted=".to_owned();
    push_num(&mut l, t.retention_candidates_accepted);
    push_str(&mut l, " dropped=");
    push_num(&mut l, t.retention_candidates_dropped);
    push_line(&mut lines, l);
    let mut l = "queries: count=".to_owned();
    push_num(&mut l, t.memory_query_count);
    push_str(&mut l, " mix=");
    push_str(&mut l, format_kv_counts(&t.memory_query_hit_mix).as_str());
    push_line(&mut lines, l);
    let mut l = "observations: total=".to_owned();
    push_num(&mut l, t.observation_count);
    push_str(&mut l, " fresh=");
    push_num(&mut l, t.observation_fresh_count);
    push_str(&mut l, " stale=");
    push_num(&mut l, t.observation_stale_count);
    push_str(&mut l, " superseded=");
    push_num(&mut l, t.observation_superseded_count);
    push_str(&mut l, " corrected=");
    push_num(&mut l, t.observation_corrected_count);
    push_str(&mut l, " corrections=");
    push_num(&mut l, t.observation_correction_activity);
    push_line(&mut lines, l);
    let ghost head = views(lines@);
    if t.dropped_candidates_by_profile.len() > 0 {
        push_line(&mut lines, cat("dropped by profile: ", format_kv_counts(&t.dropped_candidates_by_profile).as_str()));
    }
    proof {
        assert(views(lines@) =~= memory_head(*m, *sizes));
    }
    lines
}

pub open spec fn summary_hit_pair(h: SummaryHit) -> (Seq<char>, Seq<char>) {
    ("- "@ + h.title@ + " ["@ + h.workflow_id@ + ":"@ + h.step_id@ + "]"@, "  "@ + h.preview@)
}

/// The selected summaries of the memory lane.
pub open spec fn selected_lines(m: MemorySupervisionSnapshot) -> Seq<Seq<char>> {
    match m.current_hits {
        Some(h) => seq![
            Seq::<char>::empty(),
            "selected summaries: "@ + dec(h.selected_count as nat) + " ("@ + dec(h.total_tokens as nat) + ")"@,
        ] + pair_lines(h.top_hits@, |x: SummaryHit| summary_hit_pair(x)),
        None => seq!["selected summaries: none for the current step"@],
    }
}

fn selected_lines_of(m: &MemorySupervisionSnapshot) -> (r: Vec<String>)
    ensures
        views(r@) == selected_lines(*m),
{
    let mut lines: Vec<String> = Vec::new();
    match &m.current_hits {
        Some(h) => {
            push_line(&mut lines, String::new());
            let mut l = "selected summaries: ".to_owned();
            push_num(&mut l, h.selected_count);
            push_str(&mut l, " (");
            push_num(&mut l, h.total_tokens);
            push_str(&mut l, ")");
            push_line(&mut lines, l);
            let ghost head = views(lines@);
            let ghost f = |x: SummaryHit| summary_hit_pair(x);
            let mut i: usize = 0;
            while i < h.top_hits.len()
                invariant
                    i <= h.top_hits@.len(),
                    views(lines@) == head + pair_lines(h.top_hits@.take(i as int), f),
                    f == (|x: SummaryHit| summary_hit_pair(x)),
                decreases h.top_hits.len() - i,
            {
                let x = &h.top_hits[i];
                let mut l = "- ".to_owned();
                push_str(&mut l, x.title.as_str());
                push_str(&mut l, " [");
                push_str(&mut l, x.workflow_id.as_str());
                push_str(&mut l, ":");
                push_str(&mut l, x.step_id.as_str());
                push_str(&mut l, "]");
                push_line(&mut lines, l);
                push_line(&mut lines, cat("  ", x.preview.as_str()));
                proof {
                    lemma_pair_lines_step(h.top_hits@, i as int, f);
                }
                i = i + 1;
            }
            proof {
                assert(h.top_hits@.take(h.top_hits@.len() as int) =~= h.top_hits@);
                assert(views(lines@) =~= selected_lines(*m));
            }
        },
        None => {
            push_line(&mut lines, "selected summaries: none for the current step".to_owned());
            proof {
                assert(views(lines@) =~= selected_lines(*m));
            }
        },
    }
    lines
}

/// The head of a recall: its query, the planned queries, why and how it
/// was rewritten, and how many hits of which kinds came back.
pub open spec fn recall_head(
    labels: (Seq<char>, Seq<char>, Seq<char>, Seq<char>, Seq<char>),
    query: Seq<char>,
    planned: Seq<String>,
    reason: Option<String>,
    rewrites: Seq<String>,
    count: u64,
    mix: Seq<(String, u64)>,
) -> Seq<Seq<char>> {
    seq![Seq::<char>::empty(), labels.0 + query_label(query)] + (if planned.len() == 0 {
        Seq::empty()
    } else {
        seq![labels.1 + join(views(planned), " | "@)]
    }) + (match reason {
        Some(r) => seq![labels.2 + r@],
        None => Seq::empty(),
    }) + (if rewrites.len() == 0 {
        Seq::empty()
    } else {
        seq![labels.3 + join(views(rewrites), " | "@)]
    }) + seq![labels.4 + dec(count as nat) + " ("@ + spec_kv_counts(mix) + ")"@]
}

fn recall_head_of(
    labels: (&str, &str, &str, &str, &str),
    query: &String,
    planned: &Vec<String>,
    reason: &Option<String>,
    rewrites: &Vec<String>,
    count: u64,
    mix: &Vec<(String, u64)>,
) -> (r: Vec<String>)
    ensures
        views(r@) == recall_head(
            (labels.0@, labels.1@, labels.2@, labels.3@, labels.4@),
            query@,
            planned@,
            *reason,
            rewrites@,
            count,
            mix@,
        ),
{
    let mut lines: Vec<String> = Vec::new();
    push_line(&mut lines, String::new());
    push_line(&mut lines, cat(labels.0, query_label_of(query).as_str()));
    if planned.len() > 0 {
        push_line(&mut lines, cat(labels.1, join_strings(planned, " | ").as_str()));
    }
    match reason {
        Some(r) => push_line(&mut lines, cat(labels.2, r.as_str())),
        None => {},
    }
    if rewrites.len() > 0 {
        push_line(&mut lines, cat(labels.3, join_strings(rewrites, " | ").as_str()));
    }
    let mut l = labels.4.to_owned();
    push_num(&mut l, count);
    push_str(&mut l, " (");
    push_str(&mut l, format_kv_counts(mix).as_str());
    push_str(&mut l, ")");
    push_line(&mut lines, l);
    proof {
        assert(views(lines@) =~= recall_head(
            (labels.0@, labels.1@, labels.2@, labels.3@, labels.4@),
            query@,
            planned@,
            *reason,
            rewrites@,
            count,
            mix@,
        ));
    }
    lines
}

pub open spec fn memory_labels() -> (Seq<char>, Seq<char>, Seq<char>, Seq<char>, Seq<char>) {
    (
        "archived memory query: "@,
        "planned memory queries: "@,
        "memory rewrite reason: "@,
        "memory rewrite queries: "@,
        "archived memory hits: "@,
    )
}

pub open spec fn observation_labels() -> (Seq<char>, Seq<char>, Seq<char>, Seq<char>, Seq<char>) {
    (
        "observations query: "@,
        "planned observation queries: "@,
        "observation rewrite reason: "@,
        "observation rewrite queries: "@,
        "observation hits: "@,
    )
}

pub open spec fn memory_hit_pair(h: MemoryHit) -> (Seq<char>, Seq<char>) {
    ("- ["@ + h.profile@ + "] "@ + h.title@, "  "@ + h.preview@)
}

pub open spec fn observation_hit_pair(h: ObservationHit) -> (Seq<char>, Seq<char>) {
    ("- ["@ + h.freshness@ + "] "@ + h.title@, "  "@ + h.summary@)
}

/// The archived memory query of the memory lane.
pub open spec fn memory_query_lines(m: MemorySupervisionSnapshot) -> Seq<Seq<char>> {
    match m.current_query {
        Some(q) => recall_head(
            memory_labels(),
            q.query@,
            q.planned_queries@,
            q.rewrite_reason,
            q.rewrite_queries@,
            q.result_count,
            q.hit_mix@,
        ) + pair_lines(q.top_hits@, |x: MemoryHit| memory_hit_pair(x)),
        None => seq!["memory query: no archived recall has populated supervision yet"@],
    }
}

/// The observation recall of the memory lane.
pub open spec fn observation_lines(m: MemorySupervisionSnapshot) -> Seq<Seq<char>> {
    match m.current_observations {
        Some(o) => recall_head(
            observation_labels(),
            o.query@,
            o.planned_queries@,
            o.rewrite_reason,
            o.rewrite_queries@,
            o.result_count,
            o.freshness_mix@,
        ) + pair_lines(o.top_hits@, |x: ObservationHit| observation_hit_pair(x)),
        None => seq!["observations: no project observation recall has populated supervision yet"@],
    }
}

fn memory_query_lines_of(m: &MemorySupervisionSnapshot) -> (r: Vec<String>)
    ensures
        views(r@) == memory_query_lines(*m),
{
    match &m.current_query {
        Some(q) => {
            let mut lines = recall_head_of(
                (
                    "archived memory query: ",
                    "planned memory queries: ",
                    "memory rewrite reason: ",
                    "memory rewrite queries: ",
                    "archived memory hits: ",
                ),
                &q.query,
                &q.planned_queries,
                &q.rewrite_reason,
                &q.rewrite_queries,
                q.result_count,
                &q.hit_mix,
            );
            let ghost head = views(lines@);
            let ghost f = |x: MemoryHit| memory_hit_pair(x);
            let mut i: usize = 0;
            while i < q.top_hits.len()
                invariant
                    i <= q.top_hits@.len(),
                    views(lines@) == head + pair_lines(q.top_hits@.take(i as int), f),
                    f == (|x: MemoryHit| memory_hit_pair(x)),
                decreases q.top_hits.len() - i,
            {
                let x = &q.top_hits[i];
                let mut l = "- [".to_owned();
                push_str(&mut l, x.profile.as_str());
                push_str(&mut l, "] ");
                push_str(&mut l, x.title.as_str());
                push_line(&mut lines, l);
                push_line(&mut lines, cat("  ", x.preview.as_str()));
                proof {
                    lemma_pair_lines_step(q.top_hits@, i as int, f);
                }
                i = i + 1;
            }
            proof {
                assert(q.top_hits@.take(q.top_hits@.len() as int) =~= q.top_hits@);
            }
            lines
        },
        None => {
            let mut lines: Vec<String> = Vec::new();
            push_line(&mut lines, "memory query: no archived recall has populated supervision yet".to_owned());
            proof {
                assert(views(lines@) =~= memory_query_lines(*m));
            }
            lines
        },
    }
}

fn observation_lines_of(m: &MemorySupervisionSnapshot) -> (r: Vec<String>)
    ensures
        views(r@) == observation_lines(*m),
{
    match &m.current_observations {
        Some(o) => {
            let mut lines = recall_head_of(
                (
                    "observations query: ",
                    "planned observation queries: ",
                    "observation rewrite reason: ",
                    "observation rewrite queries: ",
                    "observation hits: ",
                ),
                &o.query,
                &o.planned_queries,
                &o.rewrite_reason,
                &o.rewrite_queries,
                o.result_count,
                &o.freshness_mix,
            );
            let ghost head = views(lines@);
            let ghost f = |x: ObservationHit| observation_hit_pair(x);
            let mut i: usize = 0;
            while i < o.top_hits.len()
                invariant
                    i <= o.top_hits@.len(),
                    views(lines@) == head + pair_lines(o.top_hits@.take(i as int), f),
                    f == (|x: ObservationHit| observation_hit_pair(x)),
                decreases o.top_hits.len() - i,
            {
                let x = &o.top_hits[i];
                let mut l = "- [".to_owned();
                push_str(&mut l, x.freshness.as_str());
                push_str(&mut l, "] ");
                push_str(&mut l, x.title.as_str());
                push_line(&mut lines, l);
                push_line(&mut lines, cat("  ", x.summary.as_str()));
                proof {
                    lemma_pair_lines_step(o.top_hits@, i as int, f);
                }
                i = i + 1;
            }
            proof {
                assert(o.top_hits@.take(o.top_hits@.len() as int) =~= o.top_hits@);
            }
            lines
        },
        None => {
            let mut lines: Vec<String> = Vec::new();
            push_line(&mut lines, "observations: no project observation recall has populated supervision yet".to_owned());
            proof {
                assert(views(lines@) =~= observation_lines(*m));
            }
            lines
        },
    }
}

/// The lines of the memory lane.
pub open spec fn spec_memory_lines(s: ContextSupervisionSnapshot) -> Seq<Seq<char>> {
    memory_head(s.memory, s.sizes) + selected_lines(s.memory) + memory_query_lines(s.memory) + observation_lines(
        s.memory,
    )
}

/// The memory lane: status, totals, selection, archive, retention, queries,
/// observations, and the current selection, memory query and observation
/// recall with their hits.
pub fn build_memory_lines(s: &ContextSupervisionSnapshot) -> (r: Vec<String>)
    ensures
        views(r@) == spec_memory_lines(*s),
{
    let mut lines = memory_head_of(&s.memory, &s.sizes);
    push_lines(&mut lines, selected_lines_of(&s.memory));
    push_lines(&mut lines, memory_query_lines_of(&s.memory));
    push_lines(&mut lines, observation_lines_of(&s.memory));
    lines
}

/// The knowledge detail: the document lane, then the memory lane.
pub open spec fn spec_knowledge_detail_lines(s: ContextSupervisionSnapshot) -> Seq<Seq<char>> {
    seq!["Document lane"@] + spec_document_lines(s) + seq![Seq::<char>::empty(), "Memory lane"@]
        + spec_memory_lines(s)
}

pub fn build_knowledge_detail_lines(s: &ContextSupervisionSnapshot) -> (r: Vec<String>)
    ensures
        views(r@) == spec_knowledge_detail_lines(*s),
{
    let mut lines: Vec<String> = Vec::new();
    push_line(&mut lines, "Document lane".to_owned());
    push_lines(&mut lines, build_document_lines(s));
    push_line(&mut lines, String::new());
    push_line(&mut lines, "Memory lane".to_owned());
    push_lines(&mut lines, build_memory_lines(s));
    proof {
        assert(views(lines@) =~= spec_knowledge_detail_lines(*s));
    }
    lines
}

impl App {
    /// Whether the knowledge and memory panels show `snapshot`, or their
    /// placeholders when there is none.
    pub open spec fn shows_supervision(self) -> bool {
        match self.context_supervision {
            Some(s) => views(self.document_lines@) == spec_knowledge_lines(s) && views(self.memory_lines@)
                == spec_memory_lines(s),
            None => views(self.document_lines@) == knowledge_placeholder() && views(self.memory_lines@)
                == memory_placeholder(),
        }
    }

    /// Shows what the document index and the memory store report.
    pub fn set_context_supervision(&mut self, snapshot: ContextSupervisionSnapshot)
        requires
            knowledge_fits(snapshot),
        ensures
            final(self).context_supervision == Some(snapshot),
            final(self).shows_supervision(),
            *final(self) == (App {
                context_supervision: Some(snapshot),
                document_lines: final(self).document_lines,
                memory_lines: final(self).memory_lines,
                ..*old(self)
            }),
    {
        self.document_lines = build_knowledge_lines(&snapshot);
        self.memory_lines = build_memory_lines(&snapshot);
        self.context_supervision = Some(snapshot);
    }

    /// Opens the knowledge detail (both lanes), when there is a snapshot.
    pub fn open_knowledge_supervision_detail(&mut self) -> (r: bool)
        ensures
            r == old(self).context_supervision.is_some(),
            !r ==> *final(self) == *old(self),
            r ==> App::detail_opened(
                *old(self),
                *final(self),
                " Knowledge "@,
                spec_knowledge_detail_lines(old(self).context_supervision.unwrap()),
            ),
    {
        let lines = match &self.context_supervision {
            Some(s) => build_knowledge_detail_lines(s),
            None => return false,
        };
        self.open_detail_overlay(" Knowledge ", lines);
        true
    }

    /// Opens the memory lane as a detail, when there is a snapshot.
    pub fn open_memory_supervision_detail(&mut self) -> (r: bool)
        ensures
            r == old(self).context_supervision.is_some(),
            !r ==> *final(self) == *old(self),
            r ==> App::detail_opened(
                *old(self),
                *final(self),
                " Memory Supervision "@,
                spec_memory_lines(old(self).context_supervision.unwrap()),
            ),
    {
        let lines = match &self.context_supervision {
            Some(s) => build_memory_lines(s),
            None => return false,
        };
        self.open_detail_overlay(" Memory Supervision ", lines);
        true
    }
}

} // verus!
