//! Contract diagnostics of workflow steps: what went into a step, what came
//! out, its tools, cache, context and progress, as panel lines and as a
//! detail view.
use vstd::prelude::*;

use crate::app::{App, DiagnosticsLine, WorkflowRunRole};
use crate::chars::{
    cat, dec, dec_string, join, join_strings, lex_le, lines, opt_line, push_char, push_num, push_opt_line, push_str,
    push_text, push_texts, split_lines, str_eq, str_le, views,
};
use crate::context_supervision::{DocumentHealthStatus, DocumentStoreVersion, HealthScore, health_label};
use crate::report::{format_counter_map, spec_counter_map, truncate_preview};
use crate::text::{clean_option, clean_texts, cleaned, cleaned_texts, preview_of, strip_ansi, without_escapes};
use crate::transcript::opt_view;
use crate::turn_delivery::{DeliveryCacheUsage, DeliveryStepUsage};

verus! {

#[derive(Debug, Clone, Copy, PartialEq, Eq, Structural)]
pub enum StepInputStatus {
    NoInput,
    Ready,
    OptionalEmpty,
    MissingRequired,
}

#[derive(Debug, Clone, Copy, PartialEq, Eq, Structural)]
pub enum StepOutputStatus {
    NoOutput,
    Pending,
    Valid,
    Invalid,
    Skipped,
}

#[derive(Debug, Clone, Copy, PartialEq, Eq, Structural)]
pub enum StepOutputAttemptKind {
    Primary,
    Repair,
    Regenerate,
}

#[derive(Debug, Clone, Copy, PartialEq, Eq, Structural)]
pub enum StepOutputRecoveryDecision {
    Repair,
    Regenerate,
    FallbackTextRouting,
    Abort,
}

#[derive(Debug, Clone, Copy, PartialEq, Eq, Structural)]
pub enum StepContextWriteKind {
    Added,
    Updated,
    Cleared,
}

pub open spec fn input_status_label(s: StepInputStatus) -> Seq<char> {
    match s {
        StepInputStatus::NoInput => "none"@,
        StepInputStatus::Ready => "ready"@,
        StepInputStatus::OptionalEmpty => "optional-empty"@,
        StepInputStatus::MissingRequired => "missing-required"@,
    }
}

fn input_status_label_of(s: StepInputStatus) -> (r: &'static str)
    ensures
        r@ == input_status_label(s),
{
    match s {
        StepInputStatus::NoInput => "none",
        StepInputStatus::Ready => "ready",
        StepInputStatus::OptionalEmpty => "optional-empty",
        StepInputStatus::MissingRequired => "missing-required",
    }
}

pub open spec fn output_status_label(s: StepOutputStatus) -> Seq<char> {
    match s {
        StepOutputStatus::NoOutput => "none"@,
        StepOutputStatus::Pending => "pending"@,
        StepOutputStatus::Valid => "valid"@,
        StepOutputStatus::Invalid => "invalid"@,
        StepOutputStatus::Skipped => "skipped"@,
    }
}

fn output_status_label_of(s: StepOutputStatus) -> (r: &'static str)
    ensures
        r@ == output_status_label(s),
{
    match s {
        StepOutputStatus::NoOutput => "none",
        StepOutputStatus::Pending => "pending",
        StepOutputStatus::Valid => "valid",
        StepOutputStatus::Invalid => "invalid",
        StepOutputStatus::Skipped => "skipped",
    }
}

pub open spec fn attempt_kind_label(k: StepOutputAttemptKind) -> Seq<char> {
    match k {
        StepOutputAttemptKind::Primary => "primary"@,
        StepOutputAttemptKind::Repair => "repair"@,
        StepOutputAttemptKind::Regenerate => "regenerate"@,
    }
}

fn attempt_kind_label_of(k: StepOutputAttemptKind) -> (r: &'static str)
    ensures
        r@ == attempt_kind_label(k),
{
    match k {
        StepOutputAttemptKind::Primary => "primary",
        StepOutputAttemptKind::Repair => "repair",
        StepOutputAttemptKind::Regenerate => "regenerate",
    }
}

pub open spec fn recovery_label(d: StepOutputRecoveryDecision) -> Seq<char> {
    match d {
        StepOutputRecoveryDecision::Repair => "repair"@,
        StepOutputRecoveryDecision::Regenerate => "regenerate"@,
        StepOutputRecoveryDecision::FallbackTextRouting => "fallback-text-routing"@,
        StepOutputRecoveryDecision::Abort => "abort"@,
    }
}

fn recovery_label_of(d: StepOutputRecoveryDecision) -> (r: &'static str)
    ensures
        r@ == recovery_label(d),
{
    match d {
        StepOutputRecoveryDecision::Repair => "repair",
        StepOutputRecoveryDecision::Regenerate => "regenerate",
        StepOutputRecoveryDecision::FallbackTextRouting => "fallback-text-routing",
        StepOutputRecoveryDecision::Abort => "abort",
    }
}

pub open spec fn write_kind_label(k: StepContextWriteKind) -> Seq<char> {
    match k {
        StepContextWriteKind::Added => "added"@,
        StepContextWriteKind::Updated => "updated"@,
        StepContextWriteKind::Cleared => "cleared"@,
    }
}

fn write_kind_label_of(k: StepContextWriteKind) -> (r: &'static str)
    ensures
        r@ == write_kind_label(k),
{
    match k {
        StepContextWriteKind::Added => "added",
        StepContextWriteKind::Updated => "updated",
        StepContextWriteKind::Cleared => "cleared",
    }
}

/// A step whose summary was fed into this one.
#[derive(Debug, Clone, PartialEq, Eq)]
pub struct SummarySource {
    pub workflow_id: String,
    pub step_id: String,
    pub title: String,
}

/// What went into a step.
#[derive(Debug, Clone, PartialEq, Eq)]
pub struct StepInputDiagnostics {
    pub status: StepInputStatus,
    pub summary_sources: Vec<SummarySource>,
    pub expected_structured_sources: Vec<String>,
    pub resolved_structured_sources: Vec<String>,
    pub missing_structured_sources: Vec<String>,
    pub structured_input_preview: Option<String>,
    pub todo_state_preview: Option<String>,
    pub error: Option<String>,
}

/// What came out of a step, and how often it was tried.
#[derive(Debug, Clone, PartialEq, Eq)]
pub struct StepOutputDiagnostics {
    pub status: StepOutputStatus,
    pub attempt_kind: StepOutputAttemptKind,
    pub recovery_decision: Option<StepOutputRecoveryDecision>,
    pub attempts: u32,
    pub retry_count: u32,
    pub max_retries: u32,
    pub format: Option<String>,
    pub schema_path: Option<String>,
    pub previous_response_preview: Option<String>,
    pub extracted_json_preview: Option<String>,
    pub validation_error: Option<String>,
}

/// How a step used its tools; counters are `(name, count)` in ascending
/// name order.
#[derive(Debug, Clone, PartialEq, Eq)]
pub struct ToolCapabilityDiagnostics {
    pub tool_invocations: Vec<(String, u32)>,
    pub family_invocations: Vec<(String, u32)>,
    pub tool_failure_count_by_kind: Vec<(String, u32)>,
    pub bash_fallback_count: u32,
    pub question_block_count: u32,
    pub tool_switch_after_failure: u32,
    pub same_intent_retry_count: u32,
}

/// The token use of a step's model request. `token_count_source` is the
/// label of where the counts come from.
#[derive(Debug, Clone, PartialEq, Eq)]
pub struct CacheDiagnostics {
    pub token_count_source: String,
    pub request_input_tokens: u32,
    pub budget_input_tokens: u32,
    pub cache_breakpoints: Vec<String>,
    pub cache_creation_input_tokens: Option<u32>,
    pub cache_read_input_tokens: Option<u32>,
    pub uncached_input_tokens: Option<u32>,
    pub cache_hit_ratio_percent: Option<u32>,
}

#[derive(Debug, Clone, PartialEq, Eq)]
pub struct ContextBudget {
    pub request_input_tokens: u64,
    pub budget_input_tokens: u64,
    pub headroom_tokens: u64,
    pub usage_percent: u64,
    pub selected_summary_count: u64,
    pub available_summary_count: u64,
}

#[derive(Debug, Clone, PartialEq, Eq)]
pub struct ContextMemory {
    pub total_turns_archived: u64,
    pub compactions_triggered: u64,
    pub current_summary_tokens: u64,
    pub current_summary_count: u64,
    pub compression_ratio_avg_percent: u64,
}

#[derive(Debug, Clone, PartialEq, Eq)]
pub struct ContextDocument {
    pub total_files_indexed: u64,
    pub total_chunks: u64,
    pub total_embeddings: u64,
    pub index_staleness_seconds: u64,
    pub health_status: DocumentHealthStatus,
    pub governance_health: Option<HealthScore>,
    pub active_version: Option<DocumentStoreVersion>,
    pub pending_version: Option<DocumentStoreVersion>,
    pub last_promotion_error: Option<String>,
}

#[derive(Debug, Clone, PartialEq, Eq)]
pub struct ContextStore {
    pub todo_items_count: u64,
    pub turn_archive_count: u64,
    pub tantivy_index_size_bytes: u64,
    pub lance_db_size_bytes: u64,
}

/// The context a step ran with.
#[derive(Debug, Clone, PartialEq, Eq)]
pub struct ContextDiagnostics {
    pub budget: ContextBudget,
    pub memory: ContextMemory,
    pub document: ContextDocument,
    pub store: ContextStore,
}

/// How far a step that works through todos has come.
#[derive(Debug, Clone, PartialEq, Eq)]
pub struct ExecuteProgress {
    pub todo_completed: u64,
    pub todo_total: u64,
    pub todo_open: u64,
    pub repeat_count: u64,
    pub no_progress_streak: u64,
    pub max_step_repeats: u64,
    pub current_item_id: Option<String>,
    pub current_item_index: Option<u64>,
    pub current_item_total: Option<u64>,
    pub max_item_repeats: Option<u64>,
    pub completion_source: Option<String>,
}

/// A change a step made to the session context.
#[derive(Debug, Clone, PartialEq, Eq)]
pub struct StepContextWrite {
    pub path: String,
    pub kind: StepContextWriteKind,
    pub before_preview: Option<String>,
    pub after_preview: Option<String>,
}

/// The contract diagnostics of one step.
#[derive(Debug, Clone, PartialEq, Eq)]
pub struct StepDiagnostics {
    pub id: String,
    pub workflow_id: String,
    pub workflow_role: WorkflowRunRole,
    pub step_id: String,
    pub step_label: String,
    pub index: usize,
    pub total: usize,
    pub input: StepInputDiagnostics,
    pub output: StepOutputDiagnostics,
    pub tool_capabilities: Option<ToolCapabilityDiagnostics>,
    pub cache: Option<CacheDiagnostics>,
    pub context: Option<ContextDiagnostics>,
    pub execute_progress: Option<ExecuteProgress>,
    pub session_writes: Vec<StepContextWrite>,
}

// ---------------------------------------------------------------------------
// Budget arithmetic
// ---------------------------------------------------------------------------

/// The share of the budget that the request uses, in percent, at most 100;
/// none without a budget.
pub open spec fn budget_percent(c: CacheDiagnostics) -> Option<u8> {
    if c.budget_input_tokens == 0 {
        None
    } else {
        let m = if c.request_input_tokens * 100 > u32::MAX {
            u32::MAX as int
        } else {
            c.request_input_tokens * 100
        };
        let p = m / (c.budget_input_tokens as int);
        Some(
            if p > 100 {
                100u8
            } else {
                p as u8
            },
        )
    }
}

pub fn context_budget_percent(c: &CacheDiagnostics) -> (r: Option<u8>)
    ensures
        r == budget_percent(*c),
{
    if c.budget_input_tokens == 0 {
        return None;
    }
    let r = c.request_input_tokens;
    let m: u32 = if r > u32::MAX / 100 {
        u32::MAX
    } else {
        r * 100
    };
    let p = m / c.budget_input_tokens;
    Some(
        if p > 100 {
            100u8
        } else {
            p as u8
        },
    )
}

/// The tokens left under the budget.
pub open spec fn headroom(c: CacheDiagnostics) -> u32 {
    if c.budget_input_tokens >= c.request_input_tokens {
        (c.budget_input_tokens - c.request_input_tokens) as u32
    } else {
        0
    }
}

pub fn context_headroom_tokens(c: &CacheDiagnostics) -> (r: u32)
    ensures
        r == headroom(*c),
{
    c.budget_input_tokens.saturating_sub(c.request_input_tokens)
}

/// The sum of the counts of a counter list.
pub open spec fn count_sum(s: Seq<(String, u32)>) -> nat
    decreases s.len(),
{
    if s.len() == 0 {
        0
    } else {
        count_sum(s.drop_last()) + s.last().1 as nat
    }
}

proof fn lemma_count_sum_prefix(s: Seq<(String, u32)>, i: int)
    requires
        0 <= i <= s.len(),
    ensures
        count_sum(s.take(i)) <= count_sum(s),
    decreases s.len() - i,
{
    if i < s.len() {
        lemma_count_sum_prefix(s, i + 1);
        assert(s.take(i + 1).drop_last() =~= s.take(i));
    } else {
        assert(s.take(i) =~= s);
    }
}

fn sum_counts(s: &Vec<(String, u32)>) -> (r: u32)
    requires
        count_sum(s@) <= u32::MAX,
    ensures
        r == count_sum(s@),
{
    let mut total: u32 = 0;
    let mut i: usize = 0;
    while i < s.len()
        invariant
            i <= s@.len(),
            total == count_sum(s@.take(i as int)),
            count_sum(s@) <= u32::MAX,
        decreases s.len() - i,
    {
        proof {
            assert(s@.take(i + 1).drop_last() =~= s@.take(i as int));
            lemma_count_sum_prefix(s@, i + 1);
        }
        total = total + s[i].1;
        i = i + 1;
    }
    proof {
        assert(s@.take(s@.len() as int) =~= s@);
    }
    total
}

/// `s` with each `%,` shortened to `%`.
pub open spec fn without_percent_commas(s: Seq<char>) -> Seq<char>
    decreases s.len(),
{
    if s.len() == 0 {
        s
    } else if s.len() >= 2 && s[0] == '%' && s[1] == ',' {
        seq!['%'] + without_percent_commas(s.skip(2))
    } else {
        seq![s[0]] + without_percent_commas(s.skip(1))
    }
}

/// The characters of `s` from `i` on, with each `%,` shortened to `%`.
fn drop_percent_commas(s: &str) -> (r: String)
    ensures
        r@ == without_percent_commas(s@),
{
    let v = crate::chars::chars_of(s);
    let mut out = String::new();
    let mut i: usize = 0;
    proof {
        assert(v@.skip(0) =~= v@);
        assert(out@ + v@ =~= v@) by {
            assert(out@ =~= Seq::<char>::empty());
        }
        assert(out@ + without_percent_commas(v@) =~= without_percent_commas(v@));
    }
    while i < v.len()
        invariant
            i <= v@.len(),
            v@ == s@,
            out@ + without_percent_commas(v@.skip(i as int)) == without_percent_commas(v@),
        decreases v.len() - i,
    {
        let ghost rest = v@.skip(i as int);
        if i + 1 < v.len() && v[i] == '%' && v[i + 1] == ',' {
            push_char(&mut out, '%');
            proof {
                assert(rest.skip(2) =~= v@.skip(i + 2));
                assert(out@ + without_percent_commas(v@.skip(i + 2)) =~= without_percent_commas(v@));
            }
            i = i + 2;
        } else {
            push_char(&mut out, v[i]);
            proof {
                assert(rest.skip(1) =~= v@.skip(i + 1));
                assert(out@ + without_percent_commas(v@.skip(i + 1)) =~= without_percent_commas(v@));
            }
            i = i + 1;
        }
    }
    proof {
        assert(v@.skip(v@.len() as int) =~= Seq::<char>::empty());
        assert(out@ + Seq::<char>::empty() =~= out@);
    }
    out
}

// ---------------------------------------------------------------------------
// Escape sequences
// ---------------------------------------------------------------------------

/// `after` is the context write `before` without escape sequences.
pub open spec fn cleaned_write(before: StepContextWrite, after: StepContextWrite) -> bool {
    &&& after.path@ == without_escapes(before.path@)
    &&& after.kind == before.kind
    &&& cleaned(before.before_preview, after.before_preview)
    &&& cleaned(before.after_preview, after.after_preview)
}

fn clean_writes(v: Vec<StepContextWrite>) -> (r: Vec<StepContextWrite>)
    ensures
        r@.len() == v@.len(),
        forall|i: int| 0 <= i < v@.len() ==> cleaned_write(v@[i], #[trigger] r@[i]),
{
    let mut v = v;
    let ghost v0 = v@;
    let mut r: Vec<StepContextWrite> = Vec::new();
    while v.len() > 0
        invariant
            r@.len() + v@.len() == v0.len(),
            v@ == v0.skip(r@.len() as int),
            forall|k: int| 0 <= k < r@.len() ==> cleaned_write(v0[k], #[trigger] r@[k]),
        decreases v.len(),
    {
        let w = v.remove(0);
        let ghost k = r@.len() as int;
        proof {
            assert(w == v0[k]);
        }
        r.push(
            StepContextWrite {
                path: strip_ansi(w.path.as_str()),
                kind: w.kind,
                before_preview: clean_option(w.before_preview),
                after_preview: clean_option(w.after_preview),
            },
        );
        proof {
            assert(v@ =~= v0.skip(r@.len() as int));
        }
    }
    r
}

/// `after` is the step diagnostics `before` with every text it quotes
/// (previews, errors, item ids, paths, cache anchors) without escape
/// sequences.
pub open spec fn sanitized_diagnostics(before: StepDiagnostics, after: StepDiagnostics) -> bool {
    &&& after.id == before.id
    &&& after.workflow_id == before.workflow_id
    &&& after.workflow_role == before.workflow_role
    &&& after.step_id == before.step_id
    &&& after.step_label == before.step_label
    &&& after.index == before.index
    &&& after.total == before.total
    &&& after.input == (StepInputDiagnostics {
        structured_input_preview: after.input.structured_input_preview,
        todo_state_preview: after.input.todo_state_preview,
        error: after.input.error,
        ..before.input
    })
    &&& cleaned(before.input.structured_input_preview, after.input.structured_input_preview)
    &&& cleaned(before.input.todo_state_preview, after.input.todo_state_preview)
    &&& cleaned(before.input.error, after.input.error)
    &&& after.output == (StepOutputDiagnostics {
        previous_response_preview: after.output.previous_response_preview,
        extracted_json_preview: after.output.extracted_json_preview,
        validation_error: after.output.validation_error,
        ..before.output
    })
    &&& cleaned(before.output.previous_response_preview, after.output.previous_response_preview)
    &&& cleaned(before.output.extracted_json_preview, after.output.extracted_json_preview)
    &&& cleaned(before.output.validation_error, after.output.validation_error)
    &&& after.tool_capabilities == before.tool_capabilities
    &&& match (before.cache, after.cache) {
        (None, None) => true,
        (Some(b), Some(a)) => a == (CacheDiagnostics { cache_breakpoints: a.cache_breakpoints, ..b })
            && cleaned_texts(b.cache_breakpoints@, a.cache_breakpoints@),
        _ => false,
    }
    &&& after.context == before.context
    &&& match (before.execute_progress, after.execute_progress) {
        (None, None) => true,
        (Some(b), Some(a)) => a == (ExecuteProgress {
            current_item_id: a.current_item_id,
            completion_source: a.completion_source,
            ..b
        }) && cleaned(b.current_item_id, a.current_item_id) && cleaned(b.completion_source, a.completion_source),
        _ => false,
    }
    &&& after.session_writes@.len() == before.session_writes@.len()
    &&& forall|i: int|
        0 <= i < before.session_writes@.len() ==> cleaned_write(
            before.session_writes@[i],
            #[trigger] after.session_writes@[i],
        )
}

/// The step diagnostics without escape sequences in the texts they quote.
pub fn sanitize_step_diagnostics(d: StepDiagnostics) -> (r: StepDiagnostics)
    ensures
        sanitized_diagnostics(d, r),
{
    let ghost d0 = d;
    let StepDiagnostics {
        id,
        workflow_id,
        workflow_role,
        step_id,
        step_label,
        index,
        total,
        input,
        output,
        tool_capabilities,
        cache,
        context,
        execute_progress,
        session_writes,
    } = d;
    let StepInputDiagnostics {
        status: in_status,
        summary_sources,
        expected_structured_sources,
        resolved_structured_sources,
        missing_structured_sources,
        structured_input_preview,
        todo_state_preview,
        error,
    } = input;
    let input = StepInputDiagnostics {
        status: in_status,
        summary_sources,
        expected_structured_sources,
        resolved_structured_sources,
        missing_structured_sources,
        structured_input_preview: clean_option(structured_input_preview),
        todo_state_preview: clean_option(todo_state_preview),
        error: clean_option(error),
    };
    let StepOutputDiagnostics {
        status: out_status,
        attempt_kind,
        recovery_decision,
        attempts,
        retry_count,
        max_retries,
        format,
        schema_path,
        previous_response_preview,
        extracted_json_preview,
        validation_error,
    } = output;
    let output = StepOutputDiagnostics {
        status: out_status,
        attempt_kind,
        recovery_decision,
        attempts,
        retry_count,
        max_retries,
        format,
        schema_path,
        previous_response_preview: clean_option(previous_response_preview),
        extracted_json_preview: clean_option(extracted_json_preview),
        validation_error: clean_option(validation_error),
    };
    let cache = match cache {
        Some(c) => {
            let CacheDiagnostics {
                token_count_source,
                request_input_tokens,
                budget_input_tokens,
                cache_breakpoints,
                cache_creation_input_tokens,
                cache_read_input_tokens,
                uncached_input_tokens,
                cache_hit_ratio_percent,
            } = c;
            Some(
                CacheDiagnostics {
                    token_count_source,
                    request_input_tokens,
                    budget_input_tokens,
                    cache_breakpoints: clean_texts(cache_breakpoints),
                    cache_creation_input_tokens,
                    cache_read_input_tokens,
                    uncached_input_tokens,
                    cache_hit_ratio_percent,
                },
            )
        },
        None => None,
    };
    let execute_progress = match execute_progress {
        Some(p) => {
            let ExecuteProgress {
                todo_completed,
                todo_total,
                todo_open,
                repeat_count,
                no_progress_streak,
                max_step_repeats,
                current_item_id,
                current_item_index,
                current_item_total,
                max_item_repeats,
                completion_source,
            } = p;
            Some(
                ExecuteProgress {
                    todo_completed,
                    todo_total,
                    todo_open,
                    repeat_count,
                    no_progress_streak,
                    max_step_repeats,
                    current_item_id: clean_option(current_item_id),
                    current_item_index,
                    current_item_total,
                    max_item_repeats,
                    completion_source: clean_option(completion_source),
                },
            )
        },
        None => None,
    };
    StepDiagnostics {
        id,
        workflow_id,
        workflow_role,
        step_id,
        step_label,
        index,
        total,
        input,
        output,
        tool_capabilities,
        cache,
        context,
        execute_progress,
        session_writes: clean_writes(session_writes),
    }
}

// ---------------------------------------------------------------------------
// The panel lines of a step
// ---------------------------------------------------------------------------

pub open spec fn opt_text(o: Option<String>, fallback: Seq<char>) -> Seq<char> {
    match o {
        Some(t) => t@,
        None => fallback,
    }
}

/// The counters of the step's tools fit their sums.
pub open spec fn tool_counts_fit(d: StepDiagnostics) -> bool {
    match d.tool_capabilities {
        Some(t) => count_sum(t.tool_invocations@) <= u32::MAX && count_sum(t.tool_failure_count_by_kind@)
            <= u32::MAX,
        None => true,
    }
}

pub open spec fn header_text(d: StepDiagnostics) -> Seq<char> {
    d.workflow_role.spec_name() + ":"@ + d.workflow_id@ + " "@ + dec(d.index as nat) + "/"@ + dec(d.total as nat)
        + " "@ + d.step_label@
}

pub open spec fn input_text(d: StepDiagnostics) -> Seq<char> {
    "  input "@ + input_status_label(d.input.status) + " · summaries="@ + dec(d.input.summary_sources@.len())
        + " · structured="@ + dec(d.input.resolved_structured_sources@.len()) + if d.input.todo_state_preview.is_some() {
        " · todo"@
    } else {
        Seq::<char>::empty()
    }
}

pub open spec fn output_text(d: StepDiagnostics) -> Seq<char> {
    "  output "@ + output_status_label(d.output.status) + " · attempt="@ + attempt_kind_label(d.output.attempt_kind)
        + match d.output.recovery_decision {
        Some(r) => " · next="@ + recovery_label(r),
        None => Seq::<char>::empty(),
    } + " · retries="@ + dec(d.output.retry_count as nat) + "/"@ + dec(d.output.max_retries as nat)
        + " · writes="@ + dec(d.session_writes@.len())
}

pub open spec fn tools_text(t: ToolCapabilityDiagnostics) -> Seq<char> {
    "  tools invocations="@ + dec(count_sum(t.tool_invocations@)) + " failures="@ + dec(
        count_sum(t.tool_failure_count_by_kind@),
    ) + " bash_fallback="@ + dec(t.bash_fallback_count as nat) + " questions="@ + dec(
        t.question_block_count as nat,
    ) + " switch_after_failure="@ + dec(t.tool_switch_after_failure as nat) + " retry_same_tool="@ + dec(
        t.same_intent_retry_count as nat,
    )
}

pub open spec fn cache_text(c: CacheDiagnostics) -> Seq<char> {
    without_percent_commas(
        "  cache "@ + c.token_count_source@ + " · budget="@ + match budget_percent(c) {
            Some(p) => dec(p as nat) + "%"@,
            None => "n/a"@,
        } + if c.budget_input_tokens > 0 {
            " · headroom="@ + dec(headroom(c) as nat)
        } else {
            Seq::<char>::empty()
        } + " · anchors="@ + dec(c.cache_breakpoints@.len()) + match c.cache_hit_ratio_percent {
            Some(h) => " · hit="@ + dec(h as nat) + "%"@,
            None => Seq::<char>::empty(),
        },
    )
}

pub open spec fn context_texts(c: ContextDiagnostics) -> Seq<Seq<char>> {
    seq![
        "  context memory turns="@ + dec(c.memory.total_turns_archived as nat) + " compact="@ + dec(
            c.memory.compactions_triggered as nat,
        ) + " summaries="@ + dec(c.memory.current_summary_count as nat),
        "  context docs files="@ + dec(c.document.total_files_indexed as nat) + " chunks="@ + dec(
            c.document.total_chunks as nat,
        ) + " health="@ + health_label(c.document.governance_health),
        "  context store todo="@ + dec(c.store.todo_items_count as nat) + " tantivy="@ + dec(
            c.store.tantivy_index_size_bytes as nat,
        ) + " lance="@ + dec(c.store.lance_db_size_bytes as nat),
    ]
}

pub open spec fn execute_text(p: ExecuteProgress) -> Seq<char> {
    "  execute todos="@ + dec(p.todo_completed as nat) + "/"@ + dec(p.todo_total as nat) + " open="@ + dec(
        p.todo_open as nat,
    ) + " repeats="@ + dec(p.repeat_count as nat) + match p.current_item_id {
        Some(i) => " · current="@ + i@,
        None => Seq::<char>::empty(),
    } + match p.completion_source {
        Some(s) => " · source="@ + s@,
        None => Seq::<char>::empty(),
    }
}

/// The error a step reports: its input error, else its validation error.
pub open spec fn step_error(d: StepDiagnostics) -> Option<String> {
    match d.input.error {
        Some(e) => Some(e),
        None => d.output.validation_error,
    }
}

/// The panel lines of a step: header, input, output, and where present
/// tools, cache, context, progress and the error.
pub open spec fn spec_step_lines(d: StepDiagnostics) -> Seq<Seq<char>> {
    seq![header_text(d), input_text(d), output_text(d)] + match d.tool_capabilities {
        Some(t) => seq![tools_text(t)],
        None => Seq::empty(),
    } + match d.cache {
        Some(c) => seq![cache_text(c)],
        None => Seq::empty(),
    } + match d.context {
        Some(c) => context_texts(c),
        None => Seq::empty(),
    } + match d.execute_progress {
        Some(p) => seq![execute_text(p)],
        None => Seq::empty(),
    } + match step_error(d) {
        Some(e) => seq!["  error "@ + preview_of(e@, 96)],
        None => Seq::empty(),
    }
}

/// The texts of diagnostics lines.
pub open spec fn line_texts(s: Seq<DiagnosticsLine>) -> Seq<Seq<char>> {
    s.map_values(|l: DiagnosticsLine| l.text@)
}

/// The texts of diagnostics lines with the ids they name.
pub open spec fn line_pairs(s: Seq<DiagnosticsLine>) -> Seq<(Seq<char>, Option<Seq<char>>)> {
    s.map_values(|l: DiagnosticsLine| (l.text@, opt_view(l.diagnostic_id)))
}

/// The panel lines of a step, each naming the step.
pub open spec fn step_line_pairs(d: StepDiagnostics) -> Seq<(Seq<char>, Option<Seq<char>>)> {
    spec_step_lines(d).map_values(|t: Seq<char>| (t, Some(d.id@)))
}

/// The panel lines of the steps, one step after another.
pub open spec fn all_line_pairs(ds: Seq<StepDiagnostics>) -> Seq<(Seq<char>, Option<Seq<char>>)>
    decreases ds.len(),
{
    if ds.len() == 0 {
        Seq::empty()
    } else {
        all_line_pairs(ds.drop_last()) + step_line_pairs(ds.last())
    }
}

fn header_of(d: &StepDiagnostics) -> (r: String)
    ensures
        r@ == header_text(*d),
{
    let mut t = d.workflow_role.as_str().to_owned();
    push_str(&mut t, ":");
    push_str(&mut t, d.workflow_id.as_str());
    push_str(&mut t, " ");
    push_num(&mut t, d.index as u64);
    push_str(&mut t, "/");
    push_num(&mut t, d.total as u64);
    push_str(&mut t, " ");
    push_str(&mut t, d.step_label.as_str());
    t
}

fn input_of(d: &StepDiagnostics) -> (r: String)
    ensures
        r@ == input_text(*d),
{
    let mut t = "  input ".to_owned();
    push_str(&mut t, input_status_label_of(d.input.status));
    push_str(&mut t, " · summaries=");
    push_num(&mut t, d.input.summary_sources.len() as u64);
    push_str(&mut t, " · structured=");
    push_num(&mut t, d.input.resolved_structured_sources.len() as u64);
    if d.input.todo_state_preview.is_some() {
        push_str(&mut t, " · todo");
    } else {
        proof {
            assert(t@ + Seq::<char>::empty() =~= t@);
        }
    }
    t
}

fn output_of(d: &StepDiagnostics) -> (r: String)
    ensures
        r@ == output_text(*d),
{
    let mut t = "  output ".to_owned();
    push_str(&mut t, output_status_label_of(d.output.status));
    push_str(&mut t, " · attempt=");
    push_str(&mut t, attempt_kind_label_of(d.output.attempt_kind));
    let ghost a = t@;
    match d.output.recovery_decision {
        Some(r) => {
            push_str(&mut t, " · next=");
            push_str(&mut t, recovery_label_of(r));
        },
        None => {},
    }
    let ghost b = t@;
    push_str(&mut t, " · retries=");
    push_num(&mut t, d.output.retry_count as u64);
    push_str(&mut t, "/");
    push_num(&mut t, d.output.max_retries as u64);
    push_str(&mut t, " · writes=");
    push_num(&mut t, d.session_writes.len() as u64);
    proof {
        assert(b =~= a + match d.output.recovery_decision {
            Some(r) => " · next="@ + recovery_label(r),
            None => Seq::<char>::empty(),
        });
        assert(t@ =~= output_text(*d));
    }
    t
}

fn tools_of(tc: &ToolCapabilityDiagnostics) -> (r: String)
    requires
        count_sum(tc.tool_invocations@) <= u32::MAX,
        count_sum(tc.tool_failure_count_by_kind@) <= u32::MAX,
    ensures
        r@ == tools_text(*tc),
{
    let mut t = "  tools invocations=".to_owned();
    push_num(&mut t, sum_counts(&tc.tool_invocations) as u64);
    push_str(&mut t, " failures=");
    push_num(&mut t, sum_counts(&tc.tool_failure_count_by_kind) as u64);
    push_str(&mut t, " bash_fallback=");
    push_num(&mut t, tc.bash_fallback_count as u64);
    push_str(&mut t, " questions=");
    push_num(&mut t, tc.question_block_count as u64);
    push_str(&mut t, " switch_after_failure=");
    push_num(&mut t, tc.tool_switch_after_failure as u64);
    push_str(&mut t, " retry_same_tool=");
    push_num(&mut t, tc.same_intent_retry_count as u64);
    t
}

fn cache_of(c: &CacheDiagnostics) -> (r: String)
    ensures
        r@ == cache_text(*c),
{
    let mut t = "  cache ".to_owned();
    push_str(&mut t, c.token_count_source.as_str());
    push_str(&mut t, " · budget=");
    let ghost a = t@;
    match context_budget_percent(c) {
        Some(p) => {
            push_num(&mut t, p as u64);
            push_str(&mut t, "%");
        },
        None => push_str(&mut t, "n/a"),
    }
    let ghost b = t@;
    if c.budget_input_tokens > 0 {
        push_str(&mut t, " · headroom=");
        push_num(&mut t, context_headroom_tokens(c) as u64);
    }
    let ghost e = t@;
    push_str(&mut t, " · anchors=");
    push_num(&mut t, c.cache_breakpoints.len() as u64);
    let ghost f = t@;
    match c.cache_hit_ratio_percent {
        Some(h) => {
            push_str(&mut t, " · hit=");
            push_num(&mut t, h as u64);
            push_str(&mut t, "%");
        },
        None => {},
    }
    proof {
        assert(b =~= a + match budget_percent(*c) {
            Some(p) => dec(p as nat) + "%"@,
            None => "n/a"@,
        });
        assert(e =~= b + if c.budget_input_tokens > 0 {
            " · headroom="@ + dec(headroom(*c) as nat)
        } else {
            Seq::<char>::empty()
        });
        assert(t@ =~= f + match c.cache_hit_ratio_percent {
            Some(h) => " · hit="@ + dec(h as nat) + "%"@,
            None => Seq::<char>::empty(),
        });
    }
    drop_percent_commas(t.as_str())
}

fn context_of(c: &ContextDiagnostics) -> (r: Vec<String>)
    ensures
        views(r@) == context_texts(*c),
{
    let mut lines: Vec<String> = Vec::new();
    let mut t = "  context memory turns=".to_owned();
    push_num(&mut t, c.memory.total_turns_archived);
    push_str(&mut t, " compact=");
    push_num(&mut t, c.memory.compactions_triggered);
    push_str(&mut t, " summaries=");
    push_num(&mut t, c.memory.current_summary_count);
    push_text(&mut lines, t);
    let mut t = "  context docs files=".to_owned();
    push_num(&mut t, c.document.total_files_indexed);
    push_str(&mut t, " chunks=");
    push_num(&mut t, c.document.total_chunks);
    push_str(&mut t, " health=");
    push_str(&mut t, health_label_of(c.document.governance_health));
    push_text(&mut lines, t);
    let mut t = "  context store todo=".to_owned();
    push_num(&mut t, c.store.todo_items_count);
    push_str(&mut t, " tantivy=");
    push_num(&mut t, c.store.tantivy_index_size_bytes);
    push_str(&mut t, " lance=");
    push_num(&mut t, c.store.lance_db_size_bytes);
    push_text(&mut lines, t);
    proof {
        assert(views(lines@) =~= context_texts(*c));
    }
    lines
}

fn health_label_of(h: Option<HealthScore>) -> (r: &'static str)
    ensures
        r@ == health_label(h),
{
    match h {
        Some(HealthScore::Good) => "good",
        Some(HealthScore::NeedsAttention) => "needs_attention",
        Some(HealthScore::Critical) => "critical",
        None => "unknown",
    }
}

fn execute_of(p: &ExecuteProgress) -> (r: String)
    ensures
        r@ == execute_text(*p),
{
    let mut t = "  execute todos=".to_owned();
    push_num(&mut t, p.todo_completed);
    push_str(&mut t, "/");
    push_num(&mut t, p.todo_total);
    push_str(&mut t, " open=");
    push_num(&mut t, p.todo_open);
    push_str(&mut t, " repeats=");
    push_num(&mut t, p.repeat_count);
    let ghost a = t@;
    match &p.current_item_id {
        Some(i) => {
            push_str(&mut t, " · current=");
            push_str(&mut t, i.as_str());
        },
        None => {},
    }
    let ghost b = t@;
    match &p.completion_source {
        Some(s) => {
            push_str(&mut t, " · source=");
            push_str(&mut t, s.as_str());
        },
        None => {},
    }
    proof {
        assert(b =~= a + match p.current_item_id {
            Some(i) => " · current="@ + i@,
            None => Seq::<char>::empty(),
        });
        assert(t@ =~= b + match p.completion_source {
            Some(s) => " · source="@ + s@,
            None => Seq::<char>::empty(),
        });
        assert(t@ =~= execute_text(*p));
    }
    t
}

/// The texts of a step's panel lines.
fn step_texts(d: &StepDiagnostics) -> (r: Vec<String>)
    requires
        tool_counts_fit(*d),
    ensures
        views(r@) == spec_step_lines(*d),
{
    let mut lines: Vec<String> = Vec::new();
    push_text(&mut lines, header_of(d));
    push_text(&mut lines, input_of(d));
    push_text(&mut lines, output_of(d));
    let ghost a = views(lines@);
    match &d.tool_capabilities {
        Some(t) => push_text(&mut lines, tools_of(t)),
        None => {},
    }
    let ghost b = views(lines@);
    match &d.cache {
        Some(c) => push_text(&mut lines, cache_of(c)),
        None => {},
    }
    let ghost c0 = views(lines@);
    match &d.context {
        Some(c) => push_texts(&mut lines, context_of(c)),
        None => {},
    }
    let ghost e = views(lines@);
    match &d.execute_progress {
        Some(p) => push_text(&mut lines, execute_of(p)),
        None => {},
    }
    let ghost f = views(lines@);
    let err = match &d.input.error {
        Some(e) => Some(e),
        None => d.output.validation_error.as_ref(),
    };
    match err {
        Some(e) => push_text(&mut lines, cat("  error ", truncate_preview(e.as_str(), 96).as_str())),
        None => {},
    }
    proof {
        assert(views(lines@) =~= spec_step_lines(*d));
    }
    lines
}

/// The panel lines of a step, each naming the step's diagnostics.
pub fn build_diagnostics_lines(d: &StepDiagnostics) -> (r: Vec<DiagnosticsLine>)
    requires
        tool_counts_fit(*d),
    ensures
        line_pairs(r@) == step_line_pairs(*d),
{
    let texts = step_texts(d);
    let mut out: Vec<DiagnosticsLine> = Vec::new();
    let mut i: usize = 0;
    while i < texts.len()
        invariant
            i <= texts@.len(),
            out@.len() == i,
            line_texts(out@) == views(texts@).take(i as int),
            forall|k: int| 0 <= k < out@.len() ==> opt_view((#[trigger] out@[k]).diagnostic_id) == Some(d.id@),
        decreases texts.len() - i,
    {
        let ghost prev = out@;
        let line = DiagnosticsLine { text: texts[i].clone(), diagnostic_id: Some(d.id.clone()) };
        out.push(line);
        proof {
            assert(out@ == prev.push(line));
            assert forall|k: int| 0 <= k < i + 1 implies #[trigger] line_texts(out@)[k] == views(texts@).take(i + 1)[k] by {
                if k < i {
                    assert(line_texts(out@)[k] == out@[k].text@);
                    assert(out@[k] == prev[k]);
                    assert(line_texts(prev)[k] == prev[k].text@);
                }
            }
            assert(line_texts(out@) =~= views(texts@).take(i + 1));
        }
        i = i + 1;
    }
    proof {
        assert(views(texts@).take(texts@.len() as int) =~= views(texts@));
        assert forall|k: int| 0 <= k < out@.len() implies #[trigger] line_pairs(out@)[k] == step_line_pairs(*d)[k] by {
            assert(line_texts(out@)[k] == out@[k].text@);
        }
        assert(line_pairs(out@) =~= step_line_pairs(*d));
    }
    out
}

// ---------------------------------------------------------------------------
// The detail view of a step
// ---------------------------------------------------------------------------

/// Lines indented by two spaces.
pub open spec fn indented(ls: Seq<Seq<char>>) -> Seq<Seq<char>> {
    ls.map_values(|l: Seq<char>| "  "@ + l)
}

fn indented_lines(text: &str) -> (r: Vec<String>)
    ensures
        views(r@) == indented(lines(text@)),
{
    let ls = split_lines(text);
    let mut out: Vec<String> = Vec::new();
    let mut i: usize = 0;
    while i < ls.len()
        invariant
            i <= ls@.len(),
            views(ls@) == lines(text@),
            views(out@) == indented(views(ls@).take(i as int)),
        decreases ls.len() - i,
    {
        push_text(&mut out, cat("  ", ls[i].as_str()));
        proof {
            assert(views(ls@)[i as int] == ls@[i as int]@);
            assert(indented(views(ls@).take(i + 1)) =~= indented(views(ls@).take(i as int)).push(
                "  "@ + ls@[i as int]@,
            ));
        }
        i = i + 1;
    }
    proof {
        assert(views(ls@).take(ls@.len() as int) =~= views(ls@));
    }
    out
}

/// `label` then the indented lines of `preview`, when there is one.
pub open spec fn preview_block(label: Seq<char>, preview: Option<String>) -> Seq<Seq<char>> {
    match preview {
        Some(p) => seq![label] + indented(lines(p@)),
        None => Seq::empty(),
    }
}

fn preview_block_of(label: &str, preview: &Option<String>) -> (r: Vec<String>)
    ensures
        views(r@) == preview_block(label@, *preview),
{
    match preview {
        Some(p) => {
            let mut out: Vec<String> = Vec::new();
            push_text(&mut out, label.to_owned());
            push_texts(&mut out, indented_lines(p.as_str()));
            proof {
                assert(views(out@) =~= preview_block(label@, *preview));
            }
            out
        },
        None => {
            let out: Vec<String> = Vec::new();
            proof {
                assert(views(out@) =~= preview_block(label@, *preview));
            }
            out
        },
    }
}

/// `label` and `text`, when there is a text.

/// `label` and the number, when there is one.
pub open spec fn opt_num_line(label: Seq<char>, n: Option<u64>) -> Seq<Seq<char>> {
    match n {
        Some(x) => seq![label + dec(x as nat)],
        None => Seq::empty(),
    }
}

fn push_opt_num_line(v: &mut Vec<String>, label: &str, n: Option<u64>)
    ensures
        views(final(v)@) == views(old(v)@) + opt_num_line(label@, n),
{
    match n {
        Some(x) => {
            let mut t = label.to_owned();
            push_num(&mut t, x);
            push_text(v, t);
        },
        None => {},
    }
    proof {
        assert(views(v@) =~= views(old(v)@) + opt_num_line(label@, n));
    }
}

pub open spec fn opt_u32(n: Option<u32>) -> Option<u64> {
    match n {
        Some(x) => Some(x as u64),
        None => None,
    }
}

fn widen(n: Option<u32>) -> (r: Option<u64>)
    ensures
        r == opt_u32(n),
{
    match n {
        Some(x) => Some(x as u64),
        None => None,
    }
}

/// Strings joined with `, `, or `none`.
pub open spec fn joined_or_none(v: Seq<String>) -> Seq<char> {
    if v.len() == 0 {
        "none"@
    } else {
        join(views(v), ", "@)
    }
}

fn joined_or_none_of(v: &Vec<String>) -> (r: String)
    ensures
        r@ == joined_or_none(v@),
{
    if v.len() == 0 {
        "none".to_owned()
    } else {
        join_strings(v, ", ")
    }
}

pub open spec fn detail_head(d: StepDiagnostics) -> Seq<Seq<char>> {
    seq![
        "step: "@ + d.workflow_role.spec_name() + ":"@ + d.workflow_id@ + " "@ + d.step_label@ + " "@ + dec(
            d.index as nat,
        ) + "/"@ + dec(d.total as nat),
        "step_id: "@ + d.step_id@,
        "input: "@ + input_status_label(d.input.status),
    ]
}

pub open spec fn source_label(s: SummarySource) -> Seq<char> {
    s.workflow_id@ + ":"@ + s.step_id@ + " ("@ + s.title@ + ")"@
}

pub open spec fn source_lines(d: StepDiagnostics) -> Seq<Seq<char>> {
    let i = d.input;
    (if i.summary_sources@.len() == 0 {
        seq!["summary_sources: none"@]
    } else {
        seq!["summary_sources: "@ + join(i.summary_sources@.map_values(|s: SummarySource| source_label(s)), ", "@)]
    }) + if i.expected_structured_sources@.len() == 0 {
        seq!["structured_sources: none"@]
    } else {
        seq![
            "structured_expected: "@ + join(views(i.expected_structured_sources@), ", "@),
            "structured_resolved: "@ + joined_or_none(i.resolved_structured_sources@),
        ] + if i.missing_structured_sources@.len() == 0 {
            Seq::empty()
        } else {
            seq!["structured_missing: "@ + join(views(i.missing_structured_sources@), ", "@)]
        }
    }
}

fn source_lines_of(d: &StepDiagnostics) -> (r: Vec<String>)
    ensures
        views(r@) == source_lines(*d),
{
    let i = &d.input;
    let mut out: Vec<String> = Vec::new();
    if i.summary_sources.len() == 0 {
        push_text(&mut out, "summary_sources: none".to_owned());
    } else {
        let mut labels: Vec<String> = Vec::new();
        let mut k: usize = 0;
        let ghost f = |s: SummarySource| source_label(s);
        while k < i.summary_sources.len()
            invariant
                k <= i.summary_sources@.len(),
                views(labels@) == i.summary_sources@.take(k as int).map_values(f),
                f == (|s: SummarySource| source_label(s)),
            decreases i.summary_sources.len() - k,
        {
            let src = &i.summary_sources[k];
            let mut t = src.workflow_id.clone();
            push_str(&mut t, ":");
            push_str(&mut t, src.step_id.as_str());
            push_str(&mut t, " (");
            push_str(&mut t, src.title.as_str());
            push_str(&mut t, ")");
            push_text(&mut labels, t);
            proof {
                assert(i.summary_sources@.take(k + 1).map_values(f) =~= i.summary_sources@.take(k as int).map_values(
                    f,
                ).push(f(i.summary_sources@[k as int])));
            }
            k = k + 1;
        }
        proof {
            assert(i.summary_sources@.take(i.summary_sources@.len() as int) =~= i.summary_sources@);
        }
        push_text(&mut out, cat("summary_sources: ", join_strings(&labels, ", ").as_str()));
    }
    let ghost a = views(out@);
    if i.expected_structured_sources.len() == 0 {
        push_text(&mut out, "structured_sources: none".to_owned());
    } else {
        push_text(
            &mut out,
            cat("structured_expected: ", join_strings(&i.expected_structured_sources, ", ").as_str()),
        );
        push_text(
            &mut out,
            cat("structured_resolved: ", joined_or_none_of(&i.resolved_structured_sources).as_str()),
        );
        if i.missing_structured_sources.len() > 0 {
            push_text(
                &mut out,
                cat("structured_missing: ", join_strings(&i.missing_structured_sources, ", ").as_str()),
            );
        }
    }
    proof {
        assert(views(out@) =~= source_lines(*d));
    }
    out
}

pub open spec fn input_detail(d: StepDiagnostics) -> Seq<Seq<char>> {
    preview_block("structured_input_preview:"@, d.input.structured_input_preview) + preview_block(
        "todo_state_preview:"@,
        d.input.todo_state_preview,
    ) + opt_line("input_error: "@, d.input.error)
}

pub open spec fn cache_detail(c: CacheDiagnostics) -> Seq<Seq<char>> {
    seq![
        "cache: "@ + c.token_count_source@ + " request_input_tokens="@ + dec(c.request_input_tokens as nat) + "/"@
            + dec(c.budget_input_tokens as nat),
    ] + match budget_percent(c) {
        Some(p) => seq!["context_budget_percent: "@ + dec(p as nat)],
        None => Seq::empty(),
    } + seq![
        "context_headroom_tokens: "@ + dec(headroom(c) as nat),
        "cache_breakpoints: "@ + joined_or_none(c.cache_breakpoints@),
    ] + opt_num_line("cache_creation_input_tokens: "@, opt_u32(c.cache_creation_input_tokens)) + opt_num_line(
        "cache_read_input_tokens: "@,
        opt_u32(c.cache_read_input_tokens),
    ) + opt_num_line("uncached_input_tokens: "@, opt_u32(c.uncached_input_tokens)) + opt_num_line(
        "cache_hit_ratio_percent: "@,
        opt_u32(c.cache_hit_ratio_percent),
    )
}

fn cache_detail_of(c: &CacheDiagnostics) -> (r: Vec<String>)
    ensures
        views(r@) == cache_detail(*c),
{
    let mut out: Vec<String> = Vec::new();
    let mut t = "cache: ".to_owned();
    push_str(&mut t, c.token_count_source.as_str());
    push_str(&mut t, " request_input_tokens=");
    push_num(&mut t, c.request_input_tokens as u64);
    push_str(&mut t, "/");
    push_num(&mut t, c.budget_input_tokens as u64);
    push_text(&mut out, t);
    let ghost a = views(out@);
    match context_budget_percent(c) {
        Some(p) => {
            let mut t = "context_budget_percent: ".to_owned();
            push_num(&mut t, p as u64);
            push_text(&mut out, t);
        },
        None => {},
    }
    let ghost b = views(out@);
    let mut t = "context_headroom_tokens: ".to_owned();
    push_num(&mut t, context_headroom_tokens(c) as u64);
    push_text(&mut out, t);
    push_text(&mut out, cat("cache_breakpoints: ", joined_or_none_of(&c.cache_breakpoints).as_str()));
    push_opt_num_line(&mut out, "cache_creation_input_tokens: ", widen(c.cache_creation_input_tokens));
    push_opt_num_line(&mut out, "cache_read_input_tokens: ", widen(c.cache_read_input_tokens));
    push_opt_num_line(&mut out, "uncached_input_tokens: ", widen(c.uncached_input_tokens));
    push_opt_num_line(&mut out, "cache_hit_ratio_percent: ", widen(c.cache_hit_ratio_percent));
    proof {
        assert(b =~= a + match budget_percent(*c) {
            Some(p) => seq!["context_budget_percent: "@ + dec(p as nat)],
            None => Seq::<Seq<char>>::empty(),
        });
        assert(views(out@) =~= cache_detail(*c));
    }
    out
}

/// A store version as `id@revision`, or `none`.
pub open spec fn store_version_label(v: Option<DocumentStoreVersion>) -> Seq<char> {
    match v {
        Some(x) => x.version_id@ + "@"@ + dec(x.manifest_revision as nat),
        None => "none"@,
    }
}

fn store_version_label_of(v: &Option<DocumentStoreVersion>) -> (r: String)
    ensures
        r@ == store_version_label(*v),
{
    match v {
        Some(x) => {
            let mut t = x.version_id.clone();
            push_str(&mut t, "@");
            push_num(&mut t, x.manifest_revision);
            t
        },
        None => "none".to_owned(),
    }
}

pub open spec fn context_detail(c: ContextDiagnostics) -> Seq<Seq<char>> {
    seq![
        "context_budget: request_tokens="@ + dec(c.budget.request_input_tokens as nat) + " budget_tokens="@ + dec(
            c.budget.budget_input_tokens as nat,
        ) + " headroom_tokens="@ + dec(c.budget.headroom_tokens as nat) + " usage_percent="@ + dec(
            c.budget.usage_percent as nat,
        ) + " selected_summaries="@ + dec(c.budget.selected_summary_count as nat) + "/"@ + dec(
            c.budget.available_summary_count as nat,
        ),
        "context_memory: turns_archived="@ + dec(c.memory.total_turns_archived as nat) + " compactions_triggered="@
            + dec(c.memory.compactions_triggered as nat) + " current_summary_tokens="@ + dec(
            c.memory.current_summary_tokens as nat,
        ) + " current_summary_count="@ + dec(c.memory.current_summary_count as nat)
            + " compression_ratio_avg_percent="@ + dec(c.memory.compression_ratio_avg_percent as nat),
        "context_document: files="@ + dec(c.document.total_files_indexed as nat) + " chunks="@ + dec(
            c.document.total_chunks as nat,
        ) + " embeddings="@ + dec(c.document.total_embeddings as nat) + " staleness_seconds="@ + dec(
            c.document.index_staleness_seconds as nat,
        ) + " health="@ + c.document.health_status.spec_name() + " governance_health="@ + health_label(
            c.document.governance_health,
        ) + " active_version="@ + store_version_label(c.document.active_version) + " pending_version="@
            + store_version_label(c.document.pending_version) + " promotion_error="@ + opt_text(
            c.document.last_promotion_error,
            "none"@,
        ),
        "context_store: todo_items="@ + dec(c.store.todo_items_count as nat) + " turn_archive_count="@ + dec(
            c.store.turn_archive_count as nat,
        ) + " tantivy_index_size_bytes="@ + dec(c.store.tantivy_index_size_bytes as nat)
            + " lance_db_size_bytes="@ + dec(c.store.lance_db_size_bytes as nat),
    ]
}

fn context_detail_of(c: &ContextDiagnostics) -> (r: Vec<String>)
    ensures
        views(r@) == context_detail(*c),
{
    let mut out: Vec<String> = Vec::new();
    let mut t = "context_budget: request_tokens=".to_owned();
    push_num(&mut t, c.budget.request_input_tokens);
    push_str(&mut t, " budget_tokens=");
    push_num(&mut t, c.budget.budget_input_tokens);
    push_str(&mut t, " headroom_tokens=");
    push_num(&mut t, c.budget.headroom_tokens);
    push_str(&mut t, " usage_percent=");
    push_num(&mut t, c.budget.usage_percent);
    push_str(&mut t, " selected_summaries=");
    push_num(&mut t, c.budget.selected_summary_count);
    push_str(&mut t, "/");
    push_num(&mut t, c.budget.available_summary_count);
    push_text(&mut out, t);
    let mut t = "context_memory: turns_archived=".to_owned();
    push_num(&mut t, c.memory.total_turns_archived);
    push_str(&mut t, " compactions_triggered=");
    push_num(&mut t, c.memory.compactions_triggered);
    push_str(&mut t, " current_summary_tokens=");
    push_num(&mut t, c.memory.current_summary_tokens);
    push_str(&mut t, " current_summary_count=");
    push_num(&mut t, c.memory.current_summary_count);
    push_str(&mut t, " compression_ratio_avg_percent=");
    push_num(&mut t, c.memory.compression_ratio_avg_percent);
    push_text(&mut out, t);
    let mut t = "context_document: files=".to_owned();
    push_num(&mut t, c.document.total_files_indexed);
    push_str(&mut t, " chunks=");
    push_num(&mut t, c.document.total_chunks);
    push_str(&mut t, " embeddings=");
    push_num(&mut t, c.document.total_embeddings);
    push_str(&mut t, " staleness_seconds=");
    push_num(&mut t, c.document.index_staleness_seconds);
    push_str(&mut t, " health=");
    push_str(&mut t, c.document.health_status.as_str());
    push_str(&mut t, " governance_health=");
    push_str(&mut t, health_label_of(c.document.governance_health));
    push_str(&mut t, " active_version=");
    push_str(&mut t, store_version_label_of(&c.document.active_version).as_str());
    push_str(&mut t, " pending_version=");
    push_str(&mut t, store_version_label_of(&c.document.pending_version).as_str());
    push_str(&mut t, " promotion_error=");
    match &c.document.last_promotion_error {
        Some(e) => push_str(&mut t, e.as_str()),
        None => push_str(&mut t, "none"),
    }
    push_text(&mut out, t);
    let mut t = "context_store: todo_items=".to_owned();
    push_num(&mut t, c.store.todo_items_count);
    push_str(&mut t, " turn_archive_count=");
    push_num(&mut t, c.store.turn_archive_count);
    push_str(&mut t, " tantivy_index_size_bytes=");
    push_num(&mut t, c.store.tantivy_index_size_bytes);
    push_str(&mut t, " lance_db_size_bytes=");
    push_num(&mut t, c.store.lance_db_size_bytes);
    push_text(&mut out, t);
    proof {
        assert(views(out@) =~= context_detail(*c));
    }
    out
}

pub open spec fn progress_detail(p: ExecuteProgress) -> Seq<Seq<char>> {
    seq![
        "execute_progress: todos="@ + dec(p.todo_completed as nat) + "/"@ + dec(p.todo_total as nat) + " open="@
            + dec(p.todo_open as nat) + " repeat_count="@ + dec(p.repeat_count as nat) + " no_progress_streak="@
            + dec(p.no_progress_streak as nat) + " max_step_repeats="@ + dec(p.max_step_repeats as nat),
    ] + match p.current_item_id {
        Some(i) => seq![
            "current_item: "@ + i@ + " ("@ + dec(
                match p.current_item_index {
                    Some(x) => x,
                    None => 0,
                } as nat,
            ) + "/"@ + dec(
                match p.current_item_total {
                    Some(x) => x,
                    None => 0,
                } as nat,
            ) + ")"@,
        ],
        None => Seq::empty(),
    } + opt_num_line("max_item_repeats: "@, p.max_item_repeats) + opt_line(
        "completion_source: "@,
        p.completion_source,
    )
}

fn progress_detail_of(p: &ExecuteProgress) -> (r: Vec<String>)
    ensures
        views(r@) == progress_detail(*p),
{
    let mut out: Vec<String> = Vec::new();
    let mut t = "execute_progress: todos=".to_owned();
    push_num(&mut t, p.todo_completed);
    push_str(&mut t, "/");
    push_num(&mut t, p.todo_total);
    push_str(&mut t, " open=");
    push_num(&mut t, p.todo_open);
    push_str(&mut t, " repeat_count=");
    push_num(&mut t, p.repeat_count);
    push_str(&mut t, " no_progress_streak=");
    push_num(&mut t, p.no_progress_streak);
    push_str(&mut t, " max_step_repeats=");
    push_num(&mut t, p.max_step_repeats);
    push_text(&mut out, t);
    let ghost a = views(out@);
    match &p.current_item_id {
        Some(i) => {
            let mut t = "current_item: ".to_owned();
            push_str(&mut t, i.as_str());
            push_str(&mut t, " (");
            push_num(
                &mut t,
                match p.current_item_index {
                    Some(x) => x,
                    None => 0,
                },
            );
            push_str(&mut t, "/");
            push_num(
                &mut t,
                match p.current_item_total {
                    Some(x) => x,
                    None => 0,
                },
            );
            push_str(&mut t, ")");
            push_text(&mut out, t);
        },
        None => {},
    }
    let ghost b = views(out@);
    push_opt_num_line(&mut out, "max_item_repeats: ", p.max_item_repeats);
    push_opt_line(&mut out, "completion_source: ", &p.completion_source);
    proof {
        assert(views(out@) =~= progress_detail(*p));
    }
    out
}

pub open spec fn tools_detail(t: ToolCapabilityDiagnostics) -> Seq<Seq<char>> {
    seq![
        "tool_capabilities: bash_fallback_count="@ + dec(t.bash_fallback_count as nat) + " question_block_count="@
            + dec(t.question_block_count as nat) + " tool_switch_after_failure="@ + dec(
            t.tool_switch_after_failure as nat,
        ) + " same_intent_retry_count="@ + dec(t.same_intent_retry_count as nat),
        "tool_invocations: "@ + spec_counter_map(t.tool_invocations@),
        "tool_families: "@ + spec_counter_map(t.family_invocations@),
        "tool_failures: "@ + spec_counter_map(t.tool_failure_count_by_kind@),
    ]
}

fn tools_detail_of(t: &ToolCapabilityDiagnostics) -> (r: Vec<String>)
    ensures
        views(r@) == tools_detail(*t),
{
    let mut out: Vec<String> = Vec::new();
    let mut l = "tool_capabilities: bash_fallback_count=".to_owned();
    push_num(&mut l, t.bash_fallback_count as u64);
    push_str(&mut l, " question_block_count=");
    push_num(&mut l, t.question_block_count as u64);
    push_str(&mut l, " tool_switch_after_failure=");
    push_num(&mut l, t.tool_switch_after_failure as u64);
    push_str(&mut l, " same_intent_retry_count=");
    push_num(&mut l, t.same_intent_retry_count as u64);
    push_text(&mut out, l);
    push_text(&mut out, cat("tool_invocations: ", format_counter_map(&t.tool_invocations).as_str()));
    push_text(&mut out, cat("tool_families: ", format_counter_map(&t.family_invocations).as_str()));
    push_text(&mut out, cat("tool_failures: ", format_counter_map(&t.tool_failure_count_by_kind).as_str()));
    proof {
        assert(views(out@) =~= tools_detail(*t));
    }
    out
}

/// The output contract: its format, when known, and its status.
pub open spec fn contract_label(status: StepOutputStatus, format: Option<String>) -> Seq<char> {
    match format {
        Some(f) => "format="@ + f@ + " · status="@ + output_status_label(status),
        None => "status="@ + output_status_label(status),
    }
}

/// The attempts of an output: with retries when any were allowed.
pub open spec fn attempts_label(o: StepOutputDiagnostics) -> Seq<char> {
    if o.max_retries > 0 {
        " · attempts="@ + dec(o.attempts as nat) + " · retries="@ + dec(o.retry_count as nat) + "/"@ + dec(
            o.max_retries as nat,
        )
    } else if o.attempts > 0 {
        " · attempts="@ + dec(o.attempts as nat)
    } else {
        Seq::empty()
    }
}

pub open spec fn output_detail(o: StepOutputDiagnostics) -> Seq<Seq<char>> {
    seq![
        "output: "@ + output_status_label(o.status),
        "output_contract: "@ + contract_label(o.status, o.format) + " · attempt="@ + attempt_kind_label(
            o.attempt_kind,
        ) + match o.schema_path {
            Some(p) => " · schema="@ + p@,
            None => Seq::<char>::empty(),
        } + attempts_label(o),
    ] + match o.recovery_decision {
        Some(r) => seq!["recovery_decision: "@ + recovery_label(r)],
        None => Seq::empty(),
    } + preview_block("previous_response_preview:"@, o.previous_response_preview) + preview_block(
        "extracted_json_preview:"@,
        o.extracted_json_preview,
    ) + opt_line("validation_error: "@, o.validation_error)
}

fn contract_text_of(o: &StepOutputDiagnostics) -> (r: String)
    ensures
        r@ == contract_label(o.status, o.format),
{
    let mut t = String::new();
    match &o.format {
        Some(f) => {
            push_str(&mut t, "format=");
            push_str(&mut t, f.as_str());
            push_str(&mut t, " · status=");
            push_str(&mut t, output_status_label_of(o.status));
        },
        None => {
            push_str(&mut t, "status=");
            push_str(&mut t, output_status_label_of(o.status));
        },
    }
    t
}

fn attempts_text_of(o: &StepOutputDiagnostics) -> (r: String)
    ensures
        r@ == attempts_label(*o),
{
    let mut t = String::new();
    if o.max_retries > 0 {
        push_str(&mut t, " · attempts=");
        push_num(&mut t, o.attempts as u64);
        push_str(&mut t, " · retries=");
        push_num(&mut t, o.retry_count as u64);
        push_str(&mut t, "/");
        push_num(&mut t, o.max_retries as u64);
    } else if o.attempts > 0 {
        push_str(&mut t, " · attempts=");
        push_num(&mut t, o.attempts as u64);
    }
    t
}

fn output_contract_of(o: &StepOutputDiagnostics) -> (r: String)
    ensures
        r@ == "output_contract: "@ + contract_label(o.status, o.format) + " · attempt="@ + attempt_kind_label(
            o.attempt_kind,
        ) + match o.schema_path {
            Some(p) => " · schema="@ + p@,
            None => Seq::<char>::empty(),
        } + attempts_label(*o),
{
    let mut t = "output_contract: ".to_owned();
    let contract = contract_text_of(o);
    push_str(&mut t, contract.as_str());
    push_str(&mut t, " · attempt=");
    push_str(&mut t, attempt_kind_label_of(o.attempt_kind));
    let ghost c = t@;
    match &o.schema_path {
        Some(p) => {
            push_str(&mut t, " · schema=");
            push_str(&mut t, p.as_str());
        },
        None => {},
    }
    let ghost e = t@;
    let attempts = attempts_text_of(o);
    push_str(&mut t, attempts.as_str());
    proof {
        assert(e =~= c + match o.schema_path {
            Some(p) => " · schema="@ + p@,
            None => Seq::<char>::empty(),
        });
    }
    t
}

fn output_detail_of(o: &StepOutputDiagnostics) -> (r: Vec<String>)
    ensures
        views(r@) == output_detail(*o),
{
    let mut out: Vec<String> = Vec::new();
    push_text(&mut out, cat("output: ", output_status_label_of(o.status)));
    push_text(&mut out, output_contract_of(o));
    let ghost a = views(out@);
    match o.recovery_decision {
        Some(r) => push_text(&mut out, cat("recovery_decision: ", recovery_label_of(r))),
        None => {},
    }
    let ghost b = views(out@);
    push_texts(&mut out, preview_block_of("previous_response_preview:", &o.previous_response_preview));
    push_texts(&mut out, preview_block_of("extracted_json_preview:", &o.extracted_json_preview));
    push_opt_line(&mut out, "validation_error: ", &o.validation_error);
    proof {
        assert(b =~= a + match o.recovery_decision {
            Some(r) => seq!["recovery_decision: "@ + recovery_label(r)],
            None => Seq::<Seq<char>>::empty(),
        });
        assert(views(out@) =~= output_detail(*o));
    }
    out
}

/// The lines of one context write: path and kind, and where known what
/// the value was before and after.
pub open spec fn write_detail(w: StepContextWrite) -> Seq<Seq<char>> {
    seq!["  "@ + w.path@ + " ("@ + write_kind_label(w.kind) + ")"@] + match w.before_preview {
        Some(p) => seq!["    before "@ + preview_of(p@, 140)],
        None => Seq::empty(),
    } + match w.after_preview {
        Some(p) => seq!["    after  "@ + preview_of(p@, 140)],
        None => Seq::empty(),
    }
}

pub open spec fn writes_detail_from(ws: Seq<StepContextWrite>) -> Seq<Seq<char>>
    decreases ws.len(),
{
    if ws.len() == 0 {
        Seq::empty()
    } else {
        writes_detail_from(ws.drop_last()) + write_detail(ws.last())
    }
}

pub open spec fn writes_detail(ws: Seq<StepContextWrite>) -> Seq<Seq<char>> {
    if ws.len() == 0 {
        seq!["session_writes: none"@]
    } else {
        seq!["session_writes:"@] + writes_detail_from(ws)
    }
}

fn write_detail_of(w: &StepContextWrite) -> (r: Vec<String>)
    ensures
        views(r@) == write_detail(*w),
{
    let mut out: Vec<String> = Vec::new();
    let mut t = "  ".to_owned();
    push_str(&mut t, w.path.as_str());
    push_str(&mut t, " (");
    push_str(&mut t, write_kind_label_of(w.kind));
    push_str(&mut t, ")");
    push_text(&mut out, t);
    let ghost a = views(out@);
    match &w.before_preview {
        Some(p) => push_text(&mut out, cat("    before ", truncate_preview(p.as_str(), 140).as_str())),
        None => {},
    }
    let ghost b = views(out@);
    match &w.after_preview {
        Some(p) => push_text(&mut out, cat("    after  ", truncate_preview(p.as_str(), 140).as_str())),
        None => {},
    }
    proof {
        assert(views(out@) =~= write_detail(*w));
    }
    out
}

fn writes_detail_of(ws: &Vec<StepContextWrite>) -> (r: Vec<String>)
    ensures
        views(r@) == writes_detail(ws@),
{
    let mut out: Vec<String> = Vec::new();
    if ws.len() == 0 {
        push_text(&mut out, "session_writes: none".to_owned());
        proof {
            assert(views(out@) =~= writes_detail(ws@));
        }
        return out;
    }
    push_text(&mut out, "session_writes:".to_owned());
    let mut i: usize = 0;
    while i < ws.len()
        invariant
            i <= ws@.len(),
            ws@.len() > 0,
            views(out@) == seq!["session_writes:"@] + writes_detail_from(ws@.take(i as int)),
        decreases ws.len() - i,
    {
        push_texts(&mut out, write_detail_of(&ws[i]));
        proof {
            assert(ws@.take(i + 1).drop_last() =~= ws@.take(i as int));
            assert(views(out@) =~= seq!["session_writes:"@] + writes_detail_from(ws@.take(i + 1)));
        }
        i = i + 1;
    }
    proof {
        assert(ws@.take(ws@.len() as int) =~= ws@);
    }
    out
}

/// The optional sections of a step's detail: cache, context, progress and
/// tools, each where present.
pub open spec fn optional_detail(d: StepDiagnostics) -> Seq<Seq<char>> {
    (match d.cache {
        Some(c) => cache_detail(c),
        None => Seq::empty(),
    }) + match d.context {
        Some(c) => context_detail(c),
        None => Seq::empty(),
    } + match d.execute_progress {
        Some(p) => progress_detail(p),
        None => Seq::empty(),
    } + match d.tool_capabilities {
        Some(t) => tools_detail(t),
        None => Seq::empty(),
    }
}

/// The detail view of a step's diagnostics.
pub open spec fn spec_detail_lines(d: StepDiagnostics) -> Seq<Seq<char>> {
    detail_head(d) + source_lines(d) + input_detail(d) + optional_detail(d) + output_detail(d.output)
        + writes_detail(d.session_writes@)
}

fn detail_head_of(d: &StepDiagnostics) -> (r: Vec<String>)
    ensures
        views(r@) == detail_head(*d),
{
    let mut out: Vec<String> = Vec::new();
    let mut t = "step: ".to_owned();
    push_str(&mut t, d.workflow_role.as_str());
    push_str(&mut t, ":");
    push_str(&mut t, d.workflow_id.as_str());
    push_str(&mut t, " ");
    push_str(&mut t, d.step_label.as_str());
    push_str(&mut t, " ");
    push_num(&mut t, d.index as u64);
    push_str(&mut t, "/");
    push_num(&mut t, d.total as u64);
    push_text(&mut out, t);
    push_text(&mut out, cat("step_id: ", d.step_id.as_str()));
    push_text(&mut out, cat("input: ", input_status_label_of(d.input.status)));
    proof {
        assert(views(out@) =~= detail_head(*d));
    }
    out
}

fn input_detail_of(d: &StepDiagnostics) -> (r: Vec<String>)
    ensures
        views(r@) == input_detail(*d),
{
    let mut out = preview_block_of("structured_input_preview:", &d.input.structured_input_preview);
    push_texts(&mut out, preview_block_of("todo_state_preview:", &d.input.todo_state_preview));
    push_opt_line(&mut out, "input_error: ", &d.input.error);
    out
}

fn optional_detail_of(d: &StepDiagnostics) -> (r: Vec<String>)
    ensures
        views(r@) == optional_detail(*d),
{
    let mut out: Vec<String> = Vec::new();
    match &d.cache {
        Some(c) => push_texts(&mut out, cache_detail_of(c)),
        None => {},
    }
    let ghost b = views(out@);
    match &d.context {
        Some(c) => push_texts(&mut out, context_detail_of(c)),
        None => {},
    }
    let ghost c0 = views(out@);
    match &d.execute_progress {
        Some(p) => push_texts(&mut out, progress_detail_of(p)),
        None => {},
    }
    let ghost e = views(out@);
    match &d.tool_capabilities {
        Some(t) => push_texts(&mut out, tools_detail_of(t)),
        None => {},
    }
    proof {
        assert(b =~= match d.cache {
            Some(c) => cache_detail(c),
            None => Seq::<Seq<char>>::empty(),
        });
        assert(c0 =~= b + match d.context {
            Some(c) => context_detail(c),
            None => Seq::<Seq<char>>::empty(),
        });
        assert(e =~= c0 + match d.execute_progress {
            Some(p) => progress_detail(p),
            None => Seq::<Seq<char>>::empty(),
        });
        assert(views(out@) =~= optional_detail(*d));
    }
    out
}

/// The detail view of a step's diagnostics: the step, its inputs and their
/// previews, cache, context, progress, tools, output contract and previews,
/// and the context writes.
pub fn build_step_diagnostics_detail_lines(d: &StepDiagnostics) -> (r: Vec<String>)
    ensures
        views(r@) == spec_detail_lines(*d),
{
    let mut out = detail_head_of(d);
    push_texts(&mut out, source_lines_of(d));
    push_texts(&mut out, input_detail_of(d));
    push_texts(&mut out, optional_detail_of(d));
    push_texts(&mut out, output_detail_of(&d.output));
    push_texts(&mut out, writes_detail_of(&d.session_writes));
    out
}

// ---------------------------------------------------------------------------
// The steps in panel order
// ---------------------------------------------------------------------------

/// Whether `a` comes no later than `b` in the panel: by workflow role name,
/// workflow, position and step id.
pub open spec fn panel_key_le(a: StepDiagnostics, b: StepDiagnostics) -> bool {
    let (ra, rb) = (a.workflow_role.spec_name(), b.workflow_role.spec_name());
    if ra != rb {
        lex_le(ra, rb)
    } else if a.workflow_id@ != b.workflow_id@ {
        lex_le(a.workflow_id@, b.workflow_id@)
    } else if a.index != b.index {
        a.index < b.index
    } else {
        lex_le(a.step_id@, b.step_id@)
    }
}

fn panel_key_le_of(a: &StepDiagnostics, b: &StepDiagnostics) -> (r: bool)
    ensures
        r == panel_key_le(*a, *b),
{
    let ra = a.workflow_role.as_str();
    let rb = b.workflow_role.as_str();
    if !str_eq(ra, rb) {
        return str_le(ra, rb);
    }
    if !str_eq(a.workflow_id.as_str(), b.workflow_id.as_str()) {
        return str_le(a.workflow_id.as_str(), b.workflow_id.as_str());
    }
    if a.index != b.index {
        return a.index < b.index;
    }
    str_le(a.step_id.as_str(), b.step_id.as_str())
}

/// `x` placed into `s` after every step that comes no later than it, from
/// the end: the insertion of a stable sort.
pub open spec fn insert_in_order(s: Seq<StepDiagnostics>, x: StepDiagnostics) -> Seq<StepDiagnostics>
    decreases s.len(),
{
    if s.len() == 0 {
        seq![x]
    } else if panel_key_le(s.last(), x) {
        s.push(x)
    } else {
        insert_in_order(s.drop_last(), x).push(s.last())
    }
}

/// The steps in panel order; steps of equal order keep their order (a
/// stable sort).
pub open spec fn in_panel_order(s: Seq<StepDiagnostics>) -> Seq<StepDiagnostics>
    decreases s.len(),
{
    if s.len() == 0 {
        s
    } else {
        insert_in_order(in_panel_order(s.drop_last()), s.last())
    }
}

proof fn lemma_insert_len(s: Seq<StepDiagnostics>, x: StepDiagnostics)
    ensures
        insert_in_order(s, x).len() == s.len() + 1,
    decreases s.len(),
{
    if s.len() > 0 && !panel_key_le(s.last(), x) {
        lemma_insert_len(s.drop_last(), x);
    }
}

proof fn lemma_order_len(s: Seq<StepDiagnostics>)
    ensures
        in_panel_order(s).len() == s.len(),
    decreases s.len(),
{
    if s.len() > 0 {
        lemma_order_len(s.drop_last());
        lemma_insert_len(in_panel_order(s.drop_last()), s.last());
    }
}

/// Puts the steps in panel order, keeping the order of equal steps.
fn sort_for_panel(v: &mut Vec<StepDiagnostics>)
    ensures
        final(v)@ == in_panel_order(old(v)@),
{
    let ghost orig = v@;
    let n = v.len();
    let mut i: usize = 0;
    while i < n
        invariant
            i <= n,
            n == orig.len(),
            v@.len() == n,
            v@.take(i as int) == in_panel_order(orig.take(i as int)),
            v@.skip(i as int) == orig.skip(i as int),
        decreases n - i,
    {
        let ghost sorted = v@.take(i as int);
        proof {
            lemma_order_len(orig.take(i as int));
            assert(orig.take(i + 1).drop_last() =~= orig.take(i as int));
            assert(orig.take(i + 1).last() == orig[i as int]);
            assert(v@[i as int] == v@.skip(i as int)[0]);
        }
        let ghost before = v@;
        let x = v.remove(i);
        proof {
            assert(x == orig[i as int]);
            assert(v@.take(i as int) =~= sorted);
            assert forall|k: int| 0 <= k < n - i - 1 implies #[trigger] v@.skip(i as int)[k] == orig.skip(i + 1)[k] by {
                assert(before.skip(i as int)[k + 1] == before[i + 1 + k]);
                assert(orig.skip(i as int)[k + 1] == orig[i + 1 + k]);
            }
            assert(v@.skip(i as int) =~= orig.skip(i + 1));
            assert(sorted.len() == i);
            assert(sorted.take(i as int) =~= sorted);
            assert(sorted.subrange(i as int, i as int) =~= Seq::<StepDiagnostics>::empty());
            assert(insert_in_order(sorted, x) =~= insert_in_order(sorted.take(i as int), x) + sorted.subrange(i as int, i as int));
        }
        let mut j: usize = i;
        while j > 0 && !panel_key_le_of(&v[j - 1], &x)
            invariant
                j <= i,
                i < n,
                v@.len() == n - 1,
                v@.take(i as int) == sorted,
                v@.skip(i as int) == orig.skip(i + 1),
                insert_in_order(sorted, x) == insert_in_order(sorted.take(j as int), x) + sorted.subrange(j as int, i as int),
            decreases j,
        {
            proof {
                let t = sorted.take(j as int);
                assert(t.last() == v@[j - 1]);
                assert(t.drop_last() =~= sorted.take(j - 1));
                assert(sorted.subrange(j - 1, i as int) =~= seq![t.last()] + sorted.subrange(j as int, i as int));
            }
            j = j - 1;
        }
        proof {
            let t = sorted.take(j as int);
            if j > 0 {
                assert(t.last() == v@[j - 1]);
                assert(insert_in_order(t, x) == t.push(x));
            } else {
                assert(t =~= Seq::<StepDiagnostics>::empty());
            }
            assert(insert_in_order(t, x) =~= t.push(x));
        }
        v.insert(j, x);
        proof {
            let t = sorted.take(j as int);
            assert(v@.take(i + 1) =~= t.push(x) + sorted.subrange(j as int, i as int));
            assert(v@.take(i + 1) == in_panel_order(orig.take(i + 1)));
            assert(v@.skip(i + 1) =~= orig.skip(i + 1));
        }
        i = i + 1;
    }
    proof {
        assert(v@ =~= v@.take(n as int));
        assert(orig.take(n as int) =~= orig);
    }
}

// ---------------------------------------------------------------------------
// Model use for the delivery summary
// ---------------------------------------------------------------------------

/// What the delivery summary reads of a step: its attempts and token use.
pub open spec fn usage_of(d: StepDiagnostics) -> DeliveryStepUsage {
    DeliveryStepUsage {
        attempts: d.output.attempts,
        cache: match d.cache {
            Some(c) => Some(
                DeliveryCacheUsage {
                    request_input_tokens: c.request_input_tokens,
                    cache_creation_input_tokens: c.cache_creation_input_tokens,
                    cache_read_input_tokens: c.cache_read_input_tokens,
                },
            ),
            None => None,
        },
    }
}

pub open spec fn step_usages(ds: Seq<StepDiagnostics>) -> Seq<DeliveryStepUsage> {
    ds.map_values(|d: StepDiagnostics| usage_of(d))
}

pub fn step_usages_of(ds: &Vec<StepDiagnostics>) -> (r: Vec<DeliveryStepUsage>)
    ensures
        r@ == step_usages(ds@),
{
    let mut out: Vec<DeliveryStepUsage> = Vec::new();
    let mut i: usize = 0;
    while i < ds.len()
        invariant
            i <= ds@.len(),
            out@ == step_usages(ds@.take(i as int)),
        decreases ds.len() - i,
    {
        let d = &ds[i];
        let u = DeliveryStepUsage {
            attempts: d.output.attempts,
            cache: match &d.cache {
                Some(c) => Some(
                    DeliveryCacheUsage {
                        request_input_tokens: c.request_input_tokens,
                        cache_creation_input_tokens: c.cache_creation_input_tokens,
                        cache_read_input_tokens: c.cache_read_input_tokens,
                    },
                ),
                None => None,
            },
        };
        out.push(u);
        proof {
            assert(step_usages(ds@.take(i + 1)) =~= step_usages(ds@.take(i as int)).push(usage_of(ds@[i as int])));
        }
        i = i + 1;
    }
    proof {
        assert(ds@.take(ds@.len() as int) =~= ds@);
    }
    out
}

/// The texts of diagnostics lines, as owned strings.
pub fn diagnostics_texts(v: &Vec<DiagnosticsLine>) -> (r: Vec<String>)
    ensures
        views(r@) == line_texts(v@),
{
    let mut out: Vec<String> = Vec::new();
    let mut i: usize = 0;
    while i < v.len()
        invariant
            i <= v@.len(),
            views(out@) == line_texts(v@.take(i as int)),
        decreases v.len() - i,
    {
        push_text(&mut out, v[i].text.clone());
        proof {
            assert(line_texts(v@.take(i + 1)) =~= line_texts(v@.take(i as int)).push(v@[i as int].text@));
        }
        i = i + 1;
    }
    proof {
        assert(v@.take(v@.len() as int) =~= v@);
    }
    out
}

// ---------------------------------------------------------------------------
// The diagnostics panel
// ---------------------------------------------------------------------------

/// Every step's tool counters fit their sums.
pub open spec fn all_fit(ds: Seq<StepDiagnostics>) -> bool {
    forall|i: int| 0 <= i < ds.len() ==> tool_counts_fit(#[trigger] ds[i])
}

proof fn lemma_insert_fit(s: Seq<StepDiagnostics>, x: StepDiagnostics)
    requires
        all_fit(s),
        tool_counts_fit(x),
    ensures
        all_fit(insert_in_order(s, x)),
    decreases s.len(),
{
    if s.len() > 0 && !panel_key_le(s.last(), x) {
        lemma_insert_fit(s.drop_last(), x);
        let r = insert_in_order(s.drop_last(), x);
        assert forall|i: int| 0 <= i < r.push(s.last()).len() implies tool_counts_fit(#[trigger] r.push(s.last())[i]) by {
            if i < r.len() {
                assert(r.push(s.last())[i] == r[i]);
            }
        }
    } else if s.len() > 0 {
        assert forall|i: int| 0 <= i < s.push(x).len() implies tool_counts_fit(#[trigger] s.push(x)[i]) by {
            if i < s.len() {
                assert(s.push(x)[i] == s[i]);
            }
        }
    }
}

proof fn lemma_order_fit(s: Seq<StepDiagnostics>)
    requires
        all_fit(s),
    ensures
        all_fit(in_panel_order(s)),
    decreases s.len(),
{
    if s.len() > 0 {
        assert(all_fit(s.drop_last())) by {
            assert forall|i: int| 0 <= i < s.drop_last().len() implies tool_counts_fit(#[trigger] s.drop_last()[i]) by {
                assert(s.drop_last()[i] == s[i]);
            }
        }
        lemma_order_fit(s.drop_last());
        assert(tool_counts_fit(s[s.len() - 1]));
        lemma_insert_fit(in_panel_order(s.drop_last()), s.last());
    }
}

/// The first step at or after `i` whose diagnostics have id `id`, or -1.
pub open spec fn diagnostics_position_from(s: Seq<StepDiagnostics>, id: Seq<char>, i: int) -> int
    decreases s.len() - i,
{
    if i < 0 || i >= s.len() {
        -1
    } else if s[i].id@ == id {
        i
    } else {
        diagnostics_position_from(s, id, i + 1)
    }
}

pub open spec fn diagnostics_position(s: Seq<StepDiagnostics>, id: Seq<char>) -> int {
    diagnostics_position_from(s, id, 0)
}

proof fn lemma_diagnostics_position(s: Seq<StepDiagnostics>, id: Seq<char>, i: int)
    requires
        0 <= i,
    ensures
        diagnostics_position_from(s, id, i) == -1 || (i <= diagnostics_position_from(s, id, i) < s.len()
            && s[diagnostics_position_from(s, id, i)].id@ == id),
    decreases s.len() - i,
{
    if i < s.len() && s[i].id@ != id {
        lemma_diagnostics_position(s, id, i + 1);
    }
}

/// The steps once `x` replaced the step with its id (or joined them), in
/// panel order.
pub open spec fn diagnostics_upserted(s: Seq<StepDiagnostics>, x: StepDiagnostics) -> Seq<StepDiagnostics> {
    let k = diagnostics_position(s, x.id@);
    in_panel_order(
        if k >= 0 {
            s.update(k, x)
        } else {
            s.push(x)
        },
    )
}

/// The number of steps whose output broke its contract.
pub open spec fn invalid_count(ds: Seq<StepDiagnostics>) -> nat
    decreases ds.len(),
{
    if ds.len() == 0 {
        0
    } else {
        invalid_count(ds.drop_last()) + if ds.last().output.status == StepOutputStatus::Invalid {
            1nat
        } else {
            0nat
        }
    }
}

proof fn lemma_invalid_count_le(ds: Seq<StepDiagnostics>)
    ensures
        invalid_count(ds) <= ds.len(),
    decreases ds.len(),
{
    if ds.len() > 0 {
        lemma_invalid_count_le(ds.drop_last());
    }
}

/// The detail title of a step.
pub open spec fn detail_title(d: StepDiagnostics) -> Seq<char> {
    " Contract Diagnostics "@ + d.workflow_role.spec_name() + ":"@ + d.workflow_id@ + " "@ + d.step_label@ + " "@
}

impl App {
    /// `after` is `before` with the step diagnostics `d` recorded: without
    /// escape sequences in what they quote, in place of those with the same
    /// id or added, the steps in panel order and the panel lines rebuilt.
    pub open spec fn diagnostics_recorded(before: App, after: App, d: StepDiagnostics) -> bool {
        &&& exists|x: StepDiagnostics|
            #[trigger] sanitized_diagnostics(d, x) && after.step_diagnostics@ == diagnostics_upserted(
                before.step_diagnostics@,
                x,
            )
        &&& all_fit(after.step_diagnostics@)
        &&& line_pairs(after.diagnostics_lines@) == all_line_pairs(after.step_diagnostics@)
        &&& after == (App {
            step_diagnostics: after.step_diagnostics,
            diagnostics_lines: after.diagnostics_lines,
            ..before
        })
    }

    fn find_diagnostics(&self, id: &str) -> (r: Option<usize>)
        ensures
            match r {
                Some(k) => k as int == diagnostics_position(self.step_diagnostics@, id@) && k
                    < self.step_diagnostics@.len(),
                None => diagnostics_position(self.step_diagnostics@, id@) == -1,
            },
    {
        proof {
            lemma_diagnostics_position(self.step_diagnostics@, id@, 0);
        }
        let mut i: usize = 0;
        while i < self.step_diagnostics.len()
            invariant
                i <= self.step_diagnostics@.len(),
                diagnostics_position(self.step_diagnostics@, id@) == diagnostics_position_from(
                    self.step_diagnostics@,
                    id@,
                    i as int,
                ),
            decreases self.step_diagnostics.len() - i,
        {
            if str_eq(self.step_diagnostics[i].id.as_str(), id) {
                return Some(i);
            }
            i = i + 1;
        }
        None
    }

    fn rebuild_diagnostics_lines(&mut self)
        requires
            all_fit(old(self).step_diagnostics@),
        ensures
            line_pairs(final(self).diagnostics_lines@) == all_line_pairs(final(self).step_diagnostics@),
            *final(self) == (App { diagnostics_lines: final(self).diagnostics_lines, ..*old(self) }),
    {
        let mut out: Vec<DiagnosticsLine> = Vec::new();
        let mut i: usize = 0;
        while i < self.step_diagnostics.len()
            invariant
                i <= self.step_diagnostics@.len(),
                all_fit(self.step_diagnostics@),
                line_pairs(out@) == all_line_pairs(self.step_diagnostics@.take(i as int)),
            decreases self.step_diagnostics.len() - i,
        {
            let mut more = build_diagnostics_lines(&self.step_diagnostics[i]);
            let ghost prev = out@;
            let ghost m = more@;
            out.append(&mut more);
            proof {
                assert(out@ == prev + m);
                assert(line_pairs(prev + m) =~= line_pairs(prev) + line_pairs(m));
                assert(self.step_diagnostics@.take(i + 1).drop_last() =~= self.step_diagnostics@.take(i as int));
            }
            i = i + 1;
        }
        proof {
            assert(self.step_diagnostics@.take(self.step_diagnostics@.len() as int) =~= self.step_diagnostics@);
        }
        self.diagnostics_lines = out;
    }

    /// Records the contract diagnostics of a step, without escape sequences
    /// in what they quote: they replace those of the same id or join them,
    /// the steps go in panel order, and the panel lines are rebuilt.
    pub fn upsert_step_diagnostics(&mut self, diagnostics: StepDiagnostics)
        requires
            all_fit(old(self).step_diagnostics@),
            tool_counts_fit(diagnostics),
        ensures
            App::diagnostics_recorded(*old(self), *final(self), diagnostics),
    {
        let clean = sanitize_step_diagnostics(diagnostics);
        let ghost x = clean;
        proof {
            assert(tool_counts_fit(x));
        }
        match self.find_diagnostics(clean.id.as_str()) {
            Some(k) => {
                self.step_diagnostics.set(k, clean);
            },
            None => {
                self.step_diagnostics.push(clean);
            },
        }
        proof {
            let s = self.step_diagnostics@;
            assert forall|i: int| 0 <= i < s.len() implies tool_counts_fit(#[trigger] s[i]) by {
                if i < old(self).step_diagnostics@.len() && s[i] != x {
                    assert(s[i] == old(self).step_diagnostics@[i]);
                }
            }
            lemma_order_fit(s);
        }
        sort_for_panel(&mut self.step_diagnostics);
        self.rebuild_diagnostics_lines();
    }

    /// The title of the diagnostics panel, with the number of broken output
    /// contracts when there are any.
    pub fn diagnostics_panel_title(&self) -> (r: String)
        ensures
            r@ == crate::app::titled(
                if invalid_count(self.step_diagnostics@) > 0 {
                    " Contract Diagnostics (!"@ + dec(invalid_count(self.step_diagnostics@)) + ") "@
                } else {
                    " Contract Diagnostics "@
                },
                self.focused_panel == crate::app::Panel::Diagnostics,
            ),
    {
        let mut invalid: usize = 0;
        let mut i: usize = 0;
        while i < self.step_diagnostics.len()
            invariant
                i <= self.step_diagnostics@.len(),
                invalid == invalid_count(self.step_diagnostics@.take(i as int)),
            decreases self.step_diagnostics.len() - i,
        {
            proof {
                assert(self.step_diagnostics@.take(i + 1).drop_last() =~= self.step_diagnostics@.take(i as int));
                lemma_invalid_count_le(self.step_diagnostics@.take(i as int));
            }
            if self.step_diagnostics[i].output.status == StepOutputStatus::Invalid {
                invalid = invalid + 1;
            }
            i = i + 1;
        }
        proof {
            assert(self.step_diagnostics@.take(self.step_diagnostics@.len() as int) =~= self.step_diagnostics@);
        }
        let mut title = if invalid > 0 {
            let mut t = " Contract Diagnostics (!".to_owned();
            push_num(&mut t, invalid as u64);
            push_str(&mut t, ") ");
            t
        } else {
            " Contract Diagnostics ".to_owned()
        };
        if self.focused_panel == crate::app::Panel::Diagnostics {
            push_str(&mut title, "◆ ");
        }
        title
    }

    /// Opens the detail of the step diagnostics `id`, when there are such,
    /// and gives the step's label.
    pub fn open_step_diagnostics_detail(&mut self, id: &str) -> (r: Option<String>)
        ensures
            ({
                let k = diagnostics_position(old(self).step_diagnostics@, id@);
                if k >= 0 {
                    let d = old(self).step_diagnostics@[k];
                    &&& r == Some(d.step_label)
                    &&& App::detail_opened(*old(self), *final(self), detail_title(d), spec_detail_lines(d))
                } else {
                    r.is_none() && *final(self) == *old(self)
                }
            }),
    {
        let k = match self.find_diagnostics(id) {
            Some(k) => k,
            None => return None,
        };
        let d = &self.step_diagnostics[k];
        let mut title = " Contract Diagnostics ".to_owned();
        push_str(&mut title, d.workflow_role.as_str());
        push_str(&mut title, ":");
        push_str(&mut title, d.workflow_id.as_str());
        push_str(&mut title, " ");
        push_str(&mut title, d.step_label.as_str());
        push_str(&mut title, " ");
        let lines = build_step_diagnostics_detail_lines(d);
        let label = d.step_label.clone();
        self.open_detail_overlay(title.as_str(), lines);
        Some(label)
    }

    /// The diagnostics id of the panel line under the selection, when the
    /// selection is on a line that names one.
    pub open spec fn selected_diagnostics_id(self) -> Option<Seq<char>> {
        match self.diagnostics_scroll.list.selected {
            None => None,
            Some(sel) => {
                let w = crate::app::sat_sub(self.diagnostics_rect.width as int, 2);
                let width = if w >= 1 {
                    w
                } else {
                    1
                };
                let wrapped = crate::selection::wrapped_lines(line_texts(self.diagnostics_lines@), width);
                if sel < wrapped.len() {
                    let src = wrapped[sel as int].0;
                    if 0 <= src < self.diagnostics_lines@.len() {
                        opt_view(self.diagnostics_lines@[src].diagnostic_id)
                    } else {
                        None
                    }
                } else {
                    None
                }
            },
        }
    }

    /// Opens the detail of the step under the selection of the diagnostics
    /// panel, and gives the step's label.
    pub fn activate_selected_diagnostics_item(&mut self) -> (r: Option<String>)
        ensures
            match old(self).selected_diagnostics_id() {
                None => r.is_none() && *final(self) == *old(self),
                Some(id) => {
                    let k = diagnostics_position(old(self).step_diagnostics@, id);
                    if k >= 0 {
                        let d = old(self).step_diagnostics@[k];
                        &&& r == Some(d.step_label)
                        &&& App::detail_opened(*old(self), *final(self), detail_title(d), spec_detail_lines(d))
                    } else {
                        r.is_none() && *final(self) == *old(self)
                    }
                },
            },
    {
        let selected = match self.diagnostics_scroll.list.selected {
            Some(s) => s,
            None => return None,
        };
        let w = self.diagnostics_rect.width as usize;
        let width: usize = if w >= 3 {
            w - 2
        } else {
            1
        };
        let wrapped = self.wrapped_panel_lines(crate::app::Panel::Diagnostics, width);
        if selected >= wrapped.len() {
            return None;
        }
        let src = wrapped[selected].source_line_index;
        proof {
            assert(crate::selection::wrapped_views(wrapped@)[selected as int].0 == src as int);
        }
        if src >= self.diagnostics_lines.len() {
            return None;
        }
        let id = match &self.diagnostics_lines[src].diagnostic_id {
            Some(id) => id.clone(),
            None => return None,
        };
        self.open_step_diagnostics_detail(id.as_str())
    }
}

} // verus!
