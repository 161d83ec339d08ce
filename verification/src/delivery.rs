//! What a turn delivered: token use, tool calls, skills, knowledge searches
//! and changed files, and the lines that report them.
use vstd::prelude::*;

use crate::chars::{
    lemma_before_char_append, lemma_dec_digits, is_digit,
    before_char, chars_of, dec, dec_string, dec_usize, index_of_char, join, join_strings,
    parse_u64, parse_u64_spec, push_str, slice_vec, starts_with, str_eq, str_starts_with,
    string_of, views,
};

verus! {

#[derive(Debug, Clone, Copy, PartialEq, Eq, Structural)]
pub enum DeliveryStatus {
    Running,
    Complete,
    Failed,
    Interrupted,
}

impl DeliveryStatus {
    pub open spec fn spec_name(self) -> Seq<char> {
        match self {
            DeliveryStatus::Running => "running"@,
            DeliveryStatus::Complete => "complete"@,
            DeliveryStatus::Failed => "failed"@,
            DeliveryStatus::Interrupted => "interrupted"@,
        }
    }

    pub fn as_str(self) -> (r: &'static str)
        ensures
            r@ == self.spec_name(),
    {
        match self {
            DeliveryStatus::Running => "running",
            DeliveryStatus::Complete => "complete",
            DeliveryStatus::Failed => "failed",
            DeliveryStatus::Interrupted => "interrupted",
        }
    }
}

#[derive(Debug, Clone, Copy, PartialEq, Eq, Structural)]
pub enum DeliveryFileChangeKind {
    Create,
    Update,
    Delete,
}

impl DeliveryFileChangeKind {
    pub open spec fn spec_name(self) -> Seq<char> {
        match self {
            DeliveryFileChangeKind::Create => "create"@,
            DeliveryFileChangeKind::Update => "update"@,
            DeliveryFileChangeKind::Delete => "delete"@,
        }
    }

    pub fn as_str(self) -> (r: &'static str)
        ensures
            r@ == self.spec_name(),
    {
        match self {
            DeliveryFileChangeKind::Create => "create",
            DeliveryFileChangeKind::Update => "update",
            DeliveryFileChangeKind::Delete => "delete",
        }
    }
}

#[derive(Debug, Clone, PartialEq, Eq)]
pub struct DeliveryChangedFile {
    pub path: String,
    pub kind: DeliveryFileChangeKind,
}

/// The delivery record of one turn. `tool_counts` holds one entry per tool
/// name, in ascending order of the name.
#[derive(Debug, Clone, PartialEq, Eq)]
pub struct DeliverySummary {
    pub turn_id: u64,
    pub status: DeliveryStatus,
    pub primary_model: Option<String>,
    pub llm_request_count: u32,
    pub input_tokens: u32,
    pub cache_creation_input_tokens: u32,
    pub cache_read_input_tokens: u32,
    pub token_stats_partial: bool,
    pub tool_call_count: usize,
    pub unique_tool_count: usize,
    pub failed_tool_count: usize,
    pub tool_counts: Vec<(String, u32)>,
    pub recognized_skill_ids: Vec<String>,
    pub loaded_skill_ids: Vec<String>,
    pub ignored_skill_ids: Vec<String>,
    pub document_search_count: usize,
    pub memory_search_count: usize,
    pub observation_search_count: usize,
    pub document_queries: Vec<String>,
    pub memory_queries: Vec<String>,
    pub changed_files: Vec<DeliveryChangedFile>,
}

/// The view of an optional string, or `fallback`.
pub open spec fn or_text(o: Option<String>, fallback: Seq<char>) -> Seq<char> {
    match o {
        Some(s) => s@,
        None => fallback,
    }
}

/// `text` when `b` holds, the empty text otherwise.
pub open spec fn when(b: bool, text: Seq<char>) -> Seq<char> {
    if b {
        text
    } else {
        Seq::empty()
    }
}

/// The paths of changed files, in order.
pub open spec fn paths(files: Seq<DeliveryChangedFile>) -> Seq<Seq<char>> {
    files.map_values(|f: DeliveryChangedFile| f.path@)
}

impl DeliverySummary {
    /// Request input tokens plus cache creation and cache read tokens,
    /// saturated at the largest `u32`.
    pub open spec fn spec_total_tokens(&self) -> nat {
        let sum = self.input_tokens + self.cache_creation_input_tokens + self.cache_read_input_tokens;
        if sum > u32::MAX {
            u32::MAX as nat
        } else {
            sum as nat
        }
    }

    pub fn total_tokens(&self) -> (r: u32)
        ensures
            r == self.spec_total_tokens(),
    {
        self.input_tokens.saturating_add(self.cache_creation_input_tokens).saturating_add(
            self.cache_read_input_tokens,
        )
    }

    pub open spec fn spec_summary_line(&self) -> Seq<char> {
        self.status.spec_name() + " · "@ + or_text(self.primary_model, "model unknown"@) + " · "@
            + dec(self.spec_total_tokens()) + " tok"@ + when(self.token_stats_partial, " partial"@)
            + " · "@ + dec(self.llm_request_count as nat) + " llm · "@ + dec(
            self.tool_call_count as nat,
        ) + " tools · "@ + dec(self.loaded_skill_ids@.len()) + " skills · "@ + dec(
            self.changed_files@.len(),
        ) + " files"@
    }

    /// One line: status, model, tokens, requests, tool calls, loaded skills
    /// and changed files.
    pub fn summary_line(&self) -> (r: String)
        ensures
            r@ == self.spec_summary_line(),
    {
        let mut s = self.status.as_str().to_owned();
        push_str(&mut s, " · ");
        match &self.primary_model {
            Some(m) => push_str(&mut s, m.as_str()),
            None => push_str(&mut s, "model unknown"),
        }
        push_str(&mut s, " · ");
        push_str(&mut s, dec_string(self.total_tokens() as u64).as_str());
        push_str(&mut s, " tok");
        if self.token_stats_partial {
            push_str(&mut s, " partial");
        } else {
            proof {
                assert(s@ + Seq::<char>::empty() =~= s@);
            }
        }
        push_str(&mut s, " · ");
        push_str(&mut s, dec_string(self.llm_request_count as u64).as_str());
        push_str(&mut s, " llm · ");
        push_str(&mut s, dec_usize(self.tool_call_count).as_str());
        push_str(&mut s, " tools · ");
        push_str(&mut s, dec_usize(self.loaded_skill_ids.len()).as_str());
        push_str(&mut s, " skills · ");
        push_str(&mut s, dec_usize(self.changed_files.len()).as_str());
        push_str(&mut s, " files");
        s
    }

    pub open spec fn spec_compact_badge(&self) -> Seq<char> {
        dec(self.spec_total_tokens()) + " tok · "@ + dec(self.llm_request_count as nat) + " llm · "@
            + dec(self.tool_call_count as nat) + " tools · "@ + dec(self.changed_files@.len())
            + " files"@
    }

    /// Tokens, requests, tool calls and changed files, for the sidebar badge.
    pub fn compact_badge(&self) -> (r: String)
        ensures
            r@ == self.spec_compact_badge(),
    {
        let mut s = dec_string(self.total_tokens() as u64);
        push_str(&mut s, " tok · ");
        push_str(&mut s, dec_string(self.llm_request_count as u64).as_str());
        push_str(&mut s, " llm · ");
        push_str(&mut s, dec_usize(self.tool_call_count).as_str());
        push_str(&mut s, " tools · ");
        push_str(&mut s, dec_usize(self.changed_files.len()).as_str());
        push_str(&mut s, " files");
        s
    }
}

/// `turn-<id>:`, the prefix of every section id of a turn.
pub open spec fn spec_turn_prefix(turn_id: u64) -> Seq<char> {
    "turn-"@ + dec(turn_id as nat) + ":"@
}

pub fn turn_prefix(turn_id: u64) -> (r: String)
    ensures
        r@ == spec_turn_prefix(turn_id),
{
    let mut s = "turn-".to_owned();
    push_str(&mut s, dec_string(turn_id).as_str());
    push_str(&mut s, ":");
    s
}

/// The id of a turn's delivery summary section.
pub fn delivery_section_id(turn_id: u64) -> (r: String)
    ensures
        r@ == spec_turn_prefix(turn_id) + "delivery-summary"@,
{
    let mut s = turn_prefix(turn_id);
    push_str(&mut s, "delivery-summary");
    s
}

/// The turn of a section id `turn-<id>:...`: the decimal number between
/// `turn-` and the first `:` (or the end).
pub open spec fn spec_turn_id_of(section_id: Seq<char>) -> Option<u64> {
    if starts_with(section_id, "turn-"@) {
        parse_u64_spec(before_char(section_id.skip(5), ':'))
    } else {
        None
    }
}

/// Every section id of turn `t` (`turn-<t>:` and anything after it) names
/// turn `t` again.
pub proof fn law_turn_id_round_trip(t: u64, rest: Seq<char>)
    ensures
        spec_turn_id_of(spec_turn_prefix(t) + rest) == Some(t),
{
    reveal_strlit("turn-");
    reveal_strlit(":");
    let d = dec(t as nat);
    lemma_dec_digits(t as nat);
    let id = spec_turn_prefix(t) + rest;
    assert(id =~= "turn-"@ + (d + seq![':'] + rest));
    assert(id.skip(5) =~= d + seq![':'] + rest);
    assert(starts_with(id, "turn-"@)) by {
        assert(id.take(5) =~= "turn-"@);
    }
    assert forall|i: int| 0 <= i < d.len() implies d[i] != ':' by {
        assert(is_digit(d[i]));
    }
    lemma_before_char_append(d, ':', rest);
    assert(d[0] != '+') by {
        assert(is_digit(d[0]));
    }
}

pub fn extract_turn_id_from_section_id(section_id: &str) -> (r: Option<u64>)
    ensures
        r == spec_turn_id_of(section_id@),
{
    proof {
        reveal_strlit("turn-");
    }
    if !str_starts_with(section_id, "turn-") {
        return None;
    }
    let v = chars_of(section_id);
    let rest = slice_vec(&v, 5, v.len());
    let end = index_of_char(&rest, ':');
    let head = slice_vec(&rest, 0, end);
    let turn = string_of(head.as_slice());
    proof {
        assert(rest@ =~= section_id@.skip(5));
        assert(head@ =~= rest@.take(end as int));
    }
    parse_u64(turn.as_str())
}

pub open spec fn spec_tool_change_kind(tool_name: Seq<char>) -> Option<DeliveryFileChangeKind> {
    if tool_name == "create_file"@ {
        Some(DeliveryFileChangeKind::Create)
    } else if tool_name == "apply_patch"@ || tool_name == "edit_file"@ || tool_name
        == "write_file"@ {
        Some(DeliveryFileChangeKind::Update)
    } else {
        None
    }
}

/// The kind of file change that a tool makes: `create_file` creates;
/// `apply_patch`, `edit_file` and `write_file` update; others change none.
pub fn tool_change_kind(tool_name: &str) -> (r: Option<DeliveryFileChangeKind>)
    ensures
        r == spec_tool_change_kind(tool_name@),
{
    if str_eq(tool_name, "create_file") {
        Some(DeliveryFileChangeKind::Create)
    } else if str_eq(tool_name, "apply_patch") || str_eq(tool_name, "edit_file") || str_eq(
        tool_name,
        "write_file",
    ) {
        Some(DeliveryFileChangeKind::Update)
    } else {
        None
    }
}

pub open spec fn spec_join_or_none(values: Seq<Seq<char>>) -> Seq<char> {
    if values.len() == 0 {
        "none"@
    } else {
        join(values, ", "@)
    }
}

/// The values joined with `, `, or `none` when there are none.
pub fn join_or_none(values: &Vec<String>) -> (r: String)
    ensures
        r@ == spec_join_or_none(views(values@)),
{
    if values.len() == 0 {
        "none".to_owned()
    } else {
        join_strings(values, ", ")
    }
}

/// The values without repetitions, each kept where it first occurs.
pub open spec fn dedupe_spec(s: Seq<Seq<char>>) -> Seq<Seq<char>>
    decreases s.len(),
{
    if s.len() == 0 {
        s
    } else {
        let d = dedupe_spec(s.drop_last());
        if d.contains(s.last()) {
            d
        } else {
            d.push(s.last())
        }
    }
}

/// Whether `v` holds a string equal to `s`.
fn contains_str(v: &Vec<String>, s: &str) -> (r: bool)
    ensures
        r == views(v@).contains(s@),
{
    let mut i: usize = 0;
    while i < v.len()
        invariant
            i <= v.len(),
            forall|j: int| 0 <= j < i ==> v@[j]@ != s@,
        decreases v.len() - i,
    {
        if str_eq(v[i].as_str(), s) {
            proof {
                assert(views(v@)[i as int] == s@);
            }
            return true;
        }
        i = i + 1;
    }
    proof {
        if views(v@).contains(s@) {
            let k = choose|k: int| 0 <= k < views(v@).len() && views(v@)[k] == s@;
            assert(v@[k]@ == s@);
        }
    }
    false
}

/// The values without repetitions, each kept where it first occurs.
pub fn dedupe(values: Vec<String>) -> (r: Vec<String>)
    ensures
        views(r@) == dedupe_spec(views(values@)),
{
    let mut out: Vec<String> = Vec::new();
    let mut i: usize = 0;
    while i < values.len()
        invariant
            i <= values.len(),
            views(out@) == dedupe_spec(views(values@.take(i as int))),
        decreases values.len() - i,
    {
        proof {
            assert(views(values@.take(i + 1)).drop_last() =~= views(values@.take(i as int)));
        }
        if !contains_str(&out, values[i].as_str()) {
            out.push(values[i].clone());
            proof {
                assert(views(out@) =~= views(out@.drop_last()).push(values@[i as int]@));
            }
        }
        i = i + 1;
    }
    proof {
        assert(values@.take(values.len() as int) =~= values@);
    }
    out
}

/// Appends one line.
fn push_line(v: &mut Vec<String>, line: String)
    ensures
        views(final(v)@) == views(old(v)@).push(line@),
{
    v.push(line);
    proof {
        assert(views(v@) =~= views(old(v)@).push(line@));
    }
}

/// The paths of the changed files, as owned strings.
fn file_paths(files: &Vec<DeliveryChangedFile>) -> (r: Vec<String>)
    ensures
        views(r@) == paths(files@),
{
    let mut out: Vec<String> = Vec::new();
    let mut i: usize = 0;
    while i < files.len()
        invariant
            i <= files.len(),
            views(out@) == paths(files@.take(i as int)),
        decreases files.len() - i,
    {
        push_line(&mut out, files[i].path.clone());
        proof {
            assert(paths(files@.take(i + 1)) =~= paths(files@.take(i as int)).push(files@[i as int].path@));
        }
        i = i + 1;
    }
    proof {
        assert(files@.take(files.len() as int) =~= files@);
    }
    out
}

pub open spec fn tools_line(s: &DeliverySummary) -> Seq<char> {
    "tools: "@ + dec(s.tool_call_count as nat) + " calls · "@ + dec(s.unique_tool_count as nat)
        + " unique · "@ + dec(s.failed_tool_count as nat) + " failed"@
}

fn tools_line_of(s: &DeliverySummary) -> (r: String)
    ensures
        r@ == tools_line(s),
{
    let mut t = "tools: ".to_owned();
    push_str(&mut t, dec_usize(s.tool_call_count).as_str());
    push_str(&mut t, " calls · ");
    push_str(&mut t, dec_usize(s.unique_tool_count).as_str());
    push_str(&mut t, " unique · ");
    push_str(&mut t, dec_usize(s.failed_tool_count).as_str());
    push_str(&mut t, " failed");
    t
}

/// `label` followed by the optional model name, or `unknown`.
fn model_line(label: &str, model: &Option<String>) -> (r: String)
    ensures
        r@ == label@ + or_text(*model, "unknown"@),
{
    let mut t = label.to_owned();
    match model {
        Some(m) => push_str(&mut t, m.as_str()),
        None => push_str(&mut t, "unknown"),
    }
    t
}

/// `text` followed by `suffix` when `b` holds.
fn with_suffix(text: String, b: bool, suffix: &str) -> (r: String)
    ensures
        r@ == text@ + when(b, suffix@),
{
    let mut t = text;
    if b {
        push_str(&mut t, suffix);
    } else {
        proof {
            assert(t@ + Seq::<char>::empty() =~= t@);
        }
    }
    t
}

/// The lines of the delivery panel.
pub open spec fn spec_panel_lines(s: &DeliverySummary) -> Seq<Seq<char>> {
    let base = seq![
        "status: "@ + s.status.spec_name(),
        "model: "@ + or_text(s.primary_model, "unknown"@),
        "tokens: "@ + dec(s.spec_total_tokens()) + " total"@ + when(s.token_stats_partial, " (partial)"@),
        "llm: "@ + dec(s.llm_request_count as nat) + " requests"@,
        tools_line(s),
        "skills: "@ + dec(s.loaded_skill_ids@.len()) + " loaded / "@ + dec(s.recognized_skill_ids@.len())
            + " recognized / "@ + dec(s.ignored_skill_ids@.len()) + " ignored"@,
        "knowledge: document "@ + dec(s.document_search_count as nat) + " · memory "@ + dec(
            s.memory_search_count as nat,
        ) + " · observations "@ + dec(s.observation_search_count as nat),
    ];
    if s.changed_files@.len() == 0 {
        base.push("files: none changed"@)
    } else {
        base.push("files: "@ + dec(s.changed_files@.len()) + " changed"@).push(
            "paths: "@ + join(paths(s.changed_files@), ", "@),
        )
    }
}

pub fn build_delivery_panel_lines(summary: &DeliverySummary) -> (r: Vec<String>)
    ensures
        views(r@) == spec_panel_lines(summary),
{
    let mut lines: Vec<String> = Vec::new();
    let mut t = "status: ".to_owned();
    push_str(&mut t, summary.status.as_str());
    push_line(&mut lines, t);
    push_line(&mut lines, model_line("model: ", &summary.primary_model));
    let mut t = "tokens: ".to_owned();
    push_str(&mut t, dec_string(summary.total_tokens() as u64).as_str());
    push_str(&mut t, " total");
    push_line(&mut lines, with_suffix(t, summary.token_stats_partial, " (partial)"));
    let mut t = "llm: ".to_owned();
    push_str(&mut t, dec_string(summary.llm_request_count as u64).as_str());
    push_str(&mut t, " requests");
    push_line(&mut lines, t);
    push_line(&mut lines, tools_line_of(summary));
    let mut t = "skills: ".to_owned();
    push_str(&mut t, dec_usize(summary.loaded_skill_ids.len()).as_str());
    push_str(&mut t, " loaded / ");
    push_str(&mut t, dec_usize(summary.recognized_skill_ids.len()).as_str());
    push_str(&mut t, " recognized / ");
    push_str(&mut t, dec_usize(summary.ignored_skill_ids.len()).as_str());
    push_str(&mut t, " ignored");
    push_line(&mut lines, t);
    let mut t = "knowledge: document ".to_owned();
    push_str(&mut t, dec_usize(summary.document_search_count).as_str());
    push_str(&mut t, " · memory ");
    push_str(&mut t, dec_usize(summary.memory_search_count).as_str());
    push_str(&mut t, " · observations ");
    push_str(&mut t, dec_usize(summary.observation_search_count).as_str());
    push_line(&mut lines, t);
    if summary.changed_files.len() == 0 {
        push_line(&mut lines, "files: none changed".to_owned());
    } else {
        let mut t = "files: ".to_owned();
        push_str(&mut t, dec_usize(summary.changed_files.len()).as_str());
        push_str(&mut t, " changed");
        push_line(&mut lines, t);
        let mut t = "paths: ".to_owned();
        push_str(&mut t, join_strings(&file_paths(&summary.changed_files), ", ").as_str());
        push_line(&mut lines, t);
    }
    proof {
        assert(views(lines@) =~= spec_panel_lines(summary));
    }
    lines
}

/// The body of the delivery summary section of the response panel.
pub open spec fn spec_response_body(s: &DeliverySummary) -> Seq<char> {
    join(
        seq![
            s.spec_summary_line(),
            "document searches: "@ + dec(s.document_search_count as nat) + " · memory searches: "@
                + dec(s.memory_search_count as nat) + " · observations: "@ + dec(
                s.observation_search_count as nat,
            ),
            if s.changed_files@.len() == 0 {
                "changed files: none"@
            } else {
                "changed files: "@ + join(paths(s.changed_files@), ", "@)
            },
        ],
        "\n"@,
    )
}

pub fn build_delivery_response_body(summary: &DeliverySummary) -> (r: String)
    ensures
        r@ == spec_response_body(summary),
{
    let mut parts: Vec<String> = Vec::new();
    push_line(&mut parts, summary.summary_line());
    let mut t = "document searches: ".to_owned();
    push_str(&mut t, dec_usize(summary.document_search_count).as_str());
    push_str(&mut t, " · memory searches: ");
    push_str(&mut t, dec_usize(summary.memory_search_count).as_str());
    push_str(&mut t, " · observations: ");
    push_str(&mut t, dec_usize(summary.observation_search_count).as_str());
    push_line(&mut parts, t);
    if summary.changed_files.len() == 0 {
        push_line(&mut parts, "changed files: none".to_owned());
    } else {
        let mut t = "changed files: ".to_owned();
        push_str(&mut t, join_strings(&file_paths(&summary.changed_files), ", ").as_str());
        push_line(&mut parts, t);
    }
    proof {
        assert(views(parts@) =~= seq![
            summary.spec_summary_line(),
            views(parts@)[1],
            views(parts@)[2],
        ]);
    }
    join_strings(&parts, "\n")
}

/// One line per tool: `- <name>: <count>`.
pub open spec fn tool_count_lines(counts: Seq<(String, u32)>) -> Seq<Seq<char>> {
    counts.map_values(|e: (String, u32)| "- "@ + e.0@ + ": "@ + dec(e.1 as nat))
}

/// One line per changed file: `- <path> [<kind>]`.
pub open spec fn changed_file_lines(files: Seq<DeliveryChangedFile>) -> Seq<Seq<char>> {
    files.map_values(|f: DeliveryChangedFile| "- "@ + f.path@ + " ["@ + f.kind.spec_name() + "]"@)
}

/// The lines of the delivery detail overlay.
pub open spec fn spec_detail_lines(s: &DeliverySummary) -> Seq<Seq<char>> {
    let head = seq![
        "turn: "@ + dec(s.turn_id as nat),
        "status: "@ + s.status.spec_name(),
        "model: "@ + or_text(s.primary_model, "unknown"@),
        "tokens: total="@ + dec(s.spec_total_tokens()) + " request_input="@ + dec(s.input_tokens as nat)
            + " cache_create="@ + dec(s.cache_creation_input_tokens as nat) + " cache_read="@ + dec(
            s.cache_read_input_tokens as nat,
        ) + when(s.token_stats_partial, " (partial)"@),
        "llm requests: "@ + dec(s.llm_request_count as nat),
        Seq::empty(),
        tools_line(s),
    ];
    let tools = if s.tool_counts@.len() == 0 {
        seq!["tool counts: none"@]
    } else {
        tool_count_lines(s.tool_counts@)
    };
    let skills = seq![
        Seq::empty(),
        "skills: loaded="@ + dec(s.loaded_skill_ids@.len()) + " recognized="@ + dec(
            s.recognized_skill_ids@.len(),
        ) + " ignored="@ + dec(s.ignored_skill_ids@.len()),
        "recognized ids: "@ + spec_join_or_none(views(s.recognized_skill_ids@)),
        "loaded ids: "@ + spec_join_or_none(views(s.loaded_skill_ids@)),
        "ignored ids: "@ + spec_join_or_none(views(s.ignored_skill_ids@)),
        Seq::empty(),
        "knowledge: document="@ + dec(s.document_search_count as nat) + " memory="@ + dec(
            s.memory_search_count as nat,
        ) + " observations="@ + dec(s.observation_search_count as nat),
        "document queries: "@ + spec_join_or_none(views(s.document_queries@)),
        "memory queries: "@ + spec_join_or_none(views(s.memory_queries@)),
        Seq::empty(),
    ];
    let files = if s.changed_files@.len() == 0 {
        seq!["changed files: none"@]
    } else {
        seq!["changed files:"@] + changed_file_lines(s.changed_files@)
    };
    head + tools + skills + files
}

fn labelled(label: &str, text: String) -> (r: String)
    ensures
        r@ == label@ + text@,
{
    let mut t = label.to_owned();
    push_str(&mut t, text.as_str());
    t
}

pub fn build_delivery_detail_lines(summary: &DeliverySummary) -> (r: Vec<String>)
    ensures
        views(r@) == spec_detail_lines(summary),
{
    let mut lines: Vec<String> = Vec::new();
    push_line(&mut lines, labelled("turn: ", dec_string(summary.turn_id)));
    push_line(&mut lines, labelled("status: ", summary.status.as_str().to_owned()));
    push_line(&mut lines, model_line("model: ", &summary.primary_model));
    let mut t = "tokens: total=".to_owned();
    push_str(&mut t, dec_string(summary.total_tokens() as u64).as_str());
    push_str(&mut t, " request_input=");
    push_str(&mut t, dec_string(summary.input_tokens as u64).as_str());
    push_str(&mut t, " cache_create=");
    push_str(&mut t, dec_string(summary.cache_creation_input_tokens as u64).as_str());
    push_str(&mut t, " cache_read=");
    push_str(&mut t, dec_string(summary.cache_read_input_tokens as u64).as_str());
    push_line(&mut lines, with_suffix(t, summary.token_stats_partial, " (partial)"));
    push_line(&mut lines, labelled("llm requests: ", dec_string(summary.llm_request_count as u64)));
    push_line(&mut lines, String::new());
    push_line(&mut lines, tools_line_of(summary));
    let ghost head = views(lines@);
    if summary.tool_counts.len() == 0 {
        push_line(&mut lines, "tool counts: none".to_owned());
    } else {
        let mut i: usize = 0;
        while i < summary.tool_counts.len()
            invariant
                i <= summary.tool_counts@.len(),
                views(lines@) == head + tool_count_lines(summary.tool_counts@.take(i as int)),
            decreases summary.tool_counts.len() - i,
        {
            let mut t = "- ".to_owned();
            push_str(&mut t, summary.tool_counts[i].0.as_str());
            push_str(&mut t, ": ");
            push_str(&mut t, dec_string(summary.tool_counts[i].1 as u64).as_str());
            push_line(&mut lines, t);
            proof {
                assert(tool_count_lines(summary.tool_counts@.take(i + 1)) =~= tool_count_lines(
                    summary.tool_counts@.take(i as int),
                ).push(tool_count_lines(summary.tool_counts@)[i as int]));
            }
            i = i + 1;
        }
        proof {
            assert(summary.tool_counts@.take(summary.tool_counts@.len() as int) =~= summary.tool_counts@);
        }
    }
    let ghost upto_tools = views(lines@);
    push_line(&mut lines, String::new());
    let mut t = "skills: loaded=".to_owned();
    push_str(&mut t, dec_usize(summary.loaded_skill_ids.len()).as_str());
    push_str(&mut t, " recognized=");
    push_str(&mut t, dec_usize(summary.recognized_skill_ids.len()).as_str());
    push_str(&mut t, " ignored=");
    push_str(&mut t, dec_usize(summary.ignored_skill_ids.len()).as_str());
    push_line(&mut lines, t);
    push_line(&mut lines, labelled("recognized ids: ", join_or_none(&summary.recognized_skill_ids)));
    push_line(&mut lines, labelled("loaded ids: ", join_or_none(&summary.loaded_skill_ids)));
    push_line(&mut lines, labelled("ignored ids: ", join_or_none(&summary.ignored_skill_ids)));
    push_line(&mut lines, String::new());
    let mut t = "knowledge: document=".to_owned();
    push_str(&mut t, dec_usize(summary.document_search_count).as_str());
    push_str(&mut t, " memory=");
    push_str(&mut t, dec_usize(summary.memory_search_count).as_str());
    push_str(&mut t, " observations=");
    push_str(&mut t, dec_usize(summary.observation_search_count).as_str());
    push_line(&mut lines, t);
    push_line(&mut lines, labelled("document queries: ", join_or_none(&summary.document_queries)));
    push_line(&mut lines, labelled("memory queries: ", join_or_none(&summary.memory_queries)));
    push_line(&mut lines, String::new());
    let ghost upto_files = views(lines@);
    if summary.changed_files.len() == 0 {
        push_line(&mut lines, "changed files: none".to_owned());
    } else {
        push_line(&mut lines, "changed files:".to_owned());
        let ghost before = views(lines@);
        let mut i: usize = 0;
        while i < summary.changed_files.len()
            invariant
                i <= summary.changed_files@.len(),
                views(lines@) == before + changed_file_lines(summary.changed_files@.take(i as int)),
            decreases summary.changed_files.len() - i,
        {
            let f = &summary.changed_files[i];
            let mut t = "- ".to_owned();
            push_str(&mut t, f.path.as_str());
            push_str(&mut t, " [");
            push_str(&mut t, f.kind.as_str());
            push_str(&mut t, "]");
            push_line(&mut lines, t);
            proof {
                assert(changed_file_lines(summary.changed_files@.take(i + 1)) =~= changed_file_lines(
                    summary.changed_files@.take(i as int),
                ).push(changed_file_lines(summary.changed_files@)[i as int]));
            }
            i = i + 1;
        }
        proof {
            assert(summary.changed_files@.take(summary.changed_files@.len() as int) =~= summary.changed_files@);
        }
    }
    proof {
        let sp = spec_detail_lines(summary);
        assert(head.len() == 7);
        assert(views(lines@) =~= sp);
    }
    lines
}

} // verus!
