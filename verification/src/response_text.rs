//! Texts of the response panel: section headers, the summaries of folded
//! reasoning and command sections, tool lanes, and the sections that the
//! user folds and unfolds.
use vstd::prelude::*;

use crate::app::{App, Msg, MsgKind, SectionState, WorkflowRunRole};
use crate::chars::{chars_of, dec, dec_usize, lines, push_char, push_str, trim, trim_string, views};
use crate::report::{first_non_empty_line, nonblank_count, spec_first_non_empty, spec_split_or_empty, split_or_empty, truncate_preview};
use crate::text::preview_of;
use crate::transcript::{opt_view, run_position, section_position};
use crate::turn_delivery::{ToolRun, ToolRunStatus};

verus! {

/// The state of a restored section: failed when it says so, else complete.
pub open spec fn spec_restored_state(value: Option<Seq<char>>) -> SectionState {
    if value == Some("failed"@) {
        SectionState::Failed
    } else {
        SectionState::Complete
    }
}

pub fn restored_response_state(value: Option<&str>) -> (r: SectionState)
    ensures
        r == spec_restored_state(
            match value {
                Some(v) => Some(v@),
                None => None,
            },
        ),
{
    match value {
        Some(v) => if crate::chars::str_eq(v, "failed") {
            SectionState::Failed
        } else {
            SectionState::Complete
        },
        None => SectionState::Complete,
    }
}

pub open spec fn spec_thinking_header_title(state: SectionState) -> Seq<char> {
    match state {
        SectionState::Streaming => "Reasoning live"@,
        SectionState::Complete => "Reasoning"@,
        SectionState::Failed => "Reasoning failed"@,
    }
}

pub fn thinking_header_title(state: SectionState) -> (r: &'static str)
    ensures
        r@ == spec_thinking_header_title(state),
{
    match state {
        SectionState::Streaming => "Reasoning live",
        SectionState::Complete => "Reasoning",
        SectionState::Failed => "Reasoning failed",
    }
}

pub open spec fn spec_thinking_summary_label(state: SectionState) -> Seq<char> {
    match state {
        SectionState::Streaming => "reasoning live"@,
        SectionState::Complete => "reasoning"@,
        SectionState::Failed => "reasoning failed"@,
    }
}

pub fn thinking_summary_label(state: SectionState) -> (r: &'static str)
    ensures
        r@ == spec_thinking_summary_label(state),
{
    match state {
        SectionState::Streaming => "reasoning live",
        SectionState::Complete => "reasoning",
        SectionState::Failed => "reasoning failed",
    }
}

pub open spec fn spec_thinking_placeholder(state: SectionState) -> Seq<char> {
    match state {
        SectionState::Streaming => "waiting for reasoning..."@,
        SectionState::Complete => "no reasoning captured"@,
        SectionState::Failed => "reasoning ended before content arrived"@,
    }
}

pub fn thinking_placeholder_text(state: SectionState) -> (r: &'static str)
    ensures
        r@ == spec_thinking_placeholder(state),
{
    match state {
        SectionState::Streaming => "waiting for reasoning...",
        SectionState::Complete => "no reasoning captured",
        SectionState::Failed => "reasoning ended before content arrived",
    }
}

pub open spec fn spec_command_placeholder(state: SectionState) -> Seq<char> {
    match state {
        SectionState::Streaming => "running command"@,
        SectionState::Complete => "command complete"@,
        SectionState::Failed => "command failed"@,
    }
}

pub fn command_placeholder_text(state: SectionState) -> (r: &'static str)
    ensures
        r@ == spec_command_placeholder(state),
{
    match state {
        SectionState::Streaming => "running command",
        SectionState::Complete => "command complete",
        SectionState::Failed => "command failed",
    }
}

/// The spinner frames of a streaming reasoning section.
pub open spec fn spinner_frames() -> Seq<char> {
    seq!['⠋', '⠙', '⠹', '⠸', '⠼', '⠴', '⠦', '⠧', '⠇', '⠏']
}

/// The mark before the body of a reasoning section: a spinner frame that
/// advances every second tick while it streams, a bar once it ended.
pub open spec fn spec_thinking_body_prefix(state: SectionState, tick: u8) -> Seq<char> {
    match state {
        SectionState::Streaming => seq![spinner_frames()[((tick / 2) % 10) as int]],
        _ => "│"@,
    }
}

pub fn thinking_body_prefix(state: SectionState, spinner_tick: u8) -> (r: String)
    ensures
        r@ == spec_thinking_body_prefix(state, spinner_tick),
{
    match state {
        SectionState::Streaming => {
            let frames: [char; 10] = ['⠋', '⠙', '⠹', '⠸', '⠼', '⠴', '⠦', '⠧', '⠇', '⠏'];
            let k = ((spinner_tick / 2) % 10) as usize;
            let mut s = String::new();
            push_char(&mut s, frames[k]);
            proof {
                assert(frames@ =~= spinner_frames());
                assert(s@ =~= seq![spinner_frames()[k as int]]);
            }
            s
        },
        _ => "│".to_owned(),
    }
}

/// The preview of a folded section: its first line that is not blank,
/// trimmed and cut at `limit` characters, or a placeholder.
pub open spec fn folded_preview(text: Seq<char>, limit: nat, placeholder: Seq<char>) -> Seq<char> {
    match spec_first_non_empty(lines(text)) {
        Some(l) => preview_of(trim(l), limit),
        None => placeholder,
    }
}

fn folded_preview_of(text: &str, limit: usize, placeholder: &str) -> (r: String)
    ensures
        r@ == folded_preview(text@, limit as nat, placeholder@),
{
    match first_non_empty_line(text) {
        Some(l) => {
            let t = trim_string(l.as_str());
            truncate_preview(t.as_str(), limit)
        },
        None => placeholder.to_owned(),
    }
}

fn count_nonblank(text: &str) -> (r: usize)
    ensures
        r == nonblank_count(lines(text@)),
{
    let ls = crate::chars::split_lines(text);
    let ghost l = views(ls@);
    let mut n: usize = 0;
    let mut i: usize = 0;
    while i < ls.len()
        invariant
            i <= ls@.len(),
            l == views(ls@),
            l == lines(text@),
            n == nonblank_count(l.take(i as int)),
            n <= i,
        decreases ls.len() - i,
    {
        proof {
            assert(l.take(i + 1).drop_last() =~= l.take(i as int));
            assert(l.take(i + 1).last() == ls@[i as int]@);
        }
        if !crate::chars::is_blank(ls[i].as_str()) {
            n = n + 1;
        }
        i = i + 1;
    }
    proof {
        assert(l.take(ls@.len() as int) =~= l);
    }
    n
}

/// `n lines · preview`, `1 line · preview`, or the preview alone.
pub open spec fn counted(n: nat, preview: Seq<char>) -> Seq<char> {
    if n == 0 {
        preview
    } else if n == 1 {
        "1 line · "@ + preview
    } else {
        dec(n) + " lines · "@ + preview
    }
}

fn counted_of(n: usize, preview: &str) -> (r: String)
    ensures
        r@ == counted(n as nat, preview@),
{
    if n == 0 {
        preview.to_owned()
    } else if n == 1 {
        let mut s = "1 line · ".to_owned();
        push_str(&mut s, preview);
        s
    } else {
        let mut s = dec_usize(n);
        push_str(&mut s, " lines · ");
        push_str(&mut s, preview);
        s
    }
}

/// The summary of a folded command section.
pub open spec fn spec_command_summary(text: Seq<char>, state: SectionState) -> Seq<char> {
    counted(nonblank_count(lines(text)), folded_preview(text, 28, spec_command_placeholder(state)))
}

pub fn summarize_command_text(text: &str, state: SectionState) -> (r: String)
    ensures
        r@ == spec_command_summary(text@, state),
{
    let preview = folded_preview_of(text, 28, command_placeholder_text(state));
    counted_of(count_nonblank(text), preview.as_str())
}

/// The summary of a folded reasoning section.
pub open spec fn spec_thinking_summary(text: Seq<char>, state: SectionState) -> Seq<char> {
    spec_thinking_summary_label(state) + " · "@ + counted(
        nonblank_count(lines(text)),
        folded_preview(text, 24, spec_thinking_placeholder(state)),
    )
}

pub fn summarize_thinking_text(text: &str, state: SectionState) -> (r: String)
    ensures
        r@ == spec_thinking_summary(text@, state),
{
    let preview = folded_preview_of(text, 24, thinking_placeholder_text(state));
    let mut s = thinking_summary_label(state).to_owned();
    push_str(&mut s, " · ");
    push_str(&mut s, counted_of(count_nonblank(text), preview.as_str()).as_str());
    s
}

/// The body lines of a reasoning section that are shown: while it streams,
/// only its last two lines.
pub open spec fn spec_visible_thinking(text: Seq<char>, state: SectionState) -> Seq<Seq<char>> {
    let ls = spec_split_or_empty(text);
    if state != SectionState::Streaming || ls.len() <= 2 {
        ls
    } else {
        ls.skip(ls.len() - 2)
    }
}

pub fn visible_thinking_body_lines(text: &str, state: SectionState) -> (r: Vec<String>)
    ensures
        views(r@) == spec_visible_thinking(text@, state),
{
    let ls = split_or_empty(text);
    if state != SectionState::Streaming || ls.len() <= 2 {
        return ls;
    }
    let n = ls.len();
    let mut out: Vec<String> = Vec::new();
    out.push(ls[n - 2].clone());
    out.push(ls[n - 1].clone());
    proof {
        assert(views(out@) =~= views(ls@).skip(n - 2));
    }
    out
}

// ---------------------------------------------------------------------------
// Tool lanes
// ---------------------------------------------------------------------------

pub open spec fn spec_tool_status_label(status: ToolRunStatus) -> Seq<char> {
    match status {
        ToolRunStatus::Running => "◉"@,
        ToolRunStatus::Completed => "●"@,
        ToolRunStatus::Failed => "✕"@,
    }
}

pub fn tool_run_status_label(status: ToolRunStatus) -> (r: &'static str)
    ensures
        r@ == spec_tool_status_label(status),
{
    match status {
        ToolRunStatus::Running => "◉",
        ToolRunStatus::Completed => "●",
        ToolRunStatus::Failed => "✕",
    }
}

pub open spec fn count_status(runs: Seq<ToolRun>, status: ToolRunStatus) -> nat
    decreases runs.len(),
{
    if runs.len() == 0 {
        0
    } else {
        count_status(runs.drop_last(), status) + if runs.last().status == status {
            1nat
        } else {
            0nat
        }
    }
}

proof fn lemma_count_status_le(runs: Seq<ToolRun>, status: ToolRunStatus)
    ensures
        count_status(runs, status) <= runs.len(),
    decreases runs.len(),
{
    if runs.len() > 0 {
        lemma_count_status_le(runs.drop_last(), status);
    }
}

/// The calls that a sequence of references points to.
pub open spec fn derefs(runs: Seq<&ToolRun>) -> Seq<ToolRun> {
    runs.map_values(|r: &ToolRun| *r)
}

fn count_status_of(runs: &[&ToolRun], status: ToolRunStatus) -> (r: usize)
    ensures
        r == count_status(derefs(runs@), status),
{
    let ghost rs = derefs(runs@);
    let mut n: usize = 0;
    let mut i: usize = 0;
    while i < runs.len()
        invariant
            rs == derefs(runs@),
            i <= rs.len(),
            n == count_status(rs.take(i as int), status),
        decreases runs.len() - i,
    {
        proof {
            assert(rs.take(i + 1).drop_last() =~= rs.take(i as int));
            lemma_count_status_le(rs.take(i as int), status);
        }
        if runs[i].status == status {
            n = n + 1;
        }
        i = i + 1;
    }
    proof {
        assert(rs.take(rs.len() as int) =~= rs);
    }
    n
}

/// The header of a tool lane: how many calls, and how many run or failed;
/// a toggle hint when the lane can fold.
pub open spec fn spec_tool_lane_header(runs: Seq<ToolRun>, can_toggle: bool, collapsed: bool) -> Seq<char> {
    let running = count_status(runs, ToolRunStatus::Running);
    let failed = count_status(runs, ToolRunStatus::Failed);
    let head = if running > 0 {
        "  tools  "@ + dec(runs.len()) + " total"@ + " · "@ + dec(running) + " running"@
    } else if failed > 0 {
        "  tools  "@ + dec(runs.len()) + " total"@ + " · "@ + dec(failed) + " failed"@
    } else {
        "  tools  "@ + dec(runs.len()) + " total"@
    };
    if can_toggle {
        head + if collapsed {
            "  expand"@
        } else {
            "  collapse"@
        }
    } else {
        head
    }
}

pub fn format_tool_lane_header(runs: &[&ToolRun], can_toggle: bool, collapsed: bool) -> (r: String)
    ensures
        r@ == spec_tool_lane_header(derefs(runs@), can_toggle, collapsed),
{
    let ghost rs = derefs(runs@);
    let running = count_status_of(runs, ToolRunStatus::Running);
    let failed = count_status_of(runs, ToolRunStatus::Failed);
    let mut text = "  tools  ".to_owned();
    push_str(&mut text, dec_usize(runs.len()).as_str());
    push_str(&mut text, " total");
    let ghost base = text@;
    if running > 0 {
        push_str(&mut text, " · ");
        push_str(&mut text, dec_usize(running).as_str());
        push_str(&mut text, " running");
    } else if failed > 0 {
        push_str(&mut text, " · ");
        push_str(&mut text, dec_usize(failed).as_str());
        push_str(&mut text, " failed");
    }
    proof {
        let head = if running > 0 {
            "  tools  "@ + dec(rs.len()) + " total"@ + " · "@ + dec(running as nat) + " running"@
        } else if failed > 0 {
            "  tools  "@ + dec(rs.len()) + " total"@ + " · "@ + dec(failed as nat) + " failed"@
        } else {
            "  tools  "@ + dec(rs.len()) + " total"@
        };
        assert(text@ =~= head);
    }
    if can_toggle {
        push_str(&mut text, if collapsed { "  expand" } else { "  collapse" });
    }
    text
}

/// The widest tool name, in characters.
pub open spec fn name_width(runs: Seq<ToolRun>) -> nat
    decreases runs.len(),
{
    if runs.len() == 0 {
        0
    } else {
        let w = name_width(runs.drop_last());
        let n = runs.last().tool_name@.len();
        if n > w {
            n
        } else {
            w
        }
    }
}

pub fn tool_name_width(runs: &[&ToolRun]) -> (r: usize)
    ensures
        r == name_width(derefs(runs@)),
{
    let ghost rs = derefs(runs@);
    let mut w: usize = 0;
    let mut i: usize = 0;
    while i < runs.len()
        invariant
            rs == derefs(runs@),
            i <= rs.len(),
            w == name_width(rs.take(i as int)),
        decreases runs.len() - i,
    {
        proof {
            assert(rs.take(i + 1).drop_last() =~= rs.take(i as int));
        }
        let n = chars_of(runs[i].tool_name.as_str()).len();
        if n > w {
            w = n;
        }
        i = i + 1;
    }
    proof {
        assert(rs.take(rs.len() as int) =~= rs);
    }
    w
}

/// `n` spaces.
pub open spec fn spaces(n: nat) -> Seq<char> {
    Seq::new(n, |_i: int| ' ')
}

/// `s` padded with spaces on the right to `width` characters.
pub open spec fn padded(s: Seq<char>, width: nat) -> Seq<char> {
    if s.len() >= width {
        s
    } else {
        s + spaces((width - s.len()) as nat)
    }
}

fn pad_right(s: &str, width: usize) -> (r: String)
    ensures
        r@ == padded(s@, width as nat),
{
    let n = chars_of(s).len();
    let mut out = s.to_owned();
    if n >= width {
        return out;
    }
    let mut i: usize = n;
    while i < width
        invariant
            n <= i <= width,
            n == s@.len(),
            out@ == s@ + spaces((i - n) as nat),
        decreases width - i,
    {
        push_char(&mut out, ' ');
        i = i + 1;
        proof {
            assert(out@ =~= s@ + spaces((i - n) as nat));
        }
    }
    out
}

/// One line of a tool lane: the padded tool name, its status, what it was
/// called with and, when known, what came back.
pub open spec fn spec_tool_summary(run: ToolRun, width: nat) -> Seq<char> {
    "    "@ + padded(run.tool_name@, width) + "  "@ + spec_tool_status_label(run.status) + "  "@
        + run.invocation_preview@ + match run.result_preview {
        Some(r) => " -> "@ + r@,
        None => Seq::<char>::empty(),
    }
}

pub fn format_tool_summary(run: &ToolRun, name_width: usize) -> (r: String)
    ensures
        r@ == spec_tool_summary(*run, name_width as nat),
{
    let mut s = "    ".to_owned();
    push_str(&mut s, pad_right(run.tool_name.as_str(), name_width).as_str());
    push_str(&mut s, "  ");
    push_str(&mut s, tool_run_status_label(run.status));
    push_str(&mut s, "  ");
    push_str(&mut s, run.invocation_preview.as_str());
    let ghost a = s@;
    match &run.result_preview {
        Some(r) => {
            push_str(&mut s, " -> ");
            push_str(&mut s, r.as_str());
        },
        None => {},
    }
    proof {
        assert(s@ =~= a + match run.result_preview {
            Some(r) => " -> "@ + r@,
            None => Seq::<char>::empty(),
        });
    }
    s
}

// ---------------------------------------------------------------------------
// Section headers
// ---------------------------------------------------------------------------

pub open spec fn header_badge(kind: MsgKind) -> Seq<char> {
    match kind {
        MsgKind::Routing => "route"@,
        MsgKind::Step => "step"@,
        MsgKind::FinalAnswer => "final"@,
        MsgKind::Command => "command"@,
        MsgKind::Thinking => "  reasoning"@,
        _ => "msg"@,
    }
}

pub open spec fn state_mark(state: SectionState) -> Seq<char> {
    match state {
        SectionState::Streaming => "◉"@,
        SectionState::Complete => "●"@,
        SectionState::Failed => "✕"@,
    }
}

/// The header line of a transcript section: its kind, where it came from,
/// its title and its state; a command section also offers to fold.
pub open spec fn spec_response_header(m: Msg) -> Seq<char> {
    let state = match m.state {
        Some(s) => s,
        None => SectionState::Complete,
    };
    let title = if m.kind == MsgKind::Thinking {
        spec_thinking_header_title(state)
    } else {
        match m.title {
            Some(t) => t@,
            None => "Section"@,
        }
    };
    if m.kind == MsgKind::Command {
        header_badge(m.kind) + "  "@ + match m.workflow_id {
            Some(w) => w@,
            None => "builtin"@,
        } + "  "@ + title + "  "@ + state_mark(state) + if m.collapsed {
            "  expand"@
        } else {
            "  collapse"@
        }
    } else {
        header_badge(m.kind) + "  "@ + match m.workflow_role {
            Some(r) => r.spec_name(),
            None => "unknown"@,
        } + ":"@ + match m.workflow_id {
            Some(w) => w@,
            None => "workflow"@,
        } + "  "@ + title + "  "@ + state_mark(state)
    }
}

fn header_badge_of(kind: MsgKind) -> (r: &'static str)
    ensures
        r@ == header_badge(kind),
{
    match kind {
        MsgKind::Routing => "route",
        MsgKind::Step => "step",
        MsgKind::FinalAnswer => "final",
        MsgKind::Command => "command",
        MsgKind::Thinking => "  reasoning",
        _ => "msg",
    }
}

fn state_mark_of(state: SectionState) -> (r: &'static str)
    ensures
        r@ == state_mark(state),
{
    match state {
        SectionState::Streaming => "◉",
        SectionState::Complete => "●",
        SectionState::Failed => "✕",
    }
}

pub fn format_response_header(m: &Msg) -> (r: String)
    ensures
        r@ == spec_response_header(*m),
{
    let state = match m.state {
        Some(s) => s,
        None => SectionState::Complete,
    };
    let title: String = if m.kind == MsgKind::Thinking {
        thinking_header_title(state).to_owned()
    } else {
        match &m.title {
            Some(t) => t.clone(),
            None => "Section".to_owned(),
        }
    };
    let mut s = header_badge_of(m.kind).to_owned();
    push_str(&mut s, "  ");
    let ghost a = s@;
    if m.kind == MsgKind::Command {
        match &m.workflow_id {
            Some(w) => push_str(&mut s, w.as_str()),
            None => push_str(&mut s, "builtin"),
        }
        let ghost b = s@;
        push_str(&mut s, "  ");
        push_str(&mut s, title.as_str());
        push_str(&mut s, "  ");
        push_str(&mut s, state_mark_of(state));
        push_str(&mut s, if m.collapsed { "  expand" } else { "  collapse" });
        proof {
            assert(b =~= a + match m.workflow_id {
                Some(w) => w@,
                None => "builtin"@,
            });
        }
    } else {
        match m.workflow_role {
            Some(r) => push_str(&mut s, r.as_str()),
            None => push_str(&mut s, "unknown"),
        }
        let ghost b = s@;
        push_str(&mut s, ":");
        match &m.workflow_id {
            Some(w) => push_str(&mut s, w.as_str()),
            None => push_str(&mut s, "workflow"),
        }
        let ghost c = s@;
        push_str(&mut s, "  ");
        push_str(&mut s, title.as_str());
        push_str(&mut s, "  ");
        push_str(&mut s, state_mark_of(state));
        proof {
            assert(b =~= a + match m.workflow_role {
                Some(r) => r.spec_name(),
                None => "unknown"@,
            });
            assert(c =~= b + ":"@ + match m.workflow_id {
                Some(w) => w@,
                None => "workflow"@,
            });
        }
    }
    s
}

// ---------------------------------------------------------------------------
// Folding sections
// ---------------------------------------------------------------------------

/// The first message at or after `i` with id `id` and a kind that `k`
/// accepts, or -1.
pub open spec fn foldable_from(s: Seq<Msg>, id: Seq<char>, k: spec_fn(MsgKind) -> bool, i: int) -> int
    decreases s.len() - i,
{
    if i < 0 || i >= s.len() {
        -1
    } else if opt_view(s[i].id) == Some(id) && k(s[i].kind) {
        i
    } else {
        foldable_from(s, id, k, i + 1)
    }
}

proof fn lemma_foldable(s: Seq<Msg>, id: Seq<char>, k: spec_fn(MsgKind) -> bool, i: int)
    requires
        0 <= i,
    ensures
        foldable_from(s, id, k, i) == -1 || (i <= foldable_from(s, id, k, i) < s.len() && opt_view(
            s[foldable_from(s, id, k, i)].id,
        ) == Some(id) && k(s[foldable_from(s, id, k, i)].kind)),
    decreases s.len() - i,
{
    if i < s.len() && !(opt_view(s[i].id) == Some(id) && k(s[i].kind)) {
        lemma_foldable(s, id, k, i + 1);
    }
}

pub open spec fn is_thinking(k: MsgKind) -> bool {
    k == MsgKind::Thinking
}

pub open spec fn is_command(k: MsgKind) -> bool {
    k == MsgKind::Command
}

pub open spec fn has_tool_lane(k: MsgKind) -> bool {
    k == MsgKind::Step || k == MsgKind::FinalAnswer
}

impl App {
    /// Whether reasoning sections are shown.
    pub fn set_show_thinking(&mut self, show_thinking: bool)
        ensures
            *final(self) == (App { show_thinking, ..*old(self) }),
    {
        self.show_thinking = show_thinking;
    }

    fn find_foldable(&self, id: &str, which: u8) -> (r: Option<usize>)
        requires
            which < 3,
        ensures
            ({
                let k = if which == 0 {
                    |m: MsgKind| is_thinking(m)
                } else if which == 1 {
                    |m: MsgKind| is_command(m)
                } else {
                    |m: MsgKind| has_tool_lane(m)
                };
                match r {
                    Some(i) => i as int == foldable_from(self.output_msgs@, id@, k, 0) && i < self.output_msgs@.len(),
                    None => foldable_from(self.output_msgs@, id@, k, 0) == -1,
                }
            }),
    {
        let ghost k = if which == 0 {
            |m: MsgKind| is_thinking(m)
        } else if which == 1 {
            |m: MsgKind| is_command(m)
        } else {
            |m: MsgKind| has_tool_lane(m)
        };
        proof {
            lemma_foldable(self.output_msgs@, id@, k, 0);
        }
        let mut i: usize = 0;
        while i < self.output_msgs.len()
            invariant
                i <= self.output_msgs@.len(),
                which < 3,
                k == (if which == 0 {
                    |m: MsgKind| is_thinking(m)
                } else if which == 1 {
                    |m: MsgKind| is_command(m)
                } else {
                    |m: MsgKind| has_tool_lane(m)
                }),
                foldable_from(self.output_msgs@, id@, k, 0) == foldable_from(self.output_msgs@, id@, k, i as int),
            decreases self.output_msgs.len() - i,
        {
            let m = &self.output_msgs[i];
            let same = match &m.id {
                Some(x) => crate::chars::str_eq(x.as_str(), id),
                None => false,
            };
            let kind_ok = if which == 0 {
                m.kind == MsgKind::Thinking
            } else if which == 1 {
                m.kind == MsgKind::Command
            } else {
                m.kind == MsgKind::Step || m.kind == MsgKind::FinalAnswer
            };
            if same && kind_ok {
                return Some(i);
            }
            i = i + 1;
        }
        None
    }

    /// Folds or unfolds the reasoning section `id`; gives whether it is now
    /// folded.
    pub fn toggle_thinking_section(&mut self, id: &str) -> (r: Option<bool>)
        ensures
            ({
                let k = foldable_from(old(self).output_msgs@, id@, |m: MsgKind| is_thinking(m), 0);
                let m = old(self).output_msgs@[k];
                if k >= 0 {
                    &&& r == Some(!m.collapsed)
                    &&& final(self).output_msgs@ == old(self).output_msgs@.update(k, Msg { collapsed: !m.collapsed, ..m })
                    &&& *final(self) == (App { output_msgs: final(self).output_msgs, ..*old(self) })
                } else {
                    r.is_none() && *final(self) == *old(self)
                }
            }),
    {
        match self.find_foldable(id, 0) {
            Some(i) => {
                let mut m = self.output_msgs.remove(i);
                m.collapsed = !m.collapsed;
                let c = m.collapsed;
                self.output_msgs.insert(i, m);
                proof {
                    assert(self.output_msgs@ =~= old(self).output_msgs@.update(i as int, m));
                }
                Some(c)
            },
            None => None,
        }
    }

    /// Folds or unfolds the command section `id`; gives whether it is now
    /// folded.
    pub fn toggle_command_section(&mut self, id: &str) -> (r: Option<bool>)
        ensures
            ({
                let k = foldable_from(old(self).output_msgs@, id@, |m: MsgKind| is_command(m), 0);
                let m = old(self).output_msgs@[k];
                if k >= 0 {
                    &&& r == Some(!m.collapsed)
                    &&& final(self).output_msgs@ == old(self).output_msgs@.update(k, Msg { collapsed: !m.collapsed, ..m })
                    &&& *final(self) == (App { output_msgs: final(self).output_msgs, ..*old(self) })
                } else {
                    r.is_none() && *final(self) == *old(self)
                }
            }),
    {
        match self.find_foldable(id, 1) {
            Some(i) => {
                let mut m = self.output_msgs.remove(i);
                m.collapsed = !m.collapsed;
                let c = m.collapsed;
                self.output_msgs.insert(i, m);
                proof {
                    assert(self.output_msgs@ =~= old(self).output_msgs@.update(i as int, m));
                }
                Some(c)
            },
            None => None,
        }
    }

    /// Folds or unfolds the tool lane of the step or final answer `id`;
    /// gives whether it is now folded.
    pub fn toggle_tool_lane(&mut self, id: &str) -> (r: Option<bool>)
        ensures
            ({
                let k = foldable_from(old(self).output_msgs@, id@, |m: MsgKind| has_tool_lane(m), 0);
                let m = old(self).output_msgs@[k];
                if k >= 0 {
                    &&& r == Some(!m.tool_lane_collapsed)
                    &&& final(self).output_msgs@ == old(self).output_msgs@.update(
                        k,
                        Msg { tool_lane_collapsed: !m.tool_lane_collapsed, ..m },
                    )
                    &&& *final(self) == (App { output_msgs: final(self).output_msgs, ..*old(self) })
                } else {
                    r.is_none() && *final(self) == *old(self)
                }
            }),
    {
        match self.find_foldable(id, 2) {
            Some(i) => {
                let mut m = self.output_msgs.remove(i);
                m.tool_lane_collapsed = !m.tool_lane_collapsed;
                let c = m.tool_lane_collapsed;
                self.output_msgs.insert(i, m);
                proof {
                    assert(self.output_msgs@ =~= old(self).output_msgs@.update(i as int, m));
                }
                Some(c)
            },
            None => None,
        }
    }

    /// Opens the detail of the tool call `id`, when there is one, and gives
    /// the tool's name.
    pub fn open_tool_run_detail(&mut self, id: &str) -> (r: Option<String>)
        ensures
            ({
                let k = run_position(old(self).tool_runs@, id@);
                if k >= 0 {
                    let t = old(self).tool_runs@[k];
                    &&& r == Some(t.tool_name)
                    &&& App::detail_opened(*old(self), *final(self), t.detail.title@, views(t.detail.lines@))
                } else {
                    r.is_none() && *final(self) == *old(self)
                }
            }),
    {
        let k = match self.find_tool_run(id) {
            Some(k) => k,
            None => return None,
        };
        let t = &self.tool_runs[k];
        let title = t.detail.title.clone();
        let lines = crate::tools::copy_strings(&t.detail.lines);
        let name = t.tool_name.clone();
        self.open_detail_overlay(title.as_str(), lines);
        Some(name)
    }
}

} // verus!
