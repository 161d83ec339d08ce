//! The subflow timeline of the response panel: a step that runs one
//! subflow per todo item shows as one card, with a summary of its progress
//! and one entry per item; the item at work unfolds its body, reasoning,
//! knowledge and tool calls.
use vstd::prelude::*;

use crate::app::{App, Msg, MsgKind, ResponseLineAction, SectionState, ThinkingLineKind, WorkflowRunRole};
use crate::chars::{dec, join, join_strings, push_num, push_str, trim, trim_string, views};
use crate::knowledge::{knowledge_of, StepKnowledgeSummary};
use crate::lanes::{
    action_view, knowledge_lane, lane_line, line_views, opt_seq, plain_line, push_line, DisplayLine, LineAction,
    ResponseDisplayLine,
};
use crate::report::{is_empty_str, ResponseCardSectionKind, spec_split_or_empty, split_or_empty, truncate_preview};
use crate::response_text::{
    derefs, format_tool_lane_header, format_tool_summary, name_width, spec_thinking_summary, spec_tool_lane_header,
    spec_tool_summary, summarize_thinking_text, tool_name_width,
};
use crate::subflows::{
    blocking_position_from, complete_count, current_position, item_position_from, ref_position_from, section_runs,
    spec_item_fallback, spec_subflow_total,
    spec_subflow_status_label, subflow_status_label, StepSubflowRef, StepSubflowState, StepSubflowStatus,
};
use crate::text::preview_of;
use crate::turn_delivery::ToolRun;

verus! {

// ---------------------------------------------------------------------------
// Which messages and statuses an item has
// ---------------------------------------------------------------------------

/// Whether message `m` belongs to item `item` of a subflow group.
pub open spec fn of_item(m: Msg, item: usize) -> bool {
    m.subflow_ref matches Some(r) && r.item_index == item
}

/// Whether a message kind carries an item's body: a step or a final answer.
pub open spec fn is_body_kind(k: MsgKind) -> bool {
    k == MsgKind::Step || k == MsgKind::FinalAnswer
}

/// Whether `m` is an item's body message (`reasoning` false) or its
/// reasoning message (`reasoning` true).
pub open spec fn item_msg_kind(m: Msg, reasoning: bool) -> bool {
    if reasoning {
        m.kind == MsgKind::Thinking
    } else {
        is_body_kind(m.kind)
    }
}

/// The first message at or after `i` of item `item` and of the kind
/// `reasoning` asks for, or -1.
pub open spec fn item_msg_from(ms: Seq<Msg>, item: usize, reasoning: bool, i: int) -> int
    decreases ms.len() - i,
{
    if i < 0 || i >= ms.len() {
        -1
    } else if of_item(ms[i], item) && item_msg_kind(ms[i], reasoning) {
        i
    } else {
        item_msg_from(ms, item, reasoning, i + 1)
    }
}

pub proof fn lemma_item_msg(ms: Seq<Msg>, item: usize, reasoning: bool, i: int)
    requires
        0 <= i,
    ensures
        item_msg_from(ms, item, reasoning, i) == -1 || (i <= item_msg_from(ms, item, reasoning, i) < ms.len()
            && of_item(ms[item_msg_from(ms, item, reasoning, i)], item) && item_msg_kind(
            ms[item_msg_from(ms, item, reasoning, i)],
            reasoning,
        )),
    decreases ms.len() - i,
{
    if i < ms.len() && !(of_item(ms[i], item) && item_msg_kind(ms[i], reasoning)) {
        lemma_item_msg(ms, item, reasoning, i + 1);
    }
}

/// The subflow an item names: that of its body message, else that of its
/// reasoning message.
pub open spec fn item_ref(ms: Seq<Msg>, p: int, t: int) -> Option<StepSubflowRef> {
    if p >= 0 {
        ms[p].subflow_ref
    } else if t >= 0 {
        ms[t].subflow_ref
    } else {
        None
    }
}

/// The status known for an item: that of the subflow it names, else the
/// group's status for its position; -1 without either.
pub open spec fn item_known(s: Seq<StepSubflowStatus>, r: Option<StepSubflowRef>, g: StepSubflowRef, item: usize) -> int {
    let k = match r {
        Some(r) => ref_position_from(s, r, 0),
        None => -1,
    };
    if k >= 0 {
        k
    } else {
        item_position_from(s, g, item, 0)
    }
}

/// The first of two optional texts that is present.
pub open spec fn or_else(a: Option<Seq<char>>, b: Option<Seq<char>>) -> Option<Seq<char>> {
    if a.is_some() {
        a
    } else {
        b
    }
}

/// The facts an item's entry is drawn from.
pub struct ItemFacts {
    pub body: int,
    pub reasoning: int,
    pub subflow: Option<StepSubflowRef>,
    pub known: int,
    pub fallback: Option<(StepSubflowState, Option<Seq<char>>, Option<Seq<char>>)>,
    pub blocking: int,
}

pub open spec fn item_facts(app: App, ms: Seq<Msg>, g: StepSubflowRef, item: usize) -> ItemFacts {
    let p = item_msg_from(ms, item, false, 0);
    let t = item_msg_from(ms, item, true, 0);
    let r = item_ref(ms, p, t);
    ItemFacts {
        body: p,
        reasoning: t,
        subflow: r,
        known: item_known(app.step_subflows@, r, g, item),
        fallback: spec_item_fallback(app.todo_lines@, item),
        blocking: blocking_position_from(app.step_subflows@, g, 0),
    }
}

/// The state an item's entry shows: the known status, else what the todo
/// list says, else queued; queued in any case while an earlier item of the
/// step runs or failed.
pub open spec fn item_state(s: Seq<StepSubflowStatus>, f: ItemFacts, item: usize) -> StepSubflowState {
    if f.blocking >= 0 && s[f.blocking].item_index < item {
        StepSubflowState::Queued
    } else if f.known >= 0 {
        s[f.known].status
    } else {
        match f.fallback {
            Some(x) => x.0,
            None => StepSubflowState::Queued,
        }
    }
}

/// The subflow id an item's entry names.
pub open spec fn item_subflow_id(g: StepSubflowRef, f: ItemFacts, item: usize) -> Seq<char> {
    match f.subflow {
        Some(r) => r.subflow_id@,
        None => g.parent_step_id@ + "-"@ + dec(item as nat),
    }
}

/// The todo id an item's entry names.
pub open spec fn item_todo_id(s: Seq<StepSubflowStatus>, f: ItemFacts) -> Option<Seq<char>> {
    match f.subflow {
        Some(r) => opt_seq(r.item_id),
        None => or_else(
            if f.known >= 0 {
                opt_seq(s[f.known].item_id)
            } else {
                None
            },
            match f.fallback {
                Some(x) => x.1,
                None => None,
            },
        ),
    }
}

/// The label an item's entry names.
pub open spec fn item_label(s: Seq<StepSubflowStatus>, f: ItemFacts) -> Option<Seq<char>> {
    match f.subflow {
        Some(r) => opt_seq(r.item_label),
        None => or_else(
            if f.known >= 0 {
                opt_seq(s[f.known].item_label)
            } else {
                None
            },
            match f.fallback {
                Some(x) => x.2,
                None => None,
            },
        ),
    }
}

/// The heading of an item's entry: the subflow, the todo id, the label
/// (shortened), the state, and the repeats when the known status shows.
pub open spec fn item_heading(s: Seq<StepSubflowStatus>, g: StepSubflowRef, f: ItemFacts, item: usize) -> Seq<char> {
    let state = item_state(s, f, item);
    "  subflow  "@ + item_subflow_id(g, f, item) + match item_todo_id(s, f) {
        Some(x) => "  #"@ + x,
        None => Seq::empty(),
    } + match item_label(s, f) {
        Some(l) => "  "@ + preview_of(l, 36),
        None => Seq::empty(),
    } + "  "@ + spec_subflow_status_label(state) + if f.known >= 0 && s[f.known].status == state
        && s[f.known].repeat_count_for_item > 0 {
        "  repeat "@ + dec(s[f.known].repeat_count_for_item as nat)
    } else {
        Seq::empty()
    }
}

pub open spec fn id_action(id: Option<String>) -> Option<LineAction> {
    match id {
        Some(x) => Some(LineAction::OpenStepSubflowDetail(x@)),
        None => None,
    }
}

/// The heading line of an item's entry; it opens the subflow's detail from
/// its body message.
pub open spec fn item_heading_line(app: App, ms: Seq<Msg>, g: StepSubflowRef, f: ItemFacts, item: usize) -> DisplayLine {
    DisplayLine {
        kind: MsgKind::Step,
        text: item_heading(app.step_subflows@, g, f, item),
        is_header: false,
        message_id: if f.body >= 0 {
            opt_seq(ms[f.body].id)
        } else {
            None
        },
        action: if f.body >= 0 {
            id_action(ms[f.body].id)
        } else {
            None
        },
        is_tool_line: false,
        tool_status: None,
        response_state: if f.body >= 0 {
            ms[f.body].state
        } else {
            None
        },
        thinking_line_kind: None,
    }
}

// ---------------------------------------------------------------------------
// What an item at work unfolds
// ---------------------------------------------------------------------------

/// The knowledge summary of a message's section, if it has one.
pub open spec fn msg_knowledge(app: App, m: Msg) -> Option<StepKnowledgeSummary> {
    match m.id {
        Some(id) => knowledge_of(app.step_knowledge_summaries@, id@),
        None => None,
    }
}

/// The body lines of an item at work, indented; an ellipsis for an empty
/// body that has no knowledge lane either.
pub open spec fn item_body_lines(app: App, m: Msg) -> Seq<DisplayLine> {
    let body = spec_split_or_empty(m.text@);
    if body.len() == 1 && body[0].len() == 0 && msg_knowledge(app, m).is_none() {
        seq![plain_line(MsgKind::Step, "    …"@, opt_seq(m.id), None, false)]
    } else {
        body.map_values(|l: Seq<char>| plain_line(MsgKind::Step, "    "@ + l, opt_seq(m.id), None, false))
    }
}

/// The reasoning line of an item at work, when reasoning is shown.
pub open spec fn item_reasoning_line(m: Msg) -> DisplayLine {
    let state = match m.state {
        Some(s) => s,
        None => SectionState::Complete,
    };
    DisplayLine {
        kind: MsgKind::Thinking,
        text: "    reasoning  "@ + spec_thinking_summary(m.text@, state),
        is_header: false,
        message_id: opt_seq(m.id),
        action: match m.id {
            Some(x) => Some(LineAction::ToggleThinkingSection(x@)),
            None => None,
        },
        is_tool_line: false,
        tool_status: None,
        response_state: Some(state),
        thinking_line_kind: Some(ThinkingLineKind::Summary),
    }
}

/// The tool calls of a message's section.
pub open spec fn msg_runs(app: App, m: Msg) -> Seq<ToolRun> {
    match m.id {
        Some(id) => section_runs(app.tool_runs@, id@),
        None => Seq::empty(),
    }
}

pub open spec fn id_or_empty(id: Option<String>) -> Seq<char> {
    match id {
        Some(x) => x@,
        None => Seq::empty(),
    }
}

/// The line of one tool call of an item at work; it opens the call's
/// detail.
pub open spec fn item_run_line(m: Msg, r: ToolRun, width: nat) -> DisplayLine {
    DisplayLine {
        kind: MsgKind::Step,
        text: "      "@ + trim(spec_tool_summary(r, width)),
        is_header: false,
        message_id: opt_seq(m.id),
        action: Some(LineAction::OpenToolRunDetail(r.id@)),
        is_tool_line: true,
        tool_status: Some(r.status),
        response_state: None,
        thinking_line_kind: None,
    }
}

/// The tool lane of an item at work: a header (that folds the lane when it
/// has six calls or more), then the calls unless folded.
pub open spec fn item_tool_lines(app: App, m: Msg) -> Seq<DisplayLine> {
    let runs = msg_runs(app, m);
    if runs.len() == 0 {
        Seq::empty()
    } else {
        let can_toggle = runs.len() >= 6;
        let collapsed = can_toggle && m.tool_lane_collapsed;
        seq![
            plain_line(
                MsgKind::Step,
                "    "@ + trim(spec_tool_lane_header(runs, can_toggle, collapsed)),
                opt_seq(m.id),
                if can_toggle {
                    Some(LineAction::ToggleToolLane(id_or_empty(m.id)))
                } else {
                    None
                },
                true,
            ),
        ] + if collapsed {
            Seq::empty()
        } else {
            runs.map_values(|r: ToolRun| item_run_line(m, r, name_width(runs)))
        }
    }
}

/// What an item at work unfolds under its heading: its body, its reasoning
/// (when shown), its knowledge lane and its tool lane.
pub open spec fn item_unfolded(app: App, ms: Seq<Msg>, f: ItemFacts) -> Seq<DisplayLine> {
    let m = ms[f.body];
    item_body_lines(app, m) + (if app.show_thinking && f.reasoning >= 0 {
        seq![item_reasoning_line(ms[f.reasoning])]
    } else {
        Seq::empty()
    }) + match (m.id, msg_knowledge(app, m)) {
        (Some(id), Some(k)) => knowledge_lane(id@, k, MsgKind::Step, "    "@),
        _ => Seq::empty(),
    } + item_tool_lines(app, m)
}

/// The entry of item `item` (counted from 1) of a subflow group: a
/// placeholder when nothing is known of it; else a heading, and, while the
/// item runs or failed, what its body message unfolds.
pub open spec fn spec_subflow_item(app: App, ms: Seq<Msg>, g: StepSubflowRef, item: usize) -> Seq<DisplayLine> {
    let f = item_facts(app, ms, g, item);
    if f.body < 0 && f.reasoning < 0 && f.known < 0 && f.fallback.is_none() {
        seq![
            plain_line(
                MsgKind::Step,
                "  subflow  "@ + g.parent_step_id@ + "-"@ + dec(item as nat) + "  ◦"@,
                None,
                None,
                false,
            ),
        ]
    } else {
        let state = item_state(app.step_subflows@, f, item);
        seq![item_heading_line(app, ms, g, f, item)] + if (state == StepSubflowState::Running || state
            == StepSubflowState::Failed) && f.body >= 0 {
            item_unfolded(app, ms, f)
        } else {
            Seq::empty()
        }
    }
}

// ---------------------------------------------------------------------------
// Drawing an item
// ---------------------------------------------------------------------------

fn find_item_msg(messages: &[Msg], item: usize, reasoning: bool) -> (r: Option<usize>)
    ensures
        match r {
            Some(k) => k as int == item_msg_from(messages@, item, reasoning, 0) && k < messages@.len(),
            None => item_msg_from(messages@, item, reasoning, 0) == -1,
        },
{
    proof {
        lemma_item_msg(messages@, item, reasoning, 0);
    }
    let mut i: usize = 0;
    while i < messages.len()
        invariant
            i <= messages@.len(),
            item_msg_from(messages@, item, reasoning, 0) == item_msg_from(messages@, item, reasoning, i as int),
        decreases messages.len() - i,
    {
        let m = &messages[i];
        let in_item = match &m.subflow_ref {
            Some(r) => r.item_index == item,
            None => false,
        };
        let kind_ok = if reasoning {
            m.kind == MsgKind::Thinking
        } else {
            m.kind == MsgKind::Step || m.kind == MsgKind::FinalAnswer
        };
        if in_item && kind_ok {
            return Some(i);
        }
        i = i + 1;
    }
    None
}

pub open spec fn pos(o: Option<usize>) -> int {
    match o {
        Some(k) => k as int,
        None => -1,
    }
}

pub(crate) fn opt_text(o: &Option<String>) -> (r: Option<String>)
    ensures
        opt_seq(r) == opt_seq(*o),
{
    match o {
        Some(x) => Some(x.clone()),
        None => None,
    }
}

fn first_text(a: Option<String>, b: Option<String>) -> (r: Option<String>)
    ensures
        opt_seq(r) == or_else(opt_seq(a), opt_seq(b)),
{
    match a {
        Some(x) => Some(x),
        None => b,
    }
}

fn push_line_text(lines: &mut Vec<ResponseDisplayLine>, kind: MsgKind, text: String, id: &Option<String>)
    ensures
        line_views(final(lines)@) == line_views(old(lines)@).push(plain_line(kind, text@, opt_seq(*id), None, false)),
{
    push_line(lines, lane_line(kind, text, opt_text(id), None, false));
}

/// What an item's heading needs, as the caller found it.
pub open spec fn facts_match(
    app: App,
    sref: Option<&StepSubflowRef>,
    known: Option<usize>,
    fallback: Option<crate::subflows::TodoSubflowFallback>,
    blocking: Option<usize>,
    f: ItemFacts,
) -> bool {
    &&& f.subflow == match sref {
        Some(x) => Some(*x),
        None => None,
    }
    &&& f.known == pos(known)
    &&& (known matches Some(k) ==> k < app.step_subflows@.len())
    &&& f.fallback == match fallback {
        Some(x) => Some(crate::subflows::fallback_view(x)),
        None => None,
    }
    &&& f.blocking == pos(blocking)
    &&& (blocking matches Some(b) ==> b < app.step_subflows@.len())
}

impl App {
    fn item_state_of(
        &self,
        known: Option<usize>,
        fallback: &Option<crate::subflows::TodoSubflowFallback>,
        blocking: Option<usize>,
        item: usize,
        Ghost(f): Ghost<ItemFacts>,
        Ghost(sref): Ghost<Option<&StepSubflowRef>>,
    ) -> (r: StepSubflowState)
        requires
            facts_match(*self, sref, known, *fallback, blocking, f),
        ensures
            r == item_state(self.step_subflows@, f, item),
    {
        match blocking {
            Some(b) => {
                if self.step_subflows[b].item_index < item {
                    return StepSubflowState::Queued;
                }
            },
            None => {},
        }
        match known {
            Some(k) => self.step_subflows[k].status,
            None => match fallback {
                Some(x) => x.status,
                None => StepSubflowState::Queued,
            },
        }
    }

    fn item_names_of(
        &self,
        sref: Option<&StepSubflowRef>,
        known: Option<usize>,
        fallback: &Option<crate::subflows::TodoSubflowFallback>,
        Ghost(f): Ghost<ItemFacts>,
        Ghost(blocking): Ghost<Option<usize>>,
    ) -> (r: (Option<String>, Option<String>))
        requires
            facts_match(*self, sref, known, *fallback, blocking, f),
        ensures
            opt_seq(r.0) == item_todo_id(self.step_subflows@, f),
            opt_seq(r.1) == item_label(self.step_subflows@, f),
    {
        match sref {
            Some(r) => (opt_text(&r.item_id), opt_text(&r.item_label)),
            None => {
                let (kid, klabel) = match known {
                    Some(k) => (opt_text(&self.step_subflows[k].item_id), opt_text(&self.step_subflows[k].item_label)),
                    None => (None, None),
                };
                let (fid, flabel) = match fallback {
                    Some(x) => (opt_text(&x.item_id), opt_text(&x.item_label)),
                    None => (None, None),
                };
                (first_text(kid, fid), first_text(klabel, flabel))
            },
        }
    }

    /// The heading of an item's entry and the state it shows.
    fn item_heading_of(
        &self,
        g: &StepSubflowRef,
        sref: Option<&StepSubflowRef>,
        known: Option<usize>,
        fallback: &Option<crate::subflows::TodoSubflowFallback>,
        blocking: Option<usize>,
        item: usize,
        Ghost(f): Ghost<ItemFacts>,
    ) -> (r: (String, StepSubflowState))
        requires
            facts_match(*self, sref, known, *fallback, blocking, f),
        ensures
            r.0@ == item_heading(self.step_subflows@, *g, f, item),
            r.1 == item_state(self.step_subflows@, f, item),
    {
        let ghost s = self.step_subflows@;
        let state = self.item_state_of(known, fallback, blocking, item, Ghost(f), Ghost(sref));
        let (todo_id, label) = self.item_names_of(sref, known, fallback, Ghost(f), Ghost(blocking));
        let mut text = "  subflow  ".to_owned();
        match sref {
            Some(r) => push_str(&mut text, r.subflow_id.as_str()),
            None => {
                push_str(&mut text, g.parent_step_id.as_str());
                push_str(&mut text, "-");
                push_num(&mut text, item as u64);
            },
        }
        let ghost a = text@;
        match &todo_id {
            Some(x) => {
                push_str(&mut text, "  #");
                push_str(&mut text, x.as_str());
            },
            None => {},
        }
        let ghost b = text@;
        match &label {
            Some(l) => {
                push_str(&mut text, "  ");
                push_str(&mut text, truncate_preview(l.as_str(), 36).as_str());
            },
            None => {},
        }
        let ghost c = text@;
        push_str(&mut text, "  ");
        push_str(&mut text, subflow_status_label(state));
        match known {
            Some(k) => {
                let st = &self.step_subflows[k];
                if st.status == state && st.repeat_count_for_item > 0 {
                    push_str(&mut text, "  repeat ");
                    push_num(&mut text, st.repeat_count_for_item as u64);
                }
            },
            None => {},
        }
        proof {
            assert(a =~= "  subflow  "@ + item_subflow_id(*g, f, item));
            assert(b =~= a + match item_todo_id(s, f) {
                Some(x) => "  #"@ + x,
                None => Seq::<char>::empty(),
            });
            assert(c =~= b + match item_label(s, f) {
                Some(l) => "  "@ + preview_of(l, 36),
                None => Seq::<char>::empty(),
            });
        }
        (text, state)
    }
}

impl App {
    pub(crate) fn msg_knowledge_of(&self, m: &Msg) -> (r: Option<&StepKnowledgeSummary>)
        ensures
            match r {
                Some(k) => msg_knowledge(*self, *m) == Some(*k),
                None => msg_knowledge(*self, *m).is_none(),
            },
    {
        match &m.id {
            Some(id) => match self.find_knowledge(id.as_str()) {
                Some(k) => Some(&self.step_knowledge_summaries[k]),
                None => None,
            },
            None => None,
        }
    }

    fn item_body_lines_of(&self, m: &Msg) -> (r: Vec<ResponseDisplayLine>)
        ensures
            line_views(r@) == item_body_lines(*self, *m),
    {
        let mut lines: Vec<ResponseDisplayLine> = Vec::new();
        let body = split_or_empty(m.text.as_str());
        let no_knowledge = self.msg_knowledge_of(m).is_none();
        if body.len() == 1 && is_empty_str(body[0].as_str()) && no_knowledge {
            push_line_text(&mut lines, MsgKind::Step, "    …".to_owned(), &m.id);
            proof {
                assert(line_views(lines@) =~= item_body_lines(*self, *m));
            }
            return lines;
        }
        let ghost bv = views(body@);
        let mut i: usize = 0;
        while i < body.len()
            invariant
                bv == views(body@),
                i <= body@.len(),
                line_views(lines@) == bv.take(i as int).map_values(
                    |l: Seq<char>| plain_line(MsgKind::Step, "    "@ + l, opt_seq(m.id), None, false),
                ),
            decreases body.len() - i,
        {
            let mut t = "    ".to_owned();
            push_str(&mut t, body[i].as_str());
            push_line_text(&mut lines, MsgKind::Step, t, &m.id);
            proof {
                let f = |l: Seq<char>| plain_line(MsgKind::Step, "    "@ + l, opt_seq(m.id), None, false);
                assert(bv.take(i + 1).map_values(f) =~= bv.take(i as int).map_values(f).push(f(bv[i as int])));
            }
            i = i + 1;
        }
        proof {
            assert(bv.take(bv.len() as int) =~= bv);
        }
        lines
    }
}

fn item_reasoning_line_of(m: &Msg) -> (r: ResponseDisplayLine)
    ensures
        r@ == item_reasoning_line(*m),
{
    let state = match m.state {
        Some(s) => s,
        None => SectionState::Complete,
    };
    let mut text = "    reasoning  ".to_owned();
    push_str(&mut text, summarize_thinking_text(m.text.as_str(), state).as_str());
    ResponseDisplayLine {
        kind: MsgKind::Thinking,
        text,
        is_header: false,
        message_id: opt_text(&m.id),
        action: match &m.id {
            Some(x) => Some(ResponseLineAction::ToggleThinkingSection(x.clone())),
            None => None,
        },
        is_tool_line: false,
        tool_status: None,
        response_state: Some(state),
        thinking_line_kind: Some(ThinkingLineKind::Summary),
    }
}

fn item_run_line_of(m: &Msg, r: &ToolRun, width: usize) -> (l: ResponseDisplayLine)
    ensures
        l@ == item_run_line(*m, *r, width as nat),
{
    let mut text = "      ".to_owned();
    push_str(&mut text, trim_string(format_tool_summary(r, width).as_str()).as_str());
    ResponseDisplayLine {
        kind: MsgKind::Step,
        text,
        is_header: false,
        message_id: opt_text(&m.id),
        action: Some(ResponseLineAction::OpenToolRunDetail(r.id.clone())),
        is_tool_line: true,
        tool_status: Some(r.status),
        response_state: None,
        thinking_line_kind: None,
    }
}

impl App {
    fn item_tool_lines_of(&self, m: &Msg) -> (r: Vec<ResponseDisplayLine>)
        ensures
            line_views(r@) == item_tool_lines(*self, *m),
    {
        let mut lines: Vec<ResponseDisplayLine> = Vec::new();
        let runs: Vec<&ToolRun> = match &m.id {
            Some(id) => self.tool_runs_for_section(id.as_str()),
            None => Vec::new(),
        };
        let ghost rs = msg_runs(*self, *m);
        proof {
            assert(derefs(runs@) =~= rs);
        }
        if runs.len() == 0 {
            proof {
                assert(line_views(lines@) =~= item_tool_lines(*self, *m));
            }
            return lines;
        }
        let can_toggle = runs.len() >= 6;
        let collapsed = can_toggle && m.tool_lane_collapsed;
        let mut head = "    ".to_owned();
        push_str(&mut head, trim_string(format_tool_lane_header(runs.as_slice(), can_toggle, collapsed).as_str()).as_str());
        let action = if can_toggle {
            Some(
                ResponseLineAction::ToggleToolLane(
                    match &m.id {
                        Some(x) => x.clone(),
                        None => String::new(),
                    },
                ),
            )
        } else {
            None
        };
        push_line(&mut lines, lane_line(MsgKind::Step, head, opt_text(&m.id), action, true));
        let ghost first = line_views(lines@);
        if !collapsed {
            let width = tool_name_width(runs.as_slice());
            let mut i: usize = 0;
            while i < runs.len()
                invariant
                    rs == derefs(runs@),
                    i <= rs.len(),
                    width == name_width(rs),
                    line_views(lines@) == first + rs.take(i as int).map_values(
                        |r: ToolRun| item_run_line(*m, r, name_width(rs)),
                    ),
                decreases runs.len() - i,
            {
                push_line(&mut lines, item_run_line_of(m, runs[i], width));
                proof {
                    let f = |r: ToolRun| item_run_line(*m, r, name_width(rs));
                    assert(rs.take(i + 1).map_values(f) =~= rs.take(i as int).map_values(f).push(f(rs[i as int])));
                }
                i = i + 1;
            }
            proof {
                assert(rs.take(rs.len() as int) =~= rs);
            }
        }
        proof {
            assert(line_views(lines@) =~= item_tool_lines(*self, *m));
        }
        lines
    }
}

pub fn push_lines(v: &mut Vec<ResponseDisplayLine>, more: Vec<ResponseDisplayLine>)
    ensures
        line_views(final(v)@) == line_views(old(v)@) + line_views(more@),
{
    let mut more = more;
    let ghost mv = line_views(more@);
    v.append(&mut more);
    proof {
        assert(line_views(v@) =~= line_views(old(v)@) + mv);
    }
}

impl App {
    fn item_unfolded_of(&self, messages: &[Msg], p: usize, t: Option<usize>, Ghost(f): Ghost<ItemFacts>) -> (r: Vec<
        ResponseDisplayLine,
    >)
        requires
            f.body == p as int,
            p < messages@.len(),
            f.reasoning == pos(t),
            t matches Some(k) ==> k < messages@.len(),
        ensures
            line_views(r@) == item_unfolded(*self, messages@, f),
    {
        let m = &messages[p];
        let mut lines = self.item_body_lines_of(m);
        let ghost a = line_views(lines@);
        if self.show_thinking {
            match t {
                Some(k) => push_line(&mut lines, item_reasoning_line_of(&messages[k])),
                None => {},
            }
        }
        let ghost b = line_views(lines@);
        match &m.id {
            Some(id) => {
                let k = self.msg_knowledge_of(m);
                push_lines(&mut lines, self.render_knowledge_lane(id.as_str(), k, MsgKind::Step, "    "));
            },
            None => {},
        }
        let ghost c = line_views(lines@);
        push_lines(&mut lines, self.item_tool_lines_of(m));
        proof {
            assert(b =~= a + (if self.show_thinking && f.reasoning >= 0 {
                seq![item_reasoning_line(messages@[f.reasoning])]
            } else {
                Seq::<DisplayLine>::empty()
            }));
            assert(c =~= b + match (m.id, msg_knowledge(*self, *m)) {
                (Some(id), Some(k)) => knowledge_lane(id@, k, MsgKind::Step, "    "@),
                _ => Seq::<DisplayLine>::empty(),
            });
        }
        lines
    }

    /// The entry of item `item_index` (counted from 1) of the subflow group
    /// of `messages`, whose subflows belong to the step `group_ref` names.
    pub fn render_subflow_item(&self, messages: &[Msg], group_ref: &StepSubflowRef, item_index: usize) -> (r: Vec<
        ResponseDisplayLine,
    >)
        ensures
            line_views(r@) == spec_subflow_item(*self, messages@, *group_ref, item_index),
    {
        let ghost f = item_facts(*self, messages@, *group_ref, item_index);
        let p = find_item_msg(messages, item_index, false);
        let t = find_item_msg(messages, item_index, true);
        let sref: Option<&StepSubflowRef> = match p {
            Some(i) => match &messages[i].subflow_ref {
                Some(x) => Some(x),
                None => None,
            },
            None => match t {
                Some(i) => match &messages[i].subflow_ref {
                    Some(x) => Some(x),
                    None => None,
                },
                None => None,
            },
        };
        let by_ref = match sref {
            Some(x) => self.find_ref(x),
            None => None,
        };
        let known = match by_ref {
            Some(k) => Some(k),
            None => self.find_item(group_ref, item_index),
        };
        let fallback = self.todo_subflow_fallback(item_index);
        let blocking = self.find_blocking(group_ref);
        let mut lines: Vec<ResponseDisplayLine> = Vec::new();
        if p.is_none() && t.is_none() && known.is_none() && fallback.is_none() {
            let mut text = "  subflow  ".to_owned();
            push_str(&mut text, group_ref.parent_step_id.as_str());
            push_str(&mut text, "-");
            push_num(&mut text, item_index as u64);
            push_str(&mut text, "  ◦");
            push_line(&mut lines, lane_line(MsgKind::Step, text, None, None, false));
            proof {
                assert(line_views(lines@) =~= spec_subflow_item(*self, messages@, *group_ref, item_index));
            }
            return lines;
        }
        proof {
            assert(facts_match(*self, sref, known, fallback, blocking, f));
        }
        let (heading, state) = self.item_heading_of(group_ref, sref, known, &fallback, blocking, item_index, Ghost(f));
        let (message_id, action, response_state) = match p {
            Some(i) => (
                opt_text(&messages[i].id),
                match &messages[i].id {
                    Some(x) => Some(ResponseLineAction::OpenStepSubflowDetail(x.clone())),
                    None => None,
                },
                messages[i].state,
            ),
            None => (None, None, None),
        };
        push_line(
            &mut lines,
            ResponseDisplayLine {
                kind: MsgKind::Step,
                text: heading,
                is_header: false,
                message_id,
                action,
                is_tool_line: false,
                tool_status: None,
                response_state,
                thinking_line_kind: None,
            },
        );
        proof {
            assert(line_views(lines@) =~= seq![item_heading_line(*self, messages@, *group_ref, f, item_index)]);
        }
        if state == StepSubflowState::Running || state == StepSubflowState::Failed {
            match p {
                Some(i) => push_lines(&mut lines, self.item_unfolded_of(messages, i, t, Ghost(f))),
                None => {},
            }
        }
        proof {
            assert(line_views(lines@) =~= spec_subflow_item(*self, messages@, *group_ref, item_index));
        }
        lines
    }
}

// ---------------------------------------------------------------------------
// The group
// ---------------------------------------------------------------------------

/// The first message at or after `i` that belongs to a subflow, or -1.
pub open spec fn first_ref_from(ms: Seq<Msg>, i: int) -> int
    decreases ms.len() - i,
{
    if i < 0 || i >= ms.len() {
        -1
    } else if ms[i].subflow_ref.is_some() {
        i
    } else {
        first_ref_from(ms, i + 1)
    }
}

pub proof fn lemma_first_ref(ms: Seq<Msg>, i: int)
    requires
        0 <= i,
    ensures
        first_ref_from(ms, i) == -1 || (i <= first_ref_from(ms, i) < ms.len() && ms[first_ref_from(
            ms,
            i,
        )].subflow_ref.is_some()),
    decreases ms.len() - i,
{
    if i < ms.len() && ms[i].subflow_ref.is_none() {
        lemma_first_ref(ms, i + 1);
    }
}

/// The workflow role the first messages name, from `i` on.
pub open spec fn first_role_from(ms: Seq<Msg>, i: int) -> Option<WorkflowRunRole>
    decreases ms.len() - i,
{
    if i < 0 || i >= ms.len() {
        None
    } else if ms[i].workflow_role.is_some() {
        ms[i].workflow_role
    } else {
        first_role_from(ms, i + 1)
    }
}

/// The scene the first messages name, from `i` on.
pub open spec fn first_scene_from(ms: Seq<Msg>, i: int) -> Option<Seq<char>>
    decreases ms.len() - i,
{
    if i < 0 || i >= ms.len() {
        None
    } else if ms[i].scene_id.is_some() {
        opt_seq(ms[i].scene_id)
    } else {
        first_scene_from(ms, i + 1)
    }
}

/// The state of a group after one more section state: failed once any
/// failed, else streaming once any streams, else complete.
pub open spec fn merge_state(state: SectionState, next: Option<SectionState>) -> SectionState {
    match next {
        Some(n) => if n == SectionState::Failed || state == SectionState::Failed {
            SectionState::Failed
        } else if n == SectionState::Streaming || state == SectionState::Streaming {
            SectionState::Streaming
        } else {
            SectionState::Complete
        },
        None => state,
    }
}

/// The state of the first `n` messages of a group.
pub open spec fn group_state(ms: Seq<Msg>, n: int) -> SectionState
    decreases n,
{
    if n <= 0 {
        SectionState::Complete
    } else {
        merge_state(group_state(ms, n - 1), ms[n - 1].state)
    }
}

pub open spec fn state_badge(state: SectionState) -> Seq<char> {
    match state {
        SectionState::Streaming => "◉"@,
        SectionState::Complete => "●"@,
        SectionState::Failed => "✕"@,
    }
}

/// The progress summary of a group: the visible item of the total, and the
/// current subflow with its todo id and repeats.
pub open spec fn group_summary(s: Seq<StepSubflowStatus>, ms: Seq<Msg>, first: StepSubflowRef) -> Seq<char> {
    let total = spec_subflow_total(s, ms, first);
    let done = complete_count(s, first, s.len() as int);
    let cur = current_position(s, first);
    let visible: nat = if cur >= 0 {
        s[cur].item_index as nat
    } else if done <= total {
        done
    } else {
        total as nat
    };
    "  "@ + join(
        seq!["items "@ + dec(visible) + "/"@ + dec(total as nat)] + if cur >= 0 {
            seq!["current "@ + s[cur].subflow_id@] + match s[cur].item_id {
                Some(x) => seq!["todo #"@ + x@],
                None => Seq::<Seq<char>>::empty(),
            } + if s[cur].repeat_count_for_item > 0 {
                seq!["repeat "@ + dec(s[cur].repeat_count_for_item as nat)]
            } else {
                Seq::<Seq<char>>::empty()
            }
        } else {
            Seq::<Seq<char>>::empty()
        },
        " · "@,
    )
}

/// The entries of items `1..=n` of a group.
pub open spec fn group_items(app: App, ms: Seq<Msg>, first: StepSubflowRef, n: nat) -> Seq<DisplayLine>
    decreases n,
{
    if n == 0 {
        Seq::empty()
    } else {
        group_items(app, ms, first, (n - 1) as nat) + spec_subflow_item(app, ms, first, n as usize)
    }
}

/// The lines of a subflow group: none without a subflow message; else the
/// parent step's header, its scene, the progress summary, and one entry
/// per item.
pub open spec fn spec_subflow_group(app: App, ms: Seq<Msg>) -> Seq<DisplayLine> {
    let k = first_ref_from(ms, 0);
    if k < 0 {
        Seq::empty()
    } else {
        let first = ms[k].subflow_ref.unwrap();
        let role = match first_role_from(ms, 0) {
            Some(r) => r,
            None => WorkflowRunRole::Child,
        };
        let state = group_state(ms, ms.len() as int);
        let total = spec_subflow_total(app.step_subflows@, ms, first);
        seq![
            DisplayLine {
                kind: MsgKind::Step,
                text: "step  "@ + role.spec_name() + ":"@ + first.parent_workflow_id@ + "  "@ + first.parent_step_label@
                    + "  "@ + state_badge(state),
                is_header: true,
                message_id: None,
                action: None,
                is_tool_line: false,
                tool_status: None,
                response_state: Some(state),
                thinking_line_kind: None,
            },
        ] + match first_scene_from(ms, 0) {
            Some(sc) => seq![plain_line(MsgKind::Step, "  scene "@ + sc, None, None, false)],
            None => Seq::empty(),
        } + seq![plain_line(MsgKind::Step, group_summary(app.step_subflows@, ms, first), None, None, false)]
            + group_items(app, ms, first, if total >= 1 { total as nat } else { 1 })
    }
}

fn first_role_of(messages: &[Msg]) -> (r: Option<WorkflowRunRole>)
    ensures
        r == first_role_from(messages@, 0),
{
    let mut i: usize = 0;
    while i < messages.len()
        invariant
            i <= messages@.len(),
            first_role_from(messages@, 0) == first_role_from(messages@, i as int),
        decreases messages.len() - i,
    {
        if messages[i].workflow_role.is_some() {
            return messages[i].workflow_role;
        }
        i = i + 1;
    }
    None
}

fn first_scene_of(messages: &[Msg]) -> (r: Option<String>)
    ensures
        opt_seq(r) == first_scene_from(messages@, 0),
{
    let mut i: usize = 0;
    while i < messages.len()
        invariant
            i <= messages@.len(),
            first_scene_from(messages@, 0) == first_scene_from(messages@, i as int),
        decreases messages.len() - i,
    {
        match &messages[i].scene_id {
            Some(x) => return Some(x.clone()),
            None => {},
        }
        i = i + 1;
    }
    None
}

fn group_state_of(messages: &[Msg]) -> (r: SectionState)
    ensures
        r == group_state(messages@, messages@.len() as int),
{
    let mut state = SectionState::Complete;
    let mut i: usize = 0;
    while i < messages.len()
        invariant
            i <= messages@.len(),
            state == group_state(messages@, i as int),
        decreases messages.len() - i,
    {
        match messages[i].state {
            Some(n) => {
                state = if n == SectionState::Failed || state == SectionState::Failed {
                    SectionState::Failed
                } else if n == SectionState::Streaming || state == SectionState::Streaming {
                    SectionState::Streaming
                } else {
                    SectionState::Complete
                };
            },
            None => {},
        }
        i = i + 1;
    }
    state
}

fn state_badge_of(state: SectionState) -> (r: &'static str)
    ensures
        r@ == state_badge(state),
{
    match state {
        SectionState::Streaming => "◉",
        SectionState::Complete => "●",
        SectionState::Failed => "✕",
    }
}

impl App {
    fn group_summary_of(&self, messages: &[Msg], first: &StepSubflowRef) -> (r: String)
        ensures
            r@ == group_summary(self.step_subflows@, messages@, *first),
    {
        let total = self.subflow_total(messages, first);
        let done = self.count_complete(first);
        let cur = self.find_current(first);
        let visible: usize = match cur {
            Some(k) => self.step_subflows[k].item_index,
            None => if done <= total {
                done
            } else {
                total
            },
        };
        let mut parts: Vec<String> = Vec::new();
        let mut items = "items ".to_owned();
        push_num(&mut items, visible as u64);
        push_str(&mut items, "/");
        push_num(&mut items, total as u64);
        parts.push(items);
        let ghost head = views(parts@);
        proof {
            let s = self.step_subflows@;
            let c = current_position(s, *first);
            let d = complete_count(s, *first, s.len() as int);
            let vis: nat = if c >= 0 {
                s[c].item_index as nat
            } else if d <= total {
                d
            } else {
                total as nat
            };
            assert(visible as nat == vis);
            assert(head =~= seq!["items "@ + dec(vis) + "/"@ + dec(total as nat)]);
        }
        match cur {
            Some(k) => {
                let st = &self.step_subflows[k];
                let mut c = "current ".to_owned();
                push_str(&mut c, st.subflow_id.as_str());
                parts.push(c);
                match &st.item_id {
                    Some(x) => {
                        let mut t = "todo #".to_owned();
                        push_str(&mut t, x.as_str());
                        parts.push(t);
                    },
                    None => {},
                }
                if st.repeat_count_for_item > 0 {
                    let mut t = "repeat ".to_owned();
                    push_num(&mut t, st.repeat_count_for_item as u64);
                    parts.push(t);
                }
            },
            None => {},
        }
        proof {
            let s = self.step_subflows@;
            let c = current_position(s, *first);
            assert(views(parts@) =~= head + if c >= 0 {
                seq!["current "@ + s[c].subflow_id@] + match s[c].item_id {
                    Some(x) => seq!["todo #"@ + x@],
                    None => Seq::<Seq<char>>::empty(),
                } + if s[c].repeat_count_for_item > 0 {
                    seq!["repeat "@ + dec(s[c].repeat_count_for_item as nat)]
                } else {
                    Seq::<Seq<char>>::empty()
                }
            } else {
                Seq::<Seq<char>>::empty()
            });
        }
        let mut out = "  ".to_owned();
        push_str(&mut out, join_strings(&parts, " · ").as_str());
        out
    }

    /// The lines of the subflow group of `messages`: the parent step's
    /// header, its scene, the progress summary and one entry per item.
    pub fn render_subflow_group(&self, messages: &[Msg]) -> (r: Vec<ResponseDisplayLine>)
        ensures
            line_views(r@) == spec_subflow_group(*self, messages@),
    {
        let mut lines: Vec<ResponseDisplayLine> = Vec::new();
        proof {
            lemma_first_ref(messages@, 0);
        }
        let mut k: usize = 0;
        while k < messages.len() && messages[k].subflow_ref.is_none()
            invariant
                k <= messages@.len(),
                first_ref_from(messages@, 0) == first_ref_from(messages@, k as int),
            decreases messages.len() - k,
        {
            k = k + 1;
        }
        if k == messages.len() {
            proof {
                assert(line_views(lines@) =~= Seq::<DisplayLine>::empty());
            }
            return lines;
        }
        let first = match &messages[k].subflow_ref {
            Some(f) => f,
            None => {
                return lines;
            },
        };
        let role = match first_role_of(messages) {
            Some(r) => r,
            None => WorkflowRunRole::Child,
        };
        let state = group_state_of(messages);
        let mut header = "step  ".to_owned();
        push_str(&mut header, role.as_str());
        push_str(&mut header, ":");
        push_str(&mut header, first.parent_workflow_id.as_str());
        push_str(&mut header, "  ");
        push_str(&mut header, first.parent_step_label.as_str());
        push_str(&mut header, "  ");
        push_str(&mut header, state_badge_of(state));
        push_line(
            &mut lines,
            ResponseDisplayLine {
                kind: MsgKind::Step,
                text: header,
                is_header: true,
                message_id: None,
                action: None,
                is_tool_line: false,
                tool_status: None,
                response_state: Some(state),
                thinking_line_kind: None,
            },
        );
        let ghost a = line_views(lines@);
        match first_scene_of(messages) {
            Some(sc) => {
                let mut t = "  scene ".to_owned();
                push_str(&mut t, sc.as_str());
                push_line(&mut lines, lane_line(MsgKind::Step, t, None, None, false));
            },
            None => {},
        }
        let ghost b = line_views(lines@);
        push_line(&mut lines, lane_line(MsgKind::Step, self.group_summary_of(messages, first), None, None, false));
        let total = self.subflow_total(messages, first);
        let n: usize = if total >= 1 {
            total
        } else {
            1
        };
        let ghost head = line_views(lines@);
        let mut i: usize = 0;
        while i < n
            invariant
                i <= n,
                line_views(lines@) == head + group_items(*self, messages@, *first, i as nat),
            decreases n - i,
        {
            let item = self.render_subflow_item(messages, first, i + 1);
            push_lines(&mut lines, item);
            proof {
                assert(head + group_items(*self, messages@, *first, (i + 1) as nat) =~= head + group_items(
                    *self,
                    messages@,
                    *first,
                    i as nat,
                ) + spec_subflow_item(*self, messages@, *first, (i + 1) as usize));
            }
            i = i + 1;
        }
        proof {
            assert(b =~= a + match first_scene_from(messages@, 0) {
                Some(sc) => seq![plain_line(MsgKind::Step, "  scene "@ + sc, None, None, false)],
                None => Seq::<DisplayLine>::empty(),
            });
            assert(line_views(lines@) =~= spec_subflow_group(*self, messages@));
        }
        lines
    }
}

// ---------------------------------------------------------------------------
// Cards
// ---------------------------------------------------------------------------

/// A titled part of a response card.
#[derive(Debug, Clone, PartialEq, Eq)]
pub struct ResponseCardSection {
    pub kind: ResponseCardSectionKind,
    pub title: Option<String>,
    pub header_line: Option<ResponseDisplayLine>,
    pub lines: Vec<ResponseDisplayLine>,
}

/// One card of the response panel: lines before its header, its header,
/// and its sections.
#[derive(Debug, Clone, PartialEq, Eq)]
pub struct ResponseCard {
    pub id: Option<String>,
    pub kind: MsgKind,
    pub prelude_lines: Vec<ResponseDisplayLine>,
    pub header_line: ResponseDisplayLine,
    pub sections: Vec<ResponseCardSection>,
}

pub open spec fn section_lines(s: ResponseCardSection) -> Seq<DisplayLine> {
    let head: Seq<DisplayLine> = match s.header_line {
        Some(h) => seq![h@],
        None => Seq::empty(),
    };
    head + line_views(s.lines@)
}

/// The lines of the first `n` sections of a card.
pub open spec fn sections_lines(ss: Seq<ResponseCardSection>, n: int) -> Seq<DisplayLine>
    decreases n,
{
    if n <= 0 {
        Seq::empty()
    } else {
        sections_lines(ss, n - 1) + section_lines(ss[n - 1])
    }
}

/// The lines a card shows: its prelude, its header, then each section's
/// header and lines.
pub open spec fn card_lines(c: ResponseCard) -> Seq<DisplayLine> {
    line_views(c.prelude_lines@) + seq![c.header_line@] + sections_lines(c.sections@, c.sections@.len() as int)
}

/// The lines a card shows, in order.
pub fn project_response_card(card: ResponseCard) -> (r: Vec<ResponseDisplayLine>)
    ensures
        line_views(r@) == card_lines(card),
{
    let ghost c = card;
    let ResponseCard { id: _, kind: _, prelude_lines, header_line, sections } = card;
    let mut lines = prelude_lines;
    push_line(&mut lines, header_line);
    let ghost head = line_views(lines@);
    let mut sections = sections;
    let ghost ss = sections@;
    let mut rest: Vec<ResponseCardSection> = Vec::new();
    let n = sections.len();
    let mut i: usize = 0;
    while i < n
        invariant
            ss == c.sections@,
            n == ss.len(),
            i <= n,
            head == line_views(c.prelude_lines@) + seq![c.header_line@],
            line_views(lines@) == head + sections_lines(ss, i as int),
            sections@ == ss.skip(i as int),
        decreases n - i,
    {
        let section = sections.remove(0);
        proof {
            assert(section == ss[i as int]);
            assert(sections@ =~= ss.skip(i + 1));
        }
        let ghost sv = section;
        let ResponseCardSection { kind: _, title: _, header_line, lines: body } = section;
        match header_line {
            Some(h) => push_line(&mut lines, h),
            None => {},
        }
        push_lines(&mut lines, body);
        proof {
            assert(line_views(lines@) =~= head + sections_lines(ss, i as int) + section_lines(sv));
        }
        i = i + 1;
    }
    proof {
        assert(sections_lines(ss, n as int) == sections_lines(c.sections@, c.sections@.len() as int));
    }
    lines
}

impl App {
    /// The card of a subflow group: the group's header as the card's header
    /// and the rest of its lines as one subflow section; an empty step card
    /// when the group has no subflow message.
    pub fn build_subflow_card(&self, messages: &[Msg]) -> (r: ResponseCard)
        ensures
            ({
                let g = spec_subflow_group(*self, messages@);
                &&& r.kind == MsgKind::Step
                &&& r.prelude_lines@.len() == 0
                &&& if g.len() == 0 {
                    &&& r.id.is_none()
                    &&& r.header_line@ == plain_line(MsgKind::Step, Seq::empty(), None, None, false)
                    &&& r.sections@.len() == 0
                } else {
                    &&& opt_seq(r.id) == g[0].message_id
                    &&& r.header_line@ == g[0]
                    &&& r.sections@.len() == 1
                    &&& r.sections@[0].kind == ResponseCardSectionKind::Subflow
                    &&& r.sections@[0].title.is_none()
                    &&& r.sections@[0].header_line.is_none()
                    &&& line_views(r.sections@[0].lines@) == g.drop_first()
                }
            }),
    {
        let mut rendered = self.render_subflow_group(messages);
        if rendered.len() == 0 {
            return ResponseCard {
                id: None,
                kind: MsgKind::Step,
                prelude_lines: Vec::new(),
                header_line: ResponseDisplayLine::plain(MsgKind::Step, String::new()),
                sections: Vec::new(),
            };
        }
        let ghost g = line_views(rendered@);
        let header_line = rendered.remove(0);
        proof {
            assert(line_views(rendered@) =~= g.drop_first());
        }
        let id = opt_text(&header_line.message_id);
        let mut sections: Vec<ResponseCardSection> = Vec::new();
        sections.push(
            ResponseCardSection { kind: ResponseCardSectionKind::Subflow, title: None, header_line: None, lines: rendered },
        );
        ResponseCard { id, kind: MsgKind::Step, prelude_lines: Vec::new(), header_line, sections }
    }
}

} // verus!
