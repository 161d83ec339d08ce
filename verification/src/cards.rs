//! The card of one transcript message in the response panel: its prelude,
//! its header and its sections (scene, result, body, lanes, tool calls,
//! reasoning).
use vstd::prelude::*;

use crate::app::{App, Msg, MsgKind, ResponseLineAction, SectionState, ThinkingLineKind};
use crate::chars::{dec, dec_usize, lines, push_char, push_str, str_eq, views};
use crate::delivery::{delivery_section_id, extract_turn_id_from_section_id, spec_turn_id_of, spec_turn_prefix, DeliverySummary};
use crate::knowledge::StepKnowledgeSummary;
use crate::lanes::{
    knowledge_lane, lane_line, line_views, opt_seq, plain_line, push_line, skill_lane, DisplayLine, LineAction,
    ResponseDisplayLine,
};
use crate::report::{first_non_empty_line, is_empty_str, spec_first_non_empty, spec_split_or_empty, split_or_empty, ResponseCardSectionKind};
use crate::response_text::{
    derefs, format_response_header, format_tool_lane_header, format_tool_summary, name_width, spec_command_summary,
    spec_response_header, spec_thinking_body_prefix, spec_thinking_placeholder, spec_thinking_summary,
    spec_tool_lane_header, spec_tool_summary, spec_visible_thinking, summarize_command_text, summarize_thinking_text,
    thinking_body_prefix, thinking_placeholder_text, tool_name_width, visible_thinking_body_lines,
};
use crate::skills::load_position;
use crate::subflows::section_runs;
use crate::timeline::{card_lines, msg_knowledge, msg_runs, opt_text, section_lines, sections_lines, ResponseCard, ResponseCardSection};
use crate::turn_delivery::{DeliverySkillLoad, ToolRun};

verus! {

// ---------------------------------------------------------------------------
// Sections as their kinds, titles and lines
// ---------------------------------------------------------------------------

/// A section as its kind, its title and the lines it shows.
pub open spec fn section_shape(s: ResponseCardSection) -> (ResponseCardSectionKind, Option<Seq<char>>, Seq<DisplayLine>) {
    (s.kind, opt_seq(s.title), section_lines(s))
}

pub open spec fn shapes(v: Seq<ResponseCardSection>) -> Seq<(ResponseCardSectionKind, Option<Seq<char>>, Seq<DisplayLine>)> {
    v.map_values(|s: ResponseCardSection| section_shape(s))
}

/// A section with no title or header, of `kind`, showing `lines`.
pub open spec fn bare(kind: ResponseCardSectionKind, lines: Seq<DisplayLine>) -> (
    ResponseCardSectionKind,
    Option<Seq<char>>,
    Seq<DisplayLine>,
) {
    (kind, None, lines)
}

/// Such a section when it has lines; none otherwise.
pub open spec fn bare_if(kind: ResponseCardSectionKind, lines: Seq<DisplayLine>) -> Seq<
    (ResponseCardSectionKind, Option<Seq<char>>, Seq<DisplayLine>),
> {
    if lines.len() > 0 {
        seq![bare(kind, lines)]
    } else {
        Seq::empty()
    }
}

/// The lines of the first `n` section shapes, one after another.
pub open spec fn shape_lines(ss: Seq<(ResponseCardSectionKind, Option<Seq<char>>, Seq<DisplayLine>)>, n: int) -> Seq<
    DisplayLine,
>
    decreases n,
{
    if n <= 0 {
        Seq::empty()
    } else {
        shape_lines(ss, n - 1) + ss[n - 1].2
    }
}

proof fn lemma_sections_lines(ss: Seq<ResponseCardSection>, n: int)
    requires
        0 <= n <= ss.len(),
    ensures
        sections_lines(ss, n) == shape_lines(shapes(ss), n),
    decreases n,
{
    if n > 0 {
        lemma_sections_lines(ss, n - 1);
    }
}

// ---------------------------------------------------------------------------
// What a card shows
// ---------------------------------------------------------------------------

/// The state a card shows: the section's own, complete when it has none.
pub open spec fn card_state(m: Msg) -> SectionState {
    match m.state {
        Some(s) => s,
        None => SectionState::Complete,
    }
}

/// What activating the header of a reasoning or command section does:
/// fold or unfold it.
pub open spec fn header_action(m: Msg) -> Option<LineAction> {
    match m.id {
        Some(id) => if m.kind == MsgKind::Thinking {
            Some(LineAction::ToggleThinkingSection(id@))
        } else if m.kind == MsgKind::Command {
            Some(LineAction::ToggleCommandSection(id@))
        } else {
            None
        },
        None => None,
    }
}

/// The mark before the first line of a user message or an error.
pub open spec fn badge_prefix(kind: MsgKind) -> Seq<char> {
    match kind {
        MsgKind::User => "\u{25b6} "@,
        MsgKind::Error => "\u{2717} "@,
        _ => Seq::empty(),
    }
}

/// Whether a message is shown line by line (user, agent, error and
/// separator messages) rather than as a section card.
pub open spec fn is_plain_kind(kind: MsgKind) -> bool {
    kind == MsgKind::User || kind == MsgKind::Agent || kind == MsgKind::Error || kind == MsgKind::Separator
}

/// The lines of a plain message, the first with its mark.
pub open spec fn plain_card_lines(m: Msg) -> Seq<DisplayLine> {
    let ls = spec_split_or_empty(m.text@);
    Seq::new(
        ls.len(),
        |i: int|
            plain_line(
                m.kind,
                if i == 0 {
                    badge_prefix(m.kind) + ls[i]
                } else {
                    ls[i]
                },
                opt_seq(m.id),
                None,
                false,
            ),
    )
}

/// The rule above a final answer: forty heavy dashes.
pub open spec fn final_rule() -> Seq<char> {
    Seq::new(40, |i: int| '\u{2501}')
}

/// The lines before the header of a section card.
pub open spec fn card_prelude(m: Msg) -> Seq<DisplayLine> {
    if m.kind == MsgKind::FinalAnswer {
        seq![plain_line(m.kind, final_rule(), opt_seq(m.id), None, false)]
    } else {
        Seq::empty()
    }
}

/// The header of a section card.
pub open spec fn card_header(m: Msg) -> DisplayLine {
    DisplayLine {
        kind: m.kind,
        text: spec_response_header(m),
        is_header: true,
        message_id: opt_seq(m.id),
        action: header_action(m),
        is_tool_line: false,
        tool_status: None,
        response_state: m.state,
        thinking_line_kind: None,
    }
}

/// The scene line of a card other than reasoning or a command.
pub open spec fn meta_sections(m: Msg) -> Seq<(ResponseCardSectionKind, Option<Seq<char>>, Seq<DisplayLine>)> {
    if m.kind != MsgKind::Thinking && m.kind != MsgKind::Command {
        match m.scene_id {
            Some(s) => seq![
                bare(
                    ResponseCardSectionKind::Meta,
                    seq![plain_line(m.kind, "  scene "@ + s@, opt_seq(m.id), None, false)],
                ),
            ],
            None => Seq::empty(),
        }
    } else {
        Seq::empty()
    }
}

/// How the body lines of a card are indented.
pub open spec fn body_indent(kind: MsgKind) -> Seq<char> {
    if kind == MsgKind::FinalAnswer {
        "  \u{2502} "@
    } else if kind == MsgKind::Command {
        "  \u{bb} "@
    } else {
        "  "@
    }
}

/// The skill load of a message's section, if it has one.
pub open spec fn msg_skill_load(app: App, m: Msg) -> Option<DeliverySkillLoad> {
    match m.id {
        Some(id) => {
            let k = load_position(app.skill_load_summaries@, id@);
            if k >= 0 {
                Some(app.skill_load_summaries@[k])
            } else {
                None
            }
        },
        None => None,
    }
}

/// The body of a step, final answer or command card: a folded command
/// shows its summary; an empty body with no tool calls and no knowledge
/// shows an ellipsis; any other body shows the report sections it was
/// rendered into (`report`).
pub open spec fn body_sections(
    app: App,
    m: Msg,
    report: Seq<(ResponseCardSectionKind, Option<Seq<char>>, Seq<DisplayLine>)>,
) -> Seq<(ResponseCardSectionKind, Option<Seq<char>>, Seq<DisplayLine>)> {
    let body = spec_split_or_empty(m.text@);
    let blank = body.len() == 1 && body[0].len() == 0;
    if m.kind == MsgKind::Command && m.collapsed {
        seq![
            bare(
                ResponseCardSectionKind::RawDetail,
                seq![
                    DisplayLine {
                        kind: m.kind,
                        text: body_indent(m.kind) + "\u{25b8} "@ + spec_command_summary(m.text@, card_state(m)),
                        is_header: false,
                        message_id: opt_seq(m.id),
                        action: header_action(m),
                        is_tool_line: false,
                        tool_status: None,
                        response_state: Some(card_state(m)),
                        thinking_line_kind: None,
                    },
                ],
            ),
        ]
    } else if blank && msg_runs(app, m).len() == 0 && msg_knowledge(app, m).is_none() {
        seq![
            bare(
                ResponseCardSectionKind::RawDetail,
                seq![plain_line(m.kind, body_indent(m.kind) + "\u{2026}"@, opt_seq(m.id), None, false)],
            ),
        ]
    } else if !blank {
        report
    } else {
        Seq::empty()
    }
}

/// The two delivery lines of summary `x` of turn `t`.
pub open spec fn delivery_lane(section_id: Seq<char>, x: DeliverySummary, t: u64, kind: MsgKind, indent: Seq<char>) -> Seq<
    DisplayLine,
> {
    let action = Some(LineAction::OpenDeliveryDetail(t));
    seq![
        plain_line(kind, indent + "delivery  "@ + x.spec_summary_line(), Some(section_id), action, true),
        plain_line(
            kind,
            indent + "  knowledge  doc="@ + dec(x.document_search_count as nat) + " \u{b7} mem="@ + dec(
                x.memory_search_count as nat,
            ) + " \u{b7} obs="@ + dec(x.observation_search_count as nat) + "  |  files "@ + dec(
                x.changed_files@.len(),
            ),
            Some(section_id),
            action,
            true,
        ),
    ]
}

/// Whether `lines` is the delivery lane of section `section_id`: the
/// delivery lines of the turn's summary when the section is that turn's
/// delivery section and the UI has its summary; none otherwise.
pub open spec fn is_delivery_lane(app: App, section_id: Seq<char>, kind: MsgKind, indent: Seq<char>, lines: Seq<DisplayLine>) -> bool {
    match spec_turn_id_of(section_id) {
        Some(t) => if section_id == spec_turn_prefix(t) + "delivery-summary"@ && app.has_summary_for(t) {
            exists|x: DeliverySummary| #[trigger] app.is_summary_for(x, t) && lines == delivery_lane(section_id, x, t, kind, indent)
        } else {
            lines.len() == 0
        },
        None => lines.len() == 0,
    }
}

/// The lanes of a step, final answer or command card: delivery (`dl`),
/// skills and knowledge, each where it has lines.
pub open spec fn lane_sections(app: App, m: Msg, dl: Seq<DisplayLine>) -> Seq<
    (ResponseCardSectionKind, Option<Seq<char>>, Seq<DisplayLine>),
> {
    match m.id {
        Some(id) => bare_if(ResponseCardSectionKind::Delivery, dl) + bare_if(
            ResponseCardSectionKind::SkillLoad,
            match msg_skill_load(app, m) {
                Some(s) => skill_lane(id@, s, m.kind, "  "@),
                None => Seq::empty(),
            },
        ) + bare_if(
            ResponseCardSectionKind::Knowledge,
            match msg_knowledge(app, m) {
                Some(k) => knowledge_lane(id@, k, m.kind, "  "@),
                None => Seq::empty(),
            },
        ),
        None => Seq::empty(),
    }
}

/// The line of one tool call in a card's tool lane.
pub open spec fn tool_row(m: Msg, r: ToolRun, width: nat) -> DisplayLine {
    DisplayLine {
        kind: m.kind,
        text: spec_tool_summary(r, width),
        is_header: false,
        message_id: opt_seq(m.id),
        action: Some(LineAction::OpenToolRunDetail(r.id@)),
        is_tool_line: true,
        tool_status: Some(r.status),
        response_state: None,
        thinking_line_kind: None,
    }
}

/// The tool lane of a card: a header, which folds the lane when it has
/// six calls or more, and a line per call unless folded.
pub open spec fn tool_lane_sections(app: App, m: Msg) -> Seq<(ResponseCardSectionKind, Option<Seq<char>>, Seq<DisplayLine>)> {
    let runs = msg_runs(app, m);
    if runs.len() == 0 {
        Seq::empty()
    } else {
        let can_toggle = runs.len() >= 6;
        let collapsed = can_toggle && m.tool_lane_collapsed;
        let head = plain_line(
            m.kind,
            spec_tool_lane_header(runs, can_toggle, collapsed),
            opt_seq(m.id),
            if can_toggle {
                Some(
                    LineAction::ToggleToolLane(
                        match m.id {
                            Some(x) => x@,
                            None => Seq::empty(),
                        },
                    ),
                )
            } else {
                None
            },
            true,
        );
        let rows = if collapsed {
            Seq::empty()
        } else {
            runs.map_values(|r: ToolRun| tool_row(m, r, name_width(runs)))
        };
        seq![bare(ResponseCardSectionKind::ToolRuns, seq![head] + rows)]
    }
}

/// A line of a reasoning card.
pub open spec fn reasoning_line(m: Msg, text: Seq<char>, k: ThinkingLineKind) -> DisplayLine {
    DisplayLine {
        kind: m.kind,
        text,
        is_header: false,
        message_id: opt_seq(m.id),
        action: header_action(m),
        is_tool_line: false,
        tool_status: None,
        response_state: Some(card_state(m)),
        thinking_line_kind: Some(k),
    }
}

/// The body of a reasoning card: its summary when folded, else its
/// visible lines after the spinner mark, or a placeholder when empty.
pub open spec fn thinking_sections(app: App, m: Msg) -> Seq<(ResponseCardSectionKind, Option<Seq<char>>, Seq<DisplayLine>)> {
    let st = card_state(m);
    let ls = if m.collapsed {
        seq![reasoning_line(m, "    \u{25b8} "@ + spec_thinking_summary(m.text@, st), ThinkingLineKind::Summary)]
    } else {
        let body = spec_visible_thinking(m.text@, st);
        let p = spec_thinking_body_prefix(st, app.spinner_tick);
        if body.len() == 1 && body[0].len() == 0 {
            seq![reasoning_line(m, "    "@ + p + " "@ + spec_thinking_placeholder(st), ThinkingLineKind::Placeholder)]
        } else {
            body.map_values(|l: Seq<char>| reasoning_line(m, "    "@ + p + " "@ + l, ThinkingLineKind::Body))
        }
    };
    seq![bare(ResponseCardSectionKind::Thinking, ls)]
}

/// The sections of a section card, given the report sections its body
/// was rendered into and its delivery lane.
pub open spec fn card_sections(
    app: App,
    m: Msg,
    report: Seq<(ResponseCardSectionKind, Option<Seq<char>>, Seq<DisplayLine>)>,
    dl: Seq<DisplayLine>,
) -> Seq<(ResponseCardSectionKind, Option<Seq<char>>, Seq<DisplayLine>)> {
    meta_sections(m) + match m.kind {
        MsgKind::Routing => match spec_first_non_empty(lines(m.text@)) {
            Some(p) => seq![
                bare(
                    ResponseCardSectionKind::ResultsSummary,
                    seq![plain_line(m.kind, "  result "@ + p, opt_seq(m.id), None, false)],
                ),
            ],
            None => Seq::empty(),
        },
        MsgKind::Step | MsgKind::FinalAnswer | MsgKind::Command => body_sections(app, m, report) + lane_sections(app, m, dl)
            + tool_lane_sections(app, m),
        MsgKind::Thinking => thinking_sections(app, m),
        _ => Seq::empty(),
    }
}

/// Whether `dl` is the delivery lane a card of `m` shows.
pub open spec fn card_delivery_lane(app: App, m: Msg, dl: Seq<DisplayLine>) -> bool {
    match m.id {
        Some(id) => if m.kind == MsgKind::Step || m.kind == MsgKind::FinalAnswer || m.kind == MsgKind::Command {
            is_delivery_lane(app, id@, m.kind, "  "@, dl)
        } else {
            dl.len() == 0
        },
        None => dl.len() == 0,
    }
}

/// Whether `r` is the card of plain message `m`: its lines, the first as
/// header and the rest as one raw section.
pub open spec fn is_plain_card(m: Msg, r: ResponseCard) -> bool {
    let ls = plain_card_lines(m);
    &&& r.kind == m.kind
    &&& opt_seq(r.id) == opt_seq(m.id)
    &&& line_views(r.prelude_lines@).len() == 0
    &&& r.header_line@ == if ls.len() > 0 {
        ls[0]
    } else {
        plain_line(m.kind, Seq::empty(), None, None, false)
    }
    &&& shapes(r.sections@) == if ls.len() > 1 {
        seq![bare(ResponseCardSectionKind::RawDetail, ls.skip(1))]
    } else {
        Seq::empty()
    }
}

/// Whether `r` is the card of message `m`: a plain message shows its
/// lines; any other shows its prelude, its header and its sections, with
/// the report sections `report` as the body and its delivery lane.
pub open spec fn is_message_card(
    app: App,
    m: Msg,
    report: Seq<(ResponseCardSectionKind, Option<Seq<char>>, Seq<DisplayLine>)>,
    r: ResponseCard,
) -> bool {
    if is_plain_kind(m.kind) {
        is_plain_card(m, r)
    } else {
        &&& r.kind == m.kind
        &&& opt_seq(r.id) == opt_seq(m.id)
        &&& line_views(r.prelude_lines@) == card_prelude(m)
        &&& r.header_line@ == card_header(m)
        &&& exists|dl: Seq<DisplayLine>|
            #[trigger] card_delivery_lane(app, m, dl) && shapes(r.sections@) == card_sections(app, m, report, dl)
    }
}

/// Whether `section_id` is the delivery section of its turn.
pub open spec fn is_delivery_section(section_id: Seq<char>) -> bool {
    match spec_turn_id_of(section_id) {
        Some(t) => section_id == spec_turn_prefix(t) + "delivery-summary"@,
        None => false,
    }
}

/// Whether a card of `m` shows a delivery lane, which needs the turn's
/// counters to fit a summary.
pub open spec fn card_reads_delivery(m: Msg) -> bool {
    &&& (m.kind == MsgKind::Step || m.kind == MsgKind::FinalAnswer || m.kind == MsgKind::Command)
    &&& m.id matches Some(id) && is_delivery_section(id@)
}

// ---------------------------------------------------------------------------
// Building cards
// ---------------------------------------------------------------------------

fn push_section(v: &mut Vec<ResponseCardSection>, kind: ResponseCardSectionKind, lines: Vec<ResponseDisplayLine>)
    ensures
        shapes(final(v)@) == shapes(old(v)@).push(bare(kind, line_views(lines@))),
{
    let ghost lv = line_views(lines@);
    let s = ResponseCardSection { kind, title: None, header_line: None, lines };
    proof {
        assert(section_lines(s) =~= lv);
    }
    v.push(s);
    proof {
        assert(shapes(v@) =~= shapes(old(v)@).push(bare(kind, lv)));
    }
}

fn push_section_if(v: &mut Vec<ResponseCardSection>, kind: ResponseCardSectionKind, lines: Vec<ResponseDisplayLine>)
    ensures
        shapes(final(v)@) == shapes(old(v)@) + bare_if(kind, line_views(lines@)),
{
    if lines.len() > 0 {
        let ghost lv = line_views(lines@);
        push_section(v, kind, lines);
        proof {
            assert(shapes(old(v)@).push(bare(kind, lv)) =~= shapes(old(v)@) + bare_if(kind, lv));
        }
    } else {
        proof {
            assert(shapes(v@) =~= shapes(old(v)@) + bare_if(kind, line_views(lines@)));
        }
    }
}

fn append_sections(v: &mut Vec<ResponseCardSection>, more: Vec<ResponseCardSection>)
    ensures
        shapes(final(v)@) == shapes(old(v)@) + shapes(more@),
{
    let mut more = more;
    let ghost m = more@;
    v.append(&mut more);
    proof {
        assert(shapes(v@) =~= shapes(old(v)@) + shapes(m));
    }
}

fn line_of(m: &Msg, text: String, action: Option<ResponseLineAction>) -> (r: ResponseDisplayLine)
    ensures
        r@ == plain_line(
            m.kind,
            text@,
            opt_seq(m.id),
            match action {
                Some(a) => Some(crate::lanes::action_view(a)),
                None => None,
            },
            false,
        ),
{
    lane_line(m.kind, text, opt_text(&m.id), action, false)
}

fn header_action_of(m: &Msg) -> (r: Option<ResponseLineAction>)
    ensures
        match r {
            Some(a) => header_action(*m) == Some(crate::lanes::action_view(a)),
            None => header_action(*m).is_none(),
        },
{
    match &m.id {
        Some(id) => match m.kind {
            MsgKind::Thinking => Some(ResponseLineAction::ToggleThinkingSection(id.clone())),
            MsgKind::Command => Some(ResponseLineAction::ToggleCommandSection(id.clone())),
            _ => None,
        },
        None => None,
    }
}

fn body_indent_of(kind: MsgKind) -> (r: &'static str)
    ensures
        r@ == body_indent(kind),
{
    match kind {
        MsgKind::FinalAnswer => "  \u{2502} ",
        MsgKind::Command => "  \u{bb} ",
        _ => "  ",
    }
}

fn plain_card(m: &Msg) -> (r: ResponseCard)
    requires
        is_plain_kind(m.kind),
    ensures
        is_plain_card(*m, r),
{
    let ls = split_or_empty(m.text.as_str());
    let ghost want = plain_card_lines(*m);
    let mut out: Vec<ResponseDisplayLine> = Vec::new();
    let mut i: usize = 0;
    while i < ls.len()
        invariant
            i <= ls@.len(),
            views(ls@) == spec_split_or_empty(m.text@),
            want == plain_card_lines(*m),
            line_views(out@) == want.take(i as int),
        decreases ls.len() - i,
    {
        let text = if i == 0 {
            let mut t = match m.kind {
                MsgKind::User => "\u{25b6} ".to_owned(),
                MsgKind::Error => "\u{2717} ".to_owned(),
                _ => String::new(),
            };
            push_str(&mut t, ls[i].as_str());
            t
        } else {
            ls[i].clone()
        };
        push_line(&mut out, line_of(m, text, None));
        proof {
            assert(want.take(i + 1) =~= want.take(i as int).push(want[i as int]));
        }
        i = i + 1;
    }
    proof {
        assert(want.take(ls@.len() as int) =~= want);
    }
    let id = opt_text(&m.id);
    if out.len() == 0 {
        return ResponseCard {
            id,
            kind: m.kind,
            prelude_lines: Vec::new(),
            header_line: ResponseDisplayLine::plain(m.kind, String::new()),
            sections: Vec::new(),
        };
    }
    let ghost all = line_views(out@);
    let header = out.remove(0);
    proof {
        assert(line_views(out@) =~= all.skip(1));
    }
    let mut sections: Vec<ResponseCardSection> = Vec::new();
    if out.len() > 0 {
        push_section(&mut sections, ResponseCardSectionKind::RawDetail, out);
    } else {
        proof {
            assert(shapes(sections@) =~= Seq::empty());
        }
    }
    ResponseCard { id, kind: m.kind, prelude_lines: Vec::new(), header_line: header, sections }
}

impl App {
    /// The delivery lane of a section: the summary line and the knowledge
    /// and file counts of its turn, when the section is the turn's delivery
    /// section and the UI has the turn's summary.
    pub fn render_delivery_lane(&self, section_id: &str, kind: MsgKind, indent: &str) -> (r: Vec<ResponseDisplayLine>)
        requires
            is_delivery_section(section_id@) ==> self.delivery_fits(),
        ensures
            is_delivery_lane(*self, section_id@, kind, indent@, line_views(r@)),
    {
        let mut out: Vec<ResponseDisplayLine> = Vec::new();
        proof {
            assert(line_views(out@) =~= Seq::<DisplayLine>::empty());
        }
        let t = match extract_turn_id_from_section_id(section_id) {
            Some(t) => t,
            None => return out,
        };
        let expect = delivery_section_id(t);
        if !str_eq(section_id, expect.as_str()) {
            return out;
        }
        let x = match self.delivery_summary_for_turn(t) {
            Some(x) => x,
            None => return out,
        };
        let mut first = indent.to_owned();
        push_str(&mut first, "delivery  ");
        push_str(&mut first, x.summary_line().as_str());
        push_line(
            &mut out,
            lane_line(kind, first, Some(section_id.to_owned()), Some(ResponseLineAction::OpenDeliveryDetail(t)), true),
        );
        let mut second = indent.to_owned();
        push_str(&mut second, "  knowledge  doc=");
        push_str(&mut second, dec_usize(x.document_search_count).as_str());
        push_str(&mut second, " \u{b7} mem=");
        push_str(&mut second, dec_usize(x.memory_search_count).as_str());
        push_str(&mut second, " \u{b7} obs=");
        push_str(&mut second, dec_usize(x.observation_search_count).as_str());
        push_str(&mut second, "  |  files ");
        push_str(&mut second, dec_usize(x.changed_files.len()).as_str());
        push_line(
            &mut out,
            lane_line(kind, second, Some(section_id.to_owned()), Some(ResponseLineAction::OpenDeliveryDetail(t)), true),
        );
        proof {
            assert(line_views(out@) =~= delivery_lane(section_id@, x, t, kind, indent@));
            assert(self.is_summary_for(x, t));
        }
        out
    }

    fn skill_load_of(&self, m: &Msg) -> (r: Option<&DeliverySkillLoad>)
        ensures
            match r {
                Some(s) => msg_skill_load(*self, *m) == Some(*s),
                None => msg_skill_load(*self, *m).is_none(),
            },
    {
        match &m.id {
            Some(id) => match self.find_skill_load(id.as_str()) {
                Some(k) => Some(&self.skill_load_summaries[k]),
                None => None,
            },
            None => None,
        }
    }

    fn runs_of(&self, m: &Msg) -> (r: Vec<&ToolRun>)
        ensures
            derefs(r@) == msg_runs(*self, *m),
    {
        match &m.id {
            Some(id) => self.tool_runs_for_section(id.as_str()),
            None => {
                let v: Vec<&ToolRun> = Vec::new();
                proof {
                    assert(derefs(v@) =~= Seq::<ToolRun>::empty());
                }
                v
            },
        }
    }

    fn body_sections_of(&self, m: &Msg, report: Vec<ResponseCardSection>) -> (r: Vec<ResponseCardSection>)
        ensures
            shapes(r@) == body_sections(*self, *m, shapes(report@)),
    {
        let mut out: Vec<ResponseCardSection> = Vec::new();
        let state = match m.state {
            Some(s) => s,
            None => SectionState::Complete,
        };
        let body = split_or_empty(m.text.as_str());
        let blank = body.len() == 1 && is_empty_str(body[0].as_str());
        let is_command = m.kind == MsgKind::Command;
        if is_command && m.collapsed {
            let mut text = body_indent_of(m.kind).to_owned();
            push_str(&mut text, "\u{25b8} ");
            push_str(&mut text, summarize_command_text(m.text.as_str(), state).as_str());
            let mut ls: Vec<ResponseDisplayLine> = Vec::new();
            push_line(
                &mut ls,
                ResponseDisplayLine {
                    kind: m.kind,
                    text,
                    is_header: false,
                    message_id: opt_text(&m.id),
                    action: header_action_of(m),
                    is_tool_line: false,
                    tool_status: None,
                    response_state: Some(state),
                    thinking_line_kind: None,
                },
            );
            push_section(&mut out, ResponseCardSectionKind::RawDetail, ls);
            proof {
                assert(shapes(out@) =~~= body_sections(*self, *m, shapes(report@)));
            }
            return out;
        }
        let runs = self.runs_of(m);
        let knowledge = self.msg_knowledge_of(m);
        if blank && runs.len() == 0 && knowledge.is_none() {
            let mut text = body_indent_of(m.kind).to_owned();
            push_str(&mut text, "\u{2026}");
            let mut ls: Vec<ResponseDisplayLine> = Vec::new();
            push_line(&mut ls, line_of(m, text, None));
            push_section(&mut out, ResponseCardSectionKind::RawDetail, ls);
            proof {
                assert(shapes(out@) =~~= body_sections(*self, *m, shapes(report@)));
            }
            return out;
        }
        if !blank {
            return report;
        }
        proof {
            assert(shapes(out@) =~~= body_sections(*self, *m, shapes(report@)));
        }
        out
    }

    fn tool_lane_of(&self, m: &Msg) -> (r: Vec<ResponseCardSection>)
        ensures
            shapes(r@) == tool_lane_sections(*self, *m),
    {
        let mut out: Vec<ResponseCardSection> = Vec::new();
        let runs = self.runs_of(m);
        let ghost rs = msg_runs(*self, *m);
        if runs.len() == 0 {
            proof {
                assert(shapes(out@) =~~= tool_lane_sections(*self, *m));
            }
            return out;
        }
        let can_toggle = runs.len() >= 6;
        let collapsed = can_toggle && m.tool_lane_collapsed;
        let head = format_tool_lane_header(runs.as_slice(), can_toggle, collapsed);
        let action = if can_toggle {
            Some(
                ResponseLineAction::ToggleToolLane(
                    match &m.id {
                        Some(x) => x.clone(),
                        None => String::new(),
                    },
                ),
            )
        } else {
            None
        };
        let mut ls: Vec<ResponseDisplayLine> = Vec::new();
        push_line(&mut ls, lane_line(m.kind, head, opt_text(&m.id), action, true));
        let ghost first = line_views(ls@);
        if !collapsed {
            let width = tool_name_width(runs.as_slice());
            let mut i: usize = 0;
            while i < runs.len()
                invariant
                    rs == derefs(runs@),
                    i <= rs.len(),
                    width == name_width(rs),
                    line_views(ls@) == first + rs.take(i as int).map_values(|r: ToolRun| tool_row(*m, r, name_width(rs))),
                decreases runs.len() - i,
            {
                let r = runs[i];
                push_line(
                    &mut ls,
                    ResponseDisplayLine {
                        kind: m.kind,
                        text: format_tool_summary(r, width),
                        is_header: false,
                        message_id: opt_text(&m.id),
                        action: Some(ResponseLineAction::OpenToolRunDetail(r.id.clone())),
                        is_tool_line: true,
                        tool_status: Some(r.status),
                        response_state: None,
                        thinking_line_kind: None,
                    },
                );
                proof {
                    let f = |r: ToolRun| tool_row(*m, r, name_width(rs));
                    assert(rs.take(i + 1).map_values(f) =~= rs.take(i as int).map_values(f).push(f(rs[i as int])));
                }
                i = i + 1;
            }
            proof {
                assert(rs.take(rs.len() as int) =~= rs);
            }
        }
        push_section(&mut out, ResponseCardSectionKind::ToolRuns, ls);
        proof {
            assert(shapes(out@) =~~= tool_lane_sections(*self, *m));
        }
        out
    }

    fn thinking_of(&self, m: &Msg) -> (r: Vec<ResponseCardSection>)
        ensures
            shapes(r@) == thinking_sections(*self, *m),
    {
        let state = match m.state {
            Some(s) => s,
            None => SectionState::Complete,
        };
        let mut ls: Vec<ResponseDisplayLine> = Vec::new();
        if m.collapsed {
            let mut text = "    \u{25b8} ".to_owned();
            push_str(&mut text, summarize_thinking_text(m.text.as_str(), state).as_str());
            push_line(&mut ls, self.reasoning_line_of(m, text, state, ThinkingLineKind::Summary));
        } else {
            let body = visible_thinking_body_lines(m.text.as_str(), state);
            let prefix = thinking_body_prefix(state, self.spinner_tick);
            if body.len() == 1 && is_empty_str(body[0].as_str()) {
                let mut text = "    ".to_owned();
                push_str(&mut text, prefix.as_str());
                push_str(&mut text, " ");
                push_str(&mut text, thinking_placeholder_text(state));
                push_line(&mut ls, self.reasoning_line_of(m, text, state, ThinkingLineKind::Placeholder));
            } else {
                let ghost bv = views(body@);
                let ghost p = prefix@;
                let mut i: usize = 0;
                while i < body.len()
                    invariant
                        i <= body@.len(),
                        bv == views(body@),
                        p == prefix@,
                        line_views(ls@) == bv.take(i as int).map_values(
                            |l: Seq<char>| reasoning_line(*m, "    "@ + p + " "@ + l, ThinkingLineKind::Body),
                        ),
                        state == card_state(*m),
                    decreases body.len() - i,
                {
                    let mut text = "    ".to_owned();
                    push_str(&mut text, prefix.as_str());
                    push_str(&mut text, " ");
                    push_str(&mut text, body[i].as_str());
                    push_line(&mut ls, self.reasoning_line_of(m, text, state, ThinkingLineKind::Body));
                    proof {
                        let f = |l: Seq<char>| reasoning_line(*m, "    "@ + p + " "@ + l, ThinkingLineKind::Body);
                        assert(bv.take(i + 1).map_values(f) =~= bv.take(i as int).map_values(f).push(f(bv[i as int])));
                    }
                    i = i + 1;
                }
                proof {
                    assert(bv.take(bv.len() as int) =~= bv);
                }
            }
        }
        let mut out: Vec<ResponseCardSection> = Vec::new();
        push_section(&mut out, ResponseCardSectionKind::Thinking, ls);
        proof {
            assert(shapes(out@) =~~= thinking_sections(*self, *m));
        }
        out
    }

    fn reasoning_line_of(&self, m: &Msg, text: String, state: SectionState, k: ThinkingLineKind) -> (r: ResponseDisplayLine)
        requires
            state == card_state(*m),
        ensures
            r@ == reasoning_line(*m, text@, k),
    {
        ResponseDisplayLine {
            kind: m.kind,
            text,
            is_header: false,
            message_id: opt_text(&m.id),
            action: header_action_of(m),
            is_tool_line: false,
            tool_status: None,
            response_state: Some(state),
            thinking_line_kind: Some(k),
        }
    }

    fn meta_of(&self, m: &Msg) -> (r: Vec<ResponseCardSection>)
        ensures
            shapes(r@) == meta_sections(*m),
    {
        let mut out: Vec<ResponseCardSection> = Vec::new();
        if m.kind != MsgKind::Thinking && m.kind != MsgKind::Command {
            match &m.scene_id {
                Some(scene) => {
                    let mut text = "  scene ".to_owned();
                    push_str(&mut text, scene.as_str());
                    let mut ls: Vec<ResponseDisplayLine> = Vec::new();
                    push_line(&mut ls, line_of(m, text, None));
                    push_section(&mut out, ResponseCardSectionKind::Meta, ls);
                },
                None => {},
            }
        }
        proof {
            assert(shapes(out@) =~~= meta_sections(*m));
        }
        out
    }

    fn lanes_of(&self, m: &Msg) -> (r: (Vec<ResponseCardSection>, Ghost<Seq<DisplayLine>>))
        requires
            card_reads_delivery(*m) ==> self.delivery_fits(),
            m.kind == MsgKind::Step || m.kind == MsgKind::FinalAnswer || m.kind == MsgKind::Command,
        ensures
            card_delivery_lane(*self, *m, r.1@),
            shapes(r.0@) == lane_sections(*self, *m, r.1@),
    {
        let mut out: Vec<ResponseCardSection> = Vec::new();
        match &m.id {
            Some(id) => {
                let dl = self.render_delivery_lane(id.as_str(), m.kind, "  ");
                let ghost dv = line_views(dl@);
                push_section_if(&mut out, ResponseCardSectionKind::Delivery, dl);
                let skill = self.render_skill_load_lane(id.as_str(), self.skill_load_of(m), m.kind, "  ");
                push_section_if(&mut out, ResponseCardSectionKind::SkillLoad, skill);
                let knowledge = self.render_knowledge_lane(id.as_str(), self.msg_knowledge_of(m), m.kind, "  ");
                push_section_if(&mut out, ResponseCardSectionKind::Knowledge, knowledge);
                proof {
                    assert(shapes(out@) =~~= lane_sections(*self, *m, dv));
                }
                (out, Ghost(dv))
            },
            None => {
                proof {
                    assert(shapes(out@) =~~= lane_sections(*self, *m, Seq::empty()));
                }
                (out, Ghost(Seq::empty()))
            },
        }
    }

    fn routing_of(&self, m: &Msg) -> (r: Vec<ResponseCardSection>)
        ensures
            shapes(r@) == match spec_first_non_empty(lines(m.text@)) {
                Some(p) => seq![
                    bare(
                        ResponseCardSectionKind::ResultsSummary,
                        seq![plain_line(m.kind, "  result "@ + p, opt_seq(m.id), None, false)],
                    ),
                ],
                None => Seq::empty(),
            },
    {
        let mut out: Vec<ResponseCardSection> = Vec::new();
        match first_non_empty_line(m.text.as_str()) {
            Some(p) => {
                let mut text = "  result ".to_owned();
                push_str(&mut text, p.as_str());
                let mut ls: Vec<ResponseDisplayLine> = Vec::new();
                push_line(&mut ls, line_of(m, text, None));
                push_section(&mut out, ResponseCardSectionKind::ResultsSummary, ls);
            },
            None => {},
        }
        proof {
            assert(shapes(out@) =~~= match spec_first_non_empty(lines(m.text@)) {
                Some(p) => seq![
                    bare(
                        ResponseCardSectionKind::ResultsSummary,
                        seq![plain_line(m.kind, "  result "@ + p, opt_seq(m.id), None, false)],
                    ),
                ],
                None => Seq::<(ResponseCardSectionKind, Option<Seq<char>>, Seq<DisplayLine>)>::empty(),
            });
        }
        out
    }

    /// The card of a transcript message. A user, agent, error or separator
    /// message shows its lines (a user message marked `▶`, an error `✗`).
    /// A section shows a rule first when it is a final answer, its header,
    /// its scene, and then: a routing section its first line as result; a
    /// step, final answer or command its body (a folded command its
    /// summary, an empty body an ellipsis, any other the sections `report`
    /// that its text was rendered into), its delivery, skills and knowledge
    /// lanes, and its tool lane, folded at six calls or more; reasoning its
    /// summary when folded, else its visible lines or a placeholder.
    pub fn build_message_card(&self, message: &Msg, report: Vec<ResponseCardSection>) -> (r: ResponseCard)
        requires
            card_reads_delivery(*message) ==> self.delivery_fits(),
        ensures
            is_message_card(*self, *message, shapes(report@), r),
            card_lines(r) == line_views(r.prelude_lines@) + seq![r.header_line@] + shape_lines(
                shapes(r.sections@),
                r.sections@.len() as int,
            ),
    {
        let m = message;
        let ghost rep = shapes(report@);
        let r = if m.kind == MsgKind::User || m.kind == MsgKind::Agent || m.kind == MsgKind::Error || m.kind
            == MsgKind::Separator {
            plain_card(m)
        } else {
            let mut prelude: Vec<ResponseDisplayLine> = Vec::new();
            if m.kind == MsgKind::FinalAnswer {
                let mut rule = String::new();
                let mut k: usize = 0;
                while k < 40
                    invariant
                        k <= 40,
                        rule@ == Seq::new(k as nat, |i: int| '\u{2501}'),
                    decreases 40 - k,
                {
                    push_char(&mut rule, '\u{2501}');
                    k = k + 1;
                    proof {
                        assert(rule@ =~= Seq::new(k as nat, |i: int| '\u{2501}'));
                    }
                }
                push_line(&mut prelude, line_of(m, rule, None));
            }
            proof {
                assert(line_views(prelude@) =~= card_prelude(*m));
            }
            let header = ResponseDisplayLine {
                kind: m.kind,
                text: format_response_header(m),
                is_header: true,
                message_id: opt_text(&m.id),
                action: header_action_of(m),
                is_tool_line: false,
                tool_status: None,
                response_state: m.state,
                thinking_line_kind: None,
            };
            let mut sections = self.meta_of(m);
            let ghost meta = shapes(sections@);
            let ghost mut dl: Seq<DisplayLine> = Seq::empty();
            if m.kind == MsgKind::Routing {
                append_sections(&mut sections, self.routing_of(m));
            } else if m.kind == MsgKind::Thinking {
                append_sections(&mut sections, self.thinking_of(m));
            } else {
                append_sections(&mut sections, self.body_sections_of(m, report));
                let (lanes, Ghost(d)) = self.lanes_of(m);
                proof {
                    dl = d;
                }
                append_sections(&mut sections, lanes);
                append_sections(&mut sections, self.tool_lane_of(m));
            }
            proof {
                assert(card_delivery_lane(*self, *m, dl));
                assert(shapes(sections@) =~~= card_sections(*self, *m, rep, dl));
            }
            ResponseCard { id: opt_text(&m.id), kind: m.kind, prelude_lines: prelude, header_line: header, sections }
        };
        proof {
            lemma_sections_lines(r.sections@, r.sections@.len() as int);
        }
        r
    }
}

} // verus!
