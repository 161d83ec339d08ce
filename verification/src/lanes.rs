//! Lines of the response panel, and the lanes that a step section shows
//! under its body: the skills it loaded and the knowledge it searched.
use vstd::prelude::*;

use crate::app::{App, MsgKind, ResponseLineAction, SectionState, ThinkingLineKind};
use crate::chars::{dec, push_num, push_str};
use crate::delivery::spec_join_or_none;
use crate::knowledge::{
    format_document_knowledge_summary, format_memory_knowledge_summary, spec_document_summary, spec_memory_summary,
    StepKnowledgeSummary,
};
use crate::report::summarize_skill_ids;
use crate::chars::views;
use crate::turn_delivery::{DeliverySkillLoad, ToolRunStatus};

verus! {

/// One line of the response panel: its text, the section it belongs to,
/// what activating it does, and how it is drawn.
#[derive(Debug, Clone, PartialEq, Eq)]
pub struct ResponseDisplayLine {
    pub kind: MsgKind,
    pub text: String,
    pub is_header: bool,
    pub message_id: Option<String>,
    pub action: Option<ResponseLineAction>,
    pub is_tool_line: bool,
    pub tool_status: Option<ToolRunStatus>,
    pub response_state: Option<SectionState>,
    pub thinking_line_kind: Option<ThinkingLineKind>,
}

/// What activating a line does, over the texts it names.
pub enum LineAction {
    ToggleThinkingSection(Seq<char>),
    ToggleCommandSection(Seq<char>),
    ToggleToolLane(Seq<char>),
    OpenToolRunDetail(Seq<char>),
    OpenStepSubflowDetail(Seq<char>),
    OpenDeliveryDetail(u64),
    OpenSkillLoadDetail(Seq<char>),
    OpenDocumentKnowledgeDetail(Seq<char>),
    OpenMemoryKnowledgeDetail(Seq<char>),
}

pub open spec fn action_view(a: ResponseLineAction) -> LineAction {
    match a {
        ResponseLineAction::ToggleThinkingSection(s) => LineAction::ToggleThinkingSection(s@),
        ResponseLineAction::ToggleCommandSection(s) => LineAction::ToggleCommandSection(s@),
        ResponseLineAction::ToggleToolLane(s) => LineAction::ToggleToolLane(s@),
        ResponseLineAction::OpenToolRunDetail(s) => LineAction::OpenToolRunDetail(s@),
        ResponseLineAction::OpenStepSubflowDetail(s) => LineAction::OpenStepSubflowDetail(s@),
        ResponseLineAction::OpenDeliveryDetail(t) => LineAction::OpenDeliveryDetail(t),
        ResponseLineAction::OpenSkillLoadDetail(s) => LineAction::OpenSkillLoadDetail(s@),
        ResponseLineAction::OpenDocumentKnowledgeDetail(s) => LineAction::OpenDocumentKnowledgeDetail(s@),
        ResponseLineAction::OpenMemoryKnowledgeDetail(s) => LineAction::OpenMemoryKnowledgeDetail(s@),
    }
}

/// A line as its texts.
pub struct DisplayLine {
    pub kind: MsgKind,
    pub text: Seq<char>,
    pub is_header: bool,
    pub message_id: Option<Seq<char>>,
    pub action: Option<LineAction>,
    pub is_tool_line: bool,
    pub tool_status: Option<ToolRunStatus>,
    pub response_state: Option<SectionState>,
    pub thinking_line_kind: Option<ThinkingLineKind>,
}

pub open spec fn opt_seq(o: Option<String>) -> Option<Seq<char>> {
    match o {
        Some(s) => Some(s@),
        None => None,
    }
}

impl View for ResponseDisplayLine {
    type V = DisplayLine;

    open spec fn view(&self) -> DisplayLine {
        DisplayLine {
            kind: self.kind,
            text: self.text@,
            is_header: self.is_header,
            message_id: opt_seq(self.message_id),
            action: match self.action {
                Some(a) => Some(action_view(a)),
                None => None,
            },
            is_tool_line: self.is_tool_line,
            tool_status: self.tool_status,
            response_state: self.response_state,
            thinking_line_kind: self.thinking_line_kind,
        }
    }
}

pub open spec fn line_views(v: Seq<ResponseDisplayLine>) -> Seq<DisplayLine> {
    v.map_values(|l: ResponseDisplayLine| l@)
}

/// A line that is no header and carries no tool status, section state or
/// reasoning mark.
pub open spec fn plain_line(
    kind: MsgKind,
    text: Seq<char>,
    message_id: Option<Seq<char>>,
    action: Option<LineAction>,
    is_tool_line: bool,
) -> DisplayLine {
    DisplayLine {
        kind,
        text,
        is_header: false,
        message_id,
        action,
        is_tool_line,
        tool_status: None,
        response_state: None,
        thinking_line_kind: None,
    }
}

pub fn lane_line(
    kind: MsgKind,
    text: String,
    message_id: Option<String>,
    action: Option<ResponseLineAction>,
    is_tool_line: bool,
) -> (r: ResponseDisplayLine)
    ensures
        r@ == plain_line(
            kind,
            text@,
            opt_seq(message_id),
            match action {
                Some(a) => Some(action_view(a)),
                None => None,
            },
            is_tool_line,
        ),
{
    ResponseDisplayLine {
        kind,
        text,
        is_header: false,
        message_id,
        action,
        is_tool_line,
        tool_status: None,
        response_state: None,
        thinking_line_kind: None,
    }
}

impl ResponseDisplayLine {
    /// A line of `kind` showing `text`, with nothing else.
    pub fn plain(kind: MsgKind, text: String) -> (r: Self)
        ensures
            r@ == plain_line(kind, text@, None, None, false),
    {
        lane_line(kind, text, None, None, false)
    }
}

pub fn push_line(v: &mut Vec<ResponseDisplayLine>, l: ResponseDisplayLine)
    ensures
        line_views(final(v)@) == line_views(old(v)@).push(l@),
{
    v.push(l);
    proof {
        assert(line_views(v@) =~= line_views(old(v)@).push(l@));
    }
}

fn owned_id(section_id: &str) -> (r: Option<String>)
    ensures
        opt_seq(r) == Some(section_id@),
{
    Some(section_id.to_owned())
}

// ---------------------------------------------------------------------------
// The skills lane
// ---------------------------------------------------------------------------

/// The two lines of a skills lane: the counts, then the loaded ids; both
/// open the skill load detail.
pub open spec fn skill_lane(section_id: Seq<char>, s: DeliverySkillLoad, kind: MsgKind, indent: Seq<char>) -> Seq<
    DisplayLine,
> {
    let action = Some(LineAction::OpenSkillLoadDetail(section_id));
    seq![
        plain_line(
            kind,
            indent + "skills  recognized="@ + dec(s.recognized_skill_ids@.len()) + " loaded="@ + dec(
                s.loaded_skill_ids@.len(),
            ) + " ignored="@ + dec(s.ignored_skill_ids@.len()),
            Some(section_id),
            action,
            true,
        ),
        plain_line(
            kind,
            indent + "  loaded ids: "@ + spec_join_or_none(views(s.loaded_skill_ids@)),
            Some(section_id),
            action,
            true,
        ),
    ]
}

// ---------------------------------------------------------------------------
// The knowledge lane
// ---------------------------------------------------------------------------

/// The lines of a knowledge lane: a heading, then one line for the
/// document search and one for the memory search, each opening its detail.
pub open spec fn knowledge_lane(section_id: Seq<char>, s: StepKnowledgeSummary, kind: MsgKind, indent: Seq<char>) -> Seq<
    DisplayLine,
> {
    seq![plain_line(kind, indent + "knowledge"@, Some(section_id), None, true)] + match s.document {
        Some(d) => seq![
            plain_line(
                kind,
                indent + "  "@ + spec_document_summary(d),
                Some(section_id),
                Some(LineAction::OpenDocumentKnowledgeDetail(section_id)),
                true,
            ),
        ],
        None => Seq::empty(),
    } + match s.memory {
        Some(m) => seq![
            plain_line(
                kind,
                indent + "  "@ + spec_memory_summary(m),
                Some(section_id),
                Some(LineAction::OpenMemoryKnowledgeDetail(section_id)),
                true,
            ),
        ],
        None => Seq::empty(),
    }
}

impl App {
    /// The skills lane of a section, none without a skill load.
    pub fn render_skill_load_lane(
        &self,
        section_id: &str,
        summary: Option<&DeliverySkillLoad>,
        kind: MsgKind,
        indent: &str,
    ) -> (r: Vec<ResponseDisplayLine>)
        ensures
            line_views(r@) == match summary {
                Some(s) => skill_lane(section_id@, *s, kind, indent@),
                None => Seq::empty(),
            },
    {
        let mut lines: Vec<ResponseDisplayLine> = Vec::new();
        let s = match summary {
            Some(s) => s,
            None => {
                proof {
                    assert(line_views(lines@) =~= Seq::<DisplayLine>::empty());
                }
                return lines;
            },
        };
        let mut counts = indent.to_owned();
        push_str(&mut counts, "skills  recognized=");
        push_num(&mut counts, s.recognized_skill_ids.len() as u64);
        push_str(&mut counts, " loaded=");
        push_num(&mut counts, s.loaded_skill_ids.len() as u64);
        push_str(&mut counts, " ignored=");
        push_num(&mut counts, s.ignored_skill_ids.len() as u64);
        push_line(
            &mut lines,
            lane_line(
                kind,
                counts,
                owned_id(section_id),
                Some(ResponseLineAction::OpenSkillLoadDetail(section_id.to_owned())),
                true,
            ),
        );
        let mut ids = indent.to_owned();
        push_str(&mut ids, "  loaded ids: ");
        push_str(&mut ids, summarize_skill_ids(&s.loaded_skill_ids).as_str());
        push_line(
            &mut lines,
            lane_line(
                kind,
                ids,
                owned_id(section_id),
                Some(ResponseLineAction::OpenSkillLoadDetail(section_id.to_owned())),
                true,
            ),
        );
        proof {
            assert(line_views(lines@) =~= skill_lane(section_id@, *s, kind, indent@));
        }
        lines
    }

    /// The knowledge lane of a section, none without a knowledge summary.
    pub fn render_knowledge_lane(
        &self,
        section_id: &str,
        summary: Option<&StepKnowledgeSummary>,
        kind: MsgKind,
        indent: &str,
    ) -> (r: Vec<ResponseDisplayLine>)
        ensures
            line_views(r@) == match summary {
                Some(s) => knowledge_lane(section_id@, *s, kind, indent@),
                None => Seq::empty(),
            },
    {
        let mut lines: Vec<ResponseDisplayLine> = Vec::new();
        let s = match summary {
            Some(s) => s,
            None => {
                proof {
                    assert(line_views(lines@) =~= Seq::<DisplayLine>::empty());
                }
                return lines;
            },
        };
        let mut heading = indent.to_owned();
        push_str(&mut heading, "knowledge");
        push_line(&mut lines, lane_line(kind, heading, owned_id(section_id), None, true));
        let ghost a = line_views(lines@);
        match &s.document {
            Some(d) => {
                let mut t = indent.to_owned();
                push_str(&mut t, "  ");
                push_str(&mut t, format_document_knowledge_summary(d).as_str());
                push_line(
                    &mut lines,
                    lane_line(
                        kind,
                        t,
                        owned_id(section_id),
                        Some(ResponseLineAction::OpenDocumentKnowledgeDetail(section_id.to_owned())),
                        true,
                    ),
                );
            },
            None => {},
        }
        let ghost b = line_views(lines@);
        match &s.memory {
            Some(m) => {
                let mut t = indent.to_owned();
                push_str(&mut t, "  ");
                push_str(&mut t, format_memory_knowledge_summary(m).as_str());
                push_line(
                    &mut lines,
                    lane_line(
                        kind,
                        t,
                        owned_id(section_id),
                        Some(ResponseLineAction::OpenMemoryKnowledgeDetail(section_id.to_owned())),
                        true,
                    ),
                );
            },
            None => {},
        }
        proof {
            assert(b =~= a + match s.document {
                Some(d) => seq![
                    plain_line(
                        kind,
                        indent@ + "  "@ + spec_document_summary(d),
                        Some(section_id@),
                        Some(LineAction::OpenDocumentKnowledgeDetail(section_id@)),
                        true,
                    ),
                ],
                None => Seq::<DisplayLine>::empty(),
            });
            assert(line_views(lines@) =~= knowledge_lane(section_id@, *s, kind, indent@));
        }
        lines
    }
}

} // verus!
