//! The terminal UI state: panels, focus, scrolling, overlays and notices.
use vstd::prelude::*;

use crate::chars::{push_char, push_str, views};
use crate::delivery::DeliverySummary;
use crate::overlay::OverlayState;
use crate::diagnostics::StepDiagnostics;
use crate::knowledge::StepKnowledgeSummary;
use crate::subflows::{StepSubflowRef, StepSubflowStatus};
use crate::turn_delivery::{DeliverySkillLoad, ToolRun};
use crate::text::{strip_ansi, without_escapes};

use crate::context_supervision::ContextSupervisionSnapshot;

use crate::clipboard::KeyInput;
verus! {

#[derive(Debug, Clone, Copy, PartialEq, Eq, Structural)]
pub enum Panel {
    Response,
    SidebarRail,
    Diagnostics,
    Delivery,
    Skills,
    Project,
    Document,
    Memory,
    Todo,
    Logs,
}

#[derive(Debug, Clone, Copy, PartialEq, Eq, Structural, PartialOrd, Ord)]
pub struct PanelTextPoint {
    pub line_index: usize,
    pub column: usize,
}

#[derive(Debug, Clone, Copy, PartialEq, Eq, Structural)]
pub struct PanelTextSelection {
    pub panel: Panel,
    pub anchor: PanelTextPoint,
    pub focus: PanelTextPoint,
}

#[derive(Debug, Clone, PartialEq, Eq)]
pub struct WrappedPanelLine {
    pub source_line_index: usize,
    pub source_column_start: usize,
    pub text: String,
}

#[derive(Debug, Clone, Copy, PartialEq, Eq, Structural)]
pub enum MsgKind {
    User,
    Agent,
    Error,
    Separator,
    Routing,
    Step,
    FinalAnswer,
    Thinking,
    Command,
}

/// How far a response section has come.
#[derive(Debug, Clone, Copy, PartialEq, Eq, Structural)]
pub enum SectionState {
    Streaming,
    Complete,
    Failed,
}

/// A transcript message of the response panel.
#[derive(Debug, Clone, PartialEq, Eq)]
pub struct Msg {
    pub kind: MsgKind,
    pub text: String,
    pub state: Option<SectionState>,
    pub id: Option<String>,
    pub parent_id: Option<String>,
    pub title: Option<String>,
    pub workflow_id: Option<String>,
    pub workflow_role: Option<WorkflowRunRole>,
    pub scene_id: Option<String>,
    pub subflow_ref: Option<StepSubflowRef>,
    pub collapsed: bool,
    pub tool_lane_collapsed: bool,
}

impl Msg {
    /// A plain message: kind and text only, tool lane collapsed.
    pub fn plain(kind: MsgKind, text: String) -> (r: Self)
        ensures
            r.kind == kind,
            r.text == text,
            r.state.is_none(),
            r.id.is_none(),
            r.parent_id.is_none(),
            r.title.is_none(),
            r.workflow_id.is_none(),
            r.workflow_role.is_none(),
            r.scene_id.is_none(),
            r.subflow_ref.is_none(),
            !r.collapsed,
            r.tool_lane_collapsed,
    {
        Msg {
            kind,
            text,
            state: None,
            id: None,
            parent_id: None,
            title: None,
            workflow_id: None,
            workflow_role: None,
            scene_id: None,
            subflow_ref: None,
            collapsed: false,
            tool_lane_collapsed: true,
        }
    }
}

#[derive(Debug, Clone, PartialEq, Eq)]
pub enum ResponseLineAction {
    ToggleThinkingSection(String),
    ToggleCommandSection(String),
    ToggleToolLane(String),
    OpenToolRunDetail(String),
    OpenStepSubflowDetail(String),
    OpenDeliveryDetail(u64),
    OpenSkillLoadDetail(String),
    OpenDocumentKnowledgeDetail(String),
    OpenMemoryKnowledgeDetail(String),
}

#[derive(Debug, Clone, PartialEq, Eq)]
pub enum ResponseActivation {
    ThinkingCollapsed,
    ThinkingExpanded,
    CommandCollapsed,
    CommandExpanded,
    ToolLaneCollapsed,
    ToolLaneExpanded,
    ToolDetailOpened(String),
    StepSubflowDetailOpened(String),
    DeliveryDetailOpened,
    SkillLoadDetailOpened,
    DocumentKnowledgeDetailOpened,
    MemoryKnowledgeDetailOpened,
}

/// The status-line notice that an activation of a response line produces.
pub fn response_activation_notice(activation: Option<ResponseActivation>) -> (r: Option<String>)
    ensures
        match activation {
            Some(ResponseActivation::ThinkingCollapsed) => r matches Some(s) && s@
                == "Thinking collapsed."@,
            Some(ResponseActivation::ThinkingExpanded) => r matches Some(s) && s@
                == "Thinking expanded."@,
            Some(ResponseActivation::ToolLaneCollapsed) => r matches Some(s) && s@
                == "Tool lane collapsed."@,
            Some(ResponseActivation::ToolLaneExpanded) => r matches Some(s) && s@
                == "Tool lane expanded."@,
            Some(ResponseActivation::ToolDetailOpened(name)) => r matches Some(s) && s@
                == "Opened "@ + name@ + " detail overlay."@,
            Some(ResponseActivation::StepSubflowDetailOpened(label)) => r matches Some(s) && s@
                == "Opened subflow detail overlay for "@ + label@ + "."@,
            _ => r.is_none(),
        },
{
    match activation {
        Some(ResponseActivation::ThinkingCollapsed) => Some("Thinking collapsed.".to_owned()),
        Some(ResponseActivation::ThinkingExpanded) => Some("Thinking expanded.".to_owned()),
        Some(ResponseActivation::ToolLaneCollapsed) => Some("Tool lane collapsed.".to_owned()),
        Some(ResponseActivation::ToolLaneExpanded) => Some("Tool lane expanded.".to_owned()),
        Some(ResponseActivation::ToolDetailOpened(name)) => {
            let mut s = "Opened ".to_owned();
            push_str(&mut s, name.as_str());
            push_str(&mut s, " detail overlay.");
            Some(s)
        },
        Some(ResponseActivation::StepSubflowDetailOpened(label)) => {
            let mut s = "Opened subflow detail overlay for ".to_owned();
            push_str(&mut s, label.as_str());
            push_str(&mut s, ".");
            Some(s)
        },
        _ => None,
    }
}

#[derive(Debug, Clone, Copy, PartialEq, Eq, Structural)]
pub enum ThinkingLineKind {
    Summary,
    Body,
    Placeholder,
}

#[derive(Debug, Clone, Copy, PartialEq, Eq, Structural)]
pub enum TodoPanelStatus {
    NeverSynced,
    Empty,
    Ready,
}

/// The plan counts of the project status snapshot.
#[derive(Debug, Clone, Copy, PartialEq, Eq, Structural)]
pub struct ProjectStatusCounts {
    pub current_task_count: u64,
    pub history_task_count: u64,
}

#[derive(Debug, Clone, Copy, PartialEq, Eq, Structural)]
pub struct TodoSummary {
    pub completed: usize,
    pub total: usize,
}

/// Whether keys edit the input or drive navigation.
#[derive(Debug, Clone, Copy, PartialEq, Eq, Structural)]
pub enum InteractionMode {
    Normal,
    Insert,
}

/// The area of the screen that key bindings are resolved for.
#[derive(Debug, Clone, Copy, PartialEq, Eq, Structural)]
pub enum KeyFocus {
    Response,
    SidebarRail,
    Activity,
    Todo,
}

/// A screen rectangle in terminal cells.
#[derive(Debug, Clone, Copy, PartialEq, Eq, Structural)]
pub struct Rect {
    pub x: u16,
    pub y: u16,
    pub width: u16,
    pub height: u16,
}

/// `a + b`, saturated at the largest `u16`.
pub open spec fn sat_add16(a: u16, b: u16) -> int {
    if a + b > 65535 {
        65535
    } else {
        a + b
    }
}

/// `a - b`, saturated at zero.
pub open spec fn sat_sub(a: int, b: int) -> int {
    if a > b {
        a - b
    } else {
        0
    }
}

impl Rect {
    pub fn new(x: u16, y: u16, width: u16, height: u16) -> (r: Self)
        ensures
            r == (Rect { x, y, width, height }),
    {
        Rect { x, y, width, height }
    }

    /// The empty rectangle at the origin.
    pub fn zero() -> (r: Self)
        ensures
            r == (Rect { x: 0, y: 0, width: 0, height: 0 }),
    {
        Rect { x: 0, y: 0, width: 0, height: 0 }
    }

    /// Whether the cell `(col, row)` lies in a rectangle of nonzero width.
    pub open spec fn spec_hit(self, col: u16, row: u16) -> bool {
        &&& self.width > 0
        &&& col >= self.x
        &&& col < sat_add16(self.x, self.width)
        &&& row >= self.y
        &&& row < sat_add16(self.y, self.height)
    }

    pub fn hit(&self, col: u16, row: u16) -> (r: bool)
        ensures
            r == self.spec_hit(col, row),
    {
        self.width > 0 && col >= self.x && col < self.x.saturating_add(self.width) && row
            >= self.y && row < self.y.saturating_add(self.height)
    }

    /// Whether the rectangle covers any cell.
    pub open spec fn spec_visible(self) -> bool {
        self.width > 0 && self.height > 0
    }
}

impl Default for Rect {
    fn default() -> (r: Self)
        ensures
            r == (Rect { x: 0, y: 0, width: 0, height: 0 }),
    {
        Rect::zero()
    }
}

/// Scroll position and selection of a list panel.
#[derive(Debug, Clone, Copy, PartialEq, Eq, Structural)]
pub struct ListState {
    pub offset: usize,
    pub selected: Option<usize>,
}

impl ListState {
    pub fn new() -> (r: Self)
        ensures
            r == (ListState { offset: 0, selected: None }),
    {
        ListState { offset: 0, selected: None }
    }

    /// Selects an item; clearing the selection also resets the offset.
    pub fn select(&mut self, index: Option<usize>)
        ensures
            final(self).selected == index,
            final(self).offset == if index.is_none() {
                0
            } else {
                old(self).offset
            },
    {
        self.selected = index;
        if index.is_none() {
            self.offset = 0;
        }
    }

    pub fn selected(&self) -> (r: Option<usize>)
        ensures
            r == self.selected,
    {
        self.selected
    }

    pub fn offset(&self) -> (r: usize)
        ensures
            r == self.offset,
    {
        self.offset
    }
}

/// How a list panel is scrolled: its list state, whether it is pinned
/// (stays put as lines arrive) and how many lines it last displayed.
#[derive(Debug, Clone, Copy, PartialEq, Eq, Structural)]
pub struct PanelScroll {
    pub list: ListState,
    pub pinned: bool,
    pub displayed: usize,
}

impl PanelScroll {
    /// A panel scrolled to the top, with nothing selected or displayed.
    pub open spec fn spec_new() -> PanelScroll {
        PanelScroll { list: ListState { offset: 0, selected: None }, pinned: false, displayed: 0 }
    }

    pub fn new() -> (r: Self)
        ensures
            r == Self::spec_new(),
    {
        PanelScroll { list: ListState::new(), pinned: false, displayed: 0 }
    }
}

/// A key sequence in progress (a leader key, or keys that may still become
/// a binding). Times are in milliseconds of a clock that the caller reads.
#[derive(Debug, Clone, PartialEq, Eq)]
pub struct PendingKeySequenceState {
    pub started_at_ms: u64,
    pub timeout_ms: u64,
    pub key_events: Vec<KeyInput>,
    pub replay_text: Option<String>,
}

pub const INPUT_VIEWPORT_PREFIX_WIDTH: usize = 3;

/// A line of the diagnostics panel, and the step diagnostics it belongs to.
#[derive(Debug, Clone, PartialEq, Eq)]
pub struct DiagnosticsLine {
    pub text: String,
    pub diagnostic_id: Option<String>,
}

/// Whether a workflow run is the session's root run or a run it started.
#[derive(Debug, Clone, Copy, PartialEq, Eq, Structural)]
pub enum WorkflowRunRole {
    Root,
    Child,
}

impl WorkflowRunRole {
    pub open spec fn spec_name(self) -> Seq<char> {
        match self {
            WorkflowRunRole::Root => "root"@,
            WorkflowRunRole::Child => "child"@,
        }
    }

    pub fn as_str(self) -> (r: &'static str)
        ensures
            r@ == self.spec_name(),
    {
        match self {
            WorkflowRunRole::Root => "root",
            WorkflowRunRole::Child => "child",
        }
    }
}

/// The workflow step the status bar shows.
#[derive(Debug, Clone, PartialEq, Eq)]
pub struct WorkflowSummary {
    pub workflow_id: String,
    pub workflow_role: WorkflowRunRole,
    pub id: String,
    pub label: String,
    pub index: usize,
    pub total: usize,
}

/// Which workflows the session routed to.
#[derive(Debug, Clone, PartialEq, Eq)]
pub struct SessionRoutingSummary {
    pub root_workflow_id: String,
    pub active_workflow_id: String,
    pub active_workflow_role: WorkflowRunRole,
    pub recognized_scene_id: Option<String>,
    pub selected_workflow_id: Option<String>,
}

/// The session status the status bar shows.
#[derive(Debug, Clone, PartialEq, Eq)]
pub enum SessionStatusSummary {
    Label(String),
    Routing(SessionRoutingSummary),
}

/// The terminal UI state.
pub struct App {
    pub output_msgs: Vec<Msg>,
    pub response_lines: Vec<String>,
    pub diagnostics_lines: Vec<DiagnosticsLine>,
    pub delivery_lines: Vec<String>,
    pub skill_lines: Vec<String>,
    pub project_lines: Vec<String>,
    pub document_lines: Vec<String>,
    pub memory_lines: Vec<String>,
    pub todo_lines: Vec<String>,
    pub todo_status: TodoPanelStatus,
    pub todo_summary: Option<TodoSummary>,
    pub project_status: Option<ProjectStatusCounts>,
    pub log_lines: Vec<String>,
    pub response_scroll: PanelScroll,
    pub diagnostics_scroll: PanelScroll,
    pub delivery_scroll: PanelScroll,
    pub skills_scroll: PanelScroll,
    pub project_scroll: PanelScroll,
    pub document_scroll: PanelScroll,
    pub memory_scroll: PanelScroll,
    pub todo_scroll: PanelScroll,
    pub logs_scroll: PanelScroll,
    pub focused_panel: Panel,
    pub interaction_mode: InteractionMode,
    pub response_rect: Rect,
    pub input_rect: Rect,
    pub sidebar_rect: Rect,
    pub sidebar_rail_rect: Rect,
    pub diagnostics_rect: Rect,
    pub delivery_rect: Rect,
    pub skills_rect: Rect,
    pub project_rect: Rect,
    pub document_rect: Rect,
    pub memory_rect: Rect,
    pub todo_rect: Rect,
    pub logs_rect: Rect,
    pub input_buffer: String,
    pub cursor_pos: usize,
    pub input_scroll_top: usize,
    pub input_enabled: bool,
    pub show_thinking: bool,
    pub spinner_tick: u8,
    pub is_running: bool,
    pub active_turn_id: u64,
    pub agent_status_label: Option<String>,
    pub last_todo_turn_id: Option<u64>,
    pub pending_key_sequence: Option<PendingKeySequenceState>,
    pub keymap_source: String,
    pub command_hint: Option<String>,
    pub status_notice: Option<String>,
    pub text_selection: Option<PanelTextSelection>,
    pub mouse_selection_active: bool,
    pub input_cursor_column_goal: Option<usize>,
    pub overlay: Option<OverlayState>,
    pub overlay_rect: Rect,
    pub delivery_model_name: Option<String>,
    pub tool_runs: Vec<ToolRun>,
    pub skill_load_summaries: Vec<DeliverySkillLoad>,
    pub step_knowledge_summaries: Vec<StepKnowledgeSummary>,
    pub step_subflows: Vec<StepSubflowStatus>,
    pub step_diagnostics: Vec<StepDiagnostics>,
    pub delivery_summaries: Vec<DeliverySummary>,
    pub latest_delivery_turn_id: Option<u64>,
    pub latest_skill_load_section_id: Option<String>,
    pub workflow_summary: Option<WorkflowSummary>,
    pub session_status: Option<SessionStatusSummary>,
    pub context_supervision: Option<ContextSupervisionSnapshot>,
}

pub fn one_line(s: &str) -> (r: Vec<String>)
    ensures
        views(r@) == seq![s@],
{
    let mut r: Vec<String> = Vec::new();
    r.push(s.to_owned());
    proof {
        assert(views(r@) =~= seq![s@]);
    }
    r
}

pub fn two_lines(a: &str, b: &str) -> (r: Vec<String>)
    ensures
        views(r@) == seq![a@, b@],
{
    let mut r: Vec<String> = Vec::new();
    r.push(a.to_owned());
    r.push(b.to_owned());
    proof {
        assert(views(r@) =~= seq![a@, b@]);
    }
    r
}

pub open spec fn delivery_placeholder() -> Seq<Seq<char>> {
    seq!["Tracking current turn delivery. No delivery signals yet."@]
}

pub open spec fn skill_placeholder() -> Seq<Seq<char>> {
    seq!["No routed skills loaded yet."@]
}

pub open spec fn project_placeholder() -> Seq<Seq<char>> {
    seq!["No project status snapshot yet."@]
}

pub open spec fn knowledge_placeholder() -> Seq<Seq<char>> {
    seq!["No knowledge supervision snapshot yet."@]
}

pub open spec fn memory_placeholder() -> Seq<Seq<char>> {
    seq!["No memory supervision snapshot yet."@]
}

pub open spec fn todo_unsynced() -> Seq<Seq<char>> {
    seq!["No todo snapshot yet."@, "Call the todo tool to track the current task."@]
}

pub open spec fn todo_empty() -> Seq<Seq<char>> {
    seq!["Todo list is empty."@, "Call the todo tool when the task splits into steps."@]
}

pub fn delivery_placeholder_lines() -> (r: Vec<String>)
    ensures
        views(r@) == delivery_placeholder(),
{
    one_line("Tracking current turn delivery. No delivery signals yet.")
}

pub fn skill_placeholder_lines() -> (r: Vec<String>)
    ensures
        views(r@) == skill_placeholder(),
{
    one_line("No routed skills loaded yet.")
}

pub fn project_placeholder_lines() -> (r: Vec<String>)
    ensures
        views(r@) == project_placeholder(),
{
    one_line("No project status snapshot yet.")
}

pub fn knowledge_placeholder_lines() -> (r: Vec<String>)
    ensures
        views(r@) == knowledge_placeholder(),
{
    one_line("No knowledge supervision snapshot yet.")
}

pub fn memory_placeholder_lines() -> (r: Vec<String>)
    ensures
        views(r@) == memory_placeholder(),
{
    one_line("No memory supervision snapshot yet.")
}

pub fn todo_unsynced_lines() -> (r: Vec<String>)
    ensures
        views(r@) == todo_unsynced(),
{
    two_lines("No todo snapshot yet.", "Call the todo tool to track the current task.")
}

pub fn todo_empty_lines() -> (r: Vec<String>)
    ensures
        views(r@) == todo_empty(),
{
    two_lines("Todo list is empty.", "Call the todo tool when the task splits into steps.")
}

/// The title of a sidebar panel: its name, with a focus marker when focused.
pub open spec fn titled(name: Seq<char>, focused: bool) -> Seq<char> {
    if focused {
        name + "◆ "@
    } else {
        name
    }
}

pub(crate) fn title_with_focus(name: &str, focused: bool) -> (r: String)
    ensures
        r@ == titled(name@, focused),
{
    let mut title = name.to_owned();
    if focused {
        push_char(&mut title, '◆');
        push_char(&mut title, ' ');
        proof {
            reveal_strlit("◆ ");
            assert(title@ =~= name@ + "◆ "@);
        }
    }
    title
}

/// The list position one scroll step up (or several) from the current
/// selection; without a selection, from the last displayed line.
pub open spec fn scrolled_up(selected: Option<usize>, displayed: usize, len: int, amount: usize) -> int {
    let last = sat_sub(if displayed >= len { displayed as int } else { len }, 1);
    let current = match selected {
        Some(s) => s as int,
        None => last,
    };
    sat_sub(current, amount as int)
}

/// The last line a panel can select.
pub open spec fn last_line(displayed: usize, len: int) -> int {
    sat_sub(if displayed >= len { displayed as int } else { len }, 1)
}

/// The list position after scrolling down, bounded by the last line.
pub open spec fn scrolled_down(selected: Option<usize>, displayed: usize, len: int, amount: usize) -> int {
    let last = last_line(displayed, len);
    let current = match selected {
        Some(s) => s as int,
        None => last,
    };
    if current + amount < last {
        current + amount
    } else {
        last
    }
}

fn scroll_up_list(state: &mut ListState, pinned: &mut bool, displayed: usize, len: usize, amount: usize)
    ensures
        final(state).selected == Some(scrolled_up(old(state).selected, displayed, len as int, amount) as usize),
        final(state).offset == old(state).offset,
        *final(pinned),
{
    *pinned = true;
    let current = match state.selected() {
        Some(s) => s,
        None => (if displayed >= len { displayed } else { len }).saturating_sub(1),
    };
    state.select(Some(current.saturating_sub(amount)));
}

/// The list state of a panel after scrolling down by `amount`.
pub open spec fn scrolled_down_list(st: ListState, displayed: usize, len: int, amount: usize) -> ListState {
    ListState { offset: st.offset, selected: Some(scrolled_down(st.selected, displayed, len, amount) as usize) }
}

/// Whether a panel stays pinned after scrolling down: reaching the last
/// line unpins it.
pub open spec fn pinned_after_down(st: ListState, pinned: bool, displayed: usize, len: int, amount: usize) -> bool {
    if scrolled_down(st.selected, displayed, len, amount) >= last_line(displayed, len) {
        false
    } else {
        pinned
    }
}

fn scroll_down_list(state: &mut ListState, pinned: &mut bool, displayed: usize, len: usize, amount: usize)
    ensures
        *final(state) == scrolled_down_list(*old(state), displayed, len as int, amount),
        *final(pinned) == pinned_after_down(*old(state), *old(pinned), displayed, len as int, amount),
{
    let last = (if displayed >= len { displayed } else { len }).saturating_sub(1);
    let current = match state.selected() {
        Some(s) => s,
        None => last,
    };
    let new_idx = if current < last && amount < last - current {
        current + amount
    } else {
        last
    };
    state.select(Some(new_idx));
    if new_idx >= last {
        *pinned = false;
    }
}

/// `s` with `p` appended when `b` holds.
#[verifier::opaque]
pub open spec fn push_if(s: Seq<Panel>, b: bool, p: Panel) -> Seq<Panel> {
    if b {
        s.push(p)
    } else {
        s
    }
}

pub(crate) fn push_panel_if(v: &mut Vec<Panel>, b: bool, p: Panel)
    ensures
        final(v)@ == push_if(old(v)@, b, p),
        old(v)@.len() <= final(v)@.len() <= old(v)@.len() + 1,
{
    reveal(push_if);
    if b {
        v.push(p);
    }
}

impl App {
    /// The scroll state of a panel (the rail has none of its own and reports
    /// the response panel's).
    pub open spec fn scroll_of(self, p: Panel) -> PanelScroll {
        match p {
            Panel::Diagnostics => self.diagnostics_scroll,
            Panel::Delivery => self.delivery_scroll,
            Panel::Skills => self.skills_scroll,
            Panel::Project => self.project_scroll,
            Panel::Document => self.document_scroll,
            Panel::Memory => self.memory_scroll,
            Panel::Todo => self.todo_scroll,
            Panel::Logs => self.logs_scroll,
            _ => self.response_scroll,
        }
    }

    pub open spec fn list_of(self, p: Panel) -> ListState {
        self.scroll_of(p).list
    }

    pub open spec fn pinned_of(self, p: Panel) -> bool {
        self.scroll_of(p).pinned
    }

    pub open spec fn displayed_of(self, p: Panel) -> usize {
        self.scroll_of(p).displayed
    }

    /// The number of scrollable entries of a panel: transcript messages for
    /// the response panel, lines for the others.
    pub open spec fn entries_of(self, p: Panel) -> int {
        match p {
            Panel::Diagnostics => self.diagnostics_lines@.len() as int,
            Panel::Delivery => self.delivery_lines@.len() as int,
            Panel::Skills => self.skill_lines@.len() as int,
            Panel::Project => self.project_lines@.len() as int,
            Panel::Document => self.document_lines@.len() as int,
            Panel::Memory => self.memory_lines@.len() as int,
            Panel::Todo => self.todo_lines@.len() as int,
            Panel::Logs => self.log_lines@.len() as int,
            _ => self.output_msgs@.len() as int,
        }
    }

    pub open spec fn rect_of(self, p: Panel) -> Rect {
        match p {
            Panel::Response => self.response_rect,
            Panel::SidebarRail => self.sidebar_rail_rect,
            Panel::Diagnostics => self.diagnostics_rect,
            Panel::Delivery => self.delivery_rect,
            Panel::Skills => self.skills_rect,
            Panel::Project => self.project_rect,
            Panel::Document => self.document_rect,
            Panel::Memory => self.memory_rect,
            Panel::Todo => self.todo_rect,
            Panel::Logs => self.logs_rect,
        }
    }

    /// The state with a panel's scroll state replaced.
    pub open spec fn with_scroll(self, p: Panel, sc: PanelScroll) -> App {
        match p {
            Panel::Diagnostics => App { diagnostics_scroll: sc, ..self },
            Panel::Delivery => App { delivery_scroll: sc, ..self },
            Panel::Skills => App { skills_scroll: sc, ..self },
            Panel::Project => App { project_scroll: sc, ..self },
            Panel::Document => App { document_scroll: sc, ..self },
            Panel::Memory => App { memory_scroll: sc, ..self },
            Panel::Todo => App { todo_scroll: sc, ..self },
            Panel::Logs => App { logs_scroll: sc, ..self },
            _ => App { response_scroll: sc, ..self },
        }
    }

    /// The state with a panel's list state and pin replaced.
    pub open spec fn with_list(self, p: Panel, st: ListState, pinned: bool) -> App {
        self.with_scroll(p, PanelScroll { list: st, pinned, displayed: self.displayed_of(p) })
    }

    /// A fresh UI: placeholders in every sidebar panel, focus on the
    /// response panel, normal mode, input enabled, thinking shown.
    pub fn new() -> (r: Self)
        ensures
            r.output_msgs@.len() == 0,
            r.response_lines@.len() == 0,
            r.diagnostics_lines@.len() == 0,
            views(r.delivery_lines@) == delivery_placeholder(),
            views(r.skill_lines@) == skill_placeholder(),
            views(r.project_lines@) == project_placeholder(),
            views(r.document_lines@) == knowledge_placeholder(),
            views(r.memory_lines@) == memory_placeholder(),
            views(r.todo_lines@) == todo_unsynced(),
            r.todo_status == TodoPanelStatus::NeverSynced,
            r.todo_summary.is_none(),
            r.project_status.is_none(),
            r.log_lines@.len() == 0,
            r.focused_panel == Panel::Response,
            r.interaction_mode == InteractionMode::Normal,
            r.input_buffer@.len() == 0,
            r.cursor_pos == 0,
            r.input_scroll_top == 0,
            r.input_enabled,
            r.show_thinking,
            r.spinner_tick == 0,
            !r.is_running,
            r.active_turn_id == 0,
            r.keymap_source@ == "builtin"@,
            r.overlay.is_none(),
            r.text_selection.is_none(),
            !r.mouse_selection_active,
            r.pending_key_sequence.is_none(),
            r.status_notice.is_none(),
            r.command_hint.is_none(),
            forall|p: Panel|
                #![trigger r.list_of(p)]
                r.list_of(p) == (ListState { offset: 0, selected: None }) && !r.pinned_of(p)
                    && r.displayed_of(p) == 0 && r.rect_of(p) == (Rect {
                    x: 0,
                    y: 0,
                    width: 0,
                    height: 0,
                }),
            r.sidebar_rect == (Rect { x: 0, y: 0, width: 0, height: 0 }),
            r.tool_runs@.len() == 0,
            r.skill_load_summaries@.len() == 0,
            r.step_knowledge_summaries@.len() == 0,
            r.step_subflows@.len() == 0,
            r.step_diagnostics@.len() == 0,
            r.delivery_summaries@.len() == 0,
            r.latest_delivery_turn_id.is_none(),
            r.latest_skill_load_section_id.is_none(),
            r.workflow_summary.is_none(),
            r.session_status.is_none(),
            r.context_supervision.is_none(),
            r.input_rect == (Rect { x: 0, y: 0, width: 0, height: 0 }),
    {
        App {
            output_msgs: Vec::new(),
            response_lines: Vec::new(),
            diagnostics_lines: Vec::new(),
            delivery_lines: delivery_placeholder_lines(),
            skill_lines: skill_placeholder_lines(),
            project_lines: project_placeholder_lines(),
            document_lines: knowledge_placeholder_lines(),
            memory_lines: memory_placeholder_lines(),
            todo_lines: todo_unsynced_lines(),
            todo_status: TodoPanelStatus::NeverSynced,
            todo_summary: None,
            project_status: None,
            log_lines: Vec::new(),
            response_scroll: PanelScroll::new(),
            diagnostics_scroll: PanelScroll::new(),
            delivery_scroll: PanelScroll::new(),
            skills_scroll: PanelScroll::new(),
            project_scroll: PanelScroll::new(),
            document_scroll: PanelScroll::new(),
            memory_scroll: PanelScroll::new(),
            todo_scroll: PanelScroll::new(),
            logs_scroll: PanelScroll::new(),
            focused_panel: Panel::Response,
            interaction_mode: InteractionMode::Normal,
            response_rect: Rect::zero(),
            input_rect: Rect::zero(),
            sidebar_rect: Rect::zero(),
            sidebar_rail_rect: Rect::zero(),
            diagnostics_rect: Rect::zero(),
            delivery_rect: Rect::zero(),
            skills_rect: Rect::zero(),
            project_rect: Rect::zero(),
            document_rect: Rect::zero(),
            memory_rect: Rect::zero(),
            todo_rect: Rect::zero(),
            logs_rect: Rect::zero(),
            input_buffer: String::new(),
            cursor_pos: 0,
            input_scroll_top: 0,
            input_enabled: true,
            show_thinking: true,
            spinner_tick: 0,
            is_running: false,
            active_turn_id: 0,
            agent_status_label: None,
            last_todo_turn_id: None,
            pending_key_sequence: None,
            keymap_source: "builtin".to_owned(),
            command_hint: None,
            status_notice: None,
            text_selection: None,
            mouse_selection_active: false,
            input_cursor_column_goal: None,
            overlay: None,
            overlay_rect: Rect::zero(),
            delivery_model_name: None,
            tool_runs: Vec::new(),
            skill_load_summaries: Vec::new(),
            step_knowledge_summaries: Vec::new(),
            step_subflows: Vec::new(),
            step_diagnostics: Vec::new(),
            delivery_summaries: Vec::new(),
            latest_delivery_turn_id: None,
            latest_skill_load_section_id: None,
            workflow_summary: None,
            session_status: None,
            context_supervision: None,
        }
    }

    pub fn is_current_turn(&self, turn_id: u64) -> (r: bool)
        ensures
            r == (self.active_turn_id == turn_id),
    {
        self.active_turn_id == turn_id
    }

    /// `after` is `before` with the log line `line` added, without escapes.
    pub open spec fn log_added(before: App, after: App, line: Seq<char>) -> bool {
        &&& after.log_lines@.len() == before.log_lines@.len() + 1
        &&& after.log_lines@.drop_last() == before.log_lines@
        &&& after.log_lines@.last()@ == without_escapes(line)
        &&& after == (App { log_lines: after.log_lines, ..before })
    }

    /// `after` is `before` with a plain `kind` message of `text`, without
    /// escapes, added to the transcript.
    pub open spec fn msg_pushed(before: App, after: App, kind: MsgKind, text: Seq<char>) -> bool {
        &&& after.output_msgs@.len() == before.output_msgs@.len() + 1
        &&& after.output_msgs@.drop_last() == before.output_msgs@
        &&& after.output_msgs@.last().kind == kind
        &&& after.output_msgs@.last().text@ == without_escapes(text)
        &&& after.output_msgs@.last().id.is_none()
        &&& after.output_msgs@.last().state.is_none()
        &&& after.output_msgs@.last().parent_id.is_none()
        &&& after.output_msgs@.last().title.is_none()
        &&& after.output_msgs@.last().workflow_id.is_none()
        &&& after.output_msgs@.last().workflow_role.is_none()
        &&& after.output_msgs@.last().scene_id.is_none()
        &&& !after.output_msgs@.last().collapsed
        &&& after.output_msgs@.last().tool_lane_collapsed
        &&& after == (App { output_msgs: after.output_msgs, ..before })
    }

    /// Appends a log line, without its terminal escape sequences.
    pub fn add_log(&mut self, line: String)
        ensures
            App::log_added(*old(self), *final(self), line@),
    {
        let clean = strip_ansi(line.as_str());
        self.log_lines.push(clean);
        proof {
            assert(self.log_lines@.drop_last() =~= old(self).log_lines@);
        }
    }

    /// Appends a transcript message, without terminal escape sequences.
    pub fn push_msg(&mut self, kind: MsgKind, text: &str)
        ensures
            App::msg_pushed(*old(self), *final(self), kind, text@),
    {
        let clean = strip_ansi(text);
        self.output_msgs.push(Msg::plain(kind, clean));
        proof {
            assert(self.output_msgs@.drop_last() =~= old(self).output_msgs@);
        }
    }

    /// A panel's scroll state and number of entries.
    pub(crate) fn scroll_parts(&self, panel: Panel) -> (r: (PanelScroll, usize))
        ensures
            r.0 == self.scroll_of(panel),
            r.1 == self.entries_of(panel),
    {
        match panel {
            Panel::Diagnostics => (self.diagnostics_scroll, self.diagnostics_lines.len()),
            Panel::Delivery => (self.delivery_scroll, self.delivery_lines.len()),
            Panel::Skills => (self.skills_scroll, self.skill_lines.len()),
            Panel::Project => (self.project_scroll, self.project_lines.len()),
            Panel::Document => (self.document_scroll, self.document_lines.len()),
            Panel::Memory => (self.memory_scroll, self.memory_lines.len()),
            Panel::Todo => (self.todo_scroll, self.todo_lines.len()),
            Panel::Logs => (self.logs_scroll, self.log_lines.len()),
            _ => (self.response_scroll, self.output_msgs.len()),
        }
    }

    /// Replaces a panel's scroll state.
    pub(crate) fn set_scroll(&mut self, panel: Panel, sc: PanelScroll)
        ensures
            *final(self) == old(self).with_scroll(panel, sc),
    {
        match panel {
            Panel::Diagnostics => self.diagnostics_scroll = sc,
            Panel::Delivery => self.delivery_scroll = sc,
            Panel::Skills => self.skills_scroll = sc,
            Panel::Project => self.project_scroll = sc,
            Panel::Document => self.document_scroll = sc,
            Panel::Memory => self.memory_scroll = sc,
            Panel::Todo => self.todo_scroll = sc,
            Panel::Logs => self.logs_scroll = sc,
            _ => self.response_scroll = sc,
        }
    }

    /// Scrolls a panel's selection up by `amount`, pinning the panel.
    pub fn scroll_panel_up(&mut self, panel: Panel, amount: usize)
        ensures
            panel == Panel::SidebarRail ==> *final(self) == *old(self),
            panel != Panel::SidebarRail ==> *final(self) == old(self).with_list(
                panel,
                ListState {
                    offset: old(self).list_of(panel).offset,
                    selected: Some(
                        scrolled_up(
                            old(self).list_of(panel).selected,
                            old(self).displayed_of(panel),
                            old(self).entries_of(panel),
                            amount,
                        ) as usize,
                    ),
                },
                true,
            ),
    {
        if panel == Panel::SidebarRail {
            return;
        }
        let (mut sc, len) = self.scroll_parts(panel);
        scroll_up_list(&mut sc.list, &mut sc.pinned, sc.displayed, len, amount);
        self.set_scroll(panel, sc);
    }

    /// Scrolls a panel's selection down by `amount`, bounded by its last
    /// line; reaching the last line unpins the panel.
    pub fn scroll_panel_down(&mut self, panel: Panel, amount: usize)
        ensures
            panel == Panel::SidebarRail ==> *final(self) == *old(self),
            panel != Panel::SidebarRail ==> {
                let st = old(self).list_of(panel);
                let shown = old(self).displayed_of(panel);
                let len = old(self).entries_of(panel);
                *final(self) == old(self).with_list(
                    panel,
                    scrolled_down_list(st, shown, len, amount),
                    pinned_after_down(st, old(self).pinned_of(panel), shown, len, amount),
                )
            },
    {
        if panel == Panel::SidebarRail {
            return;
        }
        let (mut sc, len) = self.scroll_parts(panel);
        let shown = sc.displayed;
        scroll_down_list(&mut sc.list, &mut sc.pinned, shown, len, amount);
        self.set_scroll(panel, sc);
    }

    /// The panel under a screen cell: the first of rail, diagnostics,
    /// delivery, skills, project, document, memory, logs and todo whose area
    /// contains it; the response panel otherwise.
    pub open spec fn spec_panel_at(self, col: u16, row: u16) -> Panel {
        if self.sidebar_rail_rect.spec_hit(col, row) {
            Panel::SidebarRail
        } else if self.diagnostics_rect.spec_hit(col, row) {
            Panel::Diagnostics
        } else if self.delivery_rect.spec_hit(col, row) {
            Panel::Delivery
        } else if self.skills_rect.spec_hit(col, row) {
            Panel::Skills
        } else if self.project_rect.spec_hit(col, row) {
            Panel::Project
        } else if self.document_rect.spec_hit(col, row) {
            Panel::Document
        } else if self.memory_rect.spec_hit(col, row) {
            Panel::Memory
        } else if self.logs_rect.spec_hit(col, row) {
            Panel::Logs
        } else if self.todo_rect.spec_hit(col, row) {
            Panel::Todo
        } else {
            Panel::Response
        }
    }

    pub fn panel_at(&self, col: u16, row: u16) -> (r: Panel)
        ensures
            r == self.spec_panel_at(col, row),
    {
        if self.sidebar_rail_rect.hit(col, row) {
            Panel::SidebarRail
        } else if self.diagnostics_rect.hit(col, row) {
            Panel::Diagnostics
        } else if self.delivery_rect.hit(col, row) {
            Panel::Delivery
        } else if self.skills_rect.hit(col, row) {
            Panel::Skills
        } else if self.project_rect.hit(col, row) {
            Panel::Project
        } else if self.document_rect.hit(col, row) {
            Panel::Document
        } else if self.memory_rect.hit(col, row) {
            Panel::Memory
        } else if self.logs_rect.hit(col, row) {
            Panel::Logs
        } else if self.todo_rect.hit(col, row) {
            Panel::Todo
        } else {
            Panel::Response
        }
    }

    /// Whether a panel is laid out with a nonzero area (the response panel
    /// always is).
    pub open spec fn spec_visible(self, p: Panel) -> bool {
        match p {
            Panel::Response => true,
            Panel::SidebarRail => self.sidebar_rect.spec_visible(),
            _ => self.rect_of(p).spec_visible(),
        }
    }

    pub fn todo_visible(&self) -> (r: bool)
        ensures
            r == self.spec_visible(Panel::Todo),
    {
        self.todo_rect.width > 0 && self.todo_rect.height > 0
    }

    pub fn diagnostics_visible(&self) -> (r: bool)
        ensures
            r == self.spec_visible(Panel::Diagnostics),
    {
        self.diagnostics_rect.width > 0 && self.diagnostics_rect.height > 0
    }

    pub fn delivery_visible(&self) -> (r: bool)
        ensures
            r == self.spec_visible(Panel::Delivery),
    {
        self.delivery_rect.width > 0 && self.delivery_rect.height > 0
    }

    pub fn skills_visible(&self) -> (r: bool)
        ensures
            r == self.spec_visible(Panel::Skills),
    {
        self.skills_rect.width > 0 && self.skills_rect.height > 0
    }

    pub fn project_visible(&self) -> (r: bool)
        ensures
            r == self.spec_visible(Panel::Project),
    {
        self.project_rect.width > 0 && self.project_rect.height > 0
    }

    pub fn document_visible(&self) -> (r: bool)
        ensures
            r == self.spec_visible(Panel::Document),
    {
        self.document_rect.width > 0 && self.document_rect.height > 0
    }

    pub fn memory_visible(&self) -> (r: bool)
        ensures
            r == self.spec_visible(Panel::Memory),
    {
        self.memory_rect.width > 0 && self.memory_rect.height > 0
    }

    pub fn logs_visible(&self) -> (r: bool)
        ensures
            r == self.spec_visible(Panel::Logs),
    {
        self.logs_rect.width > 0 && self.logs_rect.height > 0
    }

    pub fn sidebar_visible(&self) -> (r: bool)
        ensures
            r == self.spec_visible(Panel::SidebarRail),
    {
        self.sidebar_rect.width > 0 && self.sidebar_rect.height > 0
    }

    fn panel_visible(&self, p: Panel) -> (r: bool)
        ensures
            r == self.spec_visible(p),
    {
        match p {
            Panel::Response => true,
            Panel::SidebarRail => self.sidebar_visible(),
            Panel::Diagnostics => self.diagnostics_visible(),
            Panel::Delivery => self.delivery_visible(),
            Panel::Skills => self.skills_visible(),
            Panel::Project => self.project_visible(),
            Panel::Document => self.document_visible(),
            Panel::Memory => self.memory_visible(),
            Panel::Todo => self.todo_visible(),
            Panel::Logs => self.logs_visible(),
        }
    }

    /// Moves focus back to the response panel when the focused panel is not
    /// laid out.
    pub fn normalize_focus(&mut self)
        ensures
            *final(self) == (App {
                focused_panel: if old(self).spec_visible(old(self).focused_panel) {
                    old(self).focused_panel
                } else {
                    Panel::Response
                },
                ..*old(self)
            }),
    {
        if !self.panel_visible(self.focused_panel) {
            self.focused_panel = Panel::Response;
        }
    }

    pub fn input_capable(&self) -> (r: bool)
        ensures
            r == self.input_enabled,
    {
        self.input_enabled
    }

    /// Leaves insert mode, with a notice, when input is disabled.
    pub fn normalize_mode(&mut self)
        ensures
            old(self).interaction_mode == InteractionMode::Insert && !old(self).input_enabled ==> {
                &&& final(self).interaction_mode == InteractionMode::Normal
                &&& final(self).status_notice matches Some(n) && n@
                    == "Insert mode is unavailable in the current context."@
            },
            !(old(self).interaction_mode == InteractionMode::Insert && !old(self).input_enabled)
                ==> final(self).interaction_mode == old(self).interaction_mode
                && final(self).status_notice == old(self).status_notice,
    {
        if self.interaction_mode == InteractionMode::Insert && !self.input_capable() {
            self.interaction_mode = InteractionMode::Normal;
            self.status_notice = Some("Insert mode is unavailable in the current context.".to_owned());
        }
    }

    /// The panels that focus cycles through, in order: the response panel,
    /// then each laid-out panel of the rail and the sidebar.
    pub open spec fn focus_cycle(self) -> Seq<Panel> {
        let s1 = push_if(seq![Panel::Response], self.spec_visible(Panel::SidebarRail), Panel::SidebarRail);
        let s2 = push_if(s1, self.spec_visible(Panel::Diagnostics), Panel::Diagnostics);
        let s3 = push_if(s2, self.spec_visible(Panel::Delivery), Panel::Delivery);
        let s4 = push_if(s3, self.spec_visible(Panel::Skills), Panel::Skills);
        let s5 = push_if(s4, self.spec_visible(Panel::Project), Panel::Project);
        let s6 = push_if(s5, self.spec_visible(Panel::Document), Panel::Document);
        let s7 = push_if(s6, self.spec_visible(Panel::Memory), Panel::Memory);
        let s8 = push_if(s7, self.spec_visible(Panel::Todo), Panel::Todo);
        push_if(s8, self.spec_visible(Panel::Logs), Panel::Logs)
    }

    /// The first position at or after `i` where `p` occurs in `s`, or -1.
    pub open spec fn index_from(s: Seq<Panel>, p: Panel, i: int) -> int
        decreases s.len() - i,
    {
        if i < 0 || i >= s.len() {
            -1
        } else if s[i] == p {
            i
        } else {
            Self::index_from(s, p, i + 1)
        }
    }

    /// The position of the focused panel in the focus cycle (0 when it is
    /// not in it).
    pub open spec fn focus_position(self) -> int {
        let k = Self::index_from(self.focus_cycle(), self.focused_panel, 0);
        if k < 0 {
            0
        } else {
            k
        }
    }

    /// The panel after the focused one in the focus cycle (wrapping).
    pub fn next_focus_panel(&self) -> (r: Panel)
        ensures
            r == self.focus_cycle()[(self.focus_position() + 1) % (self.focus_cycle().len() as int)],
    {
        let mut panels: Vec<Panel> = Vec::new();
        panels.push(Panel::Response);
        proof {
            assert(panels@ =~= seq![Panel::Response]);
        }
        push_panel_if(&mut panels, self.sidebar_visible(), Panel::SidebarRail);
        push_panel_if(&mut panels, self.diagnostics_visible(), Panel::Diagnostics);
        push_panel_if(&mut panels, self.delivery_visible(), Panel::Delivery);
        push_panel_if(&mut panels, self.skills_visible(), Panel::Skills);
        push_panel_if(&mut panels, self.project_visible(), Panel::Project);
        push_panel_if(&mut panels, self.document_visible(), Panel::Document);
        push_panel_if(&mut panels, self.memory_visible(), Panel::Memory);
        push_panel_if(&mut panels, self.todo_visible(), Panel::Todo);
        push_panel_if(&mut panels, self.logs_visible(), Panel::Logs);
        let ghost cyc = panels@;
        let ghost p = self.focused_panel;
        let mut i: usize = 0;
        while i < panels.len() && panels[i] != self.focused_panel
            invariant
                i <= panels@.len(),
                panels@ == cyc,
                cyc.len() <= 10,
                p == self.focused_panel,
                Self::index_from(cyc, p, 0) == Self::index_from(cyc, p, i as int),
            decreases panels.len() - i,
        {
            i = i + 1;
        }
        let current_index = if i < panels.len() {
            i
        } else {
            0
        };
        panels[(current_index + 1) % panels.len()]
    }

    /// Whether the todo panel still shows a snapshot of an earlier turn
    /// while a turn runs.
    pub fn todo_refresh_pending(&self) -> (r: bool)
        ensures
            r == (self.is_running && self.last_todo_turn_id != Some(self.active_turn_id)),
    {
        self.is_running && match self.last_todo_turn_id {
            Some(t) => t != self.active_turn_id,
            None => true,
        }
    }

    pub open spec fn spec_key_focus(p: Panel) -> KeyFocus {
        match p {
            Panel::Response => KeyFocus::Response,
            Panel::SidebarRail => KeyFocus::SidebarRail,
            Panel::Todo => KeyFocus::Todo,
            _ => KeyFocus::Activity,
        }
    }

    /// The key-binding context of the focused panel.
    pub fn key_focus(&self) -> (r: KeyFocus)
        ensures
            r == Self::spec_key_focus(self.focused_panel),
    {
        match self.focused_panel {
            Panel::Response => KeyFocus::Response,
            Panel::SidebarRail => KeyFocus::SidebarRail,
            Panel::Todo => KeyFocus::Todo,
            _ => KeyFocus::Activity,
        }
    }

    pub fn is_leader_pending(&self) -> (r: bool)
        ensures
            r == self.pending_key_sequence.is_some(),
    {
        self.pending_key_sequence.is_some()
    }

    pub fn clear_leader_pending(&mut self)
        ensures
            *final(self) == (App { pending_key_sequence: None, ..*old(self) }),
    {
        self.pending_key_sequence = None;
    }

    pub fn enter_normal_mode(&mut self)
        ensures
            *final(self) == (App {
                interaction_mode: InteractionMode::Normal,
                pending_key_sequence: None,
                ..*old(self)
            }),
    {
        self.interaction_mode = InteractionMode::Normal;
        self.clear_leader_pending();
    }

    /// Enters insert mode when input is enabled.
    pub fn enter_insert_mode(&mut self) -> (r: bool)
        ensures
            r == old(self).input_enabled,
            r ==> *final(self) == (App {
                interaction_mode: InteractionMode::Insert,
                pending_key_sequence: None,
                ..*old(self)
            }),
            !r ==> *final(self) == *old(self),
    {
        if !self.input_capable() {
            return false;
        }
        self.interaction_mode = InteractionMode::Insert;
        self.clear_leader_pending();
        true
    }

    pub fn set_status_notice(&mut self, notice: &str)
        ensures
            final(self).status_notice matches Some(n) && n@ == notice@,
            *final(self) == (App { status_notice: final(self).status_notice, ..*old(self) }),
    {
        self.status_notice = Some(notice.to_owned());
    }

    pub fn set_command_hint(&mut self, hint: &str)
        ensures
            final(self).command_hint matches Some(h) && h@ == hint@,
            *final(self) == (App { command_hint: final(self).command_hint, ..*old(self) }),
    {
        self.command_hint = Some(hint.to_owned());
    }

    pub fn clear_command_hint(&mut self)
        ensures
            *final(self) == (App { command_hint: None, ..*old(self) }),
    {
        self.command_hint = None;
    }

    pub fn clear_status_notice(&mut self)
        ensures
            *final(self) == (App { status_notice: None, ..*old(self) }),
    {
        self.status_notice = None;
    }

    pub fn set_keymap_source(&mut self, source: &str)
        ensures
            final(self).keymap_source@ == source@,
            *final(self) == (App { keymap_source: final(self).keymap_source, ..*old(self) }),
    {
        self.keymap_source = source.to_owned();
    }

    /// Focuses the sidebar rail when the sidebar is laid out.
    pub fn focus_sidebar_rail(&mut self)
        ensures
            *final(self) == (App {
                focused_panel: if old(self).spec_visible(Panel::SidebarRail) {
                    Panel::SidebarRail
                } else {
                    old(self).focused_panel
                },
                ..*old(self)
            }),
    {
        if self.sidebar_visible() {
            self.focused_panel = Panel::SidebarRail;
        }
    }

    pub fn delivery_panel_title(&self) -> (r: String)
        ensures
            r@ == titled("Delivery"@, self.focused_panel == Panel::Delivery),
    {
        title_with_focus("Delivery", self.focused_panel == Panel::Delivery)
    }

    pub fn skills_panel_title(&self) -> (r: String)
        ensures
            r@ == titled("Skills"@, self.focused_panel == Panel::Skills),
    {
        title_with_focus("Skills", self.focused_panel == Panel::Skills)
    }

    pub fn project_panel_title(&self) -> (r: String)
        ensures
            r@ == titled("Project"@, self.focused_panel == Panel::Project),
    {
        title_with_focus("Project", self.focused_panel == Panel::Project)
    }

    pub fn knowledge_panel_title(&self) -> (r: String)
        ensures
            r@ == titled("Knowledge"@, self.focused_panel == Panel::Document),
    {
        title_with_focus("Knowledge", self.focused_panel == Panel::Document)
    }

    pub fn memory_panel_title(&self) -> (r: String)
        ensures
            r@ == titled("Memory Supervision"@, self.focused_panel == Panel::Memory),
    {
        title_with_focus("Memory Supervision", self.focused_panel == Panel::Memory)
    }

    pub fn logs_panel_title(&self) -> (r: String)
        ensures
            r@ == titled(" Activity & Logs "@, self.focused_panel == Panel::Logs),
    {
        title_with_focus(" Activity & Logs ", self.focused_panel == Panel::Logs)
    }

    /// Remembers the model name shown in delivery summaries; blank names
    /// are ignored.
    pub fn remember_delivery_model_name(&mut self, model_name: &str)
        ensures
            crate::chars::trim(model_name@).len() == 0 ==> *final(self) == *old(self),
            crate::chars::trim(model_name@).len() != 0 ==> (final(self).delivery_model_name matches Some(
                m,
            ) && m@ == model_name@),
            *final(self) == (App { delivery_model_name: final(self).delivery_model_name, ..*old(self) }),
    {
        if crate::chars::is_blank(model_name) {
            return;
        }
        self.delivery_model_name = Some(model_name.to_owned());
    }

    pub fn overlay_active(&self) -> (r: bool)
        ensures
            r == self.overlay.is_some(),
    {
        self.overlay.is_some()
    }
}

} // verus!
