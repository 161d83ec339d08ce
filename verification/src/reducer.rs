//! What the runtime tells the UI, and how each message or effect changes
//! the UI state. Messages and effects of a turn other than the current one
//! are dropped.
use vstd::prelude::*;

use crate::diagnostics::{all_fit, tool_counts_fit, StepDiagnostics};
use crate::app::{
    App, Msg, MsgKind, Panel, SectionState, SessionRoutingSummary, SessionStatusSummary, WorkflowRunRole,
    WorkflowSummary,
};
use crate::chars::{dec, dec_usize, lines, push_str, split_lines, views};
use crate::overlay::OverlayState;
use crate::picker::OperatorPickerRequest;
use crate::subflows::{subflows_upserted, StepSubflowRef, StepSubflowStatus};
use crate::text::without_escapes;
use crate::transcript::opt_view;
use crate::turn_delivery::{ToolRun, ToolRunStatus};

verus! {

/// A part of the status bar.
#[derive(Debug, Clone, Copy, PartialEq, Eq, Structural)]
pub enum StatusSlot {
    Workflow,
    Agent,
    Session,
}

/// What a part of the status bar shows.
#[derive(Debug, Clone, PartialEq, Eq)]
pub enum StatusValue {
    Label(String),
    Hidden,
    WorkflowStep {
        workflow_id: String,
        workflow_role: WorkflowRunRole,
        step_id: String,
        step_label: String,
        index: usize,
        total: usize,
    },
    SessionRouting {
        root_workflow_id: String,
        active_workflow_id: String,
        active_workflow_role: WorkflowRunRole,
        recognized_scene_id: Option<String>,
        selected_workflow_id: Option<String>,
    },
}

#[derive(Debug, Clone, Copy, PartialEq, Eq, Structural)]
pub enum ActivityTarget {
    Log,
}

#[derive(Debug, Clone, Copy, PartialEq, Eq, Structural)]
pub enum OverlayTarget {
    Search,
    Detail,
    Picker,
    InputPrompt,
    Confirm,
}

/// What an overlay request carries: text, or a typed picker request.
#[derive(Debug, Clone, PartialEq, Eq)]
pub enum UiContent {
    Text(String),
    OperatorPicker(OperatorPickerRequest),
}

/// Where a message goes.
#[derive(Debug, Clone, Copy, PartialEq, Eq, Structural)]
pub enum UiTarget {
    Response,
    Activity(ActivityTarget),
    Todo,
    StatusBar(StatusSlot),
    Overlay(OverlayTarget),
}

/// Who produced a message.
#[derive(Debug, Clone, PartialEq, Eq)]
pub enum UiSource {
    Assistant,
    Tool,
    WorkflowStep {
        workflow_id: String,
        workflow_role: WorkflowRunRole,
        step_id: String,
        step_label: String,
        index: usize,
        total: usize,
    },
    SessionRouting,
}

#[derive(Debug, Clone, Copy, PartialEq, Eq, Structural)]
pub enum UiMessageKind {
    Narrative,
    Result,
    Error,
    Log,
    Summary,
    Warning,
}

/// A text message for one part of the UI.
#[derive(Debug, Clone, PartialEq, Eq)]
pub struct RuntimeUiMessage {
    pub target: UiTarget,
    pub source: UiSource,
    pub kind: UiMessageKind,
    pub content: String,
}

/// What a response section belongs to: a workflow run, or a command.
#[derive(Debug, Clone, PartialEq, Eq)]
pub enum SectionOrigin {
    Workflow { workflow_id: String, workflow_role: WorkflowRunRole },
    Command { command_name: String, source: String },
}

#[derive(Debug, Clone, Copy, PartialEq, Eq, Structural)]
pub enum ResponseSectionKind {
    Routing,
    Step,
    FinalAnswer,
    Thinking,
    Command,
}

/// A section of the response transcript as the runtime opens it.
#[derive(Debug, Clone, PartialEq, Eq)]
pub struct ResponseSection {
    pub id: String,
    pub parent_id: Option<String>,
    pub kind: ResponseSectionKind,
    pub title: String,
    pub state: SectionState,
    pub scene_id: Option<String>,
    pub subflow_ref: Option<StepSubflowRef>,
    pub origin: SectionOrigin,
}

/// A change the runtime asks of the UI.
#[derive(Debug, Clone, PartialEq, Eq)]
pub enum RuntimeUiEffect {
    SetStatusSlot { slot: StatusSlot, value: StatusValue },
    ClearStatusSlot { slot: StatusSlot },
    ReplacePanel { target: UiTarget, content: String },
    ShowOverlay { target: OverlayTarget, content: UiContent },
    HideOverlay { target: OverlayTarget },
    OpenWebResultView { title: String, content: String },
    OpenDiffPreview { diff: String },
    RequestToolApproval { message: String },
    FocusHint { target: UiTarget },
    BeginResponseSection { section: ResponseSection },
    AppendResponseSection { id: String, delta: String },
    CompleteResponseSection { id: String, state: SectionState },
    BeginToolRun { tool_run: ToolRun },
    UpdateToolRun { tool_run: ToolRun },
    CompleteToolRun { id: String, status: ToolRunStatus },
    UpsertStepDiagnostics { diagnostics: StepDiagnostics },
    UpsertStepSubflow { subflow: StepSubflowStatus },
}

/// A message or an effect, for the turn that produced it.
#[derive(Debug, Clone, PartialEq, Eq)]
pub enum RuntimeUiEnvelope {
    Message { turn_id: u64, message: RuntimeUiMessage },
    Effect { turn_id: u64, effect: RuntimeUiEffect },
}

/// The turn an envelope belongs to.
pub open spec fn envelope_turn(envelope: RuntimeUiEnvelope) -> u64 {
    match envelope {
        RuntimeUiEnvelope::Message { turn_id, .. } => turn_id,
        RuntimeUiEnvelope::Effect { turn_id, .. } => turn_id,
    }
}

/// Whether the tool counters of step diagnostics that an envelope carries
/// fit their sums.
pub open spec fn envelope_fits(envelope: RuntimeUiEnvelope) -> bool {
    match envelope {
        RuntimeUiEnvelope::Effect { effect: RuntimeUiEffect::UpsertStepDiagnostics { diagnostics }, .. } => tool_counts_fit(
            diagnostics,
        ),
        _ => true,
    }
}

/// Whether `r` is the workflow summary that `value` gives the status bar:
/// a workflow step as it is, a label as the label of a nameless child
/// workflow, anything else none.
pub open spec fn is_workflow_summary_of(r: Option<WorkflowSummary>, value: StatusValue) -> bool {
    match value {
        StatusValue::WorkflowStep { workflow_id, workflow_role, step_id, step_label, index, total } => r == Some(
            WorkflowSummary { workflow_id, workflow_role, id: step_id, label: step_label, index, total },
        ),
        StatusValue::Label(label) => r matches Some(w) && w.workflow_id@ == "workflow"@ && w.workflow_role
            == WorkflowRunRole::Child && w.id@ == "workflow"@ && w.label == label && w.index == 0 && w.total
            == 0,
        _ => r.is_none(),
    }
}

pub fn workflow_summary_from_status(value: StatusValue) -> (r: Option<WorkflowSummary>)
    ensures
        is_workflow_summary_of(r, value),
{
    match value {
        StatusValue::WorkflowStep { workflow_id, workflow_role, step_id, step_label, index, total } => Some(
            WorkflowSummary { workflow_id, workflow_role, id: step_id, label: step_label, index, total },
        ),
        StatusValue::Label(label) => Some(
            WorkflowSummary {
                workflow_id: "workflow".to_owned(),
                workflow_role: WorkflowRunRole::Child,
                id: "workflow".to_owned(),
                label,
                index: 0,
                total: 0,
            },
        ),
        StatusValue::Hidden => None,
        StatusValue::SessionRouting { .. } => None,
    }
}

/// The session status that `value` gives the status bar.
pub open spec fn spec_session_status(value: StatusValue) -> Option<SessionStatusSummary> {
    match value {
        StatusValue::Label(label) => Some(SessionStatusSummary::Label(label)),
        StatusValue::SessionRouting {
            root_workflow_id,
            active_workflow_id,
            active_workflow_role,
            recognized_scene_id,
            selected_workflow_id,
        } => Some(
            SessionStatusSummary::Routing(
                SessionRoutingSummary {
                    root_workflow_id,
                    active_workflow_id,
                    active_workflow_role,
                    recognized_scene_id,
                    selected_workflow_id,
                },
            ),
        ),
        _ => None,
    }
}

pub fn session_status_from_status(value: StatusValue) -> (r: Option<SessionStatusSummary>)
    ensures
        r == spec_session_status(value),
{
    match value {
        StatusValue::Label(label) => Some(SessionStatusSummary::Label(label)),
        StatusValue::SessionRouting {
            root_workflow_id,
            active_workflow_id,
            active_workflow_role,
            recognized_scene_id,
            selected_workflow_id,
        } => Some(
            SessionStatusSummary::Routing(
                SessionRoutingSummary {
                    root_workflow_id,
                    active_workflow_id,
                    active_workflow_role,
                    recognized_scene_id,
                    selected_workflow_id,
                },
            ),
        ),
        StatusValue::Hidden => None,
        StatusValue::WorkflowStep { .. } => None,
    }
}

/// The transcript kind of a section kind.
pub open spec fn spec_msg_kind(kind: ResponseSectionKind) -> MsgKind {
    match kind {
        ResponseSectionKind::Routing => MsgKind::Routing,
        ResponseSectionKind::Step => MsgKind::Step,
        ResponseSectionKind::FinalAnswer => MsgKind::FinalAnswer,
        ResponseSectionKind::Thinking => MsgKind::Thinking,
        ResponseSectionKind::Command => MsgKind::Command,
    }
}

/// Whether `m` is the empty transcript message that opens section `s`: a
/// workflow section carries its title and workflow, a command section the
/// command's name and where it came from.
pub open spec fn is_msg_of(m: Msg, s: ResponseSection) -> bool {
    &&& m.kind == spec_msg_kind(s.kind)
    &&& m.text@.len() == 0
    &&& m.id == Some(s.id)
    &&& m.parent_id == s.parent_id
    &&& m.state == Some(s.state)
    &&& m.scene_id == s.scene_id
    &&& m.subflow_ref == s.subflow_ref
    &&& match s.origin {
        SectionOrigin::Workflow { workflow_id, workflow_role } => m.title == Some(s.title) && m.workflow_id == Some(
            workflow_id,
        ) && m.workflow_role == Some(workflow_role),
        SectionOrigin::Command { command_name, source } => m.title == Some(command_name) && m.workflow_id
            == Some(source) && m.workflow_role.is_none(),
    }
    &&& !m.collapsed
    &&& m.tool_lane_collapsed
}

impl Msg {
    /// The empty transcript message that opens section `section`.
    pub fn from_response_section(section: ResponseSection) -> (r: Msg)
        ensures
            is_msg_of(r, section),
    {
        let ghost s = section;
        let (workflow_id, workflow_role, title) = match section.origin {
            SectionOrigin::Workflow { workflow_id, workflow_role } => (
                Some(workflow_id),
                Some(workflow_role),
                Some(section.title),
            ),
            SectionOrigin::Command { command_name, source } => (Some(source), None, Some(command_name)),
        };
        let kind = match section.kind {
            ResponseSectionKind::Routing => MsgKind::Routing,
            ResponseSectionKind::Step => MsgKind::Step,
            ResponseSectionKind::FinalAnswer => MsgKind::FinalAnswer,
            ResponseSectionKind::Thinking => MsgKind::Thinking,
            ResponseSectionKind::Command => MsgKind::Command,
        };
        Msg {
            kind,
            text: String::new(),
            state: Some(section.state),
            id: Some(section.id),
            parent_id: section.parent_id,
            title,
            workflow_id,
            workflow_role,
            scene_id: section.scene_id,
            subflow_ref: section.subflow_ref,
            collapsed: false,
            tool_lane_collapsed: true,
        }
    }
}

/// The log line of a log message: tool output and routing notes are
/// tagged, and a workflow step summary names the step and its place.
pub open spec fn spec_log_line(source: UiSource, kind: UiMessageKind, text: Seq<char>) -> Seq<char> {
    match (source, kind) {
        (UiSource::Tool, UiMessageKind::Log) => "[tool] "@ + text,
        (
            UiSource::WorkflowStep { workflow_id, workflow_role, step_id, step_label, index, total },
            UiMessageKind::Summary,
        ) => "["@ + workflow_role.spec_name() + ":"@ + workflow_id@ + " "@ + dec(index as nat) + "/"@ + dec(
            total as nat,
        ) + "] "@ + step_label@ + " ("@ + step_id@ + ")"@,
        (UiSource::SessionRouting, UiMessageKind::Summary) => "[route] "@ + text,
        (UiSource::SessionRouting, UiMessageKind::Warning) => "[route] "@ + text,
        _ => text,
    }
}

/// The transcript kind of a response message, or none for the narrative
/// and results of workflow steps and of the assistant, which their own
/// sections carry.
pub open spec fn spec_response_kind(source: UiSource, kind: UiMessageKind) -> Option<MsgKind> {
    match (source, kind) {
        (UiSource::WorkflowStep { .. }, UiMessageKind::Narrative) => None,
        (UiSource::WorkflowStep { .. }, UiMessageKind::Result) => None,
        (UiSource::Assistant, UiMessageKind::Result) => None,
        (UiSource::Assistant, UiMessageKind::Narrative) => None,
        (_, UiMessageKind::Error) => Some(MsgKind::Error),
        _ => Some(MsgKind::Agent),
    }
}

/// Whether the overlay shown is of the kind `target` names.
pub open spec fn overlay_is(target: OverlayTarget, overlay: Option<OverlayState>) -> bool {
    match (target, overlay) {
        (OverlayTarget::Search, Some(OverlayState::Search(_))) => true,
        (OverlayTarget::Search, Some(OverlayState::SearchResults(_))) => true,
        (OverlayTarget::Confirm, Some(OverlayState::Confirm(_))) => true,
        (OverlayTarget::Detail, Some(OverlayState::Detail(_))) => true,
        (OverlayTarget::Picker, Some(OverlayState::Picker(_))) => true,
        (OverlayTarget::InputPrompt, Some(OverlayState::InputPrompt(_))) => true,
        _ => false,
    }
}

fn log_line(source: &UiSource, kind: UiMessageKind, text: &str) -> (r: String)
    ensures
        r@ == spec_log_line(*source, kind, text@),
{
    match (source, kind) {
        (UiSource::Tool, UiMessageKind::Log) => {
            let mut s = "[tool] ".to_owned();
            push_str(&mut s, text);
            s
        },
        (
            UiSource::WorkflowStep { workflow_id, workflow_role, step_id, step_label, index, total },
            UiMessageKind::Summary,
        ) => {
            let mut s = "[".to_owned();
            push_str(&mut s, workflow_role.as_str());
            push_str(&mut s, ":");
            push_str(&mut s, workflow_id.as_str());
            push_str(&mut s, " ");
            push_str(&mut s, dec_usize(*index).as_str());
            push_str(&mut s, "/");
            push_str(&mut s, dec_usize(*total).as_str());
            push_str(&mut s, "] ");
            push_str(&mut s, step_label.as_str());
            push_str(&mut s, " (");
            push_str(&mut s, step_id.as_str());
            push_str(&mut s, ")");
            s
        },
        (UiSource::SessionRouting, UiMessageKind::Summary) | (UiSource::SessionRouting, UiMessageKind::Warning) => {
            let mut s = "[route] ".to_owned();
            push_str(&mut s, text);
            s
        },
        _ => text.to_owned(),
    }
}

impl App {
    /// `after` is `before` with status slot `slot` showing `value`.
    pub open spec fn status_slot_set(before: App, after: App, slot: StatusSlot, value: StatusValue) -> bool {
        match slot {
            StatusSlot::Workflow => is_workflow_summary_of(after.workflow_summary, value) && after == (App {
                workflow_summary: after.workflow_summary,
                ..before
            }),
            StatusSlot::Agent => match value {
                StatusValue::Label(label) => App::agent_label_set(before, after, label@),
                StatusValue::Hidden => after == (App { is_running: false, agent_status_label: None, ..before }),
                _ => after == before,
            },
            StatusSlot::Session => match value {
                StatusValue::WorkflowStep { .. } => after == before,
                _ => after == (App { session_status: spec_session_status(value), ..before }),
            },
        }
    }

    /// Shows `value` in status slot `slot`. An agent label other than
    /// `Idle` means a turn runs; a turn that stops running is closed.
    pub fn set_status_slot(&mut self, slot: StatusSlot, value: StatusValue)
        requires
            old(self).delivery_fits(),
        ensures
            App::status_slot_set(*old(self), *final(self), slot, value),
    {
        match slot {
            StatusSlot::Workflow => {
                self.workflow_summary = workflow_summary_from_status(value);
            },
            StatusSlot::Agent => match value {
                StatusValue::Label(label) => self.set_agent_status_label(label.as_str()),
                StatusValue::Hidden => self.hide_agent_status(),
                _ => {},
            },
            StatusSlot::Session => match value {
                StatusValue::WorkflowStep { .. } => {},
                _ => {
                    self.session_status = session_status_from_status(value);
                },
            },
        }
    }

    /// `after` is `before` with status slot `slot` emptied.
    pub open spec fn status_slot_cleared(before: App, after: App, slot: StatusSlot) -> bool {
        after == match slot {
            StatusSlot::Workflow => App { workflow_summary: None, ..before },
            StatusSlot::Agent => App { is_running: false, agent_status_label: None, ..before },
            StatusSlot::Session => App { session_status: None, ..before },
        }
    }

    /// Empties status slot `slot`; emptying the agent slot stops the turn.
    pub fn clear_status_slot(&mut self, slot: StatusSlot)
        ensures
            App::status_slot_cleared(*old(self), *final(self), slot),
    {
        match slot {
            StatusSlot::Workflow => self.workflow_summary = None,
            StatusSlot::Agent => {
                self.is_running = false;
                self.agent_status_label = None;
            },
            StatusSlot::Session => self.session_status = None,
        }
    }

    /// `after` is `before` with the overlay closed when it is of the kind
    /// `target` names, and unchanged otherwise.
    pub open spec fn overlay_hidden(before: App, after: App, target: OverlayTarget) -> bool {
        if overlay_is(target, before.overlay) {
            App::overlay_closed(before, after)
        } else {
            after == before
        }
    }

    /// Closes the overlay when it is of the kind `target` names.
    pub fn hide_overlay_target(&mut self, target: OverlayTarget)
        ensures
            App::overlay_hidden(*old(self), *final(self), target),
    {
        let shown = match (target, &self.overlay) {
            (OverlayTarget::Search, Some(OverlayState::Search(_))) => true,
            (OverlayTarget::Search, Some(OverlayState::SearchResults(_))) => true,
            (OverlayTarget::Confirm, Some(OverlayState::Confirm(_))) => true,
            (OverlayTarget::Detail, Some(OverlayState::Detail(_))) => true,
            (OverlayTarget::Picker, Some(OverlayState::Picker(_))) => true,
            (OverlayTarget::InputPrompt, Some(OverlayState::InputPrompt(_))) => true,
            _ => false,
        };
        if shown {
            self.close_overlay();
        }
    }

    /// `after` is `before` with the overlay that `target` asks for, showing
    /// `text`: the text's lines as search results or as a runtime detail,
    /// or a runtime prompt. A picker needs a typed request and a
    /// confirmation is not shown on request, so text for either changes
    /// nothing.
    pub open spec fn overlay_shown(before: App, after: App, target: OverlayTarget, text: Seq<char>) -> bool {
        match target {
            OverlayTarget::Search => App::search_results_opened(before, after, " Search Results "@, lines(text)),
            OverlayTarget::Detail => App::detail_opened(before, after, " Runtime Detail "@, lines(text)),
            OverlayTarget::InputPrompt => App::input_prompt_opened(before, after, " Runtime Input "@, text),
            _ => after == before,
        }
    }

    /// `after` is `before` with the overlay that `target` asks for, showing
    /// `content`: text as `overlay_shown` says, a typed picker request as a
    /// fresh picker when the target is the picker, and nothing otherwise.
    pub open spec fn overlay_content_shown(before: App, after: App, target: OverlayTarget, content: UiContent) -> bool {
        match content {
            UiContent::Text(text) => App::overlay_shown(before, after, target, text@),
            UiContent::OperatorPicker(request) => match target {
                OverlayTarget::Picker => App::picker_opened(before, after, request),
                _ => after == before,
            },
        }
    }

    /// `after` is `before` with the focus moved where `target` hints, when
    /// that panel is shown.
    pub open spec fn focus_hinted(before: App, after: App, target: UiTarget) -> bool {
        after == match target {
            UiTarget::Response => App { focused_panel: Panel::Response, ..before },
            UiTarget::Activity(_) => if before.spec_visible(Panel::Logs) {
                App { focused_panel: Panel::Logs, ..before }
            } else {
                before
            },
            UiTarget::Todo => if before.spec_visible(Panel::Todo) {
                App { focused_panel: Panel::Todo, ..before }
            } else {
                before
            },
            _ => before,
        }
    }

    /// `after` is `before` with `message` applied.
    pub open spec fn message_applied(before: App, after: App, message: RuntimeUiMessage) -> bool {
        let text = message.content@;
        match message.target {
            UiTarget::Response => match spec_response_kind(message.source, message.kind) {
                Some(k) => App::msg_pushed(before, after, k, text),
                None => after == before,
            },
            UiTarget::Activity(_) => App::log_added(before, after, spec_log_line(message.source, message.kind, text)),
            UiTarget::Todo => App::todo_snapshot_shown(before, after, before.active_turn_id, text),
            UiTarget::StatusBar(slot) => App::status_slot_set(before, after, slot, StatusValue::Label(message.content)),
            UiTarget::Overlay(target) => App::overlay_shown(before, after, target, text),
        }
    }

    /// `after` is `before` with `effect`, of turn `turn_id`, applied.
    pub open spec fn effect_applied(before: App, after: App, turn_id: u64, effect: RuntimeUiEffect) -> bool {
        match effect {
            RuntimeUiEffect::SetStatusSlot { slot, value } => App::status_slot_set(before, after, slot, value),
            RuntimeUiEffect::ClearStatusSlot { slot } => App::status_slot_cleared(before, after, slot),
            RuntimeUiEffect::ReplacePanel { target, content } => match target {
                UiTarget::Todo => App::todo_snapshot_shown(before, after, turn_id, content@),
                UiTarget::StatusBar(slot) => App::status_slot_set(before, after, slot, StatusValue::Label(content)),
                UiTarget::Overlay(t) => App::overlay_shown(before, after, t, content@),
                _ => after == before,
            },
            RuntimeUiEffect::ShowOverlay { target, content } => App::overlay_content_shown(before, after, target, content),
            RuntimeUiEffect::HideOverlay { target } => App::overlay_hidden(before, after, target),
            RuntimeUiEffect::OpenWebResultView { title, content } => App::search_results_opened(
                before,
                after,
                title@,
                lines(content@),
            ),
            RuntimeUiEffect::OpenDiffPreview { diff } => App::detail_opened(before, after, " Diff Preview "@, lines(diff@)),
            RuntimeUiEffect::RequestToolApproval { message } => App::approval_opened(before, after, message@),
            RuntimeUiEffect::FocusHint { target } => App::focus_hinted(before, after, target),
            RuntimeUiEffect::BeginResponseSection { section } => exists|m: Msg|
                #[trigger] is_msg_of(m, section) && App::section_begun(before, after, m),
            RuntimeUiEffect::AppendResponseSection { id, delta } => App::section_appended(before, after, id@, delta@),
            RuntimeUiEffect::CompleteResponseSection { id, state } => App::section_completed(
                before,
                after,
                id@,
                state,
            ),
            RuntimeUiEffect::BeginToolRun { tool_run } => App::tool_run_recorded(before, after, tool_run),
            RuntimeUiEffect::UpdateToolRun { tool_run } => App::tool_run_recorded(before, after, tool_run),
            RuntimeUiEffect::CompleteToolRun { id, status } => App::tool_run_completed(before, after, id@, status),
            RuntimeUiEffect::UpsertStepDiagnostics { diagnostics } => App::diagnostics_recorded(
                before,
                after,
                diagnostics,
            ),
            RuntimeUiEffect::UpsertStepSubflow { subflow } => after == (App {
                step_subflows: after.step_subflows,
                ..before
            }) && after.step_subflows@ == subflows_upserted(before.step_subflows@, subflow),
        }
    }

    /// `after` is `before` with `envelope` applied: only a message or an
    /// effect of the current turn changes anything.
    pub open spec fn envelope_applied(before: App, after: App, envelope: RuntimeUiEnvelope) -> bool {
        match envelope {
            RuntimeUiEnvelope::Message { turn_id, message } => if turn_id == before.active_turn_id {
                App::message_applied(before, after, message)
            } else {
                after == before
            },
            RuntimeUiEnvelope::Effect { turn_id, effect } => if turn_id == before.active_turn_id {
                App::effect_applied(before, after, turn_id, effect)
            } else {
                after == before
            },
        }
    }

    /// Whether the counters that applying `envelope` adds up fit their
    /// types: the records of the current turn fit a summary, one more tool
    /// run can be numbered, and step diagnostics fit their sums.
    pub open spec fn can_apply(self, envelope: RuntimeUiEnvelope) -> bool {
        &&& self.delivery_fits()
        &&& self.tool_runs@.len() < u32::MAX
        &&& all_fit(self.step_diagnostics@)
        &&& envelope_fits(envelope)
    }

    /// Applies what the runtime sent.
    pub fn apply_runtime_envelope(&mut self, envelope: RuntimeUiEnvelope)
        requires
            envelope_turn(envelope) == old(self).active_turn_id ==> old(self).can_apply(envelope),
        ensures
            App::envelope_applied(*old(self), *final(self), envelope),
            envelope_turn(envelope) != old(self).active_turn_id ==> *final(self) == *old(self),
    {
        TuiUpdateReducer::apply(self, envelope);
    }
}

/// Turns what the runtime sends into changes of the UI state.
pub struct TuiUpdateReducer;

impl TuiUpdateReducer {
    /// Applies a message or an effect of the current turn; drops those of
    /// other turns.
    pub fn apply(app: &mut App, envelope: RuntimeUiEnvelope)
        requires
            envelope_turn(envelope) == old(app).active_turn_id ==> old(app).can_apply(envelope),
        ensures
            App::envelope_applied(*old(app), *final(app), envelope),
            envelope_turn(envelope) != old(app).active_turn_id ==> *final(app) == *old(app),
    {
        match envelope {
            RuntimeUiEnvelope::Message { turn_id, message } => {
                if app.is_current_turn(turn_id) {
                    Self::apply_message(app, message);
                }
            },
            RuntimeUiEnvelope::Effect { turn_id, effect } => {
                if app.is_current_turn(turn_id) {
                    Self::apply_effect(app, turn_id, effect);
                }
            },
        }
    }

    fn apply_message(app: &mut App, message: RuntimeUiMessage)
        requires
            old(app).delivery_fits(),
        ensures
            App::message_applied(*old(app), *final(app), message),
    {
        let ghost m = message;
        match message.target {
            UiTarget::Response => Self::apply_response_message(app, &message),
            UiTarget::Activity(_) => {
                let line = log_line(&message.source, message.kind, message.content.as_str());
                app.add_log(line);
            },
            UiTarget::Todo => {
                let turn = app.active_turn_id;
                app.set_todo_snapshot(turn, message.content.as_str());
            },
            UiTarget::StatusBar(slot) => {
                app.set_status_slot(slot, StatusValue::Label(message.content));
            },
            UiTarget::Overlay(target) => Self::show_overlay_request(app, target, message.content.as_str()),
        }
    }

    fn apply_response_message(app: &mut App, message: &RuntimeUiMessage)
        ensures
            match spec_response_kind(message.source, message.kind) {
                Some(k) => App::msg_pushed(*old(app), *final(app), k, message.content@),
                None => *final(app) == *old(app),
            },
    {
        let text = message.content.as_str();
        match (&message.source, message.kind) {
            (UiSource::WorkflowStep { .. }, UiMessageKind::Narrative) => {},
            (UiSource::WorkflowStep { .. }, UiMessageKind::Result) => {},
            (UiSource::Assistant, UiMessageKind::Result) => {},
            (UiSource::Assistant, UiMessageKind::Narrative) => {},
            (_, UiMessageKind::Error) => app.push_msg(MsgKind::Error, text),
            _ => app.push_msg(MsgKind::Agent, text),
        }
    }

    fn show_overlay_content(app: &mut App, target: OverlayTarget, content: UiContent)
        ensures
            App::overlay_content_shown(*old(app), *final(app), target, content),
    {
        match content {
            UiContent::Text(text) => Self::show_overlay_request(app, target, text.as_str()),
            UiContent::OperatorPicker(request) => match target {
                OverlayTarget::Picker => app.open_picker_overlay(request),
                _ => {},
            },
        }
    }

    fn show_overlay_request(app: &mut App, target: OverlayTarget, text: &str)
        ensures
            App::overlay_shown(*old(app), *final(app), target, text@),
    {
        match target {
            OverlayTarget::Search => {
                let ls = split_lines(text);
                app.open_search_results_overlay(" Search Results ", ls);
            },
            OverlayTarget::Detail => {
                let ls = split_lines(text);
                app.open_detail_overlay(" Runtime Detail ", ls);
            },
            OverlayTarget::InputPrompt => app.open_input_prompt_overlay(" Runtime Input ", text),
            OverlayTarget::Picker => {},
            OverlayTarget::Confirm => {},
        }
    }

    fn apply_focus_hint(app: &mut App, target: UiTarget)
        ensures
            App::focus_hinted(*old(app), *final(app), target),
    {
        match target {
            UiTarget::Response => app.focused_panel = Panel::Response,
            UiTarget::Activity(_) => {
                if app.logs_visible() {
                    app.focused_panel = Panel::Logs;
                }
            },
            UiTarget::Todo => {
                if app.todo_visible() {
                    app.focused_panel = Panel::Todo;
                }
            },
            UiTarget::Overlay(_) => {},
            UiTarget::StatusBar(_) => {},
        }
    }

    fn apply_effect(app: &mut App, turn_id: u64, effect: RuntimeUiEffect)
        requires
            old(app).delivery_fits(),
            old(app).tool_runs@.len() < u32::MAX,
            all_fit(old(app).step_diagnostics@),
            envelope_fits(RuntimeUiEnvelope::Effect { turn_id, effect }),
        ensures
            App::effect_applied(*old(app), *final(app), turn_id, effect),
    {
        match effect {
            RuntimeUiEffect::SetStatusSlot { slot, value } => app.set_status_slot(slot, value),
            RuntimeUiEffect::ClearStatusSlot { slot } => app.clear_status_slot(slot),
            RuntimeUiEffect::ReplacePanel { target, content } => match target {
                UiTarget::Todo => app.set_todo_snapshot(turn_id, content.as_str()),
                UiTarget::StatusBar(slot) => app.set_status_slot(slot, StatusValue::Label(content)),
                UiTarget::Overlay(t) => Self::show_overlay_request(app, t, content.as_str()),
                _ => {},
            },
            RuntimeUiEffect::ShowOverlay { target, content } => Self::show_overlay_content(app, target, content),
            RuntimeUiEffect::HideOverlay { target } => app.hide_overlay_target(target),
            RuntimeUiEffect::OpenWebResultView { title, content } => {
                let ls = split_lines(content.as_str());
                app.open_search_results_overlay(title.as_str(), ls);
            },
            RuntimeUiEffect::OpenDiffPreview { diff } => {
                let ls = split_lines(diff.as_str());
                app.open_detail_overlay(" Diff Preview ", ls);
            },
            RuntimeUiEffect::RequestToolApproval { message } => app.open_runtime_confirm_overlay(message.as_str()),
            RuntimeUiEffect::FocusHint { target } => Self::apply_focus_hint(app, target),
            RuntimeUiEffect::BeginResponseSection { section } => {
                let ghost s = section;
                let m = Msg::from_response_section(section);
                app.begin_response_section(m);
                proof {
                    assert(is_msg_of(m, s));
                }
            },
            RuntimeUiEffect::AppendResponseSection { id, delta } => app.append_response_section(
                id.as_str(),
                delta.as_str(),
            ),
            RuntimeUiEffect::CompleteResponseSection { id, state } => app.complete_response_section(
                id.as_str(),
                state,
            ),
            RuntimeUiEffect::BeginToolRun { tool_run } => app.begin_tool_run(tool_run),
            RuntimeUiEffect::UpdateToolRun { tool_run } => app.update_tool_run(tool_run),
            RuntimeUiEffect::CompleteToolRun { id, status } => app.complete_tool_run(id.as_str(), status),
            RuntimeUiEffect::UpsertStepDiagnostics { diagnostics } => app.upsert_step_diagnostics(diagnostics),
            RuntimeUiEffect::UpsertStepSubflow { subflow } => app.upsert_step_subflow(subflow),
        }
    }
}

/// A log message of the current turn adds one line to the log and leaves
/// the earlier lines as they were. Routing summaries and warnings are
/// logged as `[route] ` and their text, tool output as `[tool] ` and its
/// text, and what the assistant logs as its text alone (escape sequences
/// removed in each case); other routing and tool messages are logged as
/// their text alone.
pub proof fn law_activity_log_lines(before: App, after: App, turn_id: u64, message: RuntimeUiMessage)
    requires
        turn_id == before.active_turn_id,
        message.target is Activity,
        App::envelope_applied(before, after, RuntimeUiEnvelope::Message { turn_id, message }),
    ensures
        after.log_lines@.len() == before.log_lines@.len() + 1,
        after.log_lines@.drop_last() == before.log_lines@,
        message.source == UiSource::SessionRouting && (message.kind == UiMessageKind::Summary
            || message.kind == UiMessageKind::Warning) ==> after.log_lines@.last()@ == without_escapes(
            "[route] "@ + message.content@,
        ),
        message.source == UiSource::Tool && message.kind == UiMessageKind::Log
            ==> after.log_lines@.last()@ == without_escapes("[tool] "@ + message.content@),
        message.source == UiSource::Assistant ==> after.log_lines@.last()@ == without_escapes(
            message.content@,
        ),
        message.source == UiSource::SessionRouting && message.kind != UiMessageKind::Summary
            && message.kind != UiMessageKind::Warning ==> after.log_lines@.last()@ == without_escapes(
            message.content@,
        ),
        message.source == UiSource::Tool && message.kind != UiMessageKind::Log
            ==> after.log_lines@.last()@ == without_escapes(message.content@),
{
}

} // verus!
