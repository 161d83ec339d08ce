//! Tool manifests, typed tool results and the remediation advice that the
//! dispatcher attaches to failed tool calls.
use vstd::prelude::*;

use crate::chars::{
    ascii_lower, ascii_upper, chars_eq, chars_of, join, push_char, push_str, starts_with,
    str_starts_with, string_of, to_ascii_lower, to_ascii_upper, views,
};
use crate::outside::{
    entry_views, json_empty_object, json_empty_object_test, json_is_empty_object, json_is_null,
    json_null_test, json_object, json_object_value, json_string, json_string_value,
};

verus! {

#[derive(Debug, Clone, Copy, PartialEq, Eq, Structural)]
pub enum ToolFamily {
    WorkspaceInspection,
    WebResearch,
    Editing,
    Planning,
    Interaction,
    EscapeHatch,
    KnowledgeAndGovernance,
    Other,
}

impl ToolFamily {
    pub open spec fn spec_name(self) -> Seq<char> {
        match self {
            ToolFamily::WorkspaceInspection => "workspace_inspection"@,
            ToolFamily::WebResearch => "web_research"@,
            ToolFamily::Editing => "editing"@,
            ToolFamily::Planning => "planning"@,
            ToolFamily::Interaction => "interaction"@,
            ToolFamily::EscapeHatch => "escape_hatch"@,
            ToolFamily::KnowledgeAndGovernance => "knowledge_and_governance"@,
            ToolFamily::Other => "other"@,
        }
    }

    /// The snake_case name of the family.
    pub fn as_str(self) -> (r: &'static str)
        ensures
            r@ == self.spec_name(),
    {
        match self {
            ToolFamily::WorkspaceInspection => "workspace_inspection",
            ToolFamily::WebResearch => "web_research",
            ToolFamily::Editing => "editing",
            ToolFamily::Planning => "planning",
            ToolFamily::Interaction => "interaction",
            ToolFamily::EscapeHatch => "escape_hatch",
            ToolFamily::KnowledgeAndGovernance => "knowledge_and_governance",
            ToolFamily::Other => "other",
        }
    }
}

#[derive(Debug, Clone, Copy, PartialEq, Eq, Structural)]
pub enum ToolStability {
    Stable,
    Preview,
    Experimental,
}

impl ToolStability {
    pub open spec fn spec_name(self) -> Seq<char> {
        match self {
            ToolStability::Stable => "stable"@,
            ToolStability::Preview => "preview"@,
            ToolStability::Experimental => "experimental"@,
        }
    }

    /// The snake_case name of the stability level.
    pub fn as_str(self) -> (r: &'static str)
        ensures
            r@ == self.spec_name(),
    {
        match self {
            ToolStability::Stable => "stable",
            ToolStability::Preview => "preview",
            ToolStability::Experimental => "experimental",
        }
    }
}

#[derive(Debug, Clone, Copy, PartialEq, Eq, Structural)]
pub enum TruncationStrategy {
    Tail,
    Head,
    Middle,
}

#[derive(Debug, Clone, Copy, PartialEq, Eq, Structural)]
pub enum ToolOutputFormat {
    PlainText,
    Json,
    Diff,
}

#[derive(Debug, Clone, Copy, PartialEq, Eq, Structural)]
pub enum MemoryScopeLevel {
    NoScope,
    Session,
    Project,
    Global,
}

impl MemoryScopeLevel {
    pub open spec fn spec_name(self) -> Seq<char> {
        match self {
            MemoryScopeLevel::NoScope => "none"@,
            MemoryScopeLevel::Session => "session"@,
            MemoryScopeLevel::Project => "project"@,
            MemoryScopeLevel::Global => "global"@,
        }
    }

    /// The snake_case name of the memory scope.
    pub fn as_str(self) -> (r: &'static str)
        ensures
            r@ == self.spec_name(),
    {
        match self {
            MemoryScopeLevel::NoScope => "none",
            MemoryScopeLevel::Session => "session",
            MemoryScopeLevel::Project => "project",
            MemoryScopeLevel::Global => "global",
        }
    }
}

#[derive(Debug, Clone, PartialEq, Eq)]
pub struct ToolPromptProfile {
    pub summary: String,
    pub when_to_use: Vec<String>,
    pub when_not_to_use: Vec<String>,
    pub prefer_over: Vec<String>,
    pub fallback_to: Vec<String>,
    pub examples: Vec<String>,
    pub anti_patterns: Vec<String>,
}

impl ToolPromptProfile {
    /// A prompt profile holding only a summary.
    pub fn from_summary(summary: &str) -> (r: Self)
        ensures
            r.summary@ == summary@,
            r.when_to_use@.len() == 0,
            r.when_not_to_use@.len() == 0,
            r.prefer_over@.len() == 0,
            r.fallback_to@.len() == 0,
            r.examples@.len() == 0,
            r.anti_patterns@.len() == 0,
    {
        ToolPromptProfile {
            summary: summary.to_owned(),
            when_to_use: Vec::new(),
            when_not_to_use: Vec::new(),
            prefer_over: Vec::new(),
            fallback_to: Vec::new(),
            examples: Vec::new(),
            anti_patterns: Vec::new(),
        }
    }
}

#[derive(Debug, Clone, PartialEq, Eq)]
pub struct ToolIoProfile {
    pub max_output_bytes: usize,
    pub truncation_strategy: TruncationStrategy,
    pub output_format: ToolOutputFormat,
    pub normalize_input: bool,
}

#[derive(Debug, Clone, PartialEq, Eq)]
pub struct ToolUiProfile {
    pub invocation_preview: bool,
    pub result_preview: bool,
    pub detail_overlay: bool,
    pub action_affordances: Vec<String>,
}

#[derive(Debug, Clone, PartialEq, Eq)]
pub struct ToolContextProfile {
    pub needs_workspace_root: bool,
    pub needs_step_metadata: bool,
    pub needs_selection: bool,
    pub memory_scope: MemoryScopeLevel,
    pub network_context: bool,
}

#[derive(Debug, Clone, PartialEq, Eq)]
pub struct ToolPermissionProfile {
    pub permission_class: String,
    pub default_policy_mode: String,
    pub requires_approval: bool,
    pub denial_remediation: Option<String>,
}

#[derive(Debug, Clone, PartialEq, Eq)]
pub struct ToolStorageProfile {
    pub writes_session_journal: bool,
    pub produces_artifact: bool,
    pub writes_memory: bool,
    pub writes_todo: bool,
    pub replayable: bool,
}

#[derive(Debug, Clone, PartialEq, Eq)]
pub struct ToolObservabilityProfile {
    pub invocation_metric: String,
    pub success_metric: String,
    pub failure_metric: String,
}

#[derive(Debug, Clone, PartialEq, Eq)]
pub struct ToolExecutionContext {
    pub workspace_root: String,
    pub workflow_id: String,
    pub workflow_role: String,
    pub step_id: String,
    pub step_label: String,
    pub turn_id: u64,
    pub current_item_id: Option<String>,
    pub current_item_index: Option<usize>,
    pub current_item_total: Option<usize>,
}


/// A copy of a list of strings.
pub fn copy_strings(v: &Vec<String>) -> (r: Vec<String>)
    ensures
        r@ == v@,
{
    let mut r: Vec<String> = Vec::new();
    let mut i: usize = 0;
    while i < v.len()
        invariant
            i <= v.len(),
            r@ == v@.take(i as int),
        decreases v.len() - i,
    {
        r.push(v[i].clone());
        i = i + 1;
        proof {
            assert(r@ =~= v@.take(i as int));
        }
    }
    proof {
        assert(v@.take(v.len() as int) =~= v@);
    }
    r
}

fn copy_opt_string(o: &Option<String>) -> (r: Option<String>)
    ensures
        r == *o,
{
    match o {
        Some(s) => Some(s.clone()),
        None => None,
    }
}

impl ToolPromptProfile {
    /// Whether two profiles hold the same texts.
    pub open spec fn same_as(self, other: Self) -> bool {
        &&& self.summary == other.summary
        &&& self.when_to_use@ == other.when_to_use@
        &&& self.when_not_to_use@ == other.when_not_to_use@
        &&& self.prefer_over@ == other.prefer_over@
        &&& self.fallback_to@ == other.fallback_to@
        &&& self.examples@ == other.examples@
        &&& self.anti_patterns@ == other.anti_patterns@
    }

    /// A copy of the profile.
    pub fn copied(&self) -> (r: Self)
        ensures
            r.same_as(*self),
    {
        ToolPromptProfile {
            summary: self.summary.clone(),
            when_to_use: copy_strings(&self.when_to_use),
            when_not_to_use: copy_strings(&self.when_not_to_use),
            prefer_over: copy_strings(&self.prefer_over),
            fallback_to: copy_strings(&self.fallback_to),
            examples: copy_strings(&self.examples),
            anti_patterns: copy_strings(&self.anti_patterns),
        }
    }
}

impl ToolIoProfile {
    /// A copy of the profile.
    pub fn copied(&self) -> (r: Self)
        ensures
            r == *self,
    {
        ToolIoProfile {
            max_output_bytes: self.max_output_bytes,
            truncation_strategy: self.truncation_strategy,
            output_format: self.output_format,
            normalize_input: self.normalize_input,
        }
    }
}

impl ToolUiProfile {
    /// Whether two profiles hold the same settings.
    pub open spec fn same_as(self, other: Self) -> bool {
        &&& self.invocation_preview == other.invocation_preview
        &&& self.result_preview == other.result_preview
        &&& self.detail_overlay == other.detail_overlay
        &&& self.action_affordances@ == other.action_affordances@
    }

    /// A copy of the profile.
    pub fn copied(&self) -> (r: Self)
        ensures
            r.same_as(*self),
    {
        ToolUiProfile {
            invocation_preview: self.invocation_preview,
            result_preview: self.result_preview,
            detail_overlay: self.detail_overlay,
            action_affordances: copy_strings(&self.action_affordances),
        }
    }
}

impl ToolContextProfile {
    /// A copy of the profile.
    pub fn copied(&self) -> (r: Self)
        ensures
            r == *self,
    {
        ToolContextProfile {
            needs_workspace_root: self.needs_workspace_root,
            needs_step_metadata: self.needs_step_metadata,
            needs_selection: self.needs_selection,
            memory_scope: self.memory_scope,
            network_context: self.network_context,
        }
    }
}

impl ToolPermissionProfile {
    /// A copy of the profile.
    pub fn copied(&self) -> (r: Self)
        ensures
            r == *self,
    {
        ToolPermissionProfile {
            permission_class: self.permission_class.clone(),
            default_policy_mode: self.default_policy_mode.clone(),
            requires_approval: self.requires_approval,
            denial_remediation: copy_opt_string(&self.denial_remediation),
        }
    }
}

impl ToolStorageProfile {
    /// A copy of the profile.
    pub fn copied(&self) -> (r: Self)
        ensures
            r == *self,
    {
        ToolStorageProfile {
            writes_session_journal: self.writes_session_journal,
            produces_artifact: self.produces_artifact,
            writes_memory: self.writes_memory,
            writes_todo: self.writes_todo,
            replayable: self.replayable,
        }
    }
}

impl ToolObservabilityProfile {
    /// A copy of the profile.
    pub fn copied(&self) -> (r: Self)
        ensures
            r == *self,
    {
        ToolObservabilityProfile {
            invocation_metric: self.invocation_metric.clone(),
            success_metric: self.success_metric.clone(),
            failure_metric: self.failure_metric.clone(),
        }
    }
}

// ---------------------------------------------------------------------------
// Display names
// ---------------------------------------------------------------------------

/// A word with its first character ASCII upper-cased and the rest ASCII
/// lower-cased.
pub open spec fn capitalize(w: Seq<char>) -> Seq<char> {
    if w.len() == 0 {
        w
    } else {
        seq![ascii_upper(w[0])] + w.drop_first().map_values(|c: char| ascii_lower(c))
    }
}

/// The non-empty pieces of `s` between `'_'` characters, read left to right:
/// the finished words and the word being read.
pub open spec fn underscore_words_state(s: Seq<char>) -> (Seq<Seq<char>>, Seq<char>)
    decreases s.len(),
{
    if s.len() == 0 {
        (Seq::empty(), Seq::empty())
    } else {
        let (done, cur) = underscore_words_state(s.drop_last());
        if s.last() == '_' {
            if cur.len() > 0 {
                (done.push(cur), Seq::empty())
            } else {
                (done, cur)
            }
        } else {
            (done, cur.push(s.last()))
        }
    }
}

/// The non-empty pieces of `s` between `'_'` characters.
pub open spec fn underscore_words(s: Seq<char>) -> Seq<Seq<char>> {
    let (done, cur) = underscore_words_state(s);
    if cur.len() > 0 {
        done.push(cur)
    } else {
        done
    }
}

/// A tool id as a display name: its `'_'`-separated words capitalized and
/// joined by single spaces (`read_file` gives `Read File`).
pub open spec fn humanized(s: Seq<char>) -> Seq<char> {
    join(underscore_words(s).map_values(|w: Seq<char>| capitalize(w)), " "@)
}

fn capitalize_chars(w: &Vec<char>) -> (r: String)
    ensures
        r@ == capitalize(w@),
{
    let mut r = String::new();
    let mut i: usize = 0;
    while i < w.len()
        invariant
            i <= w.len(),
            i == 0 ==> r@.len() == 0,
            i > 0 ==> r@ == capitalize(w@.take(i as int)),
        decreases w.len() - i,
    {
        if i == 0 {
            push_char(&mut r, to_ascii_upper(w[0]));
        } else {
            push_char(&mut r, to_ascii_lower(w[i]));
        }
        proof {
            let t = w@.take(i + 1);
            if i == 0 {
                assert(r@ =~= capitalize(t));
            } else {
                assert(t.drop_first() =~= w@.take(i as int).drop_first().push(w@[i as int]));
                assert(r@ =~= capitalize(t));
            }
        }
        i = i + 1;
    }
    proof {
        assert(w@.take(w.len() as int) =~= w@);
    }
    r
}

/// The display name derived from a tool id.
pub fn humanize_tool_name(name: &str) -> (r: String)
    ensures
        r@ == humanized(name@),
{
    let v = chars_of(name);
    let mut words: Vec<Vec<char>> = Vec::new();
    let mut cur: Vec<char> = Vec::new();
    let mut i: usize = 0;
    while i < v.len()
        invariant
            i <= v.len(),
            v@ == name@,
            underscore_words_state(v@.take(i as int)) == (words@.map_values(
                |w: Vec<char>| w@,
            ), cur@),
        decreases v.len() - i,
    {
        proof {
            assert(v@.take(i + 1).drop_last() =~= v@.take(i as int));
        }
        if v[i] == '_' {
            if cur.len() > 0 {
                let ghost old_words = words@;
                words.push(cur);
                cur = Vec::new();
                proof {
                    assert(words@.map_values(|w: Vec<char>| w@) =~= old_words.map_values(
                        |w: Vec<char>| w@,
                    ).push(words@.last()@));
                }
            }
        } else {
            cur.push(v[i]);
        }
        i = i + 1;
    }
    proof {
        assert(v@.take(v.len() as int) =~= v@);
    }
    if cur.len() > 0 {
        let ghost old_words = words@;
        words.push(cur);
        proof {
            assert(words@.map_values(|w: Vec<char>| w@) =~= old_words.map_values(
                |w: Vec<char>| w@,
            ).push(words@.last()@));
        }
    }
    let ghost word_views = words@.map_values(|w: Vec<char>| w@);
    assert(word_views == underscore_words(name@));
    let mut r = String::new();
    let mut k: usize = 0;
    while k < words.len()
        invariant
            k <= words.len(),
            word_views == words@.map_values(|w: Vec<char>| w@),
            r@ == join(word_views.take(k as int).map_values(|w: Seq<char>| capitalize(w)), " "@),
        decreases words.len() - k,
    {
        if k > 0 {
            push_char(&mut r, ' ');
        }
        let piece = capitalize_chars(&words[k]);
        push_str(&mut r, piece.as_str());
        proof {
            let a = word_views.take(k + 1).map_values(|w: Seq<char>| capitalize(w));
            assert(a.drop_last() =~= word_views.take(k as int).map_values(
                |w: Seq<char>| capitalize(w),
            ));
            assert(a.last() == capitalize(words@[k as int]@));
            if k == 0 {
                assert(r@ =~= a[0]);
            } else {
                reveal_strlit(" ");
                assert(" "@ =~= seq![' ']);
            }
        }
        k = k + 1;
    }
    proof {
        assert(word_views.take(words.len() as int) =~= word_views);
    }
    r
}

// ---------------------------------------------------------------------------
// Manifest metadata
// ---------------------------------------------------------------------------

#[derive(Debug, Clone, PartialEq)]
pub struct ToolManifestMetadata {
    pub id: String,
    pub display_name: String,
    pub description: String,
    pub input_schema: serde_json::Value,
    pub family: ToolFamily,
    pub stability: ToolStability,
    pub prompt: ToolPromptProfile,
    pub io: Option<ToolIoProfile>,
    pub ui: Option<ToolUiProfile>,
    pub context: Option<ToolContextProfile>,
    pub permissions: Option<ToolPermissionProfile>,
    pub storage: Option<ToolStorageProfile>,
    pub observability: Option<ToolObservabilityProfile>,
}

impl ToolManifestMetadata {
    /// Metadata for a tool known only by id, description and schema: the
    /// display name is derived from the id, the family is `Other`, the
    /// stability `Stable`, and no optional profile is set.
    pub fn legacy(id: &str, description: &str, input_schema: serde_json::Value) -> (r: Self)
        ensures
            r.id@ == id@,
            r.display_name@ == humanized(id@),
            r.description@ == description@,
            r.input_schema == input_schema,
            r.family == ToolFamily::Other,
            r.stability == ToolStability::Stable,
            r.prompt.summary@ == description@,
            r.prompt.fallback_to@.len() == 0,
            r.io.is_none(),
            r.ui.is_none(),
            r.context.is_none(),
            r.permissions.is_none(),
            r.storage.is_none(),
            r.observability.is_none(),
    {
        ToolManifestMetadata {
            id: id.to_owned(),
            display_name: humanize_tool_name(id),
            description: description.to_owned(),
            input_schema,
            family: ToolFamily::Other,
            stability: ToolStability::Stable,
            prompt: ToolPromptProfile::from_summary(description),
            io: None,
            ui: None,
            context: None,
            permissions: None,
            storage: None,
            observability: None,
        }
    }

    /// The `{ "name", "description", "input_schema" }` object of a tool.
    pub open spec fn schema_value(self) -> serde_json::Value {
        json_object_value(
            seq![
                ("name"@, json_string_value(self.id@)),
                ("description"@, json_string_value(self.description@)),
                ("input_schema"@, self.input_schema),
            ],
        )
    }

    /// The `{ "name", "description", "input_schema" }` object of this tool.
    pub fn to_schema_value(&self) -> (r: serde_json::Value)
        ensures
            r == self.schema_value(),
    {
        let mut entries: Vec<(String, serde_json::Value)> = Vec::new();
        entries.push(("name".to_owned(), json_string(self.id.clone())));
        entries.push(("description".to_owned(), json_string(self.description.clone())));
        entries.push(("input_schema".to_owned(), self.input_schema.clone()));
        proof {
            assert(entry_views(entries@) =~= seq![
                ("name"@, json_string_value(self.id@)),
                ("description"@, json_string_value(self.description@)),
                ("input_schema"@, self.input_schema),
            ]);
        }
        json_object(entries)
    }

    pub fn with_family(self, family: ToolFamily) -> (r: Self)
        ensures
            r == (Self { family, ..self }),
    {
        let mut s = self;
        s.family = family;
        s
    }

    pub fn with_stability(self, stability: ToolStability) -> (r: Self)
        ensures
            r == (Self { stability, ..self }),
    {
        let mut s = self;
        s.stability = stability;
        s
    }

    pub fn with_prompt_profile(self, prompt: ToolPromptProfile) -> (r: Self)
        ensures
            r == (Self { prompt, ..self }),
    {
        let mut s = self;
        s.prompt = prompt;
        s
    }

    pub fn with_ui(self, ui: ToolUiProfile) -> (r: Self)
        ensures
            r == (Self { ui: Some(ui), ..self }),
    {
        let mut s = self;
        s.ui = Some(ui);
        s
    }

    pub fn with_context(self, context: ToolContextProfile) -> (r: Self)
        ensures
            r == (Self { context: Some(context), ..self }),
    {
        let mut s = self;
        s.context = Some(context);
        s
    }

    pub fn with_permissions(self, permissions: ToolPermissionProfile) -> (r: Self)
        ensures
            r == (Self { permissions: Some(permissions), ..self }),
    {
        let mut s = self;
        s.permissions = Some(permissions);
        s
    }

    pub fn with_storage(self, storage: ToolStorageProfile) -> (r: Self)
        ensures
            r == (Self { storage: Some(storage), ..self }),
    {
        let mut s = self;
        s.storage = Some(storage);
        s
    }

    pub fn with_observability(self, observability: ToolObservabilityProfile) -> (r: Self)
        ensures
            r == (Self { observability: Some(observability), ..self }),
    {
        let mut s = self;
        s.observability = Some(observability);
        s
    }
}

// ---------------------------------------------------------------------------
// Errors and remediation
// ---------------------------------------------------------------------------

#[derive(Debug, Clone, Copy, PartialEq, Eq, Structural)]
pub enum ToolErrorKind {
    UnknownTool,
    Validation,
    Policy,
    Execution,
    Timeout,
}

impl ToolErrorKind {
    pub open spec fn spec_name(self) -> Seq<char> {
        match self {
            ToolErrorKind::UnknownTool => "unknown_tool"@,
            ToolErrorKind::Validation => "validation"@,
            ToolErrorKind::Policy => "policy"@,
            ToolErrorKind::Execution => "execution"@,
            ToolErrorKind::Timeout => "timeout"@,
        }
    }

    /// The snake_case name of the error kind.
    pub fn as_str(self) -> (r: &'static str)
        ensures
            r@ == self.spec_name(),
    {
        match self {
            ToolErrorKind::UnknownTool => "unknown_tool",
            ToolErrorKind::Validation => "validation",
            ToolErrorKind::Policy => "policy",
            ToolErrorKind::Execution => "execution",
            ToolErrorKind::Timeout => "timeout",
        }
    }
}

#[derive(Debug, Clone, Copy, PartialEq, Eq, Structural)]
pub enum ToolRemediationKind {
    ChooseKnownTool,
    AdjustInput,
    UseAllowedAlternative,
    RetryOrFallback,
    RetryNarrower,
}

impl ToolRemediationKind {
    pub open spec fn spec_name(self) -> Seq<char> {
        match self {
            ToolRemediationKind::ChooseKnownTool => "choose_known_tool"@,
            ToolRemediationKind::AdjustInput => "adjust_input"@,
            ToolRemediationKind::UseAllowedAlternative => "use_allowed_alternative"@,
            ToolRemediationKind::RetryOrFallback => "retry_or_fallback"@,
            ToolRemediationKind::RetryNarrower => "retry_narrower"@,
        }
    }

    /// The snake_case name of the remediation kind.
    pub fn as_str(self) -> (r: &'static str)
        ensures
            r@ == self.spec_name(),
    {
        match self {
            ToolRemediationKind::ChooseKnownTool => "choose_known_tool",
            ToolRemediationKind::AdjustInput => "adjust_input",
            ToolRemediationKind::UseAllowedAlternative => "use_allowed_alternative",
            ToolRemediationKind::RetryOrFallback => "retry_or_fallback",
            ToolRemediationKind::RetryNarrower => "retry_narrower",
        }
    }
}

#[derive(Debug, Clone, PartialEq, Eq)]
pub struct ToolRemediation {
    pub kind: ToolRemediationKind,
    pub suggestion: String,
    pub alternative_tools: Vec<String>,
    pub recoverable: bool,
}

/// The remediation kind for each error kind.
pub open spec fn remediation_kind_for(kind: ToolErrorKind) -> ToolRemediationKind {
    match kind {
        ToolErrorKind::UnknownTool => ToolRemediationKind::ChooseKnownTool,
        ToolErrorKind::Validation => ToolRemediationKind::AdjustInput,
        ToolErrorKind::Policy => ToolRemediationKind::UseAllowedAlternative,
        ToolErrorKind::Execution => ToolRemediationKind::RetryOrFallback,
        ToolErrorKind::Timeout => ToolRemediationKind::RetryNarrower,
    }
}

pub open spec fn unknown_tool_advice() -> Seq<char> {
    "Re-check the requested tool name against the visible tool list, then call the closest matching known tool."@
}

pub open spec fn validation_advice() -> Seq<char> {
    "Adjust the tool input to satisfy the schema and retry the same tool with only the required, well-typed fields."@
}

pub open spec fn policy_advice() -> Seq<char> {
    "Do not retry this tool in the current step. Switch to an allowed visible tool or continue without this action."@
}

pub open spec fn execution_advice() -> Seq<char> {
    "Retry with narrower scope or corrected inputs. If the same operation keeps failing, switch to a safer fallback tool."@
}

pub open spec fn timeout_advice() -> Seq<char> {
    "Reduce the request scope or output size and retry. Prefer a narrower tool or a fallback that returns less data."@
}

/// Where remediation advice comes from: the prompt and permission profiles
/// of the failing tool, when it is registered.
pub type AdviceSource = Option<(ToolPromptProfile, Option<ToolPermissionProfile>)>;

/// The advice source of an optional manifest.
pub open spec fn advice_of(manifest: Option<ToolManifestMetadata>) -> AdviceSource {
    match manifest {
        Some(m) => Some((m.prompt, m.permissions)),
        None => None,
    }
}

/// The denial remediation that a permission profile carries.
pub open spec fn denial_of(src: AdviceSource) -> Option<Seq<char>> {
    match src {
        Some((_, Some(p))) => match p.denial_remediation {
            Some(d) => Some(d@),
            None => None,
        },
        _ => None,
    }
}

/// The suggestion text of a remediation.
pub open spec fn suggestion_for(src: AdviceSource, kind: ToolErrorKind) -> Seq<char> {
    match kind {
        ToolErrorKind::UnknownTool => unknown_tool_advice(),
        ToolErrorKind::Validation => validation_advice(),
        ToolErrorKind::Policy => match denial_of(src) {
            Some(d) => d,
            None => policy_advice(),
        },
        ToolErrorKind::Execution => execution_advice(),
        ToolErrorKind::Timeout => timeout_advice(),
    }
}

/// The tools of `known` other than `name`, in order.
pub open spec fn others(known: Seq<Seq<char>>, name: Seq<char>) -> Seq<Seq<char>>
    decreases known.len(),
{
    if known.len() == 0 {
        Seq::empty()
    } else if known.last() == name {
        others(known.drop_last(), name)
    } else {
        others(known.drop_last(), name).push(known.last())
    }
}

/// At most the first `n` elements of `s`.
pub open spec fn at_most<A>(s: Seq<A>, n: nat) -> Seq<A> {
    if s.len() <= n {
        s
    } else {
        s.take(n as int)
    }
}

/// The alternative tools of a remediation: the tool's fallback tools when it
/// names some; otherwise, for an unknown tool, up to five other known tools;
/// otherwise none.
pub open spec fn alternatives_for(
    name: Seq<char>,
    src: AdviceSource,
    kind: ToolErrorKind,
    known: Seq<Seq<char>>,
) -> Seq<Seq<char>> {
    match src {
        Some((p, _)) if p.fallback_to@.len() > 0 => views(p.fallback_to@),
        _ => if kind == ToolErrorKind::UnknownTool {
            at_most(others(known, name), 5)
        } else {
            Seq::empty()
        },
    }
}

/// Whether `r` is the remediation for a failure of tool `name`.
pub open spec fn is_remediation_for(
    r: ToolRemediation,
    name: Seq<char>,
    src: AdviceSource,
    kind: ToolErrorKind,
    known: Seq<Seq<char>>,
) -> bool {
    &&& r.kind == remediation_kind_for(kind)
    &&& r.suggestion@ == suggestion_for(src, kind)
    &&& views(r.alternative_tools@) == alternatives_for(name, src, kind, known)
    &&& r.recoverable
}

pub open spec fn str_views(s: Seq<&str>) -> Seq<Seq<char>> {
    s.map_values(|x: &str| x@)
}

fn clone_strings(v: &Vec<String>) -> (r: Vec<String>)
    ensures
        views(r@) == views(v@),
{
    let mut r: Vec<String> = Vec::new();
    let mut i: usize = 0;
    while i < v.len()
        invariant
            i <= v.len(),
            views(r@) == views(v@.take(i as int)),
        decreases v.len() - i,
    {
        let c = v[i].clone();
        let ghost before = r@;
        r.push(c);
        proof {
            assert(views(r@) =~= views(before).push(v@[i as int]@));
            assert(views(v@.take(i + 1)) =~= views(v@.take(i as int)).push(v@[i as int]@));
        }
        i = i + 1;
    }
    proof {
        assert(v@.take(v.len() as int) =~= v@);
    }
    r
}

fn other_tools(name: &str, known_tools: &[&str]) -> (r: Vec<String>)
    ensures
        views(r@) == at_most(others(str_views(known_tools@), name@), 5),
{
    let target = chars_of(name);
    let mut all: Vec<String> = Vec::new();
    let mut i: usize = 0;
    while i < known_tools.len()
        invariant
            i <= known_tools.len(),
            target@ == name@,
            views(all@) == others(str_views(known_tools@.take(i as int)), name@),
        decreases known_tools.len() - i,
    {
        let cand = chars_of(known_tools[i]);
        proof {
            let t = str_views(known_tools@.take(i + 1));
            assert(t.drop_last() =~= str_views(known_tools@.take(i as int)));
            assert(t.last() == known_tools@[i as int]@);
        }
        if !chars_eq(&cand, &target) {
            all.push(string_of(cand.as_slice()));
            proof {
                assert(views(all@) =~= views(all@.drop_last()).push(cand@));
            }
        }
        i = i + 1;
    }
    proof {
        assert(known_tools@.take(known_tools.len() as int) =~= known_tools@);
    }
    let ghost full = views(all@);
    if all.len() <= 5 {
        all
    } else {
        let mut r: Vec<String> = Vec::new();
        let mut k: usize = 0;
        while k < 5
            invariant
                k <= 5,
                5 < all.len(),
                full == views(all@),
                views(r@) == full.take(k as int),
            decreases 5 - k,
        {
            let c = all[k].clone();
            let ghost before = r@;
            r.push(c);
            proof {
                assert(views(r@) =~= views(before).push(full[k as int]));
                assert(full.take(k + 1) =~= full.take(k as int).push(full[k as int]));
            }
            k = k + 1;
        }
        r
    }
}

/// The remediation advice for a failure of tool `name`, given its manifest
/// (when it is registered) and the sorted names of the registered tools.
pub fn build_tool_remediation(
    name: &str,
    manifest: Option<&ToolManifestMetadata>,
    error_kind: ToolErrorKind,
    known_tools: &[&str],
) -> (r: ToolRemediation)
    ensures
        is_remediation_for(
            r,
            name@,
            advice_of(
                match manifest {
                    Some(m) => Some(*m),
                    None => None,
                },
            ),
            error_kind,
            str_views(known_tools@),
        ),
{
    let ghost m = advice_of(
        match manifest {
            Some(m) => Some(*m),
            None => None::<ToolManifestMetadata>,
        },
    );
    let fallback: Option<Vec<String>> = match manifest {
        Some(md) => if md.prompt.fallback_to.len() > 0 {
            Some(clone_strings(&md.prompt.fallback_to))
        } else {
            None
        },
        None => None,
    };
    let alternative_tools = match fallback {
        Some(tools) => tools,
        None => {
            if error_kind == ToolErrorKind::UnknownTool {
                other_tools(name, known_tools)
            } else {
                Vec::new()
            }
        },
    };
    proof {
        assert(views(alternative_tools@) == alternatives_for(
            name@,
            m,
            error_kind,
            str_views(known_tools@),
        ));
    }
    let (kind, suggestion) = match error_kind {
        ToolErrorKind::UnknownTool => (
            ToolRemediationKind::ChooseKnownTool,
            "Re-check the requested tool name against the visible tool list, then call the closest matching known tool.".to_owned(),
        ),
        ToolErrorKind::Validation => (
            ToolRemediationKind::AdjustInput,
            "Adjust the tool input to satisfy the schema and retry the same tool with only the required, well-typed fields.".to_owned(),
        ),
        ToolErrorKind::Policy => {
            let denial: Option<String> = match manifest {
                Some(md) => match &md.permissions {
                    Some(p) => match &p.denial_remediation {
                        Some(d) => Some(d.clone()),
                        None => None,
                    },
                    None => None,
                },
                None => None,
            };
            match denial {
                Some(d) => (ToolRemediationKind::UseAllowedAlternative, d),
                None => (
                    ToolRemediationKind::UseAllowedAlternative,
                    "Do not retry this tool in the current step. Switch to an allowed visible tool or continue without this action.".to_owned(),
                ),
            }
        },
        ToolErrorKind::Execution => (
            ToolRemediationKind::RetryOrFallback,
            "Retry with narrower scope or corrected inputs. If the same operation keeps failing, switch to a safer fallback tool.".to_owned(),
        ),
        ToolErrorKind::Timeout => (
            ToolRemediationKind::RetryNarrower,
            "Reduce the request scope or output size and retry. Prefer a narrower tool or a fallback that returns less data.".to_owned(),
        ),
    };
    ToolRemediation { kind, suggestion, alternative_tools, recoverable: true }
}

// ---------------------------------------------------------------------------
// Tool results
// ---------------------------------------------------------------------------

#[derive(Debug, Clone, PartialEq)]
pub struct ToolResult {
    pub output: String,
    pub preview: Option<String>,
    pub metadata: serde_json::Value,
    pub truncated: bool,
    pub error_kind: Option<ToolErrorKind>,
    pub remediation: Option<ToolRemediation>,
}

impl ToolResult {
    /// A successful result: the output and an empty metadata object, nothing
    /// else.
    pub fn success(output: &str) -> (r: Self)
        ensures
            r.output@ == output@,
            r.preview.is_none(),
            json_is_empty_object(r.metadata),
            !json_is_null(r.metadata),
            !r.truncated,
            r.error_kind.is_none(),
            r.remediation.is_none(),
    {
        ToolResult {
            output: output.to_owned(),
            preview: None,
            metadata: json_empty_object(),
            truncated: false,
            error_kind: None,
            remediation: None,
        }
    }

    /// `success(output)` with the error kind set.
    pub fn error(output: &str, error_kind: ToolErrorKind) -> (r: Self)
        ensures
            r.output@ == output@,
            r.preview.is_none(),
            json_is_empty_object(r.metadata),
            !json_is_null(r.metadata),
            !r.truncated,
            r.error_kind == Some(error_kind),
            r.remediation.is_none(),
    {
        Self::success(output).with_error_kind(error_kind)
    }

    pub fn with_preview(self, preview: &str) -> (r: Self)
        ensures
            r.preview.is_some(),
            r.preview.unwrap()@ == preview@,
            r.output == self.output,
            r.metadata == self.metadata,
            r.truncated == self.truncated,
            r.error_kind == self.error_kind,
            r.remediation == self.remediation,
    {
        let mut s = self;
        s.preview = Some(preview.to_owned());
        s
    }

    pub fn with_optional_preview(self, preview: Option<String>) -> (r: Self)
        ensures
            r == (Self { preview, ..self }),
    {
        let mut s = self;
        s.preview = preview;
        s
    }

    pub fn with_metadata(self, metadata: serde_json::Value) -> (r: Self)
        ensures
            r == (Self { metadata, ..self }),
    {
        let mut s = self;
        s.metadata = metadata;
        s
    }

    pub fn with_truncated(self, truncated: bool) -> (r: Self)
        ensures
            r == (Self { truncated, ..self }),
    {
        let mut s = self;
        s.truncated = truncated;
        s
    }

    pub fn with_error_kind(self, error_kind: ToolErrorKind) -> (r: Self)
        ensures
            r == (Self { error_kind: Some(error_kind), ..self }),
    {
        let mut s = self;
        s.error_kind = Some(error_kind);
        s
    }

    pub fn with_remediation(self, remediation: ToolRemediation) -> (r: Self)
        ensures
            r == (Self { remediation: Some(remediation), ..self }),
    {
        let mut s = self;
        s.remediation = Some(remediation);
        s
    }

    pub open spec fn spec_is_error(self) -> bool {
        self.error_kind.is_some() || starts_with(self.output@, "Error:"@)
    }

    /// Whether the result reports a failure: it carries an error kind, or its
    /// output starts with `Error:`.
    pub fn is_error(&self) -> (r: bool)
        ensures
            r == self.spec_is_error(),
    {
        self.error_kind.is_some() || str_starts_with(self.output.as_str(), "Error:")
    }

    pub open spec fn spec_has_metadata(self) -> bool {
        !json_is_empty_object(self.metadata) && !json_is_null(self.metadata)
    }

    /// Whether the metadata is neither `null` nor an empty object.
    pub fn has_metadata(&self) -> (r: bool)
        ensures
            r == self.spec_has_metadata(),
    {
        !json_empty_object_test(&self.metadata) && !json_null_test(&self.metadata)
    }

    pub open spec fn spec_is_plain_content(self) -> bool {
        &&& self.preview.is_none()
        &&& !self.spec_has_metadata()
        &&& !self.truncated
        &&& self.error_kind.is_none()
        &&& self.remediation.is_none()
    }

    /// Whether the result is sent to the model as its bare output string:
    /// no preview, no metadata, not truncated, no error kind, no remediation.
    /// Otherwise the whole result is serialized.
    pub fn is_plain_content(&self) -> (r: bool)
        ensures
            r == self.spec_is_plain_content(),
    {
        self.preview.is_none() && !self.has_metadata() && !self.truncated
            && self.error_kind.is_none() && self.remediation.is_none()
    }
}

} // verus!
