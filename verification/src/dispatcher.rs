//! The registry that routes tool calls by name to their handlers, resolves
//! compatibility aliases and fills in remediation advice on failures.
use vstd::prelude::*;

use crate::chars::{chars_eq, chars_of, concat2, is_blank, lex_le, str_eq, trim, views};
use crate::order::{is_index_perm, lists, sorted_by, sorted_order};
use crate::outside::{json_is_empty_object, json_is_null};
use crate::tools::{
    build_tool_remediation, humanize_tool_name, humanized, is_remediation_for, str_views, AdviceSource,
    ToolContextProfile, ToolErrorKind, ToolFamily, ToolIoProfile, ToolManifestMetadata,
    ToolObservabilityProfile, ToolPermissionProfile, ToolPromptProfile, ToolRemediation,
    ToolResult, ToolStability, ToolStorageProfile, ToolUiProfile,
};

verus! {

/// Whether `t` is a successful result and nothing more: no preview, an
/// empty metadata object, not truncated, no error kind, no remediation.
pub open spec fn is_plain_success(t: ToolResult) -> bool {
    &&& t.preview.is_none()
    &&& json_is_empty_object(t.metadata)
    &&& !json_is_null(t.metadata)
    &&& !t.truncated
    &&& t.error_kind.is_none()
    &&& t.remediation.is_none()
}

/// A tool that the model can invoke during the agent loop. Each handler
/// declares its name, description and input schema, then executes when the
/// dispatcher routes a call to it. An implementation may say what it is
/// named and what it returns through the spec functions below; one that
/// says nothing allows anything.
pub trait ToolHandler {
    /// Whether the handler may be named `name`.
    closed spec fn is_named(&self, name: Seq<char>) -> bool {
        true
    }

    /// Whether the handler may describe itself as `description`.
    closed spec fn is_described(&self, description: Seq<char>) -> bool {
        true
    }

    /// Whether the handler may give `schema` as its input schema.
    closed spec fn has_schema(&self, schema: serde_json::Value) -> bool {
        true
    }

    /// Whether `r` is a possible text result of running the tool on `input`.
    closed spec fn text_outcome(&self, input: serde_json::Value, r: anyhow::Result<String>) -> bool {
        true
    }

    /// Whether `r` is a possible typed result of running the tool on `input`.
    closed spec fn typed_outcome(&self, input: serde_json::Value, r: anyhow::Result<ToolResult>) -> bool {
        true
    }

    /// Unique tool name as seen by the model.
    fn name(&self) -> (r: &str)
        ensures
            self.is_named(r@),
    ;

    /// Short human-readable description shown to the model.
    fn description(&self) -> (r: &str)
        ensures
            self.is_described(r@),
    ;

    /// JSON Schema object describing the tool's input parameters.
    fn input_schema(&self) -> (r: serde_json::Value)
        ensures
            self.has_schema(r),
    ;

    /// Executes the tool with the given input and returns a text result.
    fn execute(&self, input: serde_json::Value) -> (r: anyhow::Result<String>)
        ensures
            self.text_outcome(input, r),
    ;

    /// Executes the tool with a typed result. The default wraps the text
    /// output of `execute` into a successful result (no preview, empty
    /// metadata, not truncated, no error kind and no remediation) and
    /// passes its error on.
    fn execute_v2(&self, input: serde_json::Value) -> (r: anyhow::Result<ToolResult>)
        ensures
            self.typed_outcome(input, r) || (match r {
                Ok(t) => exists|s: String| #[trigger] self.text_outcome(input, Ok(s)) && t.output@ == s@,
                Err(e) => self.text_outcome(input, Err(e)),
            }),
        default_ensures
            (match r {
                Ok(t) => exists|s: String| #[trigger] self.text_outcome(input, Ok(s)) && t.output@ == s@,
                Err(e) => self.text_outcome(input, Err(e)),
            }),
            r matches Ok(t) ==> is_plain_success(t),
    {
        match self.execute(input) {
            Ok(text) => {
                let res = ToolResult::success(text.as_str());
                assert(self.text_outcome(input, Ok(text)));
                Ok(res)
            },
            Err(e) => Err(e),
        }
    }
}

/// Whether `m` is the bare manifest of a handler with that name and
/// description: named after it, described by its description, family
/// `Other`, stability `Stable`, and no other profile.
pub open spec fn is_legacy_of(m: ToolManifest, name: Seq<char>, description: Seq<char>) -> bool {
    &&& m.id@ == name
    &&& m.display_name@ == humanized(m.id@)
    &&& m.family == ToolFamily::Other
    &&& m.stability == ToolStability::Stable
    &&& m.prompt.summary@ == description
    &&& m.prompt.when_to_use@.len() == 0
    &&& m.prompt.when_not_to_use@.len() == 0
    &&& m.prompt.prefer_over@.len() == 0
    &&& m.prompt.fallback_to@.len() == 0
    &&& m.prompt.examples@.len() == 0
    &&& m.prompt.anti_patterns@.len() == 0
    &&& m.io.is_none()
    &&& m.ui.is_none()
    &&& m.context.is_none()
    &&& m.permissions.is_none()
    &&& m.storage.is_none()
    &&& m.observability.is_none()
}

/// A registered tool: its descriptive profile and its handler.
pub struct ToolManifest {
    pub id: String,
    pub display_name: String,
    pub family: ToolFamily,
    pub stability: ToolStability,
    pub prompt: ToolPromptProfile,
    pub io: Option<ToolIoProfile>,
    pub ui: Option<ToolUiProfile>,
    pub context: Option<ToolContextProfile>,
    pub permissions: Option<ToolPermissionProfile>,
    pub storage: Option<ToolStorageProfile>,
    pub observability: Option<ToolObservabilityProfile>,
    pub handler: Box<dyn ToolHandler>,
}

impl ToolManifest {
    pub fn new(
        id: &str,
        display_name: &str,
        family: ToolFamily,
        stability: ToolStability,
        prompt: ToolPromptProfile,
        handler: Box<dyn ToolHandler>,
    ) -> (r: Self)
        ensures
            r.id@ == id@,
            r.display_name@ == display_name@,
            r.family == family,
            r.stability == stability,
            r.prompt == prompt,
            r.io.is_none(),
            r.ui.is_none(),
            r.context.is_none(),
            r.permissions.is_none(),
            r.storage.is_none(),
            r.observability.is_none(),
    {
        ToolManifest {
            id: id.to_owned(),
            display_name: display_name.to_owned(),
            family,
            stability,
            prompt,
            io: None,
            ui: None,
            context: None,
            permissions: None,
            storage: None,
            observability: None,
            handler,
        }
    }

    /// A manifest for a bare handler: its id is the handler's name, its
    /// display name is derived from the id, its prompt summary is the
    /// handler's description, family `Other`, stability `Stable`.
    pub fn legacy(handler: Box<dyn ToolHandler>) -> (r: Self)
        ensures
            handler.is_named(r.id@),
            handler.is_described(r.prompt.summary@),
            is_legacy_of(r, r.id@, r.prompt.summary@),
    {
        let id = handler.name().to_owned();
        let description = handler.description().to_owned();
        Self::bare(id.as_str(), description.as_str(), handler)
    }

    /// The bare manifest of a handler, from the name and description it
    /// gave.
    fn bare(id: &str, description: &str, handler: Box<dyn ToolHandler>) -> (r: Self)
        ensures
            is_legacy_of(r, id@, description@),
    {
        let display = humanize_tool_name(id);
        let prompt = ToolPromptProfile::from_summary(description);
        Self::new(id, display.as_str(), ToolFamily::Other, ToolStability::Stable, prompt, handler)
    }

    pub fn with_io(self, io: ToolIoProfile) -> (r: Self)
        ensures
            r == (Self { io: Some(io), ..self }),
    {
        let mut s = self;
        s.io = Some(io);
        s
    }

    pub fn with_ui(self, ui: ToolUiProfile) -> (r: Self)
        ensures
            r == (Self { ui: Some(ui), ..self }),
    {
        let mut s = self;
        s.ui = Some(ui);
        s
    }

    pub fn with_context(self, context: ToolContextProfile) -> (r: Self)
        ensures
            r == (Self { context: Some(context), ..self }),
    {
        let mut s = self;
        s.context = Some(context);
        s
    }

    pub fn with_permissions(self, permissions: ToolPermissionProfile) -> (r: Self)
        ensures
            r == (Self { permissions: Some(permissions), ..self }),
    {
        let mut s = self;
        s.permissions = Some(permissions);
        s
    }

    pub fn with_storage(self, storage: ToolStorageProfile) -> (r: Self)
        ensures
            r == (Self { storage: Some(storage), ..self }),
    {
        let mut s = self;
        s.storage = Some(storage);
        s
    }

    pub fn with_observability(self, observability: ToolObservabilityProfile) -> (r: Self)
        ensures
            r == (Self { observability: Some(observability), ..self }),
    {
        let mut s = self;
        s.observability = Some(observability);
        s
    }

    /// Whether `md` carries this manifest's descriptive fields (its
    /// description and input schema come from the handler).
    pub open spec fn describes(self, md: ToolManifestMetadata) -> bool {
        &&& md.id == self.id
        &&& md.display_name == self.display_name
        &&& md.family == self.family
        &&& md.stability == self.stability
        &&& md.prompt.same_as(self.prompt)
        &&& md.io == self.io
        &&& match (md.ui, self.ui) {
            (Some(a), Some(b)) => a.same_as(b),
            (None, None) => true,
            _ => false,
        }
        &&& md.context == self.context
        &&& md.permissions == self.permissions
        &&& md.storage == self.storage
        &&& md.observability == self.observability
        &&& self.handler.is_described(md.description@)
        &&& self.handler.has_schema(md.input_schema)
    }

    /// The manifest's metadata, with the handler's description and schema.
    pub fn metadata(&self) -> (r: ToolManifestMetadata)
        ensures
            self.describes(r),
    {
        ToolManifestMetadata {
            id: self.id.clone(),
            display_name: self.display_name.clone(),
            description: self.handler.description().to_owned(),
            input_schema: self.handler.input_schema(),
            family: self.family,
            stability: self.stability,
            prompt: self.prompt.copied(),
            io: match &self.io { Some(x) => Some(x.copied()), None => None },
            ui: match &self.ui { Some(x) => Some(x.copied()), None => None },
            context: match &self.context { Some(x) => Some(x.copied()), None => None },
            permissions: match &self.permissions { Some(x) => Some(x.copied()), None => None },
            storage: match &self.storage { Some(x) => Some(x.copied()), None => None },
            observability: match &self.observability { Some(x) => Some(x.copied()), None => None },
        }
    }

}

/// Why an alias could not be registered.
#[derive(Debug, Clone, PartialEq, Eq)]
pub enum ToolAliasError {
    EmptyAlias,
    EmptyTarget,
    SelfTarget(String),
    ConflictsWithTool(String),
    UnknownTarget(String, String),
}

impl ToolAliasError {
    /// The message that describes the refusal.
    pub fn message(&self) -> (r: String)
        ensures
            match self {
                ToolAliasError::EmptyAlias => r@ == "tool alias must be non-empty"@,
                ToolAliasError::EmptyTarget => r@ == "tool alias target must be non-empty"@,
                ToolAliasError::SelfTarget(a) => r@ == "tool alias '"@ + a@
                    + "' cannot target itself"@,
                ToolAliasError::ConflictsWithTool(a) => r@ == "tool alias '"@ + a@
                    + "' conflicts with a registered tool id"@,
                ToolAliasError::UnknownTarget(a, t) => r@ == "tool alias '"@ + a@
                    + "' targets unknown tool '"@ + t@ + "'"@,
            },
    {
        match self {
            ToolAliasError::EmptyAlias => "tool alias must be non-empty".to_owned(),
            ToolAliasError::EmptyTarget => "tool alias target must be non-empty".to_owned(),
            ToolAliasError::SelfTarget(a) => {
                let s = concat2("tool alias '", a.as_str());
                concat2(s.as_str(), "' cannot target itself")
            },
            ToolAliasError::ConflictsWithTool(a) => {
                let s = concat2("tool alias '", a.as_str());
                concat2(s.as_str(), "' conflicts with a registered tool id")
            },
            ToolAliasError::UnknownTarget(a, t) => {
                let s = concat2("tool alias '", a.as_str());
                let s = concat2(s.as_str(), "' targets unknown tool '");
                let s = concat2(s.as_str(), t.as_str());
                concat2(s.as_str(), "'")
            },
        }
    }
}

/// The map from tool id to manifest that a list of manifests denotes.
pub open spec fn manifest_map(s: Seq<ToolManifest>) -> Map<Seq<char>, ToolManifest>
    decreases s.len(),
{
    if s.len() == 0 {
        Map::empty()
    } else {
        manifest_map(s.drop_last()).insert(s.last().id@, s.last())
    }
}

/// The map from alias to target that a list of pairs denotes.
pub open spec fn alias_map(s: Seq<(String, String)>) -> Map<Seq<char>, Seq<char>>
    decreases s.len(),
{
    if s.len() == 0 {
        Map::empty()
    } else {
        alias_map(s.drop_last()).insert(s.last().0@, s.last().1@)
    }
}

pub open spec fn unique_ids(s: Seq<ToolManifest>) -> bool {
    forall|a: int, b: int| 0 <= a < b < s.len() ==> s[a].id@ != s[b].id@
}

pub open spec fn unique_aliases(s: Seq<(String, String)>) -> bool {
    forall|a: int, b: int| 0 <= a < b < s.len() ==> s[a].0@ != s[b].0@
}

proof fn lemma_manifest_map_dom(s: Seq<ToolManifest>, k: Seq<char>)
    ensures
        manifest_map(s).contains_key(k) <==> exists|i: int| 0 <= i < s.len() && #[trigger] s[i].id@
            == k,
    decreases s.len(),
{
    if s.len() > 0 {
        lemma_manifest_map_dom(s.drop_last(), k);
        if manifest_map(s.drop_last()).contains_key(k) {
            let i = choose|i: int| 0 <= i < s.len() - 1 && #[trigger] s.drop_last()[i].id@ == k;
            assert(s[i].id@ == k);
        }
        if exists|i: int| 0 <= i < s.len() && #[trigger] s[i].id@ == k {
            let i = choose|i: int| 0 <= i < s.len() && #[trigger] s[i].id@ == k;
            if i < s.len() - 1 {
                assert(s.drop_last()[i].id@ == k);
            }
        }
    }
}

proof fn lemma_manifest_map_at(s: Seq<ToolManifest>, i: int)
    requires
        unique_ids(s),
        0 <= i < s.len(),
    ensures
        manifest_map(s).contains_key(s[i].id@),
        manifest_map(s)[s[i].id@] == s[i],
    decreases s.len(),
{
    if i < s.len() - 1 {
        lemma_manifest_map_at(s.drop_last(), i);
        assert(s.drop_last()[i] == s[i]);
    }
}

proof fn lemma_manifest_map_update(s: Seq<ToolManifest>, i: int, m: ToolManifest)
    requires
        unique_ids(s),
        0 <= i < s.len(),
        s[i].id@ == m.id@,
    ensures
        manifest_map(s.update(i, m)) == manifest_map(s).insert(m.id@, m),
    decreases s.len(),
{
    let t = s.update(i, m);
    if i == s.len() - 1 {
        assert(t.drop_last() =~= s.drop_last());
        assert(manifest_map(t) =~= manifest_map(s).insert(m.id@, m));
    } else {
        lemma_manifest_map_update(s.drop_last(), i, m);
        assert(t.drop_last() =~= s.drop_last().update(i, m));
        assert(s.last().id@ != m.id@);
        assert(manifest_map(t) =~= manifest_map(s).insert(m.id@, m));
    }
}

proof fn lemma_alias_map_dom(s: Seq<(String, String)>, k: Seq<char>)
    ensures
        alias_map(s).contains_key(k) <==> exists|i: int| 0 <= i < s.len() && #[trigger] s[i].0@ == k,
    decreases s.len(),
{
    if s.len() > 0 {
        lemma_alias_map_dom(s.drop_last(), k);
        if alias_map(s.drop_last()).contains_key(k) {
            let i = choose|i: int| 0 <= i < s.len() - 1 && #[trigger] s.drop_last()[i].0@ == k;
            assert(s[i].0@ == k);
        }
        if exists|i: int| 0 <= i < s.len() && #[trigger] s[i].0@ == k {
            let i = choose|i: int| 0 <= i < s.len() && #[trigger] s[i].0@ == k;
            if i < s.len() - 1 {
                assert(s.drop_last()[i].0@ == k);
            }
        }
    }
}

proof fn lemma_alias_map_at(s: Seq<(String, String)>, i: int)
    requires
        unique_aliases(s),
        0 <= i < s.len(),
    ensures
        alias_map(s).contains_key(s[i].0@),
        alias_map(s)[s[i].0@] == s[i].1@,
    decreases s.len(),
{
    if i < s.len() - 1 {
        lemma_alias_map_at(s.drop_last(), i);
        assert(s.drop_last()[i] == s[i]);
    }
}

proof fn lemma_manifest_map_finite(s: Seq<ToolManifest>)
    ensures
        manifest_map(s).dom().finite(),
        unique_ids(s) ==> manifest_map(s).dom().len() == s.len(),
    decreases s.len(),
{
    if s.len() > 0 {
        lemma_manifest_map_finite(s.drop_last());
        if unique_ids(s) {
            assert(unique_ids(s.drop_last()));
            lemma_manifest_map_dom(s.drop_last(), s.last().id@);
            if manifest_map(s.drop_last()).contains_key(s.last().id@) {
                let i = choose|i: int|
                    0 <= i < s.len() - 1 && #[trigger] s.drop_last()[i].id@ == s.last().id@;
                assert(s[i].id@ == s[s.len() - 1].id@);
            }
        }
    }
}

/// The ids of a list of metadata records, in list order.
pub open spec fn meta_ids(s: Seq<ToolManifestMetadata>) -> Seq<Seq<char>> {
    s.map_values(|m: ToolManifestMetadata| m.id@)
}

/// The ids of a list of manifests, in list order.
pub open spec fn ids_of(s: Seq<ToolManifest>) -> Seq<Seq<char>> {
    s.map_values(|m: ToolManifest| m.id@)
}

/// `names` holds each key of `m` exactly once, in `str` order.
pub open spec fn sorted_key_list(names: Seq<Seq<char>>, m: Set<Seq<char>>) -> bool {
    &&& forall|j: int| 0 <= j < names.len() ==> m.contains(#[trigger] names[j])
    &&& forall|k: Seq<char>| m.contains(k) ==> #[trigger] names.contains(k)
    &&& forall|a: int, b: int|
        0 <= a < b < names.len() ==> lex_le(#[trigger] names[a], #[trigger] names[b]) && names[a]
            != names[b]
}

/// Routes tool calls to the registered handlers by name.
pub struct ToolDispatcher {
    manifests: Vec<ToolManifest>,
    aliases: Vec<(String, String)>,
}

impl ToolDispatcher {
    /// Tool ids are unique, alias names are unique, and every alias targets a
    /// registered tool.
    #[verifier::type_invariant]
    spec fn wf(self) -> bool {
        &&& unique_ids(self.manifests@)
        &&& unique_aliases(self.aliases@)
        &&& forall|i: int|
            0 <= i < self.aliases@.len() ==> manifest_map(self.manifests@).contains_key(
                #[trigger] self.aliases@[i].1@,
            )
    }

    /// The registered tools, by id.
    pub closed spec fn tools(self) -> Map<Seq<char>, ToolManifest> {
        manifest_map(self.manifests@)
    }

    /// The registered aliases, mapped to their targets.
    pub closed spec fn alias_targets(self) -> Map<Seq<char>, Seq<char>> {
        alias_map(self.aliases@)
    }

    /// The tool id a requested name resolves to: the alias target for an
    /// alias, the name itself otherwise.
    pub open spec fn resolved(self, name: Seq<char>) -> Seq<char> {
        if self.alias_targets().contains_key(name) {
            self.alias_targets()[name]
        } else {
            name
        }
    }

    /// The registered tool a requested name reaches, if any.
    pub open spec fn target_manifest(self, name: Seq<char>) -> Option<ToolManifest> {
        if self.tools().contains_key(self.resolved(name)) {
            Some(self.tools()[self.resolved(name)])
        } else {
            None
        }
    }

    /// The prompt and permission profiles that advice for `name` draws on.
    pub open spec fn advice_source(self, name: Seq<char>) -> AdviceSource {
        match self.target_manifest(name) {
            Some(m) => Some((m.prompt, m.permissions)),
            None => None,
        }
    }

    /// The remediation for a failure of the tool that `name` reaches.
    pub open spec fn is_remediation(
        self,
        r: ToolRemediation,
        name: Seq<char>,
        kind: ToolErrorKind,
    ) -> bool {
        exists|known: Seq<Seq<char>>|
            sorted_key_list(known, self.tools().dom()) && is_remediation_for(
                r,
                self.resolved(name),
                self.advice_source(name),
                kind,
                known,
            )
    }

    /// What the dispatcher makes of a result for tool `name`: an error
    /// result without remediation gets the remediation for its kind.
    pub open spec fn with_defaults_ok(self, name: Seq<char>, before: ToolResult, after: ToolResult) -> bool {
        match before.error_kind {
            Some(kind) if before.remediation.is_none() => {
                &&& after.remediation.is_some()
                &&& self.is_remediation(after.remediation.unwrap(), name, kind)
                &&& after == ToolResult { remediation: after.remediation, ..before }
            },
            _ => after == before,
        }
    }

    /// An empty registry.
    pub fn new() -> (r: Self)
        ensures
            r.tools() == Map::<Seq<char>, ToolManifest>::empty(),
            r.alias_targets() == Map::<Seq<char>, Seq<char>>::empty(),
    {
        ToolDispatcher { manifests: Vec::new(), aliases: Vec::new() }
    }

    fn index_of(&self, id: &Vec<char>) -> (r: Option<usize>)
        ensures
            match r {
                Some(i) => i < self.manifests@.len() && self.manifests@[i as int].id@ == id@,
                None => forall|i: int|
                    0 <= i < self.manifests@.len() ==> #[trigger] self.manifests@[i].id@ != id@,
            },
    {
        let mut i: usize = 0;
        while i < self.manifests.len()
            invariant
                i <= self.manifests@.len(),
                forall|j: int| 0 <= j < i ==> #[trigger] self.manifests@[j].id@ != id@,
            decreases self.manifests.len() - i,
        {
            let cand = chars_of(self.manifests[i].id.as_str());
            if chars_eq(&cand, id) {
                return Some(i);
            }
            i = i + 1;
        }
        None
    }

    fn alias_index(&self, name: &Vec<char>) -> (r: Option<usize>)
        ensures
            match r {
                Some(i) => i < self.aliases@.len() && self.aliases@[i as int].0@ == name@,
                None => forall|i: int|
                    0 <= i < self.aliases@.len() ==> #[trigger] self.aliases@[i].0@ != name@,
            },
    {
        let mut i: usize = 0;
        while i < self.aliases.len()
            invariant
                i <= self.aliases@.len(),
                forall|j: int| 0 <= j < i ==> #[trigger] self.aliases@[j].0@ != name@,
            decreases self.aliases.len() - i,
        {
            let cand = chars_of(self.aliases[i].0.as_str());
            if chars_eq(&cand, name) {
                return Some(i);
            }
            i = i + 1;
        }
        None
    }

    fn contains_tool(&self, name: &str) -> (r: bool)
        ensures
            r == self.tools().contains_key(name@),
    {
        let v = chars_of(name);
        let r = self.index_of(&v);
        proof {
            lemma_manifest_map_dom(self.manifests@, name@);
        }
        r.is_some()
    }

    /// Registers a bare handler under its own name, replacing any tool with
    /// that id.
    pub fn register(&mut self, handler: Box<dyn ToolHandler>)
        ensures
            exists|k: Seq<char>, d: Seq<char>|
                {
                    &&& handler.is_named(k)
                    &&& handler.is_described(d)
                    &&& final(self).tools() == old(self).tools().insert(k, final(self).tools()[k])
                    &&& #[trigger] is_legacy_of(final(self).tools()[k], k, d)
                },
            final(self).alias_targets() == old(self).alias_targets(),
    {
        let id = handler.name().to_owned();
        let description = handler.description().to_owned();
        let m = ToolManifest::bare(id.as_str(), description.as_str(), handler);
        let ghost mm = m;
        self.register_manifest(m);
        assert(self.tools()[mm.id@] == mm);
        assert(is_legacy_of(self.tools()[id@], id@, description@));
    }

    /// Registers a manifest, replacing any tool with the same id.
    pub fn register_manifest(&mut self, manifest: ToolManifest)
        ensures
            final(self).tools() == old(self).tools().insert(manifest.id@, manifest),
            final(self).alias_targets() == old(self).alias_targets(),
    {
        proof {
            use_type_invariant(&*self);
        }
        let id = chars_of(manifest.id.as_str());
        let ghost m = manifest;
        let ghost before = self.manifests@;
        match self.index_of(&id) {
            Some(i) => {
                proof {
                    lemma_manifest_map_update(before, i as int, m);
                }
                let mut whole = ToolDispatcher::new();
                std::mem::swap(&mut whole, self);
                let ToolDispatcher { manifests: mut manifests, aliases } = whole;
                manifests.set(i, manifest);
                proof {
                    assert(manifests@ == before.update(i as int, m));
                    assert forall|a: int, b: int| 0 <= a < b < manifests@.len() implies manifests@[a].id@
                        != manifests@[b].id@ by {
                        assert(before[a].id@ != before[b].id@);
                    }
                    assert forall|j: int| 0 <= j < aliases@.len() implies manifest_map(
                        manifests@,
                    ).contains_key(#[trigger] aliases@[j].1@) by {
                        assert(manifest_map(before).contains_key(aliases@[j].1@));
                    }
                }
                *self = ToolDispatcher { manifests, aliases };
            },
            None => {
                let mut whole = ToolDispatcher::new();
                std::mem::swap(&mut whole, self);
                let ToolDispatcher { manifests: mut manifests, aliases } = whole;
                manifests.push(manifest);
                proof {
                    assert(manifests@ == before.push(m));
                    assert(manifests@.drop_last() =~= before);
                    assert forall|a: int, b: int| 0 <= a < b < manifests@.len() implies manifests@[a].id@
                        != manifests@[b].id@ by {
                        if b == before.len() {
                            assert(before[a].id@ != m.id@);
                        } else {
                            assert(before[a].id@ != before[b].id@);
                        }
                    }
                    assert forall|j: int| 0 <= j < aliases@.len() implies manifest_map(
                        manifests@,
                    ).contains_key(#[trigger] aliases@[j].1@) by {
                        assert(manifest_map(before).contains_key(aliases@[j].1@));
                    }
                }
                *self = ToolDispatcher { manifests, aliases };
            },
        }
    }

    /// Registers a compatibility alias that resolves to an existing tool id
    /// at dispatch time. Refused, in this order, when the alias is blank,
    /// the target is blank, the alias names its own target, the alias is a
    /// registered tool id, or the target is not one.
    pub fn register_alias(&mut self, alias: &str, target: &str) -> (r: Result<(), ToolAliasError>)
        ensures
            trim(alias@).len() == 0 ==> r == Err::<(), ToolAliasError>(ToolAliasError::EmptyAlias),
            trim(alias@).len() != 0 && trim(target@).len() == 0 ==> r == Err::<(), ToolAliasError>(
                ToolAliasError::EmptyTarget,
            ),
            trim(alias@).len() != 0 && trim(target@).len() != 0 && alias@ == target@ ==> (r matches Err(
                ToolAliasError::SelfTarget(a),
            ) && a@ == alias@),
            trim(alias@).len() != 0 && trim(target@).len() != 0 && alias@ != target@
                && old(self).tools().contains_key(alias@) ==> (r matches Err(
                ToolAliasError::ConflictsWithTool(a),
            ) && a@ == alias@),
            trim(alias@).len() != 0 && trim(target@).len() != 0 && alias@ != target@
                && !old(self).tools().contains_key(alias@) && !old(self).tools().contains_key(
                target@,
            ) ==> (r matches Err(ToolAliasError::UnknownTarget(a, t)) && a@ == alias@ && t@
                == target@),
            r is Ok <==> (trim(alias@).len() != 0 && trim(target@).len() != 0 && alias@ != target@
                && !old(self).tools().contains_key(alias@) && old(self).tools().contains_key(
                target@,
            )),
            r is Ok ==> final(self).alias_targets() == old(self).alias_targets().insert(
                alias@,
                target@,
            ),
            r is Err ==> final(self).alias_targets() == old(self).alias_targets(),
            final(self).tools() == old(self).tools(),
    {
        proof {
            use_type_invariant(&*self);
        }
        if is_blank(alias) {
            return Err(ToolAliasError::EmptyAlias);
        }
        if is_blank(target) {
            return Err(ToolAliasError::EmptyTarget);
        }
        if str_eq(alias, target) {
            return Err(ToolAliasError::SelfTarget(alias.to_owned()));
        }
        if self.contains_tool(alias) {
            return Err(ToolAliasError::ConflictsWithTool(alias.to_owned()));
        }
        if !self.contains_tool(target) {
            return Err(ToolAliasError::UnknownTarget(alias.to_owned(), target.to_owned()));
        }
        let a = chars_of(alias);
        let ghost before = self.aliases@;
        let ghost ms = self.manifests@;
        match self.alias_index(&a) {
            Some(i) => {
                let mut aliases: Vec<(String, String)> = Vec::new();
                std::mem::swap(&mut aliases, &mut self.aliases);
                aliases.set(i, (alias.to_owned(), target.to_owned()));
                proof {
                    let after = aliases@;
                    assert forall|x: int, y: int| 0 <= x < y < after.len() implies after[x].0@
                        != after[y].0@ by {
                        assert(before[x].0@ != before[y].0@);
                    }
                    assert forall|j: int| 0 <= j < after.len() implies manifest_map(ms).contains_key(
                        #[trigger] after[j].1@,
                    ) by {
                        if j != i {
                            assert(after[j] == before[j]);
                        }
                    }
                    lemma_alias_update(before, i as int, after[i as int]);
                }
                self.aliases = aliases;
            },
            None => {
                let mut aliases: Vec<(String, String)> = Vec::new();
                std::mem::swap(&mut aliases, &mut self.aliases);
                aliases.push((alias.to_owned(), target.to_owned()));
                proof {
                    let after = aliases@;
                    assert(after.drop_last() =~= before);
                    assert forall|x: int, y: int| 0 <= x < y < after.len() implies after[x].0@
                        != after[y].0@ by {
                        if y == before.len() {
                            assert(before[x].0@ != alias@);
                        } else {
                            assert(before[x].0@ != before[y].0@);
                        }
                    }
                    assert forall|j: int| 0 <= j < after.len() implies manifest_map(ms).contains_key(
                        #[trigger] after[j].1@,
                    ) by {
                        if j < before.len() {
                            assert(after[j] == before[j]);
                        }
                    }
                }
                self.aliases = aliases;
            },
        }
        Ok(())
    }

    fn resolve_name<'a>(&'a self, name: &'a str) -> (r: &'a str)
        ensures
            r@ == self.resolved(name@),
    {
        proof {
            use_type_invariant(self);
        }
        let v = chars_of(name);
        match self.alias_index(&v) {
            Some(i) => {
                proof {
                    lemma_alias_map_at(self.aliases@, i as int);
                }
                self.aliases[i].1.as_str()
            },
            None => {
                proof {
                    lemma_alias_map_dom(self.aliases@, name@);
                }
                name
            },
        }
    }

    fn manifest_ref(&self, id: &str) -> (r: Option<&ToolManifest>)
        ensures
            match r {
                Some(m) => self.tools().contains_key(id@) && *m == self.tools()[id@],
                None => !self.tools().contains_key(id@),
            },
    {
        proof {
            use_type_invariant(self);
        }
        let v = chars_of(id);
        match self.index_of(&v) {
            Some(i) => {
                proof {
                    lemma_manifest_map_at(self.manifests@, i as int);
                }
                Some(&self.manifests[i])
            },
            None => {
                proof {
                    lemma_manifest_map_dom(self.manifests@, id@);
                }
                None
            },
        }
    }

    /// The remediation for a failure of the tool that `name` reaches.
    pub fn remediation_for(&self, name: &str, error_kind: ToolErrorKind) -> (r: ToolRemediation)
        ensures
            self.is_remediation(r, name@, error_kind),
    {
        let resolved = self.resolve_name(name);
        let known = self.tool_names();
        let md: Option<ToolManifestMetadata> = match self.manifest_ref(resolved) {
            Some(m) => Some(m.metadata()),
            None => None,
        };
        let r = match &md {
            Some(m) => build_tool_remediation(resolved, Some(m), error_kind, known.as_slice()),
            None => build_tool_remediation(resolved, None, error_kind, known.as_slice()),
        };
        proof {
            assert(sorted_key_list(str_views(known@), self.tools().dom()));
        }
        r
    }

    /// Attaches the remediation for its kind to an error result that has
    /// none; any other result is returned unchanged.
    fn with_dispatcher_defaults(&self, name: &str, result: ToolResult) -> (r: ToolResult)
        ensures
            self.with_defaults_ok(name@, result, r),
    {
        match result.error_kind {
            Some(kind) => {
                if result.remediation.is_none() {
                    let rem = self.remediation_for(name, kind);
                    result.with_remediation(rem)
                } else {
                    result
                }
            },
            None => result,
        }
    }

    /// An error result for tool `name`, with its remediation.
    pub fn error_result(&self, name: &str, output: &str, error_kind: ToolErrorKind) -> (r:
        ToolResult)
        ensures
            r.output@ == output@,
            r.preview.is_none(),
            !r.truncated,
            r.error_kind == Some(error_kind),
            r.remediation.is_some(),
            self.is_remediation(r.remediation.unwrap(), name@, error_kind),
    {
        self.with_dispatcher_defaults(name, ToolResult::error(output, error_kind))
    }

    /// Whether `r` is what the handler of the tool that `name` reaches makes
    /// of `input`: its typed result (or its text result wrapped) with the
    /// dispatcher's remediation default, or its error unchanged.
    pub open spec fn handler_answer(self, name: Seq<char>, input: serde_json::Value, r: anyhow::Result<ToolResult>) -> bool {
        let h = self.target_manifest(name).unwrap().handler;
        match r {
            Ok(res) => exists|raw: ToolResult|
                #[trigger] self.with_defaults_ok(name, raw, res) && (h.typed_outcome(input, Ok(raw)) || exists|
                    s: String,
                | #[trigger] h.text_outcome(input, Ok(s)) && raw.output@ == s@),
            Err(e) => h.typed_outcome(input, Err(e)) || h.text_outcome(input, Err(e)),
        }
    }

    /// A handler whose one outcome on `input` is the typed result `raw`, and
    /// which gives no text outcome, is answered with `raw` and the
    /// dispatcher's defaults: no error comes back.
    pub proof fn law_fixed_handler_is_answered(
        self,
        name: Seq<char>,
        input: serde_json::Value,
        raw: ToolResult,
        r: anyhow::Result<ToolResult>,
    )
        requires
            self.target_manifest(name).is_some(),
            self.handler_answer(name, input, r),
            forall|x: anyhow::Result<ToolResult>|
                #[trigger] self.target_manifest(name).unwrap().handler.typed_outcome(input, x) ==> x == Ok::<
                    ToolResult,
                    anyhow::Error,
                >(raw),
            forall|x: anyhow::Result<String>| !#[trigger] self.target_manifest(name).unwrap().handler.text_outcome(input, x),
        ensures
            r matches Ok(res) && self.with_defaults_ok(name, raw, res),
    {
        let h = self.target_manifest(name).unwrap().handler;
        match r {
            Ok(res) => {
                let w = choose|w: ToolResult|
                    #[trigger] self.with_defaults_ok(name, w, res) && (h.typed_outcome(input, Ok(w)) || exists|
                        s: String,
                    | #[trigger] h.text_outcome(input, Ok(s)) && w.output@ == s@);
                assert(h.typed_outcome(input, Ok(w)));
            },
            Err(e) => {
                assert(h.typed_outcome(input, Err(e)) || h.text_outcome(input, Err(e)));
            },
        }
    }

    /// Dispatches a call to the tool that `name` reaches. An unknown name is
    /// answered with an `UnknownTool` error result whose output reads
    /// `Unknown tool: <name>`; a handler's own failure is passed on as the
    /// error; a handler's result gets the dispatcher's remediation default.
    pub fn dispatch(&self, name: &str, input: serde_json::Value) -> (r: anyhow::Result<ToolResult>)
        ensures
            self.target_manifest(name@).is_none() ==> (r matches Ok(res) && res.output@
                == "Unknown tool: "@ + name@ && res.error_kind == Some(ToolErrorKind::UnknownTool)
                && res.remediation.is_some() && self.is_remediation(
                res.remediation.unwrap(),
                name@,
                ToolErrorKind::UnknownTool,
            ) && res.preview.is_none() && !res.truncated),
            self.target_manifest(name@).is_some() ==> self.handler_answer(name@, input, r),
    {
        let resolved = self.resolve_name(name);
        match self.manifest_ref(resolved) {
            Some(manifest) => match manifest.handler.execute_v2(input) {
                Ok(raw) => {
                    let ghost g = raw;
                    let res = self.with_dispatcher_defaults(name, raw);
                    assert(self.with_defaults_ok(name@, g, res));
                    Ok(res)
                },
                Err(e) => Err(e),
            },
            None => {
                let output = concat2("Unknown tool: ", name);
                Ok(self.error_result(name, output.as_str(), ToolErrorKind::UnknownTool))
            },
        }
    }

    /// Dispatches a call and returns only the text output.
    pub fn dispatch_text(&self, name: &str, input: serde_json::Value) -> (r: anyhow::Result<
        String,
    >)
        ensures
            self.target_manifest(name@).is_none() ==> (r matches Ok(s) && s@ == "Unknown tool: "@
                + name@),
            self.target_manifest(name@).is_some() ==> match r {
                Ok(s) => exists|res: ToolResult|
                    #[trigger] self.handler_answer(name@, input, Ok(res)) && s@ == res.output@,
                Err(e) => self.handler_answer(name@, input, Err(e)),
            },
    {
        match self.dispatch(name, input) {
            Ok(res) => Ok(res.output),
            Err(e) => Err(e),
        }
    }

    /// Positions of the manifests in id order.
    fn sorted_positions(&self) -> (r: Vec<usize>)
        ensures
            is_index_perm(r@, self.manifests@.len() as int),
            sorted_by(ids_of(self.manifests@), r@),
    {
        let mut keys: Vec<Vec<char>> = Vec::new();
        let mut i: usize = 0;
        while i < self.manifests.len()
            invariant
                i <= self.manifests@.len(),
                keys@.map_values(|k: Vec<char>| k@) == ids_of(self.manifests@).take(i as int),
            decreases self.manifests.len() - i,
        {
            let ghost before = keys@;
            let key = chars_of(self.manifests[i].id.as_str());
            keys.push(key);
            proof {
                assert(keys@ == before.push(key));
                assert(keys@.map_values(|k: Vec<char>| k@) =~= before.map_values(
                    |k: Vec<char>| k@,
                ).push(key@));
                assert(ids_of(self.manifests@).take(i + 1) =~= ids_of(self.manifests@).take(
                    i as int,
                ).push(self.manifests@[i as int].id@));
            }
            i = i + 1;
        }
        proof {
            assert(ids_of(self.manifests@).take(i as int) =~= ids_of(self.manifests@));
        }
        sorted_order(&keys)
    }

    /// The registered tool ids, each once, in `str` order; aliases are not
    /// listed.
    pub fn tool_names(&self) -> (r: Vec<&str>)
        ensures
            sorted_key_list(str_views(r@), self.tools().dom()),
    {
        proof {
            use_type_invariant(self);
        }
        let order = self.sorted_positions();
        let ghost ms = self.manifests@;
        let mut r: Vec<&str> = Vec::new();
        let mut j: usize = 0;
        while j < order.len()
            invariant
                j <= order.len(),
                ms == self.manifests@,
                is_index_perm(order@, ms.len() as int),
                sorted_by(ids_of(ms), order@),
                r@.len() == j,
                forall|a: int| 0 <= a < j ==> (#[trigger] r@[a])@ == ms[order@[a] as int].id@,
            decreases order.len() - j,
        {
            r.push(self.manifests[order[j]].id.as_str());
            j = j + 1;
        }
        proof {
            let names = str_views(r@);
            self.lemma_sorted_names(order@, names);
        }
        r
    }

    proof fn lemma_sorted_names(self, order: Seq<usize>, names: Seq<Seq<char>>)
        requires
            self.wf(),
            is_index_perm(order, self.manifests@.len() as int),
            sorted_by(ids_of(self.manifests@), order),
            names.len() == order.len(),
            forall|a: int| 0 <= a < names.len() ==> #[trigger] names[a] == self.manifests@[order[a] as int].id@,
        ensures
            sorted_key_list(names, self.tools().dom()),
    {
        let ms = self.manifests@;
        assert forall|j: int| 0 <= j < names.len() implies self.tools().dom().contains(
            #[trigger] names[j],
        ) by {
            assert(order[j] < ms.len());
            lemma_manifest_map_at(ms, order[j] as int);
        }
        assert forall|k: Seq<char>| self.tools().dom().contains(k) implies #[trigger] names.contains(
            k,
        ) by {
            lemma_manifest_map_dom(ms, k);
            let i = choose|i: int| 0 <= i < ms.len() && #[trigger] ms[i].id@ == k;
            assert(lists(order, i));
            let a = choose|a: int| 0 <= a < order.len() && #[trigger] order[a] == i;
            assert(names[a] == k);
        }
        assert forall|a: int, b: int| 0 <= a < b < names.len() implies lex_le(
            #[trigger] names[a],
            #[trigger] names[b],
        ) && names[a] != names[b] by {
            assert(ids_of(ms)[order[a] as int] == ms[order[a] as int].id@);
            assert(ids_of(ms)[order[b] as int] == ms[order[b] as int].id@);
            assert(order[a] != order[b]);
        }
    }

    /// Manifest metadata of all registered tools, in id order.
    pub fn manifest_metadata(&self) -> (r: Vec<ToolManifestMetadata>)
        ensures
            sorted_key_list(meta_ids(r@), self.tools().dom()),
            forall|a: int|
                0 <= a < r@.len() ==> self.tools()[(#[trigger] r@[a]).id@].describes(r@[a]),
    {
        proof {
            use_type_invariant(self);
        }
        let order = self.sorted_positions();
        let ghost ms = self.manifests@;
        let mut r: Vec<ToolManifestMetadata> = Vec::new();
        let mut j: usize = 0;
        while j < order.len()
            invariant
                j <= order.len(),
                ms == self.manifests@,
                unique_ids(ms),
                is_index_perm(order@, ms.len() as int),
                sorted_by(ids_of(ms), order@),
                r@.len() == j,
                forall|a: int| 0 <= a < j ==> ms[order@[a] as int].describes(#[trigger] r@[a]),
            decreases order.len() - j,
        {
            r.push(self.manifests[order[j]].metadata());
            j = j + 1;
        }
        proof {
            let names = meta_ids(r@);
            self.lemma_sorted_names(order@, names);
            assert forall|a: int| 0 <= a < r@.len() implies self.tools()[(#[trigger] r@[a]).id@].describes(
                r@[a],
            ) by {
                lemma_manifest_map_at(ms, order@[a] as int);
            }
        }
        r
    }

    /// Manifest metadata of the tool that `name` reaches.
    pub fn manifest_for(&self, name: &str) -> (r: Option<ToolManifestMetadata>)
        ensures
            match self.target_manifest(name@) {
                Some(m) => r matches Some(md) && m.describes(md),
                None => r.is_none(),
            },
    {
        let resolved = self.resolve_name(name);
        match self.manifest_ref(resolved) {
            Some(m) => Some(m.metadata()),
            None => None,
        }
    }

    /// The `{ name, description, input_schema }` object of every registered
    /// tool, in id order.
    pub fn to_schemas(&self) -> (r: Vec<serde_json::Value>)
        ensures
            r@.len() == self.tools().len(),
            exists|md: Seq<ToolManifestMetadata>|
                {
                    &&& sorted_key_list(meta_ids(md), self.tools().dom())
                    &&& forall|a: int| 0 <= a < md.len() ==> self.tools()[(#[trigger] md[a]).id@].describes(md[a])
                    &&& r@ == md.map_values(|m: ToolManifestMetadata| m.schema_value())
                },
    {
        proof {
            use_type_invariant(self);
            lemma_manifest_map_finite(self.manifests@);
        }
        let metadata = self.manifest_metadata();
        proof {
            self.lemma_sorted_len(meta_ids(metadata@));
        }
        let mut r: Vec<serde_json::Value> = Vec::new();
        let mut j: usize = 0;
        while j < metadata.len()
            invariant
                j <= metadata.len(),
                r@ == metadata@.take(j as int).map_values(|m: ToolManifestMetadata| m.schema_value()),
            decreases metadata.len() - j,
        {
            r.push(metadata[j].to_schema_value());
            proof {
                assert(metadata@.take(j + 1).map_values(|m: ToolManifestMetadata| m.schema_value())
                    =~= metadata@.take(j as int).map_values(|m: ToolManifestMetadata| m.schema_value()).push(
                    metadata@[j as int].schema_value(),
                ));
            }
            j = j + 1;
        }
        proof {
            assert(metadata@.take(metadata@.len() as int) =~= metadata@);
        }
        r
    }

    proof fn lemma_sorted_len(self, names: Seq<Seq<char>>)
        requires
            self.wf(),
            sorted_key_list(names, self.tools().dom()),
        ensures
            names.len() == self.tools().len(),
    {
        lemma_manifest_map_finite(self.manifests@);
        let d = self.tools().dom();
        assert(names.no_duplicates()) by {
            assert forall|a: int, b: int| 0 <= a < names.len() && 0 <= b < names.len() && a != b
                implies names[a] != names[b] by {
                if a < b {
                    assert(names[a] != names[b]);
                } else {
                    assert(names[b] != names[a]);
                }
            }
        }
        names.unique_seq_to_set();
        assert(names.to_set() =~= d) by {
            assert forall|k: Seq<char>| names.to_set().contains(k) implies d.contains(k) by {
                let j = choose|j: int| 0 <= j < names.len() && names[j] == k;
                assert(d.contains(names[j]));
            }
        }
    }

    /// The schema objects of the registered tools that the given names
    /// reach, in id order; names that reach no tool are ignored.
    pub fn to_schemas_filtered(&self, names: &[&str]) -> (r: Vec<serde_json::Value>)
        ensures
            exists|sel: Seq<ToolManifestMetadata>|
                self.is_selection(names@, sel) && r@ == sel.map_values(
                    |m: ToolManifestMetadata| m.schema_value(),
                ),
    {
        let selected = self.metadata_filtered(names);
        let mut r: Vec<serde_json::Value> = Vec::new();
        let mut j: usize = 0;
        while j < selected.len()
            invariant
                j <= selected.len(),
                r@ == selected@.take(j as int).map_values(|m: ToolManifestMetadata| m.schema_value()),
            decreases selected.len() - j,
        {
            r.push(selected[j].to_schema_value());
            proof {
                assert(selected@.take(j + 1).map_values(|m: ToolManifestMetadata| m.schema_value())
                    =~= selected@.take(j as int).map_values(|m: ToolManifestMetadata| m.schema_value()).push(
                    selected@[j as int].schema_value(),
                ));
            }
            j = j + 1;
        }
        proof {
            assert(selected@.take(selected@.len() as int) =~= selected@);
        }
        r
    }

    /// The tool ids that the given names resolve to, in name order.
    pub open spec fn resolved_all(self, names: Seq<&str>) -> Seq<Seq<char>> {
        names.map_values(|n: &str| self.resolved(n@))
    }

    /// Whether `r` holds the metadata of the registered tools that the
    /// given names reach, each once, in id order.
    pub open spec fn is_selection(self, names: Seq<&str>, r: Seq<ToolManifestMetadata>) -> bool {
        &&& forall|j: int|
            0 <= j < r.len() ==> self.tools().dom().contains((#[trigger] r[j]).id@)
                && self.tools()[r[j].id@].describes(r[j]) && self.resolved_all(names).contains(
                r[j].id@,
            )
        &&& forall|k: Seq<char>|
            self.resolved_all(names).contains(k) && self.tools().contains_key(k) ==> #[trigger] meta_ids(r).contains(k)
        &&& forall|a: int, b: int|
            0 <= a < b < r.len() ==> lex_le(r[a].id@, r[b].id@) && r[a].id@ != r[b].id@
    }

    /// Metadata of the registered tools that the given names reach, each
    /// once, in id order.
    pub fn metadata_filtered(&self, names: &[&str]) -> (r: Vec<ToolManifestMetadata>)
        ensures
            self.is_selection(names@, r@),
    {
        proof {
            use_type_invariant(self);
        }
        let ghost want = self.resolved_all(names@);
        let mut resolved: Vec<Vec<char>> = Vec::new();
        let mut n: usize = 0;
        while n < names.len()
            invariant
                n <= names@.len(),
                want == self.resolved_all(names@),
                resolved@.map_values(|v: Vec<char>| v@) == want.take(n as int),
            decreases names.len() - n,
        {
            let rn = self.resolve_name(names[n]);
            let ghost before = resolved@;
            let v = chars_of(rn);
            resolved.push(v);
            proof {
                assert(resolved@.map_values(|v: Vec<char>| v@) =~= before.map_values(
                    |v: Vec<char>| v@,
                ).push(v@));
                assert(want.take(n + 1) =~= want.take(n as int).push(want[n as int]));
            }
            n = n + 1;
        }
        proof {
            assert(want.take(n as int) =~= want);
        }
        let ghost rv = resolved@.map_values(|v: Vec<char>| v@);
        let order = self.sorted_positions();
        let ghost ms = self.manifests@;
        let ghost ids = ids_of(ms);
        let mut r: Vec<ToolManifestMetadata> = Vec::new();
        let ghost mut picked: Seq<int> = Seq::empty();
        let mut j: usize = 0;
        while j < order.len()
            invariant
                j <= order@.len(),
                ms == self.manifests@,
                ids == ids_of(ms),
                unique_ids(ms),
                is_index_perm(order@, ms.len() as int),
                sorted_by(ids, order@),
                rv == resolved@.map_values(|v: Vec<char>| v@),
                rv == want,
                picked.len() == r@.len(),
                forall|q: int|
                    0 <= q < picked.len() ==> 0 <= #[trigger] picked[q] < j && ms[order@[picked[q]] as int].describes(
                        r@[q],
                    ) && want.contains(r@[q].id@),
                forall|p: int, q: int| 0 <= p < q < picked.len() ==> picked[p] < picked[q],
                forall|a: int|
                    0 <= a < j && want.contains(#[trigger] ids[order@[a] as int]) ==> meta_ids(r@).contains(ids[order@[a] as int]),
            decreases order.len() - j,
        {
            let pos = order[j];
            let id = chars_of(self.manifests[pos].id.as_str());
            proof {
                assert(ids[pos as int] == id@);
            }
            let mut k: usize = 0;
            let mut found = false;
            while k < resolved.len()
                invariant
                    k <= resolved@.len(),
                    rv == resolved@.map_values(|v: Vec<char>| v@),
                    found == rv.take(k as int).contains(id@),
                decreases resolved.len() - k,
            {
                proof {
                    assert(rv.take(k + 1) =~= rv.take(k as int).push(rv[k as int]));
                    assert(rv[k as int] == resolved@[k as int]@);
                }
                let hit = chars_eq(&resolved[k], &id);
                proof {
                    let t1 = rv.take(k as int);
                    let t2 = rv.take(k + 1);
                    if t1.contains(id@) {
                        let x = choose|x: int| 0 <= x < t1.len() && t1[x] == id@;
                        assert(t2[x] == id@);
                    }
                    if hit {
                        assert(t2[k as int] == id@);
                    }
                    if t2.contains(id@) {
                        let x = choose|x: int| 0 <= x < t2.len() && t2[x] == id@;
                        if x < k {
                            assert(t1[x] == id@);
                        }
                    }
                }
                if hit {
                    found = true;
                }
                k = k + 1;
            }
            proof {
                assert(rv.take(k as int) =~= rv);
            }
            let ghost before = r@;
            if found {
                let md = self.manifests[pos].metadata();
                r.push(md);
                proof {
                    picked = picked.push(j as int);
                }
            }
            proof {
                let before_ids = meta_ids(before);
                let now_ids = meta_ids(r@);
                if found {
                    assert(now_ids =~= before_ids.push(id@));
                }
                assert forall|a: int|
                    0 <= a < j + 1 && want.contains(#[trigger] ids[order@[a] as int]) implies now_ids.contains(
                    ids[order@[a] as int],
                ) by {
                    if a < j {
                        let x = choose|x: int| 0 <= x < before_ids.len() && before_ids[x] == ids[order@[a] as int];
                        assert(now_ids[x] == before_ids[x]);
                    } else {
                        assert(found);
                        assert(now_ids[now_ids.len() - 1] == id@);
                    }
                }
                assert forall|q: int|
                    0 <= q < picked.len() implies 0 <= #[trigger] picked[q] < j + 1 && ms[order@[picked[q]] as int].describes(
                    r@[q],
                ) && want.contains(r@[q].id@) by {
                    if q < before.len() {
                        assert(r@[q] == before[q]);
                    }
                }
            }
            j = j + 1;
        }
        proof {
            self.lemma_selection(names@, order@, picked, r@);
        }
        r
    }

    #[verifier::spinoff_prover]
    proof fn lemma_selection(
        self,
        names: Seq<&str>,
        order: Seq<usize>,
        picked: Seq<int>,
        r: Seq<ToolManifestMetadata>,
    )
        requires
            self.wf(),
            is_index_perm(order, self.manifests@.len() as int),
            sorted_by(ids_of(self.manifests@), order),
            picked.len() == r.len(),
            forall|q: int|
                0 <= q < picked.len() ==> 0 <= #[trigger] picked[q] < order.len()
                    && self.manifests@[order[picked[q]] as int].describes(r[q])
                    && self.resolved_all(names).contains(r[q].id@),
            forall|p: int, q: int| 0 <= p < q < picked.len() ==> picked[p] < picked[q],
            forall|a: int|
                0 <= a < order.len() && self.resolved_all(names).contains(
                    #[trigger] ids_of(self.manifests@)[order[a] as int],
                ) ==> meta_ids(r).contains(
                    ids_of(self.manifests@)[order[a] as int],
                ),
        ensures
            self.is_selection(names, r),
    {
        let ms = self.manifests@;
        let ids = ids_of(ms);
        assert forall|j: int| 0 <= j < r.len() implies self.tools().dom().contains(
            (#[trigger] r[j]).id@,
        ) && self.tools()[r[j].id@].describes(r[j]) && self.resolved_all(names).contains(
            r[j].id@,
        ) by {
            let p = order[picked[j]] as int;
            lemma_manifest_map_at(ms, p);
            assert(ms[p].id == r[j].id);
        }
        assert forall|k: Seq<char>|
            self.resolved_all(names).contains(k) && self.tools().contains_key(k) implies #[trigger] meta_ids(r).contains(k) by {
            lemma_manifest_map_dom(ms, k);
            let i = choose|i: int| 0 <= i < ms.len() && #[trigger] ms[i].id@ == k;
            assert(lists(order, i));
            let a = choose|a: int| 0 <= a < order.len() && #[trigger] order[a] == i;
            assert(ids[order[a] as int] == k);
        }
        assert forall|a: int, b: int| 0 <= a < b < r.len() implies lex_le(r[a].id@, r[b].id@)
            && r[a].id@ != r[b].id@ by {
            let pa = picked[a];
            let pb = picked[b];
            assert(pa < pb);
            assert(ids[order[pa] as int] == r[a].id@);
            assert(ids[order[pb] as int] == r[b].id@);
            assert(order[pa] != order[pb]);
        }
    }

    /// The number of registered tools (aliases not counted).
    pub fn len(&self) -> (r: usize)
        ensures
            r == self.tools().len(),
    {
        proof {
            use_type_invariant(self);
            lemma_manifest_map_finite(self.manifests@);
        }
        self.manifests.len()
    }

    /// Whether no tool is registered.
    pub fn is_empty(&self) -> (r: bool)
        ensures
            r == (self.tools().len() == 0),
    {
        proof {
            use_type_invariant(self);
            lemma_manifest_map_finite(self.manifests@);
        }
        self.manifests.len() == 0
    }

    /// Whether `name` is a registered tool id or alias.
    pub fn has_tool(&self, name: &str) -> (r: bool)
        ensures
            r == (self.tools().contains_key(name@) || self.alias_targets().contains_key(name@)),
    {
        let v = chars_of(name);
        let t = self.contains_tool(name);
        let a = self.alias_index(&v);
        proof {
            use_type_invariant(self);
            lemma_alias_map_dom(self.aliases@, name@);
            match a {
                Some(i) => {
                    lemma_alias_map_at(self.aliases@, i as int);
                },
                None => {
                    assert(!(exists|i: int| 0 <= i < self.aliases@.len() && #[trigger] self.aliases@[i].0@ == name@));
                },
            }
        }
        t || a.is_some()
    }
}

proof fn lemma_alias_update(s: Seq<(String, String)>, i: int, p: (String, String))
    requires
        unique_aliases(s),
        0 <= i < s.len(),
        s[i].0@ == p.0@,
    ensures
        alias_map(s.update(i, p)) == alias_map(s).insert(p.0@, p.1@),
    decreases s.len(),
{
    let t = s.update(i, p);
    if i == s.len() - 1 {
        assert(t.drop_last() =~= s.drop_last());
        assert(alias_map(t) =~= alias_map(s).insert(p.0@, p.1@));
    } else {
        lemma_alias_update(s.drop_last(), i, p);
        assert(t.drop_last() =~= s.drop_last().update(i, p));
        assert(s.last().0@ != p.0@);
        assert(alias_map(t) =~= alias_map(s).insert(p.0@, p.1@));
    }
}

impl Default for ToolDispatcher {
    /// An empty registry.
    fn default() -> (r: Self)
        ensures
            r.tools() == Map::<Seq<char>, ToolManifest>::empty(),
            r.alias_targets() == Map::<Seq<char>, Seq<char>>::empty(),
    {
        ToolDispatcher::new()
    }
}

// ---------------------------------------------------------------------------
// Laws of the registry
// ---------------------------------------------------------------------------

/// Registering a tool replaces any tool with the same id: the registry then
/// holds that manifest under its id, keeps every other tool, and grows by
/// one only when the id was new.
pub proof fn law_register_replaces_by_id(d: ToolDispatcher, m: ToolManifest)
    ensures
        d.tools().insert(m.id@, m)[m.id@] == m,
        forall|k: Seq<char>|
            k != m.id@ ==> (#[trigger] d.tools().insert(m.id@, m).contains_key(k) == d.tools().contains_key(k)
                && (d.tools().contains_key(k) ==> d.tools().insert(m.id@, m)[k] == d.tools()[k])),
        d.tools().insert(m.id@, m).len() == if d.tools().contains_key(m.id@) {
            d.tools().len()
        } else {
            d.tools().len() + 1
        },
{
    lemma_manifest_map_finite(d.manifests@);
    if d.tools().contains_key(m.id@) {
        assert(d.tools().insert(m.id@, m).dom() =~= d.tools().dom());
    } else {
        assert(d.tools().insert(m.id@, m).dom() =~= d.tools().dom().insert(m.id@));
    }
}

/// An alias reaches its target: once registered, the alias leads to the
/// target's tool, and every other name leads where it led before.
pub proof fn law_alias_reaches_target(d: ToolDispatcher, after: ToolDispatcher, alias: Seq<char>, target: Seq<char>)
    requires
        d.tools().contains_key(target),
        !d.tools().contains_key(alias),
        after.tools() == d.tools(),
        after.alias_targets() == d.alias_targets().insert(alias, target),
    ensures
        after.target_manifest(alias) == Some(d.tools()[target]),
        forall|n: Seq<char>| n != alias ==> #[trigger] after.target_manifest(n) == d.target_manifest(n),
{
}

pub proof fn lemma_lex_refl(a: Seq<char>)
    ensures
        lex_le(a, a),
    decreases a.len(),
{
    if a.len() > 0 {
        lemma_lex_refl(a.drop_first());
    }
}

/// A set of names has one listing in `str` order: two sorted listings of
/// the same set are the same. So everything listed in id order (tool
/// names, schemas, metadata) depends on the registered ids alone, and
/// registering aliases, which leaves the tools as they are, changes none of
/// it.
pub proof fn law_sorted_listing_unique(a: Seq<Seq<char>>, b: Seq<Seq<char>>, keys: Set<Seq<char>>)
    requires
        sorted_key_list(a, keys),
        sorted_key_list(b, keys),
    ensures
        a == b,
    decreases a.len(),
{
    if a.len() == 0 {
        if b.len() > 0 {
            assert(keys.contains(b[0]));
            assert(a.contains(b[0]));
        }
        assert(a =~= b);
    } else {
        assert(keys.contains(a[0]));
        assert(b.contains(a[0]));
        let j = choose|j: int| 0 <= j < b.len() && b[j] == a[0];
        assert(keys.contains(b[0]));
        assert(a.contains(b[0]));
        let i = choose|i: int| 0 <= i < a.len() && a[i] == b[0];
        if i > 0 {
            assert(lex_le(a[0], a[i]));
        } else {
            lemma_lex_refl(a[0]);
        }
        if j > 0 {
            assert(lex_le(b[0], b[j]));
        } else {
            lemma_lex_refl(b[0]);
        }
        crate::chars::lemma_lex_antisym(a[0], b[0]);
        let rest = keys.remove(a[0]);
        let a1 = a.drop_first();
        let b1 = b.drop_first();
        assert(sorted_key_list(a1, rest)) by {
            assert forall|q: int| 0 <= q < a1.len() implies rest.contains(#[trigger] a1[q]) by {
                assert(a[q + 1] != a[0]);
                assert(keys.contains(a[q + 1]));
            }
            assert forall|k: Seq<char>| rest.contains(k) implies #[trigger] a1.contains(k) by {
                assert(a.contains(k));
                let q = choose|q: int| 0 <= q < a.len() && a[q] == k;
                assert(q != 0);
                assert(a1[q - 1] == k);
            }
            assert forall|x: int, y: int| 0 <= x < y < a1.len() implies lex_le(#[trigger] a1[x], #[trigger] a1[y])
                && a1[x] != a1[y] by {
                assert(a[x + 1] == a1[x] && a[y + 1] == a1[y]);
            }
        }
        assert(sorted_key_list(b1, rest)) by {
            assert forall|q: int| 0 <= q < b1.len() implies rest.contains(#[trigger] b1[q]) by {
                assert(b[q + 1] != b[0]);
                assert(keys.contains(b[q + 1]));
            }
            assert forall|k: Seq<char>| rest.contains(k) implies #[trigger] b1.contains(k) by {
                assert(b.contains(k));
                let q = choose|q: int| 0 <= q < b.len() && b[q] == k;
                assert(q != 0);
                assert(b1[q - 1] == k);
            }
            assert forall|x: int, y: int| 0 <= x < y < b1.len() implies lex_le(#[trigger] b1[x], #[trigger] b1[y])
                && b1[x] != b1[y] by {
                assert(b[x + 1] == b1[x] && b[y + 1] == b1[y]);
            }
        }
        law_sorted_listing_unique(a1, b1, rest);
        assert(a =~= seq![a[0]] + a1);
        assert(b =~= seq![b[0]] + b1);
    }
}

} // verus!
