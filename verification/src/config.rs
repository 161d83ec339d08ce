//! Behaviour settings of the terminal UI: their defaults, the file that
//! overrides them, and what loading that file comes to.
use vstd::prelude::*;

use crate::chars::push_str;

verus! {

/// Where the settings file lives under a project root.
pub const DEFAULT_TUI_CONFIG_PATH: &'static str = ".omega/tui.toml";

/// The settings file written when there is none.
pub const DEFAULT_TUI_CONFIG_TOML: &'static str = "# Default omega-tui behavior overrides\n[response]\nshow_thinking = true\n";

#[derive(Debug, Clone, Copy, PartialEq, Eq, Structural)]
pub struct TuiBehaviorConfig {
    pub show_thinking: bool,
}

impl Default for TuiBehaviorConfig {
    /// Thinking sections are shown.
    fn default() -> (r: Self)
        ensures
            r == (TuiBehaviorConfig { show_thinking: true }),
    {
        TuiBehaviorConfig { show_thinking: true }
    }
}

impl TuiBehaviorConfig {
    /// The defaults with the file's `[response] show_thinking`, when it
    /// sets one.
    pub fn from_overrides(show_thinking: Option<bool>) -> (r: Self)
        ensures
            r.show_thinking == match show_thinking {
                Some(b) => b,
                None => true,
            },
    {
        let mut config = TuiBehaviorConfig::default();
        match show_thinking {
            Some(b) => {
                config.show_thinking = b;
            },
            None => {},
        }
        config
    }
}

/// Where the settings came from.
#[derive(Debug, Clone, PartialEq, Eq)]
pub enum TuiConfigSource {
    BuiltinDefault,
    File(String),
    FileWithFallback(String),
}

impl TuiConfigSource {
    pub open spec fn spec_label(&self) -> Seq<char> {
        match self {
            TuiConfigSource::BuiltinDefault => "builtin"@,
            TuiConfigSource::File(p) => p@,
            TuiConfigSource::FileWithFallback(p) => p@,
        }
    }

    /// `builtin`, or the path of the settings file.
    pub fn source_label(&self) -> (r: String)
        ensures
            r@ == self.spec_label(),
    {
        match self {
            TuiConfigSource::BuiltinDefault => "builtin".to_owned(),
            TuiConfigSource::File(p) => p.clone(),
            TuiConfigSource::FileWithFallback(p) => p.clone(),
        }
    }
}

#[derive(Debug, Clone, PartialEq, Eq)]
pub struct LoadedTuiBehaviorConfig {
    pub config: TuiBehaviorConfig,
    pub source: TuiConfigSource,
    pub warnings: Vec<String>,
}

impl LoadedTuiBehaviorConfig {
    pub fn source_label(&self) -> (r: String)
        ensures
            r@ == self.source.spec_label(),
    {
        self.source.source_label()
    }
}

/// What happened on the way to the settings: the file existed and was
/// read (its override, or the reason it could not be used), or it was
/// missing and writing the default file succeeded (then it was read) or
/// failed. Reasons are error messages.
#[derive(Debug, PartialEq, Eq)]
pub enum ConfigLoadOutcome {
    Read(Result<Option<bool>, String>),
    Created(Result<Option<bool>, String>),
    CreateFailed(String),
}

/// The warning for each failure, and where the settings then come from.
pub open spec fn spec_loaded(path: Seq<char>, outcome: ConfigLoadOutcome) -> (TuiBehaviorConfig, Seq<char>, Option<Seq<char>>) {
    match outcome {
        ConfigLoadOutcome::Read(Ok(o)) | ConfigLoadOutcome::Created(Ok(o)) => (
            TuiBehaviorConfig {
                show_thinking: match o {
                    Some(b) => b,
                    None => true,
                },
            },
            path,
            None,
        ),
        ConfigLoadOutcome::Read(Err(e)) => (
            TuiBehaviorConfig { show_thinking: true },
            path,
            Some("Invalid TUI config at "@ + path + ": "@ + e@ + ". Falling back to built-in defaults."@),
        ),
        ConfigLoadOutcome::Created(Err(e)) => (
            TuiBehaviorConfig { show_thinking: true },
            "builtin"@,
            Some(
                "Default TUI config at "@ + path + " was created but failed to load: "@ + e@
                    + ". Falling back to built-in defaults."@,
            ),
        ),
        ConfigLoadOutcome::CreateFailed(e) => (
            TuiBehaviorConfig { show_thinking: true },
            "builtin"@,
            Some("Failed to create default TUI config at "@ + path + ": "@ + e@ + ". Falling back to built-in defaults."@),
        ),
    }
}

/// The loaded settings for the settings file at `path` and what happened
/// when reading it: a file that could not be used falls back to the
/// defaults with a warning; a default file that could not be written or
/// read back leaves the built-in defaults as the source.
pub fn loaded_config(path: &str, outcome: ConfigLoadOutcome) -> (r: LoadedTuiBehaviorConfig)
    ensures
        r.config == spec_loaded(path@, outcome).0,
        r.source.spec_label() == spec_loaded(path@, outcome).1,
        match spec_loaded(path@, outcome).2 {
            Some(w) => r.warnings@.len() == 1 && r.warnings@[0]@ == w,
            None => r.warnings@.len() == 0,
        },
        match outcome {
            ConfigLoadOutcome::Read(Ok(_)) | ConfigLoadOutcome::Created(Ok(_)) => r.source
                == TuiConfigSource::File(r.source->File_0) && r.source->File_0@ == path@,
            ConfigLoadOutcome::Read(Err(_)) => r.source == TuiConfigSource::FileWithFallback(
                r.source->FileWithFallback_0,
            ) && r.source->FileWithFallback_0@ == path@,
            _ => r.source == TuiConfigSource::BuiltinDefault,
        },
{
    match outcome {
        ConfigLoadOutcome::Read(Ok(o)) | ConfigLoadOutcome::Created(Ok(o)) => LoadedTuiBehaviorConfig {
            config: TuiBehaviorConfig::from_overrides(o),
            source: TuiConfigSource::File(path.to_owned()),
            warnings: Vec::new(),
        },
        ConfigLoadOutcome::Read(Err(e)) => {
            let mut w = "Invalid TUI config at ".to_owned();
            push_str(&mut w, path);
            push_str(&mut w, ": ");
            push_str(&mut w, e.as_str());
            push_str(&mut w, ". Falling back to built-in defaults.");
            let mut warnings: Vec<String> = Vec::new();
            warnings.push(w);
            LoadedTuiBehaviorConfig {
                config: TuiBehaviorConfig::default(),
                source: TuiConfigSource::FileWithFallback(path.to_owned()),
                warnings,
            }
        },
        ConfigLoadOutcome::Created(Err(e)) => {
            let mut w = "Default TUI config at ".to_owned();
            push_str(&mut w, path);
            push_str(&mut w, " was created but failed to load: ");
            push_str(&mut w, e.as_str());
            push_str(&mut w, ". Falling back to built-in defaults.");
            let mut warnings: Vec<String> = Vec::new();
            warnings.push(w);
            LoadedTuiBehaviorConfig {
                config: TuiBehaviorConfig::default(),
                source: TuiConfigSource::BuiltinDefault,
                warnings,
            }
        },
        ConfigLoadOutcome::CreateFailed(e) => {
            let mut w = "Failed to create default TUI config at ".to_owned();
            push_str(&mut w, path);
            push_str(&mut w, ": ");
            push_str(&mut w, e.as_str());
            push_str(&mut w, ". Falling back to built-in defaults.");
            let mut warnings: Vec<String> = Vec::new();
            warnings.push(w);
            LoadedTuiBehaviorConfig {
                config: TuiBehaviorConfig::default(),
                source: TuiConfigSource::BuiltinDefault,
                warnings,
            }
        },
    }
}

} // verus!
