//! The resolution pipeline: an ordered fallback over configuration
//! sources, as a state machine.  The caller performs the file reads and
//! writes each state asks for and feeds the outcome back as an event; the
//! transition function decides everything else and is verified against
//! the loaders' specifications.

use vstd::prelude::*;

use crate::config::Config;
use crate::config::ConfigError;
use crate::config::ConfigV;
use crate::config::spec_load_config;
use crate::snapshot::spec_decode;
use crate::source::EnvSource;
use crate::source::spec_parse_env;

verus! {

/// How an environment-style source text must resolve: unreadable text is
/// the source being unavailable; otherwise the aggregate load decides.
pub open spec fn spec_env_resolve(s: Seq<char>) -> Result<ConfigV, ConfigError> {
    match spec_parse_env(s) {
        Option::None => Err(ConfigError::SourceUnavailable),
        Option::Some(ps) => spec_load_config(ps),
    }
}

/// The Environment Source Loader: parses the text of an environment-style
/// file and loads the aggregate from it.
pub fn load_env_text(s: &str) -> (r: Result<Config, ConfigError>)
    ensures
        r matches Ok(c) ==> spec_env_resolve(s@) matches Ok(v) && c@ == v,
        r matches Err(e) ==> spec_env_resolve(s@) matches Err(e2) && e == e2,
{
    match EnvSource::from_text(s) {
        Option::None => Err(ConfigError::SourceUnavailable),
        Option::Some(src) => Config::load_from_dotenv(&src),
    }
}

/// Where the resolution stands.  `Resolved` and `Fatal` are terminal.
pub enum ResolveState {
    /// Try the environment-style source first: it is the live, editable
    /// origin and wins over any cached snapshot.
    TryEnv,
    /// The environment source failed end-to-end; try the snapshot.
    TrySnapshot,
    /// Both sources failed; write a default environment source.
    Generate,
    /// A default source was written; read the environment source once
    /// more.  This retry happens at most once per run.
    RetryEnv,
    /// A source produced a complete, well-typed aggregate.
    Resolved(Config),
    /// Every source failed, the generated one included; the value carried
    /// is the last error encountered.
    Fatal(ConfigError),
}

/// What the caller feeds back: the text of the file a state asked it to
/// read (`None` when absent or unreadable), or whether a write succeeded.
pub enum ResolveEvent {
    SourceText(Option<String>),
    WriteOutcome(bool),
}

/// What a state asks the caller to do next.
#[derive(Clone, Copy, PartialEq, Eq, Structural, Debug)]
pub enum ResolveAction {
    /// Read the environment-style source file and hand back its text.
    ReadEnvSource,
    /// Read the snapshot file and hand back its text.
    ReadSnapshot,
    /// Write `default_env_text()` to the environment source's canonical
    /// location, overwriting any file there, and report success.
    WriteDefaultSource,
    /// Terminal: nothing is left to do.
    Done,
}

pub open spec fn spec_is_terminal(st: ResolveState) -> bool {
    st matches ResolveState::Resolved(_) || st matches ResolveState::Fatal(_)
}

pub open spec fn spec_expects_text(st: ResolveState) -> bool {
    st matches ResolveState::TryEnv || st matches ResolveState::TrySnapshot
        || st matches ResolveState::RetryEnv
}

pub open spec fn spec_pending_action(st: ResolveState) -> ResolveAction {
    match st {
        ResolveState::TryEnv => ResolveAction::ReadEnvSource,
        ResolveState::TrySnapshot => ResolveAction::ReadSnapshot,
        ResolveState::Generate => ResolveAction::WriteDefaultSource,
        ResolveState::RetryEnv => ResolveAction::ReadEnvSource,
        ResolveState::Resolved(_) => ResolveAction::Done,
        ResolveState::Fatal(_) => ResolveAction::Done,
    }
}

/// The action a state asks for.
pub fn pending_action(st: &ResolveState) -> (r: ResolveAction)
    ensures
        r == spec_pending_action(*st),
{
    match st {
        ResolveState::TryEnv => ResolveAction::ReadEnvSource,
        ResolveState::TrySnapshot => ResolveAction::ReadSnapshot,
        ResolveState::Generate => ResolveAction::WriteDefaultSource,
        ResolveState::RetryEnv => ResolveAction::ReadEnvSource,
        ResolveState::Resolved(_) => ResolveAction::Done,
        ResolveState::Fatal(_) => ResolveAction::Done,
    }
}

/// One transition of the resolution pipeline.
///
/// A source that fails for any reason — absent file, unreadable text, a
/// missing key, a malformed value — is never half-applied: the pipeline
/// falls to the next source in order, and only a complete, well-typed
/// load resolves.  After the generated source also fails, the outcome is
/// `Fatal` with the last error encountered.
pub fn resolve_step(st: ResolveState, ev: ResolveEvent) -> (r: ResolveState)
    requires
        !spec_is_terminal(st),
        (ev matches ResolveEvent::SourceText(_)) <==> spec_expects_text(st),
    ensures
        (match st {
            ResolveState::TryEnv => (match ev {
                ResolveEvent::SourceText(t) => (match t {
                    Option::None => r matches ResolveState::TrySnapshot,
                    Option::Some(text) => (match spec_env_resolve(text@) {
                        Ok(v) => r matches ResolveState::Resolved(c) && c@ == v,
                        Err(_) => r matches ResolveState::TrySnapshot,
                    }),
                }),
                ResolveEvent::WriteOutcome(_) => true,
            }),
            ResolveState::TrySnapshot => (match ev {
                ResolveEvent::SourceText(t) => (match t {
                    Option::None => r matches ResolveState::Generate,
                    Option::Some(text) => (match spec_decode(text@) {
                        Option::Some(cv) => r matches ResolveState::Resolved(c) && c@ == cv,
                        Option::None => r matches ResolveState::Generate,
                    }),
                }),
                ResolveEvent::WriteOutcome(_) => true,
            }),
            ResolveState::Generate => (match ev {
                ResolveEvent::WriteOutcome(wrote) => (if wrote {
                    r matches ResolveState::RetryEnv
                } else {
                    r matches ResolveState::Fatal(e) && e == ConfigError::Io
                }),
                ResolveEvent::SourceText(_) => true,
            }),
            ResolveState::RetryEnv => (match ev {
                ResolveEvent::SourceText(t) => (match t {
                    Option::None => r matches ResolveState::Fatal(e) && e
                        == ConfigError::SourceUnavailable,
                    Option::Some(text) => (match spec_env_resolve(text@) {
                        Ok(v) => r matches ResolveState::Resolved(c) && c@ == v,
                        Err(e) => r matches ResolveState::Fatal(e2) && e2 == e,
                    }),
                }),
                ResolveEvent::WriteOutcome(_) => true,
            }),
            ResolveState::Resolved(_) => true,
            ResolveState::Fatal(_) => true,
        }),
{
    match st {
        ResolveState::TryEnv => {
            match ev {
                ResolveEvent::SourceText(t) => {
                    match t {
                        Option::None => ResolveState::TrySnapshot,
                        Option::Some(text) => {
                            match load_env_text(text.as_str()) {
                                Ok(c) => ResolveState::Resolved(c),
                                Err(_) => ResolveState::TrySnapshot,
                            }
                        },
                    }
                },
                ResolveEvent::WriteOutcome(_) => ResolveState::TrySnapshot,
            }
        },
        ResolveState::TrySnapshot => {
            match ev {
                ResolveEvent::SourceText(t) => {
                    match t {
                        Option::None => ResolveState::Generate,
                        Option::Some(text) => {
                            match Config::load_from_json(text.as_str()) {
                                Option::Some(c) => ResolveState::Resolved(c),
                                Option::None => ResolveState::Generate,
                            }
                        },
                    }
                },
                ResolveEvent::WriteOutcome(_) => ResolveState::Generate,
            }
        },
        ResolveState::Generate => {
            match ev {
                ResolveEvent::WriteOutcome(wrote) => {
                    if wrote {
                        ResolveState::RetryEnv
                    } else {
                        ResolveState::Fatal(ConfigError::Io)
                    }
                },
                ResolveEvent::SourceText(_) => ResolveState::Fatal(ConfigError::Io),
            }
        },
        ResolveState::RetryEnv => {
            match ev {
                ResolveEvent::SourceText(t) => {
                    match t {
                        Option::None => ResolveState::Fatal(ConfigError::SourceUnavailable),
                        Option::Some(text) => {
                            match load_env_text(text.as_str()) {
                                Ok(c) => ResolveState::Resolved(c),
                                Err(e) => ResolveState::Fatal(e),
                            }
                        },
                    }
                },
                ResolveEvent::WriteOutcome(_) => ResolveState::Fatal(
                    ConfigError::SourceUnavailable,
                ),
            }
        },
        ResolveState::Resolved(c) => ResolveState::Resolved(c),
        ResolveState::Fatal(e) => ResolveState::Fatal(e),
    }
}

pub open spec fn spec_default_env_text() -> Seq<char> {
    "# Session Name\nNAME = \"TG8CHAN\"\n\n# Telegram API\nAPI_ID = 0\nAPI_HASH = \"abcd\"\nBOT_TOKEN = \"wxyz\"\n\n# DB and Log\nSEED = 10\nOWNER_ID = 123\nDATABASE_FILE = \"database.db\"\nLOG_FILE = \"stats.log\"\nMEDIA_DIR = \"media\"\n\n# Posting Policies\nPOST_INTERVAL = 300\nRESTRICT_DISLIKE_LIMIT = 10\nDELETE_DISLIKE_LIMIT = 5\nPIN_LIKE_LIMIT = 10\nAUTODELETE_COUNT = 50\n\n# Media Policies\nMAX_MEDIA_SIZE = 2000000\n"@
}

/// The default environment source the pipeline materializes on first run,
/// verbatim.
pub fn default_env_text() -> (r: String)
    ensures
        r@ == spec_default_env_text(),
{
    "# Session Name\nNAME = \"TG8CHAN\"\n\n# Telegram API\nAPI_ID = 0\nAPI_HASH = \"abcd\"\nBOT_TOKEN = \"wxyz\"\n\n# DB and Log\nSEED = 10\nOWNER_ID = 123\nDATABASE_FILE = \"database.db\"\nLOG_FILE = \"stats.log\"\nMEDIA_DIR = \"media\"\n\n# Posting Policies\nPOST_INTERVAL = 300\nRESTRICT_DISLIKE_LIMIT = 10\nDELETE_DISLIKE_LIMIT = 5\nPIN_LIKE_LIMIT = 10\nAUTODELETE_COUNT = 50\n\n# Media Policies\nMAX_MEDIA_SIZE = 2000000\n".to_owned()
}

} // verus!
