//! Toolchain resolution: locating the external `prex` compiler binary.
//!
//! The strategy is an ordered fallback: a cached path in the local config,
//! then a sibling-directory convention, then the executable search path,
//! then an interactive prompt. Only the interactively confirmed path is
//! persisted. The logic is a state machine: every state either names the
//! single outside observation it needs — a file read, an existence check, a
//! search, a prompt — or is a conclusion. The surrounding binary performs
//! the observation and feeds the answer back through [`resolver_step`].

use vstd::prelude::*;
use vstd::pervasive::unreached;
use vstd::string::*;
use crate::toml_data::{config_path_of, config_text_of, read_config_path, render_config};

verus! {

/// An outside observation the resolver needs next.
pub enum PathQuery {
    /// Read the local config file, if it can be read.
    ReadConfig,
    /// Does this path exist on disk?
    CheckPath { path: String },
    /// Search the executable search path for the compiler's name.
    SearchEnvPath,
    /// Prompt for a full path and read one trimmed line.
    AskUser,
}

/// Where a resolution stands.
pub enum ResolverState {
    /// Waiting for the local config text.
    AwaitConfig,
    /// The config named `path`; waiting to hear whether it exists.
    AwaitCachedCheck { path: String },
    /// Waiting to hear whether the conventional sibling directory exists.
    AwaitSiblingCheck,
    /// Waiting for the executable-search-path result.
    AwaitSearch,
    /// Waiting for the user's line.
    AwaitUser,
    /// The user offered `path`; waiting to hear whether it exists.
    AwaitUserCheck { path: String },
    /// Conclusion: the compiler is at `path`. If `persist` is set, it holds
    /// the local-config text to write, recording `path` for later runs.
    Resolved { path: String, persist: Option<String> },
    /// Conclusion: resolution failed; the whole process must stop after
    /// reporting `message`.
    Failed { message: String },
}

/// The answer to a [`PathQuery`].
pub enum ResolverEvent {
    /// The local config text, or `None` when the file could not be read.
    ConfigText { text: Option<String> },
    /// The answer to an existence check.
    PathExists { exists: bool },
    /// The search result: a found binary's path, or `None`.
    SearchResult { found: Option<String> },
    /// The user's line, already trimmed.
    UserInput { line: String },
}

/// Whether `e` answers the observation `s` is waiting for.
pub open spec fn resolver_event_fits(s: ResolverState, e: ResolverEvent) -> bool {
    match (s, e) {
        (ResolverState::AwaitConfig, ResolverEvent::ConfigText { .. }) => true,
        (ResolverState::AwaitCachedCheck { .. }, ResolverEvent::PathExists { .. }) => true,
        (ResolverState::AwaitSiblingCheck, ResolverEvent::PathExists { .. }) => true,
        (ResolverState::AwaitSearch, ResolverEvent::SearchResult { .. }) => true,
        (ResolverState::AwaitUser, ResolverEvent::UserInput { .. }) => true,
        (ResolverState::AwaitUserCheck { .. }, ResolverEvent::PathExists { .. }) => true,
        _ => false,
    }
}

/// The transition relation of the resolver: `t` is the state after `s`
/// hears `e`. A parsed cached path is validated before use; any failure to
/// read or parse the config is a silent cache miss; the sibling directory
/// and search results are taken as they are; a user path is validated and,
/// only when it exists, recorded for persistence; a user path that does not
/// exist is a fatal conclusion.
pub open spec fn resolver_step_spec(s: ResolverState, e: ResolverEvent, t: ResolverState) -> bool {
    match (s, e) {
        (ResolverState::AwaitConfig, ResolverEvent::ConfigText { text }) => match text {
            Some(c) => match config_path_of(c@) {
                Some(p) => t matches ResolverState::AwaitCachedCheck { path } && path@ == p,
                None => t == ResolverState::AwaitSiblingCheck,
            },
            None => t == ResolverState::AwaitSiblingCheck,
        },
        (ResolverState::AwaitCachedCheck { path }, ResolverEvent::PathExists { exists }) => {
            if exists {
                &&& t matches ResolverState::Resolved { path: found, persist }
                &&& found == path
                &&& persist is None
            } else {
                t == ResolverState::AwaitSiblingCheck
            }
        },
        (ResolverState::AwaitSiblingCheck, ResolverEvent::PathExists { exists }) => {
            if exists {
                &&& t matches ResolverState::Resolved { path: found, persist }
                &&& found@ == "../prex"@
                &&& persist is None
            } else {
                t == ResolverState::AwaitSearch
            }
        },
        (ResolverState::AwaitSearch, ResolverEvent::SearchResult { found }) => match found {
            Some(p) => {
                &&& t matches ResolverState::Resolved { path, persist }
                &&& path == p
                &&& persist is None
            },
            None => t == ResolverState::AwaitUser,
        },
        (ResolverState::AwaitUser, ResolverEvent::UserInput { line }) => {
            t matches ResolverState::AwaitUserCheck { path } && path == line
        },
        (ResolverState::AwaitUserCheck { path }, ResolverEvent::PathExists { exists }) => {
            if exists {
                &&& t matches ResolverState::Resolved { path: found, persist }
                &&& found == path
                &&& persist matches Some(cfg)
                &&& cfg@ == config_text_of(path@)
            } else {
                &&& t matches ResolverState::Failed { message }
                &&& message@ == "File does not exist: "@ + path@
            }
        },
        _ => false,
    }
}

/// Which observation, if any, a state waits for; conclusions wait for none.
pub open spec fn resolver_query_spec(s: ResolverState, q: Option<PathQuery>) -> bool {
    match s {
        ResolverState::AwaitConfig => q == Some(PathQuery::ReadConfig),
        ResolverState::AwaitCachedCheck { path } => {
            q matches Some(PathQuery::CheckPath { path: p }) && p == path
        },
        ResolverState::AwaitSiblingCheck => {
            q matches Some(PathQuery::CheckPath { path: p }) && p@ == "../prex"@
        },
        ResolverState::AwaitSearch => q == Some(PathQuery::SearchEnvPath),
        ResolverState::AwaitUser => q == Some(PathQuery::AskUser),
        ResolverState::AwaitUserCheck { path } => {
            q matches Some(PathQuery::CheckPath { path: p }) && p == path
        },
        ResolverState::Resolved { .. } => q is None,
        ResolverState::Failed { .. } => q is None,
    }
}

/// A fresh resolution starts by consulting the local config.
pub fn resolver_init() -> (s: ResolverState)
    ensures
        s == ResolverState::AwaitConfig,
{
    ResolverState::AwaitConfig
}

/// The observation the resolver needs next, or `None` once it concluded.
pub fn resolver_query(s: &ResolverState) -> (q: Option<PathQuery>)
    ensures
        resolver_query_spec(*s, q),
{
    match s {
        ResolverState::AwaitConfig => Some(PathQuery::ReadConfig),
        ResolverState::AwaitCachedCheck { path } => {
            Some(PathQuery::CheckPath { path: path.clone() })
        },
        ResolverState::AwaitSiblingCheck => {
            Some(PathQuery::CheckPath { path: String::from_str("../prex") })
        },
        ResolverState::AwaitSearch => Some(PathQuery::SearchEnvPath),
        ResolverState::AwaitUser => Some(PathQuery::AskUser),
        ResolverState::AwaitUserCheck { path } => {
            Some(PathQuery::CheckPath { path: path.clone() })
        },
        ResolverState::Resolved { .. } => None,
        ResolverState::Failed { .. } => None,
    }
}

/// Advances the resolver by one observation.
pub fn resolver_step(s: ResolverState, e: ResolverEvent) -> (t: ResolverState)
    requires
        resolver_event_fits(s, e),
    ensures
        resolver_step_spec(s, e, t),
{
    match (s, e) {
        (ResolverState::AwaitConfig, ResolverEvent::ConfigText { text }) => match text {
            Some(c) => match read_config_path(c.as_str()) {
                Some(p) => ResolverState::AwaitCachedCheck { path: p },
                None => ResolverState::AwaitSiblingCheck,
            },
            None => ResolverState::AwaitSiblingCheck,
        },
        (ResolverState::AwaitCachedCheck { path }, ResolverEvent::PathExists { exists }) => {
            if exists {
                ResolverState::Resolved { path, persist: None }
            } else {
                ResolverState::AwaitSiblingCheck
            }
        },
        (ResolverState::AwaitSiblingCheck, ResolverEvent::PathExists { exists }) => {
            if exists {
                ResolverState::Resolved { path: String::from_str("../prex"), persist: None }
            } else {
                ResolverState::AwaitSearch
            }
        },
        (ResolverState::AwaitSearch, ResolverEvent::SearchResult { found }) => match found {
            Some(p) => ResolverState::Resolved { path: p, persist: None },
            None => ResolverState::AwaitUser,
        },
        (ResolverState::AwaitUser, ResolverEvent::UserInput { line }) => {
            ResolverState::AwaitUserCheck { path: line }
        },
        (ResolverState::AwaitUserCheck { path }, ResolverEvent::PathExists { exists }) => {
            if exists {
                let cfg = render_config(path.as_str());
                ResolverState::Resolved { path, persist: Some(cfg) }
            } else {
                let message = String::from_str("File does not exist: ").concat(path.as_str());
                ResolverState::Failed { message }
            }
        },
        _ => unreached(),
    }
}

/// The prompt shown before reading the user's line.
pub fn prompt_text() -> (r: String)
    ensures
        r@ == "Enter full path to prex binary: "@,
{
    String::from_str("Enter full path to prex binary: ")
}

/// The compiler path a resolution produced, once it has concluded.
pub fn get_prex_path(s: &ResolverState) -> (r: Option<String>)
    ensures
        match s {
            ResolverState::Resolved { path, .. } => r matches Some(p) && p == path,
            _ => r is None,
        },
{
    match s {
        ResolverState::Resolved { path, .. } => Some(path.clone()),
        _ => None,
    }
}

/// Law: resolution from a valid cached path is idempotent. When the local
/// config parses to a path and that path exists on disk, a run concludes at
/// once with exactly that path and asks for nothing to be persisted; so a
/// second run over the unchanged config concludes with the same path, and
/// neither run ever reaches the prompt.
pub proof fn lemma_cached_resolution_idempotent(
    c: String,
    t1: ResolverState,
    t2: ResolverState,
    u1: ResolverState,
    u2: ResolverState,
)
    requires
        config_path_of(c@) is Some,
        resolver_step_spec(
            ResolverState::AwaitConfig,
            ResolverEvent::ConfigText { text: Some(c) },
            t1,
        ),
        resolver_step_spec(t1, ResolverEvent::PathExists { exists: true }, t2),
        resolver_step_spec(
            ResolverState::AwaitConfig,
            ResolverEvent::ConfigText { text: Some(c) },
            u1,
        ),
        resolver_step_spec(u1, ResolverEvent::PathExists { exists: true }, u2),
    ensures
        t2 matches ResolverState::Resolved { path, persist } && path@ == config_path_of(c@)->Some_0
            && persist is None,
        u2 matches ResolverState::Resolved { path, persist } && path@ == config_path_of(c@)->Some_0
            && persist is None,
{
}

/// Law: a cached path that fails its existence check falls through exactly
/// as an absent config does. When the config parses to a path but the path
/// does not exist, the run stands where a run whose config could not be
/// read stands after its very first step, so every later strategy coincides.
pub proof fn lemma_stale_cache_falls_through(
    c: String,
    t1: ResolverState,
    t2: ResolverState,
    u1: ResolverState,
)
    requires
        config_path_of(c@) is Some,
        resolver_step_spec(
            ResolverState::AwaitConfig,
            ResolverEvent::ConfigText { text: Some(c) },
            t1,
        ),
        resolver_step_spec(t1, ResolverEvent::PathExists { exists: false }, t2),
        resolver_step_spec(ResolverState::AwaitConfig, ResolverEvent::ConfigText { text: None }, u1),
    ensures
        t2 == ResolverState::AwaitSiblingCheck,
        t2 == u1,
{
}

/// Law: interactive resolution rejects a path that does not exist. From the
/// prompt, a line whose path fails the existence check drives the resolver
/// to the failed conclusion carrying the rejection message; neither state of
/// this run is `Resolved`, and only a `Resolved` state carries a config
/// text to persist, so nothing is written on this run.
pub proof fn lemma_reject_missing_user_path(line: String, t1: ResolverState, t2: ResolverState)
    requires
        resolver_step_spec(ResolverState::AwaitUser, ResolverEvent::UserInput { line: line }, t1),
        resolver_step_spec(t1, ResolverEvent::PathExists { exists: false }, t2),
    ensures
        t1 matches ResolverState::AwaitUserCheck { path } && path == line,
        t2 matches ResolverState::Failed { message } && message@ == "File does not exist: "@
            + line@,
        !(t1 matches ResolverState::Resolved { .. }),
        !(t2 matches ResolverState::Resolved { .. }),
{
}

} // verus!
