//! Build orchestration: one build cycle, from the manifest check to the
//! compiler invocation and, for the run operation, the artifact execution.
//!
//! As in [`crate::resolver`], the logic is a state machine: every state
//! names the single outside step it needs — a file check, a file read, a
//! directory listing, a toolchain resolution, a subprocess — or is a
//! conclusion. The surrounding binary performs the step and feeds the
//! answer back through [`build_step`]. The machine itself decides what is
//! compiled and with what command line.

use vstd::prelude::*;
use vstd::pervasive::unreached;
use vstd::string::*;
use crate::{has_source_ext, is_source_name, source_path_of, views_of};
use crate::manifest::Manifest;
use crate::toml_data::manifest_fields_of;

verus! {

/// The names of a directory listing that count as sources, each under the
/// fixed `src` subdirectory, in listing order.
pub open spec fn selected_sources(names: Seq<String>) -> Seq<Seq<char>>
    decreases names.len(),
{
    if names.len() == 0 {
        Seq::empty()
    } else {
        let rest = selected_sources(names.drop_last());
        if is_source_name(names.last()@) {
            rest.push(source_path_of(names.last()@))
        } else {
            rest
        }
    }
}

/// The sources as they stand on the command line: each followed by one
/// space.
pub open spec fn joined_sources(sources: Seq<Seq<char>>) -> Seq<char>
    decreases sources.len(),
{
    if sources.len() == 0 {
        Seq::<char>::empty()
    } else {
        joined_sources(sources.drop_last()) + sources.last() + " "@
    }
}

/// The single shell command a build runs: the compiler path, the source
/// paths, and the fixed instruction renaming the compiler's fixed artifact
/// to the configured output name, chained with a command separator.
pub open spec fn command_line(
    compiler: Seq<char>,
    sources: Seq<Seq<char>>,
    output: Seq<char>,
) -> Seq<char> {
    compiler + " "@ + joined_sources(sources) + "; mv output.elf "@ + output
}

/// Keeps the names that count as sources, in order, each under `src/`.
pub fn select_sources(names: &Vec<String>) -> (r: Vec<String>)
    ensures
        views_of(r@) == selected_sources(names@),
{
    let mut r: Vec<String> = Vec::new();
    let mut i: usize = 0;
    while i < names.len()
        invariant
            i <= names.len(),
            views_of(r@) == selected_sources(names@.take(i as int)),
        decreases names.len() - i,
    {
        proof {
            assert(names@.take(i + 1).drop_last() =~= names@.take(i as int));
            assert(names@.take(i + 1).last() == names@[i as int]);
        }
        if has_source_ext(names[i].as_str()) {
            let path = String::from_str("src/").concat(names[i].as_str());
            r.push(path);
        }
        proof {
            assert(views_of(r@) =~= selected_sources(names@.take(i + 1)));
        }
        i += 1;
    }
    proof {
        assert(names@.take(names@.len() as int) =~= names@);
    }
    r
}

/// Assembles the shell command for one build.
pub fn build_command(compiler: &str, sources: &Vec<String>, output: &str) -> (r: String)
    ensures
        r@ == command_line(compiler@, views_of(sources@), output@),
{
    let mut cmd = String::from_str(compiler).concat(" ");
    let mut i: usize = 0;
    while i < sources.len()
        invariant
            i <= sources.len(),
            cmd@ == compiler@ + " "@ + joined_sources(views_of(sources@.take(i as int))),
        decreases sources.len() - i,
    {
        cmd.append(sources[i].as_str());
        cmd.append(" ");
        proof {
            let pre = views_of(sources@.take(i as int));
            let cur = views_of(sources@.take(i + 1));
            assert(cur.drop_last() =~= pre);
            assert(cur.last() == sources@[i as int]@);
            assert(cmd@ =~= compiler@ + " "@ + joined_sources(cur));
        }
        i += 1;
    }
    proof {
        assert(sources@.take(sources@.len() as int) =~= sources@);
    }
    cmd.append("; mv output.elf ");
    cmd.append(output);
    proof {
        assert(cmd@ =~= command_line(compiler@, views_of(sources@), output@));
    }
    cmd
}

/// Which operation a cycle serves: `Run` executes the artifact after a
/// successful build, `Build` stops there.
#[derive(Clone, Copy)]
pub enum BuildKind {
    Build,
    Run,
}

/// An outside step the orchestrator needs next.
pub enum BuildQuery {
    /// Does the manifest file exist in the working directory?
    CheckManifest,
    /// Read the manifest file.
    ReadManifest,
    /// List the file names directly inside the source subdirectory.
    ListSources,
    /// Resolve the compiler path (the [`crate::resolver`] machine).
    ResolveToolchain,
    /// Run this command through the shell and report its success.
    RunCompiler { command: String },
    /// Execute the artifact directly.
    RunArtifact { program: String },
}

/// Where a build cycle stands.
pub enum BuildState {
    /// Waiting to hear whether the manifest file exists.
    AwaitManifestPresence,
    /// Waiting for the manifest text.
    AwaitManifestText,
    /// Manifest loaded; waiting for the source directory listing.
    AwaitSourceList { manifest: Manifest },
    /// Sources selected; waiting for the compiler path.
    AwaitToolchain { manifest: Manifest, sources: Vec<String> },
    /// Command assembled; waiting for the compile to finish.
    AwaitCompile { manifest: Manifest, command: String },
    /// Run operation only: waiting for the artifact to finish.
    AwaitArtifact { output: String },
    /// Conclusion: the build succeeded and the artifact carries `output`.
    DoneOk { output: String },
    /// Conclusion: the cycle stopped after reporting `message`; the process
    /// itself goes on.
    Aborted { message: String },
    /// Conclusion: the manifest text was not a well-formed manifest; the
    /// process stops abruptly.
    Malformed,
}

/// The answer to a [`BuildQuery`].
pub enum BuildEvent {
    /// Whether the manifest file exists.
    ManifestPresent { present: bool },
    /// The manifest text.
    ManifestText { text: String },
    /// The file names directly inside the source subdirectory; empty when
    /// the directory cannot be listed.
    SourceNames { names: Vec<String> },
    /// The resolved compiler path.
    ToolchainPath { path: String },
    /// Whether the shell reported success.
    CompileFinished { ok: bool },
    /// The artifact terminated.
    ArtifactFinished,
}

/// Whether `e` answers the step `s` is waiting for.
pub open spec fn build_event_fits(s: BuildState, e: BuildEvent) -> bool {
    match (s, e) {
        (BuildState::AwaitManifestPresence, BuildEvent::ManifestPresent { .. }) => true,
        (BuildState::AwaitManifestText, BuildEvent::ManifestText { .. }) => true,
        (BuildState::AwaitSourceList { .. }, BuildEvent::SourceNames { .. }) => true,
        (BuildState::AwaitToolchain { .. }, BuildEvent::ToolchainPath { .. }) => true,
        (BuildState::AwaitCompile { .. }, BuildEvent::CompileFinished { .. }) => true,
        (BuildState::AwaitArtifact { .. }, BuildEvent::ArtifactFinished) => true,
        _ => false,
    }
}

/// The transition relation of the orchestrator: `t` is the state after `s`
/// hears `e` during a `kind` cycle. A missing manifest and an empty source
/// selection abort with their messages; a manifest that does not parse is
/// the abrupt conclusion; otherwise the cycle proceeds to the compile
/// command built from the resolved compiler, the selected sources and the
/// configured output, and on success either stops or goes on to the
/// artifact, by `kind`.
pub open spec fn build_step_spec(
    kind: BuildKind,
    s: BuildState,
    e: BuildEvent,
    t: BuildState,
) -> bool {
    match (s, e) {
        (BuildState::AwaitManifestPresence, BuildEvent::ManifestPresent { present }) => {
            if present {
                t == BuildState::AwaitManifestText
            } else {
                t matches BuildState::Aborted { message } && message@ == "No prex.toml found!"@
            }
        },
        (BuildState::AwaitManifestText, BuildEvent::ManifestText { text }) => {
            match manifest_fields_of(text@) {
                Some(f) => {
                    &&& t matches BuildState::AwaitSourceList { manifest }
                    &&& manifest.name@ == f.0
                    &&& manifest.version@ == f.1
                    &&& manifest.output@ == f.2
                },
                None => t == BuildState::Malformed,
            }
        },
        (BuildState::AwaitSourceList { manifest }, BuildEvent::SourceNames { names }) => {
            if selected_sources(names@).len() == 0 {
                t matches BuildState::Aborted { message } && message@
                    == "No .prx files found in src/!"@
            } else {
                &&& t matches BuildState::AwaitToolchain { manifest: m, sources }
                &&& m == manifest
                &&& views_of(sources@) == selected_sources(names@)
            }
        },
        (BuildState::AwaitToolchain { manifest, sources }, BuildEvent::ToolchainPath { path }) => {
            &&& t matches BuildState::AwaitCompile { manifest: m, command }
            &&& m == manifest
            &&& command@ == command_line(path@, views_of(sources@), manifest.output@)
        },
        (BuildState::AwaitCompile { manifest, .. }, BuildEvent::CompileFinished { ok }) => {
            if !ok {
                t matches BuildState::Aborted { message } && message@ == "[Ignis] Build failed!"@
            } else {
                match kind {
                    BuildKind::Run => {
                        t matches BuildState::AwaitArtifact { output } && output == manifest.output
                    },
                    BuildKind::Build => {
                        t matches BuildState::DoneOk { output } && output == manifest.output
                    },
                }
            }
        },
        (BuildState::AwaitArtifact { output }, BuildEvent::ArtifactFinished) => {
            t matches BuildState::DoneOk { output: done } && done == output
        },
        _ => false,
    }
}

/// Which outside step, if any, a state waits for; conclusions wait for
/// none.
pub open spec fn build_query_spec(s: BuildState, q: Option<BuildQuery>) -> bool {
    match s {
        BuildState::AwaitManifestPresence => q == Some(BuildQuery::CheckManifest),
        BuildState::AwaitManifestText => q == Some(BuildQuery::ReadManifest),
        BuildState::AwaitSourceList { .. } => q == Some(BuildQuery::ListSources),
        BuildState::AwaitToolchain { .. } => q == Some(BuildQuery::ResolveToolchain),
        BuildState::AwaitCompile { command, .. } => {
            q matches Some(BuildQuery::RunCompiler { command: c }) && c == command
        },
        BuildState::AwaitArtifact { output } => {
            q matches Some(BuildQuery::RunArtifact { program }) && program@ == "./"@ + output@
        },
        BuildState::DoneOk { .. } => q is None,
        BuildState::Aborted { .. } => q is None,
        BuildState::Malformed => q is None,
    }
}

/// A cycle starts by checking that the manifest file is present.
pub fn build_init() -> (s: BuildState)
    ensures
        s == BuildState::AwaitManifestPresence,
{
    BuildState::AwaitManifestPresence
}

/// The outside step the orchestrator needs next, or `None` once concluded.
pub fn build_query(s: &BuildState) -> (q: Option<BuildQuery>)
    ensures
        build_query_spec(*s, q),
{
    match s {
        BuildState::AwaitManifestPresence => Some(BuildQuery::CheckManifest),
        BuildState::AwaitManifestText => Some(BuildQuery::ReadManifest),
        BuildState::AwaitSourceList { .. } => Some(BuildQuery::ListSources),
        BuildState::AwaitToolchain { .. } => Some(BuildQuery::ResolveToolchain),
        BuildState::AwaitCompile { command, .. } => {
            Some(BuildQuery::RunCompiler { command: command.clone() })
        },
        BuildState::AwaitArtifact { output } => {
            Some(BuildQuery::RunArtifact {
                program: String::from_str("./").concat(output.as_str()),
            })
        },
        BuildState::DoneOk { .. } => None,
        BuildState::Aborted { .. } => None,
        BuildState::Malformed => None,
    }
}

/// Advances the orchestrator by one outside step.
pub fn build_step(kind: BuildKind, s: BuildState, e: BuildEvent) -> (t: BuildState)
    requires
        build_event_fits(s, e),
    ensures
        build_step_spec(kind, s, e, t),
{
    match (s, e) {
        (BuildState::AwaitManifestPresence, BuildEvent::ManifestPresent { present }) => {
            if present {
                BuildState::AwaitManifestText
            } else {
                BuildState::Aborted { message: String::from_str("No prex.toml found!") }
            }
        },
        (BuildState::AwaitManifestText, BuildEvent::ManifestText { text }) => {
            match Manifest::parse(text.as_str()) {
                Some(manifest) => BuildState::AwaitSourceList { manifest },
                None => BuildState::Malformed,
            }
        },
        (BuildState::AwaitSourceList { manifest }, BuildEvent::SourceNames { names }) => {
            let sources = select_sources(&names);
            if sources.len() == 0 {
                BuildState::Aborted {
                    message: String::from_str("No .prx files found in src/!"),
                }
            } else {
                BuildState::AwaitToolchain { manifest, sources }
            }
        },
        (BuildState::AwaitToolchain { manifest, sources }, BuildEvent::ToolchainPath { path }) => {
            let command = build_command(path.as_str(), &sources, manifest.output.as_str());
            BuildState::AwaitCompile { manifest, command }
        },
        (BuildState::AwaitCompile { manifest, .. }, BuildEvent::CompileFinished { ok }) => {
            if !ok {
                BuildState::Aborted { message: String::from_str("[Ignis] Build failed!") }
            } else {
                match kind {
                    BuildKind::Run => BuildState::AwaitArtifact { output: manifest.output },
                    BuildKind::Build => BuildState::DoneOk { output: manifest.output },
                }
            }
        },
        (BuildState::AwaitArtifact { output }, BuildEvent::ArtifactFinished) => {
            BuildState::DoneOk { output }
        },
        _ => unreached(),
    }
}

/// Law: the selected sources are exactly the `.prx`-named entries of the
/// listing, each under `src/`: every such entry is selected, and nothing
/// else is.
pub proof fn lemma_selected_sources_exact(names: Seq<String>)
    ensures
        forall|i: int|
            0 <= i < names.len() && is_source_name(names[i]@)
                ==> #[trigger] selected_sources(names).contains(source_path_of(names[i]@)),
        forall|p: Seq<char>| #[trigger]
            selected_sources(names).contains(p) ==> exists|i: int|
                0 <= i < names.len() && is_source_name(names[i]@) && p == source_path_of(
                    names[i]@,
                ),
    decreases names.len(),
{
    if names.len() > 0 {
        let pre = names.drop_last();
        let rest = selected_sources(pre);
        let sel = selected_sources(names);
        lemma_selected_sources_exact(pre);
        assert forall|i: int|
            0 <= i < names.len() && is_source_name(names[i]@) implies #[trigger] sel.contains(
            source_path_of(names[i]@),
        ) by {
            if i < names.len() - 1 {
                assert(rest.contains(source_path_of(pre[i]@)));
                let j = choose|j: int| 0 <= j < rest.len() && rest[j] == source_path_of(pre[i]@);
                assert(sel[j] == source_path_of(names[i]@));
            } else {
                assert(sel[sel.len() - 1] == source_path_of(names[i]@));
            }
        }
        assert forall|p: Seq<char>| #[trigger] sel.contains(p) implies exists|i: int|
            0 <= i < names.len() && is_source_name(names[i]@) && p == source_path_of(
                names[i]@,
            ) by {
            let j = choose|j: int| 0 <= j < sel.len() && sel[j] == p;
            if j < rest.len() {
                assert(rest[j] == p);
                assert(rest.contains(p));
                let i = choose|i: int|
                    0 <= i < pre.len() && is_source_name(pre[i]@) && p == source_path_of(pre[i]@);
                assert(0 <= i < names.len() && is_source_name(names[i]@) && p == source_path_of(
                    names[i]@,
                ));
            } else {
                assert(is_source_name(names.last()@) && p == source_path_of(names.last()@));
                assert(0 <= names.len() - 1 < names.len() && is_source_name(
                    names[names.len() - 1]@,
                ) && p == source_path_of(names[names.len() - 1]@));
            }
        }
    }
}

/// Law: the compiler is invoked on exactly the discovered sources. After a
/// listing with at least one matching name and a toolchain answer, the
/// cycle's one compile query carries the command line over precisely the
/// `.prx`-named entries of the listing, each under `src/`, in listing
/// order and no others, followed by the fixed rename to the configured
/// output.
pub proof fn lemma_compiler_invoked_on_discovered_sources(
    kind: BuildKind,
    manifest: Manifest,
    names: Vec<String>,
    path: String,
    t1: BuildState,
    t2: BuildState,
    q: Option<BuildQuery>,
)
    requires
        selected_sources(names@).len() > 0,
        build_step_spec(
            kind,
            BuildState::AwaitSourceList { manifest },
            BuildEvent::SourceNames { names },
            t1,
        ),
        build_step_spec(kind, t1, BuildEvent::ToolchainPath { path }, t2),
        build_query_spec(t2, q),
    ensures
        t2 matches BuildState::AwaitCompile { command, .. } && command@ == command_line(
            path@,
            selected_sources(names@),
            manifest.output@,
        ),
        q matches Some(BuildQuery::RunCompiler { command }) && command@ == command_line(
            path@,
            selected_sources(names@),
            manifest.output@,
        ),
        forall|i: int|
            0 <= i < names@.len() && is_source_name(names@[i]@)
                ==> #[trigger] selected_sources(names@).contains(source_path_of(names@[i]@)),
        forall|p: Seq<char>| #[trigger]
            selected_sources(names@).contains(p) ==> exists|i: int|
                0 <= i < names@.len() && is_source_name(names@[i]@) && p == source_path_of(
                    names@[i]@,
                ),
{
    lemma_selected_sources_exact(names@);
}

/// Law: a source directory with no matching file aborts the cycle before
/// any subprocess is requested. The listing drives the cycle straight to
/// the aborted conclusion with its message, and a concluded cycle asks for
/// no outside step at all — in particular no compile and no artifact run.
pub proof fn lemma_no_sources_spawns_nothing(
    kind: BuildKind,
    manifest: Manifest,
    names: Vec<String>,
    t: BuildState,
    q: Option<BuildQuery>,
)
    requires
        selected_sources(names@).len() == 0,
        build_step_spec(
            kind,
            BuildState::AwaitSourceList { manifest },
            BuildEvent::SourceNames { names },
            t,
        ),
        build_query_spec(t, q),
    ensures
        t matches BuildState::Aborted { message } && message@ == "No .prx files found in src/!"@,
        q is None,
{
}

/// Law: a missing manifest is reported and nothing else is read. The very
/// first step of any cycle is the manifest presence check, and on a
/// negative answer the cycle is an aborted conclusion that carries the
/// missing-manifest message and asks for no further outside step.
pub proof fn lemma_missing_manifest_reads_nothing(
    kind: BuildKind,
    q0: Option<BuildQuery>,
    t: BuildState,
    q: Option<BuildQuery>,
)
    requires
        build_query_spec(BuildState::AwaitManifestPresence, q0),
        build_step_spec(
            kind,
            BuildState::AwaitManifestPresence,
            BuildEvent::ManifestPresent { present: false },
            t,
        ),
        build_query_spec(t, q),
    ensures
        q0 == Some(BuildQuery::CheckManifest),
        t matches BuildState::Aborted { message } && message@ == "No prex.toml found!"@,
        q is None,
{
}

/// The line reported when a build succeeds.
pub fn build_ok_message(output: &str) -> (r: String)
    ensures
        r@ == "[Ignis] Build OK! Output: "@ + output@,
{
    String::from_str("[Ignis] Build OK! Output: ").concat(output)
}

/// The line reported before the artifact is executed.
pub fn run_message(output: &str) -> (r: String)
    ensures
        r@ == "[Ignis] Running: ./"@ + output@,
{
    String::from_str("[Ignis] Running: ./").concat(output)
}

} // verus!
