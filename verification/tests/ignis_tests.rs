use ignis::has_source_ext;
use ignis::manifest::Manifest;
use ignis::orchestrator::{
    build_command, build_init, build_ok_message, build_query, build_step, run_message,
    select_sources, BuildEvent, BuildKind, BuildQuery, BuildState,
};
use ignis::resolver::{
    get_prex_path, prompt_text, resolver_init, resolver_query, resolver_step, PathQuery,
    ResolverEvent, ResolverState,
};
use ignis::scaffold::scaffold_plan;

#[test]
fn source_extension_cases() {
    assert!(has_source_ext("main.prx"));
    assert!(has_source_ext("a.prx"));
    assert!(has_source_ext("..prx"));
    assert!(has_source_ext("nested.name.prx"));
    assert!(!has_source_ext(".prx"));
    assert!(!has_source_ext("prx"));
    assert!(!has_source_ext("main.rs"));
    assert!(!has_source_ext("main.prxx"));
    assert!(!has_source_ext(""));
}

#[test]
fn select_sources_keeps_only_matching_names_in_order() {
    let names = vec![
        "main.prx".to_string(),
        "notes.txt".to_string(),
        "util.prx".to_string(),
        ".prx".to_string(),
    ];
    let selected = select_sources(&names);
    assert_eq!(selected, vec!["src/main.prx".to_string(), "src/util.prx".to_string()]);
}

#[test]
fn select_sources_empty_when_nothing_matches() {
    assert_eq!(select_sources(&vec![]), Vec::<String>::new());
    let names = vec!["a.rs".to_string(), "b.toml".to_string()];
    assert_eq!(select_sources(&names), Vec::<String>::new());
}

#[test]
fn build_command_exact() {
    let sources = vec!["src/main.prx".to_string(), "src/util.prx".to_string()];
    let cmd = build_command("../prex", &sources, "out.elf");
    assert_eq!(cmd, "../prex src/main.prx src/util.prx ; mv output.elf out.elf");
}

#[test]
fn build_command_no_sources() {
    let cmd = build_command("/usr/bin/prex", &vec![], "a.elf");
    assert_eq!(cmd, "/usr/bin/prex ; mv output.elf a.elf");
}

#[test]
fn scaffold_demo_contents() {
    let plan = scaffold_plan("demo");
    assert_eq!(plan.root_dir, "demo");
    assert_eq!(plan.src_dir, "demo/src");
    assert_eq!(plan.manifest_path, "demo/prex.toml");
    assert_eq!(plan.source_path, "demo/src/main.prx");
    assert_eq!(
        plan.manifest_text,
        "[package]\nname = \"demo\"\nversion = \"0.1.0\"\n[dependencies]\n[build]\noutput = \"output.elf\"\n"
    );
    assert_eq!(
        plan.source_text,
        "defun main() > i32 {\n    // Hello from Rust Ignis!\n    ret 0;\n}\n"
    );
}

#[test]
fn scaffold_manifest_parses_back() {
    let plan = scaffold_plan("demo");
    let m = Manifest::parse(&plan.manifest_text).expect("scaffold manifest must parse");
    assert_eq!(m.name, "demo");
    assert_eq!(m.version, "0.1.0");
    assert_eq!(m.output, "output.elf");
}

#[test]
fn manifest_parse_reads_fields() {
    let text = "[package]\nname = \"thing\"\nversion = \"2.3.4\"\n\n[dependencies]\nfoo = \"1\"\n\n[build]\noutput = \"thing.elf\"\n";
    let m = Manifest::parse(text).expect("valid manifest");
    assert_eq!(m.name, "thing");
    assert_eq!(m.version, "2.3.4");
    assert_eq!(m.output, "thing.elf");
}

#[test]
fn manifest_parse_rejects_bad_documents() {
    assert!(Manifest::parse("not toml ][").is_none());
    assert!(Manifest::parse("").is_none());
    assert!(Manifest::parse("[package]\nname = \"x\"\nversion = \"0.1.0\"\n").is_none());
    assert!(Manifest::parse(
        "[package]\nname = 3\nversion = \"0.1.0\"\n[build]\noutput = \"o\"\n"
    )
    .is_none());
    assert!(Manifest::parse("[package]\nname = \"x\"\n[build]\noutput = \"o\"\n").is_none());
}

fn step_all(state: ResolverState, events: Vec<ResolverEvent>) -> ResolverState {
    let mut s = state;
    for e in events {
        s = resolver_step(s, e);
    }
    s
}

#[test]
fn resolver_cached_path_is_idempotent() {
    let config = "prex_path = \"/opt/tool/prex\"\n".to_string();
    let mut paths = Vec::new();
    for _ in 0..2 {
        let s0 = resolver_init();
        assert!(matches!(resolver_query(&s0), Some(PathQuery::ReadConfig)));
        let s1 = resolver_step(s0, ResolverEvent::ConfigText { text: Some(config.clone()) });
        match &s1 {
            ResolverState::AwaitCachedCheck { path } => assert_eq!(path, "/opt/tool/prex"),
            _ => panic!("expected the cached-path check"),
        }
        let s2 = resolver_step(s1, ResolverEvent::PathExists { exists: true });
        match &s2 {
            ResolverState::Resolved { path, persist } => {
                assert_eq!(path, "/opt/tool/prex");
                assert!(persist.is_none());
            }
            _ => panic!("expected a resolved conclusion"),
        }
        assert!(resolver_query(&s2).is_none());
        paths.push(get_prex_path(&s2).unwrap());
    }
    assert_eq!(paths[0], paths[1]);
}

#[test]
fn resolver_stale_cache_falls_through_like_no_config() {
    let config = "prex_path = \"/gone/prex\"\n".to_string();
    let stale = step_all(
        resolver_init(),
        vec![
            ResolverEvent::ConfigText { text: Some(config) },
            ResolverEvent::PathExists { exists: false },
        ],
    );
    assert!(matches!(stale, ResolverState::AwaitSiblingCheck));
    let absent = step_all(resolver_init(), vec![ResolverEvent::ConfigText { text: None }]);
    assert!(matches!(absent, ResolverState::AwaitSiblingCheck));
    match resolver_query(&stale) {
        Some(PathQuery::CheckPath { path }) => assert_eq!(path, "../prex"),
        _ => panic!("expected the sibling-directory check"),
    }
}

#[test]
fn resolver_unparsable_config_is_a_cache_miss() {
    let s = step_all(
        resolver_init(),
        vec![ResolverEvent::ConfigText { text: Some("]]not toml".to_string()) }],
    );
    assert!(matches!(s, ResolverState::AwaitSiblingCheck));
    let s = step_all(
        resolver_init(),
        vec![ResolverEvent::ConfigText { text: Some("other = \"x\"\n".to_string()) }],
    );
    assert!(matches!(s, ResolverState::AwaitSiblingCheck));
}

#[test]
fn resolver_sibling_then_search_then_prompt() {
    let s = step_all(
        resolver_init(),
        vec![
            ResolverEvent::ConfigText { text: None },
            ResolverEvent::PathExists { exists: false },
        ],
    );
    assert!(matches!(s, ResolverState::AwaitSearch));
    assert!(matches!(resolver_query(&s), Some(PathQuery::SearchEnvPath)));
    let found = resolver_step(
        s,
        ResolverEvent::SearchResult { found: Some("/usr/bin/prex".to_string()) },
    );
    match &found {
        ResolverState::Resolved { path, persist } => {
            assert_eq!(path, "/usr/bin/prex");
            assert!(persist.is_none());
        }
        _ => panic!("expected a resolved conclusion"),
    }
}

#[test]
fn resolver_sibling_directory_wins_when_present() {
    let s = step_all(
        resolver_init(),
        vec![
            ResolverEvent::ConfigText { text: None },
            ResolverEvent::PathExists { exists: true },
        ],
    );
    match &s {
        ResolverState::Resolved { path, persist } => {
            assert_eq!(path, "../prex");
            assert!(persist.is_none());
        }
        _ => panic!("expected a resolved conclusion"),
    }
}

#[test]
fn resolver_rejects_missing_user_path_without_persisting() {
    let s = step_all(
        resolver_init(),
        vec![
            ResolverEvent::ConfigText { text: None },
            ResolverEvent::PathExists { exists: false },
            ResolverEvent::SearchResult { found: None },
        ],
    );
    assert!(matches!(resolver_query(&s), Some(PathQuery::AskUser)));
    let s = resolver_step(s, ResolverEvent::UserInput { line: "/no/such/prex".to_string() });
    let s = resolver_step(s, ResolverEvent::PathExists { exists: false });
    match &s {
        ResolverState::Failed { message } => {
            assert_eq!(message, "File does not exist: /no/such/prex");
        }
        _ => panic!("expected a failed conclusion"),
    }
    assert!(get_prex_path(&s).is_none());
    assert!(resolver_query(&s).is_none());
}

#[test]
fn resolver_accepts_user_path_and_persists_a_readable_config() {
    let s = step_all(
        resolver_init(),
        vec![
            ResolverEvent::ConfigText { text: None },
            ResolverEvent::PathExists { exists: false },
            ResolverEvent::SearchResult { found: None },
            ResolverEvent::UserInput { line: "/opt/prex".to_string() },
            ResolverEvent::PathExists { exists: true },
        ],
    );
    let config = match &s {
        ResolverState::Resolved { path, persist } => {
            assert_eq!(path, "/opt/prex");
            persist.clone().expect("the confirmed path must be persisted")
        }
        _ => panic!("expected a resolved conclusion"),
    };
    assert_eq!(get_prex_path(&s).unwrap(), "/opt/prex");
    let reread = resolver_step(resolver_init(), ResolverEvent::ConfigText { text: Some(config) });
    match &reread {
        ResolverState::AwaitCachedCheck { path } => assert_eq!(path, "/opt/prex"),
        _ => panic!("the persisted config must name the same path again"),
    }
}

#[test]
fn prompt_text_exact() {
    assert_eq!(prompt_text(), "Enter full path to prex binary: ");
}

const MANIFEST: &str =
    "[package]\nname = \"app\"\nversion = \"0.1.0\"\n[dependencies]\n[build]\noutput = \"app.elf\"\n";

fn step_build(kind: BuildKind, state: BuildState, events: Vec<BuildEvent>) -> BuildState {
    let mut s = state;
    for e in events {
        s = build_step(kind, s, e);
    }
    s
}

#[test]
fn missing_manifest_aborts_before_anything_else() {
    let s0 = build_init();
    assert!(matches!(build_query(&s0), Some(BuildQuery::CheckManifest)));
    let s = build_step(BuildKind::Build, s0, BuildEvent::ManifestPresent { present: false });
    match &s {
        BuildState::Aborted { message } => assert_eq!(message, "No prex.toml found!"),
        _ => panic!("expected an aborted conclusion"),
    }
    assert!(build_query(&s).is_none());
}

#[test]
fn malformed_manifest_is_the_abrupt_conclusion() {
    let s = step_build(
        BuildKind::Build,
        build_init(),
        vec![
            BuildEvent::ManifestPresent { present: true },
            BuildEvent::ManifestText { text: "][".to_string() },
        ],
    );
    assert!(matches!(s, BuildState::Malformed));
    assert!(build_query(&s).is_none());
}

#[test]
fn no_sources_aborts_before_any_subprocess() {
    for kind in [BuildKind::Build, BuildKind::Run] {
        let s = step_build(
            kind,
            build_init(),
            vec![
                BuildEvent::ManifestPresent { present: true },
                BuildEvent::ManifestText { text: MANIFEST.to_string() },
                BuildEvent::SourceNames {
                    names: vec!["readme.md".to_string(), ".prx".to_string()],
                },
            ],
        );
        match &s {
            BuildState::Aborted { message } => assert_eq!(message, "No .prx files found in src/!"),
            _ => panic!("expected an aborted conclusion"),
        }
        assert!(build_query(&s).is_none());
    }
}

#[test]
fn build_cycle_invokes_compiler_on_exactly_the_discovered_sources() {
    let s = step_build(
        BuildKind::Build,
        build_init(),
        vec![
            BuildEvent::ManifestPresent { present: true },
            BuildEvent::ManifestText { text: MANIFEST.to_string() },
            BuildEvent::SourceNames {
                names: vec![
                    "main.prx".to_string(),
                    "notes.txt".to_string(),
                    "util.prx".to_string(),
                ],
            },
            BuildEvent::ToolchainPath { path: "../prex".to_string() },
        ],
    );
    match build_query(&s) {
        Some(BuildQuery::RunCompiler { command }) => {
            assert_eq!(command, "../prex src/main.prx src/util.prx ; mv output.elf app.elf");
        }
        _ => panic!("expected the compile query"),
    }
    let done = build_step(BuildKind::Build, s, BuildEvent::CompileFinished { ok: true });
    match &done {
        BuildState::DoneOk { output } => assert_eq!(output, "app.elf"),
        _ => panic!("expected the successful conclusion"),
    }
    assert!(build_query(&done).is_none());
}

#[test]
fn failed_compile_aborts_with_the_failure_message() {
    let s = step_build(
        BuildKind::Build,
        build_init(),
        vec![
            BuildEvent::ManifestPresent { present: true },
            BuildEvent::ManifestText { text: MANIFEST.to_string() },
            BuildEvent::SourceNames { names: vec!["main.prx".to_string()] },
            BuildEvent::ToolchainPath { path: "../prex".to_string() },
            BuildEvent::CompileFinished { ok: false },
        ],
    );
    match &s {
        BuildState::Aborted { message } => assert_eq!(message, "[Ignis] Build failed!"),
        _ => panic!("expected an aborted conclusion"),
    }
}

#[test]
fn run_cycle_executes_the_artifact_after_a_successful_build() {
    let s = step_build(
        BuildKind::Run,
        build_init(),
        vec![
            BuildEvent::ManifestPresent { present: true },
            BuildEvent::ManifestText { text: MANIFEST.to_string() },
            BuildEvent::SourceNames { names: vec!["main.prx".to_string()] },
            BuildEvent::ToolchainPath { path: "/usr/bin/prex".to_string() },
            BuildEvent::CompileFinished { ok: true },
        ],
    );
    match build_query(&s) {
        Some(BuildQuery::RunArtifact { program }) => assert_eq!(program, "./app.elf"),
        _ => panic!("expected the artifact query"),
    }
    let done = build_step(BuildKind::Run, s, BuildEvent::ArtifactFinished);
    match &done {
        BuildState::DoneOk { output } => assert_eq!(output, "app.elf"),
        _ => panic!("expected the successful conclusion"),
    }
}

#[test]
fn report_lines_exact() {
    assert_eq!(build_ok_message("app.elf"), "[Ignis] Build OK! Output: app.elf");
    assert_eq!(run_message("app.elf"), "[Ignis] Running: ./app.elf");
}
