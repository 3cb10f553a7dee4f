use deno_loader::builder::FetchOutcome;
use deno_loader::errors::{DenoResolveKind, ErrorCode, ResolveFailure, ResolveFailureKind};
use deno_loader::manifest::PackageManifest;
use deno_loader::graph::{DepEdge, EdgeOutcome};
use deno_loader::load::{LoadStep, ModuleKind, RequestedKind, classify_module_kind};
use deno_loader::loader::DenoLoader;
use deno_loader::media::MediaKind;
use deno_loader::resolve::{EntrypointPrep, ResolutionDisposition, ResolvePrep};
use deno_loader::workspace::{DenoWorkspace, DenoWorkspaceOptions};

fn options() -> DenoWorkspaceOptions {
    DenoWorkspaceOptions {
        no_config: None,
        no_lock: None,
        platform: None,
        config_path: None,
        node_conditions: None,
        newest_dependency_date: None,
        cached_only: None,
        preserve_jsx: None,
        no_transpile: None,
        debug: None,
    }
}

fn new_loader() -> DenoLoader {
    DenoWorkspace::new(options(), String::from("/proj")).unwrap().create_loader().unwrap()
}

fn static_edge(raw: &str, target: &str) -> DepEdge {
    DepEdge {
        raw: raw.to_string(),
        outcome: EdgeOutcome::Resolved(target.to_string()),
        is_dynamic: false,
    }
}

fn ts_source(code: &[u8], edges: Vec<DepEdge>) -> FetchOutcome {
    FetchOutcome::Source {
        media: MediaKind::TypeScript,
        source: code.to_vec(),
        is_script: None,
        edges,
    }
}

/// Drives a build session with a scripted fetch-and-analyze step.
fn run_build(
    loader: &mut DenoLoader,
    roots: &[&str],
    fetch: impl Fn(&str) -> FetchOutcome,
) -> Vec<String> {
    let mut session = loader.begin_build(
        roots.iter().map(|s| s.to_string()).collect(),
        Vec::new(),
        false,
    );
    while let Some(location) = session.next_location() {
        let outcome = fetch(&location);
        session.module_loaded(location, outcome);
    }
    loader.commit_build(session)
}

fn fetch_three_module_project(location: &str) -> FetchOutcome {
    match location {
        "file:///proj/a.ts" => ts_source(
            b"import './b.ts';",
            vec![static_edge("./b.ts", "file:///proj/b.ts")],
        ),
        "file:///proj/b.ts" => ts_source(
            b"import 'npm:left-pad@1.3.0';",
            vec![static_edge("npm:left-pad@1.3.0", "npm:left-pad@1.3.0")],
        ),
        "npm:left-pad@1.3.0" => FetchOutcome::Registry {
            coordinate: String::from("npm:left-pad@1.3.0"),
        },
        other => panic!("unexpected fetch of {other}"),
    }
}

#[test]
fn entrypoints_grow_the_graph_with_zero_diagnostics() {
    let mut loader = new_loader();
    let diagnostics = run_build(&mut loader, &["file:///proj/a.ts"], fetch_three_module_project);
    assert!(diagnostics.is_empty());
    let graph = loader.get_graph();
    assert!(graph.lookup(&String::from("file:///proj/a.ts")).is_some());
    assert!(graph.lookup(&String::from("file:///proj/b.ts")).is_some());
    assert!(graph.lookup(&String::from("npm:left-pad@1.3.0")).is_some());
    assert!(graph.has_root(&String::from("file:///proj/a.ts")));
}

#[test]
fn end_to_end_entrypoint_resolve_and_load() {
    let mut loader = new_loader();
    let diagnostics = run_build(&mut loader, &["file:///proj/a.ts"], fetch_three_module_project);
    assert!(diagnostics.is_empty());

    // Resolving the coordinate from b.ts asks for exactly one growth cycle.
    match loader.classify_resolution(String::from("npm:left-pad@1.3.0")) {
        ResolutionDisposition::Expand { coordinate } => {
            let diags = run_build(&mut loader, &[&coordinate], fetch_three_module_project);
            assert!(diags.is_empty());
        },
        _ => panic!("expected an expansion"),
    }
    // After the commit the coordinate classifies as already expanded: the
    // protocol re-resolves synchronously, queueing nothing further.
    match loader.classify_resolution(String::from("npm:left-pad@1.3.0")) {
        ResolutionDisposition::AlreadyExpanded { .. } => {},
        _ => panic!("the committed coordinate must classify as already expanded"),
    }
    // The re-resolution is synchronous; the host's resolver elevates the
    // coordinate to a concrete installed location.
    let elevated = loader.finish_resolve(
        Ok(String::from("file:///proj/node_modules/left-pad/index.js")),
        &String::from("npm:left-pad@1.3.0"),
        Some(&String::from("file:///proj/b.ts")),
        &Vec::new(),
    );
    assert_eq!(elevated.unwrap(), "file:///proj/node_modules/left-pad/index.js");

    // The graph still holds all three modules.
    let graph = loader.get_graph();
    assert!(graph.lookup(&String::from("file:///proj/a.ts")).is_some());
    assert!(graph.lookup(&String::from("file:///proj/b.ts")).is_some());
    assert!(graph.lookup(&String::from("npm:left-pad@1.3.0")).is_some());

    // Loading the entrypoint transpiles it and returns executable bytes.
    match loader.load(String::from("file:///proj/a.ts"), 0).unwrap() {
        LoadStep::NeedsTranspile { specifier, media, source, .. } => {
            assert_eq!(specifier, "file:///proj/a.ts");
            assert_eq!(media, MediaKind::TypeScript);
            assert_eq!(source.as_slice(), b"import './b.ts';");
            let response = loader.finish_transpiled(specifier, b"import './b.js';".to_vec());
            assert_eq!(response.media_type, 0);
            assert_eq!(response.code.as_slice(), b"import './b.js';");
            assert!(!response.code.is_empty());
            assert_ne!(response.code.as_slice(), b"import './b.ts';");
        },
        other => panic!("expected a transpile step, got {:?}", step_name(&other)),
    }
}

fn step_name(step: &LoadStep) -> &'static str {
    match step {
        LoadStep::External { .. } => "external",
        LoadStep::Complete { .. } => "complete",
        LoadStep::NeedsTranspile { .. } => "needs-transpile",
        LoadStep::FetchAsset { .. } => "fetch-asset",
        LoadStep::FetchUnprepared { .. } => "fetch-unprepared",
    }
}

#[test]
fn expanding_a_coordinate_twice_grows_only_once() {
    let mut loader = new_loader();
    let mut growth_cycles = 0;

    // First resolution of a coordinate the graph does not hold.
    let resolved = String::from("npm:left-pad@1.3.0");
    match loader.classify_resolution(resolved.clone()) {
        ResolutionDisposition::Expand { coordinate } => {
            growth_cycles += 1;
            run_build(&mut loader, &[&coordinate], |l| FetchOutcome::Registry {
                coordinate: l.to_string(),
            });
        },
        _ => panic!("expected an expansion"),
    }
    // Second resolution of the same coordinate: zero additional cycles; the
    // engine re-resolves synchronously with elevation semantics instead.
    match loader.classify_resolution(resolved) {
        ResolutionDisposition::Expand { .. } => panic!("a second expansion must not happen"),
        ResolutionDisposition::Concrete { .. } => panic!("a coordinate is never final as-is"),
        ResolutionDisposition::AlreadyExpanded { coordinate } => {
            assert_eq!(coordinate, "npm:left-pad@1.3.0");
            let elevated = loader.finish_resolve(
                Ok(String::from("file:///proj/node_modules/left-pad/index.js")),
                &coordinate,
                None,
                &Vec::new(),
            );
            assert_eq!(elevated.unwrap(), "file:///proj/node_modules/left-pad/index.js");
        },
    }
    assert_eq!(growth_cycles, 1);
}

#[test]
fn concurrent_entrypoint_additions_lose_no_update() {
    let mut loader = new_loader();
    // Two mutations for disjoint specifier sets, serialized by the queue:
    // the second begins on the first's published graph.
    run_build(&mut loader, &["file:///proj/left.ts"], |_| ts_source(b"export {}", Vec::new()));
    run_build(&mut loader, &["file:///proj/right.ts"], |_| ts_source(b"export {}", Vec::new()));
    let graph = loader.get_graph();
    assert!(graph.lookup(&String::from("file:///proj/left.ts")).is_some());
    assert!(graph.lookup(&String::from("file:///proj/right.ts")).is_some());
    assert!(graph.has_root(&String::from("file:///proj/left.ts")));
    assert!(graph.has_root(&String::from("file:///proj/right.ts")));
}

#[test]
fn prepared_load_is_idempotent_until_superseded() {
    let mut loader = new_loader();
    run_build(&mut loader, &["file:///proj/a.js"], |_| FetchOutcome::Source {
        media: MediaKind::JavaScript,
        source: b"export const a = 1;".to_vec(),
        is_script: None,
        edges: Vec::new(),
    });
    let first = match loader.load(String::from("file:///proj/a.js"), 0).unwrap() {
        LoadStep::Complete { response } => response,
        _ => panic!("expected prepared bytes"),
    };
    let second = match loader.load(String::from("file:///proj/a.js"), 0).unwrap() {
        LoadStep::Complete { response } => response,
        _ => panic!("expected prepared bytes"),
    };
    assert_eq!(first.code, second.code);
    assert_eq!(first.media_type, second.media_type);
    assert_eq!(first.specifier, second.specifier);
}

#[test]
fn dynamic_edges_are_not_followed_by_default() {
    let mut loader = new_loader();
    let diags = run_build(&mut loader, &["file:///proj/a.ts"], |l| match l {
        "file:///proj/a.ts" => FetchOutcome::Source {
            media: MediaKind::TypeScript,
            source: b"await import('./lazy.ts');".to_vec(),
            is_script: None,
            edges: vec![DepEdge {
                raw: String::from("./lazy.ts"),
                outcome: EdgeOutcome::Resolved(String::from("file:///proj/lazy.ts")),
                is_dynamic: true,
            }],
        },
        other => panic!("unexpected fetch of {other}"),
    });
    assert!(diags.is_empty());
    assert!(loader.get_graph().lookup(&String::from("file:///proj/lazy.ts")).is_none());
}

#[test]
fn failed_edges_become_diagnostics_not_aborts() {
    let mut loader = new_loader();
    let diags = run_build(&mut loader, &["file:///proj/a.ts"], |l| match l {
        "file:///proj/a.ts" => FetchOutcome::Source {
            media: MediaKind::TypeScript,
            source: b"import './gone.ts';".to_vec(),
            is_script: None,
            edges: vec![DepEdge {
                raw: String::from("./gone.ts"),
                outcome: EdgeOutcome::Failed(String::from(
                    "Module not found \"file:///proj/gone.ts\".",
                )),
                is_dynamic: false,
            }],
        },
        other => panic!("unexpected fetch of {other}"),
    });
    assert_eq!(diags, vec![String::from("Module not found \"file:///proj/gone.ts\".")]);
    // The build still produced a usable graph.
    assert!(loader.get_graph().lookup(&String::from("file:///proj/a.ts")).is_some());
}

#[test]
fn failed_fetches_become_diagnostics() {
    let mut loader = new_loader();
    let diags = run_build(&mut loader, &["https://x.example/mod.ts"], |_| FetchOutcome::Failed {
        message: String::from("Import 'https://x.example/mod.ts' failed: 404"),
    });
    assert_eq!(diags, vec![String::from("Import 'https://x.example/mod.ts' failed: 404")]);
}

#[test]
fn lock_roots_seed_only_the_first_build() {
    let mut loader = new_loader();
    let lock = vec![String::from("npm:left-pad@1.3.0")];
    let mut session = loader.begin_build(
        vec![String::from("file:///proj/a.ts")],
        lock.clone(),
        false,
    );
    while let Some(location) = session.next_location() {
        let outcome = match location.as_str() {
            "file:///proj/a.ts" => ts_source(b"export {}", Vec::new()),
            "npm:left-pad@1.3.0" => FetchOutcome::Registry { coordinate: location.clone() },
            other => panic!("unexpected fetch of {other}"),
        };
        session.module_loaded(location, outcome);
    }
    loader.commit_build(session);
    assert!(loader.get_graph().has_root(&String::from("npm:left-pad@1.3.0")));

    // A later build does not re-seed the lock roots.
    let session = loader.begin_build(vec![String::from("file:///proj/a.ts")], lock, false);
    assert!(session.is_done());
    loader.commit_build(session);
}

#[test]
fn loading_a_registry_coordinate_directly_is_a_protocol_violation() {
    let mut loader = new_loader();
    let err = loader.load(String::from("npm:left-pad@1.3.0"), 0).err().unwrap();
    assert_eq!(
        err.message,
        "Failed resolving 'npm:left-pad@1.3.0'.\n\nResolve the npm: specifier to a file: specifier before providing it to the loader.",
    );
}

#[test]
fn jsr_specifiers_must_be_resolved_before_loading() {
    let mut loader = new_loader();
    let err = loader.load(String::from("jsr:@std/path@1.0.0"), 0).err().unwrap();
    assert_eq!(
        err.message,
        "Failed loading 'jsr:@std/path@1.0.0'. jsr: specifiers must be resolved to an https: specifier before being loaded.",
    );
}

#[test]
fn node_builtins_short_circuit_to_an_external_reference() {
    let mut loader = new_loader();
    match loader.load(String::from("node:fs"), 0).unwrap() {
        LoadStep::External { specifier } => assert_eq!(specifier, "node:fs"),
        _ => panic!("expected an external reference"),
    }
}

#[test]
fn an_invalid_requested_module_type_fails_fast() {
    let mut loader = new_loader();
    let err = loader.load(String::from("file:///proj/a.ts"), 9).err().unwrap();
    assert_eq!(err.message, "Invalid requested module type: 9");
}

#[test]
fn an_unparsable_url_fails_the_load() {
    let mut loader = new_loader();
    let err = loader.load(String::from("not a url"), 0).err().unwrap();
    assert_eq!(err.message, "Invalid URL: 'not a url'.");
}

#[test]
fn raw_text_kind_skips_transpilation() {
    let mut loader = new_loader();
    run_build(&mut loader, &["file:///proj/a.ts"], |_| ts_source(b"let x: u8 = 1;", Vec::new()));
    match loader.load(String::from("file:///proj/a.ts"), 2).unwrap() {
        LoadStep::Complete { response } => {
            assert_eq!(response.code.as_slice(), b"let x: u8 = 1;");
            assert_eq!(response.media_type, 4);
        },
        _ => panic!("expected raw bytes"),
    }
}

#[test]
fn disabled_transpilation_returns_source_as_stored() {
    let mut opts = options();
    opts.no_transpile = Some(true);
    let mut loader =
        DenoWorkspace::new(opts, String::from("/proj")).unwrap().create_loader().unwrap();
    run_build(&mut loader, &["file:///proj/a.ts"], |_| ts_source(b"let x: u8 = 1;", Vec::new()));
    match loader.load(String::from("file:///proj/a.ts"), 0).unwrap() {
        LoadStep::Complete { response } => assert_eq!(response.code.as_slice(), b"let x: u8 = 1;"),
        _ => panic!("expected stored bytes"),
    }
}

#[test]
fn unprepared_locations_fall_back_to_a_direct_fetch() {
    let mut loader = new_loader();
    match loader.load(String::from("https://x.example/mod.ts"), 0).unwrap() {
        LoadStep::FetchUnprepared { specifier } => {
            assert_eq!(specifier, "https://x.example/mod.ts");
            let step = loader.finish_fetched_unprepared(
                specifier,
                b"let x: u8 = 1;".to_vec(),
                Some(String::from("text/typescript")),
                RequestedKind::Default,
            );
            match step {
                LoadStep::NeedsTranspile { media, .. } => assert_eq!(media, MediaKind::TypeScript),
                _ => panic!("expected a transpile step"),
            }
        },
        _ => panic!("expected the unprepared fallback"),
    }
}

#[test]
fn unprepared_json_returns_as_fetched() {
    let loader = new_loader();
    let step = loader.finish_fetched_unprepared(
        String::from("https://x.example/data.json"),
        b"{}".to_vec(),
        Some(String::from("application/json")),
        RequestedKind::Json,
    );
    match step {
        LoadStep::Complete { response } => {
            assert_eq!(response.media_type, 12);
            assert_eq!(response.code.as_slice(), b"{}");
        },
        _ => panic!("expected fetched bytes"),
    }
}

#[test]
fn external_assets_pass_through_verbatim() {
    let mut loader = new_loader();
    run_build(&mut loader, &["file:///proj/logo.svg"], |_| FetchOutcome::External);
    match loader.load(String::from("file:///proj/logo.svg"), 0).unwrap() {
        LoadStep::FetchAsset { specifier } => {
            let response = loader.finish_fetched_asset(specifier, b"<svg/>".to_vec(), None);
            assert_eq!(response.code.as_slice(), b"<svg/>");
        },
        _ => panic!("expected the asset passthrough"),
    }
}

#[test]
fn url_normalization_reaches_the_graph_key() {
    let mut loader = new_loader();
    run_build(&mut loader, &["file:///proj/a.js"], |_| FetchOutcome::Source {
        media: MediaKind::JavaScript,
        source: b"export {}".to_vec(),
        is_script: None,
        edges: Vec::new(),
    });
    // The raw URL is unnormalized; the plan must still find the record.
    match loader.load(String::from("file:///proj/sub/../a.js"), 0).unwrap() {
        LoadStep::Complete { response } => assert_eq!(response.specifier, "file:///proj/a.js"),
        _ => panic!("expected the prepared record"),
    }
}

#[test]
fn prepared_delivery_evicts_the_parsed_source_cache() {
    let mut loader = new_loader();
    run_build(&mut loader, &["file:///proj/a.js"], |_| FetchOutcome::Source {
        media: MediaKind::JavaScript,
        source: b"export {}".to_vec(),
        is_script: None,
        edges: Vec::new(),
    });
    loader.parsed_cache.insert(String::from("file:///proj/a.js"));
    assert!(loader.parsed_cache.contains(&String::from("file:///proj/a.js")));
    match loader.load(String::from("file:///proj/a.js"), 0).unwrap() {
        LoadStep::Complete { .. } => {},
        _ => panic!("expected the prepared record"),
    }
    assert!(!loader.parsed_cache.contains(&String::from("file:///proj/a.js")));
}

#[test]
fn referrer_normalization_handles_urls_paths_and_nothing() {
    let loader = new_loader();
    assert_eq!(loader.resolve_provided_referrer(None).unwrap(), None);
    assert_eq!(loader.resolve_provided_referrer(Some(String::new())).unwrap(), None);
    assert_eq!(
        loader.resolve_provided_referrer(Some(String::from("/proj/b.ts"))).unwrap(),
        Some(String::from("file:///proj/b.ts"))
    );
    assert_eq!(
        loader
            .resolve_provided_referrer(Some(String::from("file:///proj/sub/../b.ts")))
            .unwrap(),
        Some(String::from("file:///proj/b.ts"))
    );
    assert_eq!(
        loader.resolve_provided_referrer(Some(String::from("https://x.example/b.ts"))).unwrap(),
        Some(String::from("https://x.example/b.ts"))
    );
}

#[test]
fn entrypoints_without_referrer_resolve_against_the_working_root() {
    let loader = new_loader();
    match loader.resolve_specifier_and_referrer(String::from("./a.ts"), None).unwrap() {
        ResolvePrep::EntrypointFirst { specifier, referrer } => {
            assert_eq!(specifier, "./a.ts");
            assert_eq!(referrer, "file:///proj/");
        },
        _ => panic!("expected an entrypoint resolution"),
    }
    match loader
        .resolve_specifier_and_referrer(
            String::from("./c.ts"),
            Some(String::from("file:///proj/b.ts")),
        )
        .unwrap()
    {
        ResolvePrep::Main { specifier, referrer } => {
            assert_eq!(specifier, "./c.ts");
            assert_eq!(referrer, "file:///proj/b.ts");
        },
        _ => panic!("expected a plain resolution"),
    }
}

#[test]
fn backslashed_entrypoints_are_plain_filesystem_paths() {
    let loader = new_loader();
    match loader.resolve_entrypoint(&String::from("src\\a.ts")).unwrap() {
        EntrypointPrep::Resolved { url } => {
            assert!(url.starts_with("file:///proj/"), "got {url}");
        },
        EntrypointPrep::Ask { .. } => panic!("expected a path resolution"),
    }
}

#[test]
fn concrete_locations_are_final_and_rooted_coordinates_re_resolve() {
    let mut loader = new_loader();
    match loader.classify_resolution(String::from("https://x.example/mod.ts")) {
        ResolutionDisposition::Concrete { url } => assert_eq!(url, "https://x.example/mod.ts"),
        _ => panic!("a concrete location needs no expansion"),
    }
    // An invalid coordinate-looking string is final too.
    match loader.classify_resolution(String::from("npm:")) {
        ResolutionDisposition::Concrete { url } => assert_eq!(url, "npm:"),
        _ => panic!("an unparsable requirement needs no expansion"),
    }
    // A rooted coordinate asks for the synchronous re-resolution, never for
    // growth and never for the coordinate as the final answer.
    run_build(&mut loader, &["npm:chalk@5.3.0"], |l| FetchOutcome::Registry {
        coordinate: l.to_string(),
    });
    match loader.classify_resolution(String::from("npm:chalk@5.3.0")) {
        ResolutionDisposition::AlreadyExpanded { coordinate } => {
            assert_eq!(coordinate, "npm:chalk@5.3.0");
        },
        _ => panic!("a rooted coordinate re-resolves synchronously"),
    }
}

#[test]
fn module_kind_needs_manifest_and_shape_to_agree() {
    assert_eq!(
        classify_module_kind(MediaKind::TypeScript, true, None, true),
        ModuleKind::Cjs
    );
    assert_eq!(
        classify_module_kind(MediaKind::TypeScript, true, None, false),
        ModuleKind::Esm
    );
    assert_eq!(
        classify_module_kind(MediaKind::TypeScript, false, None, true),
        ModuleKind::Esm
    );
    assert_eq!(
        classify_module_kind(MediaKind::TypeScript, true, Some(false), true),
        ModuleKind::Esm
    );
    assert_eq!(classify_module_kind(MediaKind::Cjs, false, None, false), ModuleKind::Cjs);
    assert_eq!(classify_module_kind(MediaKind::Mjs, true, Some(true), true), ModuleKind::Esm);
}

#[test]
fn optional_dependency_failures_are_downgraded_only_with_a_referrer() {
    let loader = new_loader();
    let failure = || ResolveFailure {
        kind: ResolveFailureKind::Resolve {
            kind: DenoResolveKind::Node { code: Some(ErrorCode::ModuleNotFound) },
        },
        message: String::from("Cannot find module 'fsevents'"),
        maybe_specifier: Some(String::from("fsevents")),
    };
    let manifests = vec![PackageManifest {
        dependencies: Vec::new(),
        optional_dependencies: vec![String::from("fsevents")],
        peer_dependencies: Vec::new(),
        peer_dependencies_meta_optional: Vec::new(),
    }];
    let referrer = String::from("file:///proj/b.ts");

    let tagged = loader
        .finish_resolve(Err(failure()), &String::from("fsevents"), Some(&referrer), &manifests)
        .err()
        .unwrap();
    assert!(tagged.is_optional_dependency);
    assert_eq!(tagged.code, Some(ErrorCode::ModuleNotFound));
    assert_eq!(tagged.specifier, Some(String::from("fsevents")));
    assert_eq!(tagged.message, "Cannot find module 'fsevents'");

    // The identical missing name absent from the manifest is a hard failure.
    let hard = loader
        .finish_resolve(Err(failure()), &String::from("fsevents"), Some(&referrer), &Vec::new())
        .err()
        .unwrap();
    assert!(!hard.is_optional_dependency);
    assert_eq!(hard.code, Some(ErrorCode::ModuleNotFound));

    // Without a referrer nothing is downgraded.
    let no_referrer = loader
        .finish_resolve(Err(failure()), &String::from("fsevents"), None, &manifests)
        .err()
        .unwrap();
    assert!(!no_referrer.is_optional_dependency);
}

#[test]
fn an_unusable_referrer_path_is_an_error() {
    let loader = new_loader();
    let err = loader
        .resolve_provided_referrer(Some(String::from("relative/path.ts")))
        .err()
        .unwrap();
    assert_eq!(err.message, "Could not convert referrer path 'relative/path.ts' to a URL.");
}

#[test]
fn a_registry_backed_record_still_needs_resolution_before_loading() {
    let mut loader = new_loader();
    run_build(&mut loader, &["npm:left-pad@1.3.0"], |l| FetchOutcome::Registry {
        coordinate: l.to_string(),
    });
    // The coordinate is in the graph now, but still backed by an unresolved
    // registry reference: loading it remains a caller protocol violation.
    let err = loader.load(String::from("npm:left-pad@1.3.0"), 0).err().unwrap();
    assert!(err.message.starts_with("Failed resolving 'npm:left-pad@1.3.0'."));
}

#[test]
fn invalid_module_types_render_their_full_value() {
    let mut loader = new_loader();
    let err = loader.load(String::from("file:///proj/a.ts"), 255).err().unwrap();
    assert_eq!(err.message, "Invalid requested module type: 255");
    let err = loader.load(String::from("file:///proj/a.ts"), 40).err().unwrap();
    assert_eq!(err.message, "Invalid requested module type: 40");
}


#[test]
fn later_builds_do_not_rereport_earlier_diagnostics() {
    let mut loader = new_loader();
    let first = run_build(&mut loader, &["https://x.example/gone.ts"], |_| {
        FetchOutcome::Failed { message: String::from("Import failed: 404") }
    });
    assert_eq!(first, vec![String::from("Import failed: 404")]);
    // A later build reports only its own records' diagnostics.
    let second =
        run_build(&mut loader, &["file:///proj/ok.ts"], |_| ts_source(b"export {}", Vec::new()));
    assert!(second.is_empty());
}
