use deno_loader::errors::{
    DenoResolveKind, ErrorCode, ResolveFailure, ResolveFailureKind, deno_resolve_error_code,
    resolve_with_graph_error_code,
};
use deno_loader::manifest::{PackageManifest, is_optional_npm_dep};

fn manifest(
    dependencies: &[&str],
    optional_dependencies: &[&str],
    peer_dependencies: &[&str],
    peer_meta_optional: &[&str],
) -> PackageManifest {
    PackageManifest {
        dependencies: dependencies.iter().map(|s| s.to_string()).collect(),
        optional_dependencies: optional_dependencies.iter().map(|s| s.to_string()).collect(),
        peer_dependencies: peer_dependencies.iter().map(|s| s.to_string()).collect(),
        peer_dependencies_meta_optional: peer_meta_optional.iter().map(|s| s.to_string()).collect(),
    }
}

#[test]
fn optional_dependency_in_nearest_manifest_is_optional() {
    let manifests = vec![manifest(&[], &["fsevents"], &[], &[])];
    assert!(is_optional_npm_dep(&manifests, &String::from("fsevents")));
}

#[test]
fn absent_dependency_is_not_optional() {
    let manifests = vec![manifest(&[], &["fsevents"], &[], &[])];
    assert!(!is_optional_npm_dep(&manifests, &String::from("left-pad")));
}

#[test]
fn required_declaration_stops_the_walk() {
    let near = manifest(&["fsevents"], &[], &[], &[]);
    let far = manifest(&[], &["fsevents"], &[], &[]);
    assert!(!is_optional_npm_dep(&vec![near, far], &String::from("fsevents")));
}

#[test]
fn optional_peer_metadata_counts_as_optional() {
    let manifests = vec![manifest(&[], &[], &["fsevents"], &["fsevents"])];
    assert!(is_optional_npm_dep(&manifests, &String::from("fsevents")));
}

#[test]
fn peer_dependency_without_optional_metadata_is_required() {
    let manifests = vec![manifest(&[], &[], &["fsevents"], &[])];
    assert!(!is_optional_npm_dep(&manifests, &String::from("fsevents")));
}

#[test]
fn undeclared_in_near_manifest_defers_to_the_next() {
    let near = manifest(&["other"], &[], &[], &[]);
    let far = manifest(&[], &["fsevents"], &[], &[]);
    assert!(is_optional_npm_dep(&vec![near, far], &String::from("fsevents")));
}

#[test]
fn empty_manifest_chain_is_required() {
    assert!(!is_optional_npm_dep(&Vec::new(), &String::from("fsevents")));
}

#[test]
fn plain_resolve_codes_come_only_from_node_and_npm_requirements() {
    assert_eq!(
        deno_resolve_error_code(&DenoResolveKind::Node { code: Some(ErrorCode::ModuleNotFound) }),
        Some(ErrorCode::ModuleNotFound)
    );
    assert_eq!(
        deno_resolve_error_code(&DenoResolveKind::ResolveNpmReqRef {
            code: Some(ErrorCode::UnsupportedDirImport),
        }),
        Some(ErrorCode::UnsupportedDirImport)
    );
    assert_eq!(deno_resolve_error_code(&DenoResolveKind::Node { code: None }), None);
    assert_eq!(deno_resolve_error_code(&DenoResolveKind::MappedResolution), None);
    assert_eq!(deno_resolve_error_code(&DenoResolveKind::NodeModulesOutOfDate), None);
    assert_eq!(deno_resolve_error_code(&DenoResolveKind::PathToUrl), None);
    assert_eq!(deno_resolve_error_code(&DenoResolveKind::InvalidVendorFolderImport), None);
}

#[test]
fn graph_resolve_codes_follow_the_failure_kind() {
    assert_eq!(
        resolve_with_graph_error_code(&ResolveFailureKind::CouldNotResolveNpmReqRef {
            code: ErrorCode::ModuleNotFound,
        }),
        Some(ErrorCode::ModuleNotFound)
    );
    assert_eq!(
        resolve_with_graph_error_code(&ResolveFailureKind::ResolveNpmReqRef { code: None }),
        None
    );
    assert_eq!(
        resolve_with_graph_error_code(&ResolveFailureKind::Resolution {
            source: Some(DenoResolveKind::Node { code: Some(ErrorCode::PackagePathNotExported) }),
        }),
        Some(ErrorCode::PackagePathNotExported)
    );
    assert_eq!(
        resolve_with_graph_error_code(&ResolveFailureKind::Resolution { source: None }),
        None
    );
    assert_eq!(
        resolve_with_graph_error_code(&ResolveFailureKind::Resolve {
            kind: DenoResolveKind::ResolveNpmReqRef { code: Some(ErrorCode::ModuleNotFound) },
        }),
        Some(ErrorCode::ModuleNotFound)
    );
    assert_eq!(
        resolve_with_graph_error_code(&ResolveFailureKind::ManagedResolvePkgFolderFromDenoReq),
        None
    );
    assert_eq!(
        resolve_with_graph_error_code(&ResolveFailureKind::ResolvePkgFolderFromDenoModule),
        None
    );
    assert_eq!(resolve_with_graph_error_code(&ResolveFailureKind::PathToUrl), None);
}

#[test]
fn error_code_wire_names() {
    assert_eq!(ErrorCode::ModuleNotFound.as_code_str(), "ERR_MODULE_NOT_FOUND");
    assert_eq!(ErrorCode::UnsupportedDirImport.as_code_str(), "ERR_UNSUPPORTED_DIR_IMPORT");
    assert_eq!(ErrorCode::PackagePathNotExported.as_code_str(), "ERR_PACKAGE_PATH_NOT_EXPORTED");
}

#[test]
fn module_not_found_failure_keeps_its_parts() {
    let failure = ResolveFailure {
        kind: ResolveFailureKind::Resolve {
            kind: DenoResolveKind::Node { code: Some(ErrorCode::ModuleNotFound) },
        },
        message: String::from("Cannot find module 'fsevents'"),
        maybe_specifier: Some(String::from("fsevents")),
    };
    assert_eq!(resolve_with_graph_error_code(&failure.kind), Some(ErrorCode::ModuleNotFound));
    assert_eq!(failure.maybe_specifier.as_deref(), Some("fsevents"));
}
