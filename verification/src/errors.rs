//! The engine's error model: a single structured error value carrying a
//! human-readable message, an optional machine code, and optional extra
//! fields; the classification of resolution failures into machine codes; and
//! the optional-dependency downgrade for module-not-found failures.

use vstd::prelude::*;
use crate::manifest::{PackageManifest, is_optional_npm_dep, spec_is_optional_dep};

verus! {

/// Machine-readable codes attached to resolution failures.
#[derive(Clone, Copy, Debug, PartialEq, Eq, Structural)]
pub enum ErrorCode {
    InvalidModuleSpecifier,
    InvalidPackageConfig,
    InvalidPackageTarget,
    ModuleNotFound,
    PackageImportNotDefined,
    PackagePathNotExported,
    TypesNotFound,
    UnknownBuiltinModule,
    UnsupportedDirImport,
    UnsupportedEsmUrlScheme,
}

impl ErrorCode {
    /// The code's wire name, as hosts know it.
    pub fn as_code_str(self) -> (r: &'static str)
        ensures
            self == ErrorCode::InvalidModuleSpecifier ==> r@ == "ERR_INVALID_MODULE_SPECIFIER"@,
            self == ErrorCode::InvalidPackageConfig ==> r@ == "ERR_INVALID_PACKAGE_CONFIG"@,
            self == ErrorCode::InvalidPackageTarget ==> r@ == "ERR_INVALID_PACKAGE_TARGET"@,
            self == ErrorCode::ModuleNotFound ==> r@ == "ERR_MODULE_NOT_FOUND"@,
            self == ErrorCode::PackageImportNotDefined ==> r@
                == "ERR_PACKAGE_IMPORT_NOT_DEFINED"@,
            self == ErrorCode::PackagePathNotExported ==> r@
                == "ERR_PACKAGE_PATH_NOT_EXPORTED"@,
            self == ErrorCode::TypesNotFound ==> r@ == "ERR_TYPES_NOT_FOUND"@,
            self == ErrorCode::UnknownBuiltinModule ==> r@ == "ERR_UNKNOWN_BUILTIN_MODULE"@,
            self == ErrorCode::UnsupportedDirImport ==> r@ == "ERR_UNSUPPORTED_DIR_IMPORT"@,
            self == ErrorCode::UnsupportedEsmUrlScheme ==> r@
                == "ERR_UNSUPPORTED_ESM_URL_SCHEME"@,
    {
        match self {
            ErrorCode::InvalidModuleSpecifier => "ERR_INVALID_MODULE_SPECIFIER",
            ErrorCode::InvalidPackageConfig => "ERR_INVALID_PACKAGE_CONFIG",
            ErrorCode::InvalidPackageTarget => "ERR_INVALID_PACKAGE_TARGET",
            ErrorCode::ModuleNotFound => "ERR_MODULE_NOT_FOUND",
            ErrorCode::PackageImportNotDefined => "ERR_PACKAGE_IMPORT_NOT_DEFINED",
            ErrorCode::PackagePathNotExported => "ERR_PACKAGE_PATH_NOT_EXPORTED",
            ErrorCode::TypesNotFound => "ERR_TYPES_NOT_FOUND",
            ErrorCode::UnknownBuiltinModule => "ERR_UNKNOWN_BUILTIN_MODULE",
            ErrorCode::UnsupportedDirImport => "ERR_UNSUPPORTED_DIR_IMPORT",
            ErrorCode::UnsupportedEsmUrlScheme => "ERR_UNSUPPORTED_ESM_URL_SCHEME",
        }
    }
}

/// The structured error value every engine operation reports.
#[derive(Debug)]
pub struct EngineError {
    /// Human-readable description.
    pub message: String,
    /// Machine-readable code, where the failure carries one.
    pub code: Option<ErrorCode>,
    /// The offending specifier, where known.
    pub specifier: Option<String>,
    /// Whether a module-not-found failure concerns a dependency the nearest
    /// package manifest declares optional.
    pub is_optional_dependency: bool,
}

impl EngineError {
    /// An error carrying only a message.
    pub fn from_message(message: String) -> (e: EngineError)
        ensures
            e.message == message,
            e.code is None,
            e.specifier is None,
            !e.is_optional_dependency,
    {
        EngineError { message, code: None, specifier: None, is_optional_dependency: false }
    }
}

/// The failure kinds a graph-aware resolution can report, as the engine
/// classifies them.
#[allow(inconsistent_fields)]
pub enum ResolveFailureKind {
    /// An npm requirement could not be resolved against the graph; always
    /// carries a code.
    CouldNotResolveNpmReqRef { code: ErrorCode },
    /// A managed package folder could not be resolved for a requirement.
    ManagedResolvePkgFolderFromDenoReq,
    /// A package folder could not be resolved for a module.
    ResolvePkgFolderFromDenoModule,
    /// An npm requirement reference failed to resolve.
    ResolveNpmReqRef { code: Option<ErrorCode> },
    /// A graph resolution diagnostic, possibly caused by a plain resolution
    /// failure underneath.
    Resolution { source: Option<DenoResolveKind> },
    /// A plain resolution failure.
    Resolve { kind: DenoResolveKind },
    /// A path could not be converted to a URL.
    PathToUrl,
}

/// The failure kinds of plain (graph-free) resolution.
#[derive(Clone, Copy, Debug, PartialEq, Eq, Structural)]
pub enum DenoResolveKind {
    InvalidVendorFolderImport,
    UnsupportedPackageJsonFileSpecifier,
    UnsupportedPackageJsonJsrReq,
    MappedResolution,
    Node { code: Option<ErrorCode> },
    ResolveNpmReqRef { code: Option<ErrorCode> },
    NodeModulesOutOfDate,
    PackageJsonDepValueParse,
    PackageJsonDepValueUrlParse,
    PathToUrl,
    ResolvePkgFolderFromDenoReq,
    WorkspaceResolvePkgJsonFolder,
}

/// A resolution failure as the resolver collaborator reports it back.
pub struct ResolveFailure {
    /// What failed.
    pub kind: ResolveFailureKind,
    /// The failure's human-readable rendering.
    pub message: String,
    /// The specifier the failure singles out, where it carries one.
    pub maybe_specifier: Option<String>,
}

/// The code of a plain resolution failure: only node-style resolution and
/// npm requirement failures carry one.
pub open spec fn spec_deno_resolve_error_code(kind: DenoResolveKind) -> Option<ErrorCode> {
    match kind {
        DenoResolveKind::Node { code } => code,
        DenoResolveKind::ResolveNpmReqRef { code } => code,
        _ => None,
    }
}

/// Extracts the machine code of a plain resolution failure.
pub fn deno_resolve_error_code(err: &DenoResolveKind) -> (r: Option<ErrorCode>)
    ensures
        r == spec_deno_resolve_error_code(*err),
{
    match err {
        DenoResolveKind::Node { code } => *code,
        DenoResolveKind::ResolveNpmReqRef { code } => *code,
        _ => None,
    }
}

/// The code of a graph-aware resolution failure.
pub open spec fn spec_resolve_with_graph_error_code(kind: ResolveFailureKind) -> Option<
    ErrorCode,
> {
    match kind {
        ResolveFailureKind::CouldNotResolveNpmReqRef { code } => Some(code),
        ResolveFailureKind::ManagedResolvePkgFolderFromDenoReq => None,
        ResolveFailureKind::ResolvePkgFolderFromDenoModule => None,
        ResolveFailureKind::ResolveNpmReqRef { code } => code,
        ResolveFailureKind::Resolution { source } => match source {
            Some(k) => spec_deno_resolve_error_code(k),
            None => None,
        },
        ResolveFailureKind::Resolve { kind } => spec_deno_resolve_error_code(kind),
        ResolveFailureKind::PathToUrl => None,
    }
}

/// Extracts the machine code of a graph-aware resolution failure.
pub fn resolve_with_graph_error_code(err: &ResolveFailureKind) -> (r: Option<ErrorCode>)
    ensures
        r == spec_resolve_with_graph_error_code(*err),
{
    match err {
        ResolveFailureKind::CouldNotResolveNpmReqRef { code } => Some(*code),
        ResolveFailureKind::ManagedResolvePkgFolderFromDenoReq => None,
        ResolveFailureKind::ResolvePkgFolderFromDenoModule => None,
        ResolveFailureKind::ResolveNpmReqRef { code } => *code,
        ResolveFailureKind::Resolution { source } => match source {
            Some(k) => deno_resolve_error_code(k),
            None => None,
        },
        ResolveFailureKind::Resolve { kind } => deno_resolve_error_code(kind),
        ResolveFailureKind::PathToUrl => None,
    }
}

/// Whether a failure is downgraded to an optional-dependency failure: only a
/// module-not-found failure, with a referrer, whose specifier the referrer's
/// nearest manifest chain declares optional.
pub open spec fn spec_is_optional_failure(
    kind: ResolveFailureKind,
    specifier: Seq<char>,
    has_referrer: bool,
    manifests: Seq<PackageManifest>,
) -> bool {
    &&& spec_resolve_with_graph_error_code(kind) == Some(ErrorCode::ModuleNotFound)
    &&& has_referrer
    &&& spec_is_optional_dep(manifests, specifier)
}

/// Builds the engine's structured error for a resolution failure: the
/// failure's message and specifier, its machine code, and the
/// optional-dependency flag where a module-not-found failure concerns a
/// dependency the referrer's manifest chain declares optional. `manifests` is
/// the chain of package manifests closest to the referrer, nearest first.
pub fn create_resolve_error(
    failure: ResolveFailure,
    specifier: &String,
    maybe_referrer: Option<&String>,
    manifests: &Vec<PackageManifest>,
) -> (e: EngineError)
    ensures
        e.message == failure.message,
        e.code == spec_resolve_with_graph_error_code(failure.kind),
        e.specifier == failure.maybe_specifier,
        e.is_optional_dependency == spec_is_optional_failure(
            failure.kind,
            specifier@,
            maybe_referrer is Some,
            manifests@,
        ),
{
    let code = resolve_with_graph_error_code(&failure.kind);
    let is_optional = match (code, maybe_referrer) {
        (Some(c), Some(_referrer)) => {
            if c == ErrorCode::ModuleNotFound {
                is_optional_npm_dep(manifests, specifier)
            } else {
                false
            }
        },
        _ => false,
    };
    EngineError {
        message: failure.message,
        code,
        specifier: failure.maybe_specifier,
        is_optional_dependency: is_optional,
    }
}

} // verus!
