//! The resolution driver: referrer normalization, entrypoint handling, the
//! two-phase lazy-expansion protocol (resolve keeping registry coordinates,
//! grow the graph once for a coordinate it does not yet hold, then re-resolve
//! against the extended snapshot), and the classification of resolver
//! failures into the engine's structured error.

use vstd::prelude::*;
use crate::errors::{
    EngineError, ResolveFailure, create_resolve_error, spec_is_optional_failure,
    spec_resolve_with_graph_error_code,
};
use crate::foreign::{
    file_url_of, file_url_from_path, is_jsr_coordinate, is_jsr_req_ref, is_npm_coordinate,
    is_npm_req_ref, url_parse_of, parse_url,
};
use crate::graph::GraphView;
use crate::loader::DenoLoader;
use crate::manifest::PackageManifest;
use crate::text::{has_prefix, str_has_prefix, str_contains_char};
use crate::workspace::{spec_resolve_absolute_path, resolve_absolute_path};

verus! {

/// The referrer a resolution runs against, normalized: what a host-supplied
/// importer string becomes. The outer `None` means the importer was not a
/// usable URL or path.
pub open spec fn spec_provided_referrer(importer: Option<Seq<char>>) -> Option<
    Option<Seq<char>>,
> {
    match importer {
        Option::None => Option::Some(Option::None),
        Option::Some(s) => {
            if s.len() == 0 {
                Option::Some(Option::None)
            } else if has_prefix(s, "http:"@) || has_prefix(s, "https:"@) || has_prefix(
                s,
                "file:"@,
            ) {
                match url_parse_of(s) {
                    Option::Some(u) => Option::Some(Option::Some(u)),
                    Option::None => Option::None,
                }
            } else {
                match file_url_of(s) {
                    Option::Some(u) => Option::Some(Option::Some(u)),
                    Option::None => Option::None,
                }
            }
        },
    }
}

/// How an entrypoint specifier is prepared for resolution.
pub enum EntrypointPrep {
    /// A path-like specifier already resolved to its file URL.
    Resolved { url: String },
    /// A specifier the external resolver must resolve against the working
    /// root.
    Ask { specifier: String, referrer: String },
}

/// A resolution request after specifier-and-referrer preparation.
pub enum ResolvePrep {
    /// Ready: ask the resolver with this specifier and referrer.
    Main { specifier: String, referrer: String },
    /// The specifier is an entrypoint the resolver must first resolve
    /// against the working root; the result then resolves as `Main` with the
    /// root as referrer.
    EntrypointFirst { specifier: String, referrer: String },
}

/// The ghost view of a prepared resolution, with failure as a case.
#[verifier::ext_equal]
pub enum PrepView {
    Main { specifier: Seq<char>, referrer: Seq<char> },
    EntrypointFirst { specifier: Seq<char>, referrer: Seq<char> },
    Fail,
}

impl View for ResolvePrep {
    type V = PrepView;

    open spec fn view(&self) -> PrepView {
        match self {
            ResolvePrep::Main { specifier, referrer } => PrepView::Main {
                specifier: specifier@,
                referrer: referrer@,
            },
            ResolvePrep::EntrypointFirst { specifier, referrer } => PrepView::EntrypointFirst {
                specifier: specifier@,
                referrer: referrer@,
            },
        }
    }
}

/// What entrypoint preparation yields: a specifier holding a backslash is
/// treated as a plain filesystem path and becomes its file URL; anything
/// else is handed to the resolver against the working root.
pub open spec fn spec_entrypoint_prep(
    specifier: Seq<char>,
    cwd: Seq<char>,
    root_url: Seq<char>,
) -> PrepView {
    if specifier.contains('\\') {
        match spec_resolve_absolute_path(specifier, cwd) {
            Option::Some(p) => match file_url_of(p) {
                Option::Some(u) => PrepView::Main { specifier: u, referrer: root_url },
                Option::None => PrepView::Fail,
            },
            Option::None => PrepView::Fail,
        }
    } else {
        PrepView::EntrypointFirst { specifier, referrer: root_url }
    }
}

/// What specifier-and-referrer preparation yields for a whole request.
pub open spec fn spec_prep(
    specifier: Seq<char>,
    importer: Option<Seq<char>>,
    cwd: Seq<char>,
    root_url: Seq<char>,
) -> PrepView {
    match spec_provided_referrer(importer) {
        Option::None => PrepView::Fail,
        Option::Some(Option::Some(r)) => PrepView::Main { specifier, referrer: r },
        Option::Some(Option::None) => spec_entrypoint_prep(specifier, cwd, root_url),
    }
}

/// Whether a resolved specifier is a registry coordinate (an npm or jsr
/// package requirement) rather than a concrete location.
pub open spec fn spec_is_registry_coordinate(resolved: Seq<char>) -> bool {
    is_npm_coordinate(resolved) || is_jsr_coordinate(resolved)
}

/// Whether a resolved specifier is a registry coordinate the graph does not
/// yet hold as a root: exactly then resolution queues one graph growth.
pub open spec fn spec_needs_expansion(g: GraphView, resolved: Seq<char>) -> bool {
    spec_is_registry_coordinate(resolved) && !g.has_root(resolved)
}

/// What the engine does with a resolution that kept registry coordinates.
/// Both coordinate cases end in a synchronous re-resolution with elevation
/// semantics, so the answer handed to the caller is never an unresolved
/// registry coordinate.
pub enum ResolutionDisposition {
    /// A concrete location: the final answer.
    Concrete { url: String },
    /// A registry coordinate the graph does not hold yet: grow the graph by
    /// this root, then re-resolve synchronously with elevation semantics.
    Expand { coordinate: String },
    /// A registry coordinate the graph already holds as a root: re-resolve
    /// synchronously with elevation semantics; no growth is queued.
    AlreadyExpanded { coordinate: String },
}

/// Law: a registry coordinate not yet present triggers exactly one growth
/// cycle and then succeeds synchronously. Against a snapshot without the
/// coordinate among its roots the engine expands; against any snapshot
/// holding the coordinate as a root -- as the published graph does once that
/// single expansion commits -- the same coordinate classifies as already
/// expanded: it is re-resolved synchronously with elevation and queues no
/// further growth cycle.
pub proof fn lemma_expansion_happens_once(g0: GraphView, g1: GraphView, coordinate: Seq<char>)
    requires
        spec_is_registry_coordinate(coordinate),
        !g0.has_root(coordinate),
        g1.has_root(coordinate),
    ensures
        spec_needs_expansion(g0, coordinate),
        !spec_needs_expansion(g1, coordinate),
{
}

impl DenoLoader {
    /// Normalizes a host-supplied importer: an empty or missing importer
    /// means none; an `http:`, `https:` or `file:` importer is parsed as a
    /// URL; anything else is taken as a filesystem path and becomes its file
    /// URL.
    pub fn resolve_provided_referrer(&self, importer: Option<String>) -> (r: Result<
        Option<String>,
        EngineError,
    >)
        ensures
            match r {
                Ok(o) => spec_provided_referrer(crate::workspace::spec_opt_view(importer))
                    == Option::Some(crate::workspace::spec_opt_view(o)),
                Err(_) => spec_provided_referrer(crate::workspace::spec_opt_view(importer))
                    is None,
            },
    {
        match importer {
            None => Ok(None),
            Some(s) => {
                if s.as_str().unicode_len() == 0 {
                    return Ok(None);
                }
                if str_has_prefix(s.as_str(), "http:") || str_has_prefix(s.as_str(), "https:")
                    || str_has_prefix(s.as_str(), "file:") {
                    match parse_url(s.as_str()) {
                        Some(u) => Ok(Some(u)),
                        None => Err(EngineError::from_message(
                            String::from_str("Could not parse referrer URL '").concat(
                                s.as_str(),
                            ).concat("'."),
                        )),
                    }
                } else {
                    match file_url_from_path(s.as_str()) {
                        Some(u) => Ok(Some(u)),
                        None => Err(EngineError::from_message(
                            String::from_str("Could not convert referrer path '").concat(
                                s.as_str(),
                            ).concat("' to a URL."),
                        )),
                    }
                }
            },
        }
    }

    /// Prepares an entrypoint specifier: a backslashed path resolves against
    /// the working directory and becomes its file URL; anything else must be
    /// resolved by the resolver against the working root.
    pub fn resolve_entrypoint(&self, specifier: &String) -> (r: Result<
        EntrypointPrep,
        EngineError,
    >)
        ensures
            match r {
                Ok(p) => match p {
                    EntrypointPrep::Resolved { url } => spec_entrypoint_prep(
                        specifier@,
                        self.initial_cwd@,
                        self.root_dir_url@,
                    ) == (PrepView::Main { specifier: url@, referrer: self.root_dir_url@ }),
                    EntrypointPrep::Ask { specifier: s, referrer } => s == specifier
                        && referrer == self.root_dir_url && spec_entrypoint_prep(
                        specifier@,
                        self.initial_cwd@,
                        self.root_dir_url@,
                    ) == (PrepView::EntrypointFirst {
                        specifier: specifier@,
                        referrer: self.root_dir_url@,
                    }),
                },
                Err(_) => spec_entrypoint_prep(specifier@, self.initial_cwd@, self.root_dir_url@)
                    is Fail,
            },
    {
        if str_contains_char(specifier.as_str(), '\\') {
            let abs = match resolve_absolute_path(specifier.clone(), &self.initial_cwd) {
                Ok(p) => p,
                Err(e) => {
                    return Err(e);
                },
            };
            match file_url_from_path(abs.as_str()) {
                Some(url) => Ok(EntrypointPrep::Resolved { url }),
                None => Err(EngineError::from_message(
                    String::from_str("Could not convert entrypoint path '").concat(
                        abs.as_str(),
                    ).concat("' to a URL."),
                )),
            }
        } else {
            Ok(EntrypointPrep::Ask {
                specifier: specifier.clone(),
                referrer: self.root_dir_url.clone(),
            })
        }
    }

    /// Prepares a whole resolution request: the referrer is normalized; a
    /// request without one is an entrypoint resolution against the working
    /// root.
    pub fn resolve_specifier_and_referrer(&self, specifier: String, importer: Option<String>)
        -> (r: Result<ResolvePrep, EngineError>)
        ensures
            match r {
                Ok(p) => p@ == spec_prep(
                    specifier@,
                    crate::workspace::spec_opt_view(importer),
                    self.initial_cwd@,
                    self.root_dir_url@,
                ) && !(p@ is Fail),
                Err(_) => spec_prep(
                    specifier@,
                    crate::workspace::spec_opt_view(importer),
                    self.initial_cwd@,
                    self.root_dir_url@,
                ) is Fail,
            },
    {
        let referrer = match self.resolve_provided_referrer(importer) {
            Ok(o) => o,
            Err(e) => {
                return Err(e);
            },
        };
        match referrer {
            Some(r) => Ok(ResolvePrep::Main { specifier, referrer: r }),
            None => match self.resolve_entrypoint(&specifier) {
                Ok(EntrypointPrep::Resolved { url }) => Ok(ResolvePrep::Main {
                    specifier: url,
                    referrer: self.root_dir_url.clone(),
                }),
                Ok(EntrypointPrep::Ask { specifier: s, referrer }) => Ok(
                    ResolvePrep::EntrypointFirst { specifier: s, referrer },
                ),
                Err(e) => Err(e),
            },
        }
    }

    /// Classifies a resolution that kept registry coordinates: a coordinate
    /// the published graph does not hold as a root asks for exactly one
    /// graph growth before the synchronous re-resolution; a coordinate
    /// already rooted skips straight to the synchronous re-resolution; a
    /// concrete location is final.
    pub fn classify_resolution(&self, resolved: String) -> (r: ResolutionDisposition)
        ensures
            spec_needs_expansion(self.graph@, resolved@) ==> (r matches
                ResolutionDisposition::Expand { coordinate } && coordinate == resolved),
            spec_is_registry_coordinate(resolved@) && self.graph@.has_root(resolved@) ==> (r
                matches ResolutionDisposition::AlreadyExpanded { coordinate } && coordinate
                == resolved),
            !spec_is_registry_coordinate(resolved@) ==> (r matches
                ResolutionDisposition::Concrete { url } && url == resolved),
    {
        let is_coordinate = is_npm_req_ref(resolved.as_str()) || is_jsr_req_ref(
            resolved.as_str(),
        );
        if is_coordinate {
            if self.graph.get().has_root(&resolved) {
                ResolutionDisposition::AlreadyExpanded { coordinate: resolved }
            } else {
                ResolutionDisposition::Expand { coordinate: resolved }
            }
        } else {
            ResolutionDisposition::Concrete { url: resolved }
        }
    }

    /// Finishes a resolution with the resolver's answer: success passes
    /// through; a failure becomes the engine's structured error, downgraded
    /// to an optional-dependency failure exactly where a module-not-found
    /// failure concerns a dependency the referrer's manifest chain declares
    /// optional.
    pub fn finish_resolve(
        &self,
        outcome: Result<String, ResolveFailure>,
        specifier: &String,
        maybe_referrer: Option<&String>,
        manifests: &Vec<PackageManifest>,
    ) -> (r: Result<String, EngineError>)
        ensures
            match outcome {
                Ok(resolved) => r matches Ok(u) && u == resolved,
                Err(failure) => r matches Err(e) && {
                    &&& e.message == failure.message
                    &&& e.code == spec_resolve_with_graph_error_code(failure.kind)
                    &&& e.specifier == failure.maybe_specifier
                    &&& e.is_optional_dependency == spec_is_optional_failure(
                        failure.kind,
                        specifier@,
                        maybe_referrer is Some,
                        manifests@,
                    )
                },
            },
    {
        match outcome {
            Ok(resolved) => Ok(resolved),
            Err(failure) => Err(create_resolve_error(failure, specifier, maybe_referrer,
                manifests)),
        }
    }
}

} // verus!
