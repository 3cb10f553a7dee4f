//! The load pipeline: given a location and a requested content kind, the
//! engine plans the staged fallback chain -- prepared lookup in the published
//! graph, external-asset passthrough, unprepared direct fetch -- and decides
//! transpilation. A host-builtin scheme short-circuits to an external
//! reference; a registry scheme reaching load directly is a caller protocol
//! violation. Fetching and transpiling are host work: the engine hands out
//! the step and finishes with the host's bytes.

use vstd::prelude::*;
use crate::cell::copy_bytes;
use crate::errors::EngineError;
use crate::foreign::{url_parse_of, parse_url};
use crate::graph::{GraphView, ModuleRecord, RecordView};
use crate::loader::DenoLoader;
use crate::media::{
    MediaKind, spec_media_u8, media_type_to_u8, spec_is_emittable, is_emittable,
    spec_media_of_fetched, media_kind_of_fetched,
};
use crate::text::{has_prefix, str_has_prefix, spec_decimal, u8_to_decimal};

verus! {

/// The content kind a host requests from `load`.
#[derive(Clone, Copy, Debug, PartialEq, Eq, Structural)]
pub enum RequestedKind {
    /// Executable module source, the default.
    Default,
    /// JSON module source.
    Json,
    /// Raw text, returned as fetched.
    Text,
    /// Raw bytes, returned as fetched.
    Bytes,
}

/// The requested kind a numeric host value below four decodes to.
pub open spec fn spec_requested_kind(v: u8) -> RequestedKind {
    if v == 1 {
        RequestedKind::Json
    } else if v == 2 {
        RequestedKind::Text
    } else if v == 3 {
        RequestedKind::Bytes
    } else {
        RequestedKind::Default
    }
}

/// Final module bytes handed back to the host.
pub struct LoadResponse {
    /// The canonical location the bytes belong to.
    pub specifier: String,
    /// The media kind, in the host's numeric encoding.
    pub media_type: u8,
    /// The module bytes.
    pub code: Vec<u8>,
}

/// The ghost view of a load response.
#[verifier::ext_equal]
pub struct LoadResponseView {
    pub specifier: Seq<char>,
    pub media_type: u8,
    pub code: Seq<u8>,
}

impl View for LoadResponse {
    type V = LoadResponseView;

    open spec fn view(&self) -> LoadResponseView {
        LoadResponseView {
            specifier: self.specifier@,
            media_type: self.media_type,
            code: self.code@,
        }
    }
}

/// What `load` decides for a location: final bytes, an external reference,
/// or the host work that must happen next.
pub enum LoadStep {
    /// A host-builtin reference: an external response, nothing fetched.
    External { specifier: String },
    /// Final bytes, straight from the prepared graph record.
    Complete { response: LoadResponse },
    /// A prepared module that must be transpiled: the host transpiles this
    /// source and finishes with `finish_transpiled`.
    NeedsTranspile {
        specifier: String,
        media: MediaKind,
        source: Vec<u8>,
        is_known_script: Option<bool>,
    },
    /// An external asset: the host fetches it verbatim and finishes with
    /// `finish_fetched_asset`.
    FetchAsset { specifier: String },
    /// A location the graph has not prepared: the host fetches it and
    /// finishes with `finish_fetched_unprepared`.
    FetchUnprepared { specifier: String },
}

/// The ghost view of a load plan, with failure as a case.
#[verifier::ext_equal]
pub enum LoadPlanView {
    External { specifier: Seq<char> },
    Complete { response: LoadResponseView },
    NeedsTranspile {
        specifier: Seq<char>,
        media: MediaKind,
        source: Seq<u8>,
        is_known_script: Option<bool>,
    },
    FetchAsset { specifier: Seq<char> },
    FetchUnprepared { specifier: Seq<char> },
    Fail { message: Seq<char> },
}

impl View for LoadStep {
    type V = LoadPlanView;

    open spec fn view(&self) -> LoadPlanView {
        match self {
            LoadStep::External { specifier } => LoadPlanView::External { specifier: specifier@ },
            LoadStep::Complete { response } => LoadPlanView::Complete { response: response@ },
            LoadStep::NeedsTranspile { specifier, media, source, is_known_script } =>
                LoadPlanView::NeedsTranspile {
                    specifier: specifier@,
                    media: *media,
                    source: source@,
                    is_known_script: *is_known_script,
                },
            LoadStep::FetchAsset { specifier } => LoadPlanView::FetchAsset {
                specifier: specifier@,
            },
            LoadStep::FetchUnprepared { specifier } => LoadPlanView::FetchUnprepared {
                specifier: specifier@,
            },
        }
    }
}

/// The protocol-violation message for a registry specifier reaching `load`
/// unresolved.
pub open spec fn spec_npm_unprepared_message(n: Seq<char>) -> Seq<char> {
    "Failed resolving '"@ + n
        + "'.\n\nResolve the npm: specifier to a file: specifier before providing it to the loader."@
}

/// The message for a registry-index specifier reaching `load` directly.
pub open spec fn spec_jsr_direct_message(n: Seq<char>) -> Seq<char> {
    "Failed loading '"@ + n
        + "'. jsr: specifiers must be resolved to an https: specifier before being loaded."@
}

/// What a prepared source record answers a load with: raw kinds take the
/// bytes as stored; an executable kind takes them too unless the media
/// requires transpilation and transpilation is enabled. The default and
/// JSON requested kinds are answered alike: checking that a JSON request
/// matches a JSON module is the resolver collaborator's concern, not this
/// planner's.
pub open spec fn spec_plan_prepared(
    no_transpile: bool,
    n: Seq<char>,
    media: MediaKind,
    source: Seq<u8>,
    is_script: Option<bool>,
    kind: RequestedKind,
) -> LoadPlanView {
    if kind == RequestedKind::Text || kind == RequestedKind::Bytes {
        LoadPlanView::Complete {
            response: LoadResponseView {
                specifier: n,
                media_type: spec_media_u8(media),
                code: source,
            },
        }
    } else if spec_is_emittable(media) && !no_transpile {
        LoadPlanView::NeedsTranspile { specifier: n, media, source, is_known_script: is_script }
    } else {
        LoadPlanView::Complete {
            response: LoadResponseView {
                specifier: n,
                media_type: spec_media_u8(media),
                code: source,
            },
        }
    }
}

/// The whole load plan: the staged fallback chain over the published
/// snapshot.
pub open spec fn spec_plan_load(
    g: GraphView,
    no_transpile: bool,
    url: Seq<char>,
    kind_raw: u8,
) -> LoadPlanView {
    if kind_raw > 3 {
        LoadPlanView::Fail {
            message: "Invalid requested module type: "@ + spec_decimal(kind_raw as nat),
        }
    } else {
        match url_parse_of(url) {
            Option::None => LoadPlanView::Fail { message: "Invalid URL: '"@ + url + "'."@ },
            Option::Some(n) => {
                if has_prefix(n, "node:"@) {
                    LoadPlanView::External { specifier: n }
                } else if has_prefix(n, "jsr:"@) {
                    LoadPlanView::Fail { message: spec_jsr_direct_message(n) }
                } else {
                    let kind = spec_requested_kind(kind_raw);
                    match g.lookup(n) {
                        Option::Some(RecordView::Source { media, source, is_script, .. }) =>
                            spec_plan_prepared(no_transpile, n, media, source, is_script, kind),
                        Option::Some(RecordView::Registry { .. }) => LoadPlanView::Fail {
                            message: spec_npm_unprepared_message(n),
                        },
                        Option::Some(RecordView::External { .. }) => LoadPlanView::FetchAsset {
                            specifier: n,
                        },
                        Option::Some(RecordView::Builtin { .. }) => LoadPlanView::External {
                            specifier: n,
                        },
                        Option::Some(RecordView::Failed { .. }) => LoadPlanView::FetchUnprepared {
                            specifier: n,
                        },
                        Option::None => {
                            if has_prefix(n, "npm:"@) {
                                LoadPlanView::Fail { message: spec_npm_unprepared_message(n) }
                            } else {
                                LoadPlanView::FetchUnprepared { specifier: n }
                            }
                        },
                    }
                }
            },
        }
    }
}

/// Law: prepared lookup is idempotent. The load plan -- and with it the
/// bytes a matching requested kind returns for a location published in a
/// snapshot -- is a function of the snapshot, the location and the requested
/// kind alone, so any number of loads against the same snapshot return the
/// same bytes, until a newer snapshot supersedes it.
pub proof fn lemma_load_idempotent(
    g: GraphView,
    no_transpile: bool,
    url: Seq<char>,
    kind_raw: u8,
    r1: LoadPlanView,
    r2: LoadPlanView,
)
    requires
        r1 == spec_plan_load(g, no_transpile, url, kind_raw),
        r2 == spec_plan_load(g, no_transpile, url, kind_raw),
    ensures
        r1 == r2,
{
}

/// Law: a load of a prepared module whose media requires transpilation, with
/// an executable requested kind and transpilation enabled, never completes
/// with the stored source: it demands transpilation, and only the host's
/// transpiled bytes complete it.
pub proof fn lemma_emittable_prepared_load_transpiles(
    g: GraphView,
    url: Seq<char>,
    n: Seq<char>,
    location: Seq<char>,
    media: MediaKind,
    source: Seq<u8>,
    is_script: Option<bool>,
    edges: Seq<crate::graph::EdgeView>,
)
    requires
        url_parse_of(url) == Option::Some(n),
        !has_prefix(n, "node:"@),
        !has_prefix(n, "jsr:"@),
        g.lookup(n) == Option::Some(
            RecordView::Source { location, media, source, is_script, edges },
        ),
        spec_is_emittable(media),
    ensures
        spec_plan_load(g, false, url, 0) == (LoadPlanView::NeedsTranspile {
            specifier: n,
            media,
            source,
            is_known_script: is_script,
        }),
{
}

/// Law: a registry coordinate reaching `load` directly, without having been
/// resolved to a concrete location first, is a caller protocol violation:
/// the plan fails with the resolve-first error and never asks the fetcher
/// for anything.
pub proof fn lemma_npm_load_is_protocol_violation(
    g: GraphView,
    no_transpile: bool,
    url: Seq<char>,
    n: Seq<char>,
    kind_raw: u8,
)
    requires
        kind_raw <= 3,
        url_parse_of(url) == Option::Some(n),
        has_prefix(n, "npm:"@),
        !has_prefix(n, "node:"@),
        !has_prefix(n, "jsr:"@),
        g.lookup(n) is None || g.lookup(n) matches Option::Some(RecordView::Registry { .. }),
    ensures
        spec_plan_load(g, no_transpile, url, kind_raw) == (LoadPlanView::Fail {
            message: spec_npm_unprepared_message(n),
        }),
{
}

/// What finishing an unprepared fetch yields: raw kinds and non-emittable
/// media return the bytes as fetched; emittable media with transpilation
/// enabled demands transpilation, with no script classification known.
pub open spec fn spec_after_fetch(
    no_transpile: bool,
    specifier: Seq<char>,
    content_type: Option<Seq<char>>,
    kind: RequestedKind,
    bytes: Seq<u8>,
) -> LoadPlanView {
    spec_plan_prepared(
        no_transpile,
        specifier,
        spec_media_of_fetched(specifier, content_type),
        bytes,
        Option::None,
        kind,
    )
}

/// The module kind a transpile targets.
#[derive(Clone, Copy, Debug, PartialEq, Eq, Structural)]
pub enum ModuleKind {
    /// An ECMAScript module.
    Esm,
    /// A CommonJS script.
    Cjs,
}

/// CommonJS-versus-module classification: an explicitly CommonJS extension
/// decides alone; an explicitly module extension decides alone; for an
/// ambiguous extension the module is CommonJS only where the nearest package
/// manifest implies CommonJS *and* the module's own shape agrees -- the
/// analysis-supplied classification where the graph knows one, else the
/// parsed source's own script-ness.
pub open spec fn spec_classify_module_kind(
    media: MediaKind,
    package_declares_cjs: bool,
    is_known_script: Option<bool>,
    parsed_is_script: bool,
) -> ModuleKind {
    match media {
        MediaKind::Cjs => ModuleKind::Cjs,
        MediaKind::Cts => ModuleKind::Cjs,
        MediaKind::Dcts => ModuleKind::Cjs,
        MediaKind::Mjs => ModuleKind::Esm,
        MediaKind::Mts => ModuleKind::Esm,
        MediaKind::Dmts => ModuleKind::Esm,
        _ => {
            let shape_is_script = match is_known_script {
                Option::Some(k) => k,
                Option::None => parsed_is_script,
            };
            if package_declares_cjs && shape_is_script {
                ModuleKind::Cjs
            } else {
                ModuleKind::Esm
            }
        },
    }
}

/// Classifies a module as CommonJS or ECMAScript for transpilation.
pub fn classify_module_kind(
    media: MediaKind,
    package_declares_cjs: bool,
    is_known_script: Option<bool>,
    parsed_is_script: bool,
) -> (r: ModuleKind)
    ensures
        r == spec_classify_module_kind(media, package_declares_cjs, is_known_script,
            parsed_is_script),
{
    match media {
        MediaKind::Cjs => ModuleKind::Cjs,
        MediaKind::Cts => ModuleKind::Cjs,
        MediaKind::Dcts => ModuleKind::Cjs,
        MediaKind::Mjs => ModuleKind::Esm,
        MediaKind::Mts => ModuleKind::Esm,
        MediaKind::Dmts => ModuleKind::Esm,
        _ => {
            let shape_is_script = match is_known_script {
                Some(k) => k,
                None => parsed_is_script,
            };
            if package_declares_cjs && shape_is_script {
                ModuleKind::Cjs
            } else {
                ModuleKind::Esm
            }
        },
    }
}

/// Decodes the host's numeric requested module type; values above three are
/// a caller error.
pub fn parse_requested_kind(v: u8) -> (r: Result<RequestedKind, EngineError>)
    ensures
        v <= 3 ==> (r matches Ok(k) && k == spec_requested_kind(v)),
        v > 3 ==> (r matches Err(e) && e.message@ == "Invalid requested module type: "@
            + spec_decimal(v as nat)),
{
    if v == 0 {
        Ok(RequestedKind::Default)
    } else if v == 1 {
        Ok(RequestedKind::Json)
    } else if v == 2 {
        Ok(RequestedKind::Text)
    } else if v == 3 {
        Ok(RequestedKind::Bytes)
    } else {
        let message = String::from_str("Invalid requested module type: ").concat(
            u8_to_decimal(v).as_str(),
        );
        Err(EngineError::from_message(message))
    }
}

impl DenoLoader {
    /// Plans the load of a location: parses the requested kind and the URL,
    /// short-circuits host builtins, rejects registry specifiers that were
    /// never resolved, answers from the prepared graph record where one
    /// exists -- evicting its parsed-source cache entry once final bytes are
    /// delivered -- and otherwise hands the host the fetch that must happen
    /// next.
    pub fn load(&mut self, url: String, requested_module_type: u8) -> (r: Result<
        LoadStep,
        EngineError,
    >)
        requires
            old(self).wf(),
        ensures
            final(self).wf(),
            final(self).graph == old(self).graph,
            final(self).root_dir_url == old(self).root_dir_url,
            final(self).initial_cwd == old(self).initial_cwd,
            final(self).no_transpile == old(self).no_transpile,
            match r {
                Ok(step) => step@ == spec_plan_load(
                    old(self).graph@,
                    old(self).no_transpile,
                    url@,
                    requested_module_type,
                ) && !(spec_plan_load(
                    old(self).graph@,
                    old(self).no_transpile,
                    url@,
                    requested_module_type,
                ) is Fail),
                Err(e) => spec_plan_load(
                    old(self).graph@,
                    old(self).no_transpile,
                    url@,
                    requested_module_type,
                ) == (LoadPlanView::Fail { message: e.message@ }),
            },
            r matches Ok(step) && step is Complete ==> {
                &&& !final(self).parsed_cache.spec_contains(url_parse_of(url@).unwrap())
                &&& forall|t: Seq<char>|
                    final(self).parsed_cache.spec_contains(t) <==> old(
                        self,
                    ).parsed_cache.spec_contains(t) && t != url_parse_of(url@).unwrap()
            },
            !(r matches Ok(step) && step is Complete) ==> final(self).parsed_cache == old(
                self,
            ).parsed_cache,
    {
        let kind = match parse_requested_kind(requested_module_type) {
            Ok(k) => k,
            Err(e) => {
                return Err(e);
            },
        };
        let normalized = match parse_url(url.as_str()) {
            Some(n) => n,
            None => {
                let message = String::from_str("Invalid URL: '").concat(url.as_str()).concat(
                    "'.",
                );
                return Err(EngineError::from_message(message));
            },
        };
        if str_has_prefix(normalized.as_str(), "node:") {
            return Ok(LoadStep::External { specifier: normalized });
        }
        if str_has_prefix(normalized.as_str(), "jsr:") {
            let message = String::from_str("Failed loading '").concat(normalized.as_str()).concat(
                "'. jsr: specifiers must be resolved to an https: specifier before being loaded.",
            );
            return Err(EngineError::from_message(message));
        }
        let is_npm = str_has_prefix(normalized.as_str(), "npm:");
        let record = self.graph.get().lookup(&normalized);
        match record {
            Some(ModuleRecord::Source { media, source, is_script, .. }) => {
                let raw_kind = match kind {
                    RequestedKind::Text => true,
                    RequestedKind::Bytes => true,
                    _ => false,
                };
                if !raw_kind && is_emittable(*media) && !self.no_transpile {
                    Ok(LoadStep::NeedsTranspile {
                        specifier: normalized,
                        media: *media,
                        source: copy_bytes(source),
                        is_known_script: *is_script,
                    })
                } else {
                    let response = LoadResponse {
                        specifier: normalized.clone(),
                        media_type: media_type_to_u8(*media),
                        code: copy_bytes(source),
                    };
                    self.parsed_cache.free(&normalized);
                    Ok(LoadStep::Complete { response })
                }
            },
            Some(ModuleRecord::Registry { .. }) => {
                let message = String::from_str("Failed resolving '").concat(
                    normalized.as_str(),
                ).concat(
                    "'.\n\nResolve the npm: specifier to a file: specifier before providing it to the loader.",
                );
                Err(EngineError::from_message(message))
            },
            Some(ModuleRecord::External { .. }) => Ok(LoadStep::FetchAsset {
                specifier: normalized,
            }),
            Some(ModuleRecord::Builtin { .. }) => Ok(LoadStep::External {
                specifier: normalized,
            }),
            Some(ModuleRecord::Failed { .. }) => Ok(LoadStep::FetchUnprepared {
                specifier: normalized,
            }),
            None => {
                if is_npm {
                    let message = String::from_str("Failed resolving '").concat(
                        normalized.as_str(),
                    ).concat(
                        "'.\n\nResolve the npm: specifier to a file: specifier before providing it to the loader.",
                    );
                    Err(EngineError::from_message(message))
                } else {
                    Ok(LoadStep::FetchUnprepared { specifier: normalized })
                }
            },
        }
    }

    /// Finishes an external-asset load with the fetcher's result: the bytes
    /// are returned unmodified, classified from the final location and the
    /// returned content-type header; no transpilation is attempted.
    pub fn finish_fetched_asset(
        &self,
        specifier: String,
        bytes: Vec<u8>,
        content_type: Option<String>,
    ) -> (r: LoadResponse)
        ensures
            r.specifier == specifier,
            r.media_type == spec_media_u8(
                spec_media_of_fetched(
                    specifier@,
                    crate::workspace::spec_opt_view(content_type),
                ),
            ),
            r.code == bytes,
    {
        let media = media_kind_of_fetched(specifier.as_str(), content_type.as_ref());
        LoadResponse { specifier, media_type: media_type_to_u8(media), code: bytes }
    }

    /// Finishes an unprepared load with the fetcher's result: raw requested
    /// kinds return the bytes as fetched; media requiring transpilation, with
    /// transpilation enabled, hands the host the transpile that must happen
    /// next; everything else returns as fetched.
    pub fn finish_fetched_unprepared(
        &self,
        specifier: String,
        bytes: Vec<u8>,
        content_type: Option<String>,
        kind: RequestedKind,
    ) -> (r: LoadStep)
        ensures
            r@ == spec_after_fetch(
                self.no_transpile,
                specifier@,
                crate::workspace::spec_opt_view(content_type),
                kind,
                bytes@,
            ),
    {
        let media = media_kind_of_fetched(specifier.as_str(), content_type.as_ref());
        let raw_kind = match kind {
            RequestedKind::Text => true,
            RequestedKind::Bytes => true,
            _ => false,
        };
        if !raw_kind && is_emittable(media) && !self.no_transpile {
            LoadStep::NeedsTranspile { specifier, media, source: bytes, is_known_script: None }
        } else {
            LoadStep::Complete {
                response: LoadResponse {
                    specifier,
                    media_type: media_type_to_u8(media),
                    code: bytes,
                },
            }
        }
    }

    /// Completes a transpile step with the host's transpiled bytes: the
    /// response carries exactly those bytes, classified executable, and the
    /// location's parsed-source cache entry is evicted -- the parse was
    /// consumed and no further reuse is expected.
    pub fn finish_transpiled(&mut self, specifier: String, transpiled: Vec<u8>) -> (r:
        LoadResponse)
        ensures
            final(self).wf() == old(self).wf(),
            final(self).graph == old(self).graph,
            final(self).root_dir_url == old(self).root_dir_url,
            final(self).initial_cwd == old(self).initial_cwd,
            final(self).no_transpile == old(self).no_transpile,
            r.specifier == specifier,
            r.media_type == spec_media_u8(MediaKind::JavaScript),
            r.code == transpiled,
            !final(self).parsed_cache.spec_contains(specifier@),
            forall|t: Seq<char>|
                final(self).parsed_cache.spec_contains(t) <==> old(
                    self,
                ).parsed_cache.spec_contains(t) && t != specifier@,
    {
        self.parsed_cache.free(&specifier);
        let media_type = media_type_to_u8(MediaKind::JavaScript);
        LoadResponse { specifier, media_type, code: transpiled }
    }
}

} // verus!
