//! Media classification: the closed set of module media kinds, the numeric
//! encoding handed to the host, and classification of a location (plus an
//! optional content-type header) into a media kind.

use vstd::prelude::*;
use crate::text::{has_suffix, str_has_suffix, str_eq};

verus! {

/// The media kind of a module or asset, determined from its location's
/// extension and, for fetched content, a content-type header.
#[derive(Clone, Copy, Debug, PartialEq, Eq, Structural)]
pub enum MediaKind {
    JavaScript,
    Jsx,
    Mjs,
    Cjs,
    TypeScript,
    Mts,
    Cts,
    Dts,
    Dmts,
    Dcts,
    Tsx,
    Css,
    Json,
    Jsonc,
    Json5,
    Html,
    Sql,
    Wasm,
    SourceMap,
    Unknown,
}

/// The numeric code for each media kind, as handed across the host boundary.
pub open spec fn spec_media_u8(m: MediaKind) -> u8 {
    match m {
        MediaKind::JavaScript => 0,
        MediaKind::Jsx => 1,
        MediaKind::Mjs => 2,
        MediaKind::Cjs => 3,
        MediaKind::TypeScript => 4,
        MediaKind::Mts => 5,
        MediaKind::Cts => 6,
        MediaKind::Dts => 7,
        MediaKind::Dmts => 8,
        MediaKind::Dcts => 9,
        MediaKind::Tsx => 10,
        MediaKind::Css => 11,
        MediaKind::Json => 12,
        MediaKind::Jsonc => 13,
        MediaKind::Json5 => 14,
        MediaKind::Html => 15,
        MediaKind::Sql => 16,
        MediaKind::Wasm => 17,
        MediaKind::SourceMap => 18,
        MediaKind::Unknown => 19,
    }
}

/// Encodes a media kind as the numeric code the host expects.
pub fn media_type_to_u8(media_type: MediaKind) -> (r: u8)
    ensures
        r == spec_media_u8(media_type),
{
    match media_type {
        MediaKind::JavaScript => 0,
        MediaKind::Jsx => 1,
        MediaKind::Mjs => 2,
        MediaKind::Cjs => 3,
        MediaKind::TypeScript => 4,
        MediaKind::Mts => 5,
        MediaKind::Cts => 6,
        MediaKind::Dts => 7,
        MediaKind::Dmts => 8,
        MediaKind::Dcts => 9,
        MediaKind::Tsx => 10,
        MediaKind::Css => 11,
        MediaKind::Json => 12,
        MediaKind::Jsonc => 13,
        MediaKind::Json5 => 14,
        MediaKind::Html => 15,
        MediaKind::Sql => 16,
        MediaKind::Wasm => 17,
        MediaKind::SourceMap => 18,
        MediaKind::Unknown => 19,
    }
}

/// A media kind that must be transpiled before the host can execute it.
pub open spec fn spec_is_emittable(m: MediaKind) -> bool {
    match m {
        MediaKind::TypeScript => true,
        MediaKind::Mts => true,
        MediaKind::Cts => true,
        MediaKind::Jsx => true,
        MediaKind::Tsx => true,
        _ => false,
    }
}

/// Whether this media kind requires transpilation before execution.
pub fn is_emittable(m: MediaKind) -> (r: bool)
    ensures
        r == spec_is_emittable(m),
{
    match m {
        MediaKind::TypeScript => true,
        MediaKind::Mts => true,
        MediaKind::Cts => true,
        MediaKind::Jsx => true,
        MediaKind::Tsx => true,
        _ => false,
    }
}

/// The length of the leading part of `s` that stops at the first `?` or `#`:
/// for a location string, the part that carries the path and its extension.
pub open spec fn spec_path_end(s: Seq<char>, i: int) -> int
    decreases s.len() - i,
{
    if i < 0 || i > s.len() {
        0
    } else if i == s.len() {
        s.len() as int
    } else if s[i] == '?' || s[i] == '#' {
        i
    } else {
        spec_path_end(s, i + 1)
    }
}

/// The path part of a location: everything before the first `?` or `#`.
pub open spec fn spec_path_part(s: Seq<char>) -> Seq<char> {
    s.subrange(0, spec_path_end(s, 0))
}

/// Classification of a path by its extension.
pub open spec fn spec_media_of_path(p: Seq<char>) -> MediaKind {
    if has_suffix(p, ".d.ts"@) { MediaKind::Dts }
    else if has_suffix(p, ".d.mts"@) { MediaKind::Dmts }
    else if has_suffix(p, ".d.cts"@) { MediaKind::Dcts }
    else if has_suffix(p, ".ts"@) { MediaKind::TypeScript }
    else if has_suffix(p, ".mts"@) { MediaKind::Mts }
    else if has_suffix(p, ".cts"@) { MediaKind::Cts }
    else if has_suffix(p, ".tsx"@) { MediaKind::Tsx }
    else if has_suffix(p, ".js"@) { MediaKind::JavaScript }
    else if has_suffix(p, ".jsx"@) { MediaKind::Jsx }
    else if has_suffix(p, ".mjs"@) { MediaKind::Mjs }
    else if has_suffix(p, ".cjs"@) { MediaKind::Cjs }
    else if has_suffix(p, ".json"@) { MediaKind::Json }
    else if has_suffix(p, ".jsonc"@) { MediaKind::Jsonc }
    else if has_suffix(p, ".json5"@) { MediaKind::Json5 }
    else if has_suffix(p, ".css"@) { MediaKind::Css }
    else if has_suffix(p, ".html"@) { MediaKind::Html }
    else if has_suffix(p, ".sql"@) { MediaKind::Sql }
    else if has_suffix(p, ".wasm"@) { MediaKind::Wasm }
    else if has_suffix(p, ".map"@) { MediaKind::SourceMap }
    else { MediaKind::Unknown }
}

/// Classification of a whole location string: its path part's extension.
pub open spec fn spec_media_of_location(location: Seq<char>) -> MediaKind {
    spec_media_of_path(spec_path_part(location))
}

fn path_part<'a>(s: &'a str) -> (r: &'a str)
    ensures
        r@ == spec_path_part(s@),
{
    let n = s.unicode_len();
    let mut i: usize = 0;
    while i < n
        invariant
            i <= n,
            n == s@.len(),
            forall|j: int| 0 <= j < i ==> s@[j] != '?' && s@[j] != '#',
        decreases n - i,
    {
        let c = s.get_char(i);
        if c == '?' || c == '#' {
            proof {
                lemma_path_end_at(s@, 0, i as int);
            }
            return s.substring_char(0, i);
        }
        i = i + 1;
    }
    proof {
        lemma_path_end_at(s@, 0, s@.len() as int);
    }
    s.substring_char(0, n)
}

proof fn lemma_path_end_at(s: Seq<char>, i: int, stop: int)
    requires
        0 <= i <= stop <= s.len(),
        forall|j: int| i <= j < stop ==> s[j] != '?' && s[j] != '#',
        stop < s.len() ==> s[stop] == '?' || s[stop] == '#',
    ensures
        spec_path_end(s, i) == stop,
    decreases stop - i,
{
    if i < stop {
        lemma_path_end_at(s, i + 1, stop);
    }
}

/// Classifies a location string into a media kind by its extension,
/// ignoring any query or fragment part.
pub fn media_kind_of_location(location: &str) -> (r: MediaKind)
    ensures
        r == spec_media_of_location(location@),
{
    let p = path_part(location);
    if str_has_suffix(p, ".d.ts") { MediaKind::Dts }
    else if str_has_suffix(p, ".d.mts") { MediaKind::Dmts }
    else if str_has_suffix(p, ".d.cts") { MediaKind::Dcts }
    else if str_has_suffix(p, ".ts") { MediaKind::TypeScript }
    else if str_has_suffix(p, ".mts") { MediaKind::Mts }
    else if str_has_suffix(p, ".cts") { MediaKind::Cts }
    else if str_has_suffix(p, ".tsx") { MediaKind::Tsx }
    else if str_has_suffix(p, ".js") { MediaKind::JavaScript }
    else if str_has_suffix(p, ".jsx") { MediaKind::Jsx }
    else if str_has_suffix(p, ".mjs") { MediaKind::Mjs }
    else if str_has_suffix(p, ".cjs") { MediaKind::Cjs }
    else if str_has_suffix(p, ".json") { MediaKind::Json }
    else if str_has_suffix(p, ".jsonc") { MediaKind::Jsonc }
    else if str_has_suffix(p, ".json5") { MediaKind::Json5 }
    else if str_has_suffix(p, ".css") { MediaKind::Css }
    else if str_has_suffix(p, ".html") { MediaKind::Html }
    else if str_has_suffix(p, ".sql") { MediaKind::Sql }
    else if str_has_suffix(p, ".wasm") { MediaKind::Wasm }
    else if str_has_suffix(p, ".map") { MediaKind::SourceMap }
    else { MediaKind::Unknown }
}

/// Media classification of fetched content: a recognized content-type header
/// decides the family (refined by the location's extension where the family is
/// ambiguous); any other or missing header falls back to the extension. A
/// header is recognized only as the exact lowercase essence written here: a
/// header with different case or with parameters such as `charset` falls
/// back to the extension.
pub open spec fn spec_media_of_fetched(location: Seq<char>, content_type: Option<Seq<char>>)
    -> MediaKind {
    match content_type {
        Option::Some(ct) => {
            if ct == "application/typescript"@ || ct == "text/typescript"@ {
                spec_refine_ts(spec_media_of_location(location))
            } else if ct == "application/javascript"@ || ct == "text/javascript"@
                || ct == "application/ecmascript"@ || ct == "text/ecmascript"@ {
                spec_refine_js(spec_media_of_location(location))
            } else if ct == "text/jsx"@ {
                MediaKind::Jsx
            } else if ct == "text/tsx"@ {
                MediaKind::Tsx
            } else if ct == "application/json"@ || ct == "text/json"@ {
                MediaKind::Json
            } else if ct == "text/css"@ {
                MediaKind::Css
            } else if ct == "application/wasm"@ {
                MediaKind::Wasm
            } else if ct == "text/html"@ {
                MediaKind::Html
            } else {
                spec_media_of_location(location)
            }
        },
        Option::None => spec_media_of_location(location),
    }
}

/// Refinement of a TypeScript-family content type by extension.
pub open spec fn spec_refine_ts(by_ext: MediaKind) -> MediaKind {
    match by_ext {
        MediaKind::Mts => MediaKind::Mts,
        MediaKind::Cts => MediaKind::Cts,
        MediaKind::Dts => MediaKind::Dts,
        MediaKind::Dmts => MediaKind::Dmts,
        MediaKind::Dcts => MediaKind::Dcts,
        _ => MediaKind::TypeScript,
    }
}

/// Refinement of a JavaScript-family content type by extension.
pub open spec fn spec_refine_js(by_ext: MediaKind) -> MediaKind {
    match by_ext {
        MediaKind::Mjs => MediaKind::Mjs,
        MediaKind::Cjs => MediaKind::Cjs,
        _ => MediaKind::JavaScript,
    }
}

fn refine_ts(by_ext: MediaKind) -> (r: MediaKind)
    ensures
        r == spec_refine_ts(by_ext),
{
    match by_ext {
        MediaKind::Mts => MediaKind::Mts,
        MediaKind::Cts => MediaKind::Cts,
        MediaKind::Dts => MediaKind::Dts,
        MediaKind::Dmts => MediaKind::Dmts,
        MediaKind::Dcts => MediaKind::Dcts,
        _ => MediaKind::TypeScript,
    }
}

fn refine_js(by_ext: MediaKind) -> (r: MediaKind)
    ensures
        r == spec_refine_js(by_ext),
{
    match by_ext {
        MediaKind::Mjs => MediaKind::Mjs,
        MediaKind::Cjs => MediaKind::Cjs,
        _ => MediaKind::JavaScript,
    }
}

/// Classifies fetched content from its location and content-type header.
pub fn media_kind_of_fetched(location: &str, content_type: Option<&String>) -> (r: MediaKind)
    ensures
        r == spec_media_of_fetched(
            location@,
            match content_type {
                Option::Some(ct) => Option::Some(ct@),
                Option::None => Option::None,
            },
        ),
{
    match content_type {
        Option::Some(ct) => {
            let ct = ct.as_str();
            if str_eq(ct, "application/typescript") || str_eq(ct, "text/typescript") {
                refine_ts(media_kind_of_location(location))
            } else if str_eq(ct, "application/javascript") || str_eq(ct, "text/javascript")
                || str_eq(ct, "application/ecmascript") || str_eq(ct, "text/ecmascript") {
                refine_js(media_kind_of_location(location))
            } else if str_eq(ct, "text/jsx") {
                MediaKind::Jsx
            } else if str_eq(ct, "text/tsx") {
                MediaKind::Tsx
            } else if str_eq(ct, "application/json") || str_eq(ct, "text/json") {
                MediaKind::Json
            } else if str_eq(ct, "text/css") {
                MediaKind::Css
            } else if str_eq(ct, "application/wasm") {
                MediaKind::Wasm
            } else if str_eq(ct, "text/html") {
                MediaKind::Html
            } else {
                media_kind_of_location(location)
            }
        },
        Option::None => media_kind_of_location(location),
    }
}

/// The resolution mode of a request: ECMAScript import or CommonJS require.
#[derive(Clone, Copy, Debug, PartialEq, Eq, Structural)]
pub enum ResolutionMode {
    Import,
    Require,
}

/// Decodes the host's numeric resolution mode: `1` means require-style
/// resolution, anything else import-style.
pub fn parse_resolution_mode(resolution_mode: u8) -> (r: ResolutionMode)
    ensures
        resolution_mode == 1 ==> r == ResolutionMode::Require,
        resolution_mode != 1 ==> r == ResolutionMode::Import,
{
    match resolution_mode {
        1 => ResolutionMode::Require,
        _ => ResolutionMode::Import,
    }
}

} // verus!
