//! The engine's calls into outside crates, each behind a small trusted
//! wrapper: URL parsing and normalization, registry-requirement detection,
//! and path/URL conversion. Each result that is a pure function of the
//! arguments is given an uninterpreted name the contracts speak of. The
//! path/URL conversions differ between Windows and Unix builds, so each of
//! their names stands for the conversion of the compile target at hand:
//! "depends on the path text alone" holds within a build, not across
//! targets.

use vstd::prelude::*;
use crate::text::has_prefix;

verus! {

/// The normalized serialization `url::Url::parse` gives an input, where it
/// parses at all.
pub uninterp spec fn url_parse_of(s: Seq<char>) -> Option<Seq<char>>;

/// Relies on `url::Url::parse`: the normalized serialization depends on the
/// input text alone.
#[verifier::external_body]
pub fn parse_url(s: &str) -> (r: Option<String>)
    ensures
        r is Some <==> url_parse_of(s@) is Some,
        r matches Some(u) ==> u@ == url_parse_of(s@).unwrap(),
{
    match url::Url::parse(s) {
        Ok(u) => Some(String::from(u)),
        Err(_) => None,
    }
}

/// Whether a specifier parses as an npm registry requirement.
pub uninterp spec fn is_npm_coordinate(s: Seq<char>) -> bool;

/// Relies on `deno_semver::npm::NpmPackageReqReference::from_str`: whether a
/// specifier parses as an npm package requirement depends on its text alone,
/// and parsing fails unless the text starts with `npm:`.
#[verifier::external_body]
pub fn is_npm_req_ref(s: &str) -> (r: bool)
    ensures
        r == is_npm_coordinate(s@),
        r ==> has_prefix(s@, "npm:"@),
{
    deno_semver::npm::NpmPackageReqReference::from_str(s).is_ok()
}

/// Whether a specifier parses as a jsr registry requirement.
pub uninterp spec fn is_jsr_coordinate(s: Seq<char>) -> bool;

/// Relies on `deno_semver::jsr::JsrPackageReqReference::from_str`: whether a
/// specifier parses as a jsr package requirement depends on its text alone,
/// and parsing fails unless the text starts with `jsr:`.
#[verifier::external_body]
pub fn is_jsr_req_ref(s: &str) -> (r: bool)
    ensures
        r == is_jsr_coordinate(s@),
        r ==> has_prefix(s@, "jsr:"@),
{
    deno_semver::jsr::JsrPackageReqReference::from_str(s).is_ok()
}

/// The file URL `deno_path_util::url_from_file_path` gives a path, where the
/// path converts at all.
pub uninterp spec fn file_url_of(p: Seq<char>) -> Option<Seq<char>>;

/// Relies on `deno_path_util::url_from_file_path`: the file URL depends on
/// the path text alone.
#[verifier::external_body]
pub fn file_url_from_path(p: &str) -> (r: Option<String>)
    ensures
        r is Some <==> file_url_of(p@) is Some,
        r matches Some(u) ==> u@ == file_url_of(p@).unwrap(),
{
    match deno_path_util::url_from_file_path(std::path::Path::new(p)) {
        Ok(u) => Some(String::from(u)),
        Err(_) => None,
    }
}

/// The directory URL `deno_path_util::url_from_directory_path` gives a path,
/// where the path converts at all.
pub uninterp spec fn dir_url_of(p: Seq<char>) -> Option<Seq<char>>;

/// Relies on `deno_path_util::url_from_directory_path`: the directory URL
/// depends on the path text alone.
#[verifier::external_body]
pub fn dir_url_from_path(p: &str) -> (r: Option<String>)
    ensures
        r is Some <==> dir_url_of(p@) is Some,
        r matches Some(u) ==> u@ == dir_url_of(p@).unwrap(),
{
    match deno_path_util::url_from_directory_path(std::path::Path::new(p)) {
        Ok(u) => Some(String::from(u)),
        Err(_) => None,
    }
}

/// The file path `deno_path_util::url_to_file_path` gives a file URL, where
/// the URL parses and converts at all.
pub uninterp spec fn path_of_file_url(s: Seq<char>) -> Option<Seq<char>>;

/// Relies on `deno_path_util::url_to_file_path` (and on `url::Url::parse` to
/// read its argument): the file path depends on the URL text alone.
#[verifier::external_body]
pub fn file_path_from_url(s: &str) -> (r: Option<String>)
    ensures
        r is Some <==> path_of_file_url(s@) is Some,
        r matches Some(p) ==> p@ == path_of_file_url(s@).unwrap(),
{
    let url = match url::Url::parse(s) {
        Ok(u) => u,
        Err(_) => return None,
    };
    match deno_path_util::url_to_file_path(&url) {
        Ok(p) => match p.to_str() {
            Some(s) => Some(s.to_string()),
            None => None,
        },
        Err(_) => None,
    }
}

} // verus!
