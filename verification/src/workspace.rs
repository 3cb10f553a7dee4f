//! Workspace configuration: the host-supplied options, their validation at
//! engine construction, the config-discovery decision, and the creation of a
//! loader with an empty graph.

use vstd::prelude::*;
use crate::cell::ModuleGraphCell;
use crate::errors::EngineError;
use crate::foreign::{dir_url_of, dir_url_from_path, path_of_file_url, file_path_from_url};
use crate::graph::{GraphView, ModuleGraph};
use crate::loader::{DenoLoader, ParsedSourceCache};
use crate::text::{has_prefix, str_has_prefix, str_eq};

verus! {

/// The options a host hands the engine at construction; every field is
/// optional so an absent setting keeps its default.
pub struct DenoWorkspaceOptions {
    /// Disables config-file discovery.
    pub no_config: Option<bool>,
    /// Ignores any lock file.
    pub no_lock: Option<bool>,
    /// The target platform: `node`, `deno` or `browser`.
    pub platform: Option<String>,
    /// An explicit config file path, absolute or relative to the working
    /// directory.
    pub config_path: Option<String>,
    /// Extra resolution conditions for package-exports matching.
    pub node_conditions: Option<Vec<String>>,
    /// A cutoff, in milliseconds since the epoch, for newly published
    /// dependency versions.
    pub newest_dependency_date: Option<i64>,
    /// Restricts registry work to already-cached packages.
    pub cached_only: Option<bool>,
    /// Keeps JSX as written instead of transforming it.
    pub preserve_jsx: Option<bool>,
    /// Disables transpilation altogether.
    pub no_transpile: Option<bool>,
    /// Enables debug logging in the host.
    pub debug: Option<bool>,
}

/// How the engine finds its configuration file.
pub enum ConfigDiscovery {
    /// No config file is read.
    Disabled,
    /// This resolved path is read.
    Path(String),
    /// The working directory and its ancestors are searched.
    DiscoverCwd,
}

/// The registry cache policy.
#[derive(Clone, Copy, Debug, PartialEq, Eq, Structural)]
pub enum NpmCacheSetting {
    /// Only already-cached packages may be used.
    Only,
    /// The cache is used and filled as needed.
    Use,
}

/// The marker for the host's console progress reporter: the host renders
/// installer progress on its console; the engine itself never logs.
#[derive(Debug, Clone)]
pub struct ConsoleLogReporter;

/// The host system an installer resolves platform-specific packages for.
pub struct SystemInfo {
    /// The operating system name.
    pub os: String,
    /// The processor architecture name.
    pub cpu: String,
}

/// Resolves host-reported platform and architecture values into a system
/// description; either value missing is a configuration error.
pub fn npm_system_info(os: Option<String>, arch: Option<String>) -> (r: Result<
    SystemInfo,
    EngineError,
>)
    ensures
        r is Ok <==> os is Some && arch is Some,
        r matches Ok(info) ==> info.os == os.unwrap() && info.cpu == arch.unwrap(),
        os is None ==> (r matches Err(e) && e.message@
            == "Could not resolve process.platform global."@),
        os is Some && arch is None ==> (r matches Err(e) && e.message@
            == "Could not resolve process.arch global."@),
{
    match (os, arch) {
        (Some(os), Some(arch)) => Ok(SystemInfo { os, cpu: arch }),
        (None, _) => Err(EngineError::from_message(String::from_str(
            "Could not resolve process.platform global.",
        ))),
        (_, None) => Err(EngineError::from_message(String::from_str(
            "Could not resolve process.arch global.",
        ))),
    }
}

/// A path joined onto the working directory: an absolute path stands alone,
/// a relative one goes under the directory.
pub open spec fn spec_join_path(cwd: Seq<char>, p: Seq<char>) -> Seq<char> {
    if has_prefix(p, "/"@) {
        p
    } else {
        cwd + "/"@ + p
    }
}

/// What resolving a possibly-relative, possibly-URL-shaped path yields: a
/// `file:///` URL converts to its file path; anything else joins onto the
/// working directory.
pub open spec fn spec_resolve_absolute_path(path: Seq<char>, cwd: Seq<char>) -> Option<
    Seq<char>,
> {
    if has_prefix(path, "file:///"@) {
        path_of_file_url(path)
    } else {
        Some(spec_join_path(cwd, path))
    }
}

/// Resolves a path against the working directory: a `file:///` URL becomes
/// its file path, an absolute path stands, a relative path joins onto the
/// directory.
pub fn resolve_absolute_path(path: String, cwd: &String) -> (r: Result<String, EngineError>)
    ensures
        match r {
            Ok(p) => spec_resolve_absolute_path(path@, cwd@) == Some(p@),
            Err(_) => spec_resolve_absolute_path(path@, cwd@) is None,
        },
{
    if str_has_prefix(path.as_str(), "file:///") {
        match file_path_from_url(path.as_str()) {
            Some(p) => Ok(p),
            None => Err(EngineError::from_message(String::from_str(
                "Could not convert URL to file path.",
            ).concat(path.as_str()))),
        }
    } else if str_has_prefix(path.as_str(), "/") {
        Ok(path)
    } else {
        let mut joined = cwd.clone();
        joined.append("/");
        joined.append(path.as_str());
        assert(joined@ =~= cwd@ + "/"@ + path@);
        Ok(joined)
    }
}

/// Whether the platform option names a known platform.
pub open spec fn spec_platform_known(p: Option<Seq<char>>) -> bool {
    match p {
        Option::None => true,
        Option::Some(s) => s == "node"@ || s == "deno"@ || s == "browser"@,
    }
}

/// Whether the platform option selects the browser platform.
pub open spec fn spec_is_browser_platform(p: Option<Seq<char>>) -> bool {
    p == Option::Some("browser"@)
}

/// The view of an optional platform string.
pub open spec fn spec_opt_view(p: Option<String>) -> Option<Seq<char>> {
    match p {
        Option::Some(s) => Option::Some(s@),
        Option::None => Option::None,
    }
}

/// Whether the options' configuration file is locatable: discovery is
/// disabled, discovery searches the working directory, or the explicit path
/// resolves.
pub open spec fn spec_config_resolvable(options: DenoWorkspaceOptions, cwd: Seq<char>) -> bool {
    ||| options.no_config == Option::Some(true)
    ||| options.config_path is None
    ||| spec_resolve_absolute_path(options.config_path.unwrap()@, cwd) is Some
}

/// The engine's validated workspace configuration.
pub struct DenoWorkspace {
    /// Whether resolution targets the browser platform.
    pub is_browser_platform: bool,
    /// How the configuration file is found.
    pub config_discovery: ConfigDiscovery,
    /// Whether any lock file is ignored.
    pub no_lock: bool,
    /// The registry cache policy.
    pub cache_setting: NpmCacheSetting,
    /// Extra resolution conditions.
    pub node_conditions: Vec<String>,
    /// Cutoff for newly published dependency versions, milliseconds since
    /// the epoch.
    pub newest_dependency_date: Option<i64>,
    /// Whether transpilation is disabled.
    pub no_transpile: bool,
    /// Whether JSX is kept as written.
    pub preserve_jsx: bool,
    /// Whether the host logs debug output.
    pub debug: bool,
    /// The working directory every relative entrypoint resolves under.
    pub initial_cwd: String,
}

impl DenoWorkspace {
    /// Validates the host's options against the working directory: an
    /// unknown platform or an unconvertible config path is a configuration
    /// error; everything else defaults quietly.
    pub fn new(options: DenoWorkspaceOptions, cwd: String) -> (r: Result<
        DenoWorkspace,
        EngineError,
    >)
        ensures
            r is Ok <==> (spec_platform_known(spec_opt_view(options.platform))
                && spec_config_resolvable(options, cwd@)),
            (match options.platform {
                Option::Some(p) => !(p@ == "node"@ || p@ == "deno"@ || p@ == "browser"@) ==> (r
                    matches Err(e) && e.message@ == "Unknown platform '"@ + p@ + "'"@),
                Option::None => true,
            }),
            r matches Ok(w) ==> {
                &&& w.is_browser_platform == spec_is_browser_platform(
                    spec_opt_view(options.platform),
                )
                &&& w.no_lock == (options.no_lock == Some(true))
                &&& w.node_conditions@ == (match options.node_conditions {
                    Option::Some(c) => c@,
                    Option::None => Seq::<String>::empty(),
                })
                &&& w.cache_setting == (if options.cached_only == Some(true) {
                    NpmCacheSetting::Only
                } else {
                    NpmCacheSetting::Use
                })
                &&& w.newest_dependency_date == options.newest_dependency_date
                &&& w.no_transpile == (options.no_transpile == Some(true))
                &&& w.preserve_jsx == (options.preserve_jsx == Some(true))
                &&& w.debug == (options.debug == Some(true))
                &&& w.initial_cwd == cwd
                &&& (options.no_config == Some(true) ==> w.config_discovery is Disabled)
                &&& (options.no_config != Some(true) && options.config_path is None
                    ==> w.config_discovery is DiscoverCwd)
                &&& (match options.config_path {
                    Option::Some(p) => options.no_config != Some(true)
                        ==> (w.config_discovery matches ConfigDiscovery::Path(q)
                            && spec_resolve_absolute_path(p@, cwd@) == Some(q@)),
                    Option::None => true,
                })
            },
    {
        proof {
            reveal_strlit("node");
            reveal_strlit("deno");
            reveal_strlit("browser");
            assert("node"@.len() == 4);
            assert("deno"@.len() == 4);
            assert("browser"@.len() == 7);
        }
        let DenoWorkspaceOptions {
            no_config,
            no_lock,
            platform,
            config_path,
            node_conditions,
            newest_dependency_date,
            cached_only,
            preserve_jsx,
            no_transpile,
            debug,
        } = options;
        let is_browser_platform = match &platform {
            Some(p) => {
                if str_eq(p.as_str(), "node") || str_eq(p.as_str(), "deno") {
                    false
                } else if str_eq(p.as_str(), "browser") {
                    true
                } else {
                    let mut message = String::from_str("Unknown platform '");
                    message.append(p.as_str());
                    message.append("'");
                    return Err(EngineError::from_message(message));
                }
            },
            None => false,
        };
        let config_discovery = if matches!(no_config, Some(true)) {
            ConfigDiscovery::Disabled
        } else {
            match config_path {
                Some(p) => match resolve_absolute_path(p, &cwd) {
                    Ok(q) => ConfigDiscovery::Path(q),
                    Err(e) => {
                        return Err(e);
                    },
                },
                None => ConfigDiscovery::DiscoverCwd,
            }
        };
        Ok(DenoWorkspace {
            is_browser_platform,
            config_discovery,
            no_lock: matches!(no_lock, Some(true)),
            cache_setting: if matches!(cached_only, Some(true)) {
                NpmCacheSetting::Only
            } else {
                NpmCacheSetting::Use
            },
            node_conditions: match node_conditions {
                Some(c) => c,
                None => Vec::new(),
            },
            newest_dependency_date,
            no_transpile: matches!(no_transpile, Some(true)),
            preserve_jsx: matches!(preserve_jsx, Some(true)),
            debug: matches!(debug, Some(true)),
            initial_cwd: cwd,
        })
    }

    /// Creates a loader over a fresh, empty graph; fails only where the
    /// working directory has no directory URL.
    pub fn create_loader(&self) -> (r: Result<DenoLoader, EngineError>)
        ensures
            r is Ok <==> dir_url_of(self.initial_cwd@) is Some,
            r matches Ok(l) ==> {
                &&& l.wf()
                &&& l.graph@ == GraphView::empty()
                &&& l.graph@.wf()
                &&& l.root_dir_url@ == dir_url_of(self.initial_cwd@).unwrap()
                &&& l.initial_cwd == self.initial_cwd
                &&& l.no_transpile == self.no_transpile
                &&& l.parsed_cache@ =~= Seq::<Seq<char>>::empty()
            },
    {
        let root_dir_url = match dir_url_from_path(self.initial_cwd.as_str()) {
            Some(u) => u,
            None => {
                return Err(EngineError::from_message(String::from_str(
                    "Could not convert the working directory to a URL.",
                )));
            },
        };
        Ok(DenoLoader {
            graph: ModuleGraphCell::new(ModuleGraph::new()),
            root_dir_url,
            initial_cwd: self.initial_cwd.clone(),
            no_transpile: self.no_transpile,
            parsed_cache: ParsedSourceCache::new(),
        })
    }
}

} // verus!
