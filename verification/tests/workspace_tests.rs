use deno_loader::workspace::{
    ConfigDiscovery, DenoWorkspace, DenoWorkspaceOptions, NpmCacheSetting, npm_system_info,
    resolve_absolute_path,
};

fn default_options() -> DenoWorkspaceOptions {
    DenoWorkspaceOptions {
        no_config: None,
        no_lock: None,
        platform: None,
        config_path: None,
        node_conditions: None,
        newest_dependency_date: None,
        cached_only: None,
        preserve_jsx: None,
        no_transpile: None,
        debug: None,
    }
}

#[test]
fn unknown_platform_is_a_configuration_error() {
    let mut options = default_options();
    options.platform = Some(String::from("solaris"));
    let err = DenoWorkspace::new(options, String::from("/proj")).err().unwrap();
    assert_eq!(err.message, "Unknown platform 'solaris'");
}

#[test]
fn browser_platform_is_recognized() {
    let mut options = default_options();
    options.platform = Some(String::from("browser"));
    let w = DenoWorkspace::new(options, String::from("/proj")).unwrap();
    assert!(w.is_browser_platform);
}

#[test]
fn node_and_deno_platforms_are_not_browser() {
    let mut options = default_options();
    options.platform = Some(String::from("node"));
    assert!(!DenoWorkspace::new(options, String::from("/proj")).unwrap().is_browser_platform);
    let mut options = default_options();
    options.platform = Some(String::from("deno"));
    assert!(!DenoWorkspace::new(options, String::from("/proj")).unwrap().is_browser_platform);
}

#[test]
fn missing_platform_defaults_quietly() {
    let w = DenoWorkspace::new(default_options(), String::from("/proj")).unwrap();
    assert!(!w.is_browser_platform);
    assert!(!w.no_lock);
    assert!(!w.no_transpile);
    assert_eq!(w.cache_setting, NpmCacheSetting::Use);
    assert!(matches!(w.config_discovery, ConfigDiscovery::DiscoverCwd));
}

#[test]
fn no_config_disables_discovery() {
    let mut options = default_options();
    options.no_config = Some(true);
    options.config_path = Some(String::from("deno.json"));
    let w = DenoWorkspace::new(options, String::from("/proj")).unwrap();
    assert!(matches!(w.config_discovery, ConfigDiscovery::Disabled));
}

#[test]
fn relative_config_path_resolves_under_the_working_directory() {
    let mut options = default_options();
    options.config_path = Some(String::from("deno.json"));
    let w = DenoWorkspace::new(options, String::from("/proj")).unwrap();
    match w.config_discovery {
        ConfigDiscovery::Path(p) => assert_eq!(p, "/proj/deno.json"),
        _ => panic!("expected a resolved config path"),
    }
}

#[test]
fn cached_only_selects_the_cache_only_policy() {
    let mut options = default_options();
    options.cached_only = Some(true);
    let w = DenoWorkspace::new(options, String::from("/proj")).unwrap();
    assert_eq!(w.cache_setting, NpmCacheSetting::Only);
}

#[test]
fn file_url_config_path_converts_to_its_file_path() {
    let r = resolve_absolute_path(String::from("file:///etc/deno.json"), &String::from("/proj"));
    assert_eq!(r.unwrap(), "/etc/deno.json");
}

#[test]
fn absolute_path_stands_alone() {
    let r = resolve_absolute_path(String::from("/opt/deno.json"), &String::from("/proj"));
    assert_eq!(r.unwrap(), "/opt/deno.json");
}

#[test]
fn system_info_requires_both_values() {
    let ok = npm_system_info(Some(String::from("linux")), Some(String::from("x64"))).unwrap();
    assert_eq!(ok.os, "linux");
    assert_eq!(ok.cpu, "x64");
    let err = npm_system_info(None, Some(String::from("x64"))).err().unwrap();
    assert_eq!(err.message, "Could not resolve process.platform global.");
    let err = npm_system_info(Some(String::from("linux")), None).err().unwrap();
    assert_eq!(err.message, "Could not resolve process.arch global.");
}

#[test]
fn create_loader_uses_the_working_directory_url() {
    let w = DenoWorkspace::new(default_options(), String::from("/proj")).unwrap();
    let loader = w.create_loader().unwrap();
    assert_eq!(loader.root_dir_url, "file:///proj/");
    assert_eq!(loader.initial_cwd, "/proj");
    assert!(loader.get_graph().roots.is_empty());
    assert!(loader.get_graph().modules.is_empty());
}
