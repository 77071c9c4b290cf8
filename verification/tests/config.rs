use vaieart_services::config::checks::{generated_service_name, normalize_route_path, validate_sync_source};
use vaieart_services::config::defaults::{
    default_caddyfile_path, default_deno_bin, default_managed_prefix, default_pocketbase_binary,
    default_pocketbase_port, default_pocketbase_read_timeout,
    default_pocketbase_request_body_max_size, default_rsync_program, default_ssh_port,
    default_ssh_program, default_sync_source, default_systemd_dir, default_tmp_dir,
    default_warp_cli, default_warp_daemon_service, default_warp_proxy_port,
};
use vaieart_services::config::paths::{config_directory, local_config_path, local_path_candidate};
use vaieart_services::config::{
    BuildConfig, CaddyConfig, Config, LocalConfig, LocalRemoteConfig, PocketBaseConfig,
    RemoteConfig, ResolvedPaths, ServiceConfig, ServiceKind, ServiceMap, WarpProxyConfig,
};
use vaieart_services::env::EnvVars;

const ROOT: &str = "/work/site";

fn remote() -> RemoteConfig {
    RemoteConfig {
        host: None,
        user: None,
        port: default_ssh_port(),
        identity_file: None,
        extra_ssh_args: Vec::new(),
        ssh_program: default_ssh_program(),
        rsync_program: default_rsync_program(),
        tmp_dir: default_tmp_dir(),
        caddyfile_path: default_caddyfile_path(),
        systemd_dir: default_systemd_dir(),
        managed_prefix: default_managed_prefix(),
        deno_bin: default_deno_bin(),
    }
}

fn remote_with_host() -> RemoteConfig {
    let mut r = remote();
    r.host = Some("vaie.art".to_string());
    r.user = Some("root".to_string());
    r
}

fn caddy(www: Option<&str>) -> CaddyConfig {
    CaddyConfig { primary_host: "vaie.art".to_string(), www_redirect_host: www.map(str::to_string) }
}

fn service(name: &str, kind: ServiceKind, local_path: &str, remote_path: &str) -> ServiceConfig {
    ServiceConfig {
        name: name.to_string(),
        kind,
        local_path: local_path.to_string(),
        remote_path: remote_path.to_string(),
        sync_source: default_sync_source(),
        host: None,
        route_path: None,
        port: None,
        entrypoint: None,
        service_name: None,
        environment: EnvVars::new(),
        build: None,
    }
}

fn deno(name: &str, local_path: &str, remote_path: &str, port: u16) -> ServiceConfig {
    let mut s = service(name, ServiceKind::DenoApp, local_path, remote_path);
    s.port = Some(port);
    s.entrypoint = Some("index.js".to_string());
    s
}

fn static_site(name: &str, local_path: &str, remote_path: &str, route: &str) -> ServiceConfig {
    let mut s = service(name, ServiceKind::StaticSite, local_path, remote_path);
    s.route_path = Some(route.to_string());
    s
}

fn pocketbase() -> PocketBaseConfig {
    PocketBaseConfig {
        name: "site-pocketbase".to_string(),
        host: "pb.vaie.art".to_string(),
        source_path: "src/pocketbase".to_string(),
        remote_path: "/srv/vaieart-pocketbase".to_string(),
        data_dir: "/var/lib/vaieart-pocketbase/pb_data".to_string(),
        backup_dir: None,
        port: default_pocketbase_port(),
        binary: default_pocketbase_binary(),
        service_name: None,
        environment_file: None,
        request_body_max_size: default_pocketbase_request_body_max_size(),
        read_timeout: default_pocketbase_read_timeout(),
        encryption_env: None,
        warp_proxy: None,
    }
}

fn warp_proxy() -> WarpProxyConfig {
    WarpProxyConfig {
        port: default_warp_proxy_port(),
        cli: default_warp_cli(),
        daemon_service: default_warp_daemon_service(),
    }
}

fn config(remote: RemoteConfig, pocketbase: Option<PocketBaseConfig>, services: Vec<ServiceConfig>) -> Config {
    Config { manifest_version: 1, remote, caddy: caddy(None), pocketbase, services }
}

/// What canonicalizing the configured paths gives when every one of them exists.
fn existing_paths(config: &Config) -> ResolvedPaths {
    ResolvedPaths {
        root: Some(ROOT.to_string()),
        local_paths: config.services.iter().map(|s| Some(format!("{ROOT}/{}", s.local_path))).collect(),
        pocketbase_source: config.pocketbase.as_ref().map(|p| format!("{ROOT}/{}", p.source_path)),
    }
}

fn load(config: Config) -> ServiceMap {
    let paths = existing_paths(&config);
    config.validate("/work/site/services.toml", paths).expect("validate config")
}

fn load_error(config: Config) -> String {
    let paths = existing_paths(&config);
    config.validate("/work/site/services.toml", paths).expect_err("validation should fail")
}

fn sample_config() -> Config {
    let mut c = config(
        remote(),
        None,
        vec![
            deno("vaie.art", "src/submodules/vaie.art", "/srv/vaie.art", 3000),
            static_site("pudle", "src/submodules/pudle", "/web/pudle", "/pudle"),
        ],
    );
    c.caddy = caddy(Some("www.vaie.art"));
    c
}

#[test]
fn valid_config_parses_and_resolves_defaults() {
    let map = load(sample_config());

    assert_eq!(map.remote.host, None);
    assert_eq!(map.remote.user, None);
    assert_eq!(map.remote.port, 22);
    assert_eq!(map.remote.ssh_program, "ssh");
    assert_eq!(map.services.len(), 2);
    assert_eq!(map.systemd_service_names(), vec!["vaieart-vaie-art.service"]);
}

#[test]
fn pocketbase_config_parses_and_owns_a_systemd_unit() {
    let mut pb = pocketbase();
    pb.backup_dir = Some("/var/backups/vaieart-pocketbase".to_string());
    pb.port = 8090;
    pb.environment_file = Some("/etc/vaieart/pocketbase.env".to_string());
    pb.encryption_env = Some("PB_ENCRYPTION_KEY".to_string());
    pb.warp_proxy = Some(warp_proxy());
    let map = load(config(
        remote_with_host(),
        Some(pb),
        vec![static_site("pudle", "src/submodules/pudle", "/web/pudle", "/pudle")],
    ));
    let pocketbase = map.pocketbase.as_ref().expect("pocketbase config");

    assert_eq!(pocketbase.host, "pb.vaie.art");
    assert_eq!(pocketbase.port, 8090);
    assert_eq!(pocketbase.service_name, "vaieart-site-pocketbase.service");
    let warp_proxy = pocketbase.warp_proxy.as_ref().expect("WARP proxy config");
    assert_eq!(warp_proxy.port, 40000);
    assert_eq!(warp_proxy.cli, "/usr/bin/warp-cli");
    assert_eq!(warp_proxy.daemon_service, "warp-svc.service");
    assert_eq!(warp_proxy.service_name, "vaieart-site-pocketbase-warp-proxy.service");
    assert_eq!(
        map.systemd_service_names(),
        vec!["vaieart-site-pocketbase-warp-proxy.service", "vaieart-site-pocketbase.service"],
    );
}

#[test]
fn pocketbase_warp_proxy_rejects_zero_port() {
    let mut pb = pocketbase();
    let mut warp = warp_proxy();
    warp.port = 0;
    pb.warp_proxy = Some(warp);
    let error = load_error(config(
        remote(),
        Some(pb),
        vec![static_site("pudle", "src/submodules/pudle", "/web/pudle", "/pudle")],
    ));

    assert!(error.contains("pocketbase.warp_proxy.port must be greater than 0"));
}

#[test]
fn pocketbase_encryption_env_requires_environment_file() {
    let mut pb = pocketbase();
    pb.port = 8090;
    pb.encryption_env = Some("PB_ENCRYPTION_KEY".to_string());
    let error = load_error(config(
        remote_with_host(),
        Some(pb),
        vec![static_site("pudle", "src/submodules/pudle", "/web/pudle", "/pudle")],
    ));

    assert!(error.contains("pocketbase.encryption_env requires"));
}

#[test]
fn duplicate_ports_are_rejected() {
    let mut two = deno("two", "src/submodules/pudle", "/srv/two", 3000);
    two.route_path = Some("/two".to_string());
    let error = load_error(config(
        remote_with_host(),
        None,
        vec![deno("one", "src/submodules/vaie.art", "/srv/one", 3000), two],
    ));

    assert!(error.contains("duplicate Deno port"));
}

#[test]
fn duplicate_routes_are_rejected() {
    let error = load_error(config(
        remote_with_host(),
        None,
        vec![
            static_site("one", "src/submodules/vaie.art", "/web/one", "/pudle"),
            static_site("two", "src/submodules/pudle", "/web/two", "/pudle/"),
        ],
    ));

    assert!(error.contains("duplicate Caddy route"));
}

#[test]
fn invalid_mount_paths_are_rejected() {
    let error = load_error(config(
        remote_with_host(),
        None,
        vec![static_site("pudle", "src/submodules/pudle", "/web/pudle", "pudle")],
    ));

    assert!(error.contains("route_path"));
}

#[test]
fn invalid_service_names_are_rejected() {
    let error = load_error(config(
        remote_with_host(),
        None,
        vec![static_site("Vaie", "src/submodules/pudle", "/web/pudle", "/pudle")],
    ));

    assert!(error.contains("service name"));
}

#[test]
fn build_rejects_command_and_commands_together() {
    let mut pudle = static_site("pudle", "src/submodules/pudle", "/web/pudle", "/pudle");
    pudle.build = Some(BuildConfig {
        command: Some(vec!["deno".to_string(), "task".to_string(), "build".to_string()]),
        commands: vec![
            vec!["deno".to_string(), "task".to_string(), "convert-media".to_string()],
            vec!["deno".to_string(), "task".to_string(), "build".to_string()],
        ],
        environment: EnvVars::new(),
    });
    let error = load_error(config(remote_with_host(), None, vec![pudle]));

    assert!(error.contains("either command or commands"));
}

#[test]
fn bare_config_paths_resolve_from_current_directory() {
    assert_eq!(config_directory("services.toml"), ".");
}

#[test]
fn local_config_overrides_private_remote_access() {
    let mut c = sample_config();
    assert_eq!(local_config_path("/work/site/services.toml"), "/work/site/services.local.toml");
    c.apply_local(LocalConfig {
        remote: Some(LocalRemoteConfig {
            host: Some("vaie-prod".to_string()),
            user: Some("deploy".to_string()),
            port: None,
            identity_file: Some("C:/Users/V/.ssh/vaie_art".to_string()),
            extra_ssh_args: None,
            ssh_program: None,
            rsync_program: None,
            tmp_dir: None,
            caddyfile_path: None,
            systemd_dir: None,
            managed_prefix: None,
            deno_bin: None,
        }),
    });
    let map = load(c);

    assert_eq!(map.remote.host.as_deref(), Some("vaie-prod"));
    assert_eq!(map.remote.user.as_deref(), Some("deploy"));
    assert_eq!(map.remote.identity_file.as_deref(), Some("C:/Users/V/.ssh/vaie_art"));
}

// ---------------------------------------------------------------------------
// Further cases
// ---------------------------------------------------------------------------

#[test]
fn unsupported_manifest_version_is_rejected() {
    let mut c = sample_config();
    c.manifest_version = 2;
    assert_eq!(load_error(c), "unsupported manifest_version `2`; expected 1");
}

#[test]
fn config_without_services_is_rejected() {
    let error = load_error(config(remote(), None, Vec::new()));
    assert_eq!(error, "config must contain at least one service");
}

#[test]
fn static_site_requires_route_path() {
    let mut s = service("pudle", ServiceKind::StaticSite, "src/submodules/pudle", "/web/pudle");
    s.route_path = None;
    let error = load_error(config(remote(), None, vec![s]));
    assert_eq!(error, "static_site `pudle` requires route_path");
}

#[test]
fn deno_app_requires_port_and_entrypoint() {
    let mut s = deno("app", "src/submodules/vaie.art", "/srv/app", 3000);
    s.port = None;
    assert_eq!(load_error(config(remote(), None, vec![s])), "deno_app `app` requires port");
    let mut s = deno("app", "src/submodules/vaie.art", "/srv/app", 3000);
    s.entrypoint = None;
    assert_eq!(load_error(config(remote(), None, vec![s])), "deno_app `app` requires entrypoint");
    let s = deno("app", "src/submodules/vaie.art", "/srv/app", 0);
    assert_eq!(load_error(config(remote(), None, vec![s])), "deno_app `app` port must be greater than 0");
}

#[test]
fn duplicate_service_names_are_rejected() {
    let error = load_error(config(
        remote(),
        None,
        vec![
            static_site("pudle", "src/submodules/pudle", "/web/one", "/one"),
            static_site("pudle", "src/submodules/pudle", "/web/two", "/two"),
        ],
    ));
    assert_eq!(error, "duplicate service name `pudle`");
}

#[test]
fn missing_local_path_is_rejected() {
    let c = sample_config();
    let mut paths = existing_paths(&c);
    paths.local_paths[1] = None;
    let error = c.validate("/work/site/services.toml", paths).expect_err("missing path");
    assert_eq!(error, "local_path `src/submodules/pudle` does not exist");
}

#[test]
fn routes_are_normalized() {
    assert_eq!(normalize_route_path("/pudle/").expect("route"), "/pudle");
    assert_eq!(normalize_route_path("/").expect("route"), "/");
    let once = normalize_route_path("/blog/").expect("route");
    assert_eq!(normalize_route_path(&once).expect("route"), once);
    assert!(normalize_route_path("pudle").is_err());
    assert!(normalize_route_path("/a//b").is_err());
    assert!(normalize_route_path("/a/../b").is_err());
    let map = load(config(
        remote(),
        None,
        vec![static_site("pudle", "src/submodules/pudle", "/web/pudle", "/pudle/")],
    ));
    assert_eq!(map.services[0].route_path, "/pudle");
}

#[test]
fn generated_unit_names_replace_dots() {
    assert_eq!(generated_service_name("vaieart-", "vaie.art"), "vaieart-vaie-art.service");
}

#[test]
fn local_config_keeps_what_it_does_not_set() {
    let mut c = sample_config();
    c.apply_local(LocalConfig { remote: None });
    assert_eq!(c.remote.host, None);
    c.apply_local(LocalConfig {
        remote: Some(LocalRemoteConfig {
            host: None,
            user: None,
            port: Some(2222),
            identity_file: None,
            extra_ssh_args: None,
            ssh_program: None,
            rsync_program: None,
            tmp_dir: None,
            caddyfile_path: None,
            systemd_dir: None,
            managed_prefix: None,
            deno_bin: None,
        }),
    });
    assert_eq!(c.remote.port, 2222);
    assert_eq!(c.remote.ssh_program, "ssh");
    assert_eq!(c.remote.host, None);
}

#[test]
fn local_paths_must_stay_near_the_config() {
    let c = config(remote(), None, vec![static_site("pudle", "/elsewhere/pudle", "/web/pudle", "/pudle")]);
    let mut paths = existing_paths(&c);
    paths.local_paths[0] = Some("/elsewhere/pudle".to_string());
    let error = c.validate("/work/site/services.toml", paths).expect_err("outside");
    assert_eq!(
        error,
        "service `pudle` local_path must be under `/work/site/src/submodules` or sibling repo root `/work`",
    );

    let c = config(remote(), None, vec![static_site("pudle", "../pudle", "/web/pudle", "/pudle")]);
    let mut paths = existing_paths(&c);
    paths.local_paths[0] = Some("/work/pudle".to_string());
    let map = c.validate("/work/site/services.toml", paths).expect("sibling checkout");
    assert_eq!(map.services[0].local_path, "/work/pudle");
    assert_eq!(map.root, "/work/site");
}

#[test]
fn pocketbase_source_must_be_under_the_root() {
    let c = config(
        remote(),
        Some(pocketbase()),
        vec![static_site("pudle", "src/submodules/pudle", "/web/pudle", "/pudle")],
    );
    let mut paths = existing_paths(&c);
    paths.pocketbase_source = Some("/elsewhere/pb".to_string());
    let error = c.validate("/work/site/services.toml", paths).expect_err("outside");
    assert_eq!(error, "pocketbase source_path must be under `/work/site`");
}

#[test]
fn sync_sources_stay_inside_the_checkout() {
    assert_eq!(validate_sync_source("pudle", "build").expect("relative"), "build");
    assert_eq!(validate_sync_source("pudle", "./dist/web").expect("relative"), "./dist/web");
    for bad in ["", "../build", "/build", "build/../../x"] {
        assert_eq!(
            validate_sync_source("pudle", bad).expect_err("escapes"),
            "service `pudle` sync_source must be a relative path without `..`",
        );
    }
}

#[test]
fn local_paths_are_looked_for_under_the_root() {
    assert_eq!(local_path_candidate("/work/site", "src/submodules/pudle"), "/work/site/src/submodules/pudle");
    assert_eq!(local_path_candidate("/work/site", "/elsewhere/pudle"), "/elsewhere/pudle");
}

#[test]
fn local_paths_may_be_the_roots_themselves() {
    for candidate in ["/work/site/src/submodules", "/work"] {
        let c = config(remote(), None, vec![static_site("pudle", "x", "/web/pudle", "/pudle")]);
        let mut paths = existing_paths(&c);
        paths.local_paths[0] = Some(candidate.to_string());
        let map = c.validate("/work/site/services.toml", paths).expect("a root is under itself");
        assert_eq!(map.services[0].local_path, candidate);
    }
}
