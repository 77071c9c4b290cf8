use vaieart_services::config::defaults::{
    default_caddyfile_path, default_deno_bin, default_managed_prefix, default_pocketbase_binary,
    default_pocketbase_read_timeout, default_pocketbase_request_body_max_size, default_rsync_program,
    default_ssh_program, default_systemd_dir, default_tmp_dir, default_warp_cli, default_warp_daemon_service,
};
use vaieart_services::config::{
    CaddyConfig, Config, PocketBaseConfig, RemoteConfig, ResolvedPaths, ServiceConfig, ServiceKind, ServiceMap,
    WarpProxyConfig,
};
use vaieart_services::env::EnvVars;
use vaieart_services::render::systemd::{
    entrypoint_argument, systemd_environment_value, warp_proxy_url,
};
use vaieart_services::deploy::rendered_paths_for_output_dir;
use vaieart_services::render::{artifact_files, render_artifacts, render_caddyfile};

const ROOT: &str = "/work/site";

fn site_remote() -> RemoteConfig {
    RemoteConfig {
        host: Some("vaie.art".to_string()),
        user: Some("root".to_string()),
        port: 22,
        identity_file: None,
        extra_ssh_args: Vec::new(),
        ssh_program: default_ssh_program(),
        rsync_program: default_rsync_program(),
        tmp_dir: default_tmp_dir(),
        caddyfile_path: default_caddyfile_path(),
        systemd_dir: default_systemd_dir(),
        managed_prefix: default_managed_prefix(),
        deno_bin: default_deno_bin(),
    }
}

fn site_services() -> Vec<ServiceConfig> {
    let mut environment = EnvVars::new();
    environment.insert("API".to_string(), "a\"b\\c".to_string());
    vec![
        ServiceConfig {
            name: "vaie.art".to_string(),
            kind: ServiceKind::DenoApp,
            local_path: "src/submodules/vaie.art".to_string(),
            remote_path: "/srv/vaie.art".to_string(),
            sync_source: ".".to_string(),
            host: None,
            route_path: None,
            port: Some(3000),
            entrypoint: Some("index.js".to_string()),
            service_name: None,
            environment,
            build: None,
        },
        ServiceConfig {
            name: "pudle".to_string(),
            kind: ServiceKind::StaticSite,
            local_path: "src/submodules/pudle".to_string(),
            remote_path: "/web/pudle".to_string(),
            sync_source: "build".to_string(),
            host: None,
            route_path: Some("/pudle".to_string()),
            port: None,
            entrypoint: None,
            service_name: None,
            environment: EnvVars::new(),
            build: None,
        },
    ]
}

fn site_pocketbase() -> PocketBaseConfig {
    PocketBaseConfig {
        name: "site-pocketbase".to_string(),
        host: "pb.vaie.art".to_string(),
        source_path: "src/pocketbase".to_string(),
        remote_path: "/srv/vaieart-pocketbase".to_string(),
        data_dir: "/var/lib/vaieart-pocketbase/pb_data".to_string(),
        backup_dir: None,
        port: 8090,
        binary: default_pocketbase_binary(),
        service_name: None,
        environment_file: Some("/etc/vaieart/pocketbase.env".to_string()),
        request_body_max_size: default_pocketbase_request_body_max_size(),
        read_timeout: default_pocketbase_read_timeout(),
        encryption_env: Some("PB_ENCRYPTION_KEY".to_string()),
        warp_proxy: Some(WarpProxyConfig {
            port: 40000,
            cli: default_warp_cli(),
            daemon_service: default_warp_daemon_service(),
        }),
    }
}

fn site_map(pocketbase: Option<PocketBaseConfig>) -> ServiceMap {
    let config = Config {
        manifest_version: 1,
        remote: site_remote(),
        caddy: CaddyConfig { primary_host: "vaie.art".to_string(), www_redirect_host: Some("www.vaie.art".to_string()) },
        pocketbase,
        services: site_services(),
    };
    let paths = ResolvedPaths {
        root: Some(ROOT.to_string()),
        local_paths: config.services.iter().map(|s| Some(format!("{ROOT}/{}", s.local_path))).collect(),
        pocketbase_source: config.pocketbase.as_ref().map(|p| format!("{ROOT}/{}", p.source_path)),
    };
    config.validate("/work/site/services.toml", paths).expect("validate config")
}

#[test]
fn units_are_sorted_by_name() {
    let artifacts = render_artifacts(&site_map(Some(site_pocketbase())));
    let names: Vec<&str> = artifacts.systemd_units.iter().map(|u| u.name.as_str()).collect();
    assert_eq!(
        names,
        vec![
            "vaieart-site-pocketbase-warp-proxy.service",
            "vaieart-site-pocketbase.service",
            "vaieart-vaie-art.service",
        ],
    );
}

#[test]
fn deno_unit_fills_host_and_port_and_escapes_values() {
    let artifacts = render_artifacts(&site_map(None));
    assert_eq!(artifacts.systemd_units.len(), 1);
    let unit = &artifacts.systemd_units[0];
    assert_eq!(unit.name, "vaieart-vaie-art.service");
    assert_eq!(
        unit.content,
        "[Unit]\nDescription=vaie.art managed Deno service - vaie.art\nAfter=network-online.target\nWants=network-online.target\n\n[Service]\nType=simple\nUser=root\nGroup=root\nWorkingDirectory=/srv/vaie.art\nEnvironment=\"API=a\\\"b\\\\c\"\nEnvironment=\"HOST=127.0.0.1\"\nEnvironment=\"PORT=3000\"\nExecStart=/root/.deno/bin/deno run -A ./index.js\nRestart=on-failure\nRestartSec=3\n\n[Install]\nWantedBy=multi-user.target\n",
    );
}

#[test]
fn pocketbase_unit_goes_through_warp() {
    let artifacts = render_artifacts(&site_map(Some(site_pocketbase())));
    let unit = artifacts.systemd_units.iter().find(|u| u.name == "vaieart-site-pocketbase.service").expect("pb unit");
    assert_eq!(
        unit.content,
        "[Unit]\nDescription=vaie.art managed PocketBase service - site-pocketbase\nAfter=network-online.target vaieart-site-pocketbase-warp-proxy.service\nWants=network-online.target\nRequires=vaieart-site-pocketbase-warp-proxy.service\n\n[Service]\nType=simple\nUser=root\nGroup=root\nWorkingDirectory=/srv/vaieart-pocketbase\nLimitNOFILE=4096\nEnvironmentFile=/etc/vaieart/pocketbase.env\nEnvironment=\"HTTPS_PROXY=http://127.0.0.1:40000\"\nEnvironment=\"NO_PROXY=127.0.0.1,localhost,::1\"\nExecStart=/usr/local/bin/pocketbase serve --http=127.0.0.1:8090 --dir=/var/lib/vaieart-pocketbase/pb_data --migrationsDir=/srv/vaieart-pocketbase/pb_migrations --encryptionEnv=PB_ENCRYPTION_KEY\nRestart=on-failure\nRestartSec=3\n\n[Install]\nWantedBy=multi-user.target\n",
    );
}

#[test]
fn warp_unit_probes_discord_before_pocketbase() {
    let artifacts = render_artifacts(&site_map(Some(site_pocketbase())));
    let unit = &artifacts.systemd_units[0];
    assert_eq!(unit.name, "vaieart-site-pocketbase-warp-proxy.service");
    assert_eq!(
        unit.content,
        "[Unit]\nDescription=vaie.art managed WARP proxy for PocketBase - site-pocketbase\nAfter=network-online.target warp-svc.service\nWants=network-online.target\nRequires=warp-svc.service\nBefore=vaieart-site-pocketbase.service\n\n[Service]\nType=oneshot\nRemainAfterExit=yes\nExecStart=/usr/bin/warp-cli tunnel protocol set MASQUE\nExecStart=/usr/bin/warp-cli mode proxy\nExecStart=/usr/bin/warp-cli proxy port 40000\nExecStart=/usr/bin/warp-cli connect\nExecStart=/usr/bin/curl --fail --silent --show-error --retry 10 --retry-all-errors --retry-delay 1 --retry-max-time 60 --connect-timeout 3 --max-time 8 --proxy http://127.0.0.1:40000 https://discord.com/api/v10/gateway\nTimeoutStartSec=120\n\n[Install]\nWantedBy=multi-user.target\n",
    );
}

#[test]
fn caddyfile_has_one_block_per_host() {
    let caddyfile = render_caddyfile(&site_map(Some(site_pocketbase())));
    assert_eq!(
        caddyfile,
        "www.vaie.art {\n\tredir https://vaie.art{uri} permanent\n}\n\npb.vaie.art {\n\tencode zstd gzip\n\thandle {\n\t\trequest_body {\n\t\t\tmax_size 25MB\n\t\t}\n\t\treverse_proxy 127.0.0.1:8090 {\n\t\t\ttransport http {\n\t\t\t\tread_timeout 360s\n\t\t\t}\n\t\t}\n\t}\n}\n\nvaie.art {\n\tencode zstd gzip\n\t@pudle path /pudle /pudle/*\n\thandle @pudle {\n\t\turi strip_prefix /pudle\n\t\troot * /web/pudle\n\t\tfile_server\n\t}\n\thandle {\n\t\treverse_proxy 127.0.0.1:3000\n\t}\n}\n",
    );
    assert_eq!(render_artifacts(&site_map(Some(site_pocketbase()))).caddyfile, caddyfile);
}

#[test]
fn small_pieces_render_exactly() {
    assert_eq!(entrypoint_argument("main.ts"), "./main.ts");
    assert_eq!(entrypoint_argument("./main.ts"), "./main.ts");
    assert_eq!(entrypoint_argument("/srv/app/main.ts"), "/srv/app/main.ts");
    assert_eq!(systemd_environment_value("K", "plain"), "\"K=plain\"");
    assert_eq!(systemd_environment_value("K", "a\\\"b"), "\"K=a\\\\\\\"b\"");
    assert_eq!(warp_proxy_url(40000), "http://127.0.0.1:40000");
}

#[test]
fn artifact_files_place_units_under_the_systemd_dir() {
    let map = site_map(Some(site_pocketbase()));
    let artifacts = render_artifacts(&map);
    let caddyfile = artifacts.caddyfile.clone();
    let files = artifact_files(artifacts, &rendered_paths_for_output_dir("out"));
    let paths: Vec<&str> = files.iter().map(|(p, _)| p.as_str()).collect();
    assert_eq!(
        paths,
        vec![
            "out/Caddyfile",
            "out/systemd/vaieart-site-pocketbase-warp-proxy.service",
            "out/systemd/vaieart-site-pocketbase.service",
            "out/systemd/vaieart-vaie-art.service",
        ],
    );
    assert_eq!(files[0].1, caddyfile);
    assert!(files[3].1.starts_with("[Unit]\nDescription=vaie.art managed Deno service - vaie.art\n"));
}
