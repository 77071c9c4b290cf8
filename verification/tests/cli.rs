use vaieart_services::cli::{check_summary, render_summary};
use vaieart_services::config::defaults::{
    default_caddyfile_path, default_deno_bin, default_managed_prefix, default_rsync_program, default_ssh_program,
    default_systemd_dir, default_tmp_dir,
};
use vaieart_services::config::{
    BuildConfig, CaddyConfig, Config, RemoteConfig, ResolvedPaths, ServiceConfig, ServiceKind, ServiceMap,
};
use vaieart_services::deploy::{build_deployment_command_list_for_output_dir, format_plan, rendered_paths_for_output_dir};
use vaieart_services::env::EnvVars;

fn cli_sample_map() -> ServiceMap {
    let config = Config {
        manifest_version: 1,
        remote: RemoteConfig {
            host: Some("vaie.art".to_string()),
            user: Some("root".to_string()),
            port: 22,
            identity_file: None,
            extra_ssh_args: Vec::new(),
            ssh_program: default_ssh_program(),
            rsync_program: default_rsync_program(),
            tmp_dir: default_tmp_dir(),
            caddyfile_path: default_caddyfile_path(),
            systemd_dir: default_systemd_dir(),
            managed_prefix: default_managed_prefix(),
            deno_bin: default_deno_bin(),
        },
        caddy: CaddyConfig { primary_host: "vaie.art".to_string(), www_redirect_host: Some("www.vaie.art".to_string()) },
        pocketbase: None,
        services: vec![
            ServiceConfig {
                name: "vaie.art".to_string(),
                kind: ServiceKind::DenoApp,
                local_path: "src/submodules/vaie.art".to_string(),
                remote_path: "/srv/vaie.art".to_string(),
                sync_source: ".".to_string(),
                host: None,
                route_path: None,
                port: Some(3000),
                entrypoint: Some("index.js".to_string()),
                service_name: None,
                environment: EnvVars::new(),
                build: None,
            },
            ServiceConfig {
                name: "pudle".to_string(),
                kind: ServiceKind::StaticSite,
                local_path: "src/submodules/pudle".to_string(),
                remote_path: "/web/pudle".to_string(),
                sync_source: "build".to_string(),
                host: None,
                route_path: Some("/pudle".to_string()),
                port: None,
                entrypoint: None,
                service_name: None,
                environment: EnvVars::new(),
                build: Some(BuildConfig {
                    command: Some(vec!["deno".to_string(), "task".to_string(), "build".to_string()]),
                    commands: Vec::new(),
                    environment: EnvVars::new(),
                }),
            },
        ],
    };
    let paths = ResolvedPaths {
        root: Some("/tmp/cli".to_string()),
        local_paths: config.services.iter().map(|s| Some(format!("/tmp/cli/{}", s.local_path))).collect(),
        pocketbase_source: None,
    };
    config.validate("/tmp/cli/services.toml", paths).expect("validate config")
}

#[test]
fn check_command_validates_and_renders_templates() {
    let output = check_summary(&cli_sample_map());

    assert_eq!(output, "Config OK: 2 services, 1 systemd units\n");
}

#[test]
fn plan_command_prints_build_rsync_and_remote_validation() {
    let map = cli_sample_map();
    let plan = build_deployment_command_list_for_output_dir(&map, "target/vaieart-services").expect("plan");
    let output = format_plan(&plan);

    assert!(output.contains("deno task build"));
    assert!(output.contains("rsync"));
    assert!(output.contains("caddy validate"));
}

#[test]
fn render_report_names_both_destinations() {
    let paths = rendered_paths_for_output_dir("target/vaieart-services");
    assert_eq!(
        render_summary(&paths),
        "Rendered Caddyfile to target/vaieart-services/Caddyfile\nRendered systemd units to target/vaieart-services/systemd\n",
    );
}
