use std::cell::RefCell;

use vaieart_services::config::defaults::{
    default_caddyfile_path, default_deno_bin, default_managed_prefix, default_pocketbase_binary,
    default_pocketbase_port, default_pocketbase_read_timeout,
    default_pocketbase_request_body_max_size, default_rsync_program, default_ssh_port,
    default_ssh_program, default_systemd_dir, default_tmp_dir, default_warp_cli,
    default_warp_daemon_service,
};
use vaieart_services::config::{
    BuildConfig, CaddyConfig, Config, PocketBaseConfig, RemoteConfig, ResolvedPaths, ServiceConfig,
    ServiceKind, ServiceMap, WarpProxyConfig,
};
use vaieart_services::deploy::{
    build_deployment_command_list, build_deployment_command_list_for_output_dir,
    build_pocketbase_migrations_pull_command, deploy_build_steps, deploy_rendered, format_plan,
    migrations_destination, rendered_paths_for_output_dir, CommandProbe, DeployProbes,
    DeploymentCommandList,
};
use vaieart_services::env::EnvVars;
use vaieart_services::process::{CommandRunner, ProcessCommand, WorkingDirectory};

const ROOT: &str = "/work/site";

#[derive(Default)]
struct RecordingRunner {
    commands: RefCell<Vec<String>>,
}

impl CommandRunner for RecordingRunner {
    fn run(&self, command: &ProcessCommand) -> Result<(), String> {
        self.commands.borrow_mut().push(command.display());
        Ok(())
    }
}

fn remote(host: Option<&str>) -> RemoteConfig {
    RemoteConfig {
        host: host.map(str::to_string),
        user: host.map(|_| "root".to_string()),
        port: default_ssh_port(),
        identity_file: None,
        extra_ssh_args: Vec::new(),
        ssh_program: default_ssh_program(),
        rsync_program: default_rsync_program(),
        tmp_dir: default_tmp_dir(),
        caddyfile_path: default_caddyfile_path(),
        systemd_dir: default_systemd_dir(),
        managed_prefix: default_managed_prefix(),
        deno_bin: default_deno_bin(),
    }
}

fn words(parts: &[&str]) -> Vec<String> {
    parts.iter().map(|p| p.to_string()).collect()
}

fn pudle(commands: Option<Vec<Vec<String>>>) -> ServiceConfig {
    ServiceConfig {
        name: "pudle".to_string(),
        kind: ServiceKind::StaticSite,
        local_path: "src/submodules/pudle".to_string(),
        remote_path: "/web/pudle".to_string(),
        sync_source: "build".to_string(),
        host: None,
        route_path: Some("/pudle".to_string()),
        port: None,
        entrypoint: None,
        service_name: None,
        environment: EnvVars::new(),
        build: commands.map(|commands| BuildConfig {
            command: None,
            commands,
            environment: EnvVars::new(),
        }),
    }
}

fn site_pocketbase() -> PocketBaseConfig {
    PocketBaseConfig {
        name: "site-pocketbase".to_string(),
        host: "pb.vaie.art".to_string(),
        source_path: "src/pocketbase".to_string(),
        remote_path: "/srv/vaieart-pocketbase".to_string(),
        data_dir: "/var/lib/vaieart-pocketbase/pb_data".to_string(),
        backup_dir: Some("/var/backups/vaieart-pocketbase".to_string()),
        port: default_pocketbase_port(),
        binary: default_pocketbase_binary(),
        service_name: None,
        environment_file: None,
        request_body_max_size: default_pocketbase_request_body_max_size(),
        read_timeout: default_pocketbase_read_timeout(),
        encryption_env: None,
        warp_proxy: None,
    }
}

fn fixture_map(remote: RemoteConfig, pocketbase: Option<PocketBaseConfig>, service: ServiceConfig) -> ServiceMap {
    let config = Config {
        manifest_version: 1,
        remote,
        caddy: CaddyConfig { primary_host: "vaie.art".to_string(), www_redirect_host: None },
        pocketbase,
        services: vec![service],
    };
    let paths = ResolvedPaths {
        root: Some(ROOT.to_string()),
        local_paths: config.services.iter().map(|s| Some(format!("{ROOT}/{}", s.local_path))).collect(),
        pocketbase_source: config.pocketbase.as_ref().map(|p| format!("{ROOT}/{}", p.source_path)),
    };
    config.validate("/work/site/services.toml", paths).expect("validate config")
}

fn default_map() -> ServiceMap {
    fixture_map(remote(Some("vaie.art")), None, pudle(Some(vec![words(&["deno", "task", "build"])])))
}

fn plan_of(map: &ServiceMap) -> DeploymentCommandList {
    build_deployment_command_list_for_output_dir(map, "/work/site/rendered").expect("deployment plan")
}

fn displays(plan: &DeploymentCommandList) -> Vec<String> {
    plan.commands.iter().map(ProcessCommand::display).collect()
}

#[test]
fn remote_install_restarts_deno_services_after_sync() {
    let map = default_map();
    let plan = plan_of(&map);
    let install_script = plan.commands.last().expect("install command").args.last().expect("install script");

    assert!(install_script.contains("# Artifact syncs can change server code without changing the systemd unit."));
    assert!(install_script.contains("if ! systemctl restart \"$unit\"; then"));
    assert!(install_script.contains("report_systemctl_failure \"$unit\""));
    assert!(install_script.contains("journalctl -u \"$failed_unit\" --no-pager --lines=120"));
    assert!(!install_script.contains("changed_units"));
}

#[test]
fn recording_executor_records_commands_without_contacting_remote() {
    let map = default_map();
    let plan = plan_of(&map);
    let runner = RecordingRunner::default();

    for command in &plan.commands {
        runner.run(command).expect("record command");
    }

    assert_eq!(runner.commands.borrow().len(), plan.commands.len());
    assert!(plan.commands.iter().any(|command| command.program == "rsync"));
}

#[test]
fn deploy_preflights_build_programs_before_remote_commands() {
    let map = fixture_map(
        remote(Some("vaie.art")),
        None,
        pudle(Some(vec![words(&["__vaieart_missing_build_tool__", "task", "build"])])),
    );
    let steps = deploy_build_steps(&map);
    let probes = DeployProbes {
        build: steps
            .iter()
            .map(|_| CommandProbe { working_directory: WorkingDirectory::IsDirectory, found: false })
            .collect(),
        ssh_found: true,
        rsync_found: true,
    };
    let rendered = rendered_paths_for_output_dir("/work/site/rendered");
    let runner = RecordingRunner::default();
    let error_chain = deploy_rendered(&map, &rendered, &probes, &runner)
        .expect_err("deploy should reject missing build program");

    assert!(error_chain.contains("service `pudle` build program"));
    assert!(error_chain.contains("was not found on PATH"));
    assert!(runner.commands.borrow().is_empty());
}

#[test]
fn deploy_plan_builds_before_service_rsync() {
    let plan = plan_of(&default_map());
    let displays = displays(&plan);

    let build_index = displays.iter().position(|c| c.contains("deno task build")).expect("build command");
    let rsync_index = displays
        .iter()
        .position(|c| c.contains("rsync") && c.contains("/build/"))
        .expect("rsync command");

    assert!(build_index < rsync_index);
}

#[test]
fn deploy_plan_runs_ordered_build_commands_before_service_rsync() {
    let map = fixture_map(
        remote(Some("vaie.art")),
        None,
        pudle(Some(vec![words(&["deno", "task", "convert-media"]), words(&["deno", "task", "build"])])),
    );
    let displays = displays(&plan_of(&map));

    let convert_index = displays
        .iter()
        .position(|c| c.contains("deno task convert-media"))
        .expect("convert-media command");
    let build_index = displays.iter().position(|c| c.contains("deno task build")).expect("build command");
    let rsync_index = displays
        .iter()
        .position(|c| c.contains("rsync") && c.contains("/build/"))
        .expect("rsync command");

    assert!(convert_index < build_index);
    assert!(build_index < rsync_index);
}

#[test]
fn deploy_plan_validates_caddy_before_remote_install_script() {
    let displays = displays(&plan_of(&default_map()));

    let validate_index = displays.iter().position(|c| c.contains("caddy validate")).expect("caddy validate command");
    let install_index = displays
        .iter()
        .position(|c| c.contains("systemctl daemon-reload"))
        .expect("remote install script");

    assert!(validate_index < install_index);
}

#[test]
fn deploy_plan_validates_systemd_after_sync_and_before_install() {
    let plan = plan_of(&default_map());
    let displays = displays(&plan);

    let systemd_rsync_index = plan
        .commands
        .iter()
        .position(|c| c.program == "rsync" && c.args.last().is_some_and(|arg| arg.ends_with("/systemd")))
        .expect("systemd rsync command");
    let verify_index = displays.iter().position(|c| c.contains("systemd-analyze verify")).expect("systemd verify command");
    let install_index = displays
        .iter()
        .position(|c| c.contains("systemctl daemon-reload"))
        .expect("remote install script");

    assert!(systemd_rsync_index < verify_index);
    assert!(verify_index < install_index);
}

#[test]
fn deployment_plan_requires_remote_host() {
    let map = fixture_map(remote(None), None, pudle(None));
    let error = build_deployment_command_list_for_output_dir(&map, "/work/site/rendered")
        .expect_err("deployment plan should require remote host");

    assert!(error.contains("remote.host is required"));
}

#[test]
fn deployment_plan_brackets_ipv6_hosts_for_rsync_only() {
    let map = fixture_map(remote(Some("2a01:4ff:f0:8c51::1")), None, pudle(None));
    let plan = plan_of(&map);
    let ssh_command = plan.commands.iter().find(|c| c.program == "ssh").expect("ssh command");
    let rsync_destinations = plan
        .commands
        .iter()
        .filter(|c| c.program == "rsync")
        .map(|c| c.args.last().expect("rsync destination"))
        .collect::<Vec<_>>();

    assert!(ssh_command.args.iter().any(|arg| arg == "root@2a01:4ff:f0:8c51::1"));
    assert!(rsync_destinations.iter().all(|d| d.starts_with("root@[2a01:4ff:f0:8c51::1]:")));
}

#[test]
fn deployment_plan_preflights_pocketbase_runtime_inputs() {
    let mut pb = site_pocketbase();
    pb.port = 8090;
    pb.binary = "/opt/pocketbase/pocketbase".to_string();
    pb.environment_file = Some("/etc/vaieart/pocketbase.env".to_string());
    pb.encryption_env = Some("PB_ENCRYPTION_KEY".to_string());
    pb.warp_proxy = Some(WarpProxyConfig {
        port: 40000,
        cli: default_warp_cli(),
        daemon_service: default_warp_daemon_service(),
    });
    let map = fixture_map(remote(Some("vaie.art")), Some(pb), pudle(None));
    let plan = plan_of(&map);
    let prepare_script = plan.commands.first().expect("prepare command").args.last().expect("prepare script");
    let install_script = plan.commands.last().expect("install command").args.last().expect("install script");

    assert!(prepare_script.contains("if [ ! -x /opt/pocketbase/pocketbase ]; then"));
    assert!(install_script.contains("if [ ! -x /opt/pocketbase/pocketbase ]; then"));
    assert!(install_script.contains("missing PocketBase binary: /opt/pocketbase/pocketbase"));
    assert!(install_script.contains("if [ ! -f /etc/vaieart/pocketbase.env ]; then"));
    assert!(install_script.contains("missing PocketBase environment file: /etc/vaieart/pocketbase.env"));
    assert!(install_script.contains("grep -Eq '^[[:space:]]*PB_ENCRYPTION_KEY[[:space:]]*=' /etc/vaieart/pocketbase.env"));
    assert!(install_script
        .contains("PocketBase environment file does not define PB_ENCRYPTION_KEY: /etc/vaieart/pocketbase.env"));
    assert!(prepare_script.contains("if [ ! -x /usr/bin/warp-cli ]; then"));
    assert!(install_script.contains("missing WARP CLI: /usr/bin/warp-cli"));
    assert!(install_script.contains("if ! systemctl cat warp-svc.service >/dev/null 2>&1; then"));
    assert!(install_script.contains("if ! systemctl start warp-svc.service; then"));
    assert!(install_script.contains("if ! /usr/bin/warp-cli registration show >/dev/null 2>&1; then"));
    assert!(install_script.contains("WARP consumer registration is missing"));
    assert!(install_script.contains("if [ ! -x /usr/bin/curl ]; then"));
    assert!(install_script
        .contains("PocketBase environment file must not define proxy variables when warp_proxy is enabled"));
    let warp_install_index = install_script
        .find("unit=vaieart-site-pocketbase-warp-proxy.service")
        .expect("WARP proxy unit install");
    let pocketbase_install_index = install_script
        .find("unit=vaieart-site-pocketbase.service")
        .expect("PocketBase unit install");

    assert!(warp_install_index < pocketbase_install_index);
}

#[test]
fn deployment_plan_syncs_pocketbase_without_data_dir() {
    let mut pb = site_pocketbase();
    pb.port = 8090;
    let map = fixture_map(remote(Some("vaie.art")), Some(pb), pudle(None));
    let plan = plan_of(&map);
    let displays = displays(&plan);
    let pocketbase_rsync = displays
        .iter()
        .find(|c| c.contains("rsync") && c.contains("--exclude pb_data/") && c.contains("site-pocketbase"))
        .expect("pocketbase rsync command");
    let install_script = plan.commands.last().expect("install command").args.last().expect("install script");

    assert!(pocketbase_rsync.contains("src/pocketbase/"));
    assert!(install_script.contains(
        "mkdir -p /srv/vaieart-pocketbase /var/lib/vaieart-pocketbase/pb_data /var/backups/vaieart-pocketbase",
    ));
    assert!(install_script
        .contains("rsync -a --delete --exclude pb_data/ \"$sync_dir/site-pocketbase/\" /srv/vaieart-pocketbase/"));
    assert!(install_script.contains("vaieart-site-pocketbase.service"));
}

#[test]
fn migration_pull_command_is_add_only_and_handles_ipv6_ssh_options() {
    let mut r = remote(Some("2001:db8::1"));
    r.port = 2222;
    r.identity_file = Some("C:/Users/V/SSH Keys/vaie_art".to_string());
    r.extra_ssh_args = words(&["-o", "BatchMode=yes"]);
    let mut pb = site_pocketbase();
    pb.backup_dir = None;
    let map = fixture_map(r, Some(pb), pudle(None));
    let command = build_pocketbase_migrations_pull_command(&map).expect("migration pull command");

    assert_eq!(command.program, "rsync");
    assert_eq!(
        &command.args[..9],
        &[
            "-rtz",
            "--ignore-existing",
            "--itemize-changes",
            "--include",
            "*.js",
            "--exclude",
            "*",
            "-e",
            "ssh -p 2222 -i 'C:/Users/V/SSH Keys/vaie_art' -o 'BatchMode=yes'",
        ],
    );
    assert_eq!(command.args[9], "root@[2001:db8::1]:/srv/vaieart-pocketbase/pb_migrations/");
    assert!(command.args[10].ends_with("/src/pocketbase/pb_migrations/"));
    assert!(!command.args.iter().any(|arg| arg == "--delete"));
    assert!(!command.args.iter().any(|arg| arg == "-a"));
}

// ---------------------------------------------------------------------------
// Further cases
// ---------------------------------------------------------------------------

#[test]
fn migration_pull_requires_pocketbase() {
    let map = default_map();
    let error = build_pocketbase_migrations_pull_command(&map).expect_err("no pocketbase");
    assert_eq!(error, "pocketbase is not configured; there are no migrations to pull");
    assert_eq!(migrations_destination(&map), None);
}

#[test]
fn migrations_land_in_the_source_checkout() {
    let map = fixture_map(remote(Some("vaie.art")), Some(site_pocketbase()), pudle(None));
    assert_eq!(migrations_destination(&map).as_deref(), Some("/work/site/src/pocketbase/pb_migrations"));
}

#[test]
fn plan_lists_numbered_commands() {
    let plan = plan_of(&default_map());
    let text = format_plan(&plan);
    assert!(text.starts_with("1. ssh -p 22 'root@vaie.art' "));
    assert!(text.contains("\n2. cd /work/site/src/submodules/pudle && deno task build\n"));
    assert!(text.contains(&format!("\n{}. ssh -p 22 'root@vaie.art' ", plan.commands.len())));
    assert!(text.ends_with('\n'));
}

#[test]
fn rendered_artifacts_live_under_the_output_dir() {
    let paths = rendered_paths_for_output_dir("/work/site/rendered");
    assert_eq!(paths.caddyfile, "/work/site/rendered/Caddyfile");
    assert_eq!(paths.systemd_dir, "/work/site/rendered/systemd");
    let plan = build_deployment_command_list(&default_map(), &paths).expect("plan");
    assert!(plan.commands.iter().any(|c| c.args.iter().any(|a| a == "/work/site/rendered/Caddyfile")));
}

#[test]
fn deploy_checks_ssh_and_rsync_after_builds() {
    let map = default_map();
    let rendered = rendered_paths_for_output_dir("/work/site/rendered");
    let runner = RecordingRunner::default();
    let probes = DeployProbes {
        build: vec![CommandProbe { working_directory: WorkingDirectory::IsDirectory, found: true }],
        ssh_found: false,
        rsync_found: true,
    };
    let error = deploy_rendered(&map, &rendered, &probes, &runner).expect_err("ssh missing");
    assert_eq!(error, "program `ssh` was not found on PATH");
    assert!(runner.commands.borrow().is_empty());

    let probes = DeployProbes {
        build: vec![CommandProbe { working_directory: WorkingDirectory::Missing, found: true }],
        ssh_found: true,
        rsync_found: true,
    };
    let error = deploy_rendered(&map, &rendered, &probes, &runner).expect_err("cwd missing");
    assert!(error.starts_with("service `pudle` build program `deno` is unavailable: working directory `/work/site/src/submodules/pudle` does not exist"));

    let probes = DeployProbes {
        build: vec![CommandProbe { working_directory: WorkingDirectory::IsDirectory, found: true }],
        ssh_found: true,
        rsync_found: true,
    };
    deploy_rendered(&map, &rendered, &probes, &runner).expect("deploy");
    assert_eq!(runner.commands.borrow().len(), plan_of(&map).commands.len());
}
