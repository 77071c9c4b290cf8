use std::cell::RefCell;
use std::collections::VecDeque;

use vaieart_services::config::defaults::{
    default_caddyfile_path, default_deno_bin, default_managed_prefix, default_rsync_program,
    default_ssh_program, default_systemd_dir, default_tmp_dir,
};
use vaieart_services::config::{
    CaddyConfig, RemoteConfig, ResolvedPocketBase, ResolvedService, ResolvedServiceKind, ServiceMap,
};
use vaieart_services::git::{
    ensure_git_available, fetch_command, git_command, repo_paths, repo_root_from_output,
    reset_origin_head_command, unique_repo_roots, unique_roots_for_paths, update_repository,
};
use vaieart_services::process::{CommandRunner, ProcessCommand};

struct RecordingRunner {
    commands: RefCell<Vec<String>>,
    outputs: RefCell<VecDeque<String>>,
    outputs_requested: RefCell<usize>,
}

impl RecordingRunner {
    fn new() -> Self {
        Self::with_outputs(&[])
    }

    fn with_outputs(outputs: &[&str]) -> Self {
        Self {
            commands: RefCell::new(Vec::new()),
            outputs: RefCell::new(outputs.iter().map(|o| o.to_string()).collect()),
            outputs_requested: RefCell::new(0),
        }
    }

    fn displays(&self) -> Vec<String> {
        self.commands.borrow().clone()
    }

    fn outputs_requested(&self) -> usize {
        *self.outputs_requested.borrow()
    }
}

impl CommandRunner for RecordingRunner {
    fn run(&self, command: &ProcessCommand) -> Result<(), String> {
        self.commands.borrow_mut().push(command.display());
        Ok(())
    }

    fn output(&self, command: &ProcessCommand) -> Result<String, String> {
        self.commands.borrow_mut().push(command.display());
        *self.outputs_requested.borrow_mut() += 1;
        self.outputs.borrow_mut().pop_front().ok_or_else(|| "missing command output".to_string())
    }
}

/// A runner that only runs commands, like one without captured output.
struct RunOnly;

impl CommandRunner for RunOnly {
    fn run(&self, _command: &ProcessCommand) -> Result<(), String> {
        Ok(())
    }
}

fn paths(items: &[&str]) -> Vec<String> {
    items.iter().map(|p| p.to_string()).collect()
}

fn service_map(service_paths: &[&str], pocketbase_path: Option<&str>) -> ServiceMap {
    ServiceMap {
        root: ".".to_string(),
        remote: RemoteConfig {
            host: None,
            user: None,
            port: 22,
            identity_file: None,
            extra_ssh_args: Vec::new(),
            ssh_program: default_ssh_program(),
            rsync_program: default_rsync_program(),
            tmp_dir: default_tmp_dir(),
            caddyfile_path: default_caddyfile_path(),
            systemd_dir: default_systemd_dir(),
            managed_prefix: default_managed_prefix(),
            deno_bin: default_deno_bin(),
        },
        caddy: CaddyConfig { primary_host: "vaie.art".to_string(), www_redirect_host: None },
        pocketbase: pocketbase_path.map(|path| ResolvedPocketBase {
            name: "pb".to_string(),
            host: "pb.vaie.art".to_string(),
            source_path: path.to_string(),
            remote_path: "/srv/vaieart-pocketbase".to_string(),
            data_dir: "/var/lib/vaieart-pocketbase/pb_data".to_string(),
            backup_dir: None,
            port: 8090,
            binary: "/opt/pocketbase/pocketbase".to_string(),
            service_name: "vaieart-pb.service".to_string(),
            environment_file: None,
            request_body_max_size: "25MB".to_string(),
            read_timeout: "360s".to_string(),
            encryption_env: None,
            warp_proxy: None,
        }),
        services: service_paths
            .iter()
            .map(|path| ResolvedService {
                name: "service".to_string(),
                kind: ResolvedServiceKind::StaticSite,
                local_path: path.to_string(),
                remote_path: "/srv/service".to_string(),
                sync_source: ".".to_string(),
                host: "vaie.art".to_string(),
                route_path: "/".to_string(),
                build: None,
            })
            .collect(),
    }
}

#[test]
fn repository_resets_to_origin_head() {
    let runner = RecordingRunner::new();

    update_repository("repo", &runner).expect("update repo");

    assert_eq!(
        runner.displays(),
        vec!["git -C repo fetch --all --prune", "git -C repo reset --hard origin/HEAD"],
    );
}

#[test]
fn reset_origin_head_command_matches_manual_update() {
    assert_eq!(reset_origin_head_command("repo").display(), "git -C repo reset --hard origin/HEAD");
}

#[test]
fn service_paths_resolve_to_unique_repo_roots() {
    let runner = RecordingRunner::with_outputs(&["repo\n", "repo\n", "other\n"]);

    let roots = unique_roots_for_paths(&paths(&["repo/web", "repo", "other/app"]), &runner).expect("repo roots");

    assert_eq!(roots, vec!["repo".to_string(), "other".to_string()]);
    assert_eq!(
        runner.displays(),
        vec![
            "git -C repo/web rev-parse --show-toplevel",
            "git -C repo rev-parse --show-toplevel",
            "git -C other/app rev-parse --show-toplevel",
        ],
    );
}

#[test]
fn update_repository_does_not_need_captured_output() {
    let runner = RecordingRunner::new();

    update_repository("repo", &runner).expect("update repo");
    assert_eq!(runner.outputs_requested(), 0);
}

#[test]
fn pocketbase_source_path_resolves_to_repo_root() {
    let map = service_map(&["service/web"], Some("pb.vaie.art"));
    let runner = RecordingRunner::with_outputs(&["service\n", "pb.vaie.art\n"]);

    let roots = unique_repo_roots(&map, &runner).expect("repo roots");

    assert_eq!(roots, vec!["service".to_string(), "pb.vaie.art".to_string()]);
    assert_eq!(
        runner.displays(),
        vec!["git -C service/web rev-parse --show-toplevel", "git -C pb.vaie.art rev-parse --show-toplevel"],
    );
}

// ---------------------------------------------------------------------------
// Further cases
// ---------------------------------------------------------------------------

#[test]
fn repo_roots_are_trimmed_and_must_not_be_empty() {
    assert_eq!(repo_root_from_output("repo", "  /home/v/repo \r\n").expect("root"), "/home/v/repo");
    assert_eq!(
        repo_root_from_output("repo", " \n\t").expect_err("empty root"),
        "git repository root was empty for `repo`",
    );
}

#[test]
fn a_failing_lookup_names_the_path() {
    let runner = RecordingRunner::with_outputs(&["repo\n", "\n"]);
    let error = unique_roots_for_paths(&paths(&["repo/web", "empty", "never"]), &runner).expect_err("empty root");
    assert_eq!(error, "failed to find git repository for `empty`: git repository root was empty for `empty`");
    assert_eq!(runner.displays().len(), 2);

    let error = unique_roots_for_paths(&paths(&["repo"]), &RunOnly).expect_err("no captured output");
    assert_eq!(
        error,
        "failed to find git repository for `repo`: runner does not support captured output for `git -C repo rev-parse --show-toplevel`",
    );
}

#[test]
fn git_commands_address_the_checkout() {
    assert_eq!(git_command("my repo").display(), "git -C 'my repo'");
    assert_eq!(fetch_command("repo").args, vec!["-C", "repo", "fetch", "--all", "--prune"]);
    assert_eq!(repo_paths(&service_map(&["a", "b"], Some("pb"))), vec!["a", "b", "pb"]);
}

#[test]
fn update_needs_git() {
    assert!(ensure_git_available(true).is_ok());
    let error = ensure_git_available(false).expect_err("git missing");
    assert_eq!(
        error,
        "git is required for `update`; install it in the same environment that runs cargo: program `git` was not found on PATH",
    );
}

#[test]
fn no_paths_give_no_roots() {
    let runner = RecordingRunner::new();
    assert!(unique_roots_for_paths(&Vec::new(), &runner).expect("roots").is_empty());
    assert!(runner.displays().is_empty());
}

#[test]
fn roots_that_are_the_same_path_are_kept_once() {
    let runner = RecordingRunner::with_outputs(&["/home/v/repo\n", "/home/v/repo/\n", "/home/v/other\n"]);
    let roots = unique_roots_for_paths(&paths(&["a", "b", "c"]), &runner).expect("roots");
    assert_eq!(roots, vec!["/home/v/repo".to_string(), "/home/v/other".to_string()]);
}
