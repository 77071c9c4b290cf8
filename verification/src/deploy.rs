//! Planning a deployment: the commands that build, upload and install the site.
pub mod install_script;
pub mod preflight;
pub mod remote;

pub use preflight::{
    BuildStep, CommandProbe, DeployProbes, deploy_build_steps, ensure_deploy_programs_available,
};

use vstd::prelude::*;

use crate::config::types::{
    BuildView, ResolvedService, ServiceMap, ServiceMapView, ServiceView, Text, build_commands_of,
    services_view,
};
use crate::deploy::install_script::{
    append_pocketbase_preflight, install_script, install_script_of, pocketbase_preflight_of,
};
use crate::deploy::remote::{
    pocketbase_rsync_command, pocketbase_rsync_command_of, remote_child, remote_child_of,
    remote_rsync_target, remote_ssh_target, rsync_command, rsync_command_of, law_rsync_deletes_only_when_asked, rsync_source,
    rsync_source_of, rsync_target_of, sh_quote, sh_quote_of, ssh_command, ssh_command_of,
    ssh_target_of, ssh_transport, ssh_transport_of,
};
use crate::paths::{join_path, path_join};
use crate::deploy::preflight::{build_steps_of, deploy_programs_check_of};
use crate::process::{
    CommandRunner, CommandView, ProcessCommand, command_of, commands_view, display_of, ran_views_in_order,
    run_commands,
};
use crate::render::{RenderedPaths, RenderedPathsView};
use crate::text::{decimal, strings_view, to_string, u64_to_decimal};

verus! {

/// The commands of a deployment, in the order they run.
#[derive(Debug)]
pub struct DeploymentCommandList {
    pub commands: Vec<ProcessCommand>,
}

impl View for DeploymentCommandList {
    type V = Seq<CommandView>;

    open spec fn view(&self) -> Seq<CommandView> {
        commands_view(self.commands@)
    }
}

// ---------------------------------------------------------------------------
// Build commands
// ---------------------------------------------------------------------------

/// Every build command of a service names a program (validation ensures it).
pub open spec fn build_has_programs(build: Option<BuildView>) -> bool {
    match build {
        None => true,
        Some(b) => forall|j: int| 0 <= j < build_commands_of(b).len() ==> (#[trigger] build_commands_of(b)[j]).len() > 0,
    }
}

/// Every service of the map has programs in all its build commands.
pub open spec fn builds_have_programs(m: ServiceMapView) -> bool {
    forall|i: int| 0 <= i < m.services.len() ==> build_has_programs(#[trigger] m.services[i].build)
}

proof fn lemma_commands_error_none(service: Text, commands: Seq<Seq<Text>>, i: int)
    requires
        0 <= i,
        crate::config::checks::build_commands_error(service, commands, i) is None,
    ensures
        forall|j: int| i <= j < commands.len() ==> (#[trigger] commands[j]).len() > 0,
    decreases commands.len() - i,
{
    if i < commands.len() {
        lemma_commands_error_none(service, commands, i + 1);
    }
}

/// A build configuration that validates has a program in every command.
pub proof fn lemma_valid_build_has_programs(service: Text, build: Option<BuildView>)
    requires
        crate::config::checks::build_error(service, build) is None,
    ensures
        build_has_programs(build),
{
    if let Some(b) = build {
        lemma_commands_error_none(service, build_commands_of(b), 0);
    }
}

/// Every map that validation produces can be planned: all its build
/// commands name a program.
pub proof fn law_validated_map_can_be_planned(
    cfg: crate::config::types::ConfigView,
    config_path: Text,
    paths: crate::config::validation::ResolvedPathsView,
)
    requires
        crate::config::validation::validate_spec(cfg, config_path, paths) is Ok,
    ensures
        builds_have_programs(crate::config::validation::validate_spec(cfg, config_path, paths)->Ok_0),
{
    let m = crate::config::validation::validate_spec(cfg, config_path, paths)->Ok_0;
    crate::config::validation::law_validated_map_is_conflict_free(cfg, config_path, paths);
    assert forall|i: int| 0 <= i < m.services.len() implies build_has_programs(#[trigger] m.services[i].build) by {
        assert(crate::config::validation::service_ok(m.services[i], cfg.remote.managed_prefix));
        lemma_valid_build_has_programs(m.services[i].name, m.services[i].build);
    }
}

/// A build step runs in the service's local checkout with the build environment.
pub open spec fn build_step_of(s: ServiceView, b: BuildView, c: Seq<Text>) -> CommandView {
    CommandView { program: c[0], args: c.drop_first(), cwd: Some(s.local_path), env: b.environment }
}

/// The local build steps of a service, in order.
pub open spec fn service_build_commands_of(s: ServiceView) -> Seq<CommandView> {
    match s.build {
        None => seq![],
        Some(b) => build_commands_of(b).map_values(|c: Seq<Text>| build_step_of(s, b, c)),
    }
}

/// The local build steps of a service.
pub fn service_build_commands(service: &ResolvedService) -> (r: Vec<ProcessCommand>)
    requires
        build_has_programs(service@.build),
    ensures
        commands_view(r@) == service_build_commands_of(service@),
{
    let build = match &service.build {
        None => {
            let r: Vec<ProcessCommand> = Vec::new();
            assert(commands_view(r@) =~= service_build_commands_of(service@));
            return r;
        },
        Some(b) => b,
    };
    let ghost bv = build@;
    let commands = build.commands();
    let ghost cmds = build_commands_of(bv);
    let mut r: Vec<ProcessCommand> = Vec::new();
    let mut i: usize = 0;
    while i < commands.len()
        invariant
            i <= commands@.len(),
            commands@.map_values(|c: &Vec<String>| strings_view(c@)) == cmds,
            cmds == build_commands_of(bv),
            bv == build@,
            service@.build == Some(bv),
            forall|j: int| 0 <= j < cmds.len() ==> (#[trigger] cmds[j]).len() > 0,
            commands_view(r@) =~= cmds.take(i as int).map_values(|c: Seq<Text>| build_step_of(service@, bv, c)),
        decreases commands@.len() - i,
    {
        let command = commands[i];
        assert(strings_view(command@) == cmds[i as int]);
        assert(cmds[i as int].len() > 0);
        let mut rest: Vec<String> = Vec::new();
        let mut k: usize = 1;
        while k < command.len()
            invariant
                1 <= k <= command@.len(),
                strings_view(rest@) =~= strings_view(command@).subrange(1, k as int),
            decreases command@.len() - k,
        {
            let a = to_string(command[k].as_str());
            let ghost prev = rest@;
            rest.push(a);
            assert(strings_view(rest@) =~= strings_view(prev).push(a@));
            k = k + 1;
        }
        assert(strings_view(rest@) =~= cmds[i as int].drop_first());
        let step = ProcessCommand::new(command[0].as_str()).args(&rest).cwd(service.local_path.as_str()).envs(build.environment.duplicate());
        let ghost prev = r@;
        r.push(step);
        proof {
            assert(step@.args =~= cmds[i as int].drop_first());
            assert(step@ == build_step_of(service@, bv, cmds[i as int]));
            assert(commands_view(r@) =~= commands_view(prev).push(step@));
            assert(cmds.take(i + 1) =~= cmds.take(i as int).push(cmds[i as int]));
        }
        i = i + 1;
    }
    assert(cmds.take(i as int) =~= cmds);
    r
}

// ---------------------------------------------------------------------------
// The plan
// ---------------------------------------------------------------------------

/// The first remote step: create the staging directories and run the preflight checks.
pub open spec fn prepare_script_of(m: ServiceMapView) -> Text {
    let tmp = m.remote.tmp_dir;
    "set -eu\nmkdir -p "@ + sh_quote_of(remote_child_of(tmp, "sync"@)) + " "@ + sh_quote_of(
        remote_child_of(tmp, "systemd"@),
    ) + " "@ + sh_quote_of(remote_child_of(tmp, "backups"@)) + match m.pocketbase {
        Some(pb) => "\n"@ + pocketbase_preflight_of(pb),
        None => Seq::<char>::empty(),
    }
}

/// Checks every staged unit file with `systemd-analyze verify`.
pub open spec fn systemd_verify_script_of(m: ServiceMapView) -> Text {
    "set -eu\nfor unit_path in "@ + sh_quote_of(remote_child_of(m.remote.tmp_dir, "systemd"@)) + "/*.service; do\n    [ -e \"$unit_path\" ] || continue\n    systemd-analyze verify \"$unit_path\"\ndone\n"@
}

/// A service's build steps followed by the upload of its sync source.
pub open spec fn service_upload_of(m: ServiceMapView, target: Text, s: ServiceView) -> Seq<CommandView> {
    service_build_commands_of(s).push(
        rsync_command_of(
            m.remote,
            target,
            join_path(s.local_path, s.sync_source),
            remote_child_of(remote_child_of(m.remote.tmp_dir, "sync"@), s.name),
            true,
            true,
        ),
    )
}

pub open spec fn service_uploads_of(m: ServiceMapView, target: Text, services: Seq<ServiceView>) -> Seq<CommandView>
    decreases services.len(),
{
    if services.len() == 0 {
        seq![]
    } else {
        service_uploads_of(m, target, services.drop_last()) + service_upload_of(m, target, services.last())
    }
}

/// The deployment, in order: prepare the remote; build and upload each
/// service; upload PocketBase; upload the Caddyfile and the unit files;
/// validate the Caddyfile; verify the unit files; run the install script.
pub open spec fn deployment_plan_of(m: ServiceMapView, paths: RenderedPathsView) -> Result<Seq<CommandView>, Text> {
    match ssh_target_of(m.remote) {
        Err(e) => Err(e),
        Ok(ssh_target) => match rsync_target_of(m.remote) {
            Err(e) => Err(e),
            Ok(rsync_target) => {
                let tmp = m.remote.tmp_dir;
                Ok(
                    seq![ssh_command_of(m.remote, ssh_target, prepare_script_of(m))]
                        + service_uploads_of(m, rsync_target, m.services)
                        + match m.pocketbase {
                            Some(pb) => seq![
                                pocketbase_rsync_command_of(
                                    m.remote,
                                    rsync_target,
                                    pb.source_path,
                                    remote_child_of(remote_child_of(tmp, "sync"@), pb.name),
                                ),
                            ],
                            None => seq![],
                        }
                        + seq![
                        rsync_command_of(m.remote, rsync_target, paths.caddyfile, remote_child_of(tmp, "Caddyfile"@), false, false),
                        rsync_command_of(m.remote, rsync_target, paths.systemd_dir, remote_child_of(tmp, "systemd"@), true, true),
                        ssh_command_of(m.remote, ssh_target, "caddy validate --config "@ + sh_quote_of(remote_child_of(tmp, "Caddyfile"@))),
                        ssh_command_of(m.remote, ssh_target, systemd_verify_script_of(m)),
                        ssh_command_of(m.remote, ssh_target, install_script_of(m)),
                    ],
                )
            },
        },
    }
}

/// A deployment first prepares the remote; then builds and uploads each
/// service, every build before its service's upload; and ends by uploading
/// the Caddyfile and the unit files, validating the Caddyfile, verifying the
/// unit files and running the install script, in that order. The unit files
/// are mirrored (stale ones deleted), the Caddyfile is copied as a single file.
pub proof fn law_plan_order(m: ServiceMapView, paths: RenderedPathsView)
    requires
        deployment_plan_of(m, paths) is Ok,
    ensures
        ({
            let c = deployment_plan_of(m, paths)->Ok_0;
            let n = c.len();
            let ssh_target = ssh_target_of(m.remote)->Ok_0;
            let rsync_target = rsync_target_of(m.remote)->Ok_0;
            let tmp = m.remote.tmp_dir;
            let uploads = service_uploads_of(m, rsync_target, m.services);
            &&& n >= 6
            &&& c[0] == ssh_command_of(m.remote, ssh_target, prepare_script_of(m))
            &&& c.subrange(1, 1 + uploads.len() as int) == uploads
            &&& c[n - 5] == rsync_command_of(m.remote, rsync_target, paths.caddyfile, remote_child_of(tmp, "Caddyfile"@), false, false)
            &&& c[n - 4] == rsync_command_of(m.remote, rsync_target, paths.systemd_dir, remote_child_of(tmp, "systemd"@), true, true)
            &&& c[n - 3] == ssh_command_of(m.remote, ssh_target, "caddy validate --config "@ + sh_quote_of(remote_child_of(tmp, "Caddyfile"@)))
            &&& c[n - 2] == ssh_command_of(m.remote, ssh_target, systemd_verify_script_of(m))
            &&& c[n - 1] == ssh_command_of(m.remote, ssh_target, install_script_of(m))
            &&& c[n - 4].args.contains("--delete"@)
            &&& c[n - 5].args.len() == 5
        }),
{
    let c = deployment_plan_of(m, paths)->Ok_0;
    let rsync_target = rsync_target_of(m.remote)->Ok_0;
    let tmp = m.remote.tmp_dir;
    let uploads = service_uploads_of(m, rsync_target, m.services);
    assert(c.subrange(1, 1 + uploads.len() as int) =~= uploads);
    law_rsync_deletes_only_when_asked(m.remote, rsync_target, paths.caddyfile, remote_child_of(tmp, "Caddyfile"@), false, false);
    law_rsync_deletes_only_when_asked(m.remote, rsync_target, paths.systemd_dir, remote_child_of(tmp, "systemd"@), true, true);
}

/// Every service's upload is its build steps followed by one rsync of its
/// sync source, which deletes on the remote side what the build output no
/// longer holds.
pub proof fn law_builds_precede_upload(m: ServiceMapView, target: Text, s: ServiceView)
    ensures
        ({
            let u = service_upload_of(m, target, s);
            &&& u.len() == service_build_commands_of(s).len() + 1
            &&& u.subrange(0, u.len() - 1) == service_build_commands_of(s)
            &&& u.last().program == m.remote.rsync_program
            &&& u.last().args.contains("--delete"@)
        }),
{
    let u = service_upload_of(m, target, s);
    assert(u.subrange(0, u.len() - 1) =~= service_build_commands_of(s));
    law_rsync_deletes_only_when_asked(
        m.remote,
        target,
        join_path(s.local_path, s.sync_source),
        remote_child_of(remote_child_of(m.remote.tmp_dir, "sync"@), s.name),
        true,
        true,
    );
}

fn prepare_script(map: &ServiceMap) -> (r: String)
    ensures
        r@ == prepare_script_of(map@),
{
    let tmp = map.remote.tmp_dir.as_str();
    let mut script = to_string("set -eu\nmkdir -p ");
    script.append(sh_quote(remote_child(tmp, "sync").as_str()).as_str());
    script.append(" ");
    script.append(sh_quote(remote_child(tmp, "systemd").as_str()).as_str());
    script.append(" ");
    script.append(sh_quote(remote_child(tmp, "backups").as_str()).as_str());
    let ghost base = script@;
    if let Some(pocketbase) = &map.pocketbase {
        script.append("\n");
        append_pocketbase_preflight(&mut script, pocketbase);
        assert(script@ =~= base + ("\n"@ + pocketbase_preflight_of(pocketbase@)));
    } else {
        assert(script@ =~= base + Seq::<char>::empty());
    }
    script
}

fn systemd_verify_script(map: &ServiceMap) -> (r: String)
    ensures
        r@ == systemd_verify_script_of(map@),
{
    let mut script = to_string("set -eu\nfor unit_path in ");
    script.append(sh_quote(remote_child(map.remote.tmp_dir.as_str(), "systemd").as_str()).as_str());
    script.append("/*.service; do\n    [ -e \"$unit_path\" ] || continue\n    systemd-analyze verify \"$unit_path\"\ndone\n");
    script
}

/// The commands that deploy a validated service map whose artifacts were
/// rendered to `rendered_paths`; fails when `remote.host` is not set.
pub fn build_deployment_command_list(map: &ServiceMap, rendered_paths: &RenderedPaths) -> (r: Result<DeploymentCommandList, String>)
    requires
        builds_have_programs(map@),
    ensures
        match r {
            Ok(plan) => deployment_plan_of(map@, rendered_paths@) == Ok::<Seq<CommandView>, Text>(plan@),
            Err(e) => deployment_plan_of(map@, rendered_paths@) == Err::<Seq<CommandView>, Text>(e@),
        },
{
    let ghost m = map@;
    let ssh_target = match remote_ssh_target(&map.remote) {
        Ok(t) => t,
        Err(e) => return Err(e),
    };
    let rsync_target = match remote_rsync_target(&map.remote) {
        Ok(t) => t,
        Err(e) => return Err(e),
    };
    let tmp = map.remote.tmp_dir.as_str();
    let mut commands: Vec<ProcessCommand> = Vec::new();
    let prepare = prepare_script(map);
    commands.push(ssh_command(&map.remote, ssh_target.as_str(), prepare.as_str()));
    let ghost first = commands_view(commands@);
    assert(first =~= seq![ssh_command_of(m.remote, ssh_target@, prepare_script_of(m))]);
    let sync_dir = remote_child(tmp, "sync");
    let ghost sv = services_view(map.services@);
    let mut i: usize = 0;
    while i < map.services.len()
        invariant
            i <= map.services@.len(),
            m == map@,
            sv == m.services,
            builds_have_programs(m),
            sync_dir@ == remote_child_of(m.remote.tmp_dir, "sync"@),
            commands_view(commands@) =~= first + service_uploads_of(m, rsync_target@, sv.take(i as int)),
        decreases map.services@.len() - i,
    {
        let service = &map.services[i];
        assert(sv[i as int] == service@);
        let mut builds = service_build_commands(service);
        let ghost before = commands_view(commands@);
        let ghost bv = commands_view(builds@);
        let ghost raw = builds@;
        let ghost old_commands = commands@;
        commands.append(&mut builds);
        assert(commands@ =~= old_commands + raw);
        assert(commands_view(commands@) =~= before + bv);
        let source = path_join(service.local_path.as_str(), service.sync_source.as_str());
        let destination = remote_child(sync_dir.as_str(), service.name.as_str());
        let upload = rsync_command(&map.remote, rsync_target.as_str(), source.as_str(), destination.as_str(), true, true);
        let ghost mid = commands_view(commands@);
        commands.push(upload);
        proof {
            assert(commands_view(commands@) =~= mid.push(upload@));
            assert(sv.take(i + 1).drop_last() =~= sv.take(i as int));
            assert(sv.take(i + 1).last() == service@);
            assert(service_upload_of(m, rsync_target@, service@) =~= bv.push(upload@));
        }
        i = i + 1;
    }
    assert(sv.take(i as int) =~= sv);
    let ghost after_services = commands_view(commands@);
    if let Some(pocketbase) = &map.pocketbase {
        let destination = remote_child(sync_dir.as_str(), pocketbase.name.as_str());
        let c = pocketbase_rsync_command(&map.remote, rsync_target.as_str(), pocketbase.source_path.as_str(), destination.as_str());
        commands.push(c);
        assert(commands_view(commands@) =~= after_services + seq![c@]);
    } else {
        assert(commands_view(commands@) =~= after_services + Seq::<CommandView>::empty());
    }
    let ghost after_pb = commands_view(commands@);
    let caddy_tmp = remote_child(tmp, "Caddyfile");
    let systemd_tmp = remote_child(tmp, "systemd");
    let c1 = rsync_command(&map.remote, rsync_target.as_str(), rendered_paths.caddyfile.as_str(), caddy_tmp.as_str(), false, false);
    let c2 = rsync_command(&map.remote, rsync_target.as_str(), rendered_paths.systemd_dir.as_str(), systemd_tmp.as_str(), true, true);
    let mut validate = to_string("caddy validate --config ");
    validate.append(sh_quote(caddy_tmp.as_str()).as_str());
    let c3 = ssh_command(&map.remote, ssh_target.as_str(), validate.as_str());
    let verify = systemd_verify_script(map);
    let c4 = ssh_command(&map.remote, ssh_target.as_str(), verify.as_str());
    let install = install_script(map);
    let c5 = ssh_command(&map.remote, ssh_target.as_str(), install.as_str());
    commands.push(c1);
    commands.push(c2);
    commands.push(c3);
    commands.push(c4);
    commands.push(c5);
    assert(commands_view(commands@) =~= after_pb + seq![c1@, c2@, c3@, c4@, c5@]);
    let plan = DeploymentCommandList { commands };
    assert(plan@ =~= deployment_plan_of(m, rendered_paths@)->Ok_0);
    Ok(plan)
}

/// The artifacts' local paths under an output directory.
pub open spec fn rendered_paths_of(output_dir: Text) -> RenderedPathsView {
    RenderedPathsView {
        caddyfile: join_path(output_dir, "Caddyfile"@),
        systemd_dir: join_path(output_dir, "systemd"@),
    }
}

pub fn rendered_paths_for_output_dir(output_dir: &str) -> (r: RenderedPaths)
    ensures
        r@ == rendered_paths_of(output_dir@),
{
    RenderedPaths {
        caddyfile: path_join(output_dir, "Caddyfile"),
        systemd_dir: path_join(output_dir, "systemd"),
    }
}

/// The deployment commands for artifacts rendered to `output_dir`.
pub fn build_deployment_command_list_for_output_dir(map: &ServiceMap, output_dir: &str) -> (r: Result<DeploymentCommandList, String>)
    requires
        builds_have_programs(map@),
    ensures
        match r {
            Ok(plan) => deployment_plan_of(map@, rendered_paths_of(output_dir@)) == Ok::<Seq<CommandView>, Text>(plan@),
            Err(e) => deployment_plan_of(map@, rendered_paths_of(output_dir@)) == Err::<Seq<CommandView>, Text>(e@),
        },
{
    let rendered_paths = rendered_paths_for_output_dir(output_dir);
    build_deployment_command_list(map, &rendered_paths)
}

// ---------------------------------------------------------------------------
// Showing a plan
// ---------------------------------------------------------------------------

/// One numbered line per command: `<n>. <command>`.
pub open spec fn plan_lines_of(commands: Seq<CommandView>) -> Text
    decreases commands.len(),
{
    if commands.len() == 0 {
        Seq::<char>::empty()
    } else {
        plan_lines_of(commands.drop_last()) + decimal(commands.len()) + ". "@ + display_of(commands.last()) + "\n"@
    }
}

pub fn format_plan(plan: &DeploymentCommandList) -> (r: String)
    ensures
        r@ == plan_lines_of(plan@),
{
    let ghost cv = plan@;
    let mut output = String::new();
    let mut i: usize = 0;
    while i < plan.commands.len()
        invariant
            i <= plan.commands@.len(),
            cv == plan@,
            output@ =~= plan_lines_of(cv.take(i as int)),
        decreases plan.commands@.len() - i,
    {
        output.append(u64_to_decimal((i + 1) as u64).as_str());
        output.append(". ");
        output.append(plan.commands[i].display().as_str());
        output.append("\n");
        proof {
            assert(cv.take(i + 1).drop_last() =~= cv.take(i as int));
            assert(cv.take(i + 1).last() == plan.commands@[i as int]@);
        }
        i = i + 1;
    }
    assert(cv.take(i as int) =~= cv);
    output
}

// ---------------------------------------------------------------------------
// Pulling PocketBase migrations
// ---------------------------------------------------------------------------

pub open spec fn no_pocketbase_message() -> Text {
    "pocketbase is not configured; there are no migrations to pull"@
}

/// The add-only pull of new JavaScript migrations from the remote PocketBase
/// into the local source checkout: never deletes and never overwrites.
pub open spec fn migrations_pull_command_of(m: ServiceMapView) -> Result<CommandView, Text> {
    match m.pocketbase {
        None => Err(no_pocketbase_message()),
        Some(pb) => match rsync_target_of(m.remote) {
            Err(e) => Err(e),
            Ok(target) => Ok(
                CommandView {
                    args: seq![
                        "-rtz"@,
                        "--ignore-existing"@,
                        "--itemize-changes"@,
                        "--include"@,
                        "*.js"@,
                        "--exclude"@,
                        "*"@,
                        "-e"@,
                        ssh_transport_of(m.remote),
                        target + ":"@ + remote_child_of(pb.remote_path, "pb_migrations"@) + "/"@,
                        rsync_source_of(join_path(pb.source_path, "pb_migrations"@), true),
                    ],
                    ..command_of(m.remote.rsync_program)
                },
            ),
        },
    }
}

/// Pulling migrations copies from the remote PocketBase into the local
/// checkout, and only adds: it fails when PocketBase is not configured; it
/// skips files that already exist locally, takes only `*.js` files, and none
/// of its options deletes anything.
pub proof fn law_migrations_pull_is_add_only(m: ServiceMapView)
    ensures
        m.pocketbase is None ==> migrations_pull_command_of(m) == Err::<CommandView, Text>(no_pocketbase_message()),
        migrations_pull_command_of(m) is Ok <==> m.pocketbase is Some && rsync_target_of(m.remote) is Ok,
        migrations_pull_command_of(m) matches Ok(c) ==> {
            let pb = m.pocketbase->Some_0;
            let n = c.args.len();
            &&& c.program == m.remote.rsync_program
            &&& n == 11
            &&& c.args.contains("--ignore-existing"@)
            &&& c.args[3] == "--include"@ && c.args[4] == "*.js"@
            &&& c.args[5] == "--exclude"@ && c.args[6] == "*"@
            &&& forall|i: int| 0 <= i < 8 ==> c.args[i] != "--delete"@
            &&& c.args[n - 2] == rsync_target_of(m.remote)->Ok_0 + ":"@ + remote_child_of(pb.remote_path, "pb_migrations"@) + "/"@
            &&& c.args[n - 1] == rsync_source_of(join_path(pb.source_path, "pb_migrations"@), true)
        },
{
    if migrations_pull_command_of(m) is Ok {
        let c = migrations_pull_command_of(m)->Ok_0;
        reveal_strlit("--delete");
        reveal_strlit("-rtz");
        reveal_strlit("--ignore-existing");
        reveal_strlit("--itemize-changes");
        reveal_strlit("--include");
        reveal_strlit("*.js");
        reveal_strlit("--exclude");
        reveal_strlit("*");
        reveal_strlit("-e");
        assert(c.args[1] == "--ignore-existing"@);
        assert forall|i: int| 0 <= i < 8 implies c.args[i] != "--delete"@ by {
            assert(c.args[i].len() != "--delete"@.len());
        }
    }
}

pub fn build_pocketbase_migrations_pull_command(map: &ServiceMap) -> (r: Result<ProcessCommand, String>)
    ensures
        match r {
            Ok(c) => migrations_pull_command_of(map@) == Ok::<CommandView, Text>(c@),
            Err(e) => migrations_pull_command_of(map@) == Err::<CommandView, Text>(e@),
        },
{
    let pocketbase = match &map.pocketbase {
        None => return Err(to_string("pocketbase is not configured; there are no migrations to pull")),
        Some(pb) => pb,
    };
    let target = match remote_rsync_target(&map.remote) {
        Ok(t) => t,
        Err(e) => return Err(e),
    };
    let transport = ssh_transport(&map.remote);
    let mut source = target;
    source.append(":");
    source.append(remote_child(pocketbase.remote_path.as_str(), "pb_migrations").as_str());
    source.append("/");
    let local = path_join(pocketbase.source_path.as_str(), "pb_migrations");
    let destination = rsync_source(local.as_str(), true);
    let c = ProcessCommand::new(map.remote.rsync_program.as_str())
        .arg("-rtz")
        .arg("--ignore-existing")
        .arg("--itemize-changes")
        .arg("--include")
        .arg("*.js")
        .arg("--exclude")
        .arg("*")
        .arg("-e")
        .arg(transport.as_str())
        .arg(source.as_str())
        .arg(destination.as_str());
    proof {
        let expected = migrations_pull_command_of(map@)->Ok_0;
        assert(c@.args =~= expected.args);
        assert(c@ == expected);
    }
    Ok(c)
}

/// Where pulled migrations land locally: `<source_path>/pb_migrations`.
pub fn migrations_destination(map: &ServiceMap) -> (r: Option<String>)
    ensures
        match map@.pocketbase {
            Some(pb) => r matches Some(d) && d@ == join_path(pb.source_path, "pb_migrations"@),
            None => r is None,
        },
{
    match &map.pocketbase {
        Some(pb) => Some(path_join(pb.source_path.as_str(), "pb_migrations")),
        None => None,
    }
}

// ---------------------------------------------------------------------------
// Running a deployment
// ---------------------------------------------------------------------------

/// Runs the deployment plan of the map, stopping at the first command that
/// fails: `Ok` only when the runner answered `Ok` for every command of the
/// plan in order, otherwise the first failure's error; a map that cannot be
/// planned runs nothing.
pub fn run_deployment_commands<R: CommandRunner>(map: &ServiceMap, rendered_paths: &RenderedPaths, runner: &R) -> (r:
    Result<(), String>)
    requires
        builds_have_programs(map@),
    ensures
        deployment_plan_of(map@, rendered_paths@) matches Err(e) ==> (r matches Err(x) && x@ == e),
        deployment_plan_of(map@, rendered_paths@) matches Ok(plan) ==> ran_views_in_order(runner, plan, r),
{
    let plan = match build_deployment_command_list(map, rendered_paths) {
        Ok(plan) => plan,
        Err(e) => return Err(e),
    };
    let r = run_commands(runner, &plan.commands);
    assert(commands_view(plan.commands@) == plan@);
    r
}

/// Checks that the deployment can start from what was found on disk, then
/// runs it with the artifacts already rendered to `rendered_paths`.
pub fn deploy_rendered<R: CommandRunner>(
    map: &ServiceMap,
    rendered_paths: &RenderedPaths,
    probes: &DeployProbes,
    runner: &R,
) -> (r: Result<(), String>)
    requires
        builds_have_programs(map@),
        probes.build@.len() == build_steps_of(map@).len(),
    ensures
        deploy_programs_check_of(map@, probes.build@, probes.ssh_found, probes.rsync_found) matches Err(e)
            ==> (r matches Err(x) && x@ == e),
        deploy_programs_check_of(map@, probes.build@, probes.ssh_found, probes.rsync_found) is Ok
            ==> (deployment_plan_of(map@, rendered_paths@) matches Err(e) ==> (r matches Err(x) && x@ == e)),
        deploy_programs_check_of(map@, probes.build@, probes.ssh_found, probes.rsync_found) is Ok
            ==> (deployment_plan_of(map@, rendered_paths@) matches Ok(plan) ==> ran_views_in_order(runner, plan, r)),
{
    match ensure_deploy_programs_available(map, probes) {
        Ok(()) => {},
        Err(e) => return Err(e),
    }
    run_deployment_commands(map, rendered_paths, runner)
}

} // verus!
