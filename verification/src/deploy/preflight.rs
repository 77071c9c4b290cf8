//! What must be true on the local machine before a deployment starts: every
//! build command can start, and `ssh` and `rsync` resolve.
use vstd::prelude::*;

use crate::config::types::{ResolvedService, ServiceMap, ServiceMapView, ServiceView, Text, services_view};
use crate::deploy::{build_has_programs, builds_have_programs, service_build_commands, service_build_commands_of};
use crate::process::{
    CommandView, ProcessCommand, WorkingDirectory, command_can_start_of, ensure_command_can_start,
    ensure_program_available, program_availability_of,
};
use crate::text::to_string;

verus! {

/// A build command of a service.
pub struct BuildStep {
    pub service: String,
    pub command: ProcessCommand,
}

pub struct BuildStepView {
    pub service: Text,
    pub command: CommandView,
}

impl View for BuildStep {
    type V = BuildStepView;

    open spec fn view(&self) -> BuildStepView {
        BuildStepView { service: self.service@, command: self.command@ }
    }
}

pub open spec fn steps_view(v: Seq<BuildStep>) -> Seq<BuildStepView> {
    v.map_values(|s: BuildStep| s@)
}

/// What was found on disk for a build command: the state of its working
/// directory, and whether its program resolves from there.
#[derive(Clone, Copy, Debug, PartialEq, Eq, Structural)]
pub struct CommandProbe {
    pub working_directory: WorkingDirectory,
    pub found: bool,
}

/// What was found on disk for a deployment: one probe per build step (see
/// `deploy_build_steps`), and whether `ssh` and `rsync` resolve on `PATH`.
pub struct DeployProbes {
    pub build: Vec<CommandProbe>,
    pub ssh_found: bool,
    pub rsync_found: bool,
}

/// The build steps of one service.
pub open spec fn service_steps_of(s: ServiceView) -> Seq<BuildStepView> {
    service_build_commands_of(s).map_values(|c: CommandView| BuildStepView { service: s.name, command: c })
}

/// The build steps of the services, in order.
pub open spec fn steps_of_services(services: Seq<ServiceView>) -> Seq<BuildStepView>
    decreases services.len(),
{
    if services.len() == 0 {
        seq![]
    } else {
        steps_of_services(services.drop_last()) + service_steps_of(services.last())
    }
}

pub open spec fn build_steps_of(m: ServiceMapView) -> Seq<BuildStepView> {
    steps_of_services(m.services)
}

/// Every build command of the map with the service it belongs to, in the
/// order the deployment runs them.
pub fn deploy_build_steps(map: &ServiceMap) -> (r: Vec<BuildStep>)
    requires
        builds_have_programs(map@),
    ensures
        steps_view(r@) == build_steps_of(map@),
{
    let ghost sv = services_view(map.services@);
    let mut r: Vec<BuildStep> = Vec::new();
    let mut i: usize = 0;
    while i < map.services.len()
        invariant
            i <= map.services@.len(),
            sv == map@.services,
            builds_have_programs(map@),
            steps_view(r@) =~= steps_of_services(sv.take(i as int)),
        decreases map.services@.len() - i,
    {
        let service: &ResolvedService = &map.services[i];
        proof {
            assert(sv[i as int] == service@);
            assert(build_has_programs(sv[i as int].build));
            assert(sv.take(i + 1).drop_last() =~= sv.take(i as int));
        }
        let mut commands = service_build_commands(service);
        let ghost cv = crate::process::commands_view(commands@);
        let ghost start = steps_view(r@);
        let mut taken: usize = 0;
        let n = commands.len();
        let mut rest: Vec<ProcessCommand> = Vec::new();
        let ghost all = commands@;
        while commands.len() > 0
            invariant
                commands@.len() + taken == n,
                n == all.len(),
                cv == crate::process::commands_view(all),
                commands@ =~= all.subrange(taken as int, n as int),
                steps_view(r@) =~= start + service_steps_of(service@).take(taken as int),
                cv == service_build_commands_of(service@),
            decreases commands@.len(),
        {
            let ghost before = commands@;
            let c = commands.remove(0);
            proof {
                assert(c == all[taken as int]);
                assert(commands@ =~= all.subrange(taken + 1, n as int));
            }
            let ghost prev = r@;
            r.push(BuildStep { service: service.name.clone(), command: c });
            proof {
                assert(steps_view(r@) =~= steps_view(prev).push(BuildStepView { service: service@.name, command: c@ }));
                assert(cv[taken as int] == c@);
                assert(service_steps_of(service@).take(taken + 1) =~= service_steps_of(service@).take(
                    taken as int,
                ).push(BuildStepView { service: service@.name, command: c@ }));
            }
            taken = taken + 1;
        }
        proof {
            assert(service_steps_of(service@).take(taken as int) =~= service_steps_of(service@));
        }
        i = i + 1;
    }
    assert(sv.take(map.services@.len() as int) =~= sv);
    r
}

/// The message when a build command of `service` cannot start, followed by
/// the reason.
pub open spec fn build_unavailable_message(service: Text, program: Text, reason: Text) -> Text {
    "service `"@ + service + "` build program `"@ + program + "` is unavailable: "@ + reason
}

/// The outcome of checking `steps` in order against `probes`, position by
/// position: the first step that cannot start fails the check.
pub open spec fn build_checks_of(steps: Seq<BuildStepView>, probes: Seq<CommandProbe>) -> Result<(), Text>
    decreases steps.len(),
{
    if steps.len() == 0 {
        Ok(())
    } else {
        let n = steps.len() - 1;
        match build_checks_of(steps.drop_last(), probes) {
            Err(e) => Err(e),
            Ok(_) => match command_can_start_of(steps[n].command, probes[n].working_directory, probes[n].found) {
                Ok(_) => Ok(()),
                Err(reason) => Err(build_unavailable_message(steps[n].service, steps[n].command.program, reason)),
            },
        }
    }
}

/// The outcome of the deployment preflight: the build steps, then `ssh`,
/// then `rsync`.
pub open spec fn deploy_programs_check_of(
    m: ServiceMapView,
    build: Seq<CommandProbe>,
    ssh_found: bool,
    rsync_found: bool,
) -> Result<(), Text> {
    match build_checks_of(build_steps_of(m), build) {
        Err(e) => Err(e),
        Ok(_) => match program_availability_of(m.remote.ssh_program, None, ssh_found) {
            Err(e) => Err(e),
            Ok(_) => program_availability_of(m.remote.rsync_program, None, rsync_found),
        },
    }
}

proof fn lemma_build_checks_prefix(steps: Seq<BuildStepView>, probes: Seq<CommandProbe>, j: int)
    requires
        0 <= j <= steps.len(),
        build_checks_of(steps.take(j), probes) is Err,
    ensures
        build_checks_of(steps, probes) == build_checks_of(steps.take(j), probes),
    decreases steps.len() - j,
{
    if j == steps.len() {
        assert(steps.take(j) =~= steps);
    } else {
        assert(steps.drop_last().take(j) =~= steps.take(j));
        lemma_build_checks_prefix(steps.drop_last(), probes, j);
    }
}

/// Checks that the deployment can start locally, from what was found on disk.
pub fn ensure_deploy_programs_available(map: &ServiceMap, probes: &DeployProbes) -> (r: Result<(), String>)
    requires
        builds_have_programs(map@),
        probes.build@.len() == build_steps_of(map@).len(),
    ensures
        match r {
            Ok(()) => deploy_programs_check_of(map@, probes.build@, probes.ssh_found, probes.rsync_found)
                == Ok::<(), Text>(()),
            Err(e) => deploy_programs_check_of(map@, probes.build@, probes.ssh_found, probes.rsync_found)
                == Err::<(), Text>(e@),
        },
{
    let steps = deploy_build_steps(map);
    let ghost sv = steps_view(steps@);
    let ghost pv = probes.build@;
    let mut k: usize = 0;
    while k < steps.len()
        invariant
            k <= steps@.len(),
            sv == steps_view(steps@),
            sv == build_steps_of(map@),
            pv == probes.build@,
            pv.len() == sv.len(),
            build_checks_of(sv.take(k as int), pv) == Ok::<(), Text>(()),
        decreases steps@.len() - k,
    {
        let step = &steps[k];
        let probe = probes.build[k];
        let ghost t = sv.take(k + 1);
        proof {
            assert(t.drop_last() =~= sv.take(k as int));
            assert(t[k as int] == step@);
            assert(pv[k as int] == probe);
        }
        match ensure_command_can_start(&step.command, probe.working_directory, probe.found) {
            Ok(()) => {},
            Err(reason) => {
                let mut e = to_string("service `");
                e.append(step.service.as_str());
                e.append("` build program `");
                e.append(step.command.program.as_str());
                e.append("` is unavailable: ");
                e.append(reason.as_str());
                proof {
                    assert(e@ == build_unavailable_message(t[k as int].service, t[k as int].command.program, reason@));
                    lemma_build_checks_prefix(sv, pv, k + 1);
                }
                return Err(e);
            },
        }
        k = k + 1;
    }
    assert(sv.take(steps@.len() as int) =~= sv);
    match ensure_program_available(map.remote.ssh_program.as_str(), probes.ssh_found) {
        Ok(()) => {},
        Err(e) => return Err(e),
    }
    ensure_program_available(map.remote.rsync_program.as_str(), probes.rsync_found)
}

} // verus!
