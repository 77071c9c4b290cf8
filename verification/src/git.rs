//! Updating the configured repositories: find the repository root of each
//! configured path, dedupe them, then fetch and hard-reset each to `origin/HEAD`.
use vstd::prelude::*;

use crate::config::types::{ResolvedService, ServiceMap, ServiceMapView, ServiceView, Text, services_view};
use crate::process::{
    CommandRunner, CommandView, ProcessCommand, command_of, commands_view, ensure_program_available,
    program_availability_of, ran_views_in_order, run_commands, with_arg,
};
use crate::paths::{is_same_path, paths_equal};
use crate::text::{strings_view, str_trim, to_string, trim_white};

verus! {

// ---------------------------------------------------------------------------
// Commands
// ---------------------------------------------------------------------------

/// `git -C <path>`.
pub open spec fn git_command_of(path: Text) -> CommandView {
    with_arg(with_arg(command_of("git"@), "-C"@), path)
}

/// `git -C <path> fetch --all --prune`.
pub open spec fn fetch_command_of(path: Text) -> CommandView {
    with_arg(with_arg(with_arg(git_command_of(path), "fetch"@), "--all"@), "--prune"@)
}

/// `git -C <path> reset --hard origin/HEAD`.
pub open spec fn reset_origin_head_command_of(path: Text) -> CommandView {
    with_arg(with_arg(with_arg(git_command_of(path), "reset"@), "--hard"@), "origin/HEAD"@)
}

/// `git -C <path> rev-parse --show-toplevel`.
pub open spec fn repo_root_query_of(path: Text) -> CommandView {
    with_arg(with_arg(git_command_of(path), "rev-parse"@), "--show-toplevel"@)
}

/// Updating a checkout fetches every remote with pruning, then hard-resets
/// to `origin/HEAD`; both run `git` inside the checkout, and neither touches
/// untracked files.
pub proof fn law_update_fetches_then_resets(path: Text)
    ensures
        fetch_command_of(path).program == "git"@,
        fetch_command_of(path).args == seq!["-C"@, path, "fetch"@, "--all"@, "--prune"@],
        reset_origin_head_command_of(path).program == "git"@,
        reset_origin_head_command_of(path).args == seq!["-C"@, path, "reset"@, "--hard"@, "origin/HEAD"@],
{
    assert(fetch_command_of(path).args =~= seq!["-C"@, path, "fetch"@, "--all"@, "--prune"@]);
    assert(reset_origin_head_command_of(path).args =~= seq!["-C"@, path, "reset"@, "--hard"@, "origin/HEAD"@]);
}

pub fn git_command(path: &str) -> (r: ProcessCommand)
    ensures
        r@ == git_command_of(path@),
{
    ProcessCommand::new("git").arg("-C").arg(path)
}

pub fn fetch_command(path: &str) -> (r: ProcessCommand)
    ensures
        r@ == fetch_command_of(path@),
{
    git_command(path).arg("fetch").arg("--all").arg("--prune")
}

pub fn reset_origin_head_command(path: &str) -> (r: ProcessCommand)
    ensures
        r@ == reset_origin_head_command_of(path@),
{
    git_command(path).arg("reset").arg("--hard").arg("origin/HEAD")
}

pub fn repo_root_query(path: &str) -> (r: ProcessCommand)
    ensures
        r@ == repo_root_query_of(path@),
{
    git_command(path).arg("rev-parse").arg("--show-toplevel")
}

/// The commands that update the repository at `path`: fetch every remote,
/// then move the checkout to `origin/HEAD`.
pub fn update_commands(path: &str) -> (r: Vec<ProcessCommand>)
    ensures
        commands_view(r@) == seq![fetch_command_of(path@), reset_origin_head_command_of(path@)],
{
    let r = vec![fetch_command(path), reset_origin_head_command(path)];
    assert(commands_view(r@) =~= seq![fetch_command_of(path@), reset_origin_head_command_of(path@)]);
    r
}

/// Runs `update_commands(path)` in order, stopping at the first that fails:
/// `Ok` only when the runner answered `Ok` for the fetch and then the reset,
/// otherwise the error of the first that failed.
pub fn update_repository<R: CommandRunner>(path: &str, runner: &R) -> (r: Result<(), String>)
    ensures
        ran_views_in_order(runner, seq![fetch_command_of(path@), reset_origin_head_command_of(path@)], r),
{
    let commands = update_commands(path);
    let r = run_commands(runner, &commands);
    assert(commands_view(commands@) == seq![fetch_command_of(path@), reset_origin_head_command_of(path@)]);
    r
}

/// The message when `git` cannot be found for `update`, followed by the reason.
pub open spec fn git_missing_message(reason: Text) -> Text {
    "git is required for `update`; install it in the same environment that runs cargo: "@ + reason
}

/// `update` needs `git`; `found` tells whether it resolves on `PATH`.
pub fn ensure_git_available(found: bool) -> (r: Result<(), String>)
    ensures
        found ==> r is Ok,
        !found ==> (r matches Err(e) && e@ == git_missing_message(
            program_availability_of("git"@, None, false)->Err_0,
        )),
{
    match ensure_program_available("git", found) {
        Ok(()) => Ok(()),
        Err(reason) => {
            let mut e = to_string("git is required for `update`; install it in the same environment that runs cargo: ");
            e.append(reason.as_str());
            Err(e)
        },
    }
}

// ---------------------------------------------------------------------------
// Repository roots
// ---------------------------------------------------------------------------

/// The root `git rev-parse --show-toplevel` reported for `path`: its output
/// trimmed, which must not be empty.
pub open spec fn repo_root_of_output(path: Text, output: Text) -> Result<Text, Text> {
    if trim_white(output).len() == 0 {
        Err("git repository root was empty for `"@ + path + "`"@)
    } else {
        Ok(trim_white(output))
    }
}

pub fn repo_root_from_output(path: &str, output: &str) -> (r: Result<String, String>)
    ensures
        match r {
            Ok(root) => repo_root_of_output(path@, output@) == Ok::<Text, Text>(root@),
            Err(e) => repo_root_of_output(path@, output@) == Err::<Text, Text>(e@),
        },
{
    let root = str_trim(output);
    if root.unicode_len() == 0 {
        let mut e = to_string("git repository root was empty for `");
        e.append(path);
        e.append("`");
        Err(e)
    } else {
        Ok(root)
    }
}

/// The runner answered the query for the root of `path` (a command that
/// shows as `repo_root_query_of(path)`) with `Ok` of `output`.
pub open spec fn answers_query<R: CommandRunner>(runner: &R, path: Text, output: Text) -> bool {
    exists|c: ProcessCommand, o: String|
        #[trigger] call_ensures(R::output, (runner, &c), Ok::<String, String>(o)) && c@ == repo_root_query_of(path)
            && o@ == output
}

/// The runner answered the query for the root of `path` with `Err` of `e`.
pub open spec fn query_failed<R: CommandRunner>(runner: &R, path: Text, e: Text) -> bool {
    exists|c: ProcessCommand, x: String|
        #[trigger] call_ensures(R::output, (runner, &c), Err::<String, String>(x)) && c@ == repo_root_query_of(path)
            && x@ == e
}

/// Why the root of `path` could not be found: the runner's error for the
/// query, or the error its answer gives.
pub open spec fn root_lookup_failed<R: CommandRunner>(runner: &R, path: Text, reason: Text) -> bool {
    ||| query_failed(runner, path, reason)
    ||| exists|o: Text| #[trigger] answers_query(runner, path, o) && repo_root_of_output(path, o) == Err::<Text, Text>(reason)
}

/// Asks git, through the runner, for the repository root of `path`: the root
/// is what the runner's answer names; an error is the runner's, or the one
/// that answer gives.
pub fn repo_root_for_path<R: CommandRunner>(path: &str, runner: &R) -> (r: Result<String, String>)
    ensures
        r matches Ok(root) ==> exists|output: Text|
            #[trigger] answers_query(runner, path@, output) && repo_root_of_output(path@, output) == Ok::<Text, Text>(root@),
        r matches Err(e) ==> root_lookup_failed(runner, path@, e@),
{
    let output_of = R::output;
    let query = repo_root_query(path);
    match output_of(runner, &query) {
        Ok(output) => {
            assert(answers_query(runner, path@, output@));
            repo_root_from_output(path, output.as_str())
        },
        Err(e) => {
            assert(query_failed(runner, path@, e@));
            Err(e)
        },
    }
}

/// The message when the repository of `path` cannot be found, followed by
/// the reason.
pub open spec fn repo_failure_message(path: Text, reason: Text) -> Text {
    "failed to find git repository for `"@ + path + "`: "@ + reason
}

/// The roots found for `paths` from the outputs `outputs`, one per path.
pub open spec fn roots_from_outputs(paths: Seq<Text>, outputs: Seq<Text>) -> Seq<Text> {
    Seq::new(paths.len(), |i: int| repo_root_of_output(paths[i], outputs[i])->Ok_0)
}

/// `outputs` are git's answers for `paths`, each naming a root.
pub open spec fn outputs_name_roots(paths: Seq<Text>, outputs: Seq<Text>) -> bool {
    &&& outputs.len() == paths.len()
    &&& forall|i: int| 0 <= i < paths.len() ==> #[trigger] repo_root_of_output(paths[i], outputs[i]) is Ok
}

/// The runner gave `outputs[i]` as its answer for the root of `paths[i]`.
pub open spec fn outputs_answer<R: CommandRunner>(runner: &R, paths: Seq<Text>, outputs: Seq<Text>) -> bool {
    &&& outputs.len() == paths.len()
    &&& forall|i: int| 0 <= i < paths.len() ==> #[trigger] answers_query(runner, paths[i], outputs[i])
}

/// `roots` with every root dropped that is the same path (`==` on `Path`)
/// as one kept before it; the first of each is kept, in order.
pub open spec fn dedup_paths(roots: Seq<Text>) -> Seq<Text>
    decreases roots.len(),
{
    if roots.len() == 0 {
        seq![]
    } else {
        let d = dedup_paths(roots.drop_last());
        if exists|j: int| 0 <= j < d.len() && #[trigger] is_same_path(d[j], roots.last()) {
            d
        } else {
            d.push(roots.last())
        }
    }
}

/// Whether `v` holds a path that is the same path as `p`.
fn contains_same_path(v: &Vec<String>, p: &str) -> (r: bool)
    ensures
        r == exists|j: int| 0 <= j < v@.len() && #[trigger] is_same_path(strings_view(v@)[j], p@),
{
    let mut i: usize = 0;
    while i < v.len()
        invariant
            i <= v@.len(),
            forall|j: int| 0 <= j < i ==> !#[trigger] is_same_path(strings_view(v@)[j], p@),
        decreases v@.len() - i,
    {
        if paths_equal(v[i].as_str(), p) {
            assert(is_same_path(strings_view(v@)[i as int], p@));
            return true;
        }
        i = i + 1;
    }
    false
}

proof fn lemma_dedup_paths(roots: Seq<Text>)
    ensures
        forall|a: int, b: int|
            0 <= a < b < dedup_paths(roots).len() ==> !is_same_path(dedup_paths(roots)[a], dedup_paths(roots)[b]),
        forall|j: int| 0 <= j < dedup_paths(roots).len() ==> roots.contains(#[trigger] dedup_paths(roots)[j]),
        forall|k: int|
            0 <= k < roots.len() ==> dedup_paths(roots).contains(#[trigger] roots[k]) || exists|j: int|
                0 <= j < dedup_paths(roots).len() && is_same_path(dedup_paths(roots)[j], roots[k]),
    decreases roots.len(),
{
    if roots.len() > 0 {
        let p = roots.drop_last();
        lemma_dedup_paths(p);
        let d = dedup_paths(p);
        let x = roots.last();
        assert forall|j: int| 0 <= j < d.len() implies roots.contains(#[trigger] d[j]) by {
            let w = choose|w: int| 0 <= w < p.len() && p[w] == d[j];
            assert(roots[w] == d[j]);
        }
        assert(roots[roots.len() - 1] == x);
        if exists|j: int| 0 <= j < d.len() && #[trigger] is_same_path(d[j], x) {
            assert forall|k: int| 0 <= k < roots.len() implies d.contains(#[trigger] roots[k]) || exists|j: int|
                0 <= j < d.len() && is_same_path(d[j], roots[k]) by {
                if k < roots.len() - 1 {
                    assert(p[k] == roots[k]);
                }
            }
        } else {
            let e = d.push(x);
            assert forall|a: int, b: int| 0 <= a < b < e.len() implies !is_same_path(e[a], e[b]) by {
                if b == d.len() {
                    assert(e[a] == d[a]);
                } else {
                    assert(e[a] == d[a] && e[b] == d[b]);
                }
            }
            assert forall|j: int| 0 <= j < e.len() implies roots.contains(#[trigger] e[j]) by {
                if j < d.len() {
                    assert(e[j] == d[j]);
                }
            }
            assert forall|k: int| 0 <= k < roots.len() implies e.contains(#[trigger] roots[k]) || exists|j: int|
                0 <= j < e.len() && is_same_path(e[j], roots[k]) by {
                if k < roots.len() - 1 {
                    assert(p[k] == roots[k]);
                    if d.contains(roots[k]) {
                        let j = choose|j: int| 0 <= j < d.len() && d[j] == roots[k];
                        assert(e[j] == roots[k]);
                    } else {
                        let j = choose|j: int| 0 <= j < d.len() && is_same_path(d[j], roots[k]);
                        assert(e[j] == d[j]);
                    }
                } else {
                    assert(e[d.len() as int] == roots[k]);
                }
            }
        }
    }
}

/// Deduplicating roots keeps no two that are the same path (so none twice),
/// keeps only roots it was given, and every root it was given is kept or is
/// the same path as one that is.
pub proof fn law_dedup_paths(roots: Seq<Text>)
    ensures
        forall|a: int, b: int|
            0 <= a < b < dedup_paths(roots).len() ==> !is_same_path(dedup_paths(roots)[a], dedup_paths(roots)[b]),
        dedup_paths(roots).no_duplicates(),
        forall|j: int| 0 <= j < dedup_paths(roots).len() ==> roots.contains(#[trigger] dedup_paths(roots)[j]),
        forall|k: int|
            0 <= k < roots.len() ==> dedup_paths(roots).contains(#[trigger] roots[k]) || exists|j: int|
                0 <= j < dedup_paths(roots).len() && is_same_path(dedup_paths(roots)[j], roots[k]),
{
    lemma_dedup_paths(roots);
    let r = dedup_paths(roots);
    assert forall|a: int, b: int| 0 <= a < r.len() && 0 <= b < r.len() && a != b implies r[a] != r[b] by {
        if a < b {
            assert(!is_same_path(r[a], r[b]));
        } else {
            assert(!is_same_path(r[b], r[a]));
        }
    }
}

/// The distinct repository roots of `paths`, in order of first appearance:
/// on success, the runner answered the root query of each path, and the
/// roots its answers name, deduped as paths, are the result, each once; on
/// failure the error names the first path whose root could not be found, and
/// why.
pub fn unique_roots_for_paths<R: CommandRunner>(paths: &Vec<String>, runner: &R) -> (r: Result<Vec<String>, String>)
    ensures
        match r {
            Ok(roots) => exists|outputs: Seq<Text>|
                outputs_name_roots(strings_view(paths@), outputs) && outputs_answer(runner, strings_view(paths@), outputs)
                    && strings_view(roots@) == dedup_paths(#[trigger] roots_from_outputs(strings_view(paths@), outputs))
                    && strings_view(roots@).no_duplicates(),
            Err(e) => exists|i: int, reason: Text|
                0 <= i < paths@.len() && e@ == #[trigger] repo_failure_message(paths@[i]@, reason)
                    && root_lookup_failed(runner, paths@[i]@, reason),
        },
{
    let ghost pv = strings_view(paths@);
    let ghost mut outputs: Seq<Text> = seq![];
    let mut roots: Vec<String> = Vec::new();
    let mut i: usize = 0;
    while i < paths.len()
        invariant
            i <= paths@.len(),
            pv == strings_view(paths@),
            outputs_name_roots(pv.take(i as int), outputs),
            outputs_answer(runner, pv.take(i as int), outputs),
            strings_view(roots@) == dedup_paths(roots_from_outputs(pv.take(i as int), outputs)),
        decreases paths@.len() - i,
    {
        let path = paths[i].as_str();
        let root = match repo_root_for_path(path, runner) {
            Ok(root) => root,
            Err(reason) => {
                let mut e = to_string("failed to find git repository for `");
                e.append(path);
                e.append("`: ");
                e.append(reason.as_str());
                assert(e@ == repo_failure_message(paths@[i as int]@, reason@));
                return Err(e);
            },
        };
        let ghost output = choose|output: Text|
            #[trigger] answers_query(runner, path@, output) && repo_root_of_output(path@, output) == Ok::<Text, Text>(root@);
        let ghost before = roots_from_outputs(pv.take(i as int), outputs);
        proof {
            let next = pv.take(i + 1);
            let outs = outputs.push(output);
            assert(next[i as int] == path@);
            assert(outputs_name_roots(next, outs)) by {
                assert forall|k: int| 0 <= k < next.len() implies #[trigger] repo_root_of_output(next[k], outs[k]) is Ok by {
                    if k < i {
                        assert(next[k] == pv.take(i as int)[k]);
                        assert(repo_root_of_output(pv.take(i as int)[k], outputs[k]) is Ok);
                    }
                }
            }
            assert(outputs_answer(runner, next, outs)) by {
                assert forall|k: int| 0 <= k < next.len() implies #[trigger] answers_query(runner, next[k], outs[k]) by {
                    if k < i {
                        assert(next[k] == pv.take(i as int)[k]);
                        assert(answers_query(runner, pv.take(i as int)[k], outputs[k]));
                    }
                }
            }
            assert(roots_from_outputs(next, outs).drop_last() =~= before);
            assert(roots_from_outputs(next, outs).last() == root@);
        }
        if !contains_same_path(&roots, root.as_str()) {
            let ghost prev = roots@;
            roots.push(root);
            assert(strings_view(roots@) =~= strings_view(prev).push(root@));
        }
        proof {
            outputs = outputs.push(output);
        }
        i = i + 1;
    }
    assert(pv.take(paths@.len() as int) =~= pv);
    proof {
        law_dedup_paths(roots_from_outputs(pv, outputs));
    }
    Ok(roots)
}

/// The paths whose repositories `update` updates: each service's local
/// path in order, then PocketBase's source path.
pub open spec fn repo_paths_of(m: ServiceMapView) -> Seq<Text> {
    let services = m.services.map_values(|s: ServiceView| s.local_path);
    match m.pocketbase {
        Some(pb) => services.push(pb.source_path),
        None => services,
    }
}

pub fn repo_paths(map: &ServiceMap) -> (r: Vec<String>)
    ensures
        strings_view(r@) == repo_paths_of(map@),
{
    let ghost sv = services_view(map.services@);
    let mut r: Vec<String> = Vec::new();
    let mut i: usize = 0;
    while i < map.services.len()
        invariant
            i <= map.services@.len(),
            sv == map@.services,
            strings_view(r@) =~= sv.take(i as int).map_values(|s: ServiceView| s.local_path),
        decreases map.services@.len() - i,
    {
        let service: &ResolvedService = &map.services[i];
        let ghost prev = r@;
        r.push(service.local_path.clone());
        proof {
            assert(strings_view(r@) =~= strings_view(prev).push(service@.local_path));
            assert(sv.take(i + 1) =~= sv.take(i as int).push(sv[i as int]));
            assert(sv[i as int] == service@);
        }
        i = i + 1;
    }
    assert(sv.take(map.services@.len() as int) =~= sv);
    if let Some(pb) = &map.pocketbase {
        let ghost prev = r@;
        r.push(pb.source_path.clone());
        assert(strings_view(r@) =~= strings_view(prev).push(pb@.source_path));
    }
    r
}

/// The distinct repository roots of the map's paths (see `repo_paths_of`),
/// as `unique_roots_for_paths` finds them.
pub fn unique_repo_roots<R: CommandRunner>(map: &ServiceMap, runner: &R) -> (r: Result<Vec<String>, String>)
    ensures
        match r {
            Ok(roots) => exists|outputs: Seq<Text>|
                outputs_name_roots(repo_paths_of(map@), outputs) && outputs_answer(runner, repo_paths_of(map@), outputs)
                    && strings_view(roots@) == dedup_paths(#[trigger] roots_from_outputs(repo_paths_of(map@), outputs))
                    && strings_view(roots@).no_duplicates(),
            Err(e) => exists|i: int, reason: Text|
                0 <= i < repo_paths_of(map@).len() && e@ == #[trigger] repo_failure_message(repo_paths_of(map@)[i], reason)
                    && root_lookup_failed(runner, repo_paths_of(map@)[i], reason),
        },
{
    let paths = repo_paths(map);
    let r = unique_roots_for_paths(&paths, runner);
    proof {
        if r is Err {
            let e = r->Err_0;
            let (i, reason) = choose|i: int, reason: Text|
                0 <= i < paths@.len() && e@ == #[trigger] repo_failure_message(paths@[i]@, reason)
                    && root_lookup_failed(runner, paths@[i]@, reason);
            assert(strings_view(paths@)[i] == paths@[i]@);
        }
    }
    r
}

} // verus!
