//! The generated artifacts: the Caddyfile and the systemd units.
use vstd::prelude::*;

use crate::config::types::{
    ResolvedService, ServiceMap, ServiceMapView, ServiceView, Text, is_deno, systemd_names_of,
};
use crate::paths::{join_path, path_join};
use crate::config::validation::{is_deno_view, map_conflict_free, services_disjoint, validate_spec};
use crate::text::{
    lemma_seq_less_irreflexive, lemma_seq_less_total, lemma_seq_less_transitive, seq_less, str_less,
};

pub mod caddy;
pub mod systemd;

pub use caddy::render_caddyfile;
pub use systemd::{
    SystemdUnit, SystemdUnitView, render_pocketbase_systemd_unit, render_systemd_unit,
    render_warp_proxy_systemd_unit,
};

use caddy::caddyfile_of;
use systemd::{deno_unit_of, pocketbase_unit_of, warp_unit_of};

verus! {

/// Everything `render` writes: the Caddyfile and the unit files.
#[derive(Debug, PartialEq, Eq)]
pub struct RenderedArtifacts {
    pub caddyfile: String,
    pub systemd_units: Vec<SystemdUnit>,
}

pub open spec fn units_view(v: Seq<SystemdUnit>) -> Seq<SystemdUnitView> {
    v.map_values(|u: SystemdUnit| u@)
}

pub open spec fn unit_names(v: Seq<SystemdUnitView>) -> Seq<Text> {
    v.map_values(|u: SystemdUnitView| u.name)
}

/// Where the rendered artifacts are written locally.
#[derive(Debug, PartialEq, Eq)]
pub struct RenderedPaths {
    pub caddyfile: String,
    pub systemd_dir: String,
}

pub struct RenderedPathsView {
    pub caddyfile: Text,
    pub systemd_dir: Text,
}

impl View for RenderedPaths {
    type V = RenderedPathsView;

    open spec fn view(&self) -> RenderedPathsView {
        RenderedPathsView { caddyfile: self.caddyfile@, systemd_dir: self.systemd_dir@ }
    }
}

// ---------------------------------------------------------------------------
// The units of a map
// ---------------------------------------------------------------------------

/// The units of the map before sorting: one per Deno service in order, then
/// the WARP proxy unit and the PocketBase unit.
pub open spec fn units_of(m: ServiceMapView) -> Seq<SystemdUnitView> {
    let deno = m.services.filter(|s: ServiceView| is_deno(s)).map_values(
        |s: ServiceView| deno_unit_of(m.remote.deno_bin, s),
    );
    match m.pocketbase {
        Some(pb) => match pb.warp_proxy {
            Some(w) => deno.push(warp_unit_of(pb, w)).push(pocketbase_unit_of(pb)),
            None => deno.push(pocketbase_unit_of(pb)),
        },
        None => deno,
    }
}

/// Units ordered by file name.
pub open spec fn sorted_by_name(v: Seq<SystemdUnitView>) -> bool {
    forall|a: int, b: int| 0 <= a < b < v.len() ==> !seq_less(#[trigger] v[b].name, #[trigger] v[a].name)
}

/// The units of a map are named exactly after the units the map owns.
pub proof fn lemma_unit_names(m: ServiceMapView)
    ensures
        unit_names(units_of(m)) == systemd_names_of(m),
{
    let f = m.services.filter(|s: ServiceView| is_deno(s));
    let deno = f.map_values(|s: ServiceView| deno_unit_of(m.remote.deno_bin, s));
    let names = f.map_values(|s: ServiceView| s.kind->DenoApp_service_name);
    assert(unit_names(deno) =~= names);
    match m.pocketbase {
        Some(pb) => match pb.warp_proxy {
            Some(w) => {
                assert(unit_names(units_of(m)) =~= names.push(w.service_name).push(pb.service_name));
            },
            None => {
                assert(unit_names(units_of(m)) =~= names.push(pb.service_name));
            },
        },
        None => {},
    }
}

/// The unit names of the Deno services of `s`, in order.
pub open spec fn deno_unit_names(s: Seq<ServiceView>) -> Seq<Text> {
    s.filter(|x: ServiceView| is_deno(x)).map_values(|x: ServiceView| x.kind->DenoApp_service_name)
}

/// `x` is the unit name of some Deno service of `s`.
pub open spec fn names_deno_unit(s: Seq<ServiceView>, x: Text) -> bool {
    exists|k: int| 0 <= k < s.len() && is_deno(#[trigger] s[k]) && s[k].kind->DenoApp_service_name == x
}

proof fn lemma_deno_unit_names(s: Seq<ServiceView>)
    requires
        forall|a: int, b: int|
            0 <= a < b < s.len() && is_deno(#[trigger] s[a]) && is_deno(#[trigger] s[b])
                ==> s[a].kind->DenoApp_service_name != s[b].kind->DenoApp_service_name,
    ensures
        deno_unit_names(s).no_duplicates(),
        forall|i: int| 0 <= i < deno_unit_names(s).len() ==> names_deno_unit(s, #[trigger] deno_unit_names(s)[i]),
    decreases s.len(),
{
    reveal_with_fuel(Seq::<_>::filter, 1);
    if s.len() > 0 {
        let p = s.drop_last();
        assert forall|a: int, b: int|
            0 <= a < b < p.len() && is_deno(#[trigger] p[a]) && is_deno(#[trigger] p[b])
                implies p[a].kind->DenoApp_service_name != p[b].kind->DenoApp_service_name by {
            assert(p[a] == s[a] && p[b] == s[b]);
        }
        lemma_deno_unit_names(p);
        assert(s.filter(|x: ServiceView| is_deno(x)) == if is_deno(s.last()) {
            p.filter(|x: ServiceView| is_deno(x)).push(s.last())
        } else {
            p.filter(|x: ServiceView| is_deno(x))
        });
        let d = deno_unit_names(p);
        assert forall|x: Text| names_deno_unit(p, x) implies names_deno_unit(s, x) by {
            let k = choose|k: int| 0 <= k < p.len() && is_deno(#[trigger] p[k]) && p[k].kind->DenoApp_service_name == x;
            assert(s[k] == p[k]);
        }
        if is_deno(s.last()) {
            let last = s.last().kind->DenoApp_service_name;
            assert(deno_unit_names(s) =~= d.push(last));
            assert forall|i: int| 0 <= i < d.len() implies d[i] != last by {
                assert(names_deno_unit(p, d[i]));
                let k = choose|k: int| 0 <= k < p.len() && is_deno(#[trigger] p[k]) && p[k].kind->DenoApp_service_name == d[i];
                assert(s[k] == p[k]);
                assert(is_deno(s[s.len() - 1]));
            }
            assert(s[s.len() - 1] == s.last());
            assert(names_deno_unit(s, last));
            assert forall|i: int| 0 <= i < deno_unit_names(s).len() implies names_deno_unit(s, #[trigger] deno_unit_names(s)[i]) by {
                if i < d.len() {
                    assert(deno_unit_names(s)[i] == d[i]);
                    assert(names_deno_unit(p, d[i]));
                }
            }
        } else {
            assert(deno_unit_names(s) =~= d);
            assert forall|i: int| 0 <= i < deno_unit_names(s).len() implies names_deno_unit(s, #[trigger] deno_unit_names(s)[i]) by {
                assert(deno_unit_names(s)[i] == d[i]);
                assert(names_deno_unit(p, d[i]));
            }
        }
    }
}

/// A validated map owns no systemd unit twice.
pub proof fn lemma_validated_unit_names_distinct(m: ServiceMapView, prefix: Text)
    requires
        map_conflict_free(m, prefix),
    ensures
        systemd_names_of(m).no_duplicates(),
{
    let s = m.services;
    assert forall|a: int, b: int|
        0 <= a < b < s.len() && is_deno(#[trigger] s[a]) && is_deno(#[trigger] s[b])
            implies s[a].kind->DenoApp_service_name != s[b].kind->DenoApp_service_name by {
        assert(services_disjoint(s[a], s[b]));
    }
    lemma_deno_unit_names(s);
    let d = deno_unit_names(s);
    assert(d == s.filter(|x: ServiceView| is_deno(x)).map_values(|x: ServiceView| x.kind->DenoApp_service_name));
    if let Some(pb) = m.pocketbase {
        assert forall|i: int| 0 <= i < d.len() implies d[i] != pb.service_name
            && (pb.warp_proxy matches Some(w) ==> d[i] != w.service_name) by {
            assert(names_deno_unit(s, d[i]));
            let k = choose|k: int| 0 <= k < s.len() && is_deno(#[trigger] s[k]) && s[k].kind->DenoApp_service_name == d[i];
            assert(is_deno_view(s[k]));
        }
        match pb.warp_proxy {
            Some(w) => {
                let n = d.push(w.service_name).push(pb.service_name);
                assert(systemd_names_of(m) == n);
                assert forall|i: int, j: int| 0 <= i < n.len() && 0 <= j < n.len() && i != j implies n[i] != n[j] by {
                    if i < d.len() && j < d.len() {
                        assert(n[i] == d[i] && n[j] == d[j]);
                    } else if i < d.len() {
                        assert(n[i] == d[i]);
                    } else if j < d.len() {
                        assert(n[j] == d[j]);
                    }
                }
            },
            None => {
                let n = d.push(pb.service_name);
                assert(systemd_names_of(m) == n);
                assert forall|i: int, j: int| 0 <= i < n.len() && 0 <= j < n.len() && i != j implies n[i] != n[j] by {
                    if i < d.len() && j < d.len() {
                        assert(n[i] == d[i] && n[j] == d[j]);
                    } else if i < d.len() {
                        assert(n[i] == d[i]);
                    } else if j < d.len() {
                        assert(n[j] == d[j]);
                    }
                }
            },
        }
    }
}

/// For a map that validation produced, rendered units that are sorted by
/// name and named after exactly the units the map owns (as `render_artifacts`
/// returns them) have strictly ascending names: each owned unit once, in
/// name order.
pub proof fn law_rendered_units_strictly_ascending(
    cfg: crate::config::types::ConfigView,
    config_path: Text,
    paths: crate::config::validation::ResolvedPathsView,
    units: Seq<SystemdUnitView>,
)
    requires
        validate_spec(cfg, config_path, paths) is Ok,
        sorted_by_name(units),
        unit_names(units).to_multiset() == systemd_names_of(validate_spec(cfg, config_path, paths)->Ok_0).to_multiset(),
    ensures
        forall|a: int, b: int| 0 <= a < b < units.len() ==> seq_less(#[trigger] units[a].name, #[trigger] units[b].name),
{
    let m = validate_spec(cfg, config_path, paths)->Ok_0;
    crate::config::validation::law_validated_map_is_conflict_free(cfg, config_path, paths);
    lemma_validated_unit_names_distinct(m, cfg.remote.managed_prefix);
    let t = systemd_names_of(m);
    let n = unit_names(units);
    t.lemma_multiset_has_no_duplicates();
    n.lemma_multiset_has_no_duplicates_conv();
    assert forall|a: int, b: int| 0 <= a < b < units.len() implies seq_less(#[trigger] units[a].name, #[trigger] units[b].name) by {
        assert(!seq_less(units[b].name, units[a].name));
        lemma_seq_less_total(units[a].name, units[b].name);
        assert(n[a] == units[a].name && n[b] == units[b].name);
    }
}

fn map_units(map: &ServiceMap) -> (r: Vec<SystemdUnit>)
    ensures
        units_view(r@) == units_of(map@),
{
    let deno = map.deno_services();
    let ghost f = map@.services.filter(|s: ServiceView| is_deno(s));
    proof {
        broadcast use vstd::seq_lib::group_filter_ensures;
    }
    let mut units: Vec<SystemdUnit> = Vec::new();
    let mut i: usize = 0;
    while i < deno.len()
        invariant
            i <= deno@.len(),
            deno@.map_values(|s: &ResolvedService| s@) == f,
            f == map@.services.filter(|s: ServiceView| is_deno(s)),
            forall|k: int| 0 <= k < f.len() ==> is_deno(#[trigger] f[k]),
            units_view(units@) =~= f.take(i as int).map_values(
                |s: ServiceView| deno_unit_of(map@.remote.deno_bin, s),
            ),
        decreases deno@.len() - i,
    {
        let service: &ResolvedService = deno[i];
        proof {
            assert(f[i as int] == service@);
            assert(is_deno(f[i as int]));
            assert(f.take(i + 1) =~= f.take(i as int).push(f[i as int]));
        }
        let u = render_systemd_unit(map, service);
        let ghost prev = units@;
        units.push(u);
        assert(units_view(units@) =~= units_view(prev).push(u@));
        i = i + 1;
    }
    assert(f.take(deno@.len() as int) =~= f);
    let ghost deno_units = units_view(units@);
    if let Some(pb) = &map.pocketbase {
        if let Some(w) = &pb.warp_proxy {
            units.push(render_warp_proxy_systemd_unit(pb, w));
        }
        units.push(render_pocketbase_systemd_unit(pb));
    }
    assert(units_view(units@) =~= units_of(map@));
    units
}

/// Sorts the units by name.
fn sort_units(units: Vec<SystemdUnit>) -> (r: Vec<SystemdUnit>)
    ensures
        sorted_by_name(units_view(r@)),
        units_view(r@).to_multiset() == units_view(units@).to_multiset(),
        unit_names(units_view(r@)).to_multiset() == unit_names(units_view(units@)).to_multiset(),
{
    broadcast use vstd::seq_lib::to_multiset_insert;

    let ghost input = units_view(units@);
    let ghost n = input.len();
    let mut rest = units;
    let mut out: Vec<SystemdUnit> = Vec::new();
    let ghost mut i: int = 0;
    assert(units_view(out@) =~= input.take(0));
    assert(units_view(rest@) =~= input.subrange(0, n as int));
    while rest.len() > 0
        invariant
            0 <= i <= n,
            n == input.len(),
            units_view(rest@) =~= input.subrange(i, n as int),
            sorted_by_name(units_view(out@)),
            units_view(out@).to_multiset() == input.take(i).to_multiset(),
            unit_names(units_view(out@)).to_multiset() == unit_names(input.take(i)).to_multiset(),
        decreases rest@.len(),
    {
        let ghost rest_before = rest@;
        let u = rest.remove(0);
        proof {
            assert(units_view(rest_before).len() == n - i);
            assert(units_view(rest_before)[0] == rest_before[0]@);
            assert(u@ == input[i]);
            assert(rest@ =~= rest_before.subrange(1, rest_before.len() as int));
            assert(units_view(rest@) =~= units_view(rest_before).subrange(1, rest_before.len() as int));
            assert(input.subrange(i, n as int).subrange(1, n - i) =~= input.subrange(i + 1, n as int));
        }
        let ghost ov = units_view(out@);
        let mut j: usize = 0;
        while j < out.len() && !str_less(u.name.as_str(), out[j].name.as_str())
            invariant
                j <= out@.len(),
                ov == units_view(out@),
                forall|k: int| 0 <= k < j ==> !seq_less(u@.name, #[trigger] ov[k].name),
            decreases out@.len() - j,
        {
            assert(ov[j as int] == out@[j as int]@);
            j = j + 1;
        }
        proof {
            if j < out@.len() {
                assert(ov[j as int] == out@[j as int]@);
                assert(seq_less(u@.name, ov[j as int].name));
            }
        }
        let ghost uv = u@;
        out.insert(j, u);
        proof {
            let nv = units_view(out@);
            assert(nv =~= ov.insert(j as int, uv));
            assert forall|a: int, b: int| 0 <= a < b < nv.len() implies !seq_less(#[trigger] nv[b].name, #[trigger] nv[a].name) by {
                if b < j {
                    assert(nv[a] == ov[a] && nv[b] == ov[b]);
                } else if b == j {
                    assert(nv[a] == ov[a]);
                    assert(!seq_less(uv.name, ov[a].name));
                } else if a == j {
                    assert(nv[b] == ov[b - 1]);
                    if seq_less(ov[b - 1].name, uv.name) {
                        if b - 1 > j {
                            assert(!seq_less(ov[b - 1].name, ov[j as int].name));
                        }
                        lemma_seq_less_transitive(ov[b - 1].name, uv.name, ov[j as int].name);
                        lemma_seq_less_irreflexive(ov[j as int].name);
                    }
                } else if a < j {
                    assert(nv[a] == ov[a] && nv[b] == ov[b - 1]);
                } else {
                    assert(nv[a] == ov[a - 1] && nv[b] == ov[b - 1]);
                }
            }
            assert(input.take(i + 1) =~= input.take(i).push(input[i]));
            assert(unit_names(nv) =~= unit_names(ov).insert(j as int, uv.name));
            assert(unit_names(input.take(i + 1)) =~= unit_names(input.take(i)).push(uv.name));
            vstd::seq_lib::to_multiset_build(input.take(i), input[i]);
            vstd::seq_lib::to_multiset_build(unit_names(input.take(i)), uv.name);
            vstd::seq_lib::to_multiset_insert(ov, j as int, uv);
            vstd::seq_lib::to_multiset_insert(unit_names(ov), j as int, uv.name);
            assert(nv.to_multiset() == input.take(i + 1).to_multiset());
            assert(unit_names(nv).to_multiset() == unit_names(input.take(i + 1)).to_multiset());
            i = i + 1;
        }
    }
    proof {
        assert(input.take(i) =~= input);
    }
    out
}

/// Renders the Caddyfile and the unit files of the map, the units sorted by
/// file name.
pub fn render_artifacts(map: &ServiceMap) -> (r: RenderedArtifacts)
    ensures
        r.caddyfile@ == caddyfile_of(map@),
        sorted_by_name(units_view(r.systemd_units@)),
        units_view(r.systemd_units@).to_multiset() == units_of(map@).to_multiset(),
        unit_names(units_view(r.systemd_units@)).to_multiset() == systemd_names_of(map@).to_multiset(),
{
    let units = map_units(map);
    proof {
        lemma_unit_names(map@);
    }
    let systemd_units = sort_units(units);
    RenderedArtifacts { caddyfile: render_caddyfile(map), systemd_units }
}

/// The files that rendering writes: the Caddyfile at its path, then each
/// unit file under the systemd directory, named after the unit.
pub open spec fn artifact_files_of(caddyfile: Text, units: Seq<SystemdUnitView>, paths: RenderedPathsView) -> Seq<
    (Text, Text),
> {
    seq![(paths.caddyfile, caddyfile)] + units.map_values(
        |u: SystemdUnitView| (join_path(paths.systemd_dir, u.name), u.content),
    )
}

/// Where each rendered artifact is written, with its contents.
pub fn artifact_files(artifacts: RenderedArtifacts, paths: &RenderedPaths) -> (r: Vec<(String, String)>)
    ensures
        r@.map_values(|f: (String, String)| (f.0@, f.1@)) == artifact_files_of(
            artifacts.caddyfile@,
            units_view(artifacts.systemd_units@),
            paths@,
        ),
{
    let ghost caddy = artifacts.caddyfile@;
    let ghost uv = units_view(artifacts.systemd_units@);
    let RenderedArtifacts { caddyfile, systemd_units } = artifacts;
    let mut files: Vec<(String, String)> = Vec::new();
    files.push((paths.caddyfile.clone(), caddyfile));
    let mut rest = systemd_units;
    let ghost n = uv.len();
    let ghost mut i: int = 0;
    assert(units_view(rest@) =~= uv.subrange(0, n as int));
    while rest.len() > 0
        invariant
            0 <= i <= n,
            n == uv.len(),
            units_view(rest@) =~= uv.subrange(i, n as int),
            files@.map_values(|f: (String, String)| (f.0@, f.1@)) =~= artifact_files_of(
                caddy,
                uv.take(i),
                paths@,
            ),
        decreases rest@.len(),
    {
        let ghost before = rest@;
        let unit = rest.remove(0);
        proof {
            assert(units_view(before).len() == n - i);
            assert(units_view(before)[0] == before[0]@);
            assert(unit@ == uv[i]);
            assert(rest@ =~= before.subrange(1, before.len() as int));
            assert(units_view(rest@) =~= units_view(before).subrange(1, before.len() as int));
            assert(uv.subrange(i, n as int).subrange(1, n - i) =~= uv.subrange(i + 1, n as int));
        }
        let SystemdUnit { name, content } = unit;
        let path = path_join(paths.systemd_dir.as_str(), name.as_str());
        let ghost prev = files@;
        files.push((path, content));
        proof {
            assert(uv.take(i + 1) =~= uv.take(i).push(uv[i]));
            assert(files@.map_values(|f: (String, String)| (f.0@, f.1@)) =~= prev.map_values(
                |f: (String, String)| (f.0@, f.1@),
            ).push((join_path(paths@.systemd_dir, uv[i].name), uv[i].content)));
            i = i + 1;
        }
    }
    proof {
        assert(uv.take(i) =~= uv);
    }
    files
}

} // verus!
