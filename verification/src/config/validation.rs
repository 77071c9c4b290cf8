//! Turning a configuration into a validated service map.
//!
//! The file-system facts that validation needs (the canonical configuration
//! directory and the canonical form of each local path, when it exists) are
//! looked up by the caller and handed in as `ResolvedPaths`; everything else
//! is decided here.
use vstd::prelude::*;

use crate::config::checks::{
    concat2, concat3, entrypoint_error, environment_key_error, generated_service_name,
    generated_service_name_spec, host_error, normalize_route_path, normalize_route_path_spec,
    remote_path_error, service_name_error, sync_source_error, systemd_name_error, token_error,
    validate_entrypoint, validate_environment_key, validate_host, validate_remote_path,
    validate_service_name, validate_sync_source, validate_systemd_service_name, validate_token,
    build_error, validate_build,
};
use crate::config::types::{BuildConfig, Config, ConfigView, PocketBaseConfig, PocketBaseConfigView,
    PocketBaseView, RemoteConfig, RemoteView, ResolvedPocketBase, ResolvedService,
    ResolvedServiceKind, ResolvedWarpProxy, ServiceConfig, ServiceConfigView, ServiceKind,
    ServiceKindView, ServiceMap, ServiceMapView, ServiceView, Text, WarpProxyConfigView,
    WarpProxyView, opt_build_view, services_view};
use crate::env::EnvVars;
use crate::paths::{is_under, join_path, path_is_under, path_join, path_parent, path_parent_of};
use crate::text::{decimal, is_blank, opt_view, str_eq, str_is_blank, strings_view, to_string,
    u64_to_decimal};

verus! {

// ---------------------------------------------------------------------------
// What validation needs from the file system
// ---------------------------------------------------------------------------

/// Canonical paths looked up on the file system before validation.
///
/// `root` is the canonical directory of the configuration file; the `i`-th
/// entry of `local_paths` is the canonical form of service `i`'s local path
/// joined to `root` (`None` when it does not exist; a missing entry counts
/// as `None`), and `pocketbase_source` likewise for PocketBase's source path.
#[derive(Debug)]
pub struct ResolvedPaths {
    pub root: Option<String>,
    pub local_paths: Vec<Option<String>>,
    pub pocketbase_source: Option<String>,
}

pub struct ResolvedPathsView {
    pub root: Option<Text>,
    pub local_paths: Seq<Option<Text>>,
    pub pocketbase_source: Option<Text>,
}

impl View for ResolvedPaths {
    type V = ResolvedPathsView;

    open spec fn view(&self) -> ResolvedPathsView {
        ResolvedPathsView {
            root: opt_view(&self.root),
            local_paths: self.local_paths@.map_values(|o: Option<String>| opt_view(&o)),
            pocketbase_source: opt_view(&self.pocketbase_source),
        }
    }
}

pub open spec fn local_path_at(paths: Seq<Option<Text>>, i: int) -> Option<Text> {
    if 0 <= i < paths.len() {
        paths[i]
    } else {
        None
    }
}

// ---------------------------------------------------------------------------
// What has been claimed so far
// ---------------------------------------------------------------------------

/// Service names, ports, Caddy routes and systemd units taken so far.
pub struct Registry {
    pub names: Seq<Text>,
    pub ports: Seq<u16>,
    pub routes: Seq<Text>,
    pub units: Seq<Text>,
}

pub open spec fn empty_registry() -> Registry {
    Registry { names: seq![], ports: seq![], routes: seq![], units: seq![] }
}

struct Seen {
    names: Vec<String>,
    ports: Vec<u16>,
    routes: Vec<String>,
    units: Vec<String>,
}

impl View for Seen {
    type V = Registry;

    closed spec fn view(&self) -> Registry {
        Registry {
            names: strings_view(self.names@),
            ports: self.ports@,
            routes: strings_view(self.routes@),
            units: strings_view(self.units@),
        }
    }
}

fn contains_string(v: &Vec<String>, s: &str) -> (r: bool)
    ensures
        r == strings_view(v@).contains(s@),
{
    let mut i: usize = 0;
    while i < v.len()
        invariant
            i <= v@.len(),
            forall|j: int| 0 <= j < i ==> v@[j]@ != s@,
        decreases v@.len() - i,
    {
        if str_eq(v[i].as_str(), s) {
            assert(strings_view(v@)[i as int] == s@);
            return true;
        }
        i = i + 1;
    }
    assert forall|j: int| 0 <= j < strings_view(v@).len() implies strings_view(v@)[j] != s@ by {
        assert(strings_view(v@)[j] == v@[j]@);
    }
    false
}

fn contains_u16(v: &Vec<u16>, x: u16) -> (r: bool)
    ensures
        r == v@.contains(x),
{
    let mut i: usize = 0;
    while i < v.len()
        invariant
            i <= v@.len(),
            forall|j: int| 0 <= j < i ==> v@[j] != x,
        decreases v@.len() - i,
    {
        if v[i] == x {
            return true;
        }
        i = i + 1;
    }
    false
}

fn push_string(v: &mut Vec<String>, s: &str)
    ensures
        strings_view(final(v)@) == strings_view(old(v)@).push(s@),
{
    let t = to_string(s);
    let ghost prev = v@;
    v.push(t);
    assert(strings_view(v@) =~= strings_view(prev).push(s@));
}

// ---------------------------------------------------------------------------
// The remote section
// ---------------------------------------------------------------------------

pub open spec fn or_else(a: Option<Text>, b: Option<Text>) -> Option<Text> {
    if a is Some {
        a
    } else {
        b
    }
}

pub open spec fn required_error(value: Text, message: Text) -> Option<Text> {
    if is_blank(value) {
        Some(message)
    } else {
        None
    }
}

/// The first problem with the remote settings, in the order they are checked.
pub open spec fn remote_error(r: RemoteView) -> Option<Text> {
    or_else(
        match r.host {
            Some(h) => host_error("remote.host"@, h),
            None => None,
        },
        or_else(
            match r.user {
                Some(u) => required_error(u, "remote.user must not be empty when set"@),
                None => None,
            },
            or_else(
                required_error(r.ssh_program, "remote.ssh_program is required"@),
                or_else(
                    required_error(r.rsync_program, "remote.rsync_program is required"@),
                    or_else(
                        required_error(r.managed_prefix, "remote.managed_prefix is required"@),
                        or_else(
                            remote_path_error("remote.tmp_dir"@, r.tmp_dir),
                            or_else(
                                remote_path_error("remote.caddyfile_path"@, r.caddyfile_path),
                                or_else(
                                    remote_path_error("remote.systemd_dir"@, r.systemd_dir),
                                    required_error(r.deno_bin, "remote.deno_bin is required"@),
                                ),
                            ),
                        ),
                    ),
                ),
            ),
        ),
    )
}

fn validate_remote(remote: &RemoteConfig) -> (r: Result<(), String>)
    ensures
        r is Ok <==> remote_error(remote@) is None,
        r matches Err(e) ==> Some(e@) == remote_error(remote@),
{
    if let Some(host) = &remote.host {
        match validate_host("remote.host", host.as_str()) {
            Ok(()) => {},
            Err(e) => return Err(e),
        }
    }
    if let Some(user) = &remote.user {
        if str_is_blank(user.as_str()) {
            return Err(to_string("remote.user must not be empty when set"));
        }
    }
    if str_is_blank(remote.ssh_program.as_str()) {
        return Err(to_string("remote.ssh_program is required"));
    }
    if str_is_blank(remote.rsync_program.as_str()) {
        return Err(to_string("remote.rsync_program is required"));
    }
    if str_is_blank(remote.managed_prefix.as_str()) {
        return Err(to_string("remote.managed_prefix is required"));
    }
    match validate_remote_path("remote.tmp_dir", remote.tmp_dir.as_str()) {
        Ok(()) => {},
        Err(e) => return Err(e),
    }
    match validate_remote_path("remote.caddyfile_path", remote.caddyfile_path.as_str()) {
        Ok(()) => {},
        Err(e) => return Err(e),
    }
    match validate_remote_path("remote.systemd_dir", remote.systemd_dir.as_str()) {
        Ok(()) => {},
        Err(e) => return Err(e),
    }
    if str_is_blank(remote.deno_bin.as_str()) {
        return Err(to_string("remote.deno_bin is required"));
    }
    Ok(())
}


// ---------------------------------------------------------------------------
// PocketBase
// ---------------------------------------------------------------------------

/// The WARP proxy unit that belongs to a PocketBase unit: `<unit stem>-warp-proxy.service`.
pub open spec fn warp_unit_name(unit: Text) -> Text {
    unit.subrange(0, unit.len() - ".service"@.len()) + "-warp-proxy.service"@
}

pub open spec fn duplicate_unit_error(unit: Text) -> Text {
    "duplicate systemd service `"@ + unit + "`"@
}

pub open spec fn resolve_warp_spec(
    w: Option<WarpProxyConfigView>,
    pb_name: Text,
    prefix: Text,
    unit: Text,
    reg: Registry,
) -> Result<(Registry, Option<WarpProxyView>), Text> {
    match w {
        None => Ok((reg, None)),
        Some(w) => if w.port == 0 {
            Err("pocketbase.warp_proxy.port must be greater than 0"@)
        } else {
            match or_else(
                remote_path_error("pocketbase.warp_proxy.cli"@, w.cli),
                token_error("pocketbase.warp_proxy.daemon_service"@, w.daemon_service),
            ) {
                Some(e) => Err(e),
                None => {
                    let name = warp_unit_name(unit);
                    match systemd_name_error(pb_name, prefix, name) {
                        Some(e) => Err(e),
                        None => if reg.units.contains(name) {
                            Err(duplicate_unit_error(name))
                        } else {
                            Ok(
                                (
                                    Registry { units: reg.units.push(name), ..reg },
                                    Some(
                                        WarpProxyView {
                                            port: w.port,
                                            cli: w.cli,
                                            daemon_service: w.daemon_service,
                                            service_name: name,
                                        },
                                    ),
                                ),
                            )
                        },
                    }
                },
            }
        },
    }
}

pub open spec fn opt_remote_path_error(label: Text, path: Option<Text>) -> Option<Text> {
    match path {
        Some(p) => remote_path_error(label, p),
        None => None,
    }
}

/// The first problem with PocketBase's paths and settings, in checking order.
pub open spec fn pocketbase_settings_error(pb: PocketBaseConfigView) -> Option<Text> {
    or_else(
        remote_path_error("pocketbase.remote_path"@, pb.remote_path),
        or_else(
            remote_path_error("pocketbase.data_dir"@, pb.data_dir),
            or_else(
                remote_path_error("pocketbase.binary"@, pb.binary),
                or_else(
                    opt_remote_path_error("pocketbase.backup_dir"@, pb.backup_dir),
                    or_else(
                        opt_remote_path_error("pocketbase.environment_file"@, pb.environment_file),
                        or_else(
                            token_error(
                                "pocketbase.request_body_max_size"@,
                                pb.request_body_max_size,
                            ),
                            or_else(
                                token_error("pocketbase.read_timeout"@, pb.read_timeout),
                                match pb.encryption_env {
                                    Some(k) => environment_key_error(
                                        "pocketbase.encryption_env"@,
                                        k,
                                    ),
                                    None => None,
                                },
                            ),
                        ),
                    ),
                ),
            ),
        ),
    )
}

pub open spec fn pocketbase_unit_of(pb: PocketBaseConfigView, prefix: Text) -> Text {
    match pb.service_name {
        Some(n) => n,
        None => generated_service_name_spec(prefix, pb.name),
    }
}

/// Resolving the PocketBase section: what it reports, or the registry after
/// claiming its port, route and units together with the resolved section.
pub open spec fn resolve_pocketbase_spec(
    pb: PocketBaseConfigView,
    root: Text,
    prefix: Text,
    reg: Registry,
    source: Option<Text>,
) -> Result<(Registry, PocketBaseView), Text> {
    let route = pb.host + ":/"@;
    let unit = pocketbase_unit_of(pb, prefix);
    match or_else(service_name_error(pb.name), host_error("pocketbase.host"@, pb.host)) {
        Some(e) => Err(e),
        None => if pb.port == 0 {
            Err("pocketbase port must be greater than 0"@)
        } else if reg.ports.contains(pb.port) {
            Err("duplicate Deno/PocketBase port `"@ + decimal(pb.port as nat) + "`"@)
        } else if reg.routes.contains(route) {
            Err("duplicate Caddy route `"@ + route + "`"@)
        } else {
            match systemd_name_error(pb.name, prefix, unit) {
                Some(e) => Err(e),
                None => if reg.units.contains(unit) {
                    Err(duplicate_unit_error(unit))
                } else {
                    match source {
                        None => Err("local_path `"@ + pb.source_path + "` does not exist"@),
                        Some(src) => if !is_under(src, root) {
                            Err("pocketbase source_path must be under `"@ + root + "`"@)
                        } else {
                            match pocketbase_settings_error(pb) {
                                Some(e) => Err(e),
                                None => if pb.encryption_env is Some && pb.environment_file is None {
                                    Err(
                                        "pocketbase.encryption_env requires pocketbase.environment_file so systemd can load the secret"@,
                                    )
                                } else {
                                    let reg1 = Registry {
                                        ports: reg.ports.push(pb.port),
                                        routes: reg.routes.push(route),
                                        units: reg.units.push(unit),
                                        ..reg
                                    };
                                    match resolve_warp_spec(pb.warp_proxy, pb.name, prefix, unit, reg1) {
                                        Err(e) => Err(e),
                                        Ok((reg2, warp)) => Ok(
                                            (
                                                reg2,
                                                PocketBaseView {
                                                    name: pb.name,
                                                    host: pb.host,
                                                    source_path: src,
                                                    remote_path: pb.remote_path,
                                                    data_dir: pb.data_dir,
                                                    backup_dir: pb.backup_dir,
                                                    port: pb.port,
                                                    binary: pb.binary,
                                                    service_name: unit,
                                                    environment_file: pb.environment_file,
                                                    request_body_max_size: pb.request_body_max_size,
                                                    read_timeout: pb.read_timeout,
                                                    encryption_env: pb.encryption_env,
                                                    warp_proxy: warp,
                                                },
                                            ),
                                        ),
                                    }
                                },
                            }
                        },
                    }
                },
            }
        },
    }
}

fn duplicate_unit_message(unit: &str) -> (r: String)
    ensures
        r@ == duplicate_unit_error(unit@),
{
    concat3("duplicate systemd service `", unit, "`")
}

fn resolve_warp_proxy(
    warp: Option<crate::config::types::WarpProxyConfig>,
    pb_name: &str,
    prefix: &str,
    unit: &str,
    seen: &mut Seen,
) -> (r: Result<Option<ResolvedWarpProxy>, String>)
    requires
        ".service"@.is_suffix_of(unit@),
    ensures
        match r {
            Ok(w) => resolve_warp_spec(
                match warp {
                    Some(w) => Some(w@),
                    None => None,
                },
                pb_name@,
                prefix@,
                unit@,
                old(seen)@,
            ) == Ok::<(Registry, Option<WarpProxyView>), Text>(
                (
                    final(seen)@,
                    match w {
                        Some(w) => Some(w@),
                        None => None,
                    },
                ),
            ),
            Err(e) => resolve_warp_spec(
                match warp {
                    Some(w) => Some(w@),
                    None => None,
                },
                pb_name@,
                prefix@,
                unit@,
                old(seen)@,
            ) == Err::<(Registry, Option<WarpProxyView>), Text>(e@),
        },
{
    let w = match warp {
        None => return Ok(None),
        Some(w) => w,
    };
    if w.port == 0 {
        return Err(to_string("pocketbase.warp_proxy.port must be greater than 0"));
    }
    match validate_remote_path("pocketbase.warp_proxy.cli", w.cli.as_str()) {
        Ok(()) => {},
        Err(e) => return Err(e),
    }
    match validate_token("pocketbase.warp_proxy.daemon_service", w.daemon_service.as_str()) {
        Ok(()) => {},
        Err(e) => return Err(e),
    }
    let n = unit.unicode_len();
    let m = ".service".unicode_len();
    let mut name = to_string(unit.substring_char(0, n - m));
    name.append("-warp-proxy.service");
    match validate_systemd_service_name(pb_name, prefix, name.as_str()) {
        Ok(()) => {},
        Err(e) => return Err(e),
    }
    if contains_string(&seen.units, name.as_str()) {
        return Err(duplicate_unit_message(name.as_str()));
    }
    push_string(&mut seen.units, name.as_str());
    Ok(
        Some(
            ResolvedWarpProxy {
                port: w.port,
                cli: w.cli,
                daemon_service: w.daemon_service,
                service_name: name,
            },
        ),
    )
}

fn resolve_pocketbase(
    pocketbase: PocketBaseConfig,
    root: &str,
    managed_prefix: &str,
    seen: &mut Seen,
    source: Option<String>,
) -> (r: Result<ResolvedPocketBase, String>)
    ensures
        match r {
            Ok(p) => resolve_pocketbase_spec(
                pocketbase@,
                root@,
                managed_prefix@,
                old(seen)@,
                opt_view(&source),
            ) == Ok::<(Registry, PocketBaseView), Text>((final(seen)@, p@)),
            Err(e) => resolve_pocketbase_spec(
                pocketbase@,
                root@,
                managed_prefix@,
                old(seen)@,
                opt_view(&source),
            ) == Err::<(Registry, PocketBaseView), Text>(e@),
        },
{
    let ghost pb = pocketbase@;
    match validate_service_name(pocketbase.name.as_str()) {
        Ok(()) => {},
        Err(e) => return Err(e),
    }
    match validate_host("pocketbase.host", pocketbase.host.as_str()) {
        Ok(()) => {},
        Err(e) => return Err(e),
    }
    if pocketbase.port == 0 {
        return Err(to_string("pocketbase port must be greater than 0"));
    }
    if contains_u16(&seen.ports, pocketbase.port) {
        let port = u64_to_decimal(pocketbase.port as u64);
        return Err(concat3("duplicate Deno/PocketBase port `", port.as_str(), "`"));
    }
    let route_key = concat2(pocketbase.host.as_str(), ":/");
    if contains_string(&seen.routes, route_key.as_str()) {
        return Err(concat3("duplicate Caddy route `", route_key.as_str(), "`"));
    }
    let service_name = match &pocketbase.service_name {
        Some(n) => to_string(n.as_str()),
        None => generated_service_name(managed_prefix, pocketbase.name.as_str()),
    };
    assert(service_name@ == pocketbase_unit_of(pb, managed_prefix@));
    match validate_systemd_service_name(
        pocketbase.name.as_str(),
        managed_prefix,
        service_name.as_str(),
    ) {
        Ok(()) => {},
        Err(e) => return Err(e),
    }
    if contains_string(&seen.units, service_name.as_str()) {
        return Err(duplicate_unit_message(service_name.as_str()));
    }
    let source_path = match source {
        Some(s) => s,
        None => {
            return Err(concat3("local_path `", pocketbase.source_path.as_str(), "` does not exist"));
        },
    };
    if !path_is_under(source_path.as_str(), root) {
        return Err(concat3("pocketbase source_path must be under `", root, "`"));
    }
    match validate_remote_path("pocketbase.remote_path", pocketbase.remote_path.as_str()) {
        Ok(()) => {},
        Err(e) => return Err(e),
    }
    match validate_remote_path("pocketbase.data_dir", pocketbase.data_dir.as_str()) {
        Ok(()) => {},
        Err(e) => return Err(e),
    }
    match validate_remote_path("pocketbase.binary", pocketbase.binary.as_str()) {
        Ok(()) => {},
        Err(e) => return Err(e),
    }
    if let Some(backup_dir) = &pocketbase.backup_dir {
        match validate_remote_path("pocketbase.backup_dir", backup_dir.as_str()) {
            Ok(()) => {},
            Err(e) => return Err(e),
        }
    }
    if let Some(environment_file) = &pocketbase.environment_file {
        match validate_remote_path("pocketbase.environment_file", environment_file.as_str()) {
            Ok(()) => {},
            Err(e) => return Err(e),
        }
    }
    match validate_token(
        "pocketbase.request_body_max_size",
        pocketbase.request_body_max_size.as_str(),
    ) {
        Ok(()) => {},
        Err(e) => return Err(e),
    }
    match validate_token("pocketbase.read_timeout", pocketbase.read_timeout.as_str()) {
        Ok(()) => {},
        Err(e) => return Err(e),
    }
    if let Some(encryption_env) = &pocketbase.encryption_env {
        match validate_environment_key("pocketbase.encryption_env", encryption_env.as_str()) {
            Ok(()) => {},
            Err(e) => return Err(e),
        }
    }
    assert(pocketbase_settings_error(pb) is None);
    if pocketbase.encryption_env.is_some() && pocketbase.environment_file.is_none() {
        return Err(
            to_string(
                "pocketbase.encryption_env requires pocketbase.environment_file so systemd can load the secret",
            ),
        );
    }
    seen.ports.push(pocketbase.port);
    push_string(&mut seen.routes, route_key.as_str());
    push_string(&mut seen.units, service_name.as_str());
    let warp_proxy = match resolve_warp_proxy(
        pocketbase.warp_proxy,
        pocketbase.name.as_str(),
        managed_prefix,
        service_name.as_str(),
        seen,
    ) {
        Ok(w) => w,
        Err(e) => return Err(e),
    };
    Ok(
        ResolvedPocketBase {
            name: pocketbase.name,
            host: pocketbase.host,
            source_path,
            remote_path: pocketbase.remote_path,
            data_dir: pocketbase.data_dir,
            backup_dir: pocketbase.backup_dir,
            port: pocketbase.port,
            binary: pocketbase.binary,
            service_name,
            environment_file: pocketbase.environment_file,
            request_body_max_size: pocketbase.request_body_max_size,
            read_timeout: pocketbase.read_timeout,
            encryption_env: pocketbase.encryption_env,
            warp_proxy,
        },
    )
}

// ---------------------------------------------------------------------------
// Services
// ---------------------------------------------------------------------------

/// The route a service is mounted at: Deno apps default to `/`, static sites must give one.
pub open spec fn service_route_spec(svc: ServiceConfigView) -> Result<Text, Text> {
    match svc.route_path {
        Some(p) => normalize_route_path_spec(p),
        None => match svc.kind {
            ServiceKind::DenoApp => Ok("/"@),
            ServiceKind::StaticSite => Err("static_site `"@ + svc.name + "` requires route_path"@),
        },
    }
}

pub open spec fn service_unit_of(svc: ServiceConfigView, prefix: Text) -> Text {
    match svc.service_name {
        Some(n) => n,
        None => generated_service_name_spec(prefix, svc.name),
    }
}

/// Resolving what a service runs as: Deno apps need a fresh non-zero port, an
/// entrypoint and a fresh systemd unit.
pub open spec fn service_kind_spec(svc: ServiceConfigView, prefix: Text, reg: Registry) -> Result<
    (Registry, ServiceKindView),
    Text,
> {
    match svc.kind {
        ServiceKind::StaticSite => Ok((reg, ServiceKindView::StaticSite)),
        ServiceKind::DenoApp => match svc.port {
            None => Err("deno_app `"@ + svc.name + "` requires port"@),
            Some(port) => match svc.entrypoint {
                None => Err("deno_app `"@ + svc.name + "` requires entrypoint"@),
                Some(entrypoint) => if port == 0 {
                    Err("deno_app `"@ + svc.name + "` port must be greater than 0"@)
                } else if reg.ports.contains(port) {
                    Err("duplicate Deno port `"@ + decimal(port as nat) + "`"@)
                } else {
                    let unit = service_unit_of(svc, prefix);
                    match or_else(
                        entrypoint_error(svc.name, entrypoint),
                        systemd_name_error(svc.name, prefix, unit),
                    ) {
                        Some(e) => Err(e),
                        None => if reg.units.contains(unit) {
                            Err(duplicate_unit_error(unit))
                        } else {
                            Ok(
                                (
                                    Registry {
                                        ports: reg.ports.push(port),
                                        units: reg.units.push(unit),
                                        ..reg
                                    },
                                    ServiceKindView::DenoApp {
                                        port,
                                        entrypoint,
                                        service_name: unit,
                                        environment: svc.environment,
                                    },
                                ),
                            )
                        },
                    }
                },
            },
        },
    }
}

/// `root/src/submodules`, where services are normally checked out.
pub open spec fn submodules_root_of(root: Text) -> Text {
    join_path(join_path(root, "src"@), "submodules"@)
}

/// The directory that holds the repository itself and its sibling checkouts.
pub open spec fn repositories_root_of(root: Text) -> Text {
    match path_parent_of(root) {
        Some(p) => p,
        None => root,
    }
}

/// Resolving one service against what earlier entries have claimed.
pub open spec fn resolve_service_spec(
    svc: ServiceConfigView,
    local: Option<Text>,
    root: Text,
    primary_host: Text,
    prefix: Text,
    reg: Registry,
) -> Result<(Registry, ServiceView), Text> {
    let submodules = submodules_root_of(root);
    let repos = repositories_root_of(root);
    let host = match svc.host {
        Some(h) => h,
        None => primary_host,
    };
    match service_name_error(svc.name) {
        Some(e) => Err(e),
        None => if reg.names.contains(svc.name) {
            Err("duplicate service name `"@ + svc.name + "`"@)
        } else {
            match local {
                None => Err("local_path `"@ + svc.local_path + "` does not exist"@),
                Some(lp) => if !(is_under(lp, submodules) || is_under(lp, repos)) {
                    Err(
                        "service `"@ + svc.name + "` local_path must be under `"@ + submodules
                            + "` or sibling repo root `"@ + repos + "`"@,
                    )
                } else {
                    match or_else(
                        sync_source_error(svc.name, svc.sync_source),
                        or_else(
                            remote_path_error(svc.name, svc.remote_path),
                            host_error("service `"@ + svc.name + "` host"@, host),
                        ),
                    ) {
                        Some(e) => Err(e),
                        None => match service_route_spec(svc) {
                            Err(e) => Err(e),
                            Ok(route) => {
                                let key = host + ":"@ + route;
                                if reg.routes.contains(key) {
                                    Err("duplicate Caddy route `"@ + key + "`"@)
                                } else {
                                    let reg1 = Registry {
                                        names: reg.names.push(svc.name),
                                        routes: reg.routes.push(key),
                                        ..reg
                                    };
                                    match service_kind_spec(svc, prefix, reg1) {
                                        Err(e) => Err(e),
                                        Ok((reg2, kind)) => match build_error(svc.name, svc.build) {
                                            Some(e) => Err(e),
                                            None => Ok(
                                                (
                                                    reg2,
                                                    ServiceView {
                                                        name: svc.name,
                                                        kind,
                                                        local_path: lp,
                                                        remote_path: svc.remote_path,
                                                        sync_source: svc.sync_source,
                                                        host,
                                                        route_path: route,
                                                        build: svc.build,
                                                    },
                                                ),
                                            ),
                                        },
                                    }
                                }
                            },
                        },
                    }
                },
            }
        },
    }
}

/// Resolving services `i..` in order; the first error stops the walk.
pub open spec fn resolve_services_from(
    svcs: Seq<ServiceConfigView>,
    locals: Seq<Option<Text>>,
    i: int,
    root: Text,
    primary_host: Text,
    prefix: Text,
    reg: Registry,
) -> Result<(Registry, Seq<ServiceView>), Text>
    decreases svcs.len() - i,
{
    if i < 0 || i >= svcs.len() {
        Ok((reg, seq![]))
    } else {
        match resolve_service_spec(svcs[i], local_path_at(locals, i), root, primary_host, prefix, reg) {
            Err(e) => Err(e),
            Ok((reg1, sv)) => match resolve_services_from(
                svcs,
                locals,
                i + 1,
                root,
                primary_host,
                prefix,
                reg1,
            ) {
                Err(e) => Err(e),
                Ok((reg2, rest)) => Ok((reg2, seq![sv] + rest)),
            },
        }
    }
}

fn resolve_service_kind(
    name: &str,
    kind: ServiceKind,
    port: Option<u16>,
    entrypoint: Option<String>,
    service_name: Option<String>,
    environment: EnvVars,
    managed_prefix: &str,
    seen: &mut Seen,
    Ghost(svc): Ghost<ServiceConfigView>,
) -> (r: Result<ResolvedServiceKind, String>)
    requires
        svc.name == name@,
        svc.kind == kind,
        svc.port == port,
        svc.entrypoint == opt_view(&entrypoint),
        svc.service_name == opt_view(&service_name),
        svc.environment == environment@,
    ensures
        match r {
            Ok(k) => service_kind_spec(svc, managed_prefix@, old(seen)@) == Ok::<
                (Registry, ServiceKindView),
                Text,
            >((final(seen)@, k@)),
            Err(e) => service_kind_spec(svc, managed_prefix@, old(seen)@) == Err::<
                (Registry, ServiceKindView),
                Text,
            >(e@),
        },
{
    match kind {
        ServiceKind::StaticSite => Ok(ResolvedServiceKind::StaticSite),
        ServiceKind::DenoApp => {
            let port = match port {
                Some(p) => p,
                None => return Err(concat3("deno_app `", name, "` requires port")),
            };
            let entrypoint = match entrypoint {
                Some(e) => e,
                None => return Err(concat3("deno_app `", name, "` requires entrypoint")),
            };
            if port == 0 {
                return Err(concat3("deno_app `", name, "` port must be greater than 0"));
            }
            if contains_u16(&seen.ports, port) {
                let p = u64_to_decimal(port as u64);
                return Err(concat3("duplicate Deno port `", p.as_str(), "`"));
            }
            match validate_entrypoint(name, entrypoint.as_str()) {
                Ok(()) => {},
                Err(e) => return Err(e),
            }
            let unit = match service_name {
                Some(n) => n,
                None => generated_service_name(managed_prefix, name),
            };
            assert(unit@ == service_unit_of(svc, managed_prefix@));
            match validate_systemd_service_name(name, managed_prefix, unit.as_str()) {
                Ok(()) => {},
                Err(e) => return Err(e),
            }
            if contains_string(&seen.units, unit.as_str()) {
                return Err(duplicate_unit_message(unit.as_str()));
            }
            seen.ports.push(port);
            push_string(&mut seen.units, unit.as_str());
            Ok(ResolvedServiceKind::DenoApp { port, entrypoint, service_name: unit, environment })
        },
    }
}

fn resolve_service(
    service: ServiceConfig,
    local: Option<String>,
    root: &str,
    primary_host: &str,
    managed_prefix: &str,
    seen: &mut Seen,
) -> (r: Result<ResolvedService, String>)
    ensures
        match r {
            Ok(s) => resolve_service_spec(
                service@,
                opt_view(&local),
                root@,
                primary_host@,
                managed_prefix@,
                old(seen)@,
            ) == Ok::<(Registry, ServiceView), Text>((final(seen)@, s@)),
            Err(e) => resolve_service_spec(
                service@,
                opt_view(&local),
                root@,
                primary_host@,
                managed_prefix@,
                old(seen)@,
            ) == Err::<(Registry, ServiceView), Text>(e@),
        },
{
    let ghost svc = service@;
    let ServiceConfig {
        name,
        kind,
        local_path,
        remote_path,
        sync_source,
        host,
        route_path,
        port,
        entrypoint,
        service_name,
        environment,
        build,
    } = service;
    match validate_service_name(name.as_str()) {
        Ok(()) => {},
        Err(e) => return Err(e),
    }
    if contains_string(&seen.names, name.as_str()) {
        return Err(concat3("duplicate service name `", name.as_str(), "`"));
    }
    let local_path = match local {
        Some(p) => p,
        None => return Err(concat3("local_path `", local_path.as_str(), "` does not exist")),
    };
    let src = path_join(root, "src");
    let submodules_root = path_join(src.as_str(), "submodules");
    let repositories_root = match path_parent(root) {
        Some(p) => p,
        None => to_string(root),
    };
    if !(path_is_under(local_path.as_str(), submodules_root.as_str()) || path_is_under(
        local_path.as_str(),
        repositories_root.as_str(),
    )) {
        let mut e = concat3("service `", name.as_str(), "` local_path must be under `");
        e.append(submodules_root.as_str());
        e.append("` or sibling repo root `");
        e.append(repositories_root.as_str());
        e.append("`");
        return Err(e);
    }
    let sync_source = match validate_sync_source(name.as_str(), sync_source.as_str()) {
        Ok(s) => s,
        Err(e) => return Err(e),
    };
    match validate_remote_path(name.as_str(), remote_path.as_str()) {
        Ok(()) => {},
        Err(e) => return Err(e),
    }
    let host = match host {
        Some(h) => h,
        None => to_string(primary_host),
    };
    let host_label = concat3("service `", name.as_str(), "` host");
    match validate_host(host_label.as_str(), host.as_str()) {
        Ok(()) => {},
        Err(e) => return Err(e),
    }
    let route_path = match route_path {
        Some(p) => match normalize_route_path(p.as_str()) {
            Ok(r) => r,
            Err(e) => return Err(e),
        },
        None => match kind {
            ServiceKind::DenoApp => to_string("/"),
            ServiceKind::StaticSite => {
                return Err(concat3("static_site `", name.as_str(), "` requires route_path"));
            },
        },
    };
    assert(service_route_spec(svc) == Ok::<Text, Text>(route_path@));
    let route_key = concat3(host.as_str(), ":", route_path.as_str());
    if contains_string(&seen.routes, route_key.as_str()) {
        return Err(concat3("duplicate Caddy route `", route_key.as_str(), "`"));
    }
    push_string(&mut seen.names, name.as_str());
    push_string(&mut seen.routes, route_key.as_str());
    let resolved_kind = match resolve_service_kind(
        name.as_str(),
        kind,
        port,
        entrypoint,
        service_name,
        environment,
        managed_prefix,
        seen,
        Ghost(svc),
    ) {
        Ok(k) => k,
        Err(e) => return Err(e),
    };
    match validate_build(name.as_str(), &build) {
        Ok(()) => {},
        Err(e) => return Err(e),
    }
    Ok(
        ResolvedService {
            name,
            kind: resolved_kind,
            local_path,
            remote_path,
            sync_source,
            host,
            route_path,
            build,
        },
    )
}

pub open spec fn prepend_services(
    done: Seq<ServiceView>,
    r: Result<(Registry, Seq<ServiceView>), Text>,
) -> Result<(Registry, Seq<ServiceView>), Text> {
    match r {
        Ok((reg, rest)) => Ok((reg, done + rest)),
        Err(e) => Err(e),
    }
}

// ---------------------------------------------------------------------------
// The whole configuration
// ---------------------------------------------------------------------------

pub open spec fn caddy_error(c: crate::config::types::CaddyView) -> Option<Text> {
    or_else(
        host_error("caddy.primary_host"@, c.primary_host),
        match c.www_redirect_host {
            Some(h) => host_error("caddy.www_redirect_host"@, h),
            None => None,
        },
    )
}

pub open spec fn resolve_optional_pocketbase(
    pb: Option<PocketBaseConfigView>,
    root: Text,
    prefix: Text,
    source: Option<Text>,
) -> Result<(Registry, Option<PocketBaseView>), Text> {
    match pb {
        None => Ok((empty_registry(), None)),
        Some(p) => match resolve_pocketbase_spec(p, root, prefix, empty_registry(), source) {
            Err(e) => Err(e),
            Ok((reg, v)) => Ok((reg, Some(v))),
        },
    }
}

/// What validating a configuration gives: the first problem found, in the
/// order the sections are checked (manifest version, remote, Caddy, the
/// presence of services, the configuration directory, PocketBase, then each
/// service in order), or the resolved service map.
pub open spec fn validate_spec(cfg: ConfigView, config_path: Text, paths: ResolvedPathsView) -> Result<
    ServiceMapView,
    Text,
> {
    if cfg.manifest_version != 1 {
        Err(
            "unsupported manifest_version `"@ + decimal(cfg.manifest_version as nat)
                + "`; expected 1"@,
        )
    } else {
        match or_else(remote_error(cfg.remote), caddy_error(cfg.caddy)) {
            Some(e) => Err(e),
            None => if cfg.services.len() == 0 {
                Err("config must contain at least one service"@)
            } else {
                match paths.root {
                    None => Err(
                        "failed to canonicalize config directory for `"@ + config_path + "`"@,
                    ),
                    Some(root) => match resolve_optional_pocketbase(
                        cfg.pocketbase,
                        root,
                        cfg.remote.managed_prefix,
                        paths.pocketbase_source,
                    ) {
                        Err(e) => Err(e),
                        Ok((reg, pb)) => match resolve_services_from(
                            cfg.services,
                            paths.local_paths,
                            0,
                            root,
                            cfg.caddy.primary_host,
                            cfg.remote.managed_prefix,
                            reg,
                        ) {
                            Err(e) => Err(e),
                            Ok((_, services)) => Ok(
                                ServiceMapView {
                                    root,
                                    remote: cfg.remote,
                                    caddy: cfg.caddy,
                                    pocketbase: pb,
                                    services,
                                },
                            ),
                        },
                    },
                }
            },
        }
    }
}

impl Config {
    /// Checks the configuration and resolves it into a service map.
    ///
    /// `paths` holds the file-system lookups that validation depends on (see
    /// `ResolvedPaths`); `config_path` only appears in an error message.
    pub fn validate(self, config_path: &str, paths: ResolvedPaths) -> (r: Result<ServiceMap, String>)
        ensures
            match r {
                Ok(m) => validate_spec(self@, config_path@, paths@) == Ok::<ServiceMapView, Text>(
                    m@,
                ),
                Err(e) => validate_spec(self@, config_path@, paths@) == Err::<ServiceMapView, Text>(
                    e@,
                ),
            },
    {
        let ghost cfg = self@;
        let ghost pv = paths@;
        if self.manifest_version != 1 {
            let v = u64_to_decimal(self.manifest_version as u64);
            return Err(concat3("unsupported manifest_version `", v.as_str(), "`; expected 1"));
        }
        match validate_remote(&self.remote) {
            Ok(()) => {},
            Err(e) => return Err(e),
        }
        match validate_host("caddy.primary_host", self.caddy.primary_host.as_str()) {
            Ok(()) => {},
            Err(e) => return Err(e),
        }
        if let Some(host) = &self.caddy.www_redirect_host {
            match validate_host("caddy.www_redirect_host", host.as_str()) {
                Ok(()) => {},
                Err(e) => return Err(e),
            }
        }
        if self.services.len() == 0 {
            return Err(to_string("config must contain at least one service"));
        }
        let ResolvedPaths { root, local_paths, pocketbase_source } = paths;
        let root = match root {
            Some(r) => r,
            None => {
                return Err(
                    concat3("failed to canonicalize config directory for `", config_path, "`"),
                );
            },
        };
        let Config { manifest_version: _, remote, caddy, pocketbase, services } = self;
        let mut seen = Seen {
            names: Vec::new(),
            ports: Vec::new(),
            routes: Vec::new(),
            units: Vec::new(),
        };
        proof {
            assert(strings_view(seen.names@) =~= Seq::<Text>::empty());
            assert(strings_view(seen.routes@) =~= Seq::<Text>::empty());
            assert(strings_view(seen.units@) =~= Seq::<Text>::empty());
            assert(seen@ == empty_registry());
        }
        let pocketbase = match pocketbase {
            None => None,
            Some(pb) => match resolve_pocketbase(
                pb,
                root.as_str(),
                remote.managed_prefix.as_str(),
                &mut seen,
                pocketbase_source,
            ) {
                Ok(p) => Some(p),
                Err(e) => return Err(e),
            },
        };
        let ghost reg0 = seen@;
        let ghost all = cfg.services;
        assert(validate_spec(cfg, config_path@, pv) == match resolve_services_from(
            all,
            pv.local_paths,
            0,
            root@,
            caddy.primary_host@,
            remote.managed_prefix@,
            reg0,
        ) {
            Err(e) => Err(e),
            Ok((_, services)) => Ok(
                ServiceMapView {
                    root: root@,
                    remote: remote@,
                    caddy: caddy@,
                    pocketbase: crate::config::types::opt_pocketbase_view(&pocketbase),
                    services,
                },
            ),
        });
        let ghost locals = pv.local_paths;
        let mut remaining = services;
        let mut resolved: Vec<ResolvedService> = Vec::new();
        let mut i: usize = 0;
        while remaining.len() > 0
            invariant
                all == cfg.services,
                locals == pv.local_paths,
                cfg == self@,
                pv == paths@,
                validate_spec(cfg, config_path@, pv) == match resolve_services_from(
                    all,
                    locals,
                    0,
                    root@,
                    caddy.primary_host@,
                    remote.managed_prefix@,
                    reg0,
                ) {
                    Err(e) => Err(e),
                    Ok((_, services)) => Ok(
                        ServiceMapView {
                            root: root@,
                            remote: remote@,
                            caddy: caddy@,
                            pocketbase: crate::config::types::opt_pocketbase_view(&pocketbase),
                            services,
                        },
                    ),
                },
                locals == local_paths@.map_values(|o: Option<String>| opt_view(&o)),
                i + remaining@.len() == all.len(),
                forall|j: int| 0 <= j < remaining@.len() ==> #[trigger] remaining@[j]@ == all[i + j],
                resolve_services_from(
                    all,
                    locals,
                    0,
                    root@,
                    caddy.primary_host@,
                    remote.managed_prefix@,
                    reg0,
                ) == prepend_services(
                    services_view(resolved@),
                    resolve_services_from(
                        all,
                        locals,
                        i as int,
                        root@,
                        caddy.primary_host@,
                        remote.managed_prefix@,
                        seen@,
                    ),
                ),
            decreases remaining@.len(),
        {
            let service = remaining.remove(0);
            let local = if i < local_paths.len() {
                crate::text::clone_opt_string(&local_paths[i])
            } else {
                None
            };
            assert(opt_view(&local) == local_path_at(locals, i as int));
            assert(service@ == all[i as int]);
            let ghost before = seen@;
            let ghost done = services_view(resolved@);
            match resolve_service(
                service,
                local,
                root.as_str(),
                caddy.primary_host.as_str(),
                remote.managed_prefix.as_str(),
                &mut seen,
            ) {
                Ok(s) => {
                    let ghost sv = s@;
                    resolved.push(s);
                    proof {
                        assert(services_view(resolved@) =~= done.push(sv));
                        let tail = resolve_services_from(
                            all,
                            locals,
                            i + 1,
                            root@,
                            caddy.primary_host@,
                            remote.managed_prefix@,
                            seen@,
                        );
                        match tail {
                            Ok((r2, rest)) => {
                                assert(done + (seq![sv] + rest) =~= done.push(sv) + rest);
                            },
                            Err(_) => {},
                        }
                        assert forall|j: int| 0 <= j < remaining@.len() implies #[trigger] remaining@[j]@
                            == all[i + 1 + j] by {
                        }
                    }
                },
                Err(e) => {
                    assert(resolve_services_from(
                        all,
                        locals,
                        i as int,
                        root@,
                        caddy.primary_host@,
                        remote.managed_prefix@,
                        before,
                    ) == Err::<(Registry, Seq<ServiceView>), Text>(e@));
                    return Err(e);
                },
            }
            i = i + 1;
        }
        proof {
            assert(services_view(resolved@) + seq![] =~= services_view(resolved@));
        }
        Ok(ServiceMap { root, remote, caddy, pocketbase, services: resolved })
    }
}

// ---------------------------------------------------------------------------
// What a validated map guarantees
// ---------------------------------------------------------------------------

/// The Caddy route a service claims: `host:route_path`.
pub open spec fn route_key_of(s: ServiceView) -> Text {
    s.host + ":"@ + s.route_path
}

/// A normalized route: absolute, and without a trailing `/` unless it is `/`.
pub open spec fn is_normalized_route(r: Text) -> bool {
    r.len() > 0 && r[0] == '/' && (r == "/"@ || r.last() != '/')
}

/// A systemd unit name owned by this deployment.
pub open spec fn is_managed_unit(unit: Text, prefix: Text) -> bool {
    prefix.is_prefix_of(unit) && ".service"@.is_suffix_of(unit)
}

/// What every resolved service satisfies on its own.
pub open spec fn service_ok(s: ServiceView, prefix: Text) -> bool {
    &&& crate::config::checks::is_valid_service_name(s.name)
    &&& is_normalized_route(s.route_path)
    &&& build_error(s.name, s.build) is None
    &&& s.kind matches ServiceKindView::DenoApp { port, service_name, .. } ==> port > 0
        && is_managed_unit(service_name, prefix)
}

/// Two services claim different names, routes, and (when both are Deno apps)
/// different ports and systemd units.
pub open spec fn services_disjoint(a: ServiceView, b: ServiceView) -> bool {
    &&& a.name != b.name
    &&& route_key_of(a) != route_key_of(b)
    &&& (is_deno_view(a) && is_deno_view(b)) ==> a.kind->DenoApp_port != b.kind->DenoApp_port
        && a.kind->DenoApp_service_name != b.kind->DenoApp_service_name
}

pub open spec fn is_deno_view(s: ServiceView) -> bool {
    s.kind is DenoApp
}

/// A service claims nothing that was already taken in `reg`.
pub open spec fn service_fresh(s: ServiceView, reg: Registry) -> bool {
    &&& !reg.names.contains(s.name)
    &&& !reg.routes.contains(route_key_of(s))
    &&& is_deno_view(s) ==> !reg.ports.contains(s.kind->DenoApp_port) && !reg.units.contains(
        s.kind->DenoApp_service_name,
    )
}

proof fn lemma_trim_end_prefix(s: Text, c: char)
    ensures
        crate::text::trim_end_char(s, c).is_prefix_of(s),
        crate::text::trim_end_char(s, c).len() > 0 ==> crate::text::trim_end_char(s, c).last()
            != c,
    decreases s.len(),
{
    if s.len() > 0 && s.last() == c {
        lemma_trim_end_prefix(s.drop_last(), c);
        let t = crate::text::trim_end_char(s.drop_last(), c);
        assert(t =~= s.subrange(0, t.len() as int));
    } else {
        assert(s =~= s.subrange(0, s.len() as int));
    }
}

proof fn lemma_normalized_route(p: Text)
    requires
        normalize_route_path_spec(p) is Ok,
    ensures
        is_normalized_route(normalize_route_path_spec(p)->Ok_0),
{
    reveal_strlit("/");
    lemma_trim_end_prefix(p, '/');
    let t = crate::text::trim_end_char(p, '/');
    if t.len() > 0 {
        assert(t[0] == p[0]);
    }
}

/// Normalizing a route twice gives what normalizing it once gives.
pub proof fn law_normalize_route_idempotent(p: Text)
    requires
        normalize_route_path_spec(p) is Ok,
    ensures
        normalize_route_path_spec(normalize_route_path_spec(p)->Ok_0) == normalize_route_path_spec(p),
{
    reveal_strlit("/");
    reveal_strlit("//");
    reveal_strlit("..");
    lemma_trim_end_prefix(p, '/');
    let t = crate::text::trim_end_char(p, '/');
    let q = normalize_route_path_spec(p)->Ok_0;
    if t.len() == 0 {
        assert(q =~= seq!['/']);
        assert(!crate::text::has_substring(q, "//"@)) by {
            if crate::text::has_substring(q, "//"@) {
                let i = choose|i: int| #[trigger] crate::text::occurs_at(q, "//"@, i);
                assert(q.subrange(i, i + 2).len() == 2);
            }
        }
        assert(!crate::text::has_substring(q, ".."@)) by {
            if crate::text::has_substring(q, ".."@) {
                let i = choose|i: int| #[trigger] crate::text::occurs_at(q, ".."@, i);
                assert(q.subrange(i, i + 2).len() == 2);
            }
        }
        assert(crate::text::trim_end_char(q, '/') =~= Seq::<char>::empty()) by {
            assert(q.drop_last() =~= Seq::<char>::empty());
            assert(q.last() == '/');
            assert(crate::text::trim_end_char(Seq::<char>::empty(), '/') =~= Seq::<char>::empty());
        }
    } else {
        assert(q == t);
        assert(t[0] == p[0]);
        assert(t =~= p.subrange(0, t.len() as int));
        assert forall|pat: Text, i: int| #[trigger] crate::text::occurs_at(t, pat, i) implies crate::text::occurs_at(p, pat, i) by {
            assert(t.subrange(i, i + pat.len()) =~= p.subrange(i, i + pat.len()));
        }
        assert(crate::text::trim_end_char(t, '/') == t);
    }
}

proof fn lemma_service_step(
    svc: ServiceConfigView,
    local: Option<Text>,
    root: Text,
    host: Text,
    prefix: Text,
    reg: Registry,
)
    requires
        resolve_service_spec(svc, local, root, host, prefix, reg) is Ok,
    ensures
        ({
            let (reg2, sv) = resolve_service_spec(svc, local, root, host, prefix, reg)->Ok_0;
            &&& service_ok(sv, prefix)
            &&& service_fresh(sv, reg)
            &&& reg2.names == reg.names.push(sv.name)
            &&& reg2.routes == reg.routes.push(route_key_of(sv))
            &&& is_deno_view(sv) ==> reg2.ports == reg.ports.push(sv.kind->DenoApp_port)
                && reg2.units == reg.units.push(sv.kind->DenoApp_service_name)
            &&& !is_deno_view(sv) ==> reg2.ports == reg.ports && reg2.units == reg.units
        }),
{
    let route = service_route_spec(svc)->Ok_0;
    match svc.route_path {
        Some(p) => lemma_normalized_route(p),
        None => {
            reveal_strlit("/");
        },
    }
    assert(is_normalized_route(route));
}

proof fn lemma_services_fold(
    svcs: Seq<ServiceConfigView>,
    locals: Seq<Option<Text>>,
    i: int,
    root: Text,
    host: Text,
    prefix: Text,
    reg: Registry,
)
    requires
        resolve_services_from(svcs, locals, i, root, host, prefix, reg) is Ok,
    ensures
        ({
            let out = resolve_services_from(svcs, locals, i, root, host, prefix, reg)->Ok_0.1;
            &&& forall|j: int| 0 <= j < out.len() ==> service_ok(#[trigger] out[j], prefix)
            &&& forall|j: int| 0 <= j < out.len() ==> service_fresh(#[trigger] out[j], reg)
            &&& forall|j: int, k: int| 0 <= j < k < out.len() ==> services_disjoint(
                #[trigger] out[j],
                #[trigger] out[k],
            )
            &&& 0 <= i <= svcs.len() ==> out.len() == svcs.len() - i
            &&& forall|j: int| 0 <= j < out.len() ==> (#[trigger] out[j]).name == svcs[i + j].name
                && (is_deno_view(out[j]) <==> svcs[i + j].kind == ServiceKind::DenoApp)
        }),
    decreases svcs.len() - i,
{
    if 0 <= i < svcs.len() {
        let step = resolve_service_spec(svcs[i], local_path_at(locals, i), root, host, prefix, reg);
        let (reg1, sv) = step->Ok_0;
        lemma_service_step(svcs[i], local_path_at(locals, i), root, host, prefix, reg);
        lemma_services_fold(svcs, locals, i + 1, root, host, prefix, reg1);
        let rest = resolve_services_from(svcs, locals, i + 1, root, host, prefix, reg1)->Ok_0.1;
        let out = resolve_services_from(svcs, locals, i, root, host, prefix, reg)->Ok_0.1;
        assert(out == seq![sv] + rest);
        assert forall|j: int| 0 <= j < out.len() implies service_ok(#[trigger] out[j], prefix) by {
            if j > 0 {
                assert(out[j] == rest[j - 1]);
            }
        }
        assert forall|j: int| 0 <= j < out.len() implies (#[trigger] out[j]).name == svcs[i
            + j].name && (is_deno_view(out[j]) <==> svcs[i + j].kind == ServiceKind::DenoApp) by {
            if j > 0 {
                assert(out[j] == rest[j - 1]);
                assert(i + 1 + (j - 1) == i + j);
            }
        }
        assert forall|j: int| 0 <= j < out.len() implies service_fresh(#[trigger] out[j], reg) by {
            if j > 0 {
                assert(out[j] == rest[j - 1]);
                assert(service_fresh(rest[j - 1], reg1));
                let r = rest[j - 1];
                if reg.names.contains(r.name) {
                    let w = choose|w: int| 0 <= w < reg.names.len() && reg.names[w] == r.name;
                    assert(reg1.names[w] == r.name);
                }
                if reg.routes.contains(route_key_of(r)) {
                    let w = choose|w: int| 0 <= w < reg.routes.len() && reg.routes[w] == route_key_of(r);
                    assert(reg1.routes[w] == route_key_of(r));
                }
                if is_deno_view(r) {
                    if reg.ports.contains(r.kind->DenoApp_port) {
                        let w = choose|w: int| 0 <= w < reg.ports.len() && reg.ports[w] == r.kind->DenoApp_port;
                        assert(reg1.ports[w] == r.kind->DenoApp_port);
                    }
                    if reg.units.contains(r.kind->DenoApp_service_name) {
                        let w = choose|w: int| 0 <= w < reg.units.len() && reg.units[w] == r.kind->DenoApp_service_name;
                        assert(reg1.units[w] == r.kind->DenoApp_service_name);
                    }
                }
            }
        }
        assert forall|j: int, k: int| 0 <= j < k < out.len() implies services_disjoint(
            #[trigger] out[j],
            #[trigger] out[k],
        ) by {
            assert(out[k] == rest[k - 1]);
            if j == 0 {
                let r = rest[k - 1];
                assert(service_fresh(r, reg1));
                assert(reg1.names[reg.names.len() as int] == sv.name);
                assert(reg1.routes[reg.routes.len() as int] == route_key_of(sv));
                if is_deno_view(sv) && is_deno_view(r) {
                    assert(reg1.ports[reg.ports.len() as int] == sv.kind->DenoApp_port);
                    assert(reg1.units[reg.units.len() as int] == sv.kind->DenoApp_service_name);
                }
            } else {
                assert(out[j] == rest[j - 1]);
            }
        }
    }
}

proof fn lemma_pocketbase_step(pb: PocketBaseConfigView, root: Text, prefix: Text, src: Option<Text>)
    requires
        resolve_pocketbase_spec(pb, root, prefix, empty_registry(), src) is Ok,
    ensures
        ({
            let (reg, v) = resolve_pocketbase_spec(pb, root, prefix, empty_registry(), src)->Ok_0;
            &&& reg.names == Seq::<Text>::empty()
            &&& reg.ports == seq![v.port]
            &&& reg.routes == seq![v.host + ":/"@]
            &&& v.port > 0
            &&& is_managed_unit(v.service_name, prefix)
            &&& match v.warp_proxy {
                Some(w) => reg.units == seq![v.service_name, w.service_name] && w.port > 0
                    && is_managed_unit(w.service_name, prefix) && w.service_name != v.service_name,
                None => reg.units == seq![v.service_name],
            }
        }),
{
    reveal_strlit(".service");
    reveal_strlit("-warp-proxy.service");
    let unit = pocketbase_unit_of(pb, prefix);
    let route = pb.host + ":/"@;
    assert(Seq::<u16>::empty().push(pb.port) =~= seq![pb.port]);
    assert(Seq::<Text>::empty().push(route) =~= seq![route]);
    assert(Seq::<Text>::empty().push(unit) =~= seq![unit]);
    if let Some(w) = pb.warp_proxy {
        let name = warp_unit_name(unit);
        assert(seq![unit].push(name) =~= seq![unit, name]);
        assert(name.len() != unit.len());
    }
}

/// Everything a validated service map guarantees about the names, routes,
/// ports and systemd units it claims.
pub open spec fn map_conflict_free(m: ServiceMapView, prefix: Text) -> bool {
    &&& forall|j: int| 0 <= j < m.services.len() ==> service_ok(#[trigger] m.services[j], prefix)
    &&& forall|j: int, k: int| 0 <= j < k < m.services.len() ==> services_disjoint(
        #[trigger] m.services[j],
        #[trigger] m.services[k],
    )
    &&& m.pocketbase matches Some(pb) ==> {
        &&& pb.port > 0
        &&& is_managed_unit(pb.service_name, prefix)
        &&& pb.warp_proxy matches Some(w) ==> w.port > 0 && is_managed_unit(w.service_name, prefix)
            && w.service_name != pb.service_name
        &&& forall|j: int| 0 <= j < m.services.len() ==> {
            let s = #[trigger] m.services[j];
            &&& route_key_of(s) != pb.host + ":/"@
            &&& is_deno_view(s) ==> s.kind->DenoApp_port != pb.port && s.kind->DenoApp_service_name
                != pb.service_name && (pb.warp_proxy matches Some(w) ==> s.kind->DenoApp_service_name
                != w.service_name)
        }
    }
}

/// A configuration that validates yields a map whose services keep their
/// configured order, names and kinds, and in which no two services (nor a
/// service and PocketBase) share a name, a Caddy route, a port or a systemd
/// unit; every name is valid, every route normalized, every build
/// configuration well formed, and every unit is a managed `.service` unit
/// with a non-zero port.
pub proof fn law_validated_map_is_conflict_free(
    cfg: ConfigView,
    config_path: Text,
    paths: ResolvedPathsView,
)
    requires
        validate_spec(cfg, config_path, paths) is Ok,
    ensures
        ({
            let m = validate_spec(cfg, config_path, paths)->Ok_0;
            &&& map_conflict_free(m, cfg.remote.managed_prefix)
            &&& m.remote == cfg.remote
            &&& m.caddy == cfg.caddy
            &&& m.services.len() == cfg.services.len()
            &&& forall|j: int| 0 <= j < m.services.len() ==> (#[trigger] m.services[j]).name
                == cfg.services[j].name && (is_deno_view(m.services[j]) <==> cfg.services[j].kind
                == ServiceKind::DenoApp)
        }),
{
    let root = paths.root->Some_0;
    let prefix = cfg.remote.managed_prefix;
    let (reg, pb) = resolve_optional_pocketbase(cfg.pocketbase, root, prefix, paths.pocketbase_source)->Ok_0;
    if let Some(p) = cfg.pocketbase {
        lemma_pocketbase_step(p, root, prefix, paths.pocketbase_source);
    }
    lemma_services_fold(cfg.services, paths.local_paths, 0, root, cfg.caddy.primary_host, prefix, reg);
    let m = validate_spec(cfg, config_path, paths)->Ok_0;
    if let Some(v) = m.pocketbase {
        assert forall|j: int| 0 <= j < m.services.len() implies {
            let s = #[trigger] m.services[j];
            &&& route_key_of(s) != v.host + ":/"@
            &&& is_deno_view(s) ==> s.kind->DenoApp_port != v.port && s.kind->DenoApp_service_name
                != v.service_name && (v.warp_proxy matches Some(w) ==> s.kind->DenoApp_service_name
                != w.service_name)
        } by {
            let s = m.services[j];
            assert(service_fresh(s, reg));
            assert(reg.routes[0] == v.host + ":/"@);
            assert(reg.ports[0] == v.port);
            assert(reg.units[0] == v.service_name);
            if let Some(w) = v.warp_proxy {
                assert(reg.units[1] == w.service_name);
            }
        }
    }
}

} // verus!
