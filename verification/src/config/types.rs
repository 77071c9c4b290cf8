//! The service configuration as written by the user, the validated service
//! map, and the mathematical views of both.
use vstd::prelude::*;

use crate::env::{EnvEntries, EnvVars};
use crate::text::{opt_view, strings_view};

verus! {

// ---------------------------------------------------------------------------
// Configuration as written
// ---------------------------------------------------------------------------

/// The whole service configuration file.
#[derive(Debug)]
pub struct Config {
    pub manifest_version: u8,
    pub remote: RemoteConfig,
    pub caddy: CaddyConfig,
    pub pocketbase: Option<PocketBaseConfig>,
    pub services: Vec<ServiceConfig>,
}

/// How to reach and lay out the remote host.
#[derive(Debug)]
pub struct RemoteConfig {
    pub host: Option<String>,
    pub user: Option<String>,
    pub port: u16,
    pub identity_file: Option<String>,
    pub extra_ssh_args: Vec<String>,
    pub ssh_program: String,
    pub rsync_program: String,
    pub tmp_dir: String,
    pub caddyfile_path: String,
    pub systemd_dir: String,
    pub managed_prefix: String,
    pub deno_bin: String,
}

/// The public host names that Caddy serves.
#[derive(Debug)]
pub struct CaddyConfig {
    pub primary_host: String,
    pub www_redirect_host: Option<String>,
}

/// The single PocketBase service of the site.
#[derive(Debug)]
pub struct PocketBaseConfig {
    pub name: String,
    pub host: String,
    pub source_path: String,
    pub remote_path: String,
    pub data_dir: String,
    pub backup_dir: Option<String>,
    pub port: u16,
    pub binary: String,
    pub service_name: Option<String>,
    pub environment_file: Option<String>,
    pub request_body_max_size: String,
    pub read_timeout: String,
    pub encryption_env: Option<String>,
    pub warp_proxy: Option<WarpProxyConfig>,
}

/// Routing PocketBase's outbound HTTPS through the Cloudflare WARP local proxy.
#[derive(Debug)]
pub struct WarpProxyConfig {
    pub port: u16,
    pub cli: String,
    pub daemon_service: String,
}

/// One service of the site.
#[derive(Debug)]
pub struct ServiceConfig {
    pub name: String,
    pub kind: ServiceKind,
    pub local_path: String,
    pub remote_path: String,
    pub sync_source: String,
    pub host: Option<String>,
    pub route_path: Option<String>,
    pub port: Option<u16>,
    pub entrypoint: Option<String>,
    pub service_name: Option<String>,
    pub environment: EnvVars,
    pub build: Option<BuildConfig>,
}

#[derive(Clone, Copy, Debug, PartialEq, Eq, Structural)]
pub enum ServiceKind {
    DenoApp,
    StaticSite,
}

/// Local build steps of a service: one `command` or a list of `commands`.
#[derive(Debug)]
pub struct BuildConfig {
    pub command: Option<Vec<String>>,
    pub commands: Vec<Vec<String>>,
    pub environment: EnvVars,
}

// ---------------------------------------------------------------------------
// The validated service map
// ---------------------------------------------------------------------------

#[derive(Debug)]
pub struct ServiceMap {
    pub root: String,
    pub remote: RemoteConfig,
    pub caddy: CaddyConfig,
    pub pocketbase: Option<ResolvedPocketBase>,
    pub services: Vec<ResolvedService>,
}

#[derive(Debug)]
pub struct ResolvedPocketBase {
    pub name: String,
    pub host: String,
    pub source_path: String,
    pub remote_path: String,
    pub data_dir: String,
    pub backup_dir: Option<String>,
    pub port: u16,
    pub binary: String,
    pub service_name: String,
    pub environment_file: Option<String>,
    pub request_body_max_size: String,
    pub read_timeout: String,
    pub encryption_env: Option<String>,
    pub warp_proxy: Option<ResolvedWarpProxy>,
}

#[derive(Debug)]
pub struct ResolvedWarpProxy {
    pub port: u16,
    pub cli: String,
    pub daemon_service: String,
    pub service_name: String,
}

#[derive(Debug)]
pub struct ResolvedService {
    pub name: String,
    pub kind: ResolvedServiceKind,
    pub local_path: String,
    pub remote_path: String,
    pub sync_source: String,
    pub host: String,
    pub route_path: String,
    pub build: Option<BuildConfig>,
}

#[derive(Debug)]
pub enum ResolvedServiceKind {
    DenoApp { port: u16, entrypoint: String, service_name: String, environment: EnvVars },
    StaticSite,
}

// ---------------------------------------------------------------------------
// Views
// ---------------------------------------------------------------------------

pub type Text = Seq<char>;

pub struct RemoteView {
    pub host: Option<Text>,
    pub user: Option<Text>,
    pub port: u16,
    pub identity_file: Option<Text>,
    pub extra_ssh_args: Seq<Text>,
    pub ssh_program: Text,
    pub rsync_program: Text,
    pub tmp_dir: Text,
    pub caddyfile_path: Text,
    pub systemd_dir: Text,
    pub managed_prefix: Text,
    pub deno_bin: Text,
}

pub struct CaddyView {
    pub primary_host: Text,
    pub www_redirect_host: Option<Text>,
}

pub struct WarpProxyConfigView {
    pub port: u16,
    pub cli: Text,
    pub daemon_service: Text,
}

pub struct PocketBaseConfigView {
    pub name: Text,
    pub host: Text,
    pub source_path: Text,
    pub remote_path: Text,
    pub data_dir: Text,
    pub backup_dir: Option<Text>,
    pub port: u16,
    pub binary: Text,
    pub service_name: Option<Text>,
    pub environment_file: Option<Text>,
    pub request_body_max_size: Text,
    pub read_timeout: Text,
    pub encryption_env: Option<Text>,
    pub warp_proxy: Option<WarpProxyConfigView>,
}

pub struct BuildView {
    pub command: Option<Seq<Text>>,
    pub commands: Seq<Seq<Text>>,
    pub environment: EnvEntries,
}

pub struct ServiceConfigView {
    pub name: Text,
    pub kind: ServiceKind,
    pub local_path: Text,
    pub remote_path: Text,
    pub sync_source: Text,
    pub host: Option<Text>,
    pub route_path: Option<Text>,
    pub port: Option<u16>,
    pub entrypoint: Option<Text>,
    pub service_name: Option<Text>,
    pub environment: EnvEntries,
    pub build: Option<BuildView>,
}

pub struct ConfigView {
    pub manifest_version: u8,
    pub remote: RemoteView,
    pub caddy: CaddyView,
    pub pocketbase: Option<PocketBaseConfigView>,
    pub services: Seq<ServiceConfigView>,
}

pub struct WarpProxyView {
    pub port: u16,
    pub cli: Text,
    pub daemon_service: Text,
    pub service_name: Text,
}

pub struct PocketBaseView {
    pub name: Text,
    pub host: Text,
    pub source_path: Text,
    pub remote_path: Text,
    pub data_dir: Text,
    pub backup_dir: Option<Text>,
    pub port: u16,
    pub binary: Text,
    pub service_name: Text,
    pub environment_file: Option<Text>,
    pub request_body_max_size: Text,
    pub read_timeout: Text,
    pub encryption_env: Option<Text>,
    pub warp_proxy: Option<WarpProxyView>,
}

pub enum ServiceKindView {
    DenoApp { port: u16, entrypoint: Text, service_name: Text, environment: EnvEntries },
    StaticSite,
}

pub struct ServiceView {
    pub name: Text,
    pub kind: ServiceKindView,
    pub local_path: Text,
    pub remote_path: Text,
    pub sync_source: Text,
    pub host: Text,
    pub route_path: Text,
    pub build: Option<BuildView>,
}

pub struct ServiceMapView {
    pub root: Text,
    pub remote: RemoteView,
    pub caddy: CaddyView,
    pub pocketbase: Option<PocketBaseView>,
    pub services: Seq<ServiceView>,
}

pub open spec fn command_lists_view(v: Seq<Vec<String>>) -> Seq<Seq<Text>> {
    v.map_values(|c: Vec<String>| strings_view(c@))
}

impl View for RemoteConfig {
    type V = RemoteView;

    open spec fn view(&self) -> RemoteView {
        RemoteView {
            host: opt_view(&self.host),
            user: opt_view(&self.user),
            port: self.port,
            identity_file: opt_view(&self.identity_file),
            extra_ssh_args: strings_view(self.extra_ssh_args@),
            ssh_program: self.ssh_program@,
            rsync_program: self.rsync_program@,
            tmp_dir: self.tmp_dir@,
            caddyfile_path: self.caddyfile_path@,
            systemd_dir: self.systemd_dir@,
            managed_prefix: self.managed_prefix@,
            deno_bin: self.deno_bin@,
        }
    }
}

impl View for CaddyConfig {
    type V = CaddyView;

    open spec fn view(&self) -> CaddyView {
        CaddyView {
            primary_host: self.primary_host@,
            www_redirect_host: opt_view(&self.www_redirect_host),
        }
    }
}

impl View for WarpProxyConfig {
    type V = WarpProxyConfigView;

    open spec fn view(&self) -> WarpProxyConfigView {
        WarpProxyConfigView { port: self.port, cli: self.cli@, daemon_service: self.daemon_service@ }
    }
}

impl View for PocketBaseConfig {
    type V = PocketBaseConfigView;

    open spec fn view(&self) -> PocketBaseConfigView {
        PocketBaseConfigView {
            name: self.name@,
            host: self.host@,
            source_path: self.source_path@,
            remote_path: self.remote_path@,
            data_dir: self.data_dir@,
            backup_dir: opt_view(&self.backup_dir),
            port: self.port,
            binary: self.binary@,
            service_name: opt_view(&self.service_name),
            environment_file: opt_view(&self.environment_file),
            request_body_max_size: self.request_body_max_size@,
            read_timeout: self.read_timeout@,
            encryption_env: opt_view(&self.encryption_env),
            warp_proxy: match &self.warp_proxy {
                Some(w) => Some(w@),
                None => None,
            },
        }
    }
}

impl View for BuildConfig {
    type V = BuildView;

    open spec fn view(&self) -> BuildView {
        BuildView {
            command: match &self.command {
                Some(c) => Some(strings_view(c@)),
                None => None,
            },
            commands: command_lists_view(self.commands@),
            environment: self.environment@,
        }
    }
}

pub open spec fn opt_build_view(b: &Option<BuildConfig>) -> Option<BuildView> {
    match b {
        Some(b) => Some(b@),
        None => None,
    }
}

impl View for ServiceConfig {
    type V = ServiceConfigView;

    open spec fn view(&self) -> ServiceConfigView {
        ServiceConfigView {
            name: self.name@,
            kind: self.kind,
            local_path: self.local_path@,
            remote_path: self.remote_path@,
            sync_source: self.sync_source@,
            host: opt_view(&self.host),
            route_path: opt_view(&self.route_path),
            port: self.port,
            entrypoint: opt_view(&self.entrypoint),
            service_name: opt_view(&self.service_name),
            environment: self.environment@,
            build: opt_build_view(&self.build),
        }
    }
}

impl View for Config {
    type V = ConfigView;

    open spec fn view(&self) -> ConfigView {
        ConfigView {
            manifest_version: self.manifest_version,
            remote: self.remote@,
            caddy: self.caddy@,
            pocketbase: match &self.pocketbase {
                Some(p) => Some(p@),
                None => None,
            },
            services: self.services@.map_values(|s: ServiceConfig| s@),
        }
    }
}

impl View for ResolvedWarpProxy {
    type V = WarpProxyView;

    open spec fn view(&self) -> WarpProxyView {
        WarpProxyView {
            port: self.port,
            cli: self.cli@,
            daemon_service: self.daemon_service@,
            service_name: self.service_name@,
        }
    }
}

impl View for ResolvedPocketBase {
    type V = PocketBaseView;

    open spec fn view(&self) -> PocketBaseView {
        PocketBaseView {
            name: self.name@,
            host: self.host@,
            source_path: self.source_path@,
            remote_path: self.remote_path@,
            data_dir: self.data_dir@,
            backup_dir: opt_view(&self.backup_dir),
            port: self.port,
            binary: self.binary@,
            service_name: self.service_name@,
            environment_file: opt_view(&self.environment_file),
            request_body_max_size: self.request_body_max_size@,
            read_timeout: self.read_timeout@,
            encryption_env: opt_view(&self.encryption_env),
            warp_proxy: match &self.warp_proxy {
                Some(w) => Some(w@),
                None => None,
            },
        }
    }
}

impl View for ResolvedServiceKind {
    type V = ServiceKindView;

    open spec fn view(&self) -> ServiceKindView {
        match self {
            ResolvedServiceKind::DenoApp { port, entrypoint, service_name, environment } =>
                ServiceKindView::DenoApp {
                port: *port,
                entrypoint: entrypoint@,
                service_name: service_name@,
                environment: environment@,
            },
            ResolvedServiceKind::StaticSite => ServiceKindView::StaticSite,
        }
    }
}

impl View for ResolvedService {
    type V = ServiceView;

    open spec fn view(&self) -> ServiceView {
        ServiceView {
            name: self.name@,
            kind: self.kind@,
            local_path: self.local_path@,
            remote_path: self.remote_path@,
            sync_source: self.sync_source@,
            host: self.host@,
            route_path: self.route_path@,
            build: opt_build_view(&self.build),
        }
    }
}

pub open spec fn services_view(v: Seq<ResolvedService>) -> Seq<ServiceView> {
    v.map_values(|s: ResolvedService| s@)
}

pub open spec fn opt_pocketbase_view(p: &Option<ResolvedPocketBase>) -> Option<PocketBaseView> {
    match p {
        Some(p) => Some(p@),
        None => None,
    }
}

impl View for ServiceMap {
    type V = ServiceMapView;

    open spec fn view(&self) -> ServiceMapView {
        ServiceMapView {
            root: self.root@,
            remote: self.remote@,
            caddy: self.caddy@,
            pocketbase: opt_pocketbase_view(&self.pocketbase),
            services: services_view(self.services@),
        }
    }
}

// ---------------------------------------------------------------------------
// Queries
// ---------------------------------------------------------------------------

/// The build steps in the order they run.
pub open spec fn build_commands_of(b: BuildView) -> Seq<Seq<Text>> {
    match b.command {
        Some(c) => seq![c],
        None => b.commands,
    }
}

pub open spec fn is_deno(s: ServiceView) -> bool {
    s.kind is DenoApp
}

/// The names of the systemd units the map owns: one per Deno service in
/// order, then the WARP proxy unit and the PocketBase unit.
pub open spec fn systemd_names_of(m: ServiceMapView) -> Seq<Text> {
    let deno = m.services.filter(|s: ServiceView| is_deno(s)).map_values(
        |s: ServiceView| s.kind->DenoApp_service_name,
    );
    match m.pocketbase {
        Some(pb) => match pb.warp_proxy {
            Some(w) => deno.push(w.service_name).push(pb.service_name),
            None => deno.push(pb.service_name),
        },
        None => deno,
    }
}

impl BuildConfig {
    /// The build commands in the order they run: `command` alone when given,
    /// else `commands`.
    pub fn commands(&self) -> (r: Vec<&Vec<String>>)
        ensures
            r@.map_values(|c: &Vec<String>| strings_view(c@)) == build_commands_of(self@),
    {
        if let Some(command) = &self.command {
            let r = vec![command];
            assert(r@.map_values(|c: &Vec<String>| strings_view(c@)) =~= build_commands_of(self@));
            return r;
        }
        let mut r: Vec<&Vec<String>> = Vec::new();
        let mut i: usize = 0;
        while i < self.commands.len()
            invariant
                self.command is None,
                i <= self.commands@.len(),
                r@.map_values(|c: &Vec<String>| strings_view(c@)) =~= command_lists_view(
                    self.commands@,
                ).take(i as int),
            decreases self.commands@.len() - i,
        {
            let ghost prev = r@;
            r.push(&self.commands[i]);
            proof {
                assert(r@ == prev.push(&self.commands@[i as int]));
                assert(r@.map_values(|c: &Vec<String>| strings_view(c@)) =~= prev.map_values(
                    |c: &Vec<String>| strings_view(c@),
                ).push(strings_view(self.commands@[i as int]@)));
                assert(command_lists_view(self.commands@).take(i + 1) =~= command_lists_view(
                    self.commands@,
                ).take(i as int).push(strings_view(self.commands@[i as int]@)));
            }
            i = i + 1;
        }
        assert(command_lists_view(self.commands@).take(i as int) =~= command_lists_view(
            self.commands@,
        ));
        r
    }
}

impl ServiceMap {
    /// The Deno services, in configuration order.
    pub fn deno_services(&self) -> (r: Vec<&ResolvedService>)
        ensures
            r@.map_values(|s: &ResolvedService| s@) == self@.services.filter(
                |s: ServiceView| is_deno(s),
            ),
    {
        let mut r: Vec<&ResolvedService> = Vec::new();
        let mut i: usize = 0;
        let ghost all = self@.services;
        while i < self.services.len()
            invariant
                i <= self.services@.len(),
                all == services_view(self.services@),
                r@.map_values(|s: &ResolvedService| s@) =~= all.take(i as int).filter(
                    |s: ServiceView| is_deno(s),
                ),
            decreases self.services@.len() - i,
        {
            let ghost prev = r@;
            proof {
                reveal_with_fuel(Seq::<_>::filter, 1);
                assert(all.take(i + 1).drop_last() =~= all.take(i as int));
                assert(all[i as int] == self.services@[i as int]@);
            }
            if let ResolvedServiceKind::DenoApp { .. } = &self.services[i].kind {
                r.push(&self.services[i]);
            }
            i = i + 1;
        }
        assert(all.take(i as int) =~= all);
        r
    }

    /// The systemd units this map owns (see `systemd_names_of`).
    pub fn systemd_service_names(&self) -> (r: Vec<String>)
        ensures
            strings_view(r@) == systemd_names_of(self@),
    {
        let deno = self.deno_services();
        let mut names: Vec<String> = Vec::new();
        let mut i: usize = 0;
        let ghost filtered = self@.services.filter(|s: ServiceView| is_deno(s));
        proof {
            reveal_with_fuel(Seq::<_>::filter, 1);
        }
        while i < deno.len()
            invariant
                i <= deno@.len(),
                deno@.map_values(|s: &ResolvedService| s@) == filtered,
                forall|j: int| 0 <= j < filtered.len() ==> is_deno(#[trigger] filtered[j]),
                strings_view(names@) =~= filtered.take(i as int).map_values(
                    |s: ServiceView| s.kind->DenoApp_service_name,
                ),
            decreases deno@.len() - i,
        {
            proof {
                assert(filtered[i as int] == deno@[i as int]@);
            }
            let ghost prev = names@;
            match &deno[i].kind {
                ResolvedServiceKind::DenoApp { service_name, .. } => {
                    let name = crate::text::to_string(service_name.as_str());
                    names.push(name);
                    proof {
                        assert(names@ == prev.push(name));
                        assert(strings_view(names@) =~= strings_view(prev).push(name@));
                    }
                },
                ResolvedServiceKind::StaticSite => {},
            }
            proof {
                assert(filtered.take(i + 1) =~= filtered.take(i as int).push(filtered[i as int]));
            }
            i = i + 1;
        }
        assert(filtered.take(i as int) =~= filtered);
        if let Some(pocketbase) = &self.pocketbase {
            if let Some(warp_proxy) = &pocketbase.warp_proxy {
                names.push(crate::text::to_string(warp_proxy.service_name.as_str()));
            }
            names.push(crate::text::to_string(pocketbase.service_name.as_str()));
        }
        assert(strings_view(names@) =~= systemd_names_of(self@));
        names
    }
}

} // verus!
