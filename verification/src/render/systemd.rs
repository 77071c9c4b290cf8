//! systemd unit files for the Deno services, PocketBase and its WARP proxy.
use vstd::prelude::*;

use crate::config::types::{
    PocketBaseView, ResolvedPocketBase, ResolvedService, ResolvedServiceKind, ResolvedWarpProxy,
    ServiceMap, ServiceView, Text, WarpProxyView,
};
use crate::deploy::remote::{remote_child, remote_child_of};
use crate::env::{
    EnvEntries, env_lookup, insert_if_absent, keys_sorted, law_insert_if_absent_lookup,
    lemma_insert_if_absent_other,
};
use crate::text::{
    decimal, has_substring, lemma_substring_extend_left, lemma_substring_extend_right,
    lemma_substring_of_self, replace_char, str_replace_char, str_starts_with, str_starts_with_char, to_string,
    u64_to_decimal,
};

verus! {

/// A rendered unit file: its file name and its contents.
#[derive(Debug, PartialEq, Eq)]
pub struct SystemdUnit {
    pub name: String,
    pub content: String,
}

pub struct SystemdUnitView {
    pub name: Text,
    pub content: Text,
}

impl View for SystemdUnit {
    type V = SystemdUnitView;

    open spec fn view(&self) -> SystemdUnitView {
        SystemdUnitView { name: self.name@, content: self.content@ }
    }
}

// ---------------------------------------------------------------------------
// Pieces
// ---------------------------------------------------------------------------

/// The entrypoint as Deno is given it: absolute and `./` paths stay, others get `./`.
pub open spec fn entrypoint_argument_of(entrypoint: Text) -> Text {
    if (entrypoint.len() > 0 && entrypoint[0] == '/') || "./"@.is_prefix_of(entrypoint) {
        entrypoint
    } else {
        "./"@ + entrypoint
    }
}

pub fn entrypoint_argument(entrypoint: &str) -> (r: String)
    ensures
        r@ == entrypoint_argument_of(entrypoint@),
{
    if str_starts_with_char(entrypoint, '/') || str_starts_with(entrypoint, "./") {
        to_string(entrypoint)
    } else {
        let mut r = to_string("./");
        r.append(entrypoint);
        r
    }
}

/// A quoted `KEY=value` assignment, with `\` and `"` escaped in the value.
pub open spec fn environment_value_of(key: Text, value: Text) -> Text {
    "\""@ + key + "="@ + replace_char(replace_char(value, '\\', "\\\\"@), '"', "\\\""@) + "\""@
}

pub fn systemd_environment_value(key: &str, value: &str) -> (r: String)
    ensures
        r@ == environment_value_of(key@, value@),
{
    let backslashes = str_replace_char(value, '\\', "\\\\");
    let escaped = str_replace_char(backslashes.as_str(), '"', "\\\"");
    let mut r = to_string("\"");
    r.append(key);
    r.append("=");
    r.append(escaped.as_str());
    r.append("\"");
    r
}

/// The local address of the WARP HTTP proxy.
pub open spec fn warp_proxy_url_of(port: u16) -> Text {
    "http://127.0.0.1:"@ + decimal(port as nat)
}

pub fn warp_proxy_url(port: u16) -> (r: String)
    ensures
        r@ == warp_proxy_url_of(port),
{
    let mut r = to_string("http://127.0.0.1:");
    r.append(u64_to_decimal(port as u64).as_str());
    r
}

/// One `Environment=` line per variable, in key order.
pub open spec fn environment_lines_of(env: EnvEntries) -> Text
    decreases env.len(),
{
    if env.len() == 0 {
        seq![]
    } else {
        environment_lines_of(env.drop_last()) + "Environment="@ + environment_value_of(
            env.last().0,
            env.last().1,
        ) + "\n"@
    }
}

// ---------------------------------------------------------------------------
// Units
// ---------------------------------------------------------------------------

/// The environment of a Deno service: its own variables, with `HOST` and
/// `PORT` filled in where it does not set them.
pub open spec fn deno_environment_of(environment: EnvEntries, port: u16) -> EnvEntries {
    insert_if_absent(insert_if_absent(environment, "HOST"@, "127.0.0.1"@), "PORT"@, decimal(port as nat))
}

/// The unit of a Deno service.
pub open spec fn deno_unit_of(deno_bin: Text, s: ServiceView) -> SystemdUnitView {
    let port = s.kind->DenoApp_port;
    let entrypoint = s.kind->DenoApp_entrypoint;
    SystemdUnitView {
        name: s.kind->DenoApp_service_name,
        content: "[Unit]\nDescription=vaie.art managed Deno service - "@ + s.name
            + "\nAfter=network-online.target\nWants=network-online.target\n\n[Service]\nType=simple\nUser=root\nGroup=root\nWorkingDirectory="@
            + s.remote_path + "\n"@ + environment_lines_of(
            deno_environment_of(s.kind->DenoApp_environment, port),
        ) + "ExecStart="@ + deno_bin + " run -A "@ + entrypoint_argument_of(entrypoint)
            + "\nRestart=on-failure\nRestartSec=3\n\n[Install]\nWantedBy=multi-user.target\n"@,
    }
}

fn append_environment_lines(out: &mut String, env: &crate::env::EnvVars)
    ensures
        final(out)@ == old(out)@ + environment_lines_of(env@),
{
    let ghost start = out@;
    let n = env.len();
    let mut i: usize = 0;
    while i < n
        invariant
            n == env@.len(),
            i <= n,
            out@ == start + environment_lines_of(env@.take(i as int)),
        decreases n - i,
    {
        let (k, v) = env.entry(i);
        out.append("Environment=");
        out.append(systemd_environment_value(k.as_str(), v.as_str()).as_str());
        out.append("\n");
        proof {
            let t = env@.take(i + 1);
            assert(t.drop_last() =~= env@.take(i as int));
            assert(t.last() == env@[i as int]);
        }
        i = i + 1;
    }
    assert(env@.take(n as int) =~= env@);
}

/// The unit of a Deno service; `service` must be a Deno app.
pub fn render_systemd_unit(map: &ServiceMap, service: &ResolvedService) -> (r: SystemdUnit)
    requires
        service@.kind is DenoApp,
    ensures
        r@ == deno_unit_of(map@.remote.deno_bin, service@),
        keys_sorted(deno_environment_of(service@.kind->DenoApp_environment, service@.kind->DenoApp_port)),
{
    let deno_bin = map.remote.deno_bin.as_str();
    let (port, entrypoint, service_name, environment) = match &service.kind {
        ResolvedServiceKind::DenoApp { port, entrypoint, service_name, environment } => (
            *port,
            entrypoint,
            service_name,
            environment,
        ),
        ResolvedServiceKind::StaticSite => {
            proof {
                assert(false);
            }
            return SystemdUnit { name: String::new(), content: String::new() };
        },
    };
    let mut env = environment.duplicate();
    env.insert_if_absent(to_string("HOST"), to_string("127.0.0.1"));
    env.insert_if_absent(to_string("PORT"), u64_to_decimal(port as u64));
    let mut out = to_string("[Unit]\nDescription=vaie.art managed Deno service - ");
    out.append(service.name.as_str());
    out.append(
        "\nAfter=network-online.target\nWants=network-online.target\n\n[Service]\nType=simple\nUser=root\nGroup=root\nWorkingDirectory=",
    );
    out.append(service.remote_path.as_str());
    out.append("\n");
    append_environment_lines(&mut out, &env);
    out.append("ExecStart=");
    out.append(deno_bin);
    out.append(" run -A ");
    out.append(entrypoint_argument(entrypoint.as_str()).as_str());
    out.append("\nRestart=on-failure\nRestartSec=3\n\n[Install]\nWantedBy=multi-user.target\n");
    let r = SystemdUnit { name: service_name.clone(), content: out };
    assert(r@.content =~= deno_unit_of(map@.remote.deno_bin, service@).content);
    r
}

/// The oneshot unit that puts the WARP client in proxy mode and probes it.
pub open spec fn warp_unit_of(pb: PocketBaseView, w: WarpProxyView) -> SystemdUnitView {
    SystemdUnitView {
        name: w.service_name,
        content: "[Unit]\nDescription=vaie.art managed WARP proxy for PocketBase - "@ + pb.name
            + "\nAfter=network-online.target "@ + w.daemon_service
            + "\nWants=network-online.target\nRequires="@ + w.daemon_service + "\nBefore="@
            + pb.service_name + "\n\n[Service]\nType=oneshot\nRemainAfterExit=yes\nExecStart="@
            + w.cli + " tunnel protocol set MASQUE\nExecStart="@ + w.cli
            + " mode proxy\nExecStart="@ + w.cli + " proxy port "@ + decimal(w.port as nat)
            + "\nExecStart="@ + w.cli
            + " connect\nExecStart=/usr/bin/curl --fail --silent --show-error --retry 10 --retry-all-errors --retry-delay 1 --retry-max-time 60 --connect-timeout 3 --max-time 8 --proxy "@
            + warp_proxy_url_of(w.port)
            + " https://discord.com/api/v10/gateway\nTimeoutStartSec=120\n\n[Install]\nWantedBy=multi-user.target\n"@,
    }
}

pub fn render_warp_proxy_systemd_unit(pocketbase: &ResolvedPocketBase, warp_proxy: &ResolvedWarpProxy) -> (r: SystemdUnit)
    ensures
        r@ == warp_unit_of(pocketbase@, warp_proxy@),
{
    let mut out = to_string("[Unit]\nDescription=vaie.art managed WARP proxy for PocketBase - ");
    out.append(pocketbase.name.as_str());
    out.append("\nAfter=network-online.target ");
    out.append(warp_proxy.daemon_service.as_str());
    out.append("\nWants=network-online.target\nRequires=");
    out.append(warp_proxy.daemon_service.as_str());
    out.append("\nBefore=");
    out.append(pocketbase.service_name.as_str());
    out.append("\n\n[Service]\nType=oneshot\nRemainAfterExit=yes\nExecStart=");
    out.append(warp_proxy.cli.as_str());
    out.append(" tunnel protocol set MASQUE\nExecStart=");
    out.append(warp_proxy.cli.as_str());
    out.append(" mode proxy\nExecStart=");
    out.append(warp_proxy.cli.as_str());
    out.append(" proxy port ");
    out.append(u64_to_decimal(warp_proxy.port as u64).as_str());
    out.append("\nExecStart=");
    out.append(warp_proxy.cli.as_str());
    out.append(
        " connect\nExecStart=/usr/bin/curl --fail --silent --show-error --retry 10 --retry-all-errors --retry-delay 1 --retry-max-time 60 --connect-timeout 3 --max-time 8 --proxy ",
    );
    out.append(warp_proxy_url(warp_proxy.port).as_str());
    out.append(" https://discord.com/api/v10/gateway\nTimeoutStartSec=120\n\n[Install]\nWantedBy=multi-user.target\n");
    let r = SystemdUnit { name: warp_proxy.service_name.clone(), content: out };
    assert(r@.content =~= warp_unit_of(pocketbase@, warp_proxy@).content);
    r
}

/// The `[Unit]` ordering lines of PocketBase: after the WARP unit when there is one.
pub open spec fn pocketbase_ordering_of(w: Option<WarpProxyView>) -> Text {
    match w {
        Some(w) => "After=network-online.target "@ + w.service_name
            + "\nWants=network-online.target\nRequires="@ + w.service_name + "\n\n"@,
        None => "After=network-online.target\nWants=network-online.target\n\n"@,
    }
}

/// The `EnvironmentFile=` line, when a file is configured.
pub open spec fn environment_file_line_of(f: Option<Text>) -> Text {
    match f {
        Some(f) => "EnvironmentFile="@ + f + "\n"@,
        None => seq![],
    }
}

/// The proxy variables of PocketBase when it goes through WARP.
pub open spec fn proxy_lines_of(w: Option<WarpProxyView>) -> Text {
    match w {
        Some(w) => "Environment="@ + environment_value_of("HTTPS_PROXY"@, warp_proxy_url_of(w.port))
            + "\nEnvironment=\"NO_PROXY=127.0.0.1,localhost,::1\"\n"@,
        None => seq![],
    }
}

/// The `--encryptionEnv` flag, when one is configured.
pub open spec fn encryption_flag_of(e: Option<Text>) -> Text {
    match e {
        Some(e) => " --encryptionEnv="@ + e,
        None => seq![],
    }
}

/// The unit of the PocketBase service.
pub open spec fn pocketbase_unit_of(pb: PocketBaseView) -> SystemdUnitView {
    SystemdUnitView {
        name: pb.service_name,
        content: "[Unit]\nDescription=vaie.art managed PocketBase service - "@ + pb.name + "\n"@
            + pocketbase_ordering_of(pb.warp_proxy)
            + "[Service]\nType=simple\nUser=root\nGroup=root\nWorkingDirectory="@ + pb.remote_path
            + "\nLimitNOFILE=4096\n"@ + environment_file_line_of(pb.environment_file)
            + proxy_lines_of(pb.warp_proxy) + "ExecStart="@ + pb.binary
            + " serve --http=127.0.0.1:"@ + decimal(pb.port as nat) + " --dir="@ + pb.data_dir
            + " --migrationsDir="@ + remote_child_of(pb.remote_path, "pb_migrations"@)
            + encryption_flag_of(pb.encryption_env)
            + "\nRestart=on-failure\nRestartSec=3\n\n[Install]\nWantedBy=multi-user.target\n"@,
    }
}

pub fn render_pocketbase_systemd_unit(pocketbase: &ResolvedPocketBase) -> (r: SystemdUnit)
    ensures
        r@ == pocketbase_unit_of(pocketbase@),
{
    let ghost pb = pocketbase@;
    let mut out = to_string("[Unit]\nDescription=vaie.art managed PocketBase service - ");
    out.append(pocketbase.name.as_str());
    out.append("\n");
    let ghost head = out@;
    match &pocketbase.warp_proxy {
        Some(w) => {
            out.append("After=network-online.target ");
            out.append(w.service_name.as_str());
            out.append("\nWants=network-online.target\nRequires=");
            out.append(w.service_name.as_str());
            out.append("\n\n");
        },
        None => {
            out.append("After=network-online.target\nWants=network-online.target\n\n");
        },
    }
    assert(out@ =~= head + pocketbase_ordering_of(pb.warp_proxy));
    out.append("[Service]\nType=simple\nUser=root\nGroup=root\nWorkingDirectory=");
    out.append(pocketbase.remote_path.as_str());
    out.append("\nLimitNOFILE=4096\n");
    let ghost before_file = out@;
    if let Some(f) = &pocketbase.environment_file {
        out.append("EnvironmentFile=");
        out.append(f.as_str());
        out.append("\n");
    }
    assert(out@ =~= before_file + environment_file_line_of(pb.environment_file));
    let ghost before_proxy = out@;
    if let Some(w) = &pocketbase.warp_proxy {
        out.append("Environment=");
        out.append(systemd_environment_value("HTTPS_PROXY", warp_proxy_url(w.port).as_str()).as_str());
        out.append("\nEnvironment=\"NO_PROXY=127.0.0.1,localhost,::1\"\n");
    }
    assert(out@ =~= before_proxy + proxy_lines_of(pb.warp_proxy));
    out.append("ExecStart=");
    out.append(pocketbase.binary.as_str());
    out.append(" serve --http=127.0.0.1:");
    out.append(u64_to_decimal(pocketbase.port as u64).as_str());
    out.append(" --dir=");
    out.append(pocketbase.data_dir.as_str());
    out.append(" --migrationsDir=");
    out.append(remote_child(pocketbase.remote_path.as_str(), "pb_migrations").as_str());
    let ghost before_flag = out@;
    if let Some(e) = &pocketbase.encryption_env {
        out.append(" --encryptionEnv=");
        out.append(e.as_str());
    }
    assert(out@ =~= before_flag + encryption_flag_of(pb.encryption_env));
    out.append("\nRestart=on-failure\nRestartSec=3\n\n[Install]\nWantedBy=multi-user.target\n");
    let r = SystemdUnit { name: pocketbase.service_name.clone(), content: out };
    assert(r@.content =~= pocketbase_unit_of(pb).content);
    r
}

/// A Deno service keeps the `HOST` and `PORT` it sets itself; only where it
/// sets none does `HOST` become `127.0.0.1` and `PORT` its port. Every other
/// variable keeps its value, and the keys stay in order.
pub proof fn law_deno_environment_keeps_own_host_and_port(env: EnvEntries, port: u16, k: Text)
    requires
        keys_sorted(env),
    ensures
        ({
            let e = deno_environment_of(env, port);
            &&& keys_sorted(e)
            &&& env_lookup(e, "HOST"@) == (match env_lookup(env, "HOST"@) {
                Some(h) => Some(h),
                None => Some("127.0.0.1"@),
            })
            &&& env_lookup(e, "PORT"@) == (match env_lookup(env, "PORT"@) {
                Some(p) => Some(p),
                None => Some(decimal(port as nat)),
            })
            &&& k != "HOST"@ && k != "PORT"@ ==> env_lookup(e, k) == env_lookup(env, k)
        }),
{
    reveal_strlit("HOST");
    reveal_strlit("PORT");
    assert("HOST"@[0] != "PORT"@[0]);
    let e1 = insert_if_absent(env, "HOST"@, "127.0.0.1"@);
    law_insert_if_absent_lookup(env, "HOST"@, "127.0.0.1"@);
    lemma_insert_if_absent_other(env, "HOST"@, "127.0.0.1"@, "PORT"@);
    lemma_insert_if_absent_other(env, "HOST"@, "127.0.0.1"@, k);
    law_insert_if_absent_lookup(e1, "PORT"@, decimal(port as nat));
    lemma_insert_if_absent_other(e1, "PORT"@, decimal(port as nat), "HOST"@);
    lemma_insert_if_absent_other(e1, "PORT"@, decimal(port as nat), k);
}

/// A variable that the environment sets gets its `Environment=` line.
proof fn lemma_environment_line_occurs(e: EnvEntries, k: Text, v: Text)
    requires
        env_lookup(e, k) == Some(v),
    ensures
        has_substring(environment_lines_of(e), "Environment="@ + environment_value_of(k, v) + "\n"@),
    decreases e.len(),
{
    let prev = environment_lines_of(e.drop_last());
    let t = "Environment="@ + environment_value_of(k, v) + "\n"@;
    let last = "Environment="@ + environment_value_of(e.last().0, e.last().1) + "\n"@;
    assert(environment_lines_of(e) =~= prev + last);
    if e.last().0 == k {
        lemma_substring_of_self(t);
        lemma_substring_extend_left(prev, last, t);
    } else {
        lemma_environment_line_occurs(e.drop_last(), k, v);
        lemma_substring_extend_right(prev, last, t);
    }
}

/// The unit of a Deno service sets `HOST` to the service's own `HOST` when it
/// has one and to `127.0.0.1` otherwise, and `PORT` to its own `PORT` when it
/// has one and to the service's port otherwise.
pub proof fn law_deno_unit_sets_own_host_and_port(deno_bin: Text, s: ServiceView)
    requires
        s.kind is DenoApp,
        keys_sorted(s.kind->DenoApp_environment),
    ensures
        ({
            let env = s.kind->DenoApp_environment;
            let host = match env_lookup(env, "HOST"@) {
                Some(h) => h,
                None => "127.0.0.1"@,
            };
            let port = match env_lookup(env, "PORT"@) {
                Some(p) => p,
                None => decimal(s.kind->DenoApp_port as nat),
            };
            &&& has_substring(deno_unit_of(deno_bin, s).content, "Environment="@ + environment_value_of("HOST"@, host) + "\n"@)
            &&& has_substring(deno_unit_of(deno_bin, s).content, "Environment="@ + environment_value_of("PORT"@, port) + "\n"@)
        }),
{
    let env = s.kind->DenoApp_environment;
    let e = deno_environment_of(env, s.kind->DenoApp_port);
    law_deno_environment_keeps_own_host_and_port(env, s.kind->DenoApp_port, "HOST"@);
    let host = match env_lookup(env, "HOST"@) {
        Some(h) => h,
        None => "127.0.0.1"@,
    };
    let port = match env_lookup(env, "PORT"@) {
        Some(p) => p,
        None => decimal(s.kind->DenoApp_port as nat),
    };
    let a = "[Unit]\nDescription=vaie.art managed Deno service - "@ + s.name
        + "\nAfter=network-online.target\nWants=network-online.target\n\n[Service]\nType=simple\nUser=root\nGroup=root\nWorkingDirectory="@
        + s.remote_path + "\n"@;
    let lines = environment_lines_of(e);
    let b = "ExecStart="@ + deno_bin + " run -A "@ + entrypoint_argument_of(s.kind->DenoApp_entrypoint)
        + "\nRestart=on-failure\nRestartSec=3\n\n[Install]\nWantedBy=multi-user.target\n"@;
    assert(deno_unit_of(deno_bin, s).content =~= (a + lines) + b);
    let th = "Environment="@ + environment_value_of("HOST"@, host) + "\n"@;
    let tp = "Environment="@ + environment_value_of("PORT"@, port) + "\n"@;
    lemma_environment_line_occurs(e, "HOST"@, host);
    lemma_environment_line_occurs(e, "PORT"@, port);
    lemma_substring_extend_left(a, lines, th);
    lemma_substring_extend_right(a + lines, b, th);
    lemma_substring_extend_left(a, lines, tp);
    lemma_substring_extend_right(a + lines, b, tp);
}

/// With a WARP proxy configured, PocketBase's unit sends its HTTPS requests
/// through the proxy's local port and keeps loopback addresses off the proxy.
pub proof fn law_pocketbase_unit_uses_warp_proxy(pb: PocketBaseView)
    requires
        pb.warp_proxy is Some,
    ensures
        has_substring(
            pocketbase_unit_of(pb).content,
            "Environment="@ + environment_value_of("HTTPS_PROXY"@, warp_proxy_url_of(pb.warp_proxy->Some_0.port))
                + "\nEnvironment=\"NO_PROXY=127.0.0.1,localhost,::1\"\n"@,
        ),
{
    let t = proxy_lines_of(pb.warp_proxy);
    let a = "[Unit]\nDescription=vaie.art managed PocketBase service - "@ + pb.name + "\n"@
        + pocketbase_ordering_of(pb.warp_proxy)
        + "[Service]\nType=simple\nUser=root\nGroup=root\nWorkingDirectory="@ + pb.remote_path
        + "\nLimitNOFILE=4096\n"@ + environment_file_line_of(pb.environment_file);
    let b = "ExecStart="@ + pb.binary
        + " serve --http=127.0.0.1:"@ + decimal(pb.port as nat) + " --dir="@ + pb.data_dir
        + " --migrationsDir="@ + remote_child_of(pb.remote_path, "pb_migrations"@)
        + encryption_flag_of(pb.encryption_env)
        + "\nRestart=on-failure\nRestartSec=3\n\n[Install]\nWantedBy=multi-user.target\n"@;
    assert(pocketbase_unit_of(pb).content =~= (a + t) + b);
    lemma_substring_of_self(t);
    lemma_substring_extend_left(a, t, t);
    lemma_substring_extend_right(a + t, b, t);
}

} // verus!
