//! The script that installs uploaded artifacts on the remote host.
use vstd::prelude::*;

use crate::config::types::{
    PocketBaseView, ResolvedPocketBase, ResolvedService, ResolvedServiceKind, ServiceMap,
    ServiceMapView, ServiceView, Text, WarpProxyView, is_deno, services_view, systemd_names_of,
};
use crate::deploy::remote::{remote_child, remote_child_of, sh_quote, sh_quote_of};
use crate::text::{
    has_substring, join_strings, join_with, lemma_substring_extend_left, lemma_substring_extend_right,
    lemma_substring_of_self, to_string,
};

verus! {

// ---------------------------------------------------------------------------
// PocketBase and WARP preflight checks
// ---------------------------------------------------------------------------

/// A check that stops the script with two messages unless a shell test passes.
pub open spec fn guard_of(test_open: Text, subject: Text, test_close: Text, message: Text, hint: Text) -> Text {
    test_open + sh_quote_of(subject) + test_close + sh_quote_of(message) + " >&2\n    echo "@
        + sh_quote_of(hint) + " >&2\n    exit 1\nfi\n"@
}

fn append_guard(
    script: &mut String,
    test_open: &str,
    subject: &str,
    test_close: &str,
    message: &str,
    hint: &str,
)
    ensures
        final(script)@ == old(script)@ + guard_of(test_open@, subject@, test_close@, message@, hint@),
{
    let ghost start = script@;
    script.append(test_open);
    script.append(sh_quote(subject).as_str());
    script.append(test_close);
    script.append(sh_quote(message).as_str());
    script.append(" >&2\n    echo ");
    script.append(sh_quote(hint).as_str());
    script.append(" >&2\n    exit 1\nfi\n");
    assert(script@ =~= start + guard_of(test_open@, subject@, test_close@, message@, hint@));
}

/// A check that stops the script with one message unless a shell test passes.
pub open spec fn short_guard_of(test_open: Text, subject: Text, test_close: Text, message: Text) -> Text {
    test_open + sh_quote_of(subject) + test_close + sh_quote_of(message) + " >&2\n    exit 1\nfi\n"@
}

fn append_short_guard(script: &mut String, test_open: &str, subject: &str, test_close: &str, message: &str)
    ensures
        final(script)@ == old(script)@ + short_guard_of(test_open@, subject@, test_close@, message@),
{
    let ghost start = script@;
    script.append(test_open);
    script.append(sh_quote(subject).as_str());
    script.append(test_close);
    script.append(sh_quote(message).as_str());
    script.append(" >&2\n    exit 1\nfi\n");
    assert(script@ =~= start + short_guard_of(test_open@, subject@, test_close@, message@));
}

/// The encryption key must be defined in the environment file.
pub open spec fn encryption_check_of(key: Text, file: Text) -> Text {
    "if ! grep -Eq "@ + sh_quote_of("^[[:space:]]*"@ + key + "[[:space:]]*="@) + " "@ + sh_quote_of(file)
        + "; then\n    echo "@ + sh_quote_of("PocketBase environment file does not define "@ + key + ": "@ + file) + " >&2\n    exit 1\nfi\n"@
}

/// The environment file must leave proxy settings to the generated unit.
pub open spec fn proxy_variables_check_of(file: Text) -> Text {
    "if grep -Eiq '^[[:space:]]*(export[[:space:]]+)?(https?_proxy|all_proxy|no_proxy)[[:space:]]*=' "@ + sh_quote_of(file) + "; then\n    echo "@ + sh_quote_of("PocketBase environment file must not define proxy variables when warp_proxy is enabled"@) + " >&2\n    exit 1\nfi\n"@
}

/// WARP needs its CLI, its daemon unit (started), a registration and curl;
/// with an environment file, that file must not set proxy variables.
pub open spec fn warp_preflight_of(w: WarpProxyView, environment_file: Option<Text>) -> Text {
    guard_of("if [ ! -x "@, w.cli, " ]; then\n    echo "@, "missing WARP CLI: "@ + w.cli, "run scripts/setup-warp-proxy.sh on the remote as root"@)
        + guard_of("if ! systemctl cat "@, w.daemon_service, " >/dev/null 2>&1; then\n    echo "@, "missing WARP daemon unit: "@ + w.daemon_service, "run scripts/setup-warp-proxy.sh on the remote as root"@)
        + short_guard_of("if ! systemctl start "@, w.daemon_service, "; then\n    echo "@, "failed to start WARP daemon: "@ + w.daemon_service)
        + short_guard_of("if ! "@, w.cli, " registration show >/dev/null 2>&1; then\n    echo "@, "WARP consumer registration is missing; run scripts/setup-warp-proxy.sh on the remote as root"@)
        + "if [ ! -x /usr/bin/curl ]; then\n    echo 'missing curl: /usr/bin/curl' >&2\n    exit 1\nfi\n"@
        + match environment_file {
            Some(f) => proxy_variables_check_of(f),
            None => Seq::<char>::empty(),
        }
}

/// The environment file must exist, and define the encryption key when one is configured.
pub open spec fn environment_file_checks_of(file: Text, encryption_env: Option<Text>) -> Text {
    guard_of("if [ ! -f "@, file, " ]; then\n    echo "@, "missing PocketBase environment file: "@ + file, "create it on the remote; it holds secrets and is not deployed from this repo"@)
        + match encryption_env {
            Some(k) => encryption_check_of(k, file),
            None => Seq::<char>::empty(),
        }
}

/// The checks run before anything is installed: the PocketBase binary, its
/// environment file and encryption key when configured, and WARP when enabled.
pub open spec fn pocketbase_preflight_of(pb: PocketBaseView) -> Text {
    guard_of("if [ ! -x "@, pb.binary, " ]; then\n    echo "@, "missing PocketBase binary: "@ + pb.binary, "install PocketBase on the remote or update pocketbase.binary in services.toml"@)
        + match pb.environment_file {
            Some(f) => environment_file_checks_of(f, pb.encryption_env),
            None => Seq::<char>::empty(),
        }
        + match pb.warp_proxy {
            Some(w) => warp_preflight_of(w, pb.environment_file),
            None => Seq::<char>::empty(),
        }
}

fn concat_msg(a: &str, b: &str) -> (r: String)
    ensures
        r@ == a@ + b@,
{
    let mut r = to_string(a);
    r.append(b);
    r
}

fn append_warp_preflight(script: &mut String, w: &crate::config::types::ResolvedWarpProxy, environment_file: &Option<String>)
    ensures
        final(script)@ == old(script)@ + warp_preflight_of(w@, crate::text::opt_view(environment_file)),
{
    let ghost start = script@;
    append_guard(script, "if [ ! -x ", w.cli.as_str(), " ]; then\n    echo ", concat_msg("missing WARP CLI: ", w.cli.as_str()).as_str(), "run scripts/setup-warp-proxy.sh on the remote as root");
    append_guard(script, "if ! systemctl cat ", w.daemon_service.as_str(), " >/dev/null 2>&1; then\n    echo ", concat_msg("missing WARP daemon unit: ", w.daemon_service.as_str()).as_str(), "run scripts/setup-warp-proxy.sh on the remote as root");
    append_short_guard(script, "if ! systemctl start ", w.daemon_service.as_str(), "; then\n    echo ", concat_msg("failed to start WARP daemon: ", w.daemon_service.as_str()).as_str());
    append_short_guard(script, "if ! ", w.cli.as_str(), " registration show >/dev/null 2>&1; then\n    echo ", "WARP consumer registration is missing; run scripts/setup-warp-proxy.sh on the remote as root");
    script.append("if [ ! -x /usr/bin/curl ]; then\n    echo 'missing curl: /usr/bin/curl' >&2\n    exit 1\nfi\n");
    let ghost mid = script@;
    if let Some(f) = environment_file {
        script.append("if grep -Eiq '^[[:space:]]*(export[[:space:]]+)?(https?_proxy|all_proxy|no_proxy)[[:space:]]*=' ");
        script.append(sh_quote(f.as_str()).as_str());
        script.append("; then\n    echo ");
        script.append(sh_quote("PocketBase environment file must not define proxy variables when warp_proxy is enabled").as_str());
        script.append(" >&2\n    exit 1\nfi\n");
        assert(script@ =~= mid + proxy_variables_check_of(f@));
    } else {
        assert(script@ =~= mid + Seq::<char>::empty());
    }
    assert(script@ =~= start + warp_preflight_of(w@, crate::text::opt_view(environment_file)));
}

fn append_encryption_check(script: &mut String, k: &str, f: &str)
    ensures
        final(script)@ == old(script)@ + encryption_check_of(k@, f@),
{
    let ghost start = script@;
    let mut pattern = to_string("^[[:space:]]*");
    pattern.append(k);
    pattern.append("[[:space:]]*=");
    let mut message = to_string("PocketBase environment file does not define ");
    message.append(k);
    message.append(": ");
    message.append(f);
    script.append("if ! grep -Eq ");
    script.append(sh_quote(pattern.as_str()).as_str());
    script.append(" ");
    script.append(sh_quote(f).as_str());
    script.append("; then\n    echo ");
    script.append(sh_quote(message.as_str()).as_str());
    script.append(" >&2\n    exit 1\nfi\n");
    assert(script@ =~= start + encryption_check_of(k@, f@));
}

fn append_environment_file_checks(script: &mut String, f: &str, encryption_env: &Option<String>)
    ensures
        final(script)@ == old(script)@ + environment_file_checks_of(f@, crate::text::opt_view(encryption_env)),
{
    let ghost start = script@;
    append_guard(script, "if [ ! -f ", f, " ]; then\n    echo ", concat_msg("missing PocketBase environment file: ", f).as_str(), "create it on the remote; it holds secrets and is not deployed from this repo");
    let ghost after_env = script@;
    if let Some(k) = encryption_env {
        append_encryption_check(script, k.as_str(), f);
    } else {
        assert(script@ =~= after_env + Seq::<char>::empty());
    }
    assert(script@ =~= start + environment_file_checks_of(f@, crate::text::opt_view(encryption_env)));
}

/// Appends the PocketBase (and WARP) preflight checks to a script.
pub fn append_pocketbase_preflight(script: &mut String, pocketbase: &ResolvedPocketBase)
    ensures
        final(script)@ == old(script)@ + pocketbase_preflight_of(pocketbase@),
{
    let ghost start = script@;
    append_guard(script, "if [ ! -x ", pocketbase.binary.as_str(), " ]; then\n    echo ", concat_msg("missing PocketBase binary: ", pocketbase.binary.as_str()).as_str(), "install PocketBase on the remote or update pocketbase.binary in services.toml");
    let ghost after_binary = script@;
    if let Some(f) = &pocketbase.environment_file {
        append_environment_file_checks(script, f.as_str(), &pocketbase.encryption_env);
    } else {
        assert(script@ =~= after_binary + Seq::<char>::empty());
    }
    let ghost after_files = script@;
    if let Some(w) = &pocketbase.warp_proxy {
        append_warp_preflight(script, w, &pocketbase.environment_file);
    } else {
        assert(script@ =~= after_files + Seq::<char>::empty());
    }
    assert(script@ =~= start + pocketbase_preflight_of(pocketbase@));
}

// ---------------------------------------------------------------------------
// Syncing and installing
// ---------------------------------------------------------------------------

/// Mirrors a service's uploaded files into its remote path.
pub open spec fn service_sync_of(s: ServiceView) -> Text {
    "mkdir -p "@ + sh_quote_of(s.remote_path) + "\nrsync -a --delete \"$sync_dir/"@ + s.name + "/\" "@
        + sh_quote_of(remote_child_of(s.remote_path, Seq::<char>::empty())) + "\n"@
}

pub open spec fn services_sync_of(services: Seq<ServiceView>) -> Text
    decreases services.len(),
{
    if services.len() == 0 {
        Seq::<char>::empty()
    } else {
        services_sync_of(services.drop_last()) + service_sync_of(services.last())
    }
}

/// Mirrors PocketBase's uploaded files into its remote path, leaving `pb_data/` alone.
pub open spec fn pocketbase_sync_of(pb: PocketBaseView) -> Text {
    "mkdir -p "@ + sh_quote_of(pb.remote_path) + " "@ + sh_quote_of(pb.data_dir) + match pb.backup_dir {
        Some(b) => " "@ + sh_quote_of(b),
        None => Seq::<char>::empty(),
    } + "\nrsync -a --delete --exclude pb_data/ \"$sync_dir/"@ + pb.name + "/\" "@ + sh_quote_of(
        remote_child_of(pb.remote_path, Seq::<char>::empty()),
    ) + "\n"@
}

/// Installs one unit file when it is new or changed.
pub open spec fn unit_install_of(unit: Text) -> Text {
    "unit="@ + sh_quote_of(unit) + "\nsource_unit=\"$systemd_tmp/$unit\"\ntarget_unit=\"$systemd_dir/$unit\"\nif [ ! -f \"$target_unit\" ] || ! cmp -s \"$source_unit\" \"$target_unit\"; then\n    install -m 0644 \"$source_unit\" \"$target_unit\"\n    systemd_changed=1\nfi\n"@
}

pub open spec fn deno_unit_installs_of(services: Seq<ServiceView>) -> Text
    decreases services.len(),
{
    if services.len() == 0 {
        Seq::<char>::empty()
    } else {
        deno_unit_installs_of(services.drop_last()) + match services.last().kind {
            crate::config::types::ServiceKindView::DenoApp { service_name, .. } => unit_install_of(service_name),
            crate::config::types::ServiceKindView::StaticSite => Seq::<char>::empty(),
        }
    }
}

pub open spec fn pocketbase_unit_installs_of(pb: PocketBaseView) -> Text {
    (match pb.warp_proxy {
        Some(w) => unit_install_of(w.service_name),
        None => Seq::<char>::empty(),
    }) + unit_install_of(pb.service_name)
}

fn append_service_install_sync(script: &mut String, service: &ResolvedService)
    ensures
        final(script)@ == old(script)@ + service_sync_of(service@),
{
    let ghost start = script@;
    script.append("mkdir -p ");
    script.append(sh_quote(service.remote_path.as_str()).as_str());
    script.append("\nrsync -a --delete \"$sync_dir/");
    script.append(service.name.as_str());
    script.append("/\" ");
    script.append(sh_quote(remote_child(service.remote_path.as_str(), "").as_str()).as_str());
    script.append("\n");
    proof {
        reveal_strlit("");
        assert(""@ =~= Seq::<char>::empty());
    }
    assert(script@ =~= start + service_sync_of(service@));
}

fn append_pocketbase_install_sync(script: &mut String, pocketbase: &ResolvedPocketBase)
    ensures
        final(script)@ == old(script)@ + pocketbase_sync_of(pocketbase@),
{
    let ghost start = script@;
    script.append("mkdir -p ");
    script.append(sh_quote(pocketbase.remote_path.as_str()).as_str());
    script.append(" ");
    script.append(sh_quote(pocketbase.data_dir.as_str()).as_str());
    let ghost mid = script@;
    if let Some(b) = &pocketbase.backup_dir {
        script.append(" ");
        script.append(sh_quote(b.as_str()).as_str());
    }
    let ghost after = script@;
    script.append("\nrsync -a --delete --exclude pb_data/ \"$sync_dir/");
    script.append(pocketbase.name.as_str());
    script.append("/\" ");
    script.append(sh_quote(remote_child(pocketbase.remote_path.as_str(), "").as_str()).as_str());
    script.append("\n");
    proof {
        reveal_strlit("");
        assert(""@ =~= Seq::<char>::empty());
        let opt = match pocketbase@.backup_dir {
            Some(b) => " "@ + sh_quote_of(b),
            None => Seq::<char>::empty(),
        };
        assert(after =~= mid + opt);
    }
    assert(script@ =~= start + pocketbase_sync_of(pocketbase@));
}

fn append_systemd_unit_install(script: &mut String, service_name: &str)
    ensures
        final(script)@ == old(script)@ + unit_install_of(service_name@),
{
    let ghost start = script@;
    script.append("unit=");
    script.append(sh_quote(service_name).as_str());
    script.append("\nsource_unit=\"$systemd_tmp/$unit\"\ntarget_unit=\"$systemd_dir/$unit\"\nif [ ! -f \"$target_unit\" ] || ! cmp -s \"$source_unit\" \"$target_unit\"; then\n    install -m 0644 \"$source_unit\" \"$target_unit\"\n    systemd_changed=1\nfi\n");
    assert(script@ =~= start + unit_install_of(service_name@));
}

// ---------------------------------------------------------------------------
// The whole script
// ---------------------------------------------------------------------------

pub open spec fn install_header_of(m: ServiceMapView) -> Text {
    "set -eu\ntmp_dir="@ + sh_quote_of(m.remote.tmp_dir) + "\nsync_dir=\"$tmp_dir/sync\"\nsystemd_tmp=\"$tmp_dir/systemd\"\ncaddy_tmp=\"$tmp_dir/Caddyfile\"\ncaddyfile_path="@
        + sh_quote_of(m.remote.caddyfile_path) + "\nsystemd_dir="@ + sh_quote_of(m.remote.systemd_dir)
        + "\nmanaged_prefix="@ + sh_quote_of(m.remote.managed_prefix) + "\nexpected_units="@
        + sh_quote_of(join_with(systemd_names_of(m), " "@)) + "\nreport_systemctl_failure() {\n    failed_unit=\"$1\"\n    echo \"systemd failed for $failed_unit\" >&2\n    systemctl status \"$failed_unit\" --no-pager --lines=80 || true\n    journalctl -u \"$failed_unit\" --no-pager --lines=120 || true\n}\nbackup_dir=\"$tmp_dir/backups/$(date +%Y%m%d%H%M%S)\"\nmkdir -p \"$backup_dir/systemd\"\nif [ -f \"$caddyfile_path\" ]; then cp \"$caddyfile_path\" \"$backup_dir/Caddyfile\"; fi\nfor unit_path in \"$systemd_dir\"/\"$managed_prefix\"*.service; do\n    [ -e \"$unit_path\" ] || continue\n    cp \"$unit_path\" \"$backup_dir/systemd/\" || true\ndone\n"@
}

/// Installs the uploaded Caddyfile when it is new or changed.
pub open spec fn caddyfile_install_text() -> Text {
    "caddy_changed=0\nif [ ! -f \"$caddyfile_path\" ] || ! cmp -s \"$caddy_tmp\" \"$caddyfile_path\"; then\n    install -m 0644 \"$caddy_tmp\" \"$caddyfile_path\"\n    caddy_changed=1\nfi\nsystemd_changed=0\n"@
}

/// Removes managed units that are no longer expected, then enables and
/// restarts every expected unit and reloads Caddy when its file changed.
pub open spec fn unit_cleanup_text() -> Text {
    "for unit_path in \"$systemd_dir\"/\"$managed_prefix\"*.service; do\n    [ -e \"$unit_path\" ] || continue\n    unit=\"$(basename \"$unit_path\")\"\n    case \" $expected_units \" in\n        *\" $unit \"*) ;;\n        *)\n            systemctl stop \"$unit\" || true\n            systemctl disable \"$unit\" || true\n            rm -f \"$unit_path\"\n            systemd_changed=1\n            ;;\n    esac\ndone\nif [ \"$systemd_changed\" -eq 1 ]; then systemctl daemon-reload; fi\nfor unit in $expected_units; do\n    if ! systemctl enable --now \"$unit\"; then\n        report_systemctl_failure \"$unit\"\n        exit 1\n    fi\ndone\n# Artifact syncs can change server code without changing the systemd unit.\nfor unit in $expected_units; do\n    if ! systemctl restart \"$unit\"; then\n        report_systemctl_failure \"$unit\"\n        exit 1\n    fi\ndone\nif [ \"$caddy_changed\" -eq 1 ]; then systemctl reload caddy || systemctl restart caddy; fi\n"@
}

/// The install script: back up the live Caddyfile and units, run the
/// preflight checks, mirror each upload into place, install changed Caddy
/// and unit files, remove managed units that are no longer expected, then
/// enable and restart every expected unit and reload Caddy when it changed.
pub open spec fn install_script_of(m: ServiceMapView) -> Text {
    install_header_of(m)
        + match m.pocketbase {
            Some(pb) => pocketbase_preflight_of(pb),
            None => Seq::<char>::empty(),
        }
        + services_sync_of(m.services)
        + match m.pocketbase {
            Some(pb) => pocketbase_sync_of(pb),
            None => Seq::<char>::empty(),
        }
        + caddyfile_install_text()
        + deno_unit_installs_of(m.services)
        + match m.pocketbase {
            Some(pb) => pocketbase_unit_installs_of(pb),
            None => Seq::<char>::empty(),
        }
        + unit_cleanup_text()
}

pub fn install_script(map: &ServiceMap) -> (r: String)
    ensures
        r@ == install_script_of(map@),
{
    let ghost m = map@;
    let names = map.systemd_service_names();
    let expected_units = join_strings(&names, " ");
    let mut script = to_string("set -eu\ntmp_dir=");
    script.append(sh_quote(map.remote.tmp_dir.as_str()).as_str());
    script.append("\nsync_dir=\"$tmp_dir/sync\"\nsystemd_tmp=\"$tmp_dir/systemd\"\ncaddy_tmp=\"$tmp_dir/Caddyfile\"\ncaddyfile_path=");
    script.append(sh_quote(map.remote.caddyfile_path.as_str()).as_str());
    script.append("\nsystemd_dir=");
    script.append(sh_quote(map.remote.systemd_dir.as_str()).as_str());
    script.append("\nmanaged_prefix=");
    script.append(sh_quote(map.remote.managed_prefix.as_str()).as_str());
    script.append("\nexpected_units=");
    script.append(sh_quote(expected_units.as_str()).as_str());
    script.append("\nreport_systemctl_failure() {\n    failed_unit=\"$1\"\n    echo \"systemd failed for $failed_unit\" >&2\n    systemctl status \"$failed_unit\" --no-pager --lines=80 || true\n    journalctl -u \"$failed_unit\" --no-pager --lines=120 || true\n}\nbackup_dir=\"$tmp_dir/backups/$(date +%Y%m%d%H%M%S)\"\nmkdir -p \"$backup_dir/systemd\"\nif [ -f \"$caddyfile_path\" ]; then cp \"$caddyfile_path\" \"$backup_dir/Caddyfile\"; fi\nfor unit_path in \"$systemd_dir\"/\"$managed_prefix\"*.service; do\n    [ -e \"$unit_path\" ] || continue\n    cp \"$unit_path\" \"$backup_dir/systemd/\" || true\ndone\n");
    assert(script@ =~= install_header_of(m));
    let ghost p1 = script@;
    if let Some(pocketbase) = &map.pocketbase {
        append_pocketbase_preflight(&mut script, pocketbase);
    } else {
        assert(script@ =~= p1 + Seq::<char>::empty());
    }
    let ghost p2 = script@;
    let ghost sv = services_view(map.services@);
    let mut i: usize = 0;
    while i < map.services.len()
        invariant
            i <= map.services@.len(),
            sv == services_view(map.services@),
            script@ =~= p2 + services_sync_of(sv.take(i as int)),
        decreases map.services@.len() - i,
    {
        append_service_install_sync(&mut script, &map.services[i]);
        assert(sv.take(i + 1).drop_last() =~= sv.take(i as int));
        i = i + 1;
    }
    assert(sv.take(i as int) =~= sv);
    let ghost p3 = script@;
    if let Some(pocketbase) = &map.pocketbase {
        append_pocketbase_install_sync(&mut script, pocketbase);
    } else {
        assert(script@ =~= p3 + Seq::<char>::empty());
    }
    script.append("caddy_changed=0\nif [ ! -f \"$caddyfile_path\" ] || ! cmp -s \"$caddy_tmp\" \"$caddyfile_path\"; then\n    install -m 0644 \"$caddy_tmp\" \"$caddyfile_path\"\n    caddy_changed=1\nfi\nsystemd_changed=0\n");
    let ghost p4 = script@;
    let mut j: usize = 0;
    while j < map.services.len()
        invariant
            j <= map.services@.len(),
            sv == services_view(map.services@),
            script@ =~= p4 + deno_unit_installs_of(sv.take(j as int)),
        decreases map.services@.len() - j,
    {
        let ghost before = script@;
        if let ResolvedServiceKind::DenoApp { service_name, .. } = &map.services[j].kind {
            append_systemd_unit_install(&mut script, service_name.as_str());
        } else {
            assert(script@ =~= before + Seq::<char>::empty());
        }
        assert(sv.take(j + 1).drop_last() =~= sv.take(j as int));
        assert(sv.take(j + 1).last() == map.services@[j as int]@);
        j = j + 1;
    }
    assert(sv.take(j as int) =~= sv);
    let ghost p5 = script@;
    if let Some(pocketbase) = &map.pocketbase {
        let ghost q = script@;
        if let Some(w) = &pocketbase.warp_proxy {
            append_systemd_unit_install(&mut script, w.service_name.as_str());
        } else {
            assert(script@ =~= q + Seq::<char>::empty());
        }
        append_systemd_unit_install(&mut script, pocketbase.service_name.as_str());
        assert(script@ =~= p5 + pocketbase_unit_installs_of(pocketbase@));
    } else {
        assert(script@ =~= p5 + Seq::<char>::empty());
    }
    script.append("for unit_path in \"$systemd_dir\"/\"$managed_prefix\"*.service; do\n    [ -e \"$unit_path\" ] || continue\n    unit=\"$(basename \"$unit_path\")\"\n    case \" $expected_units \" in\n        *\" $unit \"*) ;;\n        *)\n            systemctl stop \"$unit\" || true\n            systemctl disable \"$unit\" || true\n            rm -f \"$unit_path\"\n            systemd_changed=1\n            ;;\n    esac\ndone\nif [ \"$systemd_changed\" -eq 1 ]; then systemctl daemon-reload; fi\nfor unit in $expected_units; do\n    if ! systemctl enable --now \"$unit\"; then\n        report_systemctl_failure \"$unit\"\n        exit 1\n    fi\ndone\n# Artifact syncs can change server code without changing the systemd unit.\nfor unit in $expected_units; do\n    if ! systemctl restart \"$unit\"; then\n        report_systemctl_failure \"$unit\"\n        exit 1\n    fi\ndone\nif [ \"$caddy_changed\" -eq 1 ]; then systemctl reload caddy || systemctl restart caddy; fi\n");
    assert(script@ =~= install_script_of(m));
    script
}

/// The install block of every Deno service's unit occurs among the Deno unit installs.
proof fn lemma_deno_install_occurs(services: Seq<ServiceView>, i: int)
    requires
        0 <= i < services.len(),
        services[i].kind is DenoApp,
    ensures
        has_substring(deno_unit_installs_of(services), unit_install_of(services[i].kind->DenoApp_service_name)),
    decreases services.len(),
{
    let prev = deno_unit_installs_of(services.drop_last());
    let t = unit_install_of(services[i].kind->DenoApp_service_name);
    let last = match services.last().kind {
        crate::config::types::ServiceKindView::DenoApp { service_name, .. } => unit_install_of(service_name),
        crate::config::types::ServiceKindView::StaticSite => Seq::<char>::empty(),
    };
    assert(deno_unit_installs_of(services) == prev + last);
    if i == services.len() - 1 {
        lemma_substring_of_self(t);
        lemma_substring_extend_left(prev, last, t);
    } else {
        assert(services.drop_last()[i] == services[i]);
        lemma_deno_install_occurs(services.drop_last(), i);
        lemma_substring_extend_right(prev, last, t);
    }
}

/// Every unit that the script enables is installed by it first: for each unit
/// the map owns (each Deno service's, the WARP proxy's and PocketBase's), the
/// part of the script before the final cleanup, enable and restart section
/// holds the block that copies `$systemd_tmp/<unit>` over `$systemd_dir/<unit>`
/// when the target is missing or differs.
pub proof fn law_every_expected_unit_is_installed(m: ServiceMapView, unit: Text)
    requires
        systemd_names_of(m).contains(unit),
    ensures
        ({
            let s = install_script_of(m);
            let tail = unit_cleanup_text();
            &&& tail.is_suffix_of(s)
            &&& has_substring(
                s.subrange(0, s.len() - tail.len()),
                "unit="@ + sh_quote_of(unit) + "\nsource_unit=\"$systemd_tmp/$unit\"\ntarget_unit=\"$systemd_dir/$unit\"\nif [ ! -f \"$target_unit\" ] || ! cmp -s \"$source_unit\" \"$target_unit\"; then\n    install -m 0644 \"$source_unit\" \"$target_unit\"\n    systemd_changed=1\nfi\n"@,
            )
        }),
{
    let s = install_script_of(m);
    let tail = unit_cleanup_text();
    let t = unit_install_of(unit);
    let head = install_header_of(m) + match m.pocketbase {
        Some(pb) => pocketbase_preflight_of(pb),
        None => Seq::<char>::empty(),
    } + services_sync_of(m.services) + match m.pocketbase {
        Some(pb) => pocketbase_sync_of(pb),
        None => Seq::<char>::empty(),
    } + caddyfile_install_text();
    let deno = deno_unit_installs_of(m.services);
    let pbu = match m.pocketbase {
        Some(pb) => pocketbase_unit_installs_of(pb),
        None => Seq::<char>::empty(),
    };
    let pre = head + deno + pbu;
    assert(s == pre + tail);
    assert(s.subrange(0, s.len() - tail.len()) =~= pre);
    assert(s.subrange(s.len() - tail.len(), s.len() as int) =~= tail);
    let pred = |s: ServiceView| is_deno(s);
    let f = m.services.filter(pred);
    let names = f.map_values(|s: ServiceView| s.kind->DenoApp_service_name);
    if names.contains(unit) {
        let j = choose|j: int| 0 <= j < names.len() && names[j] == unit;
        m.services.lemma_filter_pred(pred, j);
        assert(f.contains(f[j]));
        m.services.lemma_filter_contains_rev(pred, f[j]);
        let i = choose|i: int| 0 <= i < m.services.len() && m.services[i] == f[j];
        lemma_deno_install_occurs(m.services, i);
        lemma_substring_extend_left(head, deno, t);
        lemma_substring_extend_right(head + deno, pbu, t);
    } else {
        assert(m.pocketbase is Some);
        let pb = m.pocketbase->Some_0;
        let warp = match pb.warp_proxy {
            Some(w) => unit_install_of(w.service_name),
            None => Seq::<char>::empty(),
        };
        lemma_substring_of_self(t);
        if unit == pb.service_name {
            lemma_substring_extend_left(warp, t, t);
        } else {
            assert(pb.warp_proxy is Some && unit == pb.warp_proxy->Some_0.service_name);
            lemma_substring_extend_right(t, unit_install_of(pb.service_name), t);
        }
        assert(pbu == warp + unit_install_of(pb.service_name));
        lemma_substring_extend_left(head + deno, pbu, t);
    }
}

/// The sync block of every service occurs among the service syncs.
proof fn lemma_service_sync_occurs(services: Seq<ServiceView>, i: int)
    requires
        0 <= i < services.len(),
    ensures
        has_substring(services_sync_of(services), service_sync_of(services[i])),
    decreases services.len(),
{
    let prev = services_sync_of(services.drop_last());
    let t = service_sync_of(services[i]);
    let last = service_sync_of(services.last());
    if i == services.len() - 1 {
        lemma_substring_of_self(t);
        lemma_substring_extend_left(prev, last, t);
    } else {
        assert(services.drop_last()[i] == services[i]);
        lemma_service_sync_occurs(services.drop_last(), i);
        lemma_substring_extend_right(prev, last, t);
    }
}

/// Every service's remote path is made to mirror its upload: the script
/// creates the path and runs `rsync -a --delete` from the service's staging
/// directory into it, so files that the build no longer produces are deleted.
pub proof fn law_every_service_is_mirrored(m: ServiceMapView, i: int)
    requires
        0 <= i < m.services.len(),
    ensures
        ({
            let s = m.services[i];
            has_substring(
                install_script_of(m),
                "mkdir -p "@ + sh_quote_of(s.remote_path) + "\nrsync -a --delete \"$sync_dir/"@ + s.name
                    + "/\" "@ + sh_quote_of(remote_child_of(s.remote_path, Seq::<char>::empty())) + "\n"@,
            )
        }),
{
    let t = service_sync_of(m.services[i]);
    let a = install_header_of(m) + match m.pocketbase {
        Some(pb) => pocketbase_preflight_of(pb),
        None => Seq::<char>::empty(),
    };
    let b = services_sync_of(m.services);
    let rest = match m.pocketbase {
        Some(pb) => pocketbase_sync_of(pb),
        None => Seq::<char>::empty(),
    } + caddyfile_install_text() + deno_unit_installs_of(m.services) + match m.pocketbase {
        Some(pb) => pocketbase_unit_installs_of(pb),
        None => Seq::<char>::empty(),
    } + unit_cleanup_text();
    lemma_service_sync_occurs(m.services, i);
    lemma_substring_extend_left(a, b, t);
    lemma_substring_extend_right(a + b, rest, t);
    assert(install_script_of(m) =~= (a + b) + rest);
}

/// PocketBase's live data survives every deploy: its files are mirrored into
/// place with `pb_data/` excluded.
pub proof fn law_pocketbase_data_is_kept(m: ServiceMapView)
    requires
        m.pocketbase is Some,
    ensures
        has_substring(
            install_script_of(m),
            "\nrsync -a --delete --exclude pb_data/ \"$sync_dir/"@ + m.pocketbase->Some_0.name + "/\" "@,
        ),
{
    let pb = m.pocketbase->Some_0;
    let t = "\nrsync -a --delete --exclude pb_data/ \"$sync_dir/"@ + pb.name + "/\" "@;
    let opt = match pb.backup_dir {
        Some(b) => " "@ + sh_quote_of(b),
        None => Seq::<char>::empty(),
    };
    let x = "mkdir -p "@ + sh_quote_of(pb.remote_path) + " "@ + sh_quote_of(pb.data_dir) + opt;
    let y = sh_quote_of(remote_child_of(pb.remote_path, Seq::<char>::empty())) + "\n"@;
    assert(pocketbase_sync_of(pb) =~= x + t + y);
    lemma_substring_of_self(t);
    lemma_substring_extend_left(x, t, t);
    lemma_substring_extend_right(x + t, y, t);
    let a = install_header_of(m) + pocketbase_preflight_of(pb) + services_sync_of(m.services);
    let rest = caddyfile_install_text() + deno_unit_installs_of(m.services) + pocketbase_unit_installs_of(pb)
        + unit_cleanup_text();
    lemma_substring_extend_left(a, pocketbase_sync_of(pb), t);
    lemma_substring_extend_right(a + pocketbase_sync_of(pb), rest, t);
    assert(install_script_of(m) =~= (a + pocketbase_sync_of(pb)) + rest);
}

} // verus!
