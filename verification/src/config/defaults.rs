//! Values that the configuration takes when a field is left out.
use vstd::prelude::*;

use crate::text::to_string;

verus! {

pub fn default_manifest_version() -> (r: u8)
    ensures
        r == 1,
{
    1
}

pub fn default_ssh_port() -> (r: u16)
    ensures
        r == 22,
{
    22
}

pub fn default_ssh_program() -> (r: String)
    ensures
        r@ == "ssh"@,
{
    to_string("ssh")
}

pub fn default_rsync_program() -> (r: String)
    ensures
        r@ == "rsync"@,
{
    to_string("rsync")
}

pub fn default_tmp_dir() -> (r: String)
    ensures
        r@ == "/tmp/vaieart-services"@,
{
    to_string("/tmp/vaieart-services")
}

pub fn default_caddyfile_path() -> (r: String)
    ensures
        r@ == "/etc/caddy/Caddyfile"@,
{
    to_string("/etc/caddy/Caddyfile")
}

pub fn default_systemd_dir() -> (r: String)
    ensures
        r@ == "/etc/systemd/system"@,
{
    to_string("/etc/systemd/system")
}

pub fn default_managed_prefix() -> (r: String)
    ensures
        r@ == "vaieart-"@,
{
    to_string("vaieart-")
}

pub fn default_deno_bin() -> (r: String)
    ensures
        r@ == "/root/.deno/bin/deno"@,
{
    to_string("/root/.deno/bin/deno")
}

pub fn default_sync_source() -> (r: String)
    ensures
        r@ == "."@,
{
    to_string(".")
}

pub fn default_pocketbase_port() -> (r: u16)
    ensures
        r == 8090,
{
    8090
}

pub fn default_pocketbase_binary() -> (r: String)
    ensures
        r@ == "/usr/local/bin/pocketbase"@,
{
    to_string("/usr/local/bin/pocketbase")
}

pub fn default_pocketbase_request_body_max_size() -> (r: String)
    ensures
        r@ == "25MB"@,
{
    to_string("25MB")
}

pub fn default_pocketbase_read_timeout() -> (r: String)
    ensures
        r@ == "360s"@,
{
    to_string("360s")
}

pub fn default_warp_proxy_port() -> (r: u16)
    ensures
        r == 40000,
{
    40000
}

pub fn default_warp_cli() -> (r: String)
    ensures
        r@ == "/usr/bin/warp-cli"@,
{
    to_string("/usr/bin/warp-cli")
}

pub fn default_warp_daemon_service() -> (r: String)
    ensures
        r@ == "warp-svc.service"@,
{
    to_string("warp-svc.service")
}

} // verus!
