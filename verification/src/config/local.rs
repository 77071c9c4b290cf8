//! Private per-machine overrides of the remote access settings.
use vstd::prelude::*;

use crate::config::types::{Config, ConfigView, RemoteConfig, RemoteView, Text};
use crate::text::{opt_view, strings_view};

verus! {

/// The local override file: only remote access settings can be overridden.
#[derive(Debug)]
pub struct LocalConfig {
    pub remote: Option<LocalRemoteConfig>,
}

/// Remote settings that, when present, replace the shared ones.
#[derive(Debug)]
pub struct LocalRemoteConfig {
    pub host: Option<String>,
    pub user: Option<String>,
    pub port: Option<u16>,
    pub identity_file: Option<String>,
    pub extra_ssh_args: Option<Vec<String>>,
    pub ssh_program: Option<String>,
    pub rsync_program: Option<String>,
    pub tmp_dir: Option<String>,
    pub caddyfile_path: Option<String>,
    pub systemd_dir: Option<String>,
    pub managed_prefix: Option<String>,
    pub deno_bin: Option<String>,
}

pub struct LocalRemoteView {
    pub host: Option<Text>,
    pub user: Option<Text>,
    pub port: Option<u16>,
    pub identity_file: Option<Text>,
    pub extra_ssh_args: Option<Seq<Text>>,
    pub ssh_program: Option<Text>,
    pub rsync_program: Option<Text>,
    pub tmp_dir: Option<Text>,
    pub caddyfile_path: Option<Text>,
    pub systemd_dir: Option<Text>,
    pub managed_prefix: Option<Text>,
    pub deno_bin: Option<Text>,
}

impl View for LocalRemoteConfig {
    type V = LocalRemoteView;

    open spec fn view(&self) -> LocalRemoteView {
        LocalRemoteView {
            host: opt_view(&self.host),
            user: opt_view(&self.user),
            port: self.port,
            identity_file: opt_view(&self.identity_file),
            extra_ssh_args: match &self.extra_ssh_args {
                Some(a) => Some(strings_view(a@)),
                None => None,
            },
            ssh_program: opt_view(&self.ssh_program),
            rsync_program: opt_view(&self.rsync_program),
            tmp_dir: opt_view(&self.tmp_dir),
            caddyfile_path: opt_view(&self.caddyfile_path),
            systemd_dir: opt_view(&self.systemd_dir),
            managed_prefix: opt_view(&self.managed_prefix),
            deno_bin: opt_view(&self.deno_bin),
        }
    }
}

pub open spec fn or_keep<T>(new: Option<T>, old: T) -> T {
    match new {
        Some(v) => v,
        None => old,
    }
}

/// The remote settings after applying the overrides: every field that the
/// local file sets replaces the shared value, every other field is kept.
pub open spec fn apply_remote(r: RemoteView, l: LocalRemoteView) -> RemoteView {
    RemoteView {
        host: if l.host is Some { l.host } else { r.host },
        user: if l.user is Some { l.user } else { r.user },
        port: or_keep(l.port, r.port),
        identity_file: if l.identity_file is Some { l.identity_file } else { r.identity_file },
        extra_ssh_args: or_keep(l.extra_ssh_args, r.extra_ssh_args),
        ssh_program: or_keep(l.ssh_program, r.ssh_program),
        rsync_program: or_keep(l.rsync_program, r.rsync_program),
        tmp_dir: or_keep(l.tmp_dir, r.tmp_dir),
        caddyfile_path: or_keep(l.caddyfile_path, r.caddyfile_path),
        systemd_dir: or_keep(l.systemd_dir, r.systemd_dir),
        managed_prefix: or_keep(l.managed_prefix, r.managed_prefix),
        deno_bin: or_keep(l.deno_bin, r.deno_bin),
    }
}

pub open spec fn apply_local_config(c: ConfigView, l: Option<LocalRemoteView>) -> ConfigView {
    match l {
        Some(l) => ConfigView { remote: apply_remote(c.remote, l), ..c },
        None => c,
    }
}

pub open spec fn local_remote_view(l: &LocalConfig) -> Option<LocalRemoteView> {
    match &l.remote {
        Some(r) => Some(r@),
        None => None,
    }
}

impl Config {
    /// Applies the remote overrides of a local configuration file.
    pub fn apply_local(&mut self, local_config: LocalConfig)
        ensures
            final(self)@ == apply_local_config(old(self)@, local_remote_view(&local_config)),
    {
        if let Some(remote) = local_config.remote {
            self.remote.apply_local(remote);
        }
    }
}

impl RemoteConfig {
    /// Replaces each setting that the local file gives.
    pub fn apply_local(&mut self, local: LocalRemoteConfig)
        ensures
            final(self)@ == apply_remote(old(self)@, local@),
    {
        let ghost l = local@;
        if local.host.is_some() {
            self.host = local.host;
        }
        if local.user.is_some() {
            self.user = local.user;
        }
        if let Some(port) = local.port {
            self.port = port;
        }
        if local.identity_file.is_some() {
            self.identity_file = local.identity_file;
        }
        if let Some(extra_ssh_args) = local.extra_ssh_args {
            self.extra_ssh_args = extra_ssh_args;
        }
        if let Some(ssh_program) = local.ssh_program {
            self.ssh_program = ssh_program;
        }
        if let Some(rsync_program) = local.rsync_program {
            self.rsync_program = rsync_program;
        }
        if let Some(tmp_dir) = local.tmp_dir {
            self.tmp_dir = tmp_dir;
        }
        if let Some(caddyfile_path) = local.caddyfile_path {
            self.caddyfile_path = caddyfile_path;
        }
        if let Some(systemd_dir) = local.systemd_dir {
            self.systemd_dir = systemd_dir;
        }
        if let Some(managed_prefix) = local.managed_prefix {
            self.managed_prefix = managed_prefix;
        }
        if let Some(deno_bin) = local.deno_bin {
            self.deno_bin = deno_bin;
        }
    }
}

/// Applying the same overrides twice gives what applying them once gives.
pub proof fn law_apply_remote_idempotent(r: RemoteView, l: LocalRemoteView)
    ensures
        apply_remote(apply_remote(r, l), l) == apply_remote(r, l),
{
}

/// Overrides that set nothing leave the remote settings unchanged.
pub proof fn law_apply_remote_empty(r: RemoteView, l: LocalRemoteView)
    requires
        l.host is None,
        l.user is None,
        l.port is None,
        l.identity_file is None,
        l.extra_ssh_args is None,
        l.ssh_program is None,
        l.rsync_program is None,
        l.tmp_dir is None,
        l.caddyfile_path is None,
        l.systemd_dir is None,
        l.managed_prefix is None,
        l.deno_bin is None,
    ensures
        apply_remote(r, l) == r,
{
}

/// A local file overrides exactly the fields it sets: each set field takes the
/// local value and every other field keeps the shared value.
pub proof fn law_apply_remote_overrides(r: RemoteView, l: LocalRemoteView)
    ensures
        l.host is Some ==> apply_remote(r, l).host == l.host,
        l.host is None ==> apply_remote(r, l).host == r.host,
        l.user is Some ==> apply_remote(r, l).user == l.user,
        l.user is None ==> apply_remote(r, l).user == r.user,
        l.identity_file is Some ==> apply_remote(r, l).identity_file == l.identity_file,
        l.identity_file is None ==> apply_remote(r, l).identity_file == r.identity_file,
        l.port is Some ==> apply_remote(r, l).port == l.port->Some_0,
        l.port is None ==> apply_remote(r, l).port == r.port,
        l.extra_ssh_args is Some ==> apply_remote(r, l).extra_ssh_args == l.extra_ssh_args->Some_0,
        l.extra_ssh_args is None ==> apply_remote(r, l).extra_ssh_args == r.extra_ssh_args,
        l.ssh_program is Some ==> apply_remote(r, l).ssh_program == l.ssh_program->Some_0,
        l.ssh_program is None ==> apply_remote(r, l).ssh_program == r.ssh_program,
        l.rsync_program is Some ==> apply_remote(r, l).rsync_program == l.rsync_program->Some_0,
        l.rsync_program is None ==> apply_remote(r, l).rsync_program == r.rsync_program,
        l.tmp_dir is Some ==> apply_remote(r, l).tmp_dir == l.tmp_dir->Some_0,
        l.tmp_dir is None ==> apply_remote(r, l).tmp_dir == r.tmp_dir,
        l.caddyfile_path is Some ==> apply_remote(r, l).caddyfile_path == l.caddyfile_path->Some_0,
        l.caddyfile_path is None ==> apply_remote(r, l).caddyfile_path == r.caddyfile_path,
        l.systemd_dir is Some ==> apply_remote(r, l).systemd_dir == l.systemd_dir->Some_0,
        l.systemd_dir is None ==> apply_remote(r, l).systemd_dir == r.systemd_dir,
        l.managed_prefix is Some ==> apply_remote(r, l).managed_prefix == l.managed_prefix->Some_0,
        l.managed_prefix is None ==> apply_remote(r, l).managed_prefix == r.managed_prefix,
        l.deno_bin is Some ==> apply_remote(r, l).deno_bin == l.deno_bin->Some_0,
        l.deno_bin is None ==> apply_remote(r, l).deno_bin == r.deno_bin,
{
}

} // verus!
