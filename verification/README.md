# vaieart-services

A command line that keeps the services of a small self-hosted site in one
configuration file (`services.toml`), checks it, renders a Caddyfile and
systemd units for it, plans and runs the deployment over `ssh` and `rsync`,
updates the local checkouts with `git`, and pulls new PocketBase migrations.

The library under `src/` is written in Verus and proved against its contracts:

- `config`: the configuration, its defaults, the local override file, and
  validation into a `ServiceMap` (no two services share a name, a Caddy route,
  a port or a systemd unit);
- `render`: the Caddyfile and the unit files;
- `deploy`: the deployment plan, the remote install script, the local
  preflight, and the migration pull command;
- `git`: the repository roots to update and the update commands;
- `process`: commands, their shell display, and how programs are looked up;
- `env`, `text`, `paths`: sorted environment maps, string helpers and path
  joining.

Reading files, probing the file system, running processes and parsing the
command line happen in `app/`, which hands the library plain values: the
parsed configuration, the canonical paths validation needs, and what was found
on disk before a deployment.
