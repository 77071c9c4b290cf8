//! Where configuration files are looked up.
use vstd::prelude::*;

use crate::paths::{
    is_absolute, is_absolute_path, join_path, path_file_stem, path_file_stem_of, path_join,
    path_parent, path_parent_of,
};
use crate::text::to_string;

verus! {

/// The directory of a configuration file: its parent, or `.` when the path
/// has no non-empty parent.
pub open spec fn config_directory_of(config_path: Seq<char>) -> Seq<char> {
    match path_parent_of(config_path) {
        Some(p) => if p.len() > 0 { p } else { "."@ },
        None => "."@,
    }
}

/// The private override file beside a configuration file: `<stem>.local.toml`
/// in the same directory (`services.local.toml` when there is no stem).
pub open spec fn local_config_path_of(config_path: Seq<char>) -> Seq<char> {
    let stem = match path_file_stem_of(config_path) {
        Some(s) => s,
        None => "services"@,
    };
    join_path(config_directory_of(config_path), stem + ".local.toml"@)
}

pub fn config_directory(config_path: &str) -> (r: String)
    ensures
        r@ == config_directory_of(config_path@),
{
    match path_parent(config_path) {
        Some(p) => {
            if p.unicode_len() > 0 {
                p
            } else {
                to_string(".")
            }
        },
        None => to_string("."),
    }
}

pub fn local_config_path(config_path: &str) -> (r: String)
    ensures
        r@ == local_config_path_of(config_path@),
{
    let mut local_name = match path_file_stem(config_path) {
        Some(s) => s,
        None => to_string("services"),
    };
    local_name.append(".local.toml");
    let dir = config_directory(config_path);
    path_join(dir.as_str(), local_name.as_str())
}

/// Where a configured local path is looked for: an absolute path as
/// written, a relative one under the configuration's root directory.
pub open spec fn local_path_candidate_of(root: Seq<char>, local_path: Seq<char>) -> Seq<char> {
    if is_absolute_path(local_path) {
        local_path
    } else {
        join_path(root, local_path)
    }
}

pub fn local_path_candidate(root: &str, local_path: &str) -> (r: String)
    ensures
        r@ == local_path_candidate_of(root@, local_path@),
{
    if is_absolute(local_path) {
        to_string(local_path)
    } else {
        path_join(root, local_path)
    }
}

} // verus!
