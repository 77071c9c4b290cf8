//! What the command line reports after `check` and `render`.
use vstd::prelude::*;

use crate::config::types::{ServiceMap, ServiceMapView, Text};
use crate::render::{RenderedPaths, RenderedPathsView, render_artifacts, units_of, units_view};
use crate::text::{decimal, to_string, u64_to_decimal};

verus! {

/// The report of `check`: how many services the map has and how many unit
/// files it renders.
pub open spec fn check_summary_of(m: ServiceMapView) -> Text {
    "Config OK: "@ + decimal(m.services.len()) + " services, "@ + decimal(units_of(m).len())
        + " systemd units\n"@
}

pub fn check_summary(map: &ServiceMap) -> (r: String)
    ensures
        r@ == check_summary_of(map@),
{
    broadcast use vstd::seq_lib::to_multiset_len;

    let artifacts = render_artifacts(map);
    assert(units_view(artifacts.systemd_units@).len() == artifacts.systemd_units@.len());
    assert(units_of(map@).to_multiset().len() == units_of(map@).len());
    let mut r = to_string("Config OK: ");
    r.append(u64_to_decimal(map.services.len() as u64).as_str());
    r.append(" services, ");
    r.append(u64_to_decimal(artifacts.systemd_units.len() as u64).as_str());
    r.append(" systemd units\n");
    r
}

/// The report of `render`: where the artifacts were written.
pub open spec fn render_summary_of(paths: RenderedPathsView) -> Text {
    "Rendered Caddyfile to "@ + paths.caddyfile + "\nRendered systemd units to "@ + paths.systemd_dir
        + "\n"@
}

pub fn render_summary(paths: &RenderedPaths) -> (r: String)
    ensures
        r@ == render_summary_of(paths@),
{
    let mut r = to_string("Rendered Caddyfile to ");
    r.append(paths.caddyfile.as_str());
    r.append("\nRendered systemd units to ");
    r.append(paths.systemd_dir.as_str());
    r.append("\n");
    r
}

} // verus!
