//! The Caddyfile: one site block per host, with a handler per route.
//!
//! Routes other than `/` match their path and everything below it; the `/`
//! route of a host is its fallback and comes last in the block.  PocketBase
//! owns the `/` route of its host.
use vstd::prelude::*;

use crate::config::types::{
    CaddyView, PocketBaseView, ResolvedService, ResolvedServiceKind, ServiceMap, ServiceMapView,
    ServiceView, Text, services_view,
};
use crate::text::{
    dedup_first, decimal, has_substring, join_strings, join_with, lemma_part_in_join,
    lemma_substring_extend_left, lemma_substring_extend_right, lemma_substring_of_self, occurs_at,
    str_eq, strings_view, to_string, u64_to_decimal, unique_strings,
};

verus! {

/// What serves a route.
pub enum Handler {
    /// Static files from a directory on the remote host.
    Files { root: String },
    /// A local Deno server.
    Proxy { port: u16 },
    /// The local PocketBase server, with its request limits.
    PocketBase { port: u16, max_size: String, read_timeout: String },
}

pub enum HandlerView {
    Files { root: Text },
    Proxy { port: u16 },
    PocketBase { port: u16, max_size: Text, read_timeout: Text },
}

/// A route of the site: the service that owns it, its host and path, and
/// what serves it.
pub struct Route {
    pub name: String,
    pub host: String,
    pub path: String,
    pub handler: Handler,
}

pub struct RouteView {
    pub name: Text,
    pub host: Text,
    pub path: Text,
    pub handler: HandlerView,
}

impl View for Handler {
    type V = HandlerView;

    open spec fn view(&self) -> HandlerView {
        match self {
            Handler::Files { root } => HandlerView::Files { root: root@ },
            Handler::Proxy { port } => HandlerView::Proxy { port: *port },
            Handler::PocketBase { port, max_size, read_timeout } => HandlerView::PocketBase {
                port: *port,
                max_size: max_size@,
                read_timeout: read_timeout@,
            },
        }
    }
}

impl View for Route {
    type V = RouteView;

    open spec fn view(&self) -> RouteView {
        RouteView { name: self.name@, host: self.host@, path: self.path@, handler: self.handler@ }
    }
}

pub open spec fn routes_view(v: Seq<Route>) -> Seq<RouteView> {
    v.map_values(|r: Route| r@)
}

// ---------------------------------------------------------------------------
// The routes of a service map
// ---------------------------------------------------------------------------

pub open spec fn service_route_of(s: ServiceView) -> RouteView {
    RouteView {
        name: s.name,
        host: s.host,
        path: s.route_path,
        handler: match s.kind {
            crate::config::types::ServiceKindView::DenoApp { port, .. } => HandlerView::Proxy { port },
            crate::config::types::ServiceKindView::StaticSite => HandlerView::Files { root: s.remote_path },
        },
    }
}

pub open spec fn pocketbase_route_of(pb: PocketBaseView) -> RouteView {
    RouteView {
        name: pb.name,
        host: pb.host,
        path: "/"@,
        handler: HandlerView::PocketBase {
            port: pb.port,
            max_size: pb.request_body_max_size,
            read_timeout: pb.read_timeout,
        },
    }
}

/// PocketBase's route first, then the services' routes in order.
pub open spec fn routes_of(m: ServiceMapView) -> Seq<RouteView> {
    let services = m.services.map_values(|s: ServiceView| service_route_of(s));
    match m.pocketbase {
        Some(pb) => seq![pocketbase_route_of(pb)] + services,
        None => services,
    }
}

fn service_route(service: &ResolvedService) -> (r: Route)
    ensures
        r@ == service_route_of(service@),
{
    let handler = match &service.kind {
        ResolvedServiceKind::DenoApp { port, .. } => Handler::Proxy { port: *port },
        ResolvedServiceKind::StaticSite => Handler::Files { root: service.remote_path.clone() },
    };
    Route {
        name: service.name.clone(),
        host: service.host.clone(),
        path: service.route_path.clone(),
        handler,
    }
}

pub fn caddy_routes(map: &ServiceMap) -> (r: Vec<Route>)
    ensures
        routes_view(r@) == routes_of(map@),
{
    let mut r: Vec<Route> = Vec::new();
    if let Some(pb) = &map.pocketbase {
        r.push(
            Route {
                name: pb.name.clone(),
                host: pb.host.clone(),
                path: to_string("/"),
                handler: Handler::PocketBase {
                    port: pb.port,
                    max_size: pb.request_body_max_size.clone(),
                    read_timeout: pb.read_timeout.clone(),
                },
            },
        );
    }
    let ghost head = routes_view(r@);
    let ghost sv = services_view(map.services@);
    let mut i: usize = 0;
    while i < map.services.len()
        invariant
            i <= map.services@.len(),
            sv == map@.services,
            routes_view(r@) =~= head + sv.take(i as int).map_values(|s: ServiceView| service_route_of(s)),
        decreases map.services@.len() - i,
    {
        let route = service_route(&map.services[i]);
        let ghost prev = r@;
        r.push(route);
        proof {
            assert(routes_view(r@) =~= routes_view(prev).push(route@));
            assert(sv.take(i + 1) =~= sv.take(i as int).push(sv[i as int]));
            assert(sv[i as int] == map.services@[i as int]@);
        }
        i = i + 1;
    }
    assert(sv.take(map.services@.len() as int) =~= sv);
    r
}

// ---------------------------------------------------------------------------
// Text of a route
// ---------------------------------------------------------------------------

pub open spec fn is_root_path(p: Text) -> bool {
    p == "/"@
}

/// The directives inside a route's `handle` block.
pub open spec fn handler_text_of(r: RouteView) -> Text {
    match r.handler {
        HandlerView::Files { root } => (if is_root_path(r.path) {
            seq![]
        } else {
            "\t\turi strip_prefix "@ + r.path + "\n"@
        }) + "\t\troot * "@ + root + "\n\t\tfile_server\n"@,
        HandlerView::Proxy { port } => "\t\treverse_proxy 127.0.0.1:"@ + decimal(port as nat) + "\n"@,
        HandlerView::PocketBase { port, max_size, read_timeout } => "\t\trequest_body {\n\t\t\tmax_size "@
            + max_size + "\n\t\t}\n\t\treverse_proxy 127.0.0.1:"@ + decimal(port as nat)
            + " {\n\t\t\ttransport http {\n\t\t\t\tread_timeout "@ + read_timeout
            + "\n\t\t\t}\n\t\t}\n"@,
    }
}

/// The `handle` block of a route: the fallback for `/`, otherwise one that
/// matches the path and everything below it.
pub open spec fn route_text_of(r: RouteView) -> Text {
    if is_root_path(r.path) {
        "\thandle {\n"@ + handler_text_of(r) + "\t}\n"@
    } else {
        "\t@"@ + r.name + " path "@ + r.path + " "@ + r.path + "/*\n\thandle @"@ + r.name + " {\n"@
            + handler_text_of(r) + "\t}\n"@
    }
}

fn handler_text(route: &Route) -> (r: String)
    ensures
        r@ == handler_text_of(route@),
{
    let root = str_eq(route.path.as_str(), "/");
    match &route.handler {
        Handler::Files { root: dir } => {
            let mut out = String::new();
            if !root {
                out.append("\t\turi strip_prefix ");
                out.append(route.path.as_str());
                out.append("\n");
            }
            let ghost head = out@;
            assert(head =~= (if is_root_path(route@.path) {
                seq![]
            } else {
                "\t\turi strip_prefix "@ + route@.path + "\n"@
            }));
            out.append("\t\troot * ");
            out.append(dir.as_str());
            out.append("\n\t\tfile_server\n");
            assert(out@ =~= handler_text_of(route@));
            out
        },
        Handler::Proxy { port } => {
            let mut out = to_string("\t\treverse_proxy 127.0.0.1:");
            out.append(u64_to_decimal(*port as u64).as_str());
            out.append("\n");
            assert(out@ =~= handler_text_of(route@));
            out
        },
        Handler::PocketBase { port, max_size, read_timeout } => {
            let mut out = to_string("\t\trequest_body {\n\t\t\tmax_size ");
            out.append(max_size.as_str());
            out.append("\n\t\t}\n\t\treverse_proxy 127.0.0.1:");
            out.append(u64_to_decimal(*port as u64).as_str());
            out.append(" {\n\t\t\ttransport http {\n\t\t\t\tread_timeout ");
            out.append(read_timeout.as_str());
            out.append("\n\t\t\t}\n\t\t}\n");
            assert(out@ =~= handler_text_of(route@));
            out
        },
    }
}

fn append_route(out: &mut String, route: &Route)
    ensures
        final(out)@ == old(out)@ + route_text_of(route@),
{
    let ghost start = out@;
    let body = handler_text(route);
    if str_eq(route.path.as_str(), "/") {
        out.append("\thandle {\n");
        out.append(body.as_str());
        out.append("\t}\n");
    } else {
        out.append("\t@");
        out.append(route.name.as_str());
        out.append(" path ");
        out.append(route.path.as_str());
        out.append(" ");
        out.append(route.path.as_str());
        out.append("/*\n\thandle @");
        out.append(route.name.as_str());
        out.append(" {\n");
        out.append(body.as_str());
        out.append("\t}\n");
    }
    assert(out@ =~= start + route_text_of(route@));
}

// ---------------------------------------------------------------------------
// Site blocks
// ---------------------------------------------------------------------------

/// The routes of `host` among `rs`, in order: those whose path is `/` when
/// `root`, the others otherwise.
pub open spec fn host_routes_text_of(rs: Seq<RouteView>, host: Text, root: bool) -> Text
    decreases rs.len(),
{
    if rs.len() == 0 {
        seq![]
    } else {
        host_routes_text_of(rs.drop_last(), host, root) + (if rs.last().host == host
            && is_root_path(rs.last().path) == root {
            route_text_of(rs.last())
        } else {
            seq![]
        })
    }
}

/// The site block of `host`: its path routes, then its `/` route.
pub open spec fn host_block_of(rs: Seq<RouteView>, host: Text) -> Text {
    host + " {\n\tencode zstd gzip\n"@ + host_routes_text_of(rs, host, false) + host_routes_text_of(
        rs,
        host,
        true,
    ) + "}\n"@
}

fn append_host_routes(out: &mut String, routes: &Vec<Route>, host: &str, root: bool)
    ensures
        final(out)@ == old(out)@ + host_routes_text_of(routes_view(routes@), host@, root),
{
    let ghost start = out@;
    let ghost rs = routes_view(routes@);
    let mut i: usize = 0;
    while i < routes.len()
        invariant
            i <= routes@.len(),
            rs == routes_view(routes@),
            out@ == start + host_routes_text_of(rs.take(i as int), host@, root),
        decreases routes@.len() - i,
    {
        let route = &routes[i];
        let ghost before = out@;
        let ghost t = rs.take(i + 1);
        proof {
            assert(t.drop_last() =~= rs.take(i as int));
            assert(t.last() == route@);
        }
        if str_eq(route.host.as_str(), host) && str_eq(route.path.as_str(), "/") == root {
            append_route(out, route);
        }
        assert(out@ =~= start + host_routes_text_of(t, host@, root));
        i = i + 1;
    }
    assert(rs.take(routes@.len() as int) =~= rs);
}

fn host_block(routes: &Vec<Route>, host: &str) -> (r: String)
    ensures
        r@ == host_block_of(routes_view(routes@), host@),
{
    let mut out = to_string(host);
    out.append(" {\n\tencode zstd gzip\n");
    append_host_routes(&mut out, routes, host, false);
    append_host_routes(&mut out, routes, host, true);
    out.append("}\n");
    assert(out@ =~= host_block_of(routes_view(routes@), host@));
    out
}

/// The block that redirects the `www` host to the primary host, if any.
pub open spec fn redirect_blocks_of(c: CaddyView) -> Seq<Text> {
    match c.www_redirect_host {
        Some(w) => seq![w + " {\n\tredir https://"@ + c.primary_host + "{uri} permanent\n}\n"@],
        None => seq![],
    }
}

/// The hosts that get a site block: each host of a route once, in order of
/// first appearance.
pub open spec fn site_hosts_of(m: ServiceMapView) -> Seq<Text> {
    dedup_first(routes_of(m).map_values(|r: RouteView| r.host))
}

/// The whole Caddyfile: the redirect block, then one block per site host,
/// separated by blank lines.
pub open spec fn caddyfile_of(m: ServiceMapView) -> Text {
    let rs = routes_of(m);
    join_with(
        redirect_blocks_of(m.caddy) + site_hosts_of(m).map_values(|h: Text| host_block_of(rs, h)),
        "\n"@,
    )
}

pub fn render_caddyfile(map: &ServiceMap) -> (r: String)
    ensures
        r@ == caddyfile_of(map@),
{
    let routes = caddy_routes(map);
    let ghost rs = routes_view(routes@);
    let mut blocks: Vec<String> = Vec::new();
    if let Some(www) = &map.caddy.www_redirect_host {
        let mut b = www.clone();
        b.append(" {\n\tredir https://");
        b.append(map.caddy.primary_host.as_str());
        b.append("{uri} permanent\n}\n");
        blocks.push(b);
    }
    let ghost head = strings_view(blocks@);
    assert(head =~= redirect_blocks_of(map@.caddy));
    let mut hosts_all: Vec<String> = Vec::new();
    let mut k: usize = 0;
    while k < routes.len()
        invariant
            k <= routes@.len(),
            rs == routes_view(routes@),
            strings_view(hosts_all@) =~= rs.take(k as int).map_values(|r: RouteView| r.host),
        decreases routes@.len() - k,
    {
        let ghost prev = hosts_all@;
        hosts_all.push(routes[k].host.clone());
        proof {
            assert(strings_view(hosts_all@) =~= strings_view(prev).push(routes@[k as int].host@));
            assert(rs.take(k + 1) =~= rs.take(k as int).push(rs[k as int]));
        }
        k = k + 1;
    }
    assert(rs.take(routes@.len() as int) =~= rs);
    let hosts = unique_strings(&hosts_all);
    let ghost hv = strings_view(hosts@);
    assert(hv == site_hosts_of(map@));
    let mut i: usize = 0;
    while i < hosts.len()
        invariant
            i <= hosts@.len(),
            hv == strings_view(hosts@),
            rs == routes_view(routes@),
            strings_view(blocks@) =~= head + hv.take(i as int).map_values(|h: Text| host_block_of(rs, h)),
        decreases hosts@.len() - i,
    {
        let b = host_block(&routes, hosts[i].as_str());
        let ghost prev = blocks@;
        blocks.push(b);
        proof {
            assert(strings_view(blocks@) =~= strings_view(prev).push(b@));
            assert(hv.take(i + 1) =~= hv.take(i as int).push(hv[i as int]));
        }
        i = i + 1;
    }
    assert(hv.take(hosts@.len() as int) =~= hv);
    join_strings(&blocks, "\n")
}

/// Every route of the map lands in the block of its host, and each host has
/// exactly one block.
pub proof fn law_each_route_has_one_site(m: ServiceMapView)
    ensures
        forall|i: int| 0 <= i < routes_of(m).len() ==> site_hosts_of(m).contains(#[trigger] routes_of(m)[i].host),
        forall|h: Text| site_hosts_of(m).contains(h) ==> exists|i: int| 0 <= i < routes_of(m).len() && #[trigger] routes_of(m)[i].host == h,
        forall|a: int, b: int| 0 <= a < b < site_hosts_of(m).len() ==> site_hosts_of(m)[a] != site_hosts_of(m)[b],
{
    let rs = routes_of(m);
    let hs = rs.map_values(|r: RouteView| r.host);
    assert(site_hosts_of(m) == dedup_first(hs));
    crate::text::law_dedup_first(hs);
    assert forall|i: int| 0 <= i < rs.len() implies site_hosts_of(m).contains(#[trigger] rs[i].host) by {
        assert(hs[i] == rs[i].host);
        assert(hs.contains(hs[i]));
    }
    assert forall|h: Text| site_hosts_of(m).contains(h) implies exists|i: int| 0 <= i < rs.len() && #[trigger] rs[i].host == h by {
        assert(hs.contains(h));
        let i = choose|i: int| 0 <= i < hs.len() && hs[i] == h;
        assert(rs[i].host == h);
    }
}

proof fn lemma_route_in_host_routes(rs: Seq<RouteView>, host: Text, root: bool, i: int)
    requires
        0 <= i < rs.len(),
        rs[i].host == host,
        is_root_path(rs[i].path) == root,
    ensures
        has_substring(host_routes_text_of(rs, host, root), route_text_of(rs[i])),
    decreases rs.len(),
{
    let prev = host_routes_text_of(rs.drop_last(), host, root);
    if i == rs.len() - 1 {
        lemma_substring_of_self(route_text_of(rs[i]));
        lemma_substring_extend_left(prev, route_text_of(rs[i]), route_text_of(rs[i]));
    } else {
        assert(rs.drop_last()[i] == rs[i]);
        lemma_route_in_host_routes(rs.drop_last(), host, root, i);
        let tail = if rs.last().host == host && is_root_path(rs.last().path) == root {
            route_text_of(rs.last())
        } else {
            Seq::<char>::empty()
        };
        lemma_substring_extend_right(prev, tail, route_text_of(rs[i]));
    }
}

/// Every route of the map is served: its `handle` block occurs in the
/// Caddyfile, inside the one site block of its host.
pub proof fn law_every_route_is_served(m: ServiceMapView, i: int)
    requires
        0 <= i < routes_of(m).len(),
    ensures
        has_substring(host_block_of(routes_of(m), routes_of(m)[i].host), route_text_of(routes_of(m)[i])),
        has_substring(caddyfile_of(m), host_block_of(routes_of(m), routes_of(m)[i].host)),
        has_substring(caddyfile_of(m), route_text_of(routes_of(m)[i])),
{
    let rs = routes_of(m);
    let r = rs[i];
    let h = r.host;
    let root = is_root_path(r.path);
    lemma_route_in_host_routes(rs, h, root, i);
    let head = h + " {\n\tencode zstd gzip\n"@;
    let a = host_routes_text_of(rs, h, false);
    let b = host_routes_text_of(rs, h, true);
    let t = route_text_of(r);
    if root {
        lemma_substring_extend_left(head + a, b, t);
    } else {
        lemma_substring_extend_left(head, a, t);
        lemma_substring_extend_right(head + a, b, t);
    }
    lemma_substring_extend_right(head + a + b, "}\n"@, t);
    assert(host_block_of(rs, h) == head + a + b + "}\n"@);
    law_each_route_has_one_site(m);
    let hs = site_hosts_of(m);
    assert(hs.contains(h));
    let j = choose|j: int| 0 <= j < hs.len() && hs[j] == h;
    let blocks = redirect_blocks_of(m.caddy) + hs.map_values(|x: Text| host_block_of(rs, x));
    let k = redirect_blocks_of(m.caddy).len() + j;
    assert(blocks[k] == host_block_of(rs, h));
    lemma_part_in_join(blocks, "\n"@, k);
    assert(caddyfile_of(m) == join_with(blocks, "\n"@));
    let c = caddyfile_of(m);
    let blk = host_block_of(rs, h);
    let bi = choose|bi: int| #[trigger] occurs_at(c, blk, bi);
    let ti = choose|ti: int| #[trigger] occurs_at(blk, t, ti);
    assert(c.subrange(bi + ti, bi + ti + t.len()) =~= blk.subrange(ti, ti + t.len()));
    assert(occurs_at(c, t, bi + ti));
}

} // verus!
