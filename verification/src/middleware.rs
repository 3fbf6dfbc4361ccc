//! The middleware kinds and their per-node data: request logging with the
//! guaranteed default response, the router over an exact-path table, and
//! the static-file server rooted at a fixed directory.

use vstd::prelude::*;
use vstd::string::StrSliceExecFns;
use vstd::string::StringExecFns;
use crate::http::{RespModel, Response};
use crate::strutil::find_char;

verus! {

/// One route: an exact path bound to the response its handler produces.
pub struct Route {
    pub path: String,
    pub response: Response,
}

/// The mathematical content of a route.
#[verifier::ext_equal]
pub struct RouteModel {
    pub path: Seq<char>,
    pub response: RespModel,
}

impl View for Route {
    type V = RouteModel;

    open spec fn view(&self) -> RouteModel {
        RouteModel { path: self.path@, response: self.response@ }
    }
}

/// The models of a route table, in table order.
pub open spec fn routes_model(routes: Seq<Route>) -> Seq<RouteModel> {
    routes.map_values(|r: Route| r@)
}

/// The response bound to the first route whose path matches exactly.
pub open spec fn route_lookup(routes: Seq<RouteModel>, path: Seq<char>) -> Option<RespModel>
    decreases routes.len(),
{
    if routes.len() == 0 {
        None
    } else if routes[0].path == path {
        Some(routes[0].response)
    } else {
        route_lookup(routes.drop_first(), path)
    }
}

/// Logs every request after the rest of the chain ran, and supplies the
/// guaranteed default response when nothing answered.
pub struct RequestLoggingMiddleware {}

impl RequestLoggingMiddleware {
    pub fn new() -> (m: RequestLoggingMiddleware) {
        RequestLoggingMiddleware {  }
    }
}

/// Answers requests whose path is bound in its immutable route table.
pub struct RouterMiddleware {
    pub routes: Vec<Route>,
}

impl RouterMiddleware {
    pub fn new(routes: Vec<Route>) -> (m: RouterMiddleware)
        ensures
            m.routes == routes,
    {
        RouterMiddleware { routes }
    }
}

/// Serves GET requests from files under a fixed root directory.
pub struct StaticFileMiddlware {
    pub wwwroot: String,
}

impl StaticFileMiddlware {
    pub fn new(wwwroot: &str) -> (m: StaticFileMiddlware)
        ensures
            m.wwwroot@ == wwwroot@,
    {
        StaticFileMiddlware { wwwroot: String::from_str(wwwroot) }
    }
}

/// A chain node: one of the closed set of middleware kinds.
pub enum Middleware {
    Logging(RequestLoggingMiddleware),
    Router(RouterMiddleware),
    StaticFile(StaticFileMiddlware),
}

/// The mathematical content of a chain node.
#[verifier::ext_equal]
pub enum MwModel {
    Logging,
    Router(Seq<RouteModel>),
    StaticFile(Seq<char>),
}

impl View for Middleware {
    type V = MwModel;

    open spec fn view(&self) -> MwModel {
        match self {
            Middleware::Logging(_) => MwModel::Logging,
            Middleware::Router(r) => MwModel::Router(routes_model(r.routes@)),
            Middleware::StaticFile(s) => MwModel::StaticFile(s.wwwroot@),
        }
    }
}

/// The models of a chain's nodes, in chain order.
pub open spec fn chain_model(nodes: Seq<Middleware>) -> Seq<MwModel> {
    nodes.map_values(|m: Middleware| m@)
}

/// The request path with every leading `/` removed.
pub open spec fn strip_slashes(p: Seq<char>) -> Seq<char>
    decreases p.len(),
{
    if p.len() > 0 && p[0] == '/' {
        strip_slashes(p.drop_first())
    } else {
        p
    }
}

/// The filesystem path a request resolves to: the root, a separator if
/// the root does not already end in one, and the relative request path.
pub open spec fn joined_fs_path(root: Seq<char>, req_path: Seq<char>) -> Seq<char> {
    let rel = strip_slashes(req_path);
    if root.len() > 0 && root[root.len() - 1] == '/' {
        root + rel
    } else {
        root + "/"@ + rel
    }
}

proof fn lemma_strip_slashes_at(s: Seq<char>, k: int)
    requires
        0 <= k <= s.len(),
        forall|j: int| 0 <= j < k ==> s[j] == '/',
        k < s.len() ==> s[k] != '/',
    ensures
        strip_slashes(s) == s.skip(k),
    decreases k,
{
    if k == 0 {
        assert(s.skip(0) =~= s);
    } else {
        lemma_strip_slashes_at(s.drop_first(), k - 1);
        assert(s.drop_first().skip(k - 1) =~= s.skip(k));
    }
}

/// Resolves the filesystem path a request path names under the root.
pub fn resolve_fs_path(wwwroot: &str, req_path: &str) -> (r: String)
    ensures
        r@ == joined_fs_path(wwwroot@, req_path@),
{
    let len = req_path.unicode_len();
    let mut k: usize = 0;
    while k < len && req_path.get_char(k) == '/'
        invariant
            k <= len,
            len == req_path@.len(),
            forall|j: int| 0 <= j < k ==> req_path@[j] == '/',
        decreases len - k,
    {
        k = k + 1;
    }
    let rel = req_path.substring_char(k, len);
    proof {
        lemma_strip_slashes_at(req_path@, k as int);
        assert(rel@ == strip_slashes(req_path@));
    }
    let root_len = wwwroot.unicode_len();
    let mut s = String::from_str(wwwroot);
    if !(root_len > 0 && wwwroot.get_char(root_len - 1) == '/') {
        s.append("/");
    }
    s.append(rel);
    proof {
        assert(s@ =~= joined_fs_path(wwwroot@, req_path@));
    }
    s
}

/// Looks `path` up in the table; the index of the first exact match.
pub fn route_find(routes: &Vec<Route>, path: &str) -> (r: Option<usize>)
    ensures
        match r {
            Some(i) => i < routes@.len() && route_lookup(routes_model(routes@), path@) == Some(
                routes@[i as int]@.response,
            ),
            None => route_lookup(routes_model(routes@), path@) is None,
        },
{
    let ghost m = routes_model(routes@);
    proof {
        assert(m.skip(0) =~= m);
    }
    let n = routes.len();
    let mut i: usize = 0;
    while i < n
        invariant
            i <= n,
            n == routes@.len(),
            m == routes_model(routes@),
            route_lookup(m, path@) == route_lookup(m.skip(i as int), path@),
        decreases n - i,
    {
        proof {
            assert(m.skip(i as int)[0] == m[i as int]);
        }
        if crate::strutil::str_eq(routes[i].path.as_str(), path) {
            return Some(i);
        }
        proof {
            assert(m.skip(i as int).drop_first() =~= m.skip(i as int + 1));
        }
        i = i + 1;
    }
    proof {
        assert(m.skip(n as int) =~= Seq::<RouteModel>::empty());
    }
    None
}

} // verus!
