//! Exact-match dispatch from a request's method and path to one of two fixed
//! responses.
//!
//! The route table is immutable once built and holds exactly two entries,
//! both `GET`: the landing page at `/` and the health check at `/health`.
//! A request for any other path is answered with status 404; a request with
//! any other method for one of the two registered paths — `HEAD` included —
//! is answered with status 405, the stricter of the two rejection policies
//! the design leaves open, applied uniformly.

use vstd::prelude::*;
use crate::content::{ContentType, LANDING_PAGE, HEALTH_BODY};
use crate::text::str_eq;

verus! {

/// An HTTP request method. `Other` stands for any extension method outside
/// the nine registered ones; no route matches anything but `Get`, so all
/// non-`Get` variants are dispatched alike.
#[derive(Clone, Copy, Debug, PartialEq, Eq, Structural)]
pub enum Method {
    Get,
    Head,
    Post,
    Put,
    Delete,
    Connect,
    Options,
    Trace,
    Patch,
    Other,
}

/// The two handlers a route can point at.
#[derive(Clone, Copy, Debug, PartialEq, Eq, Structural)]
pub enum Endpoint {
    Landing,
    Health,
}

/// One entry of the route table: a (method, path) pair and the handler it
/// maps to.
#[derive(Clone, Copy, Debug)]
pub struct Route {
    pub method: Method,
    pub path: &'static str,
    pub endpoint: Endpoint,
}

/// What the router decides for a request: invoke a handler, or reject with
/// the reason for the rejection.
#[derive(Clone, Copy, Debug, PartialEq, Eq, Structural)]
pub enum RouteDecision {
    Dispatch(Endpoint),
    PathNotFound,
    MethodNotAllowed,
}

/// A response: a status code, an optional content type, and a fixed body.
#[derive(Clone, Copy, Debug)]
pub struct Response {
    pub status: u16,
    pub content_type: Option<ContentType>,
    pub body: &'static str,
}

/// What the router decides for a given method and path: the landing page for
/// `GET /`, the health check for `GET /health`, status 405 for any other
/// method on those two paths, and status 404 for any other path.
pub open spec fn spec_decision(method: Method, path: Seq<char>) -> RouteDecision {
    if path == "/"@ {
        if method == Method::Get {
            RouteDecision::Dispatch(Endpoint::Landing)
        } else {
            RouteDecision::MethodNotAllowed
        }
    } else if path == "/health"@ {
        if method == Method::Get {
            RouteDecision::Dispatch(Endpoint::Health)
        } else {
            RouteDecision::MethodNotAllowed
        }
    } else {
        RouteDecision::PathNotFound
    }
}

/// The response for `GET /`: status 200, content type `text/html`, and the
/// fixed landing-page document.
pub open spec fn is_landing_response(r: Response) -> bool {
    &&& r.status == 200
    &&& r.content_type == Some(ContentType::Html)
    &&& r.body@ == LANDING_PAGE@
}

/// The response for `GET /health`: status 200, content type `text/plain`,
/// and the fixed health-check body.
pub open spec fn is_health_response(r: Response) -> bool {
    &&& r.status == 200
    &&& r.content_type == Some(ContentType::Plain)
    &&& r.body@ == HEALTH_BODY@
}

/// The response for an unregistered path: status 404, no content type, an
/// empty body.
pub open spec fn is_not_found_response(r: Response) -> bool {
    &&& r.status == 404
    &&& r.content_type is None
    &&& r.body@ == Seq::<char>::empty()
}

/// The response for a disallowed method on a registered path: status 405, no
/// content type, an empty body.
pub open spec fn is_method_not_allowed_response(r: Response) -> bool {
    &&& r.status == 405
    &&& r.content_type is None
    &&& r.body@ == Seq::<char>::empty()
}

/// The one response the server gives for a request with the given method and
/// path. Every observable field of the response is pinned down, so responses
/// are a pure function of the request line.
pub open spec fn is_response_for(method: Method, path: Seq<char>, r: Response) -> bool {
    match spec_decision(method, path) {
        RouteDecision::Dispatch(Endpoint::Landing) => is_landing_response(r),
        RouteDecision::Dispatch(Endpoint::Health) => is_health_response(r),
        RouteDecision::PathNotFound => is_not_found_response(r),
        RouteDecision::MethodNotAllowed => is_method_not_allowed_response(r),
    }
}

/// The handler for an endpoint: a pure function from the endpoint to its
/// fixed response.
pub fn respond(e: Endpoint) -> (r: Response)
    ensures
        e == Endpoint::Landing ==> is_landing_response(r),
        e == Endpoint::Health ==> is_health_response(r),
{
    match e {
        Endpoint::Landing => Response {
            status: 200,
            content_type: Some(ContentType::Html),
            body: LANDING_PAGE,
        },
        Endpoint::Health => Response {
            status: 200,
            content_type: Some(ContentType::Plain),
            body: HEALTH_BODY,
        },
    }
}

/// The rejection response for a path with no registered route.
pub fn not_found() -> (r: Response)
    ensures
        is_not_found_response(r),
{
    proof {
        reveal_strlit("");
        assert(""@ =~= Seq::<char>::empty());
    }
    Response { status: 404, content_type: None, body: "" }
}

/// The rejection response for a disallowed method on a registered path.
pub fn method_not_allowed() -> (r: Response)
    ensures
        is_method_not_allowed_response(r),
{
    proof {
        reveal_strlit("");
        assert(""@ =~= Seq::<char>::empty());
    }
    Response { status: 405, content_type: None, body: "" }
}

/// The immutable route table, built once at startup.
pub struct RouteTable {
    routes: Vec<Route>,
}

impl RouteTable {
    /// Well-formedness: exactly two entries, both `GET`, mapping `/` to the
    /// landing page and `/health` to the health check.
    pub closed spec fn wf(self) -> bool {
        &&& self.routes@.len() == 2
        &&& self.routes@[0].method == Method::Get
        &&& self.routes@[0].path@ == "/"@
        &&& self.routes@[0].endpoint == Endpoint::Landing
        &&& self.routes@[1].method == Method::Get
        &&& self.routes@[1].path@ == "/health"@
        &&& self.routes@[1].endpoint == Endpoint::Health
    }

    /// Builds the route table with its two fixed entries.
    pub fn new() -> (t: RouteTable)
        ensures
            t.wf(),
    {
        let mut routes: Vec<Route> = Vec::new();
        routes.push(Route { method: Method::Get, path: "/", endpoint: Endpoint::Landing });
        routes.push(Route { method: Method::Get, path: "/health", endpoint: Endpoint::Health });
        RouteTable { routes }
    }

    /// Exact-match lookup of a request line in the route table.
    pub fn resolve(&self, method: Method, path: &str) -> (r: RouteDecision)
        requires
            self.wf(),
        ensures
            r == spec_decision(method, path@),
    {
        proof {
            reveal_strlit("/");
            reveal_strlit("/health");
        }
        let n = self.routes.len();
        let mut i: usize = 0;
        while i < n
            invariant
                self.wf(),
                n == self.routes@.len(),
                i <= n,
                forall|j: int| 0 <= j < i ==> self.routes@[j].path@ != path@,
            decreases n - i,
        {
            let route = &self.routes[i];
            if str_eq(route.path, path) {
                if route.method == method {
                    return RouteDecision::Dispatch(route.endpoint);
                } else {
                    return RouteDecision::MethodNotAllowed;
                }
            }
            i = i + 1;
        }
        RouteDecision::PathNotFound
    }

    /// Serves one request: resolves the method and path against the table and
    /// returns the fixed response the decision calls for. Handlers are pure;
    /// nothing is mutated and the result depends on the request line alone.
    pub fn handle_request(&self, method: Method, path: &str) -> (r: Response)
        requires
            self.wf(),
        ensures
            is_response_for(method, path@, r),
    {
        match self.resolve(method, path) {
            RouteDecision::Dispatch(e) => respond(e),
            RouteDecision::PathNotFound => not_found(),
            RouteDecision::MethodNotAllowed => method_not_allowed(),
        }
    }
}

/// A `GET` request for `/` is always answered with status 200, content type
/// `text/html`, and exactly the fixed landing-page document.
pub proof fn lemma_get_root(r: Response)
    requires
        is_response_for(Method::Get, "/"@, r),
    ensures
        r.status == 200,
        r.content_type == Some(ContentType::Html),
        r.body@ == LANDING_PAGE@,
{
}

/// A `GET` request for `/health` is always answered with status 200 and a
/// body that is exactly the two characters `OK`.
pub proof fn lemma_get_health(r: Response)
    requires
        is_response_for(Method::Get, "/health"@, r),
    ensures
        r.status == 200,
        r.content_type == Some(ContentType::Plain),
        r.body@.len() == 2,
        r.body@[0] == 'O',
        r.body@[1] == 'K',
{
    reveal_strlit("/");
    reveal_strlit("/health");
    reveal_strlit("OK");
    assert("/"@.len() == 1);
    assert("/health"@.len() == 7);
}

/// A `GET` request for any path other than `/` and `/health` is always
/// answered with status 404.
pub proof fn lemma_get_unknown(path: Seq<char>, r: Response)
    requires
        path != "/"@,
        path != "/health"@,
        is_response_for(Method::Get, path, r),
    ensures
        r.status == 404,
{
}

/// A request with any method other than `GET` for `/` or `/health` is always
/// answered with status 405 — in particular, never with status 200.
pub proof fn lemma_non_get_registered(method: Method, path: Seq<char>, r: Response)
    requires
        method != Method::Get,
        path == "/"@ || path == "/health"@,
        is_response_for(method, path, r),
    ensures
        r.status == 405,
        r.status != 200,
{
}

/// Every route is a `GET` route, so a request with any other method is never
/// dispatched to a handler.
pub proof fn lemma_only_get_dispatches(method: Method, path: Seq<char>)
    requires
        method != Method::Get,
    ensures
        !(spec_decision(method, path) is Dispatch),
{
}

/// No drift: two responses to the same request line agree on every
/// observable field, whenever and however often the request is repeated.
pub proof fn lemma_no_drift(method: Method, path: Seq<char>, r1: Response, r2: Response)
    requires
        is_response_for(method, path, r1),
        is_response_for(method, path, r2),
    ensures
        r1.status == r2.status,
        r1.content_type == r2.content_type,
        r1.body@ == r2.body@,
{
}

} // verus!
