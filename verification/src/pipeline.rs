//! The finalized pipeline: the immutable dispatch unit produced once from a
//! router facade. Both serving adapters feed requests into the same
//! pipeline, so routing, CORS and document exposure behave identically on
//! either transport.

use vstd::prelude::*;
use vstd::string::StringExecFns;
use crate::document::{ApiDocument, document_json, spec_build, OperationView};
use crate::handler::{handler_response, run_handler};
use crate::message::{has_header, Method, Request, RequestView, Response, ResponseView};
use crate::policy::{
    origin_matches, preflight_response, with_allow_origin, CorsPolicy, CorsPolicyView,
};
use crate::route::{routes_unique, RouteEntry, RouteEntryView};

verus! {

/// Mathematical model of a finalized pipeline.
pub ghost struct PipelineView {
    pub routes: Seq<RouteEntryView>,
    pub cors: Option<CorsPolicyView>,
    pub document: Seq<OperationView>,
    pub document_text: Seq<char>,
}

/// The dispatch unit produced by finalize: route data captured at build
/// time, the configured policy, and the shared API document with its
/// serialized text. Read-only after finalize, so it is safe to share across
/// any number of concurrent dispatches.
pub struct FinalizedPipeline {
    pub routes: Vec<RouteEntry>,
    pub cors: Option<CorsPolicy>,
    pub document: ApiDocument,
    pub document_text: String,
}

impl View for FinalizedPipeline {
    type V = PipelineView;

    open spec fn view(&self) -> PipelineView {
        PipelineView {
            routes: self.routes@.map_values(|e: RouteEntry| e@),
            cors: match self.cors {
                Some(c) => Some(c@),
                None => None,
            },
            document: self.document@,
            document_text: self.document_text@,
        }
    }
}

/// The pipeline invariant: routes are key-unique, the document is the build
/// of exactly those routes, and the shared text is its serialization.
pub open spec fn pipeline_wf(p: PipelineView) -> bool {
    &&& routes_unique(p.routes)
    &&& spec_build(p.routes) == Ok::<Seq<OperationView>, crate::route::RouterErrorView>(p.document)
    &&& p.document_text == document_json(p.document)
}

/// The first route registered under the (method, path) key, if any.
pub open spec fn route_lookup(
    routes: Seq<RouteEntryView>,
    method: Method,
    path: Seq<char>,
) -> Option<RouteEntryView>
    decreases routes.len(),
{
    if routes.len() == 0 {
        None
    } else if routes[0].method == method && routes[0].path == path {
        Some(routes[0])
    } else {
        route_lookup(routes.drop_first(), method, path)
    }
}

/// Under the registry invariant, lookup finds exactly the entry registered
/// under the key.
pub proof fn lemma_lookup_finds_unique(
    routes: Seq<RouteEntryView>,
    method: Method,
    path: Seq<char>,
    i: int,
)
    requires
        routes_unique(routes),
        0 <= i < routes.len(),
        routes[i].method == method,
        routes[i].path == path,
    ensures
        route_lookup(routes, method, path) == Some(routes[i]),
    decreases routes.len(),
{
    if i == 0 {
    } else {
        assert(!(routes[0].method == routes[i].method && routes[0].path == routes[i].path));
        let rest = routes.drop_first();
        assert(routes_unique(rest)) by {
            assert forall|a: int, b: int| 0 <= a < b < rest.len() implies !(rest[a].method
                == rest[b].method && rest[a].path == rest[b].path) by {
                assert(rest[a] == routes[a + 1] && rest[b] == routes[b + 1]);
            }
        }
        assert(rest[i - 1] == routes[i]);
        lemma_lookup_finds_unique(rest, method, path, i - 1);
    }
}

/// The structured answer for a request no route matches.
pub open spec fn not_found_response() -> ResponseView {
    ResponseView { status: 404, headers: Seq::empty(), body: "{\"error\":\"not found\"}"@ }
}

/// Raw dispatch, before any policy: the matching route's handler answers,
/// or the not-found answer.
pub open spec fn spec_dispatch(p: PipelineView, req: RequestView) -> ResponseView {
    match route_lookup(p.routes, req.method, req.path) {
        Some(e) => handler_response(e.handler, req, p.document_text),
        None => not_found_response(),
    }
}

/// The whole pipeline: with a policy configured, a preflight request is
/// answered before dispatch and never reaches a handler; any other request
/// is dispatched and then gains the allow-origin header exactly when its
/// origin matches.
pub open spec fn spec_handle(p: PipelineView, req: RequestView) -> ResponseView {
    match p.cors {
        Some(c) => {
            if req.method == Method::Options {
                preflight_response(c, req.origin)
            } else {
                with_allow_origin(c, req.origin, spec_dispatch(p, req))
            }
        },
        None => spec_dispatch(p, req),
    }
}

/// Finds the route registered under (method, path), scanning in
/// registration order.
fn find_route<'a>(routes: &'a Vec<RouteEntry>, method: Method, path: &String) -> (r: Option<
    &'a RouteEntry,
>)
    ensures
        (match r {
            Some(e) => route_lookup(routes@.map_values(|x: RouteEntry| x@), method, path@)
                == Some(e@),
            None => route_lookup(routes@.map_values(|x: RouteEntry| x@), method, path@) is None,
        }),
{
    let ghost rvs = routes@.map_values(|x: RouteEntry| x@);
    let n = routes.len();
    let mut i: usize = 0;
    proof {
        assert(rvs.skip(0) =~= rvs);
    }
    while i < n
        invariant
            i <= n,
            n == routes.len(),
            rvs == routes@.map_values(|x: RouteEntry| x@),
            route_lookup(rvs, method, path@) == route_lookup(
                rvs.skip(i as int),
                method,
                path@,
            ),
        decreases n - i,
    {
        let e = &routes[i];
        proof {
            assert(rvs.skip(i as int)[0] == rvs[i as int]);
        }
        if e.method == method && e.path == *path {
            return Some(e);
        }
        proof {
            assert(rvs.skip(i as int).drop_first() =~= rvs.skip(i + 1));
        }
        i += 1;
    }
    proof {
        assert(rvs.skip(n as int).len() == 0);
    }
    None
}

impl FinalizedPipeline {
    /// Handles one request: the single dispatch path both serving adapters
    /// share.
    pub fn handle(&self, req: &Request) -> (r: Response)
        ensures
            r@ == spec_handle(self@, req@),
    {
        match &self.cors {
            Some(c) => {
                if req.method == Method::Options {
                    c.preflight(&req.origin)
                } else {
                    let base = self.dispatch(req);
                    c.apply_to_response(&req.origin, base)
                }
            },
            None => self.dispatch(req),
        }
    }

    /// Raw dispatch: runs the matching route's handler, or answers
    /// not-found.
    fn dispatch(&self, req: &Request) -> (r: Response)
        ensures
            r@ == spec_dispatch(self@, req@),
    {
        match find_route(&self.routes, req.method, &req.path) {
            Some(e) => run_handler(&e.handler, req, &self.document_text),
            None => {
                let r = Response {
                    status: 404,
                    headers: Vec::new(),
                    body: String::from_str("{\"error\":\"not found\"}"),
                };
                proof {
                    assert(r@.headers =~= Seq::<crate::message::HeaderView>::empty());
                }
                r
            },
        }
    }
}

/// Law: a finalized pipeline routes each actual request to the handler
/// registered under the request's (method, path) key; the answer is that
/// handler's, with the policy's headers appended as configured.
pub proof fn lemma_dispatch_reaches_registered(p: PipelineView, req: RequestView, i: int)
    requires
        routes_unique(p.routes),
        0 <= i < p.routes.len(),
        req.method == p.routes[i].method,
        req.path == p.routes[i].path,
    ensures
        spec_dispatch(p, req) == handler_response(p.routes[i].handler, req, p.document_text),
        p.cors is None ==> spec_handle(p, req) == handler_response(
            p.routes[i].handler,
            req,
            p.document_text,
        ),
        (p.cors is Some && req.method != Method::Options) ==> spec_handle(p, req)
            == with_allow_origin(
            p.cors->Some_0,
            req.origin,
            handler_response(p.routes[i].handler, req, p.document_text),
        ),
{
    lemma_lookup_finds_unique(p.routes, req.method, req.path, i);
}

/// Law: with a policy configured, a preflight request is answered from the
/// policy and origin alone — empty body, the policy's headers when the
/// origin matches — and never reaches any handler: every pipeline with the
/// same policy answers it identically, whatever its routes.
pub proof fn lemma_preflight_short_circuit(p: PipelineView, req: RequestView)
    requires
        p.cors is Some,
        req.method == Method::Options,
    ensures
        spec_handle(p, req) == preflight_response(p.cors->Some_0, req.origin),
        spec_handle(p, req).body == Seq::<char>::empty(),
        spec_handle(p, req).status == 204,
        forall|p2: PipelineView| p2.cors == p.cors ==> spec_handle(p2, req) == spec_handle(p, req),
{
}

/// Law: an actual request whose origin does not match the policy still runs
/// the registered handler and returns its answer unchanged, without the
/// allow-origin header.
pub proof fn lemma_non_matching_origin_untouched(p: PipelineView, req: RequestView)
    requires
        p.cors is Some,
        !origin_matches(p.cors->Some_0, req.origin),
        req.method != Method::Options,
    ensures
        spec_handle(p, req) == spec_dispatch(p, req),
        !has_header(spec_handle(p, req).headers, "Access-Control-Allow-Origin"@),
{
    assert(spec_dispatch(p, req).headers =~= Seq::<crate::message::HeaderView>::empty());
}

} // verus!
