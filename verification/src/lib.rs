//! A route-composition layer: handlers are declared once against a router
//! facade, and a single finalize step derives both a dispatchable pipeline
//! (with uniform CORS policy and a shared API document) and a serialized,
//! machine-readable description of every registered route. The pipeline is
//! immutable and transport-agnostic: a socket listener and a single-shot
//! event adapter feed it the same requests and get the same answers.

pub mod document;
pub mod handler;
pub mod message;
pub mod pipeline;
pub mod policy;
pub mod route;
pub mod router;
pub mod rest_api_adapter;
pub mod schema;

use vstd::prelude::*;
use vstd::string::StringExecFns;
use crate::document::{document_json, spec_build, ApiDocument};
use crate::message::Method;
use crate::pipeline::{pipeline_wf, FinalizedPipeline, PipelineView};
use crate::policy::{CorsPolicy, CorsPolicyView};
use crate::rest_api_adapter::RestApiAdapter;
use crate::route::{RouteEntryView, RouterError, RouterErrorView};
use crate::router::{BiyardRouter, BiyardRouterView};

verus! {

/// Creates an empty router facade. Logging or tracing initialization is the
/// hosting process's explicit concern, before any serving starts;
/// composition itself has no side effects.
pub fn new() -> (r: BiyardRouter)
    ensures
        r@.routes == Seq::<RouteEntryView>::empty(),
        r@.cors is None,
        !r@.finalized,
        r.wf(),
{
    BiyardRouter::new()
}

/// The CORS policy this layer composes in: one exact allowed origin,
/// credentials allowed, and the announced methods and header names.
pub open spec fn default_cors_policy_view() -> CorsPolicyView {
    CorsPolicyView {
        allowed_origin: "http://127.0.0.1:8080"@,
        allow_credentials: true,
        allowed_methods: seq![Method::Get, Method::Post, Method::Options],
        allowed_headers: seq!["content-type"@, "authorization"@],
    }
}

/// Builds the composed-in CORS policy.
pub fn default_cors_policy() -> (r: CorsPolicy)
    ensures
        r@ == default_cors_policy_view(),
{
    let mut allowed_methods: Vec<Method> = Vec::new();
    allowed_methods.push(Method::Get);
    allowed_methods.push(Method::Post);
    allowed_methods.push(Method::Options);
    let mut allowed_headers: Vec<String> = Vec::new();
    allowed_headers.push(String::from_str("content-type"));
    allowed_headers.push(String::from_str("authorization"));
    let r = CorsPolicy {
        allowed_origin: String::from_str("http://127.0.0.1:8080"),
        allow_credentials: true,
        allowed_methods,
        allowed_headers,
    };
    proof {
        assert(r@.allowed_methods =~= default_cors_policy_view().allowed_methods);
        assert(r@.allowed_headers =~= default_cors_policy_view().allowed_headers);
    }
    r
}

/// Attaches the composed-in CORS policy to a facade; fails fast on a spent
/// facade.
pub fn with_cors(app: BiyardRouter) -> (r: Result<BiyardRouter, RouterError>)
    ensures
        app@.finalized ==> (r matches Err(e) && e@ == RouterErrorView::DoubleFinalize),
        !app@.finalized ==> (r matches Ok(f) && f@ == (BiyardRouterView {
            routes: app@.routes,
            cors: Some(default_cors_policy_view()),
            finalized: false,
        })),
{
    app.with_policy(default_cors_policy())
}

/// Finalizes a facade: builds the API document once and produces the
/// dispatchable pipeline that carries it, together with the caller's copy
/// of the document.
pub fn finishing(app: BiyardRouter) -> (r: Result<(FinalizedPipeline, ApiDocument), RouterError>)
    requires
        app.wf(),
    ensures
        app@.finalized ==> (r matches Err(e) && e@ == RouterErrorView::DoubleFinalize),
        !app@.finalized ==> (match spec_build(app@.routes) {
            Ok(ops) => r matches Ok(pair) && pair.0@ == (PipelineView {
                routes: app@.routes,
                cors: app@.cors,
                document: ops,
                document_text: document_json(ops),
            }) && pipeline_wf(pair.0@) && pair.1@ == ops,
            Err(err) => r matches Err(e) && e@ == err,
        }),
{
    let mut a = app;
    a.finalize()
}

/// Finalizes a facade and wraps the pipeline in the event-invocation
/// adapter, for hosting as a single-invocation entry function.
pub fn into_api_adapter(app: BiyardRouter) -> (r: Result<RestApiAdapter, RouterError>)
    requires
        app.wf(),
    ensures
        app@.finalized ==> (r matches Err(e) && e@ == RouterErrorView::DoubleFinalize),
        !app@.finalized ==> (match spec_build(app@.routes) {
            Ok(ops) => r matches Ok(a) && a@ == (PipelineView {
                routes: app@.routes,
                cors: app@.cors,
                document: ops,
                document_text: document_json(ops),
            }) && pipeline_wf(a@),
            Err(err) => r matches Err(e) && e@ == err,
        }),
{
    match finishing(app) {
        Ok((pipeline, _document)) => Ok(RestApiAdapter::new(pipeline)),
        Err(e) => Err(e),
    }
}

} // verus!
