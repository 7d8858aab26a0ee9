//! The event-invocation serving adapter: translates one externally delivered
//! invocation payload into one request, dispatches it exactly once through
//! the finalized pipeline, and returns the pipeline's answer as the response
//! envelope. A malformed payload becomes an error envelope instead of an
//! unhandled failure.

use vstd::prelude::*;
use vstd::string::StringExecFns;
use crate::message::{
    method_from_text, parse_method, Method, Request, RequestView, Response, ResponseView,
};
use crate::pipeline::{spec_handle, FinalizedPipeline, PipelineView};

verus! {

/// Mathematical model of an invocation payload.
pub ghost struct InvocationEventView {
    pub method: Seq<char>,
    pub path: Seq<char>,
    pub origin: Option<Seq<char>>,
    pub body: Seq<char>,
}

/// One externally delivered invocation payload, already stripped to the
/// fields one request needs. The method arrives as the host's raw token and
/// is validated here.
pub struct InvocationEvent {
    pub method: String,
    pub path: String,
    pub origin: Option<String>,
    pub body: String,
}

impl View for InvocationEvent {
    type V = InvocationEventView;

    open spec fn view(&self) -> InvocationEventView {
        InvocationEventView {
            method: self.method@,
            path: self.path@,
            origin: self.origin.deep_view(),
            body: self.body@,
        }
    }
}

/// The request an event spells, once its method token is recognised.
pub open spec fn request_of_event(ev: InvocationEventView, m: Method) -> RequestView {
    RequestView { method: m, path: ev.path, origin: ev.origin, body: ev.body }
}

/// The error envelope for a payload whose method token is not recognised.
pub open spec fn malformed_event_response() -> ResponseView {
    ResponseView { status: 400, headers: Seq::empty(), body: "{\"error\":\"malformed event\"}"@ }
}

/// What one invocation answers: the pipeline's answer for the translated
/// request, or the error envelope for a malformed payload.
pub open spec fn spec_invoke(p: PipelineView, ev: InvocationEventView) -> ResponseView {
    match parse_method(ev.method) {
        Some(m) => spec_handle(p, request_of_event(ev, m)),
        None => malformed_event_response(),
    }
}

/// The event-invocation adapter: wraps the finalized pipeline behind a
/// single-invocation entry function.
pub struct RestApiAdapter {
    pub pipeline: FinalizedPipeline,
}

impl View for RestApiAdapter {
    type V = PipelineView;

    open spec fn view(&self) -> PipelineView {
        self.pipeline@
    }
}

impl RestApiAdapter {
    /// Wraps a finalized pipeline.
    pub fn new(pipeline: FinalizedPipeline) -> (r: RestApiAdapter)
        ensures
            r@ == pipeline@,
    {
        RestApiAdapter { pipeline }
    }

    /// Handles exactly one invocation: translate, dispatch once, answer.
    pub fn invoke(&self, ev: &InvocationEvent) -> (r: Response)
        ensures
            r@ == spec_invoke(self@, ev@),
    {
        match method_from_text(&ev.method) {
            Some(m) => {
                let origin = match &ev.origin {
                    Some(o) => Some(o.clone()),
                    None => None,
                };
                let req = Request {
                    method: m,
                    path: ev.path.clone(),
                    origin,
                    body: ev.body.clone(),
                };
                self.pipeline.handle(&req)
            },
            None => {
                let r = Response {
                    status: 400,
                    headers: Vec::new(),
                    body: String::from_str("{\"error\":\"malformed event\"}"),
                };
                proof {
                    assert(r@.headers =~= Seq::<crate::message::HeaderView>::empty());
                }
                r
            },
        }
    }
}

/// Law: both serving adapters route through the identical finalized
/// pipeline — an invocation whose method token is recognised is answered
/// exactly as the pipeline answers the request the event spells, status,
/// headers and body alike.
pub proof fn lemma_adapter_equivalence(p: PipelineView, ev: InvocationEventView, m: Method)
    requires
        parse_method(ev.method) == Some(m),
    ensures
        spec_invoke(p, ev) == spec_handle(p, request_of_event(ev, m)),
{
}

} // verus!
