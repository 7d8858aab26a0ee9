//! The handler shapes the layer can host, and how each turns a request into
//! a response. A business handler either produces a payload or reports a
//! typed failure; the pipeline converts the failure into a structured error
//! response instead of letting it escape.

use vstd::prelude::*;
use vstd::string::StringExecFns;
use crate::message::{Request, RequestView, Response, ResponseView};

verus! {

/// Mathematical model of a hosted handler.
pub ghost enum HandlerView {
    Fixed { status: u16, body: Seq<char> },
    EchoBody,
    DocumentSource,
    Failing { status: u16, message: Seq<char> },
}

/// One hosted request handler.
pub enum Handler {
    /// Always answers with the given status and payload.
    Fixed { status: u16, body: String },
    /// Echoes the request body back with status 200.
    EchoBody,
    /// Serves the shared serialized API document with status 200.
    DocumentSource,
    /// Models a handler whose business logic reports a typed failure: the
    /// pipeline answers with the given status and a structured error body.
    Failing { status: u16, message: String },
}

impl View for Handler {
    type V = HandlerView;

    open spec fn view(&self) -> HandlerView {
        match self {
            Handler::Fixed { status, body } => (HandlerView::Fixed {
                status: *status,
                body: body@,
            }),
            Handler::EchoBody => HandlerView::EchoBody,
            Handler::DocumentSource => HandlerView::DocumentSource,
            Handler::Failing { status, message } => (HandlerView::Failing {
                status: *status,
                message: message@,
            }),
        }
    }
}

/// The structured error body the pipeline emits for a failed handler.
pub open spec fn error_body(message: Seq<char>) -> Seq<char> {
    "{\"error\":\""@ + message + "\"}"@
}

/// What a handler answers for one request, given the shared serialized API
/// document. Handlers emit no headers of their own; the policy layer alone
/// appends headers.
pub open spec fn handler_response(
    h: HandlerView,
    req: RequestView,
    document_text: Seq<char>,
) -> ResponseView {
    match h {
        HandlerView::Fixed { status, body } => (ResponseView {
            status,
            headers: Seq::empty(),
            body,
        }),
        HandlerView::EchoBody => (ResponseView { status: 200, headers: Seq::empty(), body: req.body }),
        HandlerView::DocumentSource => (ResponseView {
            status: 200,
            headers: Seq::empty(),
            body: document_text,
        }),
        HandlerView::Failing { status, message } => (ResponseView {
            status,
            headers: Seq::empty(),
            body: error_body(message),
        }),
    }
}

/// Runs one hosted handler on one request.
pub fn run_handler(h: &Handler, req: &Request, document_text: &String) -> (r: Response)
    ensures
        r@ == handler_response(h@, req@, document_text@),
{
    let r = match h {
        Handler::Fixed { status, body } => Response {
            status: *status,
            headers: Vec::new(),
            body: body.clone(),
        },
        Handler::EchoBody => Response { status: 200, headers: Vec::new(), body: req.body.clone() },
        Handler::DocumentSource => Response {
            status: 200,
            headers: Vec::new(),
            body: document_text.clone(),
        },
        Handler::Failing { status, message } => {
            let mut b = String::from_str("{\"error\":\"");
            b.append(message.as_str());
            b.append("\"}");
            Response { status: *status, headers: Vec::new(), body: b }
        },
    };
    proof {
        assert(r@.headers =~= Seq::<crate::message::HeaderView>::empty());
    }
    r
}

} // verus!
