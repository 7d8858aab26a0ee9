//! Plain request/response values that flow through the finalized pipeline,
//! and the HTTP methods the layer recognises.

use vstd::prelude::*;
use vstd::string::StringExecFns;

verus! {

/// The HTTP methods a route can be registered under.
#[derive(Clone, Copy, PartialEq, Eq, Structural, Debug)]
pub enum Method {
    Get,
    Post,
    Put,
    Delete,
    Patch,
    Head,
    Options,
}

/// The canonical token of each method, as it appears on the wire and in the
/// API document.
pub open spec fn method_token(m: Method) -> Seq<char> {
    match m {
        Method::Get => "GET"@,
        Method::Post => "POST"@,
        Method::Put => "PUT"@,
        Method::Delete => "DELETE"@,
        Method::Patch => "PATCH"@,
        Method::Head => "HEAD"@,
        Method::Options => "OPTIONS"@,
    }
}

/// Which method, if any, a raw method token denotes (exact match only).
pub open spec fn parse_method(s: Seq<char>) -> Option<Method> {
    if s == "GET"@ {
        Some(Method::Get)
    } else if s == "POST"@ {
        Some(Method::Post)
    } else if s == "PUT"@ {
        Some(Method::Put)
    } else if s == "DELETE"@ {
        Some(Method::Delete)
    } else if s == "PATCH"@ {
        Some(Method::Patch)
    } else if s == "HEAD"@ {
        Some(Method::Head)
    } else if s == "OPTIONS"@ {
        Some(Method::Options)
    } else {
        None
    }
}

/// Renders a method as its canonical token.
pub fn method_text(m: Method) -> (r: String)
    ensures
        r@ == method_token(m),
{
    match m {
        Method::Get => String::from_str("GET"),
        Method::Post => String::from_str("POST"),
        Method::Put => String::from_str("PUT"),
        Method::Delete => String::from_str("DELETE"),
        Method::Patch => String::from_str("PATCH"),
        Method::Head => String::from_str("HEAD"),
        Method::Options => String::from_str("OPTIONS"),
    }
}

/// Recognises a raw method token, as delivered by an external host.
pub fn method_from_text(s: &String) -> (r: Option<Method>)
    ensures
        r == parse_method(s@),
{
    if *s == String::from_str("GET") {
        Some(Method::Get)
    } else if *s == String::from_str("POST") {
        Some(Method::Post)
    } else if *s == String::from_str("PUT") {
        Some(Method::Put)
    } else if *s == String::from_str("DELETE") {
        Some(Method::Delete)
    } else if *s == String::from_str("PATCH") {
        Some(Method::Patch)
    } else if *s == String::from_str("HEAD") {
        Some(Method::Head)
    } else if *s == String::from_str("OPTIONS") {
        Some(Method::Options)
    } else {
        None
    }
}

/// Mathematical model of a request: the fields dispatch reads.
pub ghost struct RequestView {
    pub method: Method,
    pub path: Seq<char>,
    pub origin: Option<Seq<char>>,
    pub body: Seq<char>,
}

/// One inbound unit of work, already stripped to the fields the pipeline
/// needs: the transport adapters construct these.
pub struct Request {
    pub method: Method,
    pub path: String,
    /// The Origin header, when the client sent one.
    pub origin: Option<String>,
    pub body: String,
}

impl View for Request {
    type V = RequestView;

    open spec fn view(&self) -> RequestView {
        RequestView {
            method: self.method,
            path: self.path@,
            origin: self.origin.deep_view(),
            body: self.body@,
        }
    }
}

/// Mathematical model of one response header field.
pub ghost struct HeaderView {
    pub name: Seq<char>,
    pub value: Seq<char>,
}

/// One response header field.
pub struct Header {
    pub name: String,
    pub value: String,
}

impl View for Header {
    type V = HeaderView;

    open spec fn view(&self) -> HeaderView {
        HeaderView { name: self.name@, value: self.value@ }
    }
}

/// Mathematical model of a response.
pub ghost struct ResponseView {
    pub status: u16,
    pub headers: Seq<HeaderView>,
    pub body: Seq<char>,
}

/// What the pipeline hands back for one request.
pub struct Response {
    pub status: u16,
    pub headers: Vec<Header>,
    pub body: String,
}

impl View for Response {
    type V = ResponseView;

    open spec fn view(&self) -> ResponseView {
        ResponseView {
            status: self.status,
            headers: self.headers@.map_values(|h: Header| h@),
            body: self.body@,
        }
    }
}

/// Whether some header in `headers` carries the given name.
pub open spec fn has_header(headers: Seq<HeaderView>, name: Seq<char>) -> bool {
    exists|i: int| 0 <= i < headers.len() && headers[i].name == name
}

} // verus!
