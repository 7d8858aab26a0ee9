//! The cross-cutting policy layer: one CORS policy applied uniformly to all
//! registered routes. Preflight requests are answered before dispatch and
//! never reach a handler; actual requests gain the allow-origin header only
//! when the request's origin exactly matches the configured origin. A
//! non-matching origin never stops the handler from running: the policy only
//! withholds the header.

use vstd::prelude::*;
use vstd::string::StringExecFns;
use crate::message::{method_text, method_token, Header, HeaderView, Method, Response, ResponseView};

verus! {

/// Mathematical model of a CORS policy.
pub ghost struct CorsPolicyView {
    pub allowed_origin: Seq<char>,
    pub allow_credentials: bool,
    pub allowed_methods: Seq<Method>,
    pub allowed_headers: Seq<Seq<char>>,
}

/// The configured CORS policy: one exact allowed origin, a credential flag,
/// and the allowed methods and header names announced to preflights.
pub struct CorsPolicy {
    pub allowed_origin: String,
    pub allow_credentials: bool,
    pub allowed_methods: Vec<Method>,
    pub allowed_headers: Vec<String>,
}

impl View for CorsPolicy {
    type V = CorsPolicyView;

    open spec fn view(&self) -> CorsPolicyView {
        CorsPolicyView {
            allowed_origin: self.allowed_origin@,
            allow_credentials: self.allow_credentials,
            allowed_methods: self.allowed_methods@,
            allowed_headers: self.allowed_headers.deep_view(),
        }
    }
}

/// Whether a request origin matches the configured origin (exact match; a
/// request without an Origin header never matches).
pub open spec fn origin_matches(c: CorsPolicyView, origin: Option<Seq<char>>) -> bool {
    match origin {
        Some(o) => o == c.allowed_origin,
        None => false,
    }
}

/// The announced method list, comma-separated, in configuration order.
pub open spec fn methods_list(ms: Seq<Method>) -> Seq<char>
    decreases ms.len(),
{
    if ms.len() == 0 {
        Seq::empty()
    } else if ms.len() == 1 {
        method_token(ms[0])
    } else {
        methods_list(ms.drop_last()) + ", "@ + method_token(ms.last())
    }
}

/// The announced header-name list, comma-separated, in configuration order.
pub open spec fn names_list(hs: Seq<Seq<char>>) -> Seq<char>
    decreases hs.len(),
{
    if hs.len() == 0 {
        Seq::empty()
    } else if hs.len() == 1 {
        hs[0]
    } else {
        names_list(hs.drop_last()) + ", "@ + hs.last()
    }
}

/// The headers a preflight answer carries: the allow-origin and credential
/// headers only when the origin matches, then the configured method and
/// header announcements.
pub open spec fn preflight_headers(c: CorsPolicyView, origin: Option<Seq<char>>) -> Seq<
    HeaderView,
> {
    let announce = seq![
        HeaderView { name: "Access-Control-Allow-Methods"@, value: methods_list(c.allowed_methods) },
        HeaderView { name: "Access-Control-Allow-Headers"@, value: names_list(c.allowed_headers) },
    ];
    if origin_matches(c, origin) {
        seq![HeaderView { name: "Access-Control-Allow-Origin"@, value: c.allowed_origin }] + (
        if c.allow_credentials {
            seq![HeaderView { name: "Access-Control-Allow-Credentials"@, value: "true"@ }]
        } else {
            Seq::empty()
        }) + announce
    } else {
        announce
    }
}

/// The preflight short-circuit answer: an empty body with the policy's
/// headers, computed from the policy and origin alone.
pub open spec fn preflight_response(c: CorsPolicyView, origin: Option<Seq<char>>) -> ResponseView {
    ResponseView { status: 204, headers: preflight_headers(c, origin), body: Seq::empty() }
}

/// An actual (non-preflight) response with the allow-origin header (and the
/// credential header, when configured) appended exactly when the origin
/// matches; otherwise the response unchanged.
pub open spec fn with_allow_origin(
    c: CorsPolicyView,
    origin: Option<Seq<char>>,
    resp: ResponseView,
) -> ResponseView {
    if origin_matches(c, origin) {
        ResponseView {
            status: resp.status,
            headers: resp.headers + seq![
                HeaderView { name: "Access-Control-Allow-Origin"@, value: c.allowed_origin },
            ] + (if c.allow_credentials {
                seq![HeaderView { name: "Access-Control-Allow-Credentials"@, value: "true"@ }]
            } else {
                Seq::empty()
            }),
            body: resp.body,
        }
    } else {
        resp
    }
}

impl CorsPolicy {
    /// Whether the request's origin matches the configured origin exactly.
    pub fn origin_allowed(&self, origin: &Option<String>) -> (r: bool)
        ensures
            r == origin_matches(self@, origin.deep_view()),
    {
        match origin {
            Some(o) => *o == self.allowed_origin,
            None => false,
        }
    }

    /// Renders the announced method list.
    fn methods_text(&self) -> (r: String)
        ensures
            r@ == methods_list(self@.allowed_methods),
    {
        let mut out = String::new();
        let n = self.allowed_methods.len();
        let mut i: usize = 0;
        while i < n
            invariant
                i <= n,
                n == self.allowed_methods.len(),
                out@ == methods_list(self@.allowed_methods.take(i as int)),
            decreases n - i,
        {
            if i > 0 {
                out.append(", ");
            }
            let t = method_text(self.allowed_methods[i]);
            out.append(t.as_str());
            proof {
                assert(self@.allowed_methods.take(i + 1).drop_last() =~= self@.allowed_methods.take(
                    i as int,
                ));
            }
            i += 1;
        }
        proof {
            assert(self@.allowed_methods.take(n as int) =~= self@.allowed_methods);
        }
        out
    }

    /// Renders the announced header-name list.
    fn headers_text(&self) -> (r: String)
        ensures
            r@ == names_list(self@.allowed_headers),
    {
        let mut out = String::new();
        let n = self.allowed_headers.len();
        let mut i: usize = 0;
        while i < n
            invariant
                i <= n,
                n == self.allowed_headers.len(),
                out@ == names_list(self@.allowed_headers.take(i as int)),
            decreases n - i,
        {
            if i > 0 {
                out.append(", ");
            }
            out.append(self.allowed_headers[i].as_str());
            proof {
                assert(self@.allowed_headers.take(i + 1).drop_last() =~= self@.allowed_headers.take(
                    i as int,
                ));
                assert(self@.allowed_headers.take(i + 1).last() == self@.allowed_headers[i as int]);
            }
            i += 1;
        }
        proof {
            assert(self@.allowed_headers.take(n as int) =~= self@.allowed_headers);
        }
        out
    }

    /// Answers a preflight request: empty body, policy headers, and no
    /// dispatch to any handler.
    pub fn preflight(&self, origin: &Option<String>) -> (r: Response)
        ensures
            r@ == preflight_response(self@, origin.deep_view()),
    {
        let mut headers: Vec<Header> = Vec::new();
        if self.origin_allowed(origin) {
            headers.push(
                Header {
                    name: String::from_str("Access-Control-Allow-Origin"),
                    value: self.allowed_origin.clone(),
                },
            );
            if self.allow_credentials {
                headers.push(
                    Header {
                        name: String::from_str("Access-Control-Allow-Credentials"),
                        value: String::from_str("true"),
                    },
                );
            }
        }
        headers.push(
            Header {
                name: String::from_str("Access-Control-Allow-Methods"),
                value: self.methods_text(),
            },
        );
        headers.push(
            Header {
                name: String::from_str("Access-Control-Allow-Headers"),
                value: self.headers_text(),
            },
        );
        let r = Response { status: 204, headers, body: String::new() };
        proof {
            assert(r@.headers =~= preflight_headers(self@, origin.deep_view()));
        }
        r
    }

    /// Appends the allow-origin (and credential) headers to an actual
    /// response exactly when the origin matches; otherwise returns the
    /// response unchanged.
    pub fn apply_to_response(&self, origin: &Option<String>, resp: Response) -> (r: Response)
        ensures
            r@ == with_allow_origin(self@, origin.deep_view(), resp@),
    {
        let mut resp = resp;
        let ghost orig = resp@;
        if self.origin_allowed(origin) {
            resp.headers.push(
                Header {
                    name: String::from_str("Access-Control-Allow-Origin"),
                    value: self.allowed_origin.clone(),
                },
            );
            if self.allow_credentials {
                resp.headers.push(
                    Header {
                        name: String::from_str("Access-Control-Allow-Credentials"),
                        value: String::from_str("true"),
                    },
                );
            }
            proof {
                assert(resp@.headers =~= with_allow_origin(
                    self@,
                    origin.deep_view(),
                    orig,
                ).headers);
            }
        }
        resp
    }
}

} // verus!
