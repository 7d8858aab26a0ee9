use by_axum::handler::Handler;
use by_axum::message::{Method, Request, Response};
use by_axum::rest_api_adapter::InvocationEvent;
use by_axum::route::RouteMetadata;
use by_axum::router::BiyardRouter;
use by_axum::schema::SchemaDescriptor;

const ORIGIN: &str = "http://127.0.0.1:8080";

fn meta() -> RouteMetadata {
    RouteMetadata { summary: None, auth_required: false }
}

fn app() -> BiyardRouter {
    let app = by_axum::new()
        .route(
            Method::Get,
            String::from("/health"),
            Handler::Fixed { status: 200, body: String::from("{\"status\":\"ok\"}") },
            SchemaDescriptor::Empty,
            SchemaDescriptor::Text,
            meta(),
        )
        .unwrap()
        .route(
            Method::Post,
            String::from("/items"),
            Handler::EchoBody,
            SchemaDescriptor::Text,
            SchemaDescriptor::Text,
            meta(),
        )
        .unwrap()
        .route(
            Method::Get,
            String::from("/docs"),
            Handler::DocumentSource,
            SchemaDescriptor::Empty,
            SchemaDescriptor::Text,
            meta(),
        )
        .unwrap()
        .route(
            Method::Post,
            String::from("/reject"),
            Handler::Failing { status: 422, message: String::from("bad input") },
            SchemaDescriptor::Text,
            SchemaDescriptor::Text,
            meta(),
        )
        .unwrap();
    by_axum::with_cors(app).unwrap()
}

fn header<'a>(resp: &'a Response, name: &str) -> Option<&'a String> {
    resp.headers.iter().find(|h| h.name == *name).map(|h| &h.value)
}

#[test]
fn routes_reach_their_handlers() {
    let (pipeline, _doc) = by_axum::finishing(app()).unwrap();
    let health = pipeline.handle(&Request {
        method: Method::Get,
        path: String::from("/health"),
        origin: None,
        body: String::new(),
    });
    assert_eq!(health.status, 200);
    assert_eq!(health.body, String::from("{\"status\":\"ok\"}"));
    let echo = pipeline.handle(&Request {
        method: Method::Post,
        path: String::from("/items"),
        origin: None,
        body: String::from("{\"name\":\"pen\"}"),
    });
    assert_eq!(echo.status, 200);
    assert_eq!(echo.body, String::from("{\"name\":\"pen\"}"));
}

#[test]
fn unknown_route_is_not_found() {
    let (pipeline, _doc) = by_axum::finishing(app()).unwrap();
    let resp = pipeline.handle(&Request {
        method: Method::Get,
        path: String::from("/missing"),
        origin: None,
        body: String::new(),
    });
    assert_eq!(resp.status, 404);
    assert_eq!(resp.body, String::from("{\"error\":\"not found\"}"));
}

#[test]
fn failing_handler_becomes_structured_error() {
    let (pipeline, _doc) = by_axum::finishing(app()).unwrap();
    let resp = pipeline.handle(&Request {
        method: Method::Post,
        path: String::from("/reject"),
        origin: None,
        body: String::from("junk"),
    });
    assert_eq!(resp.status, 422);
    assert_eq!(resp.body, String::from("{\"error\":\"bad input\"}"));
}

#[test]
fn document_route_serves_the_shared_document() {
    let (pipeline, _doc) = by_axum::finishing(app()).unwrap();
    let resp = pipeline.handle(&Request {
        method: Method::Get,
        path: String::from("/docs"),
        origin: None,
        body: String::new(),
    });
    assert_eq!(resp.status, 200);
    assert_eq!(resp.body, pipeline.document_text);
}

#[test]
fn preflight_matching_origin_short_circuits() {
    let (pipeline, _doc) = by_axum::finishing(app()).unwrap();
    let resp = pipeline.handle(&Request {
        method: Method::Options,
        path: String::from("/items"),
        origin: Some(String::from(ORIGIN)),
        body: String::new(),
    });
    assert_eq!(resp.status, 204);
    assert_eq!(resp.body, String::new());
    assert_eq!(header(&resp, "Access-Control-Allow-Origin"), Some(&String::from(ORIGIN)));
    assert_eq!(header(&resp, "Access-Control-Allow-Credentials"), Some(&String::from("true")));
    assert_eq!(
        header(&resp, "Access-Control-Allow-Methods"),
        Some(&String::from("GET, POST, OPTIONS")),
    );
    assert_eq!(
        header(&resp, "Access-Control-Allow-Headers"),
        Some(&String::from("content-type, authorization")),
    );
}

#[test]
fn preflight_never_reaches_a_handler() {
    let (pipeline, _doc) = by_axum::finishing(app()).unwrap();
    let resp = pipeline.handle(&Request {
        method: Method::Options,
        path: String::from("/reject"),
        origin: Some(String::from(ORIGIN)),
        body: String::from("junk"),
    });
    assert_eq!(resp.status, 204);
    assert_eq!(resp.body, String::new());
}

#[test]
fn preflight_foreign_origin_omits_allow_origin() {
    let (pipeline, _doc) = by_axum::finishing(app()).unwrap();
    let resp = pipeline.handle(&Request {
        method: Method::Options,
        path: String::from("/items"),
        origin: Some(String::from("http://elsewhere.example")),
        body: String::new(),
    });
    assert_eq!(resp.status, 204);
    assert_eq!(header(&resp, "Access-Control-Allow-Origin"), None);
    assert_eq!(header(&resp, "Access-Control-Allow-Credentials"), None);
    assert_eq!(
        header(&resp, "Access-Control-Allow-Methods"),
        Some(&String::from("GET, POST, OPTIONS")),
    );
}

#[test]
fn preflight_without_origin_is_still_short_circuited() {
    let (pipeline, _doc) = by_axum::finishing(app()).unwrap();
    let resp = pipeline.handle(&Request {
        method: Method::Options,
        path: String::from("/items"),
        origin: None,
        body: String::new(),
    });
    assert_eq!(resp.status, 204);
    assert_eq!(resp.body, String::new());
    assert_eq!(header(&resp, "Access-Control-Allow-Origin"), None);
}

#[test]
fn matching_origin_gains_allow_origin_header() {
    let (pipeline, _doc) = by_axum::finishing(app()).unwrap();
    let resp = pipeline.handle(&Request {
        method: Method::Get,
        path: String::from("/health"),
        origin: Some(String::from(ORIGIN)),
        body: String::new(),
    });
    assert_eq!(resp.status, 200);
    assert_eq!(resp.body, String::from("{\"status\":\"ok\"}"));
    assert_eq!(header(&resp, "Access-Control-Allow-Origin"), Some(&String::from(ORIGIN)));
}

#[test]
fn foreign_origin_still_runs_handler_without_allow_origin() {
    let (pipeline, _doc) = by_axum::finishing(app()).unwrap();
    let resp = pipeline.handle(&Request {
        method: Method::Post,
        path: String::from("/items"),
        origin: Some(String::from("http://elsewhere.example")),
        body: String::from("payload"),
    });
    assert_eq!(resp.status, 200);
    assert_eq!(resp.body, String::from("payload"));
    assert!(resp.headers.is_empty());
}

#[test]
fn adapter_answers_like_the_pipeline() {
    let (pipeline, _doc) = by_axum::finishing(app()).unwrap();
    let adapter = by_axum::into_api_adapter(app()).unwrap();
    let cases = [
        ("GET", "/health", None, ""),
        ("POST", "/items", None, "{\"n\":1}"),
        ("OPTIONS", "/items", Some(ORIGIN), ""),
        ("GET", "/missing", Some("http://elsewhere.example"), ""),
    ];
    for (method, path, origin, body) in cases {
        let direct = pipeline.handle(&Request {
            method: by_axum::message::method_from_text(&String::from(method)).unwrap(),
            path: String::from(path),
            origin: origin.map(String::from),
            body: String::from(body),
        });
        let via_event = adapter.invoke(&InvocationEvent {
            method: String::from(method),
            path: String::from(path),
            origin: origin.map(String::from),
            body: String::from(body),
        });
        assert_eq!(via_event.status, direct.status);
        assert_eq!(via_event.body, direct.body);
        assert_eq!(via_event.headers.len(), direct.headers.len());
        for (a, b) in via_event.headers.iter().zip(direct.headers.iter()) {
            assert_eq!(a.name, b.name);
            assert_eq!(a.value, b.value);
        }
    }
}

#[test]
fn malformed_event_becomes_error_envelope() {
    let adapter = by_axum::into_api_adapter(app()).unwrap();
    let resp = adapter.invoke(&InvocationEvent {
        method: String::from("BREW"),
        path: String::from("/health"),
        origin: None,
        body: String::new(),
    });
    assert_eq!(resp.status, 400);
    assert_eq!(resp.body, String::from("{\"error\":\"malformed event\"}"));
}

#[test]
fn no_policy_means_no_cors_headers() {
    let plain = by_axum::new()
        .route(
            Method::Get,
            String::from("/health"),
            Handler::Fixed { status: 200, body: String::from("{\"status\":\"ok\"}") },
            SchemaDescriptor::Empty,
            SchemaDescriptor::Text,
            meta(),
        )
        .unwrap();
    let (pipeline, _doc) = by_axum::finishing(plain).unwrap();
    let resp = pipeline.handle(&Request {
        method: Method::Get,
        path: String::from("/health"),
        origin: Some(String::from(ORIGIN)),
        body: String::new(),
    });
    assert_eq!(resp.status, 200);
    assert!(resp.headers.is_empty());
}
