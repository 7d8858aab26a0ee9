use by_axum::document::serialize_document;
use by_axum::handler::Handler;
use by_axum::message::Method;
use by_axum::route::{RouteEntry, RouteMetadata, RouteRegistry, RouterError};
use by_axum::router::BiyardRouter;
use by_axum::schema::SchemaDescriptor;

fn meta() -> RouteMetadata {
    RouteMetadata { summary: None, auth_required: false }
}

fn health_handler() -> Handler {
    Handler::Fixed { status: 200, body: String::from("{\"status\":\"ok\"}") }
}

#[test]
fn registry_accepts_distinct_routes() {
    let mut reg = RouteRegistry::new();
    let r1 = reg.register(RouteEntry {
        method: Method::Get,
        path: String::from("/health"),
        handler: health_handler(),
        input_schema: SchemaDescriptor::Empty,
        output_schema: SchemaDescriptor::Text,
        metadata: meta(),
    });
    assert!(r1.is_ok());
    let r2 = reg.register(RouteEntry {
        method: Method::Post,
        path: String::from("/health"),
        handler: Handler::EchoBody,
        input_schema: SchemaDescriptor::Text,
        output_schema: SchemaDescriptor::Text,
        metadata: meta(),
    });
    assert!(r2.is_ok());
    assert!(reg.contains_route(Method::Get, &String::from("/health")));
    assert!(reg.contains_route(Method::Post, &String::from("/health")));
    assert!(!reg.contains_route(Method::Get, &String::from("/items")));
}

#[test]
fn duplicate_route_fails() {
    let app = by_axum::new();
    let app = app
        .route(
            Method::Get,
            String::from("/health"),
            health_handler(),
            SchemaDescriptor::Empty,
            SchemaDescriptor::Text,
            meta(),
        )
        .unwrap();
    let r = app.route(
        Method::Get,
        String::from("/health"),
        health_handler(),
        SchemaDescriptor::Empty,
        SchemaDescriptor::Text,
        meta(),
    );
    match r {
        Err(RouterError::DuplicateRoute { method, path }) => {
            assert_eq!(method, Method::Get);
            assert_eq!(path, String::from("/health"));
        },
        _ => panic!("expected a duplicate-route error"),
    }
}

#[test]
fn duplicate_route_fails_regardless_of_handler() {
    let app = by_axum::new();
    let app = app
        .route(
            Method::Get,
            String::from("/health"),
            health_handler(),
            SchemaDescriptor::Empty,
            SchemaDescriptor::Text,
            meta(),
        )
        .unwrap();
    let r = app.route(
        Method::Get,
        String::from("/health"),
        Handler::EchoBody,
        SchemaDescriptor::Text,
        SchemaDescriptor::Text,
        RouteMetadata { summary: Some(String::from("another")), auth_required: true },
    );
    assert!(matches!(r, Err(RouterError::DuplicateRoute { .. })));
}

#[test]
fn double_finalize_fails_and_first_pipeline_stands() {
    let mut app = by_axum::new()
        .route(
            Method::Get,
            String::from("/health"),
            health_handler(),
            SchemaDescriptor::Empty,
            SchemaDescriptor::Text,
            meta(),
        )
        .unwrap();
    let first = app.finalize().unwrap();
    let second = app.finalize();
    assert!(matches!(second, Err(RouterError::DoubleFinalize)));
    let (pipeline, _doc) = first;
    let resp = pipeline.handle(&by_axum::message::Request {
        method: Method::Get,
        path: String::from("/health"),
        origin: None,
        body: String::new(),
    });
    assert_eq!(resp.status, 200);
    assert_eq!(resp.body, String::from("{\"status\":\"ok\"}"));
}

#[test]
fn route_after_finalize_fails() {
    let mut app = by_axum::new();
    app.finalize().unwrap();
    let r = app.route(
        Method::Get,
        String::from("/late"),
        Handler::EchoBody,
        SchemaDescriptor::Text,
        SchemaDescriptor::Text,
        meta(),
    );
    assert!(matches!(r, Err(RouterError::DoubleFinalize)));
}

#[test]
fn with_cors_on_spent_facade_fails() {
    let mut app = by_axum::new();
    app.finalize().unwrap();
    let r = by_axum::with_cors(app);
    assert!(matches!(r, Err(RouterError::DoubleFinalize)));
}

#[test]
fn schema_generation_error_detected_at_finalize() {
    let app = by_axum::new()
        .route(
            Method::Post,
            String::from("/opaque"),
            Handler::EchoBody,
            SchemaDescriptor::Undescribable,
            SchemaDescriptor::Text,
            meta(),
        )
        .unwrap();
    let r = by_axum::finishing(app);
    match r {
        Err(RouterError::SchemaGeneration { method, path }) => {
            assert_eq!(method, Method::Post);
            assert_eq!(path, String::from("/opaque"));
        },
        _ => panic!("expected a schema-generation error"),
    }
}

fn sample_router() -> BiyardRouter {
    by_axum::new()
        .route(
            Method::Get,
            String::from("/health"),
            health_handler(),
            SchemaDescriptor::Empty,
            SchemaDescriptor::Text,
            RouteMetadata { summary: Some(String::from("service health")), auth_required: false },
        )
        .unwrap()
        .route(
            Method::Post,
            String::from("/items"),
            Handler::EchoBody,
            SchemaDescriptor::Object(String::from("Item")),
            SchemaDescriptor::Object(String::from("Item")),
            RouteMetadata { summary: None, auth_required: true },
        )
        .unwrap()
}

#[test]
fn document_builds_are_byte_identical() {
    let (_p1, d1) = by_axum::finishing(sample_router()).unwrap();
    let (_p2, d2) = by_axum::finishing(sample_router()).unwrap();
    let t1 = serialize_document(&d1);
    let t2 = serialize_document(&d2);
    assert_eq!(t1, t2);
    let again = serialize_document(&d1);
    assert_eq!(t1, again);
}

#[test]
fn document_text_is_exact() {
    let (pipeline, doc) = by_axum::finishing(sample_router()).unwrap();
    let expected = String::from(
        "{\"openapi\":\"3.0.0\",\"operations\":[\
         {\"method\":\"GET\",\"path\":\"/health\",\"summary\":\"service health\",\
         \"authRequired\":false,\"input\":null,\"output\":{\"type\":\"string\"}},\
         {\"method\":\"POST\",\"path\":\"/items\",\"summary\":null,\
         \"authRequired\":true,\"input\":{\"$ref\":\"#/components/schemas/Item\"},\
         \"output\":{\"$ref\":\"#/components/schemas/Item\"}}]}",
    );
    assert_eq!(pipeline.document_text, expected);
    assert_eq!(serialize_document(&doc), expected);
}

#[test]
fn nest_merges_routes_under_prefix() {
    let child = by_axum::new()
        .route(
            Method::Get,
            String::from("/users"),
            Handler::Fixed { status: 200, body: String::from("[]") },
            SchemaDescriptor::Empty,
            SchemaDescriptor::Text,
            meta(),
        )
        .unwrap();
    let mut app = by_axum::new()
        .nest(String::from("/api"), child)
        .unwrap();
    let (pipeline, _doc) = app.finalize().unwrap();
    let resp = pipeline.handle(&by_axum::message::Request {
        method: Method::Get,
        path: String::from("/api/users"),
        origin: None,
        body: String::new(),
    });
    assert_eq!(resp.status, 200);
    assert_eq!(resp.body, String::from("[]"));
}

#[test]
fn nest_detects_collisions_after_prefixing() {
    let child = by_axum::new()
        .route(
            Method::Get,
            String::from("/health"),
            Handler::EchoBody,
            SchemaDescriptor::Text,
            SchemaDescriptor::Text,
            meta(),
        )
        .unwrap();
    let parent = by_axum::new()
        .route(
            Method::Get,
            String::from("/api/health"),
            health_handler(),
            SchemaDescriptor::Empty,
            SchemaDescriptor::Text,
            meta(),
        )
        .unwrap();
    let r = parent.nest(String::from("/api"), child);
    match r {
        Err(RouterError::DuplicateRoute { method, path }) => {
            assert_eq!(method, Method::Get);
            assert_eq!(path, String::from("/api/health"));
        },
        _ => panic!("expected a duplicate-route error after prefixing"),
    }
}

#[test]
fn empty_registry_finalizes_to_empty_document() {
    let (pipeline, doc) = by_axum::finishing(by_axum::new()).unwrap();
    let expected = String::from("{\"openapi\":\"3.0.0\",\"operations\":[]}");
    assert_eq!(pipeline.document_text, expected);
    assert_eq!(serialize_document(&doc), expected);
}

#[test]
fn undescribable_output_schema_also_fails() {
    let app = by_axum::new()
        .route(
            Method::Get,
            String::from("/odd"),
            Handler::EchoBody,
            SchemaDescriptor::Text,
            SchemaDescriptor::Undescribable,
            meta(),
        )
        .unwrap();
    assert!(matches!(
        by_axum::finishing(app),
        Err(RouterError::SchemaGeneration { .. })
    ));
}

#[test]
fn well_formedness_check_matches_registration_discipline() {
    let app = sample_router();
    assert!(app.is_well_formed());
    let mut reg = RouteRegistry::new();
    let entry = || RouteEntry {
        method: Method::Get,
        path: String::from("/twice"),
        handler: Handler::EchoBody,
        input_schema: SchemaDescriptor::Text,
        output_schema: SchemaDescriptor::Text,
        metadata: meta(),
    };
    reg.register(entry()).unwrap();
    // Assemble a facade by hand around a registry that was then given a
    // duplicate directly.
    reg.entries.push(entry());
    let handmade = BiyardRouter { registry: reg, cors: None, finalized: false };
    assert!(!handmade.is_well_formed());
}

#[test]
fn method_tokens_round_trip() {
    let all = [
        (Method::Get, "GET"),
        (Method::Post, "POST"),
        (Method::Put, "PUT"),
        (Method::Delete, "DELETE"),
        (Method::Patch, "PATCH"),
        (Method::Head, "HEAD"),
        (Method::Options, "OPTIONS"),
    ];
    for (m, token) in all {
        let text = by_axum::message::method_text(m);
        assert_eq!(text, String::from(token));
        assert_eq!(by_axum::message::method_from_text(&text), Some(m));
    }
    assert_eq!(by_axum::message::method_from_text(&String::from("BREW")), None);
    assert_eq!(by_axum::message::method_from_text(&String::from("get")), None);
}
