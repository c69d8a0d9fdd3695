use hello_lambda::handler::{handle, response, InvocationContext};
use hello_lambda::json::JsonDoc;

fn ctx(request_id: &str, deadline_ms: u64) -> InvocationContext {
    InvocationContext { request_id: request_id.to_owned(), deadline_ms }
}

fn greeting() -> JsonDoc {
    JsonDoc::Obj(vec![(
        "message".to_owned(),
        JsonDoc::Text("Hello from Rust Lambda!".to_owned()),
    )])
}

#[test]
fn response_is_the_fixed_greeting_object() {
    assert_eq!(response(), greeting());
}

#[test]
fn empty_object_event_returns_greeting() {
    let out = handle(JsonDoc::Obj(vec![]), ctx("req-1", 1_000));
    assert_eq!(out, greeting());
}

#[test]
fn populated_object_event_returns_greeting() {
    let event = JsonDoc::Obj(vec![
        ("foo".to_owned(), JsonDoc::Text("bar".to_owned())),
        ("n".to_owned(), JsonDoc::Int(42)),
    ]);
    let out = handle(event, ctx("req-2", 2_000));
    assert_eq!(out, greeting());
}

#[test]
fn null_event_returns_greeting() {
    let out = handle(JsonDoc::Null, ctx("req-3", 3_000));
    assert_eq!(out, greeting());
}

#[test]
fn nested_event_returns_greeting() {
    let event = JsonDoc::Arr(vec![
        JsonDoc::Bool(true),
        JsonDoc::Obj(vec![(
            "inner".to_owned(),
            JsonDoc::Arr(vec![JsonDoc::Int(-7), JsonDoc::Null]),
        )]),
    ]);
    let out = handle(event, ctx("req-4", 4_000));
    assert_eq!(out, greeting());
}

#[test]
fn event_content_does_not_affect_output() {
    let a = handle(JsonDoc::Bool(false), ctx("req-5", 5_000));
    let b = handle(JsonDoc::Text("anything at all".to_owned()), ctx("req-5", 5_000));
    assert_eq!(a, b);
}

#[test]
fn context_content_does_not_affect_output() {
    let event = || JsonDoc::Obj(vec![("k".to_owned(), JsonDoc::Int(1))]);
    let a = handle(event(), ctx("req-6", 6_000));
    let b = handle(event(), ctx("another-request-id", u64::MAX));
    assert_eq!(a, b);
}

#[test]
fn repeated_invocations_yield_the_same_document() {
    let first = handle(JsonDoc::Obj(vec![]), ctx("req-7", 7_000));
    let second = handle(JsonDoc::Obj(vec![]), ctx("req-7", 7_000));
    let third = handle(JsonDoc::Int(99), ctx("req-8", 8_000));
    assert_eq!(first, second);
    assert_eq!(second, third);
    assert_eq!(first, greeting());
}
