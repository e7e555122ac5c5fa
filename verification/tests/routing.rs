use rspc::exec::routing::{
    get_mutation, get_procedure, get_query, get_subscription, route_request, ProcedureMap, RequestData, Routed,
    Router,
};
use rspc::exec::types::{Request, ResponseError};
use rspc::middleware::{ProcedureKind, RequestContext};
use serde_json::Value;

type Answer = Result<Value, ResponseError>;
type Procedure = Box<dyn Fn((), Value, RequestContext) -> Answer>;

fn data(id: u32, path: &str, input: Option<Value>) -> RequestData {
    RequestData { id, path: path.to_string(), input }
}

/// A resolver that takes a string argument, failing as the framework does when the
/// argument does not deserialize.
fn echo_string(_: (), input: Value, _: RequestContext) -> Answer {
    match serde_json::from_value::<String>(input) {
        Ok(s) => Ok(Value::String(s)),
        Err(e) => Err(ResponseError {
            code: 500,
            message: format!("error deserializing procedure arguments: {}", e),
            data: None,
        }),
    }
}

fn test_router() -> Router<Procedure> {
    let mut r: Router<Procedure> = Router::new();
    r.mutations.insert("a".to_string(), Box::new(|_, _, _| Ok(Value::from(""))));
    r.subscriptions.insert("b".to_string(), Box::new(|_, _, _| Ok(Value::Null)));
    r.queries.insert("c".to_string(), Box::new(|_, _, _| Ok(Value::from(42))));
    r.queries.insert(
        "d".to_string(),
        Box::new(|_, _, _| futures::executor::block_on(async move { Ok(Value::from(43)) })),
    );
    r.queries.insert("e".to_string(), Box::new(echo_string));
    r
}

#[test]
fn test_exec_query() {
    let r = test_router();

    // A query request does not resolve to a mutation.
    assert!(get_query(&r, (), data(0, "a", None)).is_none());
    // A query request does not resolve to a subscription.
    assert!(get_query(&r, (), data(0, "b", None)).is_none());
    // A synchronous resolver.
    assert_eq!(get_query(&r, (), data(0, "c", None)), Some(Ok(Value::from(42))));
    // An asynchronous resolver.
    assert_eq!(get_query(&r, (), data(0, "d", None)), Some(Ok(Value::from(43))));
    // The input is passed on.
    assert_eq!(
        get_query(&r, (), data(0, "e", Some(Value::String("hello".into())))),
        Some(Ok(Value::String("hello".into())))
    );
    // No input is passed as JSON null.
    assert_eq!(
        get_query(&r, (), data(0, "e", None)),
        Some(Err(ResponseError {
            code: 500,
            message: "error deserializing procedure arguments: invalid type: null, expected a string".into(),
            data: None,
        }))
    );
    // A wrong input.
    assert_eq!(
        get_query(&r, (), data(0, "e", Some(42.into()))),
        Some(Err(ResponseError {
            code: 500,
            message: "error deserializing procedure arguments: invalid type: integer `42`, expected a string".into(),
            data: None,
        }))
    );
}

#[test]
fn routes_each_kind_to_its_own_table() {
    let r = test_router();
    assert_eq!(get_mutation(&r, (), data(1, "a", None)), Some(Ok(Value::from(""))));
    assert!(get_mutation(&r, (), data(1, "c", None)).is_none());
    assert_eq!(get_subscription(&r, (), data(1, "b", None)), Some(Ok(Value::Null)));
    assert!(get_subscription(&r, (), data(1, "a", None)).is_none());
    assert!(get_procedure(&r, (), data(9, "missing", None), ProcedureKind::Query).is_none());
}

#[test]
fn procedure_receives_context_input_and_request_context() {
    let mut r: Router<fn(u8, Value, RequestContext) -> (u8, Value, u32, ProcedureKind, String)> = Router::new();
    r.subscriptions.insert("s".to_string(), |ctx, input, req| (ctx, input, req.id, req.kind, req.path));
    let got = get_procedure(&r, 7u8, data(9, "s", Some(Value::from(true))), ProcedureKind::Subscription);
    assert_eq!(got, Some((7, Value::from(true), 9, ProcedureKind::Subscription, "s".to_string())));
    let got = get_subscription(&r, 8u8, data(11, "s", None));
    assert_eq!(got, Some((8, Value::Null, 11, ProcedureKind::Subscription, "s".to_string())));
}

#[test]
fn route_request_dispatches_by_kind() {
    let r = test_router();
    let q = Request::Query { id: 3, path: "c".into(), input: None };
    assert!(matches!(route_request(&r, (), q), Routed::Answer { id: 3, body: Ok(v) } if v == Value::from(42)));
    let m = Request::Mutation { id: 4, path: "c".into(), input: None };
    assert!(matches!(route_request(&r, (), m), Routed::NotFound { id: 4 }));
    let s = Request::Subscription { id: 5, path: "b".into(), input: None };
    assert!(matches!(route_request(&r, (), s), Routed::Answer { id: 5, body: Ok(Value::Null) }));
    let stop = Request::SubscriptionStop { id: 6 };
    assert!(matches!(route_request(&r, (), stop), Routed::Stop { id: 6 }));
}

#[test]
fn insert_replaces_and_returns_previous() {
    let mut m: ProcedureMap<u32> = ProcedureMap::new();
    assert_eq!(m.insert("x".to_string(), 1), None);
    assert_eq!(m.insert("y".to_string(), 2), None);
    assert_eq!(m.insert("x".to_string(), 3), Some(1));
    assert_eq!(m.get(&"x".to_string()), Some(&3));
    assert_eq!(m.get(&"y".to_string()), Some(&2));
    assert_eq!(m.get(&"z".to_string()), None);
}

#[test]
fn empty_router_finds_nothing() {
    let r: Router<Procedure> = Router::new();
    assert!(get_query(&r, (), data(0, "", None)).is_none());
    assert!(get_mutation(&r, (), data(0, "", None)).is_none());
    assert!(get_subscription(&r, (), data(0, "", None)).is_none());
}
