use rspc::window_manager::{decode_payload, PageLoadAction, PayloadError, PayloadRequests, WindowManager};
use serde_json::Value;

fn j(text: &str) -> Value {
    serde_json::from_str(text).unwrap()
}

#[test]
fn page_loads_register_and_reload() {
    let mut m: WindowManager<Vec<u32>> = WindowManager::new();
    assert_eq!(m.on_page_load(11, vec![]), PageLoadAction::StartListening);
    assert_eq!(m.subscriptions(11), Some(&vec![]));
    // A second page load keeps the first subscriptions.
    assert_eq!(m.on_page_load(11, vec![1, 2]), PageLoadAction::ShutdownSubscriptions);
    assert_eq!(m.subscriptions(11), Some(&vec![]));
    assert_eq!(m.on_page_load(12, vec![3]), PageLoadAction::StartListening);
    assert_eq!(m.close_requested(11), Some(vec![]));
    assert_eq!(m.subscriptions(11), None);
    assert_eq!(m.close_requested(11), None);
    assert_eq!(m.subscriptions(12), Some(&vec![3]));
    // A window that closed starts afresh.
    assert_eq!(m.on_page_load(11, vec![4]), PageLoadAction::StartListening);
    assert_eq!(m.subscriptions(11), Some(&vec![4]));
}

#[test]
fn payload_single_request() {
    let got = decode_payload(Some(r#"{"id":1,"method":"query"}"#)).unwrap();
    assert_eq!(got, PayloadRequests::Single(j(r#"{"id":1,"method":"query"}"#)));
}

#[test]
fn payload_batch() {
    let got = decode_payload(Some(r#"[{"id":1},{"id":2}]"#)).unwrap();
    assert_eq!(got, PayloadRequests::Batch(j(r#"[{"id":1},{"id":2}]"#)));
    assert_eq!(decode_payload(Some("[]")).unwrap(), PayloadRequests::Batch(j("[]")));
}

#[test]
fn payload_wrapped_in_a_string_is_unwrapped_once() {
    let got = decode_payload(Some(r#""{\"id\":3}""#)).unwrap();
    assert_eq!(got, PayloadRequests::Single(j(r#"{"id":3}"#)));
    let got = decode_payload(Some(r#""[1,2]""#)).unwrap();
    assert_eq!(got, PayloadRequests::Batch(j("[1,2]")));
    // Only one level is unwrapped: what a string inside a string carries is still a
    // string, which no request deserializes from.
    let got = decode_payload(Some(r#""\"x\"""#)).unwrap();
    assert_eq!(got, PayloadRequests::Single(Value::from("x")));
}

#[test]
fn payload_errors() {
    assert!(matches!(decode_payload(None), Err(PayloadError::EmptyPayload)));
    assert!(matches!(decode_payload(Some("{")), Err(PayloadError::InvalidRequest(_))));
    assert!(matches!(decode_payload(Some(r#""{""#)), Err(PayloadError::InvalidRequest(_))));
    assert!(matches!(decode_payload(Some("")), Err(PayloadError::InvalidRequest(_))));
}
