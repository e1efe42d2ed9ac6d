use kv::pb::{Message, Request, RequestGet, Response, NOT_FOUND, OK};
use kv::store::{ProtocolError, ServerState};

#[test]
fn store_put_then_get() {
    let mut s = ServerState::new();
    assert_eq!(s.get("k"), None);
    s.put("k".to_string(), b"v".to_vec());
    assert_eq!(s.get("k"), Some(b"v".to_vec()));
    assert_eq!(s.get("other"), None);
}

#[test]
fn store_last_write_wins() {
    let mut s = ServerState::default();
    s.put("k".to_string(), b"first".to_vec());
    s.put("k".to_string(), b"2".to_vec());
    assert_eq!(s.get("k"), Some(b"2".to_vec()));
}

#[test]
fn store_put_request_is_echoed() {
    let mut s = ServerState::new();
    let r = s.handle_request(Request::new_put("Hello", b" World")).unwrap();
    assert_eq!(r, Response { code: OK, key: "Hello".to_string(), value: b" World".to_vec() });
    let r = s.handle_request(Request::new_get("Hello")).unwrap();
    assert_eq!(r, Response { code: OK, key: "Hello".to_string(), value: b" World".to_vec() });
}

#[test]
fn store_get_of_missing_key_is_not_found() {
    let mut s = ServerState::new();
    let r = s.handle_request(Request::new_get("missing")).unwrap();
    assert_eq!(r.code, NOT_FOUND);
    assert_eq!(r.key, "missing");
    assert_eq!(r.value, Vec::<u8>::new());
    assert_eq!(r, Response::not_found("missing".to_string()));
}

#[test]
fn store_empty_request_is_a_protocol_error() {
    let mut s = ServerState::new();
    assert_eq!(s.handle_request(Request { message: None }), Err(ProtocolError::EmptyRequest));
}

#[test]
fn store_request_constructors() {
    assert_eq!(
        Request::new_get("a"),
        Request { message: Some(Message::Get(RequestGet { key: "a".to_string() })) }
    );
    assert_eq!(Response::new("k".to_string(), vec![1, 2]).code, OK);
}
