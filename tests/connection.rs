use kv::connection::{ConnError, Connection, Output};
use kv::frame::{FrameReader, MAX_FRAME_LEN};
use kv::handshake::{HandshakeError, Role};
use kv::pb::{Message, Request, RequestGet, RequestPut, Response, NOT_FOUND, OK};
use kv::store::ServerState;

// A stand-in for the outside wire schema: tag byte, key length, key, value.
fn encode_request(req: &Request) -> Vec<u8> {
    let (tag, key, value) = match &req.message {
        Some(Message::Get(RequestGet { key })) => (1u8, key.clone(), Vec::new()),
        Some(Message::Put(RequestPut { key, value })) => (2u8, key.clone(), value.clone()),
        None => (0u8, String::new(), Vec::new()),
    };
    let mut out = vec![tag, key.len() as u8];
    out.extend_from_slice(key.as_bytes());
    out.extend_from_slice(&value);
    out
}

fn decode_request(bytes: &[u8]) -> Request {
    let n = bytes[1] as usize;
    let key = String::from_utf8(bytes[2..2 + n].to_vec()).unwrap();
    match bytes[0] {
        1 => Request::new_get(&key),
        2 => Request::new_put(&key, &bytes[2 + n..]),
        _ => Request { message: None },
    }
}

fn encode_response(r: &Response) -> Vec<u8> {
    let mut out = vec![(r.code / 256) as u8, (r.code % 256) as u8, r.key.len() as u8];
    out.extend_from_slice(r.key.as_bytes());
    out.extend_from_slice(&r.value);
    out
}

fn decode_response(bytes: &[u8]) -> Response {
    let code = bytes[0] as u32 * 256 + bytes[1] as u32;
    let n = bytes[2] as usize;
    let key = String::from_utf8(bytes[3..3 + n].to_vec()).unwrap();
    Response { code, key, value: bytes[3 + n..].to_vec() }
}

struct Link {
    client: Connection,
    server: Connection,
    to_server: FrameReader,
    to_client: FrameReader,
}

fn pass(reader: &mut FrameReader, bytes: &[u8]) -> Vec<u8> {
    reader.feed(bytes);
    reader.read_frame().unwrap().unwrap()
}

fn sent(out: Output) -> Vec<u8> {
    match out {
        Output::Send(f) => f,
        _ => panic!("expected a frame to send"),
    }
}

fn connect() -> Link {
    let (mut client, first) = Connection::open(Role::Initiator).unwrap();
    let (mut server, none) = Connection::open(Role::Responder).unwrap();
    assert!(none.is_none());
    let mut to_server = FrameReader::new(MAX_FRAME_LEN);
    let mut to_client = FrameReader::new(MAX_FRAME_LEN);
    let m0 = pass(&mut to_server, &first.unwrap());
    let m1 = sent(server.on_frame(&m0).unwrap());
    assert!(!server.is_serving());
    let m1 = pass(&mut to_client, &m1);
    let m2 = sent(client.on_frame(&m1).unwrap());
    assert!(client.is_serving());
    let m2 = pass(&mut to_server, &m2);
    assert!(matches!(server.on_frame(&m2).unwrap(), Output::Nothing));
    assert!(server.is_serving());
    Link { client, server, to_server, to_client }
}

fn round_trip(link: &mut Link, state: &mut ServerState, req: Request) -> Response {
    let frame = link.client.send(&encode_request(&req)).unwrap();
    let payload = pass(&mut link.to_server, &frame);
    let msg = match link.server.on_frame(&payload).unwrap() {
        Output::Deliver(m) => m,
        _ => panic!("expected a message"),
    };
    let resp = state.handle_request(decode_request(&msg)).unwrap();
    let frame = link.server.send(&encode_response(&resp)).unwrap();
    let payload = pass(&mut link.to_client, &frame);
    match link.client.on_frame(&payload).unwrap() {
        Output::Deliver(m) => decode_response(&m),
        _ => panic!("expected a message"),
    }
}

#[test]
fn connection_put_is_acknowledged() {
    let mut state = ServerState::new();
    let mut link = connect();
    let resp = round_trip(&mut link, &mut state, Request::new_put("Hello", b" World"));
    assert_eq!(resp, Response { code: OK, key: "Hello".to_string(), value: b" World".to_vec() });
}

#[test]
fn connection_get_on_fresh_connection_sees_put() {
    let mut state = ServerState::new();
    let mut first = connect();
    round_trip(&mut first, &mut state, Request::new_put("Hello", b" World"));
    first.client.close();
    first.server.close();
    let mut second = connect();
    let resp = round_trip(&mut second, &mut state, Request::new_get("Hello"));
    assert_eq!(resp, Response { code: OK, key: "Hello".to_string(), value: b" World".to_vec() });
}

#[test]
fn connection_get_before_any_put_is_not_found() {
    let mut state = ServerState::new();
    let mut link = connect();
    let resp = round_trip(&mut link, &mut state, Request::new_get("missing"));
    assert_eq!(resp, Response { code: NOT_FOUND, key: "missing".to_string(), value: Vec::new() });
}

#[test]
fn connection_requests_are_answered_in_order() {
    let mut state = ServerState::new();
    let mut link = connect();
    for n in 0..4u8 {
        let key = format!("k{n}");
        let resp = round_trip(&mut link, &mut state, Request::new_put(&key, &[n]));
        assert_eq!(resp.value, vec![n]);
        let resp = round_trip(&mut link, &mut state, Request::new_get(&key));
        assert_eq!(resp.value, vec![n]);
    }
}

#[test]
fn connection_abandoned_handshake_leaves_others_alone() {
    let (_client_a, first_a) = Connection::open(Role::Initiator).unwrap();
    let (mut client_b, first_b) = Connection::open(Role::Initiator).unwrap();
    let (mut server_a, _) = Connection::open(Role::Responder).unwrap();
    let (mut server_b, _) = Connection::open(Role::Responder).unwrap();
    let _ = sent(server_a.on_frame(&first_a.unwrap()[2..]).unwrap());
    let m1 = sent(server_b.on_frame(&first_b.unwrap()[2..]).unwrap());
    // Client A disconnects mid-handshake.
    server_a.close();
    assert!(server_a.is_closed());
    let m2 = sent(client_b.on_frame(&m1[2..]).unwrap());
    assert!(matches!(server_b.on_frame(&m2[2..]).unwrap(), Output::Nothing));
    assert!(server_b.is_serving());
    let mut state = ServerState::new();
    let f = client_b.send(&encode_request(&Request::new_get("x"))).unwrap();
    match server_b.on_frame(&f[2..]).unwrap() {
        Output::Deliver(m) => {
            let resp = state.handle_request(decode_request(&m)).unwrap();
            assert_eq!(resp.code, NOT_FOUND);
        }
        _ => panic!("expected a message"),
    }
}

#[test]
fn connection_refuses_data_before_handshake() {
    let (mut client, _) = Connection::open(Role::Initiator).unwrap();
    assert_eq!(client.send(b"early").err(), Some(ConnError::NotServing));
}

#[test]
fn connection_tampered_handshake_closes() {
    let (_client, first) = Connection::open(Role::Initiator).unwrap();
    let (mut server, _) = Connection::open(Role::Responder).unwrap();
    let mut m0 = first.unwrap()[2..].to_vec();
    m0.truncate(10);
    assert_eq!(
        server.on_frame(&m0).err(),
        Some(ConnError::Handshake(HandshakeError::Rejected))
    );
    assert!(server.is_closed());
    assert_eq!(server.on_frame(&m0).err(), Some(ConnError::Closed));
}

#[test]
fn connection_tampered_data_closes() {
    let mut link = connect();
    let mut f = link.client.send(b"data").unwrap();
    f[3] ^= 0xff;
    assert!(matches!(link.server.on_frame(&f[2..]), Err(ConnError::Channel(_))));
    assert!(link.server.is_closed());
}
