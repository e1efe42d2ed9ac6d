//! The key-value protocol's messages. Their wire encoding is a fixed outside
//! schema; here they are plain values.

use vstd::prelude::*;
use vstd::slice::slice_to_vec;

verus! {

/// Response code of a request that was served.
pub const OK: u32 = 200;

/// Response code of a `Get` whose key holds no value.
pub const NOT_FOUND: u32 = 404;

#[derive(Debug, Clone, PartialEq, Eq)]
pub struct RequestGet {
    pub key: String,
}

#[derive(Debug, Clone, PartialEq, Eq)]
pub struct RequestPut {
    pub key: String,
    pub value: Vec<u8>,
}

#[derive(Debug, Clone, PartialEq, Eq)]
pub enum Message {
    Get(RequestGet),
    Put(RequestPut),
}

#[derive(Debug, Clone, PartialEq, Eq)]
pub struct Request {
    pub message: Option<Message>,
}

#[derive(Debug, Clone, PartialEq, Eq)]
pub struct Response {
    pub code: u32,
    pub key: String,
    pub value: Vec<u8>,
}

impl Request {
    pub fn new_get(key: &str) -> (r: Request)
        ensures
            r.message matches Some(Message::Get(g)) && g.key@ == key@,
    {
        Request { message: Some(Message::Get(RequestGet { key: key.to_owned() })) }
    }

    pub fn new_put(key: &str, value: &[u8]) -> (r: Request)
        ensures
            r.message matches Some(Message::Put(p)) && p.key@ == key@ && p.value@ == value@,
    {
        Request {
            message: Some(Message::Put(RequestPut { key: key.to_owned(), value: slice_to_vec(value) })),
        }
    }
}

impl Response {
    /// A served request's response, carrying the key and its value.
    pub fn new(key: String, value: Vec<u8>) -> (r: Response)
        ensures
            r.code == OK,
            r.key@ == key@,
            r.value@ == value@,
    {
        Response { code: OK, key, value }
    }

    /// The response to a `Get` of a key that holds no value.
    pub fn not_found(key: String) -> (r: Response)
        ensures
            r.code == NOT_FOUND,
            r.key@ == key@,
            r.value@ == Seq::<u8>::empty(),
    {
        Response { code: NOT_FOUND, key, value: Vec::new() }
    }
}

} // verus!
