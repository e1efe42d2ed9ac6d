//! The store: one mapping from key to value that serves every connection.

use vstd::prelude::*;
use vstd::slice::slice_to_vec;
use crate::pb::{Message, Request, RequestGet, RequestPut, Response, NOT_FOUND, OK};

verus! {

#[verifier::external_type_specification]
#[verifier::external_body]
#[verifier::reject_recursive_types(K)]
#[verifier::reject_recursive_types(V)]
#[verifier::reject_recursive_types(S)]
pub struct ExDashMap<K, V, S>(dashmap::DashMap<K, V, S>);

/// What a `DashMap` of keys to values holds.
pub uninterp spec fn dash_contents(m: dashmap::DashMap<String, Vec<u8>>) -> Map<Seq<char>, Seq<u8>>;

/// Relies on `DashMap::new`: a map that holds nothing.
#[verifier::external_body]
fn dash_new() -> (r: dashmap::DashMap<String, Vec<u8>>)
    ensures
        dash_contents(r).is_empty(),
{
    dashmap::DashMap::new()
}

/// Relies on `DashMap::get`: the value that the key maps to, copied out of the
/// map's guard, or nothing where the key is absent.
#[verifier::external_body]
fn dash_get(m: &dashmap::DashMap<String, Vec<u8>>, key: &str) -> (r: Option<Vec<u8>>)
    ensures
        r matches Some(v) ==> dash_contents(*m).contains_key(key@) && dash_contents(*m)[key@] == v@,
        r is None ==> !dash_contents(*m).contains_key(key@),
{
    m.get(key).map(|e| e.value().clone())
}

/// Relies on `DashMap::insert`: the key maps to the value afterwards, replacing
/// any earlier value, and no other key changes.
#[verifier::external_body]
fn dash_insert(m: &mut dashmap::DashMap<String, Vec<u8>>, key: String, value: Vec<u8>)
    ensures
        dash_contents(*final(m)) == dash_contents(*old(m)).insert(key@, value@),
{
    m.insert(key, value);
}

/// The value that `key` holds in `m`, if any.
pub open spec fn lookup(m: Map<Seq<char>, Seq<u8>>, key: Seq<char>) -> Option<Seq<u8>> {
    if m.contains_key(key) {
        Some(m[key])
    } else {
        None
    }
}

/// `resp` is what a `Get` of `key` receives from a store holding `m`: the
/// stored value, or `NOT_FOUND` with an empty value.
pub open spec fn answers_get(resp: Response, m: Map<Seq<char>, Seq<u8>>, key: Seq<char>) -> bool {
    resp.key@ == key && match lookup(m, key) {
        Some(v) => resp.code == OK && resp.value@ == v,
        None => resp.code == NOT_FOUND && resp.value@ == Seq::<u8>::empty(),
    }
}

#[derive(Debug, Clone, Copy, PartialEq, Eq, Structural)]
pub enum ProtocolError {
    /// A request that carries neither a `Get` nor a `Put`.
    EmptyRequest,
}

/// The server's shared state: the store that every connection reads and writes.
pub struct ServerState {
    store: dashmap::DashMap<String, Vec<u8>>,
}

impl ServerState {
    /// The key-value mapping that the store holds.
    pub closed spec fn contents(&self) -> Map<Seq<char>, Seq<u8>> {
        dash_contents(self.store)
    }

    pub fn new() -> (r: ServerState)
        ensures
            r.contents() == Map::<Seq<char>, Seq<u8>>::empty(),
    {
        ServerState { store: dash_new() }
    }

    /// A copy of the value that `key` holds, not a view into the store.
    pub fn get(&self, key: &str) -> (r: Option<Vec<u8>>)
        ensures
            r matches Some(v) ==> lookup(self.contents(), key@) == Some(v@),
            r is None ==> lookup(self.contents(), key@) is None,
    {
        dash_get(&self.store, key)
    }

    /// Stores `value` under `key`; the last write of a key wins.
    pub fn put(&mut self, key: String, value: Vec<u8>)
        ensures
            final(self).contents() == old(self).contents().insert(key@, value@),
    {
        dash_insert(&mut self.store, key, value);
    }

    /// Serves one request: a `Get` answers with the stored value or with
    /// `NOT_FOUND` and an empty value; a `Put` stores the value and echoes it.
    pub fn handle_request(&mut self, req: Request) -> (r: Result<Response, ProtocolError>)
        ensures
            req.message is None ==> r == Err::<Response, ProtocolError>(ProtocolError::EmptyRequest)
                && final(self).contents() == old(self).contents(),
            req.message matches Some(Message::Get(g)) ==> final(self).contents() == old(
                self,
            ).contents() && (r matches Ok(resp) && answers_get(resp, old(self).contents(), g.key@)),
            req.message matches Some(Message::Put(p)) ==> final(self).contents() == old(
                self,
            ).contents().insert(p.key@, p.value@) && (r matches Ok(resp) && resp.code == OK
                && resp.key@ == p.key@ && resp.value@ == p.value@),
    {
        match req.message {
            Some(Message::Get(RequestGet { key })) => match self.get(key.as_str()) {
                Some(v) => Ok(Response::new(key, v)),
                None => Ok(Response::not_found(key)),
            },
            Some(Message::Put(RequestPut { key, value })) => {
                let stored = slice_to_vec(value.as_slice());
                self.put(key.clone(), stored);
                Ok(Response::new(key, value))
            },
            None => Err(ProtocolError::EmptyRequest),
        }
    }
}

impl Default for ServerState {
    fn default() -> (r: ServerState)
        ensures
            r.contents() == Map::<Seq<char>, Seq<u8>>::empty(),
    {
        ServerState::new()
    }
}

/// A `put` is seen by the next `get` of that key, whichever connection makes it.
pub proof fn lemma_put_then_get(m: Map<Seq<char>, Seq<u8>>, key: Seq<char>, value: Seq<u8>)
    ensures
        lookup(m.insert(key, value), key) == Some(value),
{
}

/// A key that was never written reads as absent.
pub proof fn lemma_unwritten_is_absent(key: Seq<char>)
    ensures
        lookup(Map::<Seq<char>, Seq<u8>>::empty(), key) is None,
{
}

/// Of two writes of one key the later one is read back whole: never a mixture
/// of the two values, and never the earlier one.
pub proof fn lemma_last_write_wins(
    m: Map<Seq<char>, Seq<u8>>,
    key: Seq<char>,
    first: Seq<u8>,
    second: Seq<u8>,
)
    ensures
        lookup(m.insert(key, first).insert(key, second), key) == Some(second),
{
}

/// A write of one key leaves every other key as it was.
pub proof fn lemma_put_keeps_other_keys(
    m: Map<Seq<char>, Seq<u8>>,
    key: Seq<char>,
    value: Seq<u8>,
    other: Seq<char>,
)
    requires
        other != key,
    ensures
        lookup(m.insert(key, value), other) == lookup(m, other),
{
}

} // verus!
