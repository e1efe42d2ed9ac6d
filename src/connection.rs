//! The connection driver's decisions: what to do with each frame that arrives
//! on one connection, from the first handshake message to the close. Reading
//! and writing the transport is left to the caller, which hands in each frame
//! and writes out what it is given.

use vstd::prelude::*;
use crate::channel::{ChannelError, SecureChannel, MAX_MESSAGE_LEN};
use crate::frame::{frame_of, write_frame, FrameError, MAX_FRAME_LEN};
use crate::handshake::{
    after_message, in_progress, lemma_turn_passes, my_turn, processed, Handshake, HandshakeError, HandshakeStatus, Role,
};

verus! {

#[derive(Debug, Clone, Copy, PartialEq, Eq, Structural)]
pub enum ConnError {
    /// The handshake failed, or could not be set up.
    Handshake(HandshakeError),
    /// The secure channel refused a frame or a message.
    Channel(ChannelError),
    /// A frame could not be written.
    Frame(FrameError),
    /// Application data was offered before the handshake completed.
    NotServing,
    /// The connection was closed earlier.
    Closed,
}

/// What the caller is to do after a frame was taken in.
pub enum Output {
    /// Nothing: wait for the next frame.
    Nothing,
    /// Write these bytes (one whole frame) to the peer.
    Send(Vec<u8>),
    /// Hand this decrypted application message to the protocol above.
    Deliver(Vec<u8>),
}

/// One connection: handshaking, then serving, then closed for good.
pub enum Connection {
    Handshaking(Handshake),
    Serving(SecureChannel),
    Closed,
}

impl Connection {
    pub open spec fn wf(&self) -> bool {
        self matches Connection::Handshaking(h) ==> h.wf() && in_progress(h.status_spec())
    }

    /// The channel that a just-completed handshake opened.
    pub open spec fn fresh_channel(&self, role: Role) -> bool {
        self matches Connection::Serving(c) && c.role_spec() == role && c.sent_count() == 0
            && c.received_count() == 0 && !c.is_closed()
    }

    /// Serving on the channel `c` after one more message was received on it.
    pub open spec fn next_received(&self, c: SecureChannel) -> bool {
        self matches Connection::Serving(c2) && c2.role_spec() == c.role_spec() && c2.sent_count()
            == c.sent_count() && c2.received_count() == c.received_count() + 1 && !c2.is_closed()
    }

    /// Serving on the channel `c` after one more message was sent on it.
    pub open spec fn next_sent(&self, c: SecureChannel) -> bool {
        self matches Connection::Serving(c2) && c2.role_spec() == c.role_spec() && c2.sent_count()
            == c.sent_count() + 1 && c2.received_count() == c.received_count() && !c2.is_closed()
    }

    /// Sets up a connection for `role`. The initiator's first handshake frame
    /// comes back with it, to be written at once.
    pub fn open(role: Role) -> (r: Result<(Connection, Option<Vec<u8>>), ConnError>)
        ensures
            r matches Ok((c, first)) ==> c.wf() && (c matches Connection::Handshaking(h)
                && h.role_spec() == role && (first is Some <==> role == Role::Initiator)),
            r matches Err(e) ==> e is Handshake || e is Frame,
    {
        match Handshake::new(role) {
            Err(_) => Err(ConnError::Handshake(HandshakeError::Setup)),
            Ok(h) => {
                let mut c = Connection::Handshaking(h);
                match c.write_turn() {
                    Ok(first) => Ok((c, first)),
                    Err(e) => Err(e),
                }
            },
        }
    }

    /// Where the script gives this side the next message, writes it; where the
    /// handshake is then complete, opens the channel.
    fn write_turn(&mut self) -> (r: Result<Option<Vec<u8>>, ConnError>)
        requires
            old(self).wf(),
            (*old(self)) is Handshaking,
        ensures
            final(self).wf(),
            r is Err ==> (*final(self)) is Closed,
            r matches Err(e) ==> e is Handshake || e is Frame,
            r matches Ok(f) ==> match *old(self) {
                Connection::Handshaking(h) => (f is Some <==> my_turn(h.role_spec(), h.status_spec()))
                    && ((*final(self)) matches Connection::Handshaking(h2) ==> h2.role_spec()
                    == h.role_spec() && processed(h2.status_spec()) >= processed(h.status_spec()))
                    && ((*final(self)) is Serving ==> final(self).fresh_channel(h.role_spec()))
                    && !((*final(self)) is Closed)
                    && (after_message(h.status_spec()) != HandshakeStatus::Complete
                    ==> (*final(self)) is Handshaking),
                _ => false,
            },
            r matches Ok(Some(f)) ==> f@.len() >= 2 && f@ == frame_of(f@.subrange(2, f@.len() as int)),
    {
        let mut cur = Connection::Closed;
        core::mem::swap(self, &mut cur);
        let mut h = match cur {
            Connection::Handshaking(h) => h,
            _ => {
                return Err(ConnError::Closed);
            },
        };
        let mut out: Option<Vec<u8>> = None;
        if h.is_my_turn() {
            match h.write_message() {
                Ok(m) => match write_frame(m.as_slice(), MAX_FRAME_LEN) {
                    Ok(f) => {
                        assert(f@.subrange(2, f@.len() as int) =~= m@);
                        out = Some(f);
                    },
                    Err(e) => {
                        return Err(ConnError::Frame(e));
                    },
                },
                Err(e) => {
                    return Err(ConnError::Handshake(e));
                },
            }
        }
        if h.status() == HandshakeStatus::Complete {
            match h.into_channel() {
                Ok(ch) => {
                    *self = Connection::Serving(ch);
                },
                Err(e) => {
                    return Err(ConnError::Handshake(e));
                },
            }
        } else {
            *self = Connection::Handshaking(h);
        }
        Ok(out)
    }

    /// Takes in one frame's payload from the peer. While handshaking it is the
    /// peer's next handshake message; once serving it is an encrypted
    /// application message. Any failure closes the connection for good.
    pub fn on_frame(&mut self, payload: &[u8]) -> (r: Result<Output, ConnError>)
        requires
            old(self).wf(),
        ensures
            final(self).wf(),
            r is Err ==> (*final(self)) is Closed,
            (*old(self)) is Closed ==> r == Err::<Output, ConnError>(ConnError::Closed),
            r matches Ok(Output::Deliver(_)) ==> (*old(self)) is Serving && (*final(self)) is Serving,
            (*old(self)) is Handshaking ==> (r is Ok ==> !(r matches Ok(Output::Deliver(_)))),
            (*old(self)) matches Connection::Handshaking(h) ==> ((*final(self)) is Serving
                ==> final(self).fresh_channel(h.role_spec())),
            (*old(self)) matches Connection::Serving(c) ==> (r matches Ok(o) ==> (o matches Output::Deliver(m)
                && m@.len() + 16 == payload@.len() && final(self).next_received(c))),
            (*old(self)) matches Connection::Handshaking(h) ==> (my_turn(h.role_spec(), h.status_spec())
                ==> r == Err::<Output, ConnError>(ConnError::Handshake(HandshakeError::OutOfTurn))),
            (*old(self)) matches Connection::Handshaking(h) ==> (!my_turn(h.role_spec(), h.status_spec())
                && payload@.len() > 65535 ==> r == Err::<Output, ConnError>(
                ConnError::Handshake(HandshakeError::Rejected),
            )),
            (*old(self)) matches Connection::Handshaking(h) ==> (!my_turn(h.role_spec(), h.status_spec())
                && r is Ok ==> (after_message(h.status_spec()) == HandshakeStatus::Complete ==> (r matches Ok(
                Output::Nothing,
            ) && final(self).fresh_channel(h.role_spec()))) && (after_message(h.status_spec())
                != HandshakeStatus::Complete ==> (r matches Ok(Output::Send(f)) && f@.len() >= 2 && f@
                == frame_of(f@.subrange(2, f@.len() as int))))),
            (*old(self)) matches Connection::Serving(c) ==> (c.is_closed() ==> r == Err::<
                Output,
                ConnError,
            >(ConnError::Channel(ChannelError::Closed))),
            (*old(self)) matches Connection::Serving(c) ==> (!c.is_closed() && c.received_count()
                == u64::MAX ==> r == Err::<Output, ConnError>(
                ConnError::Channel(ChannelError::NonceExhausted),
            )),
            (*old(self)) matches Connection::Serving(c) ==> (!c.is_closed() && c.received_count()
                < u64::MAX && (payload@.len() < 16 || payload@.len() > 65535) ==> r == Err::<
                Output,
                ConnError,
            >(ConnError::Channel(ChannelError::Rejected))),
    {
        let mut cur = Connection::Closed;
        core::mem::swap(self, &mut cur);
        let ghost before = cur;
        match cur {
            Connection::Closed => Err(ConnError::Closed),
            Connection::Serving(mut ch) => match ch.receive(payload) {
                Ok(m) => {
                    *self = Connection::Serving(ch);
                    Ok(Output::Deliver(m))
                },
                Err(e) => Err(ConnError::Channel(e)),
            },
            Connection::Handshaking(mut h) => match h.read_message(payload) {
                Err(e) => Err(ConnError::Handshake(e)),
                Ok(()) => {
                    proof {
                        if let Connection::Handshaking(h0) = before {
                            if after_message(h0.status_spec()) != HandshakeStatus::Complete {
                                lemma_turn_passes(h0.role_spec(), h0.status_spec());
                            }
                        }
                    }
                    if h.status() == HandshakeStatus::Complete {
                        match h.into_channel() {
                            Ok(ch) => {
                                *self = Connection::Serving(ch);
                                Ok(Output::Nothing)
                            },
                            Err(e) => Err(ConnError::Handshake(e)),
                        }
                    } else {
                        *self = Connection::Handshaking(h);
                        match self.write_turn() {
                            Ok(Some(f)) => Ok(Output::Send(f)),
                            Ok(None) => Ok(Output::Nothing),
                            Err(e) => Err(e),
                        }
                    }
                },
            },
        }
    }

    /// Encrypts an application message for the peer and returns the frame to
    /// write. Refused before the handshake completes.
    pub fn send(&mut self, msg: &[u8]) -> (r: Result<Vec<u8>, ConnError>)
        requires
            old(self).wf(),
        ensures
            final(self).wf(),
            (*old(self)) is Handshaking ==> r == Err::<Vec<u8>, ConnError>(ConnError::NotServing)
                && *final(self) == *old(self),
            (*old(self)) is Closed ==> r == Err::<Vec<u8>, ConnError>(ConnError::Closed),
            r is Ok ==> (*old(self)) is Serving && (*final(self)) is Serving,
            r matches Ok(f) ==> f@.len() == msg@.len() + 18 && f@ == frame_of(
                f@.subrange(2, f@.len() as int),
            ),
            (*old(self)) matches Connection::Serving(c) ==> (c.is_closed() ==> r == Err::<
                Vec<u8>,
                ConnError,
            >(ConnError::Channel(ChannelError::Closed))),
            (*old(self)) matches Connection::Serving(c) ==> (!c.is_closed() && msg@.len()
                > MAX_MESSAGE_LEN ==> r == Err::<Vec<u8>, ConnError>(
                ConnError::Channel(ChannelError::MessageTooLarge),
            )),
            (*old(self)) matches Connection::Serving(c) ==> (!c.is_closed() && msg@.len()
                <= MAX_MESSAGE_LEN && c.sent_count() == u64::MAX ==> r == Err::<Vec<u8>, ConnError>(
                ConnError::Channel(ChannelError::NonceExhausted),
            )),
            (*old(self)) matches Connection::Serving(c) ==> (r is Ok ==> final(self).next_sent(c)),
    {
        match self {
            Connection::Handshaking(_) => Err(ConnError::NotServing),
            Connection::Closed => Err(ConnError::Closed),
            Connection::Serving(ch) => match ch.send(msg) {
                Ok(f) => Ok(f),
                Err(e) => {
                    *self = Connection::Closed;
                    Err(ConnError::Channel(e))
                },
            },
        }
    }

    /// Closes the connection, for a protocol error above the channel or the
    /// transport's end.
    pub fn close(&mut self)
        ensures
            (*final(self)) is Closed,
    {
        *self = Connection::Closed;
    }

    pub fn is_serving(&self) -> (r: bool)
        ensures
            r == (*self) is Serving,
    {
        match self {
            Connection::Serving(_) => true,
            _ => false,
        }
    }

    pub fn is_closed(&self) -> (r: bool)
        ensures
            r == (*self) is Closed,
    {
        match self {
            Connection::Closed => true,
            _ => false,
        }
    }
}

} // verus!
