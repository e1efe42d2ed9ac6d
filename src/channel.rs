//! The secure channel: application messages encrypted and authenticated under
//! the keys that a completed handshake derived, one frame per message.

use vstd::prelude::*;
use crate::frame::{frame_of, write_frame, MAX_FRAME_LEN};
use crate::handshake::Role;
use crate::noise::{transport_read, transport_write};

verus! {

/// Length of the authentication tag that each encrypted message carries.
pub const TAG_LEN: usize = 16;

/// The longest application message that fits one frame once encrypted.
pub const MAX_MESSAGE_LEN: usize = 65519;

#[derive(Debug, Clone, Copy, PartialEq, Eq, Structural)]
pub enum ChannelError {
    /// An earlier failure closed the channel for good.
    Closed,
    /// The message would not fit one frame once encrypted.
    MessageTooLarge,
    /// The direction's nonce counter has no value left.
    NonceExhausted,
    /// A frame failed to authenticate or decrypt.
    Rejected,
    /// The cipher refused to encrypt.
    Encryption,
}

/// One side's view of an established channel. Each direction has its own key
/// and its own nonce counter, which only ever moves up by one per message.
pub struct SecureChannel {
    role: Role,
    transport: snow::TransportState,
    sent: u64,
    received: u64,
    closed: bool,
}

impl SecureChannel {
    pub closed spec fn role_spec(&self) -> Role {
        self.role
    }

    /// Messages sent so far: the nonce that the next send uses.
    pub closed spec fn sent_count(&self) -> nat {
        self.sent as nat
    }

    /// Messages received so far: the only nonce that the next frame may carry.
    pub closed spec fn received_count(&self) -> nat {
        self.received as nat
    }

    /// A failure has closed the channel; it handles no further frames.
    pub closed spec fn is_closed(&self) -> bool {
        self.closed
    }

    pub(crate) fn from_transport(role: Role, transport: snow::TransportState) -> (r: SecureChannel)
        ensures
            r.role_spec() == role,
            r.sent_count() == 0,
            r.received_count() == 0,
            !r.is_closed(),
    {
        SecureChannel { role, transport, sent: 0, received: 0, closed: false }
    }

    pub fn role(&self) -> (r: Role)
        ensures
            r == self.role_spec(),
    {
        self.role
    }

    pub fn closed(&self) -> (r: bool)
        ensures
            r == self.is_closed(),
    {
        self.closed
    }

    pub fn sent(&self) -> (r: u64)
        ensures
            r == self.sent_count(),
    {
        self.sent
    }

    pub fn received(&self) -> (r: u64)
        ensures
            r == self.received_count(),
    {
        self.received
    }

    /// Encrypts `msg` under the next sending nonce and returns the frame to write.
    pub fn send(&mut self, msg: &[u8]) -> (r: Result<Vec<u8>, ChannelError>)
        ensures
            final(self).role_spec() == old(self).role_spec(),
            final(self).received_count() == old(self).received_count(),
            old(self).is_closed() ==> r == Err::<Vec<u8>, ChannelError>(ChannelError::Closed)
                && final(self).is_closed(),
            !old(self).is_closed() && msg@.len() > MAX_MESSAGE_LEN ==> r == Err::<Vec<u8>, ChannelError>(
                ChannelError::MessageTooLarge,
            ) && !final(self).is_closed() && final(self).sent_count() == old(self).sent_count(),
            !old(self).is_closed() && msg@.len() <= MAX_MESSAGE_LEN && old(self).sent_count()
                == u64::MAX ==> r == Err::<Vec<u8>, ChannelError>(ChannelError::NonceExhausted)
                && final(self).is_closed(),
            r is Ok ==> !old(self).is_closed() && msg@.len() <= MAX_MESSAGE_LEN
                && !final(self).is_closed()
                && final(self).sent_count() == old(self).sent_count() + 1,
            r matches Ok(f) ==> f@.len() == msg@.len() + TAG_LEN + 2
                && f@ == frame_of(f@.subrange(2, f@.len() as int)),
            r matches Err(e) ==> e == ChannelError::Encryption ==> final(self).is_closed(),
            r is Err ==> final(self).sent_count() == old(self).sent_count(),
    {
        if self.closed {
            return Err(ChannelError::Closed);
        }
        if msg.len() > MAX_MESSAGE_LEN {
            return Err(ChannelError::MessageTooLarge);
        }
        if self.sent == u64::MAX {
            self.closed = true;
            return Err(ChannelError::NonceExhausted);
        }
        match transport_write(&mut self.transport, msg) {
            Some(c) => {
                match write_frame(c.as_slice(), MAX_FRAME_LEN) {
                    Ok(f) => {
                        self.sent = self.sent + 1;
                        assert(f@.subrange(2, f@.len() as int) =~= c@);
                        Ok(f)
                    },
                    Err(_) => {
                        self.closed = true;
                        Err(ChannelError::Encryption)
                    },
                }
            },
            None => {
                self.closed = true;
                Err(ChannelError::Encryption)
            },
        }
    }

    /// Authenticates and decrypts one frame's payload under the next receiving
    /// nonce. A frame that does not decrypt under exactly that nonce (a replay,
    /// a reordering, a tampered or foreign frame) closes the channel.
    pub fn receive(&mut self, payload: &[u8]) -> (r: Result<Vec<u8>, ChannelError>)
        ensures
            final(self).role_spec() == old(self).role_spec(),
            final(self).sent_count() == old(self).sent_count(),
            old(self).is_closed() ==> r == Err::<Vec<u8>, ChannelError>(ChannelError::Closed),
            !old(self).is_closed() && old(self).received_count() == u64::MAX ==> r == Err::<
                Vec<u8>,
                ChannelError,
            >(ChannelError::NonceExhausted),
            !old(self).is_closed() && old(self).received_count() < u64::MAX && (payload@.len()
                < TAG_LEN || payload@.len() > MAX_FRAME_LEN) ==> r == Err::<Vec<u8>, ChannelError>(
                ChannelError::Rejected,
            ),
            r is Ok ==> !old(self).is_closed() && !final(self).is_closed()
                && final(self).received_count() == old(self).received_count() + 1,
            r matches Ok(m) ==> m@.len() + TAG_LEN == payload@.len(),
            r matches Err(e) ==> final(self).is_closed()
                && final(self).received_count() == old(self).received_count()
                && (e == ChannelError::Closed || e == ChannelError::NonceExhausted
                || e == ChannelError::Rejected),
    {
        if self.closed {
            return Err(ChannelError::Closed);
        }
        if self.received == u64::MAX {
            self.closed = true;
            return Err(ChannelError::NonceExhausted);
        }
        match transport_read(&mut self.transport, payload) {
            Some(m) => {
                self.received = self.received + 1;
                Ok(m)
            },
            None => {
                self.closed = true;
                Err(ChannelError::Rejected)
            },
        }
    }
}

} // verus!
