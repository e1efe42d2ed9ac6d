//! The handshake engine: drives the fixed three-message Noise XX exchange and,
//! once it is complete, hands over a secure channel.

use vstd::prelude::*;
use crate::channel::SecureChannel;
use crate::noise::{build_initiator, build_responder, handshake_read, handshake_write, into_transport};

verus! {

/// The handshake pattern both peers run: XX over Curve25519, ChaChaPoly and BLAKE2s.
pub const NOISE_PARAMS: &'static str = "Noise_XX_25519_ChaChaPoly_BLAKE2s";

/// Number of messages in the handshake script.
pub const HANDSHAKE_MESSAGES: u8 = 3;

#[derive(Debug, Clone, Copy, PartialEq, Eq, Structural)]
pub enum Role {
    /// Sends the first handshake message (the client).
    Initiator,
    /// Receives the first handshake message (the server).
    Responder,
}

#[derive(Debug, Clone, Copy, PartialEq, Eq, Structural)]
pub enum HandshakeStatus {
    /// No message has been sent or received yet.
    Uninitialized,
    /// The exchange is under way and this many messages have gone through.
    AwaitingPeerMessage(u8),
    /// All messages went through; the keys are agreed.
    Complete,
    /// A message failed; the connection must be closed.
    Failed,
}

#[derive(Debug, Clone, Copy, PartialEq, Eq, Structural)]
pub enum HandshakeError {
    /// The handshake state could not be set up.
    Setup,
    /// The handshake is already complete or failed.
    NotInProgress,
    /// The script does not give this side that message now.
    OutOfTurn,
    /// The peer's message failed to authenticate or decrypt.
    Rejected,
    /// This side's message could not be produced.
    Production,
    /// The handshake has not reached `Complete`.
    Incomplete,
    /// The completed handshake could not be turned into transport keys.
    Split,
}

/// The side that sends message `k` of the script: the initiator the even ones.
pub open spec fn writer_of(k: nat) -> Role {
    if k % 2 == 0 {
        Role::Initiator
    } else {
        Role::Responder
    }
}

/// The status is one that the engine can be in.
pub open spec fn status_wf(s: HandshakeStatus) -> bool {
    s matches HandshakeStatus::AwaitingPeerMessage(n) ==> 1 <= n < HANDSHAKE_MESSAGES
}

/// The exchange is under way: more messages are due.
pub open spec fn in_progress(s: HandshakeStatus) -> bool {
    s is Uninitialized || s is AwaitingPeerMessage
}

/// How many messages have gone through.
pub open spec fn processed(s: HandshakeStatus) -> nat {
    match s {
        HandshakeStatus::Uninitialized => 0,
        HandshakeStatus::AwaitingPeerMessage(n) => n as nat,
        HandshakeStatus::Complete => HANDSHAKE_MESSAGES as nat,
        HandshakeStatus::Failed => 0,
    }
}

/// The script gives `role` the next message to send.
pub open spec fn my_turn(role: Role, s: HandshakeStatus) -> bool {
    in_progress(s) && writer_of(processed(s)) == role
}

/// The status once one more message has gone through.
pub open spec fn after_message(s: HandshakeStatus) -> HandshakeStatus {
    if processed(s) + 1 >= HANDSHAKE_MESSAGES {
        HandshakeStatus::Complete
    } else {
        HandshakeStatus::AwaitingPeerMessage((processed(s) + 1) as u8)
    }
}

/// The status of either peer once the first `k` messages of the script went
/// through.
pub open spec fn status_after(k: nat) -> HandshakeStatus
    decreases k,
{
    if k == 0 {
        HandshakeStatus::Uninitialized
    } else {
        after_message(status_after((k - 1) as nat))
    }
}

/// Two peers that run the script with matching roles move in lock step: before
/// each message of the script exactly one of them is to send it and the other
/// to read it, and once the last one went through both are `Complete`.
pub proof fn lemma_script_lockstep(k: nat)
    requires
        k < HANDSHAKE_MESSAGES,
    ensures
        status_wf(status_after(k)),
        in_progress(status_after(k)),
        my_turn(Role::Initiator, status_after(k)) != my_turn(Role::Responder, status_after(k)),
        processed(status_after(k)) == k,
        status_after(HANDSHAKE_MESSAGES as nat) == HandshakeStatus::Complete,
{
    reveal_with_fuel(status_after, 4);
}

/// Once the peer's message went through, the next one is this side's, unless
/// that message ended the script.
pub proof fn lemma_turn_passes(role: Role, s: HandshakeStatus)
    requires
        status_wf(s),
        in_progress(s),
        !my_turn(role, s),
        after_message(s) != HandshakeStatus::Complete,
    ensures
        my_turn(role, after_message(s)),
        status_wf(after_message(s)),
{
}

/// Whether the exchange is under way.
pub fn is_in_progress(status: HandshakeStatus) -> (r: bool)
    ensures
        r == in_progress(status),
{
    match status {
        HandshakeStatus::Uninitialized => true,
        HandshakeStatus::AwaitingPeerMessage(_) => true,
        _ => false,
    }
}

/// Whether the script gives `role` the next message to send.
pub fn is_my_turn(role: Role, status: HandshakeStatus) -> (r: bool)
    requires
        status_wf(status),
    ensures
        r == my_turn(role, status),
{
    match status {
        HandshakeStatus::Uninitialized => role == Role::Initiator,
        HandshakeStatus::AwaitingPeerMessage(n) => {
            if n % 2 == 0 {
                role == Role::Initiator
            } else {
                role == Role::Responder
            }
        },
        _ => false,
    }
}

/// The status after one message of an exchange under way was processed: the
/// next step when it went through (`ok`), `Failed` when it did not.
pub fn advance(status: HandshakeStatus, ok: bool) -> (r: HandshakeStatus)
    requires
        status_wf(status),
        in_progress(status),
    ensures
        ok ==> r == after_message(status),
        !ok ==> r == HandshakeStatus::Failed,
        status_wf(r),
{
    if !ok {
        return HandshakeStatus::Failed;
    }
    let done: u8 = match status {
        HandshakeStatus::AwaitingPeerMessage(n) => n,
        _ => 0,
    };
    if done + 1 >= HANDSHAKE_MESSAGES {
        HandshakeStatus::Complete
    } else {
        HandshakeStatus::AwaitingPeerMessage(done + 1)
    }
}

/// One side of a handshake. Its status only moves forward along the script,
/// and any failure is terminal.
pub struct Handshake {
    role: Role,
    status: HandshakeStatus,
    state: snow::HandshakeState,
}

impl Handshake {
    pub closed spec fn role_spec(&self) -> Role {
        self.role
    }

    pub closed spec fn status_spec(&self) -> HandshakeStatus {
        self.status
    }

    pub open spec fn wf(&self) -> bool {
        status_wf(self.status_spec())
    }

    /// Sets up a fresh handshake for `role`, with a newly drawn static key.
    pub fn new(role: Role) -> (r: Result<Handshake, HandshakeError>)
        ensures
            r matches Ok(h) ==> h.role_spec() == role && h.status_spec()
                == HandshakeStatus::Uninitialized && h.wf(),
            r matches Err(e) ==> e == HandshakeError::Setup,
    {
        let built = match role {
            Role::Initiator => build_initiator(NOISE_PARAMS),
            Role::Responder => build_responder(NOISE_PARAMS),
        };
        match built {
            Some(state) => Ok(Handshake { role, status: HandshakeStatus::Uninitialized, state }),
            None => Err(HandshakeError::Setup),
        }
    }

    pub fn role(&self) -> (r: Role)
        ensures
            r == self.role_spec(),
    {
        self.role
    }

    pub fn status(&self) -> (r: HandshakeStatus)
        ensures
            r == self.status_spec(),
    {
        self.status
    }

    /// Whether this side sends the next message.
    pub fn is_my_turn(&self) -> (r: bool)
        requires
            self.wf(),
        ensures
            r == my_turn(self.role_spec(), self.status_spec()),
    {
        is_my_turn(self.role, self.status)
    }

    /// Produces this side's next handshake message, to be sent as one frame.
    pub fn write_message(&mut self) -> (r: Result<Vec<u8>, HandshakeError>)
        requires
            old(self).wf(),
        ensures
            final(self).wf(),
            final(self).role_spec() == old(self).role_spec(),
            !in_progress(old(self).status_spec()) ==> r == Err::<Vec<u8>, HandshakeError>(
                HandshakeError::NotInProgress,
            ) && final(self).status_spec() == old(self).status_spec(),
            in_progress(old(self).status_spec()) && !my_turn(
                old(self).role_spec(),
                old(self).status_spec(),
            ) ==> r == Err::<Vec<u8>, HandshakeError>(HandshakeError::OutOfTurn)
                && final(self).status_spec() == old(self).status_spec(),
            my_turn(old(self).role_spec(), old(self).status_spec()) ==> (r is Ok
                ==> final(self).status_spec() == after_message(old(self).status_spec())) && (r is Err
                ==> r == Err::<Vec<u8>, HandshakeError>(HandshakeError::Production)
                && final(self).status_spec() == HandshakeStatus::Failed),
            r matches Ok(m) ==> m@.len() <= 65535,
    {
        if !is_in_progress(self.status) {
            return Err(HandshakeError::NotInProgress);
        }
        if !is_my_turn(self.role, self.status) {
            return Err(HandshakeError::OutOfTurn);
        }
        let written = handshake_write(&mut self.state);
        let ok = written.is_some();
        self.status = advance(self.status, ok);
        match written {
            Some(m) => Ok(m),
            None => Err(HandshakeError::Production),
        }
    }

    /// Takes in the peer's next handshake message. A message that the script
    /// does not expect now, or that fails to authenticate, fails the handshake.
    pub fn read_message(&mut self, msg: &[u8]) -> (r: Result<(), HandshakeError>)
        requires
            old(self).wf(),
        ensures
            final(self).wf(),
            final(self).role_spec() == old(self).role_spec(),
            !in_progress(old(self).status_spec()) ==> r == Err::<(), HandshakeError>(
                HandshakeError::NotInProgress,
            ) && final(self).status_spec() == old(self).status_spec(),
            my_turn(old(self).role_spec(), old(self).status_spec()) ==> r == Err::<
                (),
                HandshakeError,
            >(HandshakeError::OutOfTurn) && final(self).status_spec() == HandshakeStatus::Failed,
            in_progress(old(self).status_spec()) && !my_turn(
                old(self).role_spec(),
                old(self).status_spec(),
            ) ==> (r is Ok ==> final(self).status_spec() == after_message(old(self).status_spec()))
                && (r is Err ==> r == Err::<(), HandshakeError>(HandshakeError::Rejected)
                && final(self).status_spec() == HandshakeStatus::Failed),
            msg@.len() > 65535 && in_progress(old(self).status_spec()) ==> r is Err,
    {
        if !is_in_progress(self.status) {
            return Err(HandshakeError::NotInProgress);
        }
        if is_my_turn(self.role, self.status) {
            self.status = HandshakeStatus::Failed;
            return Err(HandshakeError::OutOfTurn);
        }
        let ok = handshake_read(&mut self.state, msg);
        self.status = advance(self.status, ok);
        if ok {
            Ok(())
        } else {
            Err(HandshakeError::Rejected)
        }
    }

    /// Ends a complete handshake and opens the secure channel with the keys it
    /// derived, both nonce counters at zero.
    pub fn into_channel(self) -> (r: Result<SecureChannel, HandshakeError>)
        ensures
            self.status_spec() != HandshakeStatus::Complete ==> r == Err::<
                SecureChannel,
                HandshakeError,
            >(HandshakeError::Incomplete),
            r matches Ok(c) ==> self.status_spec() == HandshakeStatus::Complete && c.role_spec()
                == self.role_spec() && c.sent_count() == 0 && c.received_count() == 0
                && !c.is_closed(),
            r matches Err(e) ==> e == HandshakeError::Incomplete || e == HandshakeError::Split,
    {
        if self.status != HandshakeStatus::Complete {
            return Err(HandshakeError::Incomplete);
        }
        let Handshake { role, status: _, state } = self;
        match into_transport(state) {
            Some(transport) => Ok(SecureChannel::from_transport(role, transport)),
            None => Err(HandshakeError::Split),
        }
    }
}

} // verus!
