//! What this library takes from the `snow` implementation of the Noise
//! protocol framework: the handshake and transport states, and the calls that
//! drive them. The protocol logic round them lives in `handshake` and `channel`.
//! snow's error value is dropped at this boundary: the library only acts on
//! whether a call succeeded.

use vstd::prelude::*;

verus! {

#[verifier::external_type_specification]
#[verifier::external_body]
pub struct ExHandshakeState(snow::HandshakeState);

#[verifier::external_type_specification]
#[verifier::external_body]
pub struct ExTransportState(snow::TransportState);

/// Relies on snow's `HandshakeState::into_transport_mode`: ends a finished
/// handshake and yields the two transport cipher states (`None` for snow's
/// error, which carries nothing that the library acts on).
#[verifier::external_body]
pub(crate) fn into_transport(hs: snow::HandshakeState) -> (r: Option<snow::TransportState>) {
    hs.into_transport_mode().ok()
}

/// Relies on snow's `Builder`: parses the pattern name, draws a fresh static
/// keypair with `generate_keypair` and builds the initiator's handshake state.
#[verifier::external_body]
pub(crate) fn build_initiator(pattern: &str) -> (r: Option<snow::HandshakeState>) {
    let params: snow::params::NoiseParams = pattern.parse().ok()?;
    let builder = snow::Builder::new(params);
    let keypair = builder.generate_keypair().ok()?;
    builder.local_private_key(&keypair.private).build_initiator().ok()
}

/// Relies on snow's `Builder`: parses the pattern name, draws a fresh static
/// keypair with `generate_keypair` and builds the responder's handshake state.
#[verifier::external_body]
pub(crate) fn build_responder(pattern: &str) -> (r: Option<snow::HandshakeState>) {
    let params: snow::params::NoiseParams = pattern.parse().ok()?;
    let builder = snow::Builder::new(params);
    let keypair = builder.generate_keypair().ok()?;
    builder.local_private_key(&keypair.private).build_responder().ok()
}

/// Relies on snow's `HandshakeState::write_message` with an empty payload: the
/// next handshake message, which never exceeds Noise's 65535-byte limit.
#[verifier::external_body]
pub(crate) fn handshake_write(hs: &mut snow::HandshakeState) -> (r: Option<Vec<u8>>)
    ensures
        r matches Some(m) ==> m@.len() <= 65535,
{
    let mut buf = vec![0u8; 65535];
    let n = hs.write_message(&[], &mut buf).ok()?;
    buf.truncate(n);
    Some(buf)
}

/// Relies on snow's `HandshakeState::read_message`: takes in the peer's next
/// handshake message, refusing one over Noise's 65535-byte limit.
#[verifier::external_body]
pub(crate) fn handshake_read(hs: &mut snow::HandshakeState, msg: &[u8]) -> (r: bool)
    ensures
        msg@.len() > 65535 ==> !r,
{
    let mut buf = vec![0u8; 65535];
    hs.read_message(msg, &mut buf).is_ok()
}

/// Relies on snow's `TransportState::write_message`: encrypts under the next
/// sending nonce; the ciphertext is the plaintext's length plus the 16-byte tag,
/// and a result over 65535 bytes is refused.
#[verifier::external_body]
pub(crate) fn transport_write(ts: &mut snow::TransportState, msg: &[u8]) -> (r: Option<Vec<u8>>)
    ensures
        msg@.len() + 16 > 65535 ==> r is None,
        r matches Some(c) ==> c@.len() == msg@.len() + 16,
{
    let mut buf = vec![0u8; 65535];
    let n = ts.write_message(msg, &mut buf).ok()?;
    buf.truncate(n);
    Some(buf)
}

/// Relies on snow's `TransportState::read_message`: authenticates and decrypts
/// under the next receiving nonce; the plaintext is the ciphertext's length less
/// the 16-byte tag, and a message under 16 or over 65535 bytes is refused.
#[verifier::external_body]
pub(crate) fn transport_read(ts: &mut snow::TransportState, c: &[u8]) -> (r: Option<Vec<u8>>)
    ensures
        c@.len() > 65535 || c@.len() < 16 ==> r is None,
        r matches Some(p) ==> p@.len() + 16 == c@.len(),
{
    let mut buf = vec![0u8; 65535];
    let n = ts.read_message(c, &mut buf).ok()?;
    buf.truncate(n);
    Some(buf)
}

} // verus!
