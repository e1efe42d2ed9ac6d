use kv::channel::{ChannelError, SecureChannel, MAX_MESSAGE_LEN};
use kv::handshake::{Handshake, Role};

fn channels() -> (SecureChannel, SecureChannel) {
    let mut i = Handshake::new(Role::Initiator).unwrap();
    let mut r = Handshake::new(Role::Responder).unwrap();
    let m0 = i.write_message().unwrap();
    r.read_message(&m0).unwrap();
    let m1 = r.write_message().unwrap();
    i.read_message(&m1).unwrap();
    let m2 = i.write_message().unwrap();
    r.read_message(&m2).unwrap();
    (i.into_channel().unwrap(), r.into_channel().unwrap())
}

#[test]
fn channel_messages_arrive_in_order() {
    let (mut a, mut b) = channels();
    for n in 0..5u8 {
        let f = a.send(&[n; 3]).unwrap();
        assert_eq!(f.len(), 3 + 16 + 2);
        assert_eq!(b.receive(&f[2..]).unwrap(), vec![n; 3]);
    }
    assert_eq!(a.sent(), 5);
    assert_eq!(b.received(), 5);
    assert_eq!(a.received(), 0);
}

#[test]
fn channel_frame_hides_the_message() {
    let (mut a, _b) = channels();
    let f = a.send(b"secret message").unwrap();
    assert_eq!(&f[..2], &[0u8, 30u8]);
    assert!(!f.windows(6).any(|w| w == b"secret"));
}

#[test]
fn channel_flipped_bit_is_rejected_and_closes() {
    let (mut a, mut b) = channels();
    let mut f = a.send(b"secret").unwrap();
    f[4] ^= 0x01;
    assert_eq!(b.receive(&f[2..]), Err(ChannelError::Rejected));
    assert!(b.closed());
    let good = a.send(b"next").unwrap();
    assert_eq!(b.receive(&good[2..]), Err(ChannelError::Closed));
}

#[test]
fn channel_foreign_key_is_rejected() {
    let (mut a, _b) = channels();
    let (_c, mut d) = channels();
    let f = a.send(b"for b only").unwrap();
    assert_eq!(d.receive(&f[2..]), Err(ChannelError::Rejected));
    assert!(d.closed());
}

#[test]
fn channel_replay_is_rejected() {
    let (mut a, mut b) = channels();
    let f = a.send(b"once").unwrap();
    assert_eq!(b.receive(&f[2..]).unwrap(), b"once".to_vec());
    assert_eq!(b.receive(&f[2..]), Err(ChannelError::Rejected));
    assert!(b.closed());
}

#[test]
fn channel_reordering_is_rejected() {
    let (mut a, mut b) = channels();
    let _first = a.send(b"one").unwrap();
    let second = a.send(b"two").unwrap();
    assert_eq!(b.receive(&second[2..]), Err(ChannelError::Rejected));
}

#[test]
fn channel_short_frame_is_rejected() {
    let (_a, mut b) = channels();
    assert_eq!(b.receive(&[1u8, 2, 3]), Err(ChannelError::Rejected));
    assert!(b.closed());
}

#[test]
fn channel_message_size_limit() {
    let (mut a, mut b) = channels();
    let big = vec![1u8; MAX_MESSAGE_LEN + 1];
    assert_eq!(a.send(&big), Err(ChannelError::MessageTooLarge));
    assert!(!a.closed());
    let fits = vec![2u8; MAX_MESSAGE_LEN];
    let f = a.send(&fits).unwrap();
    assert_eq!(f.len(), 65537);
    assert_eq!(b.receive(&f[2..]).unwrap(), fits);
}
