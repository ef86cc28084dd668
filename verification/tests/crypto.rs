use sodiumoxide::crypto::secretbox;
use transport_upgrade::net::{IpAddr, SocketAddr};
use transport_upgrade::tcp::{Encrypt, FramedStream, Key, ReadError, MAC_BYTES};

fn gen_key() -> Key {
    Key(secretbox::gen_key().0)
}

fn addr() -> SocketAddr {
    SocketAddr::new(IpAddr::V4([127, 0, 0, 1]), 23333)
}

fn mk_pair(key: Option<Key>) -> (FramedStream, FramedStream) {
    let mut a = FramedStream::from(1, addr());
    let mut b = FramedStream::from(2, addr());
    if let Some(k) = key {
        a.set_key(k.clone());
        b.set_key(k);
    }
    (a, b)
}

/// Two states that begin to count anew seal alike; one that goes on counting does
/// not.
#[test]
fn resetting_counters_reuses_nonces() {
    let key = gen_key();

    let mut a = Encrypt::new(key.clone());
    let c1 = a.enc(b"same-plaintext");

    let mut b = Encrypt::new(key.clone());
    let c2 = b.enc(b"same-plaintext");
    assert_eq!(c1, c2);

    let mut c = Encrypt(key.clone(), a.1, a.2);
    let c3 = c.enc(b"same-plaintext");
    assert_ne!(c1, c3);
}

/// The counts go over to the new stream, and what it seals can be opened.
#[test]
fn swap_inherits_counters_and_keeps_working() {
    let key = gen_key();
    let (mut old_a, mut old_b) = mk_pair(Some(key));
    for i in 0..3u8 {
        let w = old_a.send_raw(vec![i]);
        let got = old_b.next(Some(Ok(w.frame))).unwrap().unwrap();
        assert_eq!(got[0], i);
    }
    assert_eq!(old_a.crypto_seq(), Some((3, 0)));
    assert_eq!(old_b.crypto_seq(), Some((0, 3)));

    let (mut new_a, mut new_b) = mk_pair(None);
    new_a.adopt_crypto_from(&old_a);
    new_b.adopt_crypto_from(&old_b);
    assert_eq!(new_a.crypto_seq(), Some((3, 0)));
    assert_eq!(new_b.crypto_seq(), Some((0, 3)));

    let w = new_a.send_raw(b"after-swap".to_vec());
    let got = new_b.next(Some(Ok(w.frame))).unwrap().unwrap();
    assert_eq!(&got[..], b"after-swap");
    assert_eq!(new_a.crypto_seq(), Some((4, 0)));
    assert_eq!(new_b.crypto_seq(), Some((0, 4)));
}

/// A state that was taken is gone from the old stream and works on the new one.
#[test]
fn take_then_adopt_moves_state_atomically() {
    let key = gen_key();
    let (mut old_a, mut old_b) = mk_pair(Some(key));
    let w = old_a.send_raw(b"m1".to_vec());
    old_b.next(Some(Ok(w.frame))).unwrap().unwrap();

    let (mut new_a, mut new_b) = mk_pair(None);
    let taken = old_a.take_crypto().expect("a state");
    assert!(old_a.crypto_seq().is_none());
    assert_eq!((taken.1, taken.2), (1, 0));
    new_a.2 = Some(taken);
    new_b.adopt_crypto_from(&old_b);

    let w = new_a.send_raw(b"m2".to_vec());
    let got = new_b.next(Some(Ok(w.frame))).unwrap().unwrap();
    assert_eq!(&got[..], b"m2");
    assert_eq!(new_a.crypto_seq(), Some((2, 0)));
    assert_eq!(new_b.crypto_seq(), Some((0, 2)));
}

/// The frame is what secretbox makes of the message under the counted nonce.
#[test]
fn frames_are_secretbox_under_the_counted_nonce() {
    let key = Key([9u8; 32]);
    let mut e = Encrypt(key.clone(), 0x0102, 0);
    let frame = e.enc(b"payload");
    let mut nonce = [0u8; 24];
    nonce[0] = 0x03;
    nonce[1] = 0x01;
    let expected =
        secretbox::seal(b"payload", &secretbox::Nonce(nonce), &secretbox::Key(key.0));
    assert_eq!(frame, expected);
    assert_eq!(frame.len(), 7 + MAC_BYTES);
    assert_eq!((e.1, e.2), (0x0103, 0));
}

#[test]
fn forged_frames_are_refused_and_counted() {
    let mut sender = Encrypt::new(Key([1u8; 32]));
    let mut receiver = Encrypt::new(Key([1u8; 32]));
    let mut frame = sender.enc(b"hello");
    frame[20] ^= 1;
    assert_eq!(receiver.dec(frame), Err(ReadError::Decryption));
    assert_eq!(receiver.2, 1);
    assert_eq!(receiver.dec(vec![1, 2, 3]), Err(ReadError::Decryption));
    assert_eq!(receiver.2, 2);
    assert_eq!(ReadError::Decryption.message(), "decryption error");
    assert_eq!(ReadError::Io("gone".to_owned()).message(), "gone");
}

#[test]
fn frames_out_of_step_are_refused() {
    let mut sender = Encrypt::new(Key([1u8; 32]));
    let mut receiver = Encrypt::new(Key([1u8; 32]));
    sender.enc(b"lost");
    let second = sender.enc(b"second");
    assert_eq!(receiver.dec(second), Err(ReadError::Decryption));
}

#[test]
fn tiny_frames_are_not_opened() {
    let mut receiver = Encrypt::new(Key([1u8; 32]));
    assert_eq!(receiver.dec(vec![7]), Ok(vec![7]));
    assert_eq!(receiver.dec(vec![]), Ok(vec![]));
    assert_eq!(receiver.2, 0);
}

#[test]
fn frames_go_out_as_they_are_where_asked() {
    let (mut a, _) = mk_pair(Some(Key([3u8; 32])));
    a.set_send_timeout(250);
    let w = a.send_bytes(b"ready".to_vec());
    assert_eq!((w.link.id, w.link.raw), (1, false));
    assert_eq!(w.frame, b"ready".to_vec());
    assert_eq!(w.timeout_ms, 250);
    assert_eq!(a.crypto_seq(), Some((0, 0)));
}

#[test]
fn raw_mode_ends_framing_and_encryption() {
    let (mut a, _) = mk_pair(Some(Key([3u8; 32])));
    assert!(a.is_secured());
    a.set_raw();
    assert!(!a.is_secured());
    let w = a.send_raw(b"plain".to_vec());
    assert!(w.link.raw);
    assert_eq!(w.frame, b"plain".to_vec());
    assert_eq!(a.local_addr(), addr());
}

#[test]
fn reads_pass_through_without_encryption() {
    let (mut a, _) = mk_pair(None);
    assert_eq!(a.next(None), None);
    assert_eq!(a.next(Some(Ok(vec![1, 2, 3]))), Some(Ok(vec![1, 2, 3])));
    let e = ReadError::Io("reset".to_owned());
    assert_eq!(a.next(Some(Err(e.clone()))), Some(Err(e)));
}
