use transport_upgrade::handover::carry_out;
use transport_upgrade::iroh_transition::{Phase, TransitionStream};
use transport_upgrade::iroh_upgrade_session::Order;
use transport_upgrade::message_proto::{IrohUpgradeCommit, Message};
use transport_upgrade::net::{IpAddr, SocketAddr};
use transport_upgrade::stream::{Sent, Stream, StreamError};
use transport_upgrade::tcp::{Encrypt, FramedStream, Key, ReadError, Write};
use transport_upgrade::webrtc::WebRTCStream;
use transport_upgrade::websocket::WsFramedStream;

const OLD: u64 = 1;
const NEW: u64 = 2;

fn addr() -> SocketAddr {
    SocketAddr::new(IpAddr::V4([127, 0, 0, 1]), 23333)
}

fn mk_stream() -> Stream {
    Stream::from(OLD, addr())
}

fn mk_framed() -> FramedStream {
    FramedStream::from(NEW, addr())
}

fn written(sent: Result<Sent, StreamError>) -> Write {
    match sent {
        Ok(Sent::Write(w)) => w,
        other => panic!("expected a write, got {:?}", other),
    }
}

fn flush_new(t: &mut TransitionStream) -> Vec<Write> {
    let mut writes = Vec::new();
    while let Some(w) = t.flush_to_new() {
        writes.push(w);
    }
    writes
}

fn flush_old(t: &mut TransitionStream) -> Vec<Write> {
    let mut writes = Vec::new();
    while let Some(sent) = t.flush_to_old().unwrap() {
        writes.push(written(Ok(sent)));
    }
    writes
}

#[test]
fn switch_moves_crypto_state_from_old_to_new() {
    let mut old_a = mk_stream();
    if let Stream::Tcp(f) = &mut old_a {
        f.2 = Some(Encrypt(Key([7u8; 32]), 41, 42));
    }
    assert!(old_a.is_secured());

    let mut t = TransitionStream::new(old_a, mk_framed());
    assert!(t.new_crypto_seq().is_none());

    t.on_commit_sent();
    t.on_commit_ack_received();

    assert_eq!(t.phase(), Phase::UsingNew);
    assert_eq!(t.new_crypto_seq(), Some((41, 42)));
    assert!(t.is_secured());

    t.on_commit_ack_received();
    assert_eq!(t.new_crypto_seq(), Some((41, 42)));

    // The old channel gave its state away.
    t.abort();
    assert!(!t.is_secured());
}

#[test]
fn before_commit_everything_uses_old() {
    let mut t = TransitionStream::new(mk_stream(), mk_framed());
    assert_eq!(t.phase(), Phase::UsingOld);

    let w = written(t.send_bytes(b"hello".to_vec()));
    assert_eq!(w.link.id, OLD);
    assert_eq!(w.frame, b"hello".to_vec());

    assert_eq!(t.reads_from().unwrap().id, OLD);
    assert_eq!(t.next(Some(Ok(b"world".to_vec()))), Some(Ok(b"world".to_vec())));
    assert_eq!(t.buffered_len(), 0);
}

#[test]
fn commit_window_buffers_writes_but_drains_old() {
    let mut t = TransitionStream::new(mk_stream(), mk_framed());

    t.on_commit_sent();
    assert_eq!(t.phase(), Phase::CommitWindow);

    assert_eq!(t.send_bytes(b"pending-1".to_vec()), Ok(Sent::Buffered));
    assert_eq!(t.send_bytes(b"pending-2".to_vec()), Ok(Sent::Buffered));
    assert_eq!(t.buffered_len(), 2);
    assert!(t.buffered_bytes() > 0);
    assert_eq!(t.buffered_bytes(), 18);

    // Nothing flushes in the window.
    assert_eq!(t.flush_to_old(), Ok(None));
    assert_eq!(t.flush_to_new(), None);

    assert_eq!(t.reads_from().unwrap().id, OLD);
    assert_eq!(t.next(Some(Ok(b"in-flight".to_vec()))), Some(Ok(b"in-flight".to_vec())));

    t.on_commit_ack_received();
    assert_eq!(t.phase(), Phase::UsingNew);
    let writes = flush_new(&mut t);
    assert_eq!(t.buffered_len(), 0);
    assert_eq!(t.buffered_bytes(), 0);
    assert_eq!(writes.len(), 2);
    assert_eq!(writes[0].link.id, NEW);
    assert_eq!(writes[0].frame, b"pending-1".to_vec());
    assert_eq!(writes[1].link.id, NEW);
    assert_eq!(writes[1].frame, b"pending-2".to_vec());
}

#[test]
fn responder_switches_right_after_ack() {
    let mut t = TransitionStream::new(mk_stream(), mk_framed());

    let last = written(t.send_bytes(b"last-old".to_vec()));
    t.on_commit_ack_sent();
    assert_eq!(t.phase(), Phase::UsingNew);

    let first = written(t.send_bytes(b"first-new".to_vec()));
    assert_eq!((last.link.id, last.frame), (OLD, b"last-old".to_vec()));
    assert_eq!((first.link.id, first.frame), (NEW, b"first-new".to_vec()));
}

#[test]
fn abort_flushes_buffered_back_to_old() {
    let mut t = TransitionStream::new(mk_stream(), mk_framed());

    t.on_commit_sent();
    t.send_bytes(b"buf-1".to_vec()).unwrap();
    t.send_bytes(b"buf-2".to_vec()).unwrap();
    assert_eq!(t.buffered_len(), 2);

    t.abort();
    assert_eq!(t.phase(), Phase::UsingOld);
    let writes = flush_old(&mut t);
    assert_eq!(t.buffered_len(), 0);
    assert_eq!(writes.len(), 2);
    assert_eq!((writes[0].link.id, &writes[0].frame[..]), (OLD, &b"buf-1"[..]));
    assert_eq!((writes[1].link.id, &writes[1].frame[..]), (OLD, &b"buf-2"[..]));
}

/// A message held back is sealed by the new channel, under the next nonce.
#[test]
fn buffered_plaintext_is_encrypted_by_the_new_channel() {
    let key = Key(sodiumoxide::crypto::secretbox::gen_key().0);

    let mut old_a = mk_stream();
    let mut old_b = mk_stream();
    old_a.set_key(key.clone());
    old_b.set_key(key);
    let w = written(old_a.send_raw(b"before".to_vec()));
    assert_eq!(old_b.next(Some(Ok(w.frame))), Some(Ok(b"before".to_vec())));

    let mut new_a = mk_framed();
    let mut new_b = mk_framed();
    match &old_a {
        Stream::Tcp(f) => new_a.adopt_crypto_from(f),
        _ => panic!("a framed connection"),
    }
    match &old_b {
        Stream::Tcp(f) => new_b.adopt_crypto_from(f),
        _ => panic!("a framed connection"),
    }

    let mut trans = TransitionStream::new(old_a, new_a);
    trans.on_commit_sent();
    assert_eq!(trans.send_raw(b"secret".to_vec()), Ok(Sent::Buffered));
    assert_eq!(trans.buffered_len(), 1);

    trans.on_commit_ack_received();
    let writes = flush_new(&mut trans);
    assert_eq!(writes.len(), 1);
    assert_ne!(writes[0].frame, b"secret".to_vec());
    let got = new_b.next(Some(Ok(writes[0].frame.clone()))).unwrap().unwrap();
    assert_eq!(&got[..], b"secret");
    assert_eq!(trans.new_crypto_seq(), Some((2, 0)));
}

#[test]
fn phase_transitions_are_monotonic() {
    let mut t = TransitionStream::new(mk_stream(), mk_framed());
    t.on_commit_ack_received();
    assert_eq!(t.phase(), Phase::UsingNew);

    let mut t = TransitionStream::new(mk_stream(), mk_framed());
    t.on_commit_sent();
    t.on_commit_ack_received();
    t.on_commit_sent();
    assert_eq!(t.phase(), Phase::UsingNew);
}

#[test]
fn after_switch_only_new_is_used() {
    let mut t = TransitionStream::new(mk_stream(), mk_framed());

    t.on_commit_ack_sent();
    let w = written(t.send_bytes(b"n1".to_vec()));
    assert_eq!((w.link.id, w.frame), (NEW, b"n1".to_vec()));

    assert_eq!(t.reads_from().unwrap().id, NEW);
    assert_eq!(t.next(Some(Ok(b"n2".to_vec()))), Some(Ok(b"n2".to_vec())));
}

#[test]
fn swap_in_place_like_connection_layer_does() {
    let mut slot = mk_stream();
    let old = std::mem::replace(&mut slot, Stream::Empty);
    slot = Stream::Transition(Box::new(TransitionStream::new(old, mk_framed())));

    let w = written(slot.send_bytes(b"via-transition".to_vec()));
    assert_eq!((w.link.id, w.frame), (OLD, b"via-transition".to_vec()));

    match &mut slot {
        Stream::Transition(t) => {
            t.on_commit_ack_sent();
            assert_eq!(t.phase(), Phase::UsingNew);
        }
        _ => panic!("a transition"),
    }
    let w = written(slot.send_bytes(b"via-new".to_vec()));
    assert_eq!((w.link.id, w.frame), (NEW, b"via-new".to_vec()));
}

#[test]
fn empty_variant_fails_loudly() {
    let mut s = Stream::Empty;
    assert_eq!(s.send_bytes(b"x".to_vec()), Err(StreamError::Placeholder));
    assert_eq!(s.send_raw(b"x".to_vec()), Err(StreamError::Placeholder));
    assert_eq!(s.send(Ok(b"x".to_vec())), Err(StreamError::Placeholder));
    assert!(s.next(Some(Ok(b"x".to_vec()))).is_none());
    assert!(s.reads_from().is_none());
    assert!(!s.is_secured());
    s.set_raw();
    s.set_key(Key([0u8; 32]));
    s.set_send_timeout(100);
    assert_eq!(s.local_addr().port(), 0);
    assert_eq!(
        StreamError::Placeholder.message(),
        "stream 处于过渡占位状态，不能发送"
    );
}

#[test]
fn held_messages_and_frames_keep_their_order_and_kind() {
    let mut old = mk_stream();
    old.set_key(Key([5u8; 32]));
    let mut t = TransitionStream::new(old, mk_framed());
    t.on_commit_sent();
    t.send_raw(b"one".to_vec()).unwrap();
    t.send_bytes(b"two".to_vec()).unwrap();
    t.send_raw(b"three".to_vec()).unwrap();
    assert_eq!(t.buffered_bytes(), 11);
    t.on_commit_ack_received();
    let writes = flush_new(&mut t);
    let mut peer = Encrypt::new(Key([5u8; 32]));
    assert_eq!(peer.dec(writes[0].frame.clone()), Ok(b"one".to_vec()));
    assert_eq!(writes[1].frame, b"two".to_vec());
    assert_eq!(peer.dec(writes[2].frame.clone()), Ok(b"three".to_vec()));
    assert_eq!(t.new_crypto_seq(), Some((2, 0)));
}

#[test]
fn flushing_to_a_missing_channel_loses_the_write() {
    let mut t = TransitionStream::new(Stream::Empty, mk_framed());
    t.on_commit_sent();
    t.send_bytes(b"gone".to_vec()).unwrap();
    t.send_bytes(b"next".to_vec()).unwrap();
    t.abort();
    assert_eq!(t.flush_to_old(), Err(StreamError::Placeholder));
    assert_eq!(t.buffered_len(), 1);
    assert_eq!(t.buffered_bytes(), 4);
}

#[test]
fn websocket_hands_its_encryption_over_too() {
    let mut ws = Stream::WebSocket(WsFramedStream::new(OLD, addr()));
    ws.set_key(Key([8u8; 32]));
    let mut peer = Encrypt::new(Key([8u8; 32]));
    let w = written(ws.send_raw(b"before".to_vec()));
    assert_eq!(peer.dec(w.frame), Ok(b"before".to_vec()));
    assert!(ws.is_secured());

    let mut t = TransitionStream::new(ws, mk_framed());
    t.on_commit_sent();
    assert_eq!(t.send_raw(b"held".to_vec()), Ok(Sent::Buffered));
    t.on_commit_ack_received();
    assert_eq!(t.new_crypto_seq(), Some((1, 0)));
    assert!(t.is_secured());
    let writes = flush_new(&mut t);
    assert_eq!(writes[0].link.id, NEW);
    assert_eq!(peer.dec(writes[0].frame.clone()), Ok(b"held".to_vec()));

    // The old channel gave its state away.
    t.abort();
    assert!(!t.is_secured());
}

#[test]
fn channel_without_a_state_leaves_the_new_one_alone() {
    let mut new = mk_framed();
    new.set_key(Key([9u8; 32]));
    let rtc = Stream::WebRTC(WebRTCStream::new(OLD, addr()));
    let mut t = TransitionStream::new(rtc, new);
    t.on_commit_ack_sent();
    assert_eq!(t.new_crypto_seq(), Some((0, 0)));
    assert!(t.is_secured());
}

#[test]
fn settings_reach_both_channels() {
    let mut t = TransitionStream::new(mk_stream(), mk_framed());
    t.set_send_timeout(70);
    t.set_key(Key([2u8; 32]));
    let w = written(t.send_bytes(b"x".to_vec()));
    assert_eq!((w.link.id, w.timeout_ms), (OLD, 70));
    assert_eq!(t.new_crypto_seq(), Some((0, 0)));
    t.set_raw();
    assert!(!t.is_secured());
    t.on_commit_ack_sent();
    let w = written(t.send_raw(b"y".to_vec()));
    assert_eq!((w.link.id, w.link.raw, w.timeout_ms), (NEW, true, 70));
    assert_eq!(w.frame, b"y".to_vec());
    assert_eq!(t.local_addr(), addr());
}

#[test]
fn only_a_finished_switch_collapses() {
    let mut t = TransitionStream::new(mk_stream(), mk_framed());
    t.on_commit_sent();
    let s = Stream::Transition(Box::new(t)).collapse_transition();
    let mut t = match s {
        Stream::Transition(t) => t,
        _ => panic!("not over yet"),
    };
    t.on_commit_ack_received();
    let mut s = Stream::Transition(t).collapse_transition();
    assert!(matches!(s, Stream::Tcp(_)));
    let w = written(s.send_bytes(b"z".to_vec()));
    assert_eq!(w.link.id, NEW);
    assert!(matches!(mk_stream().collapse_transition(), Stream::Tcp(_)));
}

#[test]
fn timeouts_read_as_nothing() {
    let mut s = mk_stream();
    assert_eq!(s.next_timeout(None), None);
    assert_eq!(s.next_timeout(Some(Some(Ok(vec![1, 2])))), Some(Ok(vec![1, 2])));
    assert_eq!(s.next_timeout(Some(None)), None);
    let mut t = TransitionStream::new(mk_stream(), mk_framed());
    assert_eq!(t.next_timeout(None), None);
    assert_eq!(t.next_timeout(Some(Some(Ok(vec![3])))), Some(Ok(vec![3])));
}

#[test]
fn messages_that_do_not_encode_are_not_sent() {
    let mut s = mk_stream();
    assert_eq!(
        s.send(Err("no".to_owned())),
        Err(StreamError::Encode("no".to_owned()))
    );
    assert_eq!(StreamError::Encode("no".to_owned()).message(), "no");
    let w = written(s.send(Ok(b"ok".to_vec())));
    assert_eq!(w.frame, b"ok".to_vec());
    let mut t = TransitionStream::new(mk_stream(), mk_framed());
    assert_eq!(t.send(Err("no".to_owned())), Err(StreamError::Encode("no".to_owned())));
    assert_eq!(written(t.send(Ok(b"ok".to_vec()))).frame, b"ok".to_vec());
}

#[test]
fn websocket_and_webrtc_carry_the_session_too() {
    let mut ws = Stream::connect_websocket(Ok((7, addr()))).unwrap();
    let mut peer = Stream::connect_websocket(Ok((8, addr()))).unwrap();
    ws.set_key(Key([4u8; 32]));
    peer.set_key(Key([4u8; 32]));
    let w = written(ws.send_raw(b"over ws".to_vec()));
    assert_eq!(w.link.id, 7);
    assert_eq!(peer.next(Some(Ok(w.frame))), Some(Ok(b"over ws".to_vec())));
    assert!(Stream::connect_websocket(Err("refused".to_owned())).is_err());
    assert_eq!(ws.get_webrtc_stream(), None);

    let channel = WebRTCStream::new(9, addr());
    let mut rtc = Stream::WebRTC(channel);
    rtc.set_send_timeout(5);
    rtc.set_key(Key([4u8; 32]));
    assert!(rtc.is_secured());
    let w = written(rtc.send_raw(b"over rtc".to_vec()));
    assert_eq!((w.link.id, w.timeout_ms, w.frame), (9, 5, b"over rtc".to_vec()));
    assert_eq!(rtc.next(Some(Err(ReadError::Decryption))), Some(Err(ReadError::Decryption)));
    assert_eq!(rtc.get_webrtc_stream().unwrap().link, channel.link);
    assert_eq!(rtc.local_addr(), addr());
}

#[test]
fn exhausted_nonces_are_noticed() {
    let mut f = mk_framed();
    f.2 = Some(Encrypt(Key([1u8; 32]), u64::MAX, u64::MAX));
    let s = Stream::Tcp(f);
    assert!(!s.accepts(1));
    assert!(!s.can_read());
    let s = mk_stream();
    assert!(s.accepts(1));
    assert!(s.can_read());
    assert!(!s.accepts(usize::MAX));
    let mut t = TransitionStream::new(mk_stream(), mk_framed());
    assert!(t.can_flush());
    t.on_commit_sent();
    t.send_raw(b"m".to_vec()).unwrap();
    t.abort();
    assert!(t.can_flush());
}

/// An initiator's orders, carried out on an encrypted connection.
#[test]
fn orders_take_the_session_over() {
    let mut slot = mk_stream();
    slot.set_key(Key([3u8; 32]));
    let mut peer = Encrypt::new(Key([3u8; 32]));
    assert!(carry_out(&mut slot, Order::Install(mk_framed())).is_none());
    let mut commit = Message::new();
    commit.set_iroh_upgrade_commit(IrohUpgradeCommit::new());
    let message = carry_out(&mut slot, Order::Send(commit.clone())).unwrap();
    assert_eq!(message, commit);
    let w = written(slot.send_raw(b"commit".to_vec()));
    assert_eq!(w.link.id, OLD);
    assert_eq!(peer.dec(w.frame), Ok(b"commit".to_vec()));
    carry_out(&mut slot, Order::CommitSent);
    assert_eq!(slot.send_raw(b"late".to_vec()), Ok(Sent::Buffered));
    carry_out(&mut slot, Order::CommitAckReceived);
    match &mut slot {
        Stream::Transition(t) => {
            assert_eq!(t.phase(), Phase::UsingNew);
            let w = t.flush_to_new().unwrap();
            assert_eq!(w.link.id, NEW);
            assert_eq!(peer.dec(w.frame), Ok(b"late".to_vec()));
        }
        _ => panic!("a transition"),
    }

    let mut slot = mk_stream();
    carry_out(&mut slot, Order::CommitAckSent);
    carry_out(&mut slot, Order::Abort);
    assert!(matches!(slot, Stream::Tcp(_)));
    carry_out(&mut slot, Order::Install(mk_framed()));
    carry_out(&mut slot, Order::CommitSent);
    carry_out(&mut slot, Order::Abort);
    match &slot {
        Stream::Transition(t) => assert_eq!(t.phase(), Phase::UsingOld),
        _ => panic!("a transition"),
    }
}

/// The transition in a slot.
fn in_slot(slot: &mut Stream) -> &mut TransitionStream {
    match slot {
        Stream::Transition(t) => t,
        _ => panic!("a transition"),
    }
}

fn framed(link: u64) -> FramedStream {
    FramedStream::from(link, addr())
}

/// An upgrade that failed leaves a transition behind; the next one takes it over.
#[test]
fn second_upgrade_keeps_the_encryption() {
    let mut slot = mk_stream();
    slot.set_key(Key([3u8; 32]));
    let mut peer = Encrypt::new(Key([3u8; 32]));
    carry_out(&mut slot, Order::Install(framed(NEW)));
    carry_out(&mut slot, Order::CommitSent);
    assert_eq!(slot.send_raw(b"held".to_vec()), Ok(Sent::Buffered));
    carry_out(&mut slot, Order::Abort);
    carry_out(&mut slot, Order::Install(framed(7)));
    assert!(slot.is_secured());
    // What was held back is still there, and goes out on the old channel.
    assert_eq!(in_slot(&mut slot).buffered_len(), 1);
    let back = flush_old(in_slot(&mut slot));
    assert_eq!(back.len(), 1);
    assert_eq!(back[0].link.id, OLD);
    assert_eq!(peer.dec(back[0].frame.clone()), Ok(b"held".to_vec()));
    let commit = written(slot.send_raw(b"commit".to_vec()));
    assert_eq!(commit.link.id, OLD);
    assert_eq!(peer.dec(commit.frame), Ok(b"commit".to_vec()));
    carry_out(&mut slot, Order::CommitSent);
    carry_out(&mut slot, Order::CommitAckReceived);
    assert!(slot.is_secured());
    assert_eq!(in_slot(&mut slot).new_crypto_seq(), Some((2, 0)));
    let w = written(slot.send_raw(b"on iroh".to_vec()));
    assert_eq!(w.link.id, 7);
    assert_eq!(peer.dec(w.frame), Ok(b"on iroh".to_vec()));
}

/// A switch that is over and was not collapsed is taken over as well.
#[test]
fn upgrade_after_a_switch_starts_from_the_new_channel() {
    let mut slot = mk_stream();
    slot.set_key(Key([4u8; 32]));
    let mut peer = Encrypt::new(Key([4u8; 32]));
    carry_out(&mut slot, Order::Install(framed(NEW)));
    carry_out(&mut slot, Order::CommitAckSent);
    carry_out(&mut slot, Order::Install(framed(7)));
    assert!(slot.is_secured());
    assert_eq!(in_slot(&mut slot).phase(), Phase::UsingOld);
    let w = written(slot.send_raw(b"first".to_vec()));
    assert_eq!(w.link.id, NEW);
    assert_eq!(peer.dec(w.frame), Ok(b"first".to_vec()));
    carry_out(&mut slot, Order::CommitAckSent);
    let w = written(slot.send_raw(b"second".to_vec()));
    assert_eq!(w.link.id, 7);
    assert_eq!(peer.dec(w.frame), Ok(b"second".to_vec()));
}

/// In the commit window another new channel changes nothing for the session.
#[test]
fn commit_window_goes_on_with_another_new_channel() {
    let mut slot = mk_stream();
    carry_out(&mut slot, Order::Install(framed(NEW)));
    carry_out(&mut slot, Order::CommitSent);
    slot.send_bytes(b"a".to_vec()).unwrap();
    carry_out(&mut slot, Order::Install(framed(7)));
    assert_eq!(in_slot(&mut slot).phase(), Phase::CommitWindow);
    assert_eq!(slot.send_bytes(b"b".to_vec()), Ok(Sent::Buffered));
    assert_eq!(slot.reads_from().unwrap().id, OLD);
    carry_out(&mut slot, Order::CommitAckReceived);
    let writes = flush_new(in_slot(&mut slot));
    let sent: Vec<(u64, Vec<u8>)> = writes.into_iter().map(|w| (w.link.id, w.frame)).collect();
    assert_eq!(sent, vec![(7, b"a".to_vec()), (7, b"b".to_vec())]);
}

/// Whoever holds the same state reads what a WebSocket or a transition sends.
#[test]
fn aligned_peer_reads_whatever_carries_the_session() {
    let mut ws = Stream::connect_websocket(Ok((OLD, addr()))).unwrap();
    ws.set_key(Key([6u8; 32]));
    let mut peer = Encrypt::new(Key([6u8; 32]));
    let w = written(ws.send_raw(b"one".to_vec()));
    assert_eq!(peer.dec(w.frame), Ok(b"one".to_vec()));
    let mut t = TransitionStream::new(ws, mk_framed());
    let w = written(t.send_raw(b"two".to_vec()));
    assert_eq!(peer.dec(w.frame), Ok(b"two".to_vec()));
    t.on_commit_sent();
    t.send_raw(b"three".to_vec()).unwrap();
    t.abort();
    let back = flush_old(&mut t);
    assert_eq!(peer.dec(back[0].frame.clone()), Ok(b"three".to_vec()));
    t.switch_to_new();
    let w = written(t.send_raw(b"four".to_vec()));
    assert_eq!(w.link.id, NEW);
    assert_eq!(peer.dec(w.frame), Ok(b"four".to_vec()));
}
