use sodiumoxide::crypto::sign;
use transport_upgrade::iroh_transport::{
    accept_one, bind_text, bound_socket, build_endpoint, connect_from, endpoint_id,
    framed_stream_from_iroh, relays_checked, run_accept_loop, secret_key_from_rustdesk,
    sentinel_addr, session_with, AcceptLoop, Accepted, EndpointId, IrohConfig,
    SecretKey, TransportError, ALPN,
};
use transport_upgrade::net::{IpAddr, SocketAddr};

fn local() -> SocketAddr {
    SocketAddr::new(IpAddr::V4([0, 0, 0, 0]), 0)
}

/// The iroh identity and the device's are one public key.
#[test]
fn identity_binding() {
    for _ in 0..8 {
        let (pk, sk) = sign::gen_keypair();
        let key_pair: (Vec<u8>, Vec<u8>) = (sk.0.to_vec(), pk.0.to_vec());

        let iroh_sk = secret_key_from_rustdesk(&key_pair).ok().expect("a key");
        let iroh_pk = iroh_sk.public();

        assert_eq!(&iroh_pk.0, &pk.0);
    }
}

#[test]
fn identity_binding_rejects_short_key() {
    let bad: (Vec<u8>, Vec<u8>) = (vec![1u8; 16], vec![0u8; 32]);
    let e = secret_key_from_rustdesk(&bad).err().unwrap();
    assert_eq!(e, TransportError::ShortKey(16));
    assert_eq!(e.message(), "RustDesk 私钥长度异常: 16 （期望 libsodium 的 64 字节）");
    assert!(secret_key_from_rustdesk(&(vec![1u8; 31], vec![])).is_err());
    let exact = secret_key_from_rustdesk(&(vec![1u8; 32], vec![])).ok().unwrap();
    assert_eq!(exact.0, [1u8; 32]);
}

/// A known key pair: the seed is the first half of the private key.
#[test]
fn seed_is_the_first_half_of_the_key() {
    let mut sk = vec![0u8; 64];
    for (i, b) in sk.iter_mut().enumerate() {
        *b = i as u8;
    }
    let key = secret_key_from_rustdesk(&(sk.clone(), vec![])).ok().unwrap();
    assert_eq!(&key.0[..], &sk[..32]);
    assert_eq!(
        key.public().display(),
        "03a107bff3ce10be1d70dd18e74bc09967e4d6309ba50d5f1ddc8664125531b8"
    );
}

#[test]
fn iroh_sessions_begin_unencrypted_at_no_address() {
    let f = framed_stream_from_iroh(5);
    assert_eq!((f.0.id, f.0.raw), (5, false));
    assert_eq!(f.1, sentinel_addr());
    assert_eq!(sentinel_addr(), local());
    assert!(f.2.is_none());
    assert_eq!(f.3, 0);
}

#[test]
fn plan_follows_the_configuration() {
    let mut cfg = IrohConfig::default();
    assert_eq!(bind_text(&cfg), "0.0.0.0:0");
    cfg.bind_addr = Some("127.0.0.1:0".to_owned());
    assert_eq!(bind_text(&cfg), "127.0.0.1:0");
    cfg.relay_urls = vec!["https://relay.example.org".to_owned()];
    cfg.secret_key = Some(SecretKey([2u8; 32]));
    let plan = build_endpoint(cfg, Ok(local())).ok().unwrap();
    assert_eq!(plan.bind, local());
    assert_eq!(plan.alpn, ALPN.as_bytes().to_vec());
    assert_eq!(plan.alpn, b"nervdesk/rustdesk-iroh-transport/0".to_vec());
    assert_eq!(plan.relays, vec!["https://relay.example.org".to_owned()]);
    assert!(plan.secret_key == Some(SecretKey([2u8; 32])));

    let plan = build_endpoint(IrohConfig::default(), Ok(local())).ok().unwrap();
    assert!(plan.relays.is_empty());
    assert!(plan.secret_key.is_none());
}

#[test]
fn first_thing_wrong_is_reported() {
    let mut cfg = IrohConfig::default();
    cfg.relay_urls = vec![
        "https://relay.example.org".to_owned(),
        "not a url".to_owned(),
        "".to_owned(),
    ];
    let expected = "not a url".parse::<iroh::RelayUrl>().unwrap_err().to_string();
    let e = build_endpoint(cfg, Ok(local())).err().unwrap();
    assert_eq!(e, TransportError::RelayUrl(expected.clone()));
    assert_eq!(e.message(), format!("iroh relay 地址解析失败: {expected}"));

    let mut cfg = IrohConfig::default();
    cfg.relay_urls = vec!["not a url".to_owned()];
    let bad = TransportError::BindAddr("invalid socket address".to_owned());
    let e = build_endpoint(cfg, Err(bad.clone())).err().unwrap();
    assert_eq!(e, bad);
    assert_eq!(e.message(), "iroh 绑定地址解析失败: invalid socket address");
}

#[test]
fn first_failed_check_is_the_error() {
    assert!(relays_checked(&vec![]).is_ok());
    assert!(relays_checked(&vec![Ok(()), Ok(())]).is_ok());
    assert_eq!(
        relays_checked(&vec![Ok(()), Err("b".to_owned()), Err("c".to_owned())]),
        Err(TransportError::RelayUrl("b".to_owned()))
    );
}

#[test]
fn endpoint_that_is_not_there_is_reported() {
    assert_eq!(endpoint_id(Some(EndpointId([1; 32]))), Ok(EndpointId([1; 32])));
    let e = endpoint_id(None).unwrap_err();
    assert_eq!(e.message(), "iroh endpoint 尚未初始化，请先调用 init_endpoint()");
    let a = SocketAddr::new(IpAddr::V4([127, 0, 0, 1]), 7);
    let b = SocketAddr::new(IpAddr::V6([0; 16]), 8);
    assert_eq!(bound_socket(Some(vec![a, b])), Ok(a));
    assert_eq!(bound_socket(Some(vec![])), Err(TransportError::NoSocket));
    assert_eq!(bound_socket(None), Err(TransportError::NotInitialized));
    assert_eq!(TransportError::NoSocket.message(), "iroh endpoint 没有绑定任何 socket");
}

#[test]
fn connection_to_somebody_else_is_refused() {
    let expected = EndpointId([0xab; 32]);
    let mut other = expected;
    other.0[31] = 0;
    assert_eq!(connect_from(expected, Ok(expected)), Ok(expected));
    let e = connect_from(expected, Ok(other)).unwrap_err();
    assert_eq!(e, TransportError::Mismatch { expected, actual: other });
    assert_eq!(
        e.message(),
        format!(
            "iroh 对端身份不一致: 期望 {}, 实际 {}00",
            "ab".repeat(32),
            "ab".repeat(31)
        )
    );
    let e = connect_from(expected, Err("refused".to_owned())).unwrap_err();
    assert_eq!(e.message(), "iroh 连接失败: refused");
}

#[test]
fn sessions_come_with_their_peer() {
    let peer = EndpointId([4; 32]);
    let (stream, id) = session_with(peer, Ok(3)).ok().unwrap();
    assert_eq!((stream.0.id, id), (3, peer));
    let e = session_with(peer, Err("no".to_owned())).err().unwrap();
    assert_eq!(e.message(), "iroh open_bi 失败: no");

    let (stream, id) = accept_one(Accepted::Stream(9, peer)).ok().unwrap().unwrap();
    assert_eq!((stream.0.id, id), (9, peer));
    assert!(accept_one(Accepted::Closed).ok().unwrap().is_none());
    let refused = accept_one(Accepted::Refused("a".to_owned())).err().unwrap();
    assert_eq!(refused.message(), "iroh 接受连接失败: a");
    let failed = accept_one(Accepted::HandshakeFailed("b".to_owned())).err().unwrap();
    assert_eq!(failed.message(), "iroh 握手失败: b");
    let silent = accept_one(Accepted::NoStream("c".to_owned())).err().unwrap();
    assert_eq!(silent.message(), "iroh accept_bi 失败: c");
}

#[test]
fn only_closing_ends_the_accept_loop() {
    let peer = EndpointId([4; 32]);
    assert!(matches!(run_accept_loop(accept_one(Accepted::Closed)), AcceptLoop::Stop));
    assert!(matches!(
        run_accept_loop(accept_one(Accepted::HandshakeFailed("x".to_owned()))),
        AcceptLoop::Ignore(TransportError::Handshake(_))
    ));
    match run_accept_loop(accept_one(Accepted::Stream(1, peer))) {
        AcceptLoop::Handle(f, id) => assert_eq!((f.0.id, id), (1, peer)),
        _ => panic!("expected a session"),
    }
}

#[test]
fn other_errors_have_their_words() {
    assert_eq!(TransportError::BindRefused("x".to_owned()).message(), "iroh 绑定地址无效: x");
    assert_eq!(TransportError::Start("x".to_owned()).message(), "iroh endpoint 启动失败: x");
}
