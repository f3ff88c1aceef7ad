use signal_doh_ech::socks5::{parse_handshake_a, parse_handshake_b, Dest, Request, Socks5Error, Socks5Session, Socks5Step, Stage};

fn negotiate(first: &[u8], second: &[u8]) -> Request {
    let mut s = Socks5Session::new();
    match s.feed(first) {
        Socks5Step::Reply(v) => assert_eq!(v, vec![5u8, 0]),
        _ => panic!("expected the method reply"),
    }
    match s.feed(second) {
        Socks5Step::Complete(req, v) => {
            assert_eq!(v, vec![5u8, 0, 0, 1, 0, 0, 0, 0, 0, 0]);
            assert_eq!(s.stage(), Stage::Established);
            req
        }
        _ => panic!("expected a complete request"),
    }
}

#[test]
fn rules_wildcard_and_exact() {
    let rules = vec!["example.com:443".to_string()];
    assert!(signal_doh_ech::rules::matches("example.com:443", &rules));
    assert!(!signal_doh_ech::rules::matches("example.com:80", &rules));
    assert!(!signal_doh_ech::rules::matches("example.com:443", &[]));
    let wild = vec!["a:1".to_string(), "*".to_string()];
    assert!(signal_doh_ech::rules::matches("anything:9", &wild));
    assert!(!signal_doh_ech::rules::matches("example.com", &vec!["example.com:443".to_string()]));
}

#[test]
fn ipv4_request_renders_dotted() {
    let req = negotiate(b"\x05\x01\x00", b"\x05\x01\x00\x01\x01\x02\x03\x04\x1f\x90");
    assert_eq!(req.port, 8080);
    assert_eq!(req.to_sock_addr().unwrap(), "1.2.3.4:8080");
    assert_eq!(req.to_host_addr().unwrap(), "1.2.3.4");
    let req = negotiate(b"\x05\x01\x00", b"\x05\x01\x00\x01\xff\x00\x0a\xc8\x00\x00");
    assert_eq!(req.to_sock_addr().unwrap(), "255.0.10.200:0");
}

#[test]
fn domain_request_renders_host_port() {
    let mut m = b"\x05\x01\x00\x03\x0b".to_vec();
    m.extend_from_slice(b"example.com");
    m.extend_from_slice(&[0x01, 0xbb]);
    let req = negotiate(b"\x05\x02\x00\x02", &m);
    assert_eq!(req.to_sock_addr().unwrap(), "example.com:443");
    assert_eq!(req.to_host_addr().unwrap(), "example.com");
}

#[test]
fn ipv6_request_renders_bracketed() {
    let mut m = b"\x05\x01\x00\x04".to_vec();
    let mut a = [0u8; 16];
    a[15] = 1;
    m.extend_from_slice(&a);
    m.extend_from_slice(&[0, 80]);
    let req = negotiate(b"\x05\x01\x00", &m);
    assert_eq!(req.to_sock_addr().unwrap(), "[::1]:80");
    assert_eq!(req.to_host_addr().unwrap(), "::1");
}

#[test]
fn ipv6_text_forms() {
    let cases: Vec<([u8; 16], &str)> = vec![
        ([0; 16], "::"),
        ([0x20, 0x01, 0x0d, 0xb8, 0, 0, 0, 0, 0, 0, 0, 0, 0, 0, 0, 1], "2001:db8::1"),
        ([0, 0, 0, 0, 0, 0, 0, 0, 0, 0, 0xff, 0xff, 1, 2, 3, 4], "::ffff:1.2.3.4"),
        ([0, 1, 0, 0, 0, 0, 0, 1, 0, 0, 0, 0, 0, 0, 0, 1], "1:0:0:1::1"),
        ([0, 1, 0, 0, 0, 2, 0, 3, 0, 4, 0, 5, 0, 6, 0, 7], "1:0:2:3:4:5:6:7"),
        ([0xfe, 0x80, 0, 0, 0, 0, 0, 0, 0xab, 0xcd, 0, 0, 0, 0, 0x12, 0x34], "fe80::abcd:0:0:1234"),
    ];
    for (a, text) in cases {
        let req = Request { addr: Dest::IPv6(a), port: 1 };
        assert_eq!(req.to_host_addr().unwrap(), text);
    }
}

#[test]
fn unknown_address_type_is_invalid() {
    let req = negotiate(b"\x05\x01\x00", b"\x05\x01\x00\x02\x00\x50");
    assert!(matches!(req.addr, Dest::Invalid));
    assert_eq!(req.port, 80);
    assert!(matches!(req.to_sock_addr(), Err(Socks5Error::ProtocolError)));
    assert!(matches!(req.to_host_addr(), Err(Socks5Error::ProtocolError)));
}

#[test]
fn domain_not_text_is_invalid() {
    let req = negotiate(b"\x05\x01\x00", b"\x05\x01\x00\x03\x02\xff\xfe\x00\x50");
    assert!(matches!(req.addr, Dest::Invalid));
}

#[test]
fn zero_read_is_peer_closed() {
    let mut s = Socks5Session::new();
    assert!(matches!(s.feed(b""), Socks5Step::Failed(Socks5Error::PeerClosed)));
    let mut s = Socks5Session::new();
    assert!(matches!(s.feed(b"\x05"), Socks5Step::Pending));
    assert!(matches!(s.feed(b""), Socks5Step::Failed(Socks5Error::PeerClosed)));
    let mut s = Socks5Session::new();
    assert!(matches!(s.feed(b"\x05\x01\x00"), Socks5Step::Reply(_)));
    assert!(matches!(s.feed(b""), Socks5Step::Failed(Socks5Error::PeerClosed)));
    assert_eq!(s.stage(), Stage::Failed);
}

#[test]
fn partial_reads_are_reassembled() {
    let mut s = Socks5Session::new();
    assert!(matches!(s.feed(b"\x05"), Socks5Step::Pending));
    assert!(matches!(s.feed(b"\x02\x00"), Socks5Step::Pending));
    assert!(matches!(s.feed(b"\x01"), Socks5Step::Reply(_)));
    assert!(matches!(s.feed(b"\x05\x01\x00\x01\x7f"), Socks5Step::Pending));
    match s.feed(b"\x00\x00\x01\x00\x16") {
        Socks5Step::Complete(req, _) => assert_eq!(req.to_sock_addr().unwrap(), "127.0.0.1:22"),
        _ => panic!("expected a complete request"),
    }
}

#[test]
fn trailing_bytes_are_a_protocol_error() {
    let mut s = Socks5Session::new();
    assert!(matches!(s.feed(b"\x05\x01\x00"), Socks5Step::Reply(_)));
    assert!(matches!(
        s.feed(b"\x05\x01\x00\x01\x01\x02\x03\x04\x00\x50\x00"),
        Socks5Step::Failed(Socks5Error::ProtocolError)
    ));
}

#[test]
fn bad_version_fills_the_buffer() {
    let mut s = Socks5Session::new();
    assert_eq!(s.space_left(), 4096);
    assert!(matches!(s.feed(&[4u8; 100]), Socks5Step::Pending));
    assert_eq!(s.space_left(), 3996);
    assert!(matches!(s.feed(&[4u8; 3996]), Socks5Step::Failed(Socks5Error::BufferExhausted)));
}

#[test]
fn largest_port_and_empty_domain() {
    let req = negotiate(b"\x05\x00", b"\x05\x01\x00\x01\x00\x00\x00\x00\xff\xff");
    assert_eq!(req.port, 65535);
    assert_eq!(req.to_sock_addr().unwrap(), "0.0.0.0:65535");
    let req = negotiate(b"\x05\x01\x00", b"\x05\x01\x00\x03\x00\x00\x07");
    assert_eq!(req.to_sock_addr().unwrap(), ":7");
}

#[test]
fn wrong_command_is_never_complete() {
    let mut s = Socks5Session::new();
    assert!(matches!(s.feed(b"\x05\x01\x00"), Socks5Step::Reply(_)));
    assert!(matches!(s.feed(b"\x05\x02\x00\x01\x01\x02\x03\x04\x00\x50"), Socks5Step::Pending));
    assert_eq!(s.stage(), Stage::PostAuth);
}

#[test]
fn parsers_report_lengths() {
    assert_eq!(parse_handshake_a(b"\x05\x01\x00\x09"), Some(3));
    assert_eq!(parse_handshake_a(b"\x05\x02\x00"), None);
    let (req, n) = parse_handshake_b(b"\x05\x01\x00\x01\x0a\x00\x00\x01\x12\x34rest").unwrap();
    assert_eq!(n, 10);
    assert_eq!(req.port, 0x1234);
    assert!(matches!(req.addr, Dest::IPv4([10, 0, 0, 1])));
    assert!(parse_handshake_b(b"\x05\x01\x00\x01\x0a\x00").is_none());
}
