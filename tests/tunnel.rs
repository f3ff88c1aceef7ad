use signal_doh_ech::backend::{accept_message, admit_hello, BackendError};
use signal_doh_ech::common::{frame_hello, CodecError, Hello, HelloResponse};
use signal_doh_ech::connect::{DialAction, Dialer, EstStage, EstablishAction, EstablishError, EstablishEvent, Establisher, WsMessage};
use signal_doh_ech::dns::{select_addresses, DnsRecord, IpAddress, ResolveError};
use signal_doh_ech::relay::{relay_step, RelayAction, RelayEvent, Side};
use signal_doh_ech::socks5::{Dest, Request, Socks5Error};
use signal_doh_ech::tunnel::{route, Route};

#[test]
fn hello_round_trip() {
    let h = Hello::new("host:1234".to_string());
    let bytes = h.to_vec().unwrap();
    assert_eq!(bytes, br#"{"addr":"host:1234"}"#.to_vec());
    let back = Hello::parse(&bytes).unwrap();
    assert_eq!(back.addr, "host:1234");
    let h = Hello::new("quote\"and\\slash:1".to_string());
    let back = Hello::parse(&h.to_vec().unwrap()).unwrap();
    assert_eq!(back.addr, "quote\"and\\slash:1");
}

#[test]
fn hello_decode_failures() {
    assert!(matches!(Hello::parse(b"garbage"), Err(CodecError::DecodeError)));
    assert!(matches!(Hello::parse(b""), Err(CodecError::DecodeError)));
    assert!(matches!(Hello::parse(br#"{"addr":1234}"#), Err(CodecError::DecodeError)));
    assert!(matches!(Hello::parse(br#"{"host":"a:1"}"#), Err(CodecError::DecodeError)));
    assert!(matches!(HelloResponse::parse(b"\"Rejected\""), Err(CodecError::DecodeError)));
    assert!(matches!(HelloResponse::parse(b"{}"), Err(CodecError::DecodeError)));
}

#[test]
fn hello_framing() {
    assert_eq!(frame_hello(b"\"x\""), br#"{"addr":"x"}"#.to_vec());
}

#[test]
fn hello_ignores_extra_members() {
    assert_eq!(Hello::parse(br#"{"addr":"h:1","extra":1}"#).unwrap().addr, "h:1");
    assert_eq!(Hello::parse(br#"{ "v": [1, 2], "addr" : "h:2" }"#).unwrap().addr, "h:2");
    assert_eq!(Hello::parse(b"{\"addr\":\"\\u0041:3\"}\n").unwrap().addr, "A:3");
    assert!(matches!(Hello::parse(b"{}"), Err(CodecError::DecodeError)));
    assert!(matches!(Hello::parse(&[0x00, 0xff, 0x67]), Err(CodecError::DecodeError)));
    assert!(matches!(Hello::parse(b"\"Accepted\""), Err(CodecError::DecodeError)));
    assert!(matches!(Hello::parse(br#"["h:1"]"#), Err(CodecError::DecodeError)));
}

#[test]
fn hello_round_trip_many_strings() {
    for s in ["", "a\u{0}b", "tab\there", "\u{1f600}:1", "\\\"", "line\nbreak", "\u{7f}\u{1b}"] {
        let bytes = Hello::new(s.to_string()).to_vec().unwrap();
        assert_eq!(Hello::parse(&bytes).unwrap().addr, s);
    }
}

#[test]
fn dialer_takes_first_working_address() {
    let (mut d, a) = Dialer::new(vec![IpAddress::V4([1, 1, 1, 1]), IpAddress::V4([2, 2, 2, 2])]);
    assert!(matches!(a, DialAction::Connect(IpAddress::V4([1, 1, 1, 1]))));
    assert!(matches!(d.step(false), DialAction::Connect(IpAddress::V4([2, 2, 2, 2]))));
    assert!(d.is_trying());
    assert!(matches!(d.step(true), DialAction::Connected));
    let (mut d, _) = Dialer::new(vec![IpAddress::V4([1, 1, 1, 1])]);
    assert!(matches!(d.step(false), DialAction::Fail(EstablishError::ConnectFailed)));
    let (_, a) = Dialer::new(vec![]);
    assert!(matches!(a, DialAction::Fail(EstablishError::ResolutionFailed)));
}

#[test]
fn response_round_trip() {
    let v = HelloResponse::Accepted.to_vec().unwrap();
    assert_eq!(v, b"\"Accepted\"".to_vec());
    assert_eq!(HelloResponse::parse(&v).unwrap(), HelloResponse::Accepted);
    assert_eq!(accept_message().unwrap(), v);
}

#[test]
fn addresses_keep_a_and_aaaa_only() {
    let recs = vec![
        DnsRecord { rtype: 5, addr: None },
        DnsRecord { rtype: 1, addr: Some(IpAddress::V4([1, 2, 3, 4])) },
        DnsRecord { rtype: 16, addr: Some(IpAddress::V4([9, 9, 9, 9])) },
        DnsRecord { rtype: 28, addr: Some(IpAddress::V6([0; 16])) },
        DnsRecord { rtype: 1, addr: None },
    ];
    let v = select_addresses(&recs).unwrap();
    assert_eq!(v.len(), 2);
    assert!(matches!(v[0], IpAddress::V4([1, 2, 3, 4])));
    assert!(matches!(v[1], IpAddress::V6(_)));
    assert!(matches!(select_addresses(&[]), Err(ResolveError::ResolutionFailed)));
    let only_cname = vec![DnsRecord { rtype: 5, addr: None }];
    assert!(matches!(select_addresses(&only_cname), Err(ResolveError::ResolutionFailed)));
}

#[test]
fn establish_zero_addresses_fails_resolution() {
    let (mut e, a) = Establisher::new("relay.example".to_string(), 443, false, "x:1".to_string(), None);
    assert!(matches!(a, EstablishAction::Resolve));
    let a = e.step(EstablishEvent::Resolved(Some(vec![])));
    assert!(matches!(a, EstablishAction::Fail(EstablishError::ResolutionFailed)));
    assert_eq!(e.stage(), EstStage::Failed);
    let (mut e, _) = Establisher::new("relay.example".to_string(), 443, false, "x:1".to_string(), None);
    let a = e.step(EstablishEvent::Resolved(None));
    assert!(matches!(a, EstablishAction::Fail(EstablishError::ResolutionFailed)));
}

#[test]
fn establish_retries_second_address() {
    let (mut e, _) = Establisher::new("relay.example".to_string(), 443, false, "dest:80".to_string(), None);
    let a = e.step(EstablishEvent::Resolved(Some(vec![IpAddress::V4([10, 0, 0, 1]), IpAddress::V4([10, 0, 0, 2])])));
    assert!(matches!(a, EstablishAction::Connect(IpAddress::V4([10, 0, 0, 1]))));
    let a = e.step(EstablishEvent::Connected(false));
    assert!(matches!(a, EstablishAction::Connect(IpAddress::V4([10, 0, 0, 2]))));
    assert_eq!(e.port(), 443);
    let a = e.step(EstablishEvent::Connected(true));
    assert!(matches!(a, EstablishAction::StartTls));
    match e.step(EstablishEvent::TlsDone(true)) {
        EstablishAction::UpgradeWebSocket(url) => assert_eq!(url, "ws://relay.example/connect"),
        _ => panic!("expected an upgrade"),
    }
    match e.step(EstablishEvent::Upgraded(true)) {
        EstablishAction::SendHello(h) => assert_eq!(h.addr, "dest:80"),
        _ => panic!("expected a hello"),
    }
    let a = e.step(EstablishEvent::Reply(WsMessage::Binary(b"\"Accepted\"".to_vec())));
    assert!(matches!(a, EstablishAction::Ready));
    assert_eq!(e.stage(), EstStage::Ready);
}

#[test]
fn establish_failures_by_stage() {
    let (mut e, a) = Establisher::new("1.2.3.4".to_string(), 80, true, "d:1".to_string(), Some(IpAddress::V4([1, 2, 3, 4])));
    assert!(matches!(a, EstablishAction::Connect(IpAddress::V4([1, 2, 3, 4]))));
    assert!(matches!(e.step(EstablishEvent::Connected(false)), EstablishAction::Fail(EstablishError::ConnectFailed)));

    let (mut e, _) = Establisher::new("1.2.3.4".to_string(), 80, true, "d:1".to_string(), Some(IpAddress::V4([1, 2, 3, 4])));
    match e.step(EstablishEvent::Connected(true)) {
        EstablishAction::UpgradeWebSocket(url) => assert_eq!(url, "ws://1.2.3.4/connect"),
        _ => panic!("expected an upgrade without tls"),
    }
    assert!(matches!(e.step(EstablishEvent::Upgraded(false)), EstablishAction::Fail(EstablishError::WebSocketUpgradeFailed)));

    let (mut e, _) = Establisher::new("h".to_string(), 443, false, "d:1".to_string(), Some(IpAddress::V4([1, 1, 1, 1])));
    e.step(EstablishEvent::Connected(true));
    assert!(matches!(e.step(EstablishEvent::TlsDone(false)), EstablishAction::Fail(EstablishError::TlsFailed)));

    for reply in vec![WsMessage::Other, WsMessage::Closed, WsMessage::Binary(b"\"Nope\"".to_vec())] {
        let (mut e, _) = Establisher::new("h".to_string(), 443, true, "d:1".to_string(), Some(IpAddress::V4([1, 1, 1, 1])));
        e.step(EstablishEvent::Connected(true));
        e.step(EstablishEvent::Upgraded(true));
        assert!(!e.expects_event(&EstablishEvent::Connected(true)));
        assert!(e.expects_event(&EstablishEvent::Reply(WsMessage::Closed)));
        assert!(matches!(e.step(EstablishEvent::Reply(reply)), EstablishAction::Fail(EstablishError::HandshakeRejected)));
    }
}

#[test]
fn relay_forwards_one_way_then_stops() {
    let chunks: Vec<Vec<u8>> = vec![b"hello ".to_vec(), b"wor".to_vec(), b"ld".to_vec()];
    let mut to_b: Vec<u8> = Vec::new();
    let mut stopped = None;
    for c in chunks.into_iter().chain(std::iter::once(Vec::new())) {
        match relay_step(RelayEvent::Read(Side::A, c)) {
            RelayAction::Write(Side::B, bytes) => to_b.extend_from_slice(&bytes),
            RelayAction::Stop(err) => {
                stopped = Some(err);
                break;
            }
            _ => panic!("unexpected action"),
        }
    }
    assert_eq!(to_b, b"hello world".to_vec());
    assert_eq!(stopped, Some(false));
}

#[test]
fn relay_frames() {
    assert!(matches!(relay_step(RelayEvent::Frame(Side::B, WsMessage::Binary(vec![1, 2]))), RelayAction::Write(Side::A, ref v) if *v == vec![1u8, 2]));
    assert!(matches!(relay_step(RelayEvent::Frame(Side::B, WsMessage::Other)), RelayAction::Skip));
    assert!(matches!(relay_step(RelayEvent::Frame(Side::B, WsMessage::Closed)), RelayAction::Stop(false)));
    assert!(matches!(relay_step(RelayEvent::Error), RelayAction::Stop(true)));
    assert!(matches!(relay_step(RelayEvent::Read(Side::B, vec![7])), RelayAction::Write(Side::A, _)));
}

#[test]
fn backend_denies_unlisted_destination() {
    let allowed = vec!["good.example:443".to_string()];
    let bad = Hello::new("evil.example:443".to_string()).to_vec().unwrap();
    assert!(matches!(admit_hello(Some(&bad), &allowed), Err(BackendError::RuleDenied)));
    assert!(matches!(admit_hello(Some(&bad), &[]), Err(BackendError::RuleDenied)));
    let good = Hello::new("good.example:443".to_string()).to_vec().unwrap();
    assert_eq!(admit_hello(Some(&good), &allowed).unwrap().addr, "good.example:443");
    assert_eq!(admit_hello(Some(&bad), &["*".to_string()]).unwrap().addr, "evil.example:443");
    assert!(matches!(admit_hello(None, &allowed), Err(BackendError::NoHello)));
    assert!(matches!(admit_hello(Some(b"xx"), &allowed), Err(BackendError::DecodeError)));
}

#[test]
fn routes_by_forward_rules() {
    let req = Request { addr: Dest::Domain("signal.org".to_string()), port: 443 };
    let fwd = vec!["signal.org:443".to_string()];
    assert!(matches!(route(&req, &fwd), Ok(Route::Forward(ref s)) if s == "signal.org:443"));
    assert!(matches!(route(&req, &[]), Ok(Route::Direct(ref h, 443)) if h == "signal.org"));
    let v6 = Request { addr: Dest::IPv6([0; 16]), port: 8 };
    assert!(matches!(route(&v6, &["[::]:8".to_string()]), Ok(Route::Forward(_))));
    assert!(matches!(route(&v6, &[]), Ok(Route::Direct(ref h, 8)) if h == "::"));
    let bad = Request { addr: Dest::Invalid, port: 1 };
    assert!(matches!(route(&bad, &["*".to_string()]), Err(Socks5Error::ProtocolError)));
}
