use h3_datagram::ext::Protocol;
use std::str::FromStr;

#[test]
fn protocol_names() {
    assert_eq!(Protocol::WEB_TRANSPORT.as_str(), "webtransport");
    assert_eq!(Protocol::CONNECT_UDP.as_str(), "connect-udp");
    assert_eq!(Protocol::CONNECT_SNAP.as_str(), "connect-snap");
}

#[test]
fn protocol_round_trip() {
    for p in [Protocol::WEB_TRANSPORT, Protocol::CONNECT_UDP, Protocol::CONNECT_SNAP] {
        assert_eq!(Protocol::from_str(p.as_str()).ok(), Some(p));
        assert_eq!(p.as_str().parse::<Protocol>().ok(), Some(p));
    }
    assert_eq!(Protocol::from_str("webtransport").ok(), Some(Protocol::WEB_TRANSPORT));
    assert_eq!(Protocol::from_str("connect-udp").ok(), Some(Protocol::CONNECT_UDP));
    assert_eq!(Protocol::from_str("connect-snap").ok(), Some(Protocol::CONNECT_SNAP));
}

#[test]
fn protocol_names_are_exact() {
    assert!(Protocol::from_str("Webtransport").is_err());
    assert!(Protocol::from_str("").is_err());
    assert!(Protocol::from_str("WEBTRANSPORT").is_err());
    assert!(Protocol::from_str("webtransport ").is_err());
    assert!(Protocol::from_str("connect_udp").is_err());
    assert!(Protocol::from_str("connect-sna").is_err());
    assert!(Protocol::from_str("connect-snapp").is_err());
    assert!(Protocol::from_str("w\u{00e9}btransport").is_err());
    assert!("connect".parse::<Protocol>().is_err());
}

#[test]
fn protocols_differ() {
    assert_ne!(Protocol::WEB_TRANSPORT, Protocol::CONNECT_UDP);
    assert_ne!(Protocol::WEB_TRANSPORT, Protocol::CONNECT_SNAP);
    assert_ne!(Protocol::CONNECT_UDP, Protocol::CONNECT_SNAP);
}
