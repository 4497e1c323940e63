use kscope::codec::{HandshakeInit, KeepAlive, Packet};
use kscope::pump::{egress_frame, ingress_frame, DropCounters, IngressAction};
use kscope::transport::{Role, SecureTransport, SessionKeys};

fn pair() -> (SecureTransport, SecureTransport) {
    let tx = SecureTransport::new(SessionKeys::from_split(
        Role::Initiator,
        vec![0x11; 32],
        vec![0x22; 32],
    ));
    let rx = SecureTransport::new(SessionKeys::from_split(
        Role::Responder,
        vec![0x11; 32],
        vec![0x22; 32],
    ));
    (tx, rx)
}

#[test]
fn egress_then_ingress_delivers_the_packet() {
    let (mut tx, mut rx) = pair();
    let mut counters = DropCounters::new();
    let datagram = egress_frame(&mut tx, b"one ip packet", 5).expect("egress succeeds");
    // the wire frame is a well-formed transport frame under the session id
    let (packet, sid) = Packet::deserialize(&datagram).expect("egress emits a valid frame");
    assert_eq!(sid, 5);
    match packet {
        Packet::TransportData(ref td) => {
            assert_eq!(td.nonce, 0);
            assert_eq!(td.ciphertext.len(), 13 + 16);
        },
        ref other => panic!("expected a transport frame, got {:?}", other),
    }
    let action = ingress_frame(&mut rx, &mut counters, &datagram);
    assert_eq!(action, IngressAction::Deliver(b"one ip packet".to_vec()));
    assert_eq!(counters, DropCounters::new());
}

#[test]
fn ingress_counts_malformed_datagrams() {
    let (_tx, mut rx) = pair();
    let mut counters = DropCounters::new();
    assert_eq!(ingress_frame(&mut rx, &mut counters, b"junk"), IngressAction::Dropped);
    assert_eq!(counters.malformed, 1);
    assert_eq!(counters.auth_failed, 0);
    assert_eq!(counters.replay, 0);
    assert_eq!(counters.unexpected, 0);
}

#[test]
fn ingress_counts_replays() {
    let (mut tx, mut rx) = pair();
    let mut counters = DropCounters::new();
    let datagram = egress_frame(&mut tx, b"data", 1).unwrap();
    assert!(matches!(
        ingress_frame(&mut rx, &mut counters, &datagram),
        IngressAction::Deliver(_)
    ));
    assert_eq!(ingress_frame(&mut rx, &mut counters, &datagram), IngressAction::Dropped);
    assert_eq!(counters.replay, 1);
    assert_eq!(counters.auth_failed, 0);
}

#[test]
fn ingress_counts_tampered_frames_and_keeps_the_window() {
    let (mut tx, mut rx) = pair();
    let mut counters = DropCounters::new();
    let datagram = egress_frame(&mut tx, b"data", 1).unwrap();
    let mut bad = datagram.clone();
    let last = bad.len() - 1;
    bad[last] ^= 0x40;
    assert_eq!(ingress_frame(&mut rx, &mut counters, &bad), IngressAction::Dropped);
    assert_eq!(counters.auth_failed, 1);
    // the forgery did not move the window: the genuine frame still arrives
    assert!(matches!(
        ingress_frame(&mut rx, &mut counters, &datagram),
        IngressAction::Deliver(_)
    ));
}

#[test]
fn ingress_treats_keepalive_kind_as_liveness() {
    let (_tx, mut rx) = pair();
    let mut counters = DropCounters::new();
    let datagram = Packet::KeepAlive(KeepAlive::new()).serialize(1);
    assert_eq!(ingress_frame(&mut rx, &mut counters, &datagram), IngressAction::Alive);
    assert_eq!(counters, DropCounters::new());
}

#[test]
fn ingress_treats_empty_transport_plaintext_as_liveness() {
    let (mut tx, mut rx) = pair();
    let mut counters = DropCounters::new();
    let datagram = egress_frame(&mut tx, b"", 1).unwrap();
    assert_eq!(ingress_frame(&mut rx, &mut counters, &datagram), IngressAction::Alive);
    // the keep-alive still consumed its nonce in the replay window
    assert_eq!(ingress_frame(&mut rx, &mut counters, &datagram), IngressAction::Dropped);
    assert_eq!(counters.replay, 1);
}

#[test]
fn ingress_drops_unexpected_kinds() {
    let (_tx, mut rx) = pair();
    let mut counters = DropCounters::new();
    let datagram = Packet::HandshakeInit(HandshakeInit { message: vec![1; 96] }).serialize(1);
    assert_eq!(ingress_frame(&mut rx, &mut counters, &datagram), IngressAction::Dropped);
    assert_eq!(counters.unexpected, 1);
}

#[test]
fn egress_nonces_count_up() {
    let (mut tx, _rx) = pair();
    for expected in 0u64..5 {
        let datagram = egress_frame(&mut tx, b"x", 2).unwrap();
        match Packet::deserialize(&datagram).unwrap().0 {
            Packet::TransportData(td) => assert_eq!(td.nonce, expected),
            other => panic!("expected a transport frame, got {:?}", other),
        }
    }
}
