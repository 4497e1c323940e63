use kscope::handshake::{Handshake, HandshakePhase};
use kscope::keys::KeyPair;
use kscope::KScopeError;

fn run_handshake(psk_i: [u8; 32], psk_r: [u8; 32]) -> (Handshake, Handshake, Vec<u8>, Vec<u8>) {
    let ikeys = KeyPair::generate();
    let rkeys = KeyPair::generate();
    let mut init = Handshake::new_initiator(&ikeys.private, &rkeys.public, &psk_i)
        .expect("initiator builds");
    let mut resp = Handshake::new_responder(&rkeys.private, &psk_r).expect("responder builds");
    let msg1 = init.next_outbound().expect("message 1 written");
    resp.process_inbound(&msg1).expect("message 1 consumed");
    let msg2 = resp.next_outbound().expect("message 2 written");
    (init, resp, msg1, msg2)
}

#[test]
fn happy_path_completes_with_expected_message_lengths() {
    let (mut init, resp, msg1, msg2) = run_handshake([0u8; 32], [0u8; 32]);
    assert_eq!(msg1.len(), 96);
    assert_eq!(msg2.len(), 48);
    assert!(resp.is_complete());
    assert!(!init.is_complete());
    init.process_inbound(&msg2).expect("message 2 consumed");
    assert!(init.is_complete());
    assert_eq!(init.phase(), HandshakePhase::Complete);
    assert_eq!(resp.phase(), HandshakePhase::Complete);
}

#[test]
fn completed_engines_agree_on_keys() {
    let (mut init, resp, _m1, msg2) = run_handshake([0u8; 32], [0u8; 32]);
    init.process_inbound(&msg2).unwrap();
    let mut itx = init.into_session();
    let mut rtx = resp.into_session();

    // initiator to responder
    let frame = itx.encrypt(b"hello").expect("encrypt succeeds");
    assert_eq!(frame.nonce, 0);
    assert_eq!(frame.ciphertext.len(), 5 + 16);
    assert_eq!(rtx.decrypt(&frame).expect("responder opens it"), b"hello".to_vec());

    // responder to initiator
    let back = rtx.encrypt(b"welcome").expect("encrypt succeeds");
    assert_eq!(itx.decrypt(&back).expect("initiator opens it"), b"welcome".to_vec());
}

#[test]
fn send_and_receive_keys_differ() {
    // the initiator cannot open a frame it sealed itself: the two directions
    // of the split carry different keys
    let (mut init, _resp, _m1, msg2) = run_handshake([0u8; 32], [0u8; 32]);
    init.process_inbound(&msg2).unwrap();
    let mut itx = init.into_session();
    let frame = itx.encrypt(b"hello").unwrap();
    assert_eq!(itx.decrypt(&frame), Err(KScopeError::AuthFailed));
}

#[test]
fn psk_mismatch_fails_at_message_two() {
    // message 1 carries no preshared-key material in this pattern, so the
    // responder consumes it; the initiator then refuses the responder's
    // message 2, whose authenticator was keyed with the other preshared key
    let (mut init, resp, _m1, msg2) = run_handshake([0u8; 32], [1u8; 32]);
    assert!(resp.is_complete());
    assert_eq!(init.process_inbound(&msg2), Err(KScopeError::AuthFailed));
    assert_eq!(init.phase(), HandshakePhase::Failed);
    assert!(!init.is_complete());
}

#[test]
fn wrong_responder_static_fails_at_message_one() {
    let ikeys = KeyPair::generate();
    let rkeys = KeyPair::generate();
    let other = KeyPair::generate();
    let psk = [0u8; 32];
    // the initiator encrypts against a key that is not the responder's
    let mut init = Handshake::new_initiator(&ikeys.private, &other.public, &psk).unwrap();
    let mut resp = Handshake::new_responder(&rkeys.private, &psk).unwrap();
    let msg1 = init.next_outbound().unwrap();
    assert_eq!(resp.process_inbound(&msg1), Err(KScopeError::AuthFailed));
    assert_eq!(resp.phase(), HandshakePhase::Failed);
    assert!(!resp.is_complete());
}

#[test]
fn rewritten_handshake_byte_fails() {
    let ikeys = KeyPair::generate();
    let rkeys = KeyPair::generate();
    let psk = [7u8; 32];
    let mut init = Handshake::new_initiator(&ikeys.private, &rkeys.public, &psk).unwrap();
    let mut resp = Handshake::new_responder(&rkeys.private, &psk).unwrap();
    let mut msg1 = init.next_outbound().unwrap();
    msg1[40] ^= 0x80;
    let e = resp.process_inbound(&msg1).expect_err("tampered message refused");
    assert!(e == KScopeError::AuthFailed || e == KScopeError::MalformedFrame);
    assert_eq!(resp.phase(), HandshakePhase::Failed);
}

#[test]
fn truncated_handshake_message_fails() {
    let (_init, _resp, msg1, _m2) = run_handshake([0u8; 32], [0u8; 32]);
    let rkeys = KeyPair::generate();
    let mut resp = Handshake::new_responder(&rkeys.private, &[0u8; 32]).unwrap();
    let e = resp.process_inbound(&msg1[..40]).expect_err("truncated message refused");
    assert!(e == KScopeError::AuthFailed || e == KScopeError::MalformedFrame);
    assert_eq!(resp.phase(), HandshakePhase::Failed);
}

#[test]
fn engine_refuses_input_it_does_not_expect() {
    let ikeys = KeyPair::generate();
    let rkeys = KeyPair::generate();
    let psk = [0u8; 32];
    // a fresh initiator owes message 1 and expects nothing inbound
    let mut init = Handshake::new_initiator(&ikeys.private, &rkeys.public, &psk).unwrap();
    assert_eq!(init.process_inbound(&[0; 96]), Err(KScopeError::InvalidState));
    assert_eq!(init.phase(), HandshakePhase::Init);
}

#[test]
fn engine_with_no_message_pending_writes_nothing() {
    let ikeys = KeyPair::generate();
    let rkeys = KeyPair::generate();
    let psk = [0u8; 32];
    let mut init = Handshake::new_initiator(&ikeys.private, &rkeys.public, &psk).unwrap();
    let _msg1 = init.next_outbound().unwrap();
    // awaiting the reply: nothing to write
    assert!(init.next_outbound().unwrap().is_empty());
    let mut resp = Handshake::new_responder(&rkeys.private, &psk).unwrap();
    // the responder writes nothing before it has read message 1
    assert!(resp.next_outbound().unwrap().is_empty());
}

#[test]
fn dead_engine_refuses_everything() {
    let (mut init, _resp, _m1, msg2) = run_handshake([0u8; 32], [1u8; 32]);
    assert_eq!(init.process_inbound(&msg2), Err(KScopeError::AuthFailed));
    // after the failure the engine is a dead end
    assert_eq!(init.next_outbound(), Err(KScopeError::InvalidState));
    assert_eq!(init.phase(), HandshakePhase::Failed);
}
