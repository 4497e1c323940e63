use kscope::codec::TransportData;
use kscope::transport::{Role, SecureTransport, SessionKeys};
use kscope::KScopeError;

fn sender() -> SecureTransport {
    // initiator side of a fixed key split
    SecureTransport::new(SessionKeys::from_split(
        Role::Initiator,
        vec![0x11; 32],
        vec![0x22; 32],
    ))
}

fn receiver() -> SecureTransport {
    // responder side of the same split: its receive key is the sender's send key
    SecureTransport::new(SessionKeys::from_split(
        Role::Responder,
        vec![0x11; 32],
        vec![0x22; 32],
    ))
}

#[test]
fn send_nonces_count_up_from_zero() {
    let mut tx = sender();
    for expected in 0u64..10 {
        let frame = tx.encrypt(b"payload").expect("encrypt succeeds");
        assert_eq!(frame.nonce, expected);
    }
}

#[test]
fn single_packet_round_trip() {
    let mut tx = sender();
    let mut rx = receiver();
    let frame = tx.encrypt(b"hello").expect("encrypt succeeds");
    assert_eq!(frame.nonce, 0);
    assert_eq!(frame.ciphertext.len(), 5 + 16);
    let plain = rx.decrypt(&frame).expect("decrypt succeeds");
    assert_eq!(plain, b"hello".to_vec());
}

#[test]
fn sender_cannot_open_its_own_frame() {
    // the two directions use different keys, so the sender's receive key
    // does not open what its send key sealed
    let mut tx = sender();
    let frame = tx.encrypt(b"hello").unwrap();
    assert_eq!(tx.decrypt(&frame), Err(KScopeError::AuthFailed));
}

#[test]
fn reorder_within_window_accepted_once_each() {
    let mut tx = sender();
    let mut rx = receiver();
    let f0 = tx.encrypt(b"zero").unwrap();
    let f1 = tx.encrypt(b"one").unwrap();
    let f2 = tx.encrypt(b"two").unwrap();
    assert_eq!(rx.decrypt(&f2).expect("nonce 2 first"), b"two".to_vec());
    assert_eq!(rx.decrypt(&f0).expect("nonce 0 out of order"), b"zero".to_vec());
    assert_eq!(rx.decrypt(&f1).expect("nonce 1 out of order"), b"one".to_vec());
    assert_eq!(rx.decrypt(&f1), Err(KScopeError::ReplayDuplicate));
}

#[test]
fn replay_of_every_accepted_nonce_is_rejected() {
    let mut tx = sender();
    let mut rx = receiver();
    let mut frames = Vec::new();
    for _ in 0..20 {
        frames.push(tx.encrypt(b"data").unwrap());
    }
    for f in &frames {
        rx.decrypt(f).expect("first submission accepted");
    }
    for f in &frames {
        let e = rx.decrypt(f).expect_err("second submission rejected");
        assert!(e == KScopeError::ReplayDuplicate || e == KScopeError::ReplayOld);
    }
}

#[test]
fn replay_far_past_is_rejected_as_old() {
    let mut tx = sender();
    let mut rx = receiver();
    let mut frames = Vec::new();
    for _ in 0..=2000 {
        frames.push(tx.encrypt(b"data").unwrap());
    }
    // the highest accepted nonce becomes 2000
    rx.decrypt(&frames[2000]).expect("nonce 2000 accepted");
    // nonce 900 is 1024 or more below it, replayed or not
    assert_eq!(rx.decrypt(&frames[900]), Err(KScopeError::ReplayOld));
    // a nonce still inside the window is accepted
    rx.decrypt(&frames[1500]).expect("nonce 1500 in window");
}

#[test]
fn tampered_ciphertext_fails_auth_and_leaves_window_unchanged() {
    let mut tx = sender();
    let mut rx = receiver();
    let frame = tx.encrypt(b"hello").unwrap();
    for i in 0..frame.ciphertext.len() {
        for bit in 0..8 {
            let mut bad = frame.ciphertext.clone();
            bad[i] ^= 1u8 << bit;
            let forged = TransportData::new(frame.nonce, bad);
            assert_eq!(rx.decrypt(&forged), Err(KScopeError::AuthFailed));
        }
    }
    // no forgery moved the window: the genuine frame is still fresh
    assert_eq!(rx.decrypt(&frame).expect("genuine frame accepted"), b"hello".to_vec());
}

#[test]
fn flipped_nonce_fails_auth() {
    let mut tx = sender();
    let mut rx = receiver();
    let frame = tx.encrypt(b"hello").unwrap();
    for bit in 0..64 {
        let forged = TransportData::new(frame.nonce ^ (1u64 << bit), frame.ciphertext.clone());
        assert_eq!(rx.decrypt(&forged), Err(KScopeError::AuthFailed));
    }
    assert_eq!(rx.decrypt(&frame).expect("genuine frame accepted"), b"hello".to_vec());
}

#[test]
fn key_direction_agreement_of_the_split() {
    let i = SessionKeys::from_split(Role::Initiator, vec![1; 32], vec![2; 32]);
    let r = SessionKeys::from_split(Role::Responder, vec![1; 32], vec![2; 32]);
    assert_eq!(i.send, r.recv);
    assert_eq!(i.recv, r.send);
}
