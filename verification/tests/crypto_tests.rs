use kscope::crypto::{blake3_hash, decrypt, encrypt, hkdf, nonce_bytes, CryptoError};

#[test]
fn aead_round_trip() {
    let key = [7u8; 32];
    let pt = b"attack at dawn";
    let ct = encrypt(&key, 3, pt, &[]).expect("sealing succeeds");
    assert_eq!(ct.len(), pt.len() + 16);
    let back = decrypt(&key, 3, &ct, &[]).expect("opening the sealed bytes succeeds");
    assert_eq!(back, pt.to_vec());
}

#[test]
fn aead_empty_plaintext_round_trip() {
    let key = [0u8; 32];
    let ct = encrypt(&key, 0, &[], &[]).expect("sealing nothing succeeds");
    assert_eq!(ct.len(), 16);
    let back = decrypt(&key, 0, &ct, &[]).expect("opening succeeds");
    assert!(back.is_empty());
}

#[test]
fn aead_rejects_flipped_bit() {
    let key = [9u8; 32];
    let ct = encrypt(&key, 1, b"payload", &[]).unwrap();
    for i in 0..ct.len() {
        let mut bad = ct.clone();
        bad[i] ^= 0x01;
        assert_eq!(decrypt(&key, 1, &bad, &[]), Err(CryptoError::DecryptionFailed));
    }
}

#[test]
fn aead_rejects_wrong_nonce_and_key() {
    let key = [9u8; 32];
    let ct = encrypt(&key, 1, b"payload", &[]).unwrap();
    assert_eq!(decrypt(&key, 2, &ct, &[]), Err(CryptoError::DecryptionFailed));
    let other = [10u8; 32];
    assert_eq!(decrypt(&other, 1, &ct, &[]), Err(CryptoError::DecryptionFailed));
}

#[test]
fn aead_rejects_short_ciphertext() {
    let key = [1u8; 32];
    assert_eq!(decrypt(&key, 0, b"short", &[]), Err(CryptoError::DecryptionFailed));
}

#[test]
fn aead_nonce_construction_is_zero_prefix_then_big_endian() {
    assert_eq!(
        nonce_bytes(0x0102030405060708),
        vec![0, 0, 0, 0, 0x01, 0x02, 0x03, 0x04, 0x05, 0x06, 0x07, 0x08]
    );
    // the counter changes the sealed bytes, so the nonce really reaches the cipher
    let key = [4u8; 32];
    let a = encrypt(&key, 0, b"x", &[]).unwrap();
    let b = encrypt(&key, 1, b"x", &[]).unwrap();
    assert_ne!(a, b);
}

#[test]
fn blake3_hash_of_empty_input_matches_known_digest() {
    let expected: [u8; 32] = [
        0xaf, 0x13, 0x49, 0xb9, 0xf5, 0xf9, 0xa1, 0xa6, 0xa0, 0x40, 0x4d, 0xea, 0x36, 0xdc, 0xc9,
        0x49, 0x9b, 0xcb, 0x25, 0xc9, 0xad, 0xc1, 0x12, 0xb7, 0xcc, 0x9a, 0x93, 0xca, 0xe4, 0x1f,
        0x32, 0x62,
    ];
    assert_eq!(blake3_hash(&[]), expected.to_vec());
}

#[test]
fn blake3_hash_differs_per_input() {
    assert_ne!(blake3_hash(b"a"), blake3_hash(b"b"));
    assert_eq!(blake3_hash(b"a").len(), 32);
}

#[test]
fn hkdf_matches_the_keyed_hash_chain() {
    let ck = [0x42u8; 32];
    let ikm = b"input key material";
    let out = hkdf(&ck, ikm, 3);
    assert_eq!(out.len(), 3);

    // first output: keyed hash of ikm and the index byte 0
    let mut data0 = ikm.to_vec();
    data0.push(0);
    let expect0 = blake3::keyed_hash(&ck, &data0);
    assert_eq!(out[0], expect0.as_bytes().to_vec());

    // second output: keyed hash of the first output, ikm, and the index byte 1
    let mut data1 = out[0].clone();
    data1.extend_from_slice(ikm);
    data1.push(1);
    let expect1 = blake3::keyed_hash(&ck, &data1);
    assert_eq!(out[1], expect1.as_bytes().to_vec());

    // third output follows the same chain
    let mut data2 = out[1].clone();
    data2.extend_from_slice(ikm);
    data2.push(2);
    let expect2 = blake3::keyed_hash(&ck, &data2);
    assert_eq!(out[2], expect2.as_bytes().to_vec());
}

#[test]
fn hkdf_outputs_are_distinct() {
    let ck = [1u8; 32];
    let out = hkdf(&ck, b"ikm", 2);
    assert_eq!(out.len(), 2);
    assert_eq!(out[0].len(), 32);
    assert_eq!(out[1].len(), 32);
    assert_ne!(out[0], out[1]);
}

#[test]
fn generated_keypairs_are_well_formed_and_distinct() {
    let a = kscope::keys::KeyPair::generate();
    let b = kscope::keys::KeyPair::generate();
    assert_eq!(a.private.len(), 32);
    assert_eq!(a.public.len(), 32);
    assert_ne!(a.private, b.private);
    assert_ne!(a.public, b.public);
    // the public key is the Curve25519 public key of the secret
    let mut sk = [0u8; 32];
    sk.copy_from_slice(&a.private);
    let pk = x25519_dalek::PublicKey::from(&x25519_dalek::StaticSecret::from(sk));
    assert_eq!(a.public, pk.as_bytes().to_vec());
}
