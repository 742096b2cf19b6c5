use std::collections::HashSet;

use ecdh_key_exchange::aead::{AeadDecrypter, AeadEncrypter, AeadError, CounterNonceSequence};
use ring::aead::{Aad, LessSafeKey, Nonce, UnboundKey, AES_256_GCM};

const KEY: [u8; 32] = [7u8; 32];

fn counter_nonce(c: u32) -> [u8; 12] {
    let mut n = [0u8; 12];
    n[8..].copy_from_slice(&c.to_be_bytes());
    n
}

#[test]
fn nonce_is_zero_prefix_then_big_endian_counter() {
    let mut seq = CounterNonceSequence::new(0x01020304);
    assert_eq!(seq.advance().unwrap(), vec![0, 0, 0, 0, 0, 0, 0, 0, 1, 2, 3, 4]);
    assert_eq!(seq.advance().unwrap(), vec![0, 0, 0, 0, 0, 0, 0, 0, 1, 2, 3, 5]);
}

#[test]
fn nonces_never_repeat_up_to_bound() {
    let mut seq = CounterNonceSequence::new(1);
    let mut seen = HashSet::new();
    for _ in 0..5000 {
        assert!(seen.insert(seq.advance().unwrap()));
    }
}

#[test]
fn nonce_counter_exhaustion() {
    let mut seq = CounterNonceSequence::new(u32::MAX - 1);
    assert_eq!(seq.advance().unwrap(), counter_nonce(u32::MAX - 1).to_vec());
    assert_eq!(seq.advance(), Err(AeadError::NonceExhausted));
    assert_eq!(seq.advance(), Err(AeadError::NonceExhausted));
}

#[test]
fn seal_matches_aes_256_gcm_with_counter_nonce() {
    let mut enc = AeadEncrypter::new(&KEY);
    let c1 = enc.encrypt(b"Hello 1", b"aad").unwrap();
    let c2 = enc.encrypt(b"Hello 1", b"aad").unwrap();
    for (c, counter) in [(c1.clone(), 1u32), (c2.clone(), 2u32)] {
        let key = LessSafeKey::new(UnboundKey::new(&AES_256_GCM, &KEY).unwrap());
        let mut expected = b"Hello 1".to_vec();
        key.seal_in_place_append_tag(
            Nonce::assume_unique_for_key(counter_nonce(counter)),
            Aad::from(b"aad"),
            &mut expected,
        )
        .unwrap();
        assert_eq!(c, expected);
    }
    assert_eq!(c1.len(), 7 + 16);
    assert_ne!(c1, c2);
}

#[test]
fn open_reverses_seal() {
    let mut enc = AeadEncrypter::new(&KEY);
    let mut dec = AeadDecrypter::new(&KEY);
    for pt in [&b""[..], b"x", b"Hello 1", &[0u8; 300][..]] {
        let c = enc.encrypt(pt, b"digest").unwrap();
        assert_eq!(dec.decrypt(&c, b"digest").unwrap(), pt.to_vec());
    }
}

#[test]
fn tampering_any_byte_fails_authentication() {
    let mut enc = AeadEncrypter::new(&KEY);
    let c = enc.encrypt(b"Hello 1", b"digest").unwrap();
    for i in 0..c.len() {
        let mut bad = c.clone();
        bad[i] ^= 0x01;
        let mut dec = AeadDecrypter::new(&KEY);
        assert_eq!(dec.decrypt(&bad, b"digest"), Err(AeadError::AuthenticationFailed));
    }
}

#[test]
fn wrong_associated_data_fails() {
    let mut enc = AeadEncrypter::new(&KEY);
    let mut dec = AeadDecrypter::new(&KEY);
    let c = enc.encrypt(b"Hello 1", b"digest A").unwrap();
    assert_eq!(dec.decrypt(&c, b"digest B"), Err(AeadError::AuthenticationFailed));
}

#[test]
fn out_of_step_counter_fails() {
    let mut enc = AeadEncrypter::new(&KEY);
    let mut dec = AeadDecrypter::new(&KEY);
    let _first = enc.encrypt(b"one", b"").unwrap();
    let second = enc.encrypt(b"two", b"").unwrap();
    assert_eq!(dec.decrypt(&second, b""), Err(AeadError::AuthenticationFailed));
}

#[test]
fn wrong_key_fails() {
    let mut enc = AeadEncrypter::new(&KEY);
    let mut dec = AeadDecrypter::new(&[8u8; 32]);
    let c = enc.encrypt(b"Hello 1", b"").unwrap();
    assert_eq!(dec.decrypt(&c, b""), Err(AeadError::AuthenticationFailed));
}

#[test]
fn too_short_ciphertext_fails() {
    let mut dec = AeadDecrypter::new(&KEY);
    assert_eq!(dec.decrypt(&[0u8; 5], b""), Err(AeadError::AuthenticationFailed));
}
