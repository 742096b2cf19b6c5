use ecdh_key_exchange::ecdh::{derive_session_keys, EcdhEphemeralKeyExchange, KeyExchangeError};
use ring::hmac;

fn exchange() -> (
    EcdhEphemeralKeyExchange,
    EcdhEphemeralKeyExchange,
    (Vec<u8>, Vec<u8>),
    (Vec<u8>, Vec<u8>),
) {
    let mut client = EcdhEphemeralKeyExchange::new_client();
    let mut server = EcdhEphemeralKeyExchange::new_server();
    let client_pub = client.start().unwrap();
    let server_pub = server.start().unwrap();
    assert_eq!(client_pub.len(), 32);
    assert_eq!(server_pub.len(), 32);
    let client_keys = client.finish(&server_pub).unwrap();
    let server_keys = server.finish(&client_pub).unwrap();
    (client, server, client_keys, server_keys)
}

#[test]
fn both_peers_derive_the_same_keys() {
    let (client, server, client_keys, server_keys) = exchange();
    assert_eq!(client_keys, server_keys);
    assert_eq!(client_keys.0.len(), 32);
    assert_eq!(client_keys.1.len(), 32);
    assert_ne!(client_keys.0, client_keys.1);
    assert_eq!(client.client_pub_key(), server.client_pub_key());
    assert_eq!(client.server_pub_key(), server.server_pub_key());
    assert_ne!(client.client_pub_key(), client.server_pub_key());
}

#[test]
fn fresh_exchanges_give_fresh_keys() {
    let (_, _, first, _) = exchange();
    let (_, _, second, _) = exchange();
    assert_ne!(first.0, second.0);
    assert_ne!(first.1, second.1);
}

#[test]
fn public_keys_unknown_before_exchange_completes() {
    let mut client = EcdhEphemeralKeyExchange::new_client();
    assert_eq!(client.client_pub_key(), None);
    assert_eq!(client.server_pub_key(), None);
    client.start().unwrap();
    assert_eq!(client.client_pub_key(), None);
    assert_eq!(client.server_pub_key(), None);
}

#[test]
fn finish_without_start_fails() {
    let mut server = EcdhEphemeralKeyExchange::new_server();
    assert_eq!(server.finish(&[9u8; 32]), Err(KeyExchangeError::MissingEphemeralKey));
}

#[test]
fn ephemeral_key_is_single_use() {
    let mut client = EcdhEphemeralKeyExchange::new_client();
    let mut server = EcdhEphemeralKeyExchange::new_server();
    client.start().unwrap();
    let server_pub = server.start().unwrap();
    client.finish(&server_pub).unwrap();
    assert_eq!(client.finish(&server_pub), Err(KeyExchangeError::MissingEphemeralKey));
}

#[test]
fn short_peer_key_is_truncated() {
    let mut client = EcdhEphemeralKeyExchange::new_client();
    client.start().unwrap();
    assert_eq!(client.finish(&[1u8; 31]), Err(KeyExchangeError::TruncatedPeerKey));
    assert_eq!(client.finish(&[]), Err(KeyExchangeError::TruncatedPeerKey));
}

#[test]
fn long_peer_key_is_refused() {
    let mut client = EcdhEphemeralKeyExchange::new_client();
    client.start().unwrap();
    assert_eq!(client.finish(&[1u8; 33]), Err(KeyExchangeError::KeyAgreementFailed));
}

#[test]
fn small_order_peer_key_fails_agreement() {
    let mut client = EcdhEphemeralKeyExchange::new_client();
    client.start().unwrap();
    assert_eq!(client.finish(&[0u8; 32]), Err(KeyExchangeError::KeyAgreementFailed));
    let mut one = [0u8; 32];
    one[0] = 1;
    let mut server = EcdhEphemeralKeyExchange::new_server();
    server.start().unwrap();
    assert_eq!(server.finish(&one), Err(KeyExchangeError::KeyAgreementFailed));
}

#[test]
fn arbitrary_peer_key_still_agrees() {
    let mut client = EcdhEphemeralKeyExchange::new_client();
    let local = client.start().unwrap();
    let keys = client.finish(&[0xabu8; 32]).unwrap();
    assert_eq!(keys.0.len(), 32);
    assert_eq!(client.client_pub_key(), Some(local));
    assert_eq!(client.server_pub_key(), Some(vec![0xabu8; 32]));
}

#[test]
fn derive_session_keys_is_hkdf_sha256_over_client_then_server_key() {
    let secret = [3u8; 32];
    let client_pub = [1u8; 32];
    let server_pub = [2u8; 32];
    let (c2s, s2c) = derive_session_keys(&secret, &client_pub, &server_pub);
    // HKDF by hand (RFC 5869) with HMAC-SHA256: an empty salt is a zero key.
    let salt = hmac::Key::new(hmac::HMAC_SHA256, &[0u8; 32]);
    let prk = hmac::Key::new(hmac::HMAC_SHA256, hmac::sign(&salt, &secret).as_ref());
    let mut info = client_pub.to_vec();
    info.extend_from_slice(&server_pub);
    let mut t1_input = info.clone();
    t1_input.push(1);
    let t1 = hmac::sign(&prk, &t1_input).as_ref().to_vec();
    let mut t2_input = t1.clone();
    t2_input.extend_from_slice(&info);
    t2_input.push(2);
    let t2 = hmac::sign(&prk, &t2_input).as_ref().to_vec();
    let mut expected = t1.clone();
    expected.extend_from_slice(&t2);
    assert_eq!(c2s, expected[..32].to_vec());
    assert_eq!(s2c, expected[32..].to_vec());
    let (swapped, _) = derive_session_keys(&secret, &server_pub, &client_pub);
    assert_ne!(swapped, c2s);
}
