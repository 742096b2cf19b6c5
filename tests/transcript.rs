use ecdh_key_exchange::transcript::HashTranscript;
use ring::digest::{digest, SHA256};

fn sha256(data: &[u8]) -> Vec<u8> {
    digest(&SHA256, data).as_ref().to_vec()
}

#[test]
fn new_transcript_is_hash_of_empty_input() {
    let t = HashTranscript::new();
    assert_eq!(
        hex::encode(t.as_bytes()),
        "e3b0c44298fc1c149afbf4c8996fb92427ae41e4649b934ca495991b7852b855"
    );
}

#[test]
fn append_hashes_old_digest_then_bytes() {
    let mut t = HashTranscript::new();
    let d0 = t.as_bytes().to_vec();
    t.append(b"abc");
    let mut expected_input = d0.clone();
    expected_input.extend_from_slice(b"abc");
    assert_eq!(t.as_bytes(), sha256(&expected_input).as_slice());
    assert_eq!(t.as_bytes().len(), 32);
}

#[test]
fn transcript_is_order_sensitive() {
    let mut ab = HashTranscript::new();
    ab.append(b"A");
    ab.append(b"B");
    let mut ba = HashTranscript::new();
    ba.append(b"B");
    ba.append(b"A");
    assert_ne!(ab.as_bytes(), ba.as_bytes());
}

#[test]
fn transcript_is_deterministic() {
    let mut x = HashTranscript::new();
    let mut y = HashTranscript::new();
    for m in [&b"one"[..], b"", b"three"] {
        x.append(m);
        y.append(m);
    }
    assert_eq!(x.as_bytes(), y.as_bytes());
}

#[test]
fn appending_empty_bytes_still_changes_digest() {
    let mut t = HashTranscript::new();
    let d0 = t.as_bytes().to_vec();
    t.append(b"");
    assert_eq!(t.as_bytes(), sha256(&d0).as_slice());
    assert_ne!(t.as_bytes(), d0.as_slice());
}
