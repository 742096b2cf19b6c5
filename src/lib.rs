//! A forward-secret channel between two peers: an ephemeral X25519 key
//! exchange, HKDF-derived directional session keys, AES-256-GCM framing with a
//! counter nonce, and a running SHA-256 transcript used as associated data.
pub mod aead;
pub mod bytes;
pub mod ecdh;
pub mod session;
pub mod transcript;
