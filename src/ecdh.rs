//! The ephemeral X25519 key exchange and the derivation of the two directional
//! session keys.
use crate::bytes::concat_bytes;
use ring::agreement::{agree_ephemeral, EphemeralPrivateKey, UnparsedPublicKey, X25519};
use ring::error::Unspecified;
use ring::hkdf::{KeyType, Salt, HKDF_SHA256, HKDF_SHA512};
use ring::rand::SystemRandom;
use vstd::prelude::*;

verus! {

#[verifier::external_type_specification]
#[verifier::external_body]
pub struct ExEphemeralPrivateKey(EphemeralPrivateKey);

/// Length of an X25519 public key, and of a shared secret.
pub const PUBLIC_KEY_LEN: usize = 32;

/// Length of each directional session key: one SHA-256 output.
pub const SESSION_KEY_LEN: usize = 32;

/// HKDF-SHA256 output keying material of 64 bytes (twice SHA-256's output) for
/// salt `salt`, input keying material `secret` and context `info`.
pub uninterp spec fn hkdf_sha256_64_of(salt: Seq<u8>, secret: Seq<u8>, info: Seq<u8>) -> Seq<u8>;

/// Relies on ring's HKDF (`Salt::new` with `HKDF_SHA256`, `extract`, `expand`,
/// `Okm::fill`). The output length is taken from `HKDF_SHA512` as a `KeyType`,
/// whose length is SHA-512's output, 64 bytes; the HMAC stays SHA-256. `expand`
/// and `fill` fail only for lengths above 255 * 32, so this one succeeds.
#[verifier::external_body]
fn hkdf_sha256_64(salt: &[u8], secret: &[u8], info: &[u8]) -> (r: Result<Vec<u8>, Unspecified>)
    ensures
        r is Ok,
        r matches Ok(okm) ==> okm@ == hkdf_sha256_64_of(salt@, secret@, info@),
        r matches Ok(okm) ==> okm@.len() == 2 * SESSION_KEY_LEN,
{
    let prk = Salt::new(HKDF_SHA256, salt).extract(secret);
    let info = [info];
    let okm = prk.expand(&info, HKDF_SHA512)?;
    let mut out = vec![0u8; HKDF_SHA512.len()];
    okm.fill(&mut out)?;
    Ok(out)
}

/// The two session keys (client to server, server to client) derived from a
/// shared secret: HKDF-SHA256 with an empty salt and the client's public key
/// followed by the server's as context, split in two halves.
pub open spec fn session_keys_from(secret: Seq<u8>, client_pub: Seq<u8>, server_pub: Seq<u8>) -> (
    Seq<u8>,
    Seq<u8>,
) {
    let okm = hkdf_sha256_64_of(Seq::empty(), secret, client_pub + server_pub);
    (okm.subrange(0, 32), okm.subrange(32, 64))
}

/// Derives the session keys from a shared secret; see `session_keys_from`.
pub fn derive_session_keys(secret: &[u8], client_pub: &[u8], server_pub: &[u8]) -> (r: (
    Vec<u8>,
    Vec<u8>,
))
    ensures
        (r.0@, r.1@) == session_keys_from(secret@, client_pub@, server_pub@),
        r.0@.len() == SESSION_KEY_LEN,
        r.1@.len() == SESSION_KEY_LEN,
{
    let salt: Vec<u8> = Vec::new();
    let context = concat_bytes(client_pub, server_pub);
    let mut first = hkdf_sha256_64(salt.as_slice(), secret, context.as_slice()).unwrap();
    assert(salt@ =~= Seq::<u8>::empty());
    let second = first.split_off(SESSION_KEY_LEN);
    (first, second)
}

/// Relies on ring's `EphemeralPrivateKey::generate` for X25519, drawing from
/// `SystemRandom`. Nothing is known of the key drawn.
#[verifier::external_body]
fn generate_x25519_key() -> (r: Result<EphemeralPrivateKey, Unspecified>) {
    EphemeralPrivateKey::generate(&X25519, &SystemRandom::new())
}

/// Relies on ring's `EphemeralPrivateKey::compute_public_key`: an X25519 public
/// key is 32 bytes.
#[verifier::external_body]
fn x25519_public_key(private_key: &EphemeralPrivateKey) -> (r: Result<Vec<u8>, Unspecified>)
    ensures
        r matches Ok(p) ==> p@.len() == PUBLIC_KEY_LEN,
{
    let public_key = private_key.compute_public_key()?;
    Ok(public_key.as_ref().to_vec())
}

/// Relies on ring's `agree_ephemeral` with X25519: it consumes the private
/// key, rejects a peer key that is not 32 bytes or gives the all-zero secret,
/// and otherwise hands the 32-byte shared secret to the closure, whose result it
/// returns. The closure derives the session keys, so the secret never leaves it.
#[verifier::external_body]
fn x25519_agree_and_derive(
    private_key: EphemeralPrivateKey,
    peer_public_key: &[u8],
    client_pub: &[u8],
    server_pub: &[u8],
) -> (r: Result<(Vec<u8>, Vec<u8>), Unspecified>)
    ensures
        r matches Ok(keys) ==> {
            &&& exists|secret: Seq<u8>|
                secret.len() == PUBLIC_KEY_LEN && #[trigger] session_keys_from(
                    secret,
                    client_pub@,
                    server_pub@,
                ) == (keys.0@, keys.1@)
            &&& keys.0@.len() == SESSION_KEY_LEN
            &&& keys.1@.len() == SESSION_KEY_LEN
        },
{
    let peer = UnparsedPublicKey::new(&X25519, peer_public_key);
    agree_ephemeral(private_key, &peer, |secret| derive_session_keys(secret, client_pub, server_pub))
}

/// Which side of the exchange runs locally. The initiator is the client.
#[derive(Debug, Clone, Copy, PartialEq, Eq, Structural)]
pub enum Actor {
    Initiator,
    Responder,
}

/// Why a key exchange failed. Every failure is fatal to the session.
#[derive(Debug, Clone, Copy, PartialEq, Eq, Structural)]
pub enum KeyExchangeError {
    /// The stream failed while sending or receiving a public key.
    IoFailure,
    /// The stream ended before 32 bytes of the peer's public key came in.
    TruncatedPeerKey,
    /// Key generation or agreement failed, for instance on an invalid peer key.
    KeyAgreementFailed,
    /// No unused ephemeral key is held: `start` was not called, or its key
    /// was already spent.
    MissingEphemeralKey,
}

/// One ephemeral-ephemeral X25519 exchange. `start` draws a key pair and gives
/// the public key to send; `finish` takes the peer's public key, agrees on a
/// shared secret, spends the private key and derives the session keys. Both
/// public keys are then kept, and can be asked for by role.
pub struct EcdhEphemeralKeyExchange {
    actor: Actor,
    ephemeral: Option<(EphemeralPrivateKey, Vec<u8>)>,
    pub_key: Option<Vec<u8>>,
    peer_pub_key: Option<Vec<u8>>,
}

impl EcdhEphemeralKeyExchange {
    pub closed spec fn actor(&self) -> Actor {
        self.actor
    }

    /// The public key of the unspent ephemeral key pair, if one is held.
    pub closed spec fn pending_key(&self) -> Option<Seq<u8>> {
        match self.ephemeral {
            Some(e) => Some(e.1@),
            None => None,
        }
    }

    /// The local public key used in the completed exchange.
    pub closed spec fn local_key(&self) -> Option<Seq<u8>> {
        match self.pub_key {
            Some(k) => Some(k@),
            None => None,
        }
    }

    /// The peer's public key received in the exchange.
    pub closed spec fn peer_key(&self) -> Option<Seq<u8>> {
        match self.peer_pub_key {
            Some(k) => Some(k@),
            None => None,
        }
    }

    /// The client's public key: the local one on the initiator, the peer's on
    /// the responder.
    pub open spec fn client_key(&self) -> Option<Seq<u8>> {
        match self.actor() {
            Actor::Initiator => self.local_key(),
            Actor::Responder => self.peer_key(),
        }
    }

    /// The server's public key: the peer's on the initiator, the local one on
    /// the responder.
    pub open spec fn server_key(&self) -> Option<Seq<u8>> {
        match self.actor() {
            Actor::Initiator => self.peer_key(),
            Actor::Responder => self.local_key(),
        }
    }

    pub fn new_client() -> (r: Self)
        ensures
            r.actor() == Actor::Initiator,
            r.pending_key() is None,
            r.local_key() is None,
            r.peer_key() is None,
    {
        Self::new(Actor::Initiator)
    }

    pub fn new_server() -> (r: Self)
        ensures
            r.actor() == Actor::Responder,
            r.pending_key() is None,
            r.local_key() is None,
            r.peer_key() is None,
    {
        Self::new(Actor::Responder)
    }

    fn new(actor: Actor) -> (r: Self)
        ensures
            r.actor() == actor,
            r.pending_key() is None,
            r.local_key() is None,
            r.peer_key() is None,
    {
        EcdhEphemeralKeyExchange { actor, ephemeral: None, pub_key: None, peer_pub_key: None }
    }

    pub fn actor_is_initiator(&self) -> (r: bool)
        ensures
            r == (self.actor() == Actor::Initiator),
    {
        match self.actor {
            Actor::Initiator => true,
            Actor::Responder => false,
        }
    }

    /// The client's public key, once the exchange has completed.
    pub fn client_pub_key(&self) -> (r: Option<Vec<u8>>)
        ensures
            match r {
                Some(k) => self.client_key() == Some(k@),
                None => self.client_key() is None,
            },
    {
        match self.actor {
            Actor::Initiator => self.pub_key.clone(),
            Actor::Responder => self.peer_pub_key.clone(),
        }
    }

    /// The server's public key, once the exchange has completed.
    pub fn server_pub_key(&self) -> (r: Option<Vec<u8>>)
        ensures
            match r {
                Some(k) => self.server_key() == Some(k@),
                None => self.server_key() is None,
            },
    {
        match self.actor {
            Actor::Initiator => self.peer_pub_key.clone(),
            Actor::Responder => self.pub_key.clone(),
        }
    }

    /// Draws a fresh ephemeral key pair, keeps it, and returns its public key,
    /// which is what goes on the wire. A key pair drawn earlier and not yet
    /// spent is dropped.
    pub fn start(&mut self) -> (r: Result<Vec<u8>, KeyExchangeError>)
        ensures
            final(self).actor() == old(self).actor(),
            final(self).local_key() == old(self).local_key(),
            final(self).peer_key() == old(self).peer_key(),
            match r {
                Ok(p) => p@.len() == PUBLIC_KEY_LEN && final(self).pending_key() == Some(p@),
                Err(e) => e == KeyExchangeError::KeyAgreementFailed && final(self).pending_key()
                    == old(self).pending_key(),
            },
    {
        let private_key = match generate_x25519_key() {
            Ok(k) => k,
            Err(_) => return Err(KeyExchangeError::KeyAgreementFailed),
        };
        let public_key = match x25519_public_key(&private_key) {
            Ok(p) => p,
            Err(_) => return Err(KeyExchangeError::KeyAgreementFailed),
        };
        self.ephemeral = Some((private_key, public_key.clone()));
        Ok(public_key)
    }

    /// Completes the exchange with the peer's public key: records both public
    /// keys by role, spends the ephemeral private key on the agreement and
    /// returns the session keys (client to server, server to client).
    ///
    /// A 32-byte peer key that is not a valid point (one of small order,
    /// which gives the all-zero secret) fails with `KeyAgreementFailed`; any
    /// other 32 bytes are accepted, as X25519 allows.
    pub fn finish(&mut self, peer_public_key: &[u8]) -> (r: Result<
        (Vec<u8>, Vec<u8>),
        KeyExchangeError,
    >)
        ensures
            final(self).actor() == old(self).actor(),
            peer_public_key@.len() < PUBLIC_KEY_LEN ==> r == Err::<(Vec<u8>, Vec<u8>), KeyExchangeError>(
                KeyExchangeError::TruncatedPeerKey,
            ),
            peer_public_key@.len() > PUBLIC_KEY_LEN ==> r == Err::<(Vec<u8>, Vec<u8>), KeyExchangeError>(
                KeyExchangeError::KeyAgreementFailed,
            ),
            peer_public_key@.len() == PUBLIC_KEY_LEN && old(self).pending_key() is None ==> r
                == Err::<(Vec<u8>, Vec<u8>), KeyExchangeError>(
                KeyExchangeError::MissingEphemeralKey,
            ),
            !(peer_public_key@.len() == PUBLIC_KEY_LEN && old(self).pending_key() is Some) ==> {
                &&& final(self).pending_key() == old(self).pending_key()
                &&& final(self).local_key() == old(self).local_key()
                &&& final(self).peer_key() == old(self).peer_key()
            },
            peer_public_key@.len() == PUBLIC_KEY_LEN && old(self).pending_key() is Some ==> {
                &&& final(self).pending_key() is None
                &&& final(self).local_key() == old(self).pending_key()
                &&& final(self).peer_key() == Some(peer_public_key@)
                &&& match r {
                    Ok(keys) => {
                        &&& exists|secret: Seq<u8>|
                            secret.len() == PUBLIC_KEY_LEN && #[trigger] session_keys_from(
                                secret,
                                final(self).client_key().unwrap(),
                                final(self).server_key().unwrap(),
                            ) == (keys.0@, keys.1@)
                        &&& keys.0@.len() == SESSION_KEY_LEN
                        &&& keys.1@.len() == SESSION_KEY_LEN
                    },
                    Err(e) => e == KeyExchangeError::KeyAgreementFailed,
                }
            },
    {
        if peer_public_key.len() < PUBLIC_KEY_LEN {
            return Err(KeyExchangeError::TruncatedPeerKey);
        }
        if peer_public_key.len() > PUBLIC_KEY_LEN {
            return Err(KeyExchangeError::KeyAgreementFailed);
        }
        let (private_key, public_key) = match self.ephemeral.take() {
            Some(e) => e,
            None => return Err(KeyExchangeError::MissingEphemeralKey),
        };
        let peer = vstd::slice::slice_to_vec(peer_public_key);
        let agreed = match self.actor {
            Actor::Initiator => x25519_agree_and_derive(
                private_key,
                peer_public_key,
                public_key.as_slice(),
                peer.as_slice(),
            ),
            Actor::Responder => x25519_agree_and_derive(
                private_key,
                peer_public_key,
                peer.as_slice(),
                public_key.as_slice(),
            ),
        };
        let ghost client_pub = if self.actor == Actor::Initiator { public_key@ } else { peer@ };
        let ghost server_pub = if self.actor == Actor::Initiator { peer@ } else { public_key@ };
        self.pub_key = Some(public_key);
        self.peer_pub_key = Some(peer);
        proof {
            if agreed is Ok {
                let keys = agreed->Ok_0;
                let secret = choose|secret: Seq<u8>|
                    secret.len() == PUBLIC_KEY_LEN && #[trigger] session_keys_from(
                        secret,
                        client_pub,
                        server_pub,
                    ) == (keys.0@, keys.1@);
                assert(self.client_key().unwrap() == client_pub);
                assert(self.server_key().unwrap() == server_pub);
                assert(session_keys_from(
                    secret,
                    self.client_key().unwrap(),
                    self.server_key().unwrap(),
                ) == (keys.0@, keys.1@));
            }
        }
        match agreed {
            Ok(keys) => Ok(keys),
            Err(_) => Err(KeyExchangeError::KeyAgreementFailed),
        }
    }
}

/// Both ends of one exchange name the same client key and the same server
/// key: when an initiator and a responder each hold as their own key what the
/// other received, their role lookups agree, and so does the context that
/// binds the session keys to the exchange.
pub proof fn lemma_peers_agree_on_roles(
    client: EcdhEphemeralKeyExchange,
    server: EcdhEphemeralKeyExchange,
    secret: Seq<u8>,
)
    requires
        client.actor() == Actor::Initiator,
        server.actor() == Actor::Responder,
        client.local_key() is Some,
        server.local_key() is Some,
        client.local_key() == server.peer_key(),
        server.local_key() == client.peer_key(),
    ensures
        client.client_key() == server.client_key(),
        client.server_key() == server.server_key(),
        session_keys_from(secret, client.client_key().unwrap(), client.server_key().unwrap())
            == session_keys_from(secret, server.client_key().unwrap(), server.server_key().unwrap()),
{
}

} // verus!
