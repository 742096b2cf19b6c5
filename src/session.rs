//! One established session: the transcript seeded from the exchange, and the
//! ordering of seal, open and transcript updates that both peers follow.
use crate::aead::{
    aes_256_gcm_open_of, nonce_of, AeadDecrypter, AeadEncrypter, AeadError, GCM_MAX_INPUT_LEN, KEY_LEN,
};
use crate::ecdh::{Actor, EcdhEphemeralKeyExchange};
use crate::transcript::{sha256_of, HashTranscript};
use vstd::prelude::*;

verus! {

/// The channel after a completed key exchange. Every message is sealed or
/// opened with the current transcript digest as associated data, and its
/// plaintext is then appended to the transcript, on both peers alike.
pub struct Session {
    transcript: HashTranscript,
    encrypter: AeadEncrypter,
    decrypter: AeadDecrypter,
}

impl Session {
    pub closed spec fn transcript(&self) -> HashTranscript {
        self.transcript
    }

    pub closed spec fn encrypter(&self) -> AeadEncrypter {
        self.encrypter
    }

    pub closed spec fn decrypter(&self) -> AeadDecrypter {
        self.decrypter
    }

    pub open spec fn wf(&self) -> bool {
        self.transcript().wf() && self.encrypter().wf() && self.decrypter().wf()
    }

    /// `after` is `before` once `plaintext` went out as `ciphertext`.
    pub open spec fn sent(before: Session, after: Session, plaintext: Seq<u8>, ciphertext: Seq<u8>) -> bool {
        let enc = before.encrypter();
        &&& ciphertext == enc.sealed(before.transcript()@, plaintext)
        &&& aes_256_gcm_open_of(enc.key(), nonce_of(enc.counter()), before.transcript()@, ciphertext)
            == Some(plaintext)
        &&& after.transcript()@ == sha256_of(before.transcript()@ + plaintext)
        &&& after.transcript().messages() == before.transcript().messages().push(plaintext)
        &&& after.encrypter().key() == enc.key()
        &&& after.encrypter().counter() == enc.counter() + 1
        &&& after.decrypter() == before.decrypter()
    }

    /// `after` is `before` once `ciphertext` came in and opened to `plaintext`.
    pub open spec fn received(before: Session, after: Session, ciphertext: Seq<u8>, plaintext: Seq<u8>) -> bool {
        let dec = before.decrypter();
        &&& dec.opened(before.transcript()@, ciphertext) == Some(plaintext)
        &&& after.transcript()@ == sha256_of(before.transcript()@ + plaintext)
        &&& after.transcript().messages() == before.transcript().messages().push(plaintext)
        &&& after.decrypter().key() == dec.key()
        &&& after.decrypter().counter() == dec.counter() + 1
        &&& after.encrypter() == before.encrypter()
    }

    /// Sets up the session from a completed exchange and its session keys
    /// (client to server, server to client). The transcript is seeded with the
    /// client's public key, then the server's. The initiator seals with the
    /// client-to-server key and opens with the other; the responder the other
    /// way round. `None` if the exchange has not completed.
    pub fn establish(
        exchange: &EcdhEphemeralKeyExchange,
        client_to_server: &[u8],
        server_to_client: &[u8],
    ) -> (r: Option<Session>)
        requires
            client_to_server@.len() == KEY_LEN,
            server_to_client@.len() == KEY_LEN,
        ensures
            r is Some <==> exchange.client_key() is Some && exchange.server_key() is Some,
            r matches Some(s) ==> {
                &&& s.wf()
                &&& s.transcript().messages() == seq![
                    exchange.client_key().unwrap(),
                    exchange.server_key().unwrap(),
                ]
                &&& s.transcript()@ == sha256_of(
                    sha256_of(sha256_of(Seq::empty()) + exchange.client_key().unwrap())
                        + exchange.server_key().unwrap(),
                )
                &&& s.encrypter().counter() == 1
                &&& s.decrypter().counter() == 1
                &&& s.encrypter().key() == if exchange.actor() == Actor::Initiator {
                    client_to_server@
                } else {
                    server_to_client@
                }
                &&& s.decrypter().key() == if exchange.actor() == Actor::Initiator {
                    server_to_client@
                } else {
                    client_to_server@
                }
            },
    {
        let client_pub = match exchange.client_pub_key() {
            Some(k) => k,
            None => return None,
        };
        let server_pub = match exchange.server_pub_key() {
            Some(k) => k,
            None => return None,
        };
        let mut transcript = HashTranscript::new();
        transcript.append(client_pub.as_slice());
        transcript.append(server_pub.as_slice());
        proof {
            assert(transcript.messages() =~= seq![client_pub@, server_pub@]);
        }
        let (encrypter, decrypter) = match exchange.actor_is_initiator() {
            true => (AeadEncrypter::new(client_to_server), AeadDecrypter::new(server_to_client)),
            false => (AeadEncrypter::new(server_to_client), AeadDecrypter::new(client_to_server)),
        };
        Some(Session { transcript, encrypter, decrypter })
    }

    /// The current transcript digest: the associated data of the next message.
    pub fn transcript_digest(&self) -> (r: &[u8])
        ensures
            r@ == self.transcript()@,
    {
        self.transcript.as_bytes()
    }

    /// Seals `plaintext` with the current digest as associated data, then
    /// appends the plaintext to the transcript. On failure nothing but the
    /// nonce counter moves, and the session must be abandoned.
    pub fn send(&mut self, plaintext: &[u8]) -> (r: Result<Vec<u8>, AeadError>)
        requires
            old(self).wf(),
        ensures
            final(self).wf(),
            r matches Ok(c) ==> Session::sent(*old(self), *final(self), plaintext@, c@),
            old(self).encrypter().counter() == u32::MAX ==> r == Err::<Vec<u8>, AeadError>(
                AeadError::NonceExhausted,
            ),
            old(self).encrypter().counter() < u32::MAX && plaintext@.len() <= GCM_MAX_INPUT_LEN ==> r is Ok,
            r matches Err(e) ==> {
                &&& final(self).transcript() == old(self).transcript()
                &&& final(self).decrypter() == old(self).decrypter()
                &&& (old(self).encrypter().counter() < u32::MAX ==> e == AeadError::SealError)
            },
    {
        let ciphertext = self.encrypter.encrypt(plaintext, self.transcript.as_bytes())?;
        self.transcript.append(plaintext);
        Ok(ciphertext)
    }

    /// Opens `ciphertext` with the current digest as associated data, then
    /// appends the recovered plaintext to the transcript. On failure nothing
    /// but the nonce counter moves, and the session must be abandoned.
    pub fn receive(&mut self, ciphertext: &[u8]) -> (r: Result<Vec<u8>, AeadError>)
        requires
            old(self).wf(),
        ensures
            final(self).wf(),
            r matches Ok(p) ==> Session::received(*old(self), *final(self), ciphertext@, p@),
            old(self).decrypter().counter() == u32::MAX ==> r == Err::<Vec<u8>, AeadError>(
                AeadError::NonceExhausted,
            ),
            old(self).decrypter().counter() < u32::MAX ==> (r is Err <==> old(self).decrypter().opened(
                old(self).transcript()@,
                ciphertext@,
            ) is None),
            r matches Err(e) ==> {
                &&& final(self).transcript() == old(self).transcript()
                &&& final(self).encrypter() == old(self).encrypter()
                &&& (old(self).decrypter().counter() < u32::MAX ==> e
                    == AeadError::AuthenticationFailed)
            },
    {
        let plaintext = self.decrypter.decrypt(ciphertext, self.transcript.as_bytes())?;
        self.transcript.append(plaintext.as_slice());
        Ok(plaintext)
    }
}

/// Two peers' sessions are in step for one direction: same transcript, and
/// the receiver's decrypter stands where the sender's encrypter stands.
pub open spec fn in_step(sender: Session, receiver: Session) -> bool {
    &&& sender.transcript()@ == receiver.transcript()@
    &&& sender.encrypter().key() == receiver.decrypter().key()
    &&& sender.encrypter().counter() == receiver.decrypter().counter()
}

/// Delivery in step: when the receiver is in step with the sender, what the
/// sender sent opens on the receiver to the same plaintext, and once both have
/// appended it their transcript digests are equal again.
pub proof fn lemma_in_step_delivery(
    sender_before: Session,
    sender_after: Session,
    receiver_before: Session,
    receiver_after: Session,
    plaintext: Seq<u8>,
    ciphertext: Seq<u8>,
    received: Seq<u8>,
)
    requires
        in_step(sender_before, receiver_before),
        Session::sent(sender_before, sender_after, plaintext, ciphertext),
        Session::received(receiver_before, receiver_after, ciphertext, received),
    ensures
        receiver_before.decrypter().opened(receiver_before.transcript()@, ciphertext) == Some(
            plaintext,
        ),
        received == plaintext,
        sender_after.transcript()@ == receiver_after.transcript()@,
{
}

} // verus!
