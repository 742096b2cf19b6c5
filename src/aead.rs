//! AES-256-GCM framing with a strictly increasing counter nonce per session key.
use ring::aead::{Aad, LessSafeKey, Nonce, UnboundKey, AES_256_GCM};
use ring::error::Unspecified;
use vstd::prelude::*;

verus! {

#[verifier::external_type_specification]
#[verifier::external_body]
pub struct ExUnspecified(Unspecified);

/// Length of an AES-256 key.
pub const KEY_LEN: usize = 32;

/// Length of a GCM nonce.
pub const NONCE_LEN: usize = 12;

/// Length of the authentication tag appended to every ciphertext.
pub const TAG_LEN: usize = 16;

/// The longest plaintext AES-GCM takes under one nonce: (2^32 - 2) blocks of
/// 16 bytes, so that the 32-bit block counter cannot wrap.
pub const GCM_MAX_INPUT_LEN: u64 = 68719476704;

/// Lengths that AES-256-GCM sealing accepts: a 32-byte key, a 12-byte nonce,
/// a plaintext within the GCM bound and associated data whose bit length fits
/// in 64 bits.
pub open spec fn seal_lengths_ok(key: Seq<u8>, nonce: Seq<u8>, aad: Seq<u8>, plaintext: Seq<u8>) -> bool {
    &&& key.len() == KEY_LEN
    &&& nonce.len() == NONCE_LEN
    &&& plaintext.len() <= GCM_MAX_INPUT_LEN
    &&& aad.len() * 8 <= u64::MAX
}

/// What AES-256-GCM sealing gives: the ciphertext followed by its tag.
pub uninterp spec fn aes_256_gcm_seal_of(
    key: Seq<u8>,
    nonce: Seq<u8>,
    aad: Seq<u8>,
    plaintext: Seq<u8>,
) -> Seq<u8>;

/// What AES-256-GCM opening gives: the plaintext, or `None` when the tag does
/// not verify.
pub uninterp spec fn aes_256_gcm_open_of(
    key: Seq<u8>,
    nonce: Seq<u8>,
    aad: Seq<u8>,
    ciphertext: Seq<u8>,
) -> Option<Seq<u8>>;

/// Relies on ring's `LessSafeKey::seal_in_place_append_tag` with `AES_256_GCM`:
/// the plaintext is encrypted in place and the 16-byte tag appended; opening
/// that output under the same key, nonce and associated data authenticates and
/// gives the plaintext back. `UnboundKey::new` and `Nonce::try_assume_unique_for_key`
/// fail only on a wrong length, and sealing (`gcm::Context::new`) only on an
/// input over `MAX_IN_OUT_LEN` or associated data whose bit length overflows.
#[verifier::external_body]
fn aes_256_gcm_seal(key: &[u8], nonce: &[u8], aad: &[u8], plaintext: &[u8]) -> (r: Result<
    Vec<u8>,
    Unspecified,
>)
    ensures
        seal_lengths_ok(key@, nonce@, aad@, plaintext@) ==> r is Ok,
        r matches Ok(c) ==> {
            &&& c@ == aes_256_gcm_seal_of(key@, nonce@, aad@, plaintext@)
            &&& c@.len() == plaintext@.len() + TAG_LEN
            &&& aes_256_gcm_open_of(key@, nonce@, aad@, c@) == Some(plaintext@)
        },
{
    let key = LessSafeKey::new(UnboundKey::new(&AES_256_GCM, key)?);
    let nonce = Nonce::try_assume_unique_for_key(nonce)?;
    let mut in_out = plaintext.to_vec();
    key.seal_in_place_append_tag(nonce, Aad::from(aad), &mut in_out)?;
    Ok(in_out)
}

/// Relies on ring's `LessSafeKey::open_in_place` with `AES_256_GCM`: it checks
/// the trailing tag and decrypts. GCM is deterministic under a key and nonce, so
/// an accepted input is exactly the sealing of the plaintext it opens to.
#[verifier::external_body]
fn aes_256_gcm_open(key: &[u8], nonce: &[u8], aad: &[u8], ciphertext: &[u8]) -> (r: Result<
    Vec<u8>,
    Unspecified,
>)
    requires
        key@.len() == KEY_LEN,
        nonce@.len() == NONCE_LEN,
    ensures
        match r {
            Ok(p) => {
                &&& aes_256_gcm_open_of(key@, nonce@, aad@, ciphertext@) == Some(p@)
                &&& ciphertext@ == aes_256_gcm_seal_of(key@, nonce@, aad@, p@)
            },
            Err(_) => aes_256_gcm_open_of(key@, nonce@, aad@, ciphertext@) is None,
        },
{
    let key = LessSafeKey::new(UnboundKey::new(&AES_256_GCM, key)?);
    let nonce = Nonce::try_assume_unique_for_key(nonce)?;
    let mut in_out = ciphertext.to_vec();
    let plaintext = key.open_in_place(nonce, Aad::from(aad), &mut in_out)?;
    Ok(plaintext.to_vec())
}

/// Why a seal or open failed. Failures are fatal to the session.
#[derive(Debug, Clone, Copy, PartialEq, Eq, Structural)]
pub enum AeadError {
    /// The nonce counter has no unused value left for this key.
    NonceExhausted,
    /// The AEAD primitive refused to seal.
    SealError,
    /// The tag did not verify: wrong key, wrong associated data, nonce
    /// out of step, or tampering. Deliberately says nothing more.
    AuthenticationFailed,
}

/// Byte `k` (0 = least significant) of `x`.
pub open spec fn byte_of(x: u32, k: u32) -> u8
    recommends
        k < 4,
{
    ((x >> (8 * k)) & 0xff) as u8
}

/// The 12-byte nonce for counter value `c`: eight zero bytes, then `c` big-endian.
pub open spec fn nonce_of(c: u32) -> Seq<u8> {
    seq![0u8, 0u8, 0u8, 0u8, 0u8, 0u8, 0u8, 0u8, byte_of(c, 3), byte_of(c, 2), byte_of(c, 1), byte_of(c, 0)]
}

/// Distinct counter values give distinct nonces, so a key that never repeats
/// a counter value never repeats a nonce.
pub proof fn lemma_nonce_injective(a: u32, b: u32)
    requires
        a != b,
    ensures
        nonce_of(a) != nonce_of(b),
{
    if nonce_of(a) == nonce_of(b) {
        assert(nonce_of(a)[8] == nonce_of(b)[8]);
        assert(nonce_of(a)[9] == nonce_of(b)[9]);
        assert(nonce_of(a)[10] == nonce_of(b)[10]);
        assert(nonce_of(a)[11] == nonce_of(b)[11]);
        assert(a == b) by (bit_vector)
            requires
                ((a >> 24u32) & 0xff) as u8 == ((b >> 24u32) & 0xff) as u8,
                ((a >> 16u32) & 0xff) as u8 == ((b >> 16u32) & 0xff) as u8,
                ((a >> 8u32) & 0xff) as u8 == ((b >> 8u32) & 0xff) as u8,
                ((a >> 0u32) & 0xff) as u8 == ((b >> 0u32) & 0xff) as u8,
        ;
    }
}

/// A nonce counter: each call of `advance` hands out the nonce of the current
/// value and moves to the next one. The last value, `u32::MAX`, is never used.
pub struct CounterNonceSequence(u32);

impl View for CounterNonceSequence {
    /// The counter value whose nonce comes next.
    type V = u32;

    closed spec fn view(&self) -> u32 {
        self.0
    }
}

impl CounterNonceSequence {
    pub fn new(start: u32) -> (r: Self)
        ensures
            r@ == start,
    {
        CounterNonceSequence(start)
    }

    pub fn advance(&mut self) -> (r: Result<Vec<u8>, AeadError>)
        ensures
            old(self)@ == u32::MAX ==> r == Err::<Vec<u8>, AeadError>(AeadError::NonceExhausted)
                && final(self)@ == old(self)@,
            old(self)@ < u32::MAX ==> (r matches Ok(n) && n@ == nonce_of(old(self)@)) && final(self)@
                == old(self)@ + 1,
    {
        let c = self.0;
        if c == u32::MAX {
            return Err(AeadError::NonceExhausted);
        }
        let mut nonce: Vec<u8> = vec![0u8; NONCE_LEN];
        nonce.set(8, ((c >> 24u32) & 0xff) as u8);
        nonce.set(9, ((c >> 16u32) & 0xff) as u8);
        nonce.set(10, ((c >> 8u32) & 0xff) as u8);
        nonce.set(11, (c & 0xff) as u8);
        assert(c & 0xff == (c >> 0u32) & 0xff) by (bit_vector);
        assert(nonce@ =~= nonce_of(c));
        self.0 = c + 1;
        Ok(nonce)
    }
}

/// Seals outgoing messages under one directional session key. The first
/// message uses counter value 1; each seal moves the counter on by one.
pub struct AeadEncrypter {
    key: Vec<u8>,
    nonces: CounterNonceSequence,
}

impl AeadEncrypter {
    pub closed spec fn key(&self) -> Seq<u8> {
        self.key@
    }

    /// The counter value whose nonce the next seal uses.
    pub closed spec fn counter(&self) -> u32 {
        self.nonces@
    }

    pub closed spec fn wf(&self) -> bool {
        self.key@.len() == KEY_LEN
    }

    /// What sealing `plaintext` with associated data `aad` gives in this state.
    pub open spec fn sealed(&self, aad: Seq<u8>, plaintext: Seq<u8>) -> Seq<u8> {
        aes_256_gcm_seal_of(self.key(), nonce_of(self.counter()), aad, plaintext)
    }

    pub fn new(key: &[u8]) -> (r: Self)
        requires
            key@.len() == KEY_LEN,
        ensures
            r.wf(),
            r.key() == key@,
            r.counter() == 1,
    {
        AeadEncrypter { key: vstd::slice::slice_to_vec(key), nonces: CounterNonceSequence::new(1) }
    }

    /// Seals `data` with `associated_data`, returning ciphertext followed by tag.
    /// The counter advances whenever a nonce was taken, also if sealing then
    /// failed, so no nonce is ever offered to the primitive twice.
    pub fn encrypt(&mut self, data: &[u8], associated_data: &[u8]) -> (r: Result<
        Vec<u8>,
        AeadError,
    >)
        requires
            old(self).wf(),
        ensures
            final(self).wf(),
            final(self).key() == old(self).key(),
            old(self).counter() == u32::MAX ==> r == Err::<Vec<u8>, AeadError>(
                AeadError::NonceExhausted,
            ) && final(self).counter() == old(self).counter(),
            old(self).counter() < u32::MAX ==> final(self).counter() == old(self).counter() + 1,
            old(self).counter() < u32::MAX && data@.len() <= GCM_MAX_INPUT_LEN
                && associated_data@.len() * 8 <= u64::MAX ==> r is Ok,
            r matches Ok(c) ==> {
                &&& c@ == old(self).sealed(associated_data@, data@)
                &&& c@.len() == data@.len() + TAG_LEN
                &&& aes_256_gcm_open_of(
                    old(self).key(),
                    nonce_of(old(self).counter()),
                    associated_data@,
                    c@,
                ) == Some(data@)
            },
            r matches Err(e) ==> old(self).counter() < u32::MAX ==> e == AeadError::SealError,
    {
        let nonce = self.nonces.advance()?;
        match aes_256_gcm_seal(self.key.as_slice(), nonce.as_slice(), associated_data, data) {
            Ok(c) => Ok(c),
            Err(_) => Err(AeadError::SealError),
        }
    }
}

/// Opens incoming messages under one directional session key, keeping its
/// counter in step with the peer's encrypter: it starts at 1 and moves on by
/// one per message.
pub struct AeadDecrypter {
    key: Vec<u8>,
    nonces: CounterNonceSequence,
}

impl AeadDecrypter {
    pub closed spec fn key(&self) -> Seq<u8> {
        self.key@
    }

    /// The counter value whose nonce the next open uses.
    pub closed spec fn counter(&self) -> u32 {
        self.nonces@
    }

    pub closed spec fn wf(&self) -> bool {
        self.key@.len() == KEY_LEN
    }

    /// What opening `ciphertext` with associated data `aad` gives in this state.
    pub open spec fn opened(&self, aad: Seq<u8>, ciphertext: Seq<u8>) -> Option<Seq<u8>> {
        aes_256_gcm_open_of(self.key(), nonce_of(self.counter()), aad, ciphertext)
    }

    pub fn new(key: &[u8]) -> (r: Self)
        requires
            key@.len() == KEY_LEN,
        ensures
            r.wf(),
            r.key() == key@,
            r.counter() == 1,
    {
        AeadDecrypter { key: vstd::slice::slice_to_vec(key), nonces: CounterNonceSequence::new(1) }
    }

    /// Authenticates and decrypts `ciphertext` (ciphertext followed by tag)
    /// with `associated_data`.
    pub fn decrypt(&mut self, ciphertext: &[u8], associated_data: &[u8]) -> (r: Result<
        Vec<u8>,
        AeadError,
    >)
        requires
            old(self).wf(),
        ensures
            final(self).wf(),
            final(self).key() == old(self).key(),
            old(self).counter() == u32::MAX ==> r == Err::<Vec<u8>, AeadError>(
                AeadError::NonceExhausted,
            ) && final(self).counter() == old(self).counter(),
            old(self).counter() < u32::MAX ==> {
                &&& final(self).counter() == old(self).counter() + 1
                &&& match r {
                    Ok(p) => {
                        &&& old(self).opened(associated_data@, ciphertext@) == Some(p@)
                        &&& ciphertext@ == aes_256_gcm_seal_of(
                            old(self).key(),
                            nonce_of(old(self).counter()),
                            associated_data@,
                            p@,
                        )
                    },
                    Err(e) => e == AeadError::AuthenticationFailed && old(self).opened(
                        associated_data@,
                        ciphertext@,
                    ) is None,
                }
            },
    {
        let nonce = self.nonces.advance()?;
        match aes_256_gcm_open(self.key.as_slice(), nonce.as_slice(), associated_data, ciphertext) {
            Ok(p) => Ok(p),
            Err(_) => Err(AeadError::AuthenticationFailed),
        }
    }
}

/// Round trip: a decrypter that stands where the encrypter stood (same key,
/// same counter) opens, under the same associated data, what the encrypter
/// sealed, and gets the original plaintext.
pub proof fn lemma_open_reverses_seal(
    enc: AeadEncrypter,
    dec: AeadDecrypter,
    aad: Seq<u8>,
    plaintext: Seq<u8>,
    ciphertext: Seq<u8>,
)
    requires
        dec.key() == enc.key(),
        dec.counter() == enc.counter(),
        aes_256_gcm_open_of(enc.key(), nonce_of(enc.counter()), aad, ciphertext) == Some(
            plaintext,
        ),
    ensures
        dec.opened(aad, ciphertext) == Some(plaintext),
{
}

/// An accepted ciphertext is authentic: if a decrypter in the encrypter's
/// state accepts a ciphertext other than the one the encrypter produced, what
/// it opens to differs from the sealed plaintext.
pub proof fn lemma_altered_ciphertext_never_opens_to_original(
    enc: AeadEncrypter,
    dec: AeadDecrypter,
    aad: Seq<u8>,
    plaintext: Seq<u8>,
    opened: Seq<u8>,
    altered: Seq<u8>,
)
    requires
        dec.key() == enc.key(),
        dec.counter() == enc.counter(),
        altered != enc.sealed(aad, plaintext),
        altered == aes_256_gcm_seal_of(dec.key(), nonce_of(dec.counter()), aad, opened),
    ensures
        opened != plaintext,
{
}

} // verus!
