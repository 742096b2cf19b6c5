//! The running transcript hash that binds every message to the session's history.
use fluent_hash::Hashing::Sha256;
use crate::bytes::concat_bytes;
use vstd::prelude::*;

verus! {

/// The SHA-256 digest of `data`.
pub uninterp spec fn sha256_of(data: Seq<u8>) -> Seq<u8>;

/// Relies on fluent_hash's `Hashing::Sha256.hash` (ring's SHA-256 underneath):
/// the digest depends on the data alone and is 32 bytes long.
#[verifier::external_body]
fn sha256(data: &[u8]) -> (r: Vec<u8>)
    ensures
        r@ == sha256_of(data@),
        r@.len() == 32,
{
    Sha256.hash(data).to_vec()
}

/// The digest of the transcript after `messages` were appended to a fresh one.
pub open spec fn transcript_digest(messages: Seq<Seq<u8>>) -> Seq<u8>
    decreases messages.len(),
{
    if messages.len() == 0 {
        sha256_of(Seq::empty())
    } else {
        sha256_of(transcript_digest(messages.drop_last()) + messages.last())
    }
}

/// An incremental hash chain: it starts at the hash of the empty input, and each
/// append replaces the digest with the hash of the old digest followed by the
/// new bytes.
pub struct HashTranscript {
    hash: Vec<u8>,
    messages: Ghost<Seq<Seq<u8>>>,
}

impl View for HashTranscript {
    /// The current digest.
    type V = Seq<u8>;

    closed spec fn view(&self) -> Seq<u8> {
        self.hash@
    }
}

impl HashTranscript {
    /// The byte strings appended so far, in order.
    pub closed spec fn messages(&self) -> Seq<Seq<u8>> {
        self.messages@
    }

    /// The digest is the hash chain over the appended messages.
    pub closed spec fn wf(&self) -> bool {
        &&& self.hash@ == transcript_digest(self.messages@)
        &&& self.hash@.len() == 32
    }

    pub fn new() -> (r: Self)
        ensures
            r.wf(),
            r.messages() == Seq::<Seq<u8>>::empty(),
            r@ == sha256_of(Seq::empty()),
            r@.len() == 32,
    {
        let empty: Vec<u8> = Vec::new();
        let hash = sha256(empty.as_slice());
        assert(empty@ =~= Seq::<u8>::empty());
        HashTranscript { hash, messages: Ghost(Seq::empty()) }
    }

    pub fn append(&mut self, bytes: &[u8])
        requires
            old(self).wf(),
        ensures
            final(self).wf(),
            final(self)@ == sha256_of(old(self)@ + bytes@),
            final(self).messages() == old(self).messages().push(bytes@),
            final(self)@.len() == 32,
    {
        let data = concat_bytes(self.hash.as_slice(), bytes);
        self.hash = sha256(data.as_slice());
        self.messages = Ghost(self.messages@.push(bytes@));
        proof {
            let m = self.messages@;
            assert(m.drop_last() =~= old(self).messages@);
        }
    }

    /// The current digest, used as associated data for the next message.
    pub fn as_bytes(&self) -> (r: &[u8])
        ensures
            r@ == self@,
            self.wf() ==> r@.len() == 32,
    {
        self.hash.as_slice()
    }
}

/// The transcript is a pure function of what was appended: two transcripts
/// that saw the same byte strings in the same order hold the same digest.
pub proof fn lemma_digest_determined_by_messages(a: HashTranscript, b: HashTranscript)
    requires
        a.wf(),
        b.wf(),
        a.messages() == b.messages(),
    ensures
        a@ == b@,
{
}

} // verus!
