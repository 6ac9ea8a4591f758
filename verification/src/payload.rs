//! Incremental hashing of message payloads with Hawk's canonical framing.
//!
//! A `PayloadHasher` absorbs, in order: the fixed marker `"hawk.1.payload\n"`,
//! the content-type bytes, a newline, the payload bytes in as many chunks as
//! the caller likes, and a final newline appended by `finish`. The digest of
//! that whole sequence is the payload hash.

use vstd::prelude::*;
use crate::digest::{
    Algorithm, ctx_absorbed, ctx_algorithm, ctx_finish, ctx_new_sha256, ctx_new_sha384,
    ctx_new_sha512, ctx_update, digest_of,
};

verus! {

/// The ASCII bytes of the fixed marker `"hawk.1.payload\n"`.
pub open spec fn hawk_tag() -> Seq<u8> {
    seq![104u8, 97u8, 119u8, 107u8, 46u8, 49u8, 46u8, 112u8, 97u8, 121u8, 108u8, 111u8, 97u8, 100u8, 10u8]
}

/// A single ASCII newline byte.
pub open spec fn newline() -> Seq<u8> {
    seq![10u8]
}

/// The bytes absorbed before any payload: marker, content type, newline.
pub open spec fn preamble(content_type: Seq<u8>) -> Seq<u8> {
    hawk_tag() + content_type + newline()
}

/// The full canonical byte sequence whose digest is the payload hash.
pub open spec fn hawk_message(content_type: Seq<u8>, payload: Seq<u8>) -> Seq<u8> {
    preamble(content_type) + payload + newline()
}

/// Whether a byte sequence is short enough for the hash primitive to
/// finalize (its bit length must fit in 64 bits).
pub open spec fn digest_input_ok(data: Seq<u8>) -> bool {
    data.len() < 0x2000000000000000
}

/// A utility for hashing payloads. Feed the entity body to this, then pass
/// the `finish` result to a request or response.
pub struct PayloadHasher {
    context: ring::digest::Context,
    algorithm: Algorithm,
}

impl PayloadHasher {
    /// The hasher's context was created for the algorithm it carries.
    pub closed spec fn wf(&self) -> bool {
        ctx_algorithm(self.context) == self.algorithm
    }

    /// The algorithm this hasher is bound to.
    pub closed spec fn algorithm(&self) -> Algorithm {
        self.algorithm
    }

    /// The bytes this hasher has absorbed so far, framing included.
    pub closed spec fn absorbed(&self) -> Seq<u8> {
        ctx_absorbed(self.context)
    }

    /// Create a new PayloadHasher. The `content_type` should be lower-case
    /// and should not include parameters; it is treated as opaque bytes. The
    /// canonical preamble is absorbed here, before any payload.
    pub fn new(content_type: &[u8], algorithm: Algorithm) -> (h: PayloadHasher)
        ensures
            h.wf(),
            h.algorithm() == algorithm,
            h.absorbed() == preamble(content_type@),
    {
        let mut context = match algorithm {
            Algorithm::Sha256 => ctx_new_sha256(),
            Algorithm::Sha384 => ctx_new_sha384(),
            Algorithm::Sha512 => ctx_new_sha512(),
        };
        let tag = hawk_tag_bytes();
        ctx_update(&mut context, tag.as_slice());
        ctx_update(&mut context, content_type);
        let nl = newline_bytes();
        ctx_update(&mut context, nl.as_slice());
        proof {
            assert(ctx_absorbed(context) =~= preamble(content_type@));
        }
        PayloadHasher { context, algorithm }
    }

    /// Update the hash with new data. Chunk boundaries carry no meaning:
    /// only the concatenation of all updates enters the digest.
    pub fn update(&mut self, data: &[u8])
        requires
            old(self).wf(),
        ensures
            final(self).wf(),
            final(self).algorithm() == old(self).algorithm(),
            final(self).absorbed() == old(self).absorbed() + data@,
    {
        ctx_update(&mut self.context, data);
    }

    /// Finish hashing and return the raw digest. A trailing newline is
    /// absorbed first, matching the framing other Hawk implementations use.
    /// Consumes the hasher, so it cannot be updated or finished again.
    pub fn finish(self) -> (r: Vec<u8>)
        requires
            self.wf(),
            digest_input_ok(self.absorbed() + newline()),
        ensures
            r@ == digest_of(self.algorithm(), self.absorbed() + newline()),
            r@.len() == self.algorithm().spec_output_len(),
    {
        let PayloadHasher { mut context, algorithm } = self;
        let nl = newline_bytes();
        ctx_update(&mut context, nl.as_slice());
        ctx_finish(context)
    }

    /// Hash a single payload and return the digest: the same bytes, and so
    /// the same digest, as `new`, one `update`, then `finish`.
    pub fn hash(content_type: &[u8], algorithm: Algorithm, payload: &[u8]) -> (r: Vec<u8>)
        requires
            digest_input_ok(hawk_message(content_type@, payload@)),
        ensures
            r@ == digest_of(algorithm, hawk_message(content_type@, payload@)),
            r@.len() == algorithm.spec_output_len(),
    {
        let mut hasher = PayloadHasher::new(content_type, algorithm);
        hasher.update(payload);
        proof {
            assert(hasher.absorbed() + newline() =~= hawk_message(content_type@, payload@));
        }
        hasher.finish()
    }
}

/// The marker bytes as a vector, for feeding to the context.
fn hawk_tag_bytes() -> (r: Vec<u8>)
    ensures
        r@ == hawk_tag(),
{
    let mut v: Vec<u8> = Vec::new();
    v.push(104u8);
    v.push(97u8);
    v.push(119u8);
    v.push(107u8);
    v.push(46u8);
    v.push(49u8);
    v.push(46u8);
    v.push(112u8);
    v.push(97u8);
    v.push(121u8);
    v.push(108u8);
    v.push(111u8);
    v.push(97u8);
    v.push(100u8);
    v.push(10u8);
    proof {
        assert(v@ =~= hawk_tag());
    }
    v
}

/// A single newline byte as a vector, for feeding to the context.
fn newline_bytes() -> (r: Vec<u8>)
    ensures
        r@ == newline(),
{
    let mut v: Vec<u8> = Vec::new();
    v.push(10u8);
    proof {
        assert(v@ =~= newline());
    }
    v
}

/// Chunking invariance: a payload fed as two chunks `a` then `b` leads to
/// the same absorbed sequence, and so the same digest, as the single chunk
/// `a + b`. The left-hand side is the digest input that `new`, `update(a)`,
/// `update(b)`, `finish` build; the right-hand side is the one-shot input.
pub proof fn lemma_chunking_invariance(alg: Algorithm, ct: Seq<u8>, a: Seq<u8>, b: Seq<u8>)
    ensures
        digest_of(alg, ((preamble(ct) + a) + b) + newline())
            == digest_of(alg, hawk_message(ct, a + b)),
{
    assert(((preamble(ct) + a) + b) + newline() =~= hawk_message(ct, a + b));
}

/// One-shot equivalence: the digest input built by `new`, one `update`, then
/// `finish` is the canonical message, so `hash` and the manual sequence
/// return the same digest.
pub proof fn lemma_one_shot_equivalence(alg: Algorithm, ct: Seq<u8>, payload: Seq<u8>)
    ensures
        digest_of(alg, (preamble(ct) + payload) + newline())
            == digest_of(alg, hawk_message(ct, payload)),
{
    assert((preamble(ct) + payload) + newline() =~= hawk_message(ct, payload));
}

/// Determinism: any two digests of the same algorithm, content type and
/// payload bytes are equal, however the two results were produced.
pub proof fn lemma_determinism(
    alg: Algorithm,
    ct: Seq<u8>,
    payload: Seq<u8>,
    r1: Seq<u8>,
    r2: Seq<u8>,
)
    requires
        r1 == digest_of(alg, hawk_message(ct, payload)),
        r2 == digest_of(alg, hawk_message(ct, payload)),
    ensures
        r1 == r2,
{
}

} // verus!
