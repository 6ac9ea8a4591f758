//! The cryptographic hash primitive behind the payload hasher.
//!
//! The incremental digest contexts of `ring` do the hashing; this module
//! models a context by the sequence of bytes it has absorbed and the
//! algorithm it was created for, and gives the finished digest a name,
//! `digest_of`, since its value has no short mathematical statement.

use vstd::prelude::*;

verus! {

/// The digest algorithms a payload hasher can be bound to.
#[derive(Clone, Copy)]
pub enum Algorithm {
    Sha256,
    Sha384,
    Sha512,
}

impl Algorithm {
    /// The length in bytes of a finished digest of this algorithm.
    pub open spec fn spec_output_len(&self) -> nat {
        match self {
            Algorithm::Sha256 => 32,
            Algorithm::Sha384 => 48,
            Algorithm::Sha512 => 64,
        }
    }

    /// The length in bytes of a finished digest of this algorithm.
    pub fn output_len(&self) -> (n: usize)
        ensures
            n == self.spec_output_len(),
    {
        match self {
            Algorithm::Sha256 => 32,
            Algorithm::Sha384 => 48,
            Algorithm::Sha512 => 64,
        }
    }
}

#[verifier::external_type_specification]
#[verifier::external_body]
pub struct ExContext(ring::digest::Context);

/// The bytes a digest context has absorbed so far, in order.
pub uninterp spec fn ctx_absorbed(ctx: ring::digest::Context) -> Seq<u8>;

/// The algorithm a digest context was created for.
pub uninterp spec fn ctx_algorithm(ctx: ring::digest::Context) -> Algorithm;

/// The digest an algorithm produces over a byte sequence. It depends on the
/// algorithm and the bytes alone; its value is left without a definition.
pub uninterp spec fn digest_of(alg: Algorithm, data: Seq<u8>) -> Seq<u8>;

/// Relies on ring::digest::Context::new with ring::digest::SHA256: a fresh
/// context for SHA-256 that has absorbed nothing.
#[verifier::external_body]
pub(crate) fn ctx_new_sha256() -> (ctx: ring::digest::Context)
    ensures
        ctx_algorithm(ctx) == Algorithm::Sha256,
        ctx_absorbed(ctx) == Seq::<u8>::empty(),
{
    ring::digest::Context::new(&ring::digest::SHA256)
}

/// Relies on ring::digest::Context::new with ring::digest::SHA384: a fresh
/// context for SHA-384 that has absorbed nothing.
#[verifier::external_body]
pub(crate) fn ctx_new_sha384() -> (ctx: ring::digest::Context)
    ensures
        ctx_algorithm(ctx) == Algorithm::Sha384,
        ctx_absorbed(ctx) == Seq::<u8>::empty(),
{
    ring::digest::Context::new(&ring::digest::SHA384)
}

/// Relies on ring::digest::Context::new with ring::digest::SHA512: a fresh
/// context for SHA-512 that has absorbed nothing.
#[verifier::external_body]
pub(crate) fn ctx_new_sha512() -> (ctx: ring::digest::Context)
    ensures
        ctx_algorithm(ctx) == Algorithm::Sha512,
        ctx_absorbed(ctx) == Seq::<u8>::empty(),
{
    ring::digest::Context::new(&ring::digest::SHA512)
}

/// Relies on ring::digest::Context::update: absorbs `data` after everything
/// absorbed before, leaving the context's algorithm as it was. It never
/// panics (the byte count saturates inside ring).
#[verifier::external_body]
pub(crate) fn ctx_update(ctx: &mut ring::digest::Context, data: &[u8])
    ensures
        ctx_absorbed(*final(ctx)) == ctx_absorbed(*old(ctx)) + data@,
        ctx_algorithm(*final(ctx)) == ctx_algorithm(*old(ctx)),
{
    ctx.update(data);
}

/// Relies on ring::digest::Context::finish and Digest::as_ref: the raw digest
/// of all absorbed bytes, exactly output_len bytes of it. finish panics when
/// the absorbed byte count times eight no longer fits in 64 bits; the
/// `requires` leaves those inputs out.
#[verifier::external_body]
pub(crate) fn ctx_finish(ctx: ring::digest::Context) -> (r: Vec<u8>)
    requires
        ctx_absorbed(ctx).len() < 0x2000000000000000,
    ensures
        r@ == digest_of(ctx_algorithm(ctx), ctx_absorbed(ctx)),
        r@.len() == ctx_algorithm(ctx).spec_output_len(),
{
    ctx.finish().as_ref().to_vec()
}

} // verus!
