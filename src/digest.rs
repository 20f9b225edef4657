//! The incremental digest primitive, provided by ring.
use vstd::prelude::*;

verus! {

/// The digest algorithms that a transcript can be hashed with.
#[derive(Clone, Copy, Debug, PartialEq, Eq, Structural)]
pub enum HashAlgorithm {
    Sha1,
    Sha256,
    Sha384,
    Sha512,
    Sha512_256,
}

/// The largest number of bytes a context can absorb and still finish: ring
/// counts the input's length in bits in a `u64`.
pub const MAX_DIGEST_INPUT: u64 = 0x1fff_ffff_ffff_ffff;

/// The length in bytes of a digest under `alg`.
pub open spec fn digest_len(alg: HashAlgorithm) -> nat {
    match alg {
        HashAlgorithm::Sha1 => 20,
        HashAlgorithm::Sha256 => 32,
        HashAlgorithm::Sha384 => 48,
        HashAlgorithm::Sha512 => 64,
        HashAlgorithm::Sha512_256 => 32,
    }
}

#[verifier::external_type_specification]
#[verifier::external_body]
pub struct ExContext(ring::digest::Context);

/// The bytes a digest context has absorbed since it was made.
pub uninterp spec fn ctx_input(c: ring::digest::Context) -> Seq<u8>;

/// The algorithm a digest context was made with.
pub uninterp spec fn ctx_algorithm(c: ring::digest::Context) -> HashAlgorithm;

/// The digest of `data` under `alg`.
pub uninterp spec fn digest_of(alg: HashAlgorithm, data: Seq<u8>) -> Seq<u8>;

/// Relies on ring::digest::Context::new: a fresh context for the given
/// algorithm, which has absorbed nothing yet.
#[verifier::external_body]
pub(crate) fn context_new(alg: HashAlgorithm) -> (r: ring::digest::Context)
    ensures
        ctx_input(r) == Seq::<u8>::empty(),
        ctx_algorithm(r) == alg,
{
    ring::digest::Context::new(
        match alg {
            HashAlgorithm::Sha1 => &ring::digest::SHA1_FOR_LEGACY_USE_ONLY,
            HashAlgorithm::Sha256 => &ring::digest::SHA256,
            HashAlgorithm::Sha384 => &ring::digest::SHA384,
            HashAlgorithm::Sha512 => &ring::digest::SHA512,
            HashAlgorithm::Sha512_256 => &ring::digest::SHA512_256,
        },
    )
}

/// Relies on ring::digest::Context::update: `data` is appended to what the
/// context has absorbed; the algorithm stays.
#[verifier::external_body]
pub(crate) fn context_update(ctx: &mut ring::digest::Context, data: &[u8])
    ensures
        ctx_input(*final(ctx)) == ctx_input(*old(ctx)) + data@,
        ctx_algorithm(*final(ctx)) == ctx_algorithm(*old(ctx)),
{
    ctx.update(data)
}

/// Relies on the `Clone` impl of ring::digest::Context: an independent copy
/// holding the same state.
#[verifier::external_body]
pub(crate) fn context_clone(ctx: &ring::digest::Context) -> (r: ring::digest::Context)
    ensures
        ctx_input(r) == ctx_input(*ctx),
        ctx_algorithm(r) == ctx_algorithm(*ctx),
{
    ctx.clone()
}

/// Relies on ring::digest::Context::finish and Digest::as_ref: the digest of
/// everything absorbed, the same as a one-shot digest of those bytes, cut to
/// the algorithm's output length. It panics when the length in bits does not fit a `u64`.
#[verifier::external_body]
pub(crate) fn context_finish(ctx: ring::digest::Context) -> (r: Vec<u8>)
    requires
        ctx_input(ctx).len() <= MAX_DIGEST_INPUT,
    ensures
        r@ == digest_of(ctx_algorithm(ctx), ctx_input(ctx)),
        r@.len() == digest_len(ctx_algorithm(ctx)),
{
    ctx.finish().as_ref().to_vec()
}

} // verus!
