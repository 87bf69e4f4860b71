//! The commitment published in place of a riddle's answer.
use vstd::prelude::*;

verus! {

/// The Keccak-256 digest of a byte string.
pub uninterp spec fn keccak256_of(bytes: Seq<u8>) -> Seq<u8>;

/// Relies on `ethers::utils::keccak256`: the Keccak-256 digest of the given
/// bytes, which depends on those bytes alone.
#[verifier::external_body]
fn keccak256(bytes: &[u8]) -> (r: [u8; 32])
    ensures
        r@ == keccak256_of(bytes@),
{
    ethers::utils::keccak256(bytes)
}

/// The commitment to an answer: the digest of its UTF-8 encoding, taken
/// exactly as given (no case or whitespace normalisation).
pub open spec fn commitment_of(answer: Seq<char>) -> Seq<u8> {
    keccak256_of(vstd::utf8::encode_utf8(answer))
}

/// Derives the commitment that the contract later checks guesses against.
pub fn commit(answer: &str) -> (r: [u8; 32])
    ensures
        r@ == commitment_of(answer@),
{
    keccak256(answer.as_bytes())
}

/// The commitment depends on the answer text alone: equal answers always
/// give equal commitments.
pub proof fn lemma_commit_deterministic(a: Seq<char>, b: Seq<char>)
    requires
        a == b,
    ensures
        commitment_of(a) == commitment_of(b),
{
}

} // verus!
