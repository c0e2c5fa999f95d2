//! Hashing, constant-time comparison and random identifiers, each a call
//! into the outside crate that provides it.
use vstd::prelude::*;
use sha2::Digest;
use subtle::ConstantTimeEq;
use rand::distr::SampleString;

verus! {

/// The SHA-256 digest of a byte sequence.
pub uninterp spec fn sha256(data: Seq<u8>) -> Seq<u8>;

/// Calls `sha2::Sha256::digest`. Trusted to return the SHA-256 digest of
/// `data`, named `sha256`, whose length is always 32 bytes.
#[verifier::external_body]
pub fn sha256_digest(data: &[u8]) -> (r: Vec<u8>)
    ensures
        r@ == sha256(data@),
        r@.len() == 32,
{
    sha2::Sha256::digest(data).to_vec()
}

/// Calls `subtle::ConstantTimeEq::ct_eq` on two byte slices and reads the
/// `Choice` as a `bool`. Trusted to be true exactly when the slices have the
/// same length and the same bytes (its source compares lengths, then every
/// byte).
#[verifier::external_body]
pub fn constant_time_eq(a: &[u8], b: &[u8]) -> (r: bool)
    ensures
        r == (a@ == b@),
{
    bool::from(a.ct_eq(b))
}

/// An ASCII letter or digit.
pub open spec fn is_ascii_alphanumeric(c: char) -> bool {
    ('a' <= c && c <= 'z') || ('A' <= c && c <= 'Z') || ('0' <= c && c <= '9')
}

/// Calls `rand::distr::Alphanumeric.sample_string` with the thread-local
/// generator `rand::rng()`. Trusted to return `len` characters, each an
/// ASCII letter or digit; which ones is left to chance and not stated.
#[verifier::external_body]
pub fn random_alphanumeric(len: usize) -> (r: String)
    ensures
        r@.len() == len,
        forall|i: int| 0 <= i < r@.len() ==> is_ascii_alphanumeric(#[trigger] r@[i]),
{
    rand::distr::Alphanumeric.sample_string(&mut rand::rng(), len)
}

} // verus!
