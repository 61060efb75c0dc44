//! Content digests as a manifest states them: the digest of a file's bytes,
//! encoded in Crockford base-32.
use vstd::prelude::*;

use crate::manifest::HashAlgorithm;

verus! {

/// The digest that ring computes of `data` under `alg`.
pub uninterp spec fn digest_of(alg: HashAlgorithm, data: Seq<u8>) -> Seq<u8>;

/// The Crockford base-32 text that the base32 crate makes of `data`.
pub uninterp spec fn crockford_of(data: Seq<u8>) -> Seq<char>;

/// Relies on ring::digest::digest: the digest of `data` under the given
/// algorithm, which depends on the algorithm and the bytes alone.
#[verifier::external_body]
fn ring_digest(alg: HashAlgorithm, data: &[u8]) -> (r: Vec<u8>)
    ensures
        r@ == digest_of(alg, data@),
{
    let a: &'static ring::digest::Algorithm = match alg {
        HashAlgorithm::Sha256 => &ring::digest::SHA256,
        HashAlgorithm::Sha384 => &ring::digest::SHA384,
        HashAlgorithm::Sha512 => &ring::digest::SHA512,
        HashAlgorithm::Sha512_256 => &ring::digest::SHA512_256,
    };
    ring::digest::digest(a, data).as_ref().to_vec()
}

/// Relies on base32::encode with the Crockford alphabet (never padded): the
/// text depends on the bytes alone.
#[verifier::external_body]
fn crockford_encode(data: &[u8]) -> (r: String)
    ensures
        r@ == crockford_of(data@),
{
    base32::encode(base32::Alphabet::Crockford, data)
}

/// The hash that a manifest states for a file whose bytes are `data`.
pub open spec fn content_hash(alg: HashAlgorithm, data: Seq<u8>) -> Seq<char> {
    crockford_of(digest_of(alg, data))
}

/// Computes the manifest hash of `data`.
pub fn hash_content(alg: HashAlgorithm, data: &[u8]) -> (r: String)
    ensures
        r@ == content_hash(alg, data@),
{
    let d = ring_digest(alg, data);
    crockford_encode(d.as_slice())
}

/// Whether the hash computed of a download is the one the manifest states.
pub fn hash_verified(computed: &String, expected: &String) -> (r: bool)
    ensures
        r == (computed@ == expected@),
{
    *computed == *expected
}

/// Whether `data` has the hash `expected` under `alg`.
pub fn content_matches(alg: HashAlgorithm, data: &[u8], expected: &String) -> (r: bool)
    ensures
        r == (content_hash(alg, data@) == expected@),
{
    let h = hash_content(alg, data);
    hash_verified(&h, expected)
}

} // verus!
