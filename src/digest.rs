//! The dual digest commitment: BLAKE3 and SHA-256 over the same bytes, each
//! rendered as lowercase hex.

use vstd::prelude::*;
use sha2::Digest;
use crate::encoding::{hex_encode, hex_of};

verus! {

/// Length of either digest, in bytes.
pub const DIGEST_LEN: usize = 32;

/// The BLAKE3 hash of `data`.
pub uninterp spec fn blake3_of(data: Seq<u8>) -> Seq<u8>;

/// The SHA-256 hash of `data`.
pub uninterp spec fn sha256_of(data: Seq<u8>) -> Seq<u8>;

/// Relies on `blake3::hash`: the 32-byte BLAKE3 hash of its input.
#[verifier::external_body]
fn blake3_digest(data: &[u8]) -> (r: Vec<u8>)
    ensures
        r@ == blake3_of(data@),
        r@.len() == DIGEST_LEN,
{
    blake3::hash(data).as_bytes().to_vec()
}

/// Relies on `Digest::digest` of `sha2::Sha256`: the 32-byte SHA-256 hash
/// of its input.
#[verifier::external_body]
fn sha256_digest(data: &[u8]) -> (r: Vec<u8>)
    ensures
        r@ == sha256_of(data@),
        r@.len() == DIGEST_LEN,
{
    sha2::Sha256::digest(data).to_vec()
}

/// Hex text of the BLAKE3 hash of `data`.
pub open spec fn blake3_hex_of(data: Seq<u8>) -> Seq<char> {
    hex_of(blake3_of(data))
}

/// Hex text of the SHA-256 hash of `data`.
pub open spec fn sha256_hex_of(data: Seq<u8>) -> Seq<char> {
    hex_of(sha256_of(data))
}

/// Lowercase hex of the BLAKE3 hash of `data`.
pub fn blake3_hex(data: &[u8]) -> (r: String)
    ensures
        r@ == blake3_hex_of(data@),
        r@.len() == 2 * DIGEST_LEN,
{
    let d = blake3_digest(data);
    hex_encode(d.as_slice())
}

/// Lowercase hex of the SHA-256 hash of `data`.
pub fn sha256_hex(data: &[u8]) -> (r: String)
    ensures
        r@ == sha256_hex_of(data@),
        r@.len() == 2 * DIGEST_LEN,
{
    let d = sha256_digest(data);
    hex_encode(d.as_slice())
}

/// Two digests of one text, computed apart from each other.
#[derive(Clone, Debug, PartialEq, Eq)]
pub struct DigestPair {
    pub blake3_hex: String,
    pub sha256_hex: String,
}

/// The digest pair of `text`: both hashes are taken over its UTF-8 bytes.
pub open spec fn digest_pair_of(text: Seq<char>) -> (Seq<char>, Seq<char>) {
    let bytes = vstd::utf8::encode_utf8(text);
    (blake3_hex_of(bytes), sha256_hex_of(bytes))
}

/// Commits to `ciphertext_hex` by hashing its UTF-8 bytes with both
/// algorithms. Pure and total.
pub fn commit(ciphertext_hex: &str) -> (r: DigestPair)
    ensures
        (r.blake3_hex@, r.sha256_hex@) == digest_pair_of(ciphertext_hex@),
        r.blake3_hex@.len() == 2 * DIGEST_LEN,
        r.sha256_hex@.len() == 2 * DIGEST_LEN,
{
    let bytes = ciphertext_hex.as_bytes();
    let blake3_hex = blake3_hex(bytes);
    let sha256_hex = sha256_hex(bytes);
    DigestPair { blake3_hex, sha256_hex }
}

/// Each digest of a pair is the one its own algorithm gives alone: the
/// BLAKE3 half depends only on BLAKE3 and the text, the SHA-256 half only on
/// SHA-256 and the text, so two texts that agree under one algorithm agree in
/// that half whatever the other algorithm does with them.
pub proof fn lemma_digests_independent(t1: Seq<char>, t2: Seq<char>)
    ensures
        digest_pair_of(t1).0 == blake3_hex_of(vstd::utf8::encode_utf8(t1)),
        digest_pair_of(t1).1 == sha256_hex_of(vstd::utf8::encode_utf8(t1)),
        blake3_of(vstd::utf8::encode_utf8(t1)) == blake3_of(vstd::utf8::encode_utf8(t2))
            ==> digest_pair_of(t1).0 == digest_pair_of(t2).0,
        sha256_of(vstd::utf8::encode_utf8(t1)) == sha256_of(vstd::utf8::encode_utf8(t2))
            ==> digest_pair_of(t1).1 == digest_pair_of(t2).1,
{
}

} // verus!
