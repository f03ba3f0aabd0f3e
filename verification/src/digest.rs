//! Content hashes of uploaded files: SHA-256 in lowercase hexadecimal.
use vstd::prelude::*;
use sha2::Digest;
use crate::encoding::{hex_of_bytes, lemma_hex_of_bytes_len};

verus! {

/// What `sha2::Sha256::digest` computes of a byte string.
pub uninterp spec fn sha256(data: Seq<u8>) -> Seq<u8>;

/// `sha2::Sha256::digest`. Trusted: the result is `sha256` of the input and
/// has 32 bytes.
#[verifier::external_body]
fn sha256_digest(data: &[u8]) -> (r: Vec<u8>)
    ensures
        r@ == sha256(data@),
        r@.len() == 32,
{
    sha2::Sha256::digest(data).to_vec()
}

/// `hex::encode`. Trusted: two lowercase hexadecimal digits per byte, high
/// nibble first.
#[verifier::external_body]
fn hex_encode(data: &[u8]) -> (r: String)
    ensures
        r@ == hex_of_bytes(data@),
{
    hex::encode(data)
}

/// The content hash stored with a file: its SHA-256 as 64 lowercase hex digits.
pub fn content_hash(body: &[u8]) -> (r: String)
    ensures
        r@ == hex_of_bytes(sha256(body@)),
        r@.len() == 64,
{
    let d = sha256_digest(body);
    let r = hex_encode(d.as_slice());
    proof {
        lemma_hex_of_bytes_len(d@);
    }
    r
}

} // verus!
