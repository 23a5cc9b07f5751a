//! The block digest: SHA-256 over the fields' concatenated text, shown as
//! lowercase hexadecimal.
use vstd::prelude::*;
use vstd::string::*;
use vstd::utf8::encode_utf8;
use sha2::Digest;
use crate::text::{decimal, decimal_text, hex, hex_text};

verus! {

/// What SHA-256 yields for the given bytes.
pub uninterp spec fn sha256_of(data: Seq<u8>) -> Seq<u8>;

/// Relies on `sha2::Sha256::digest`: the SHA-256 hash of the bytes, which is
/// 32 bytes long and depends on the bytes alone.
#[verifier::external_body]
fn sha256(data: &[u8]) -> (r: Vec<u8>)
    ensures
        r@ == sha256_of(data@),
        r@.len() == 32,
{
    sha2::Sha256::digest(data).to_vec()
}

/// The text that is hashed for a block: its fields written one after the
/// other, integers in decimal, with no separator between them.
pub open spec fn preimage(
    index: u64,
    timestamp: u128,
    data: Seq<char>,
    previous_hash: Seq<char>,
    nonce: u64,
) -> Seq<char> {
    decimal(index as nat) + decimal(timestamp as nat) + data + previous_hash + decimal(nonce as nat)
}

/// The digest of a block's fields, as 64 lowercase hexadecimal digits.
pub open spec fn block_digest(
    index: u64,
    timestamp: u128,
    data: Seq<char>,
    previous_hash: Seq<char>,
    nonce: u64,
) -> Seq<char> {
    hex(sha256_of(encode_utf8(preimage(index, timestamp, data, previous_hash, nonce))))
}

/// Builds the text that is hashed for a block.
pub fn preimage_text(
    index: u64,
    timestamp: u128,
    data: &str,
    previous_hash: &str,
    nonce: u64,
) -> (r: String)
    ensures
        r@ == preimage(index, timestamp, data@, previous_hash@, nonce),
{
    let mut s = decimal_text(index as u128);
    s.append(decimal_text(timestamp).as_str());
    s.append(data);
    s.append(previous_hash);
    s.append(decimal_text(nonce as u128).as_str());
    s
}

/// Computes the digest of a block's fields.
pub fn calculate_hash(
    index: u64,
    timestamp: u128,
    data: &str,
    previous_hash: &str,
    nonce: u64,
) -> (r: String)
    ensures
        r@ == block_digest(index, timestamp, data@, previous_hash@, nonce),
{
    let input = preimage_text(index, timestamp, data, previous_hash, nonce);
    let digest = sha256(input.as_str().as_bytes());
    hex_text(digest.as_slice())
}

} // verus!
