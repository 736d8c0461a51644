//! Content addresses: the SHA-256 digest that names an installed directory.

use sha2::{Digest, Sha256};
use vstd::prelude::*;

verus! {

/// The SHA-256 digest of `data` in lower-case hexadecimal, as `sha2` and `{:x}` give it.
pub uninterp spec fn sha256_hex(data: Seq<u8>) -> Seq<char>;

/// Calls `sha2::Sha256::digest` on the bytes and formats the 32-byte array it returns with
/// `{:x}`, which writes two hexadecimal digits for each byte. Trusted: the text is a function
/// of the bytes alone, and it is 64 characters long.
#[verifier::external_body]
pub(crate) fn sha256_hex_of(data: &Vec<u8>) -> (hex: String)
    ensures
        hex@ == sha256_hex(data@),
        hex@.len() == 64,
{
    format!("{:x}", Sha256::digest(data))
}

} // verus!
