//! Integrity checking of a downloaded release payload against a detached
//! checksum sidecar.  The sidecar holds a hex digest, possibly followed by
//! whitespace and a file name; comparison is case- and whitespace-normalized.

use vstd::prelude::*;
use crate::ascii::{first_token, first_token_of, hex_of, hex_encode, lower_bytes, lowercase,
    bytes_eq};

verus! {

/// The SHA-256 digest of a byte sequence.  The digest is a function of the
/// bytes alone; its value is not axiomatized here.
pub uninterp spec fn sha256_of(data: Seq<u8>) -> Seq<u8>;

/// Relies on `sha2::Sha256` (the `Digest::digest` convenience method): the
/// digest depends on the input bytes alone and is 32 bytes long.
#[verifier::external_body]
fn sha256_digest(data: &[u8]) -> (r: Vec<u8>)
    ensures
        r@ == sha256_of(data@),
        r@.len() == 32,
{
    <sha2::Sha256 as sha2::Digest>::digest(data).to_vec()
}

/// The digest a sidecar file claims: its first whitespace-delimited token,
/// lowercased.
pub open spec fn claimed_digest(sidecar: Seq<u8>) -> Seq<u8> {
    lower_bytes(first_token(sidecar))
}

/// Whether the sidecar's claimed digest equals the payload's SHA-256 digest
/// in lowercase hex.
pub open spec fn checksum_ok(payload: Seq<u8>, sidecar: Seq<u8>) -> bool {
    claimed_digest(sidecar) == hex_of(sha256_of(payload))
}

/// Checks the downloaded payload against the checksum sidecar's contents.
pub fn verify_checksum(payload: &[u8], sidecar: &[u8]) -> (r: bool)
    ensures
        r == checksum_ok(payload@, sidecar@),
{
    let digest = sha256_digest(payload);
    let expected = hex_encode(digest.as_slice());
    let token = first_token_of(sidecar);
    let claimed = lowercase(token.as_slice());
    bytes_eq(claimed.as_slice(), expected.as_slice())
}

} // verus!
