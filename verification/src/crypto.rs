//! Trusted boundary to the ECDSA/P-256 and SHA-256 implementations.
//!
//! Every function here is an `external_body` wrapper around one operation of
//! the `p256` or `sha2` crate; the uninterpreted spec functions name the
//! outcomes, all of which depend on the byte arguments alone.

use vstd::prelude::*;
use p256::ecdsa::signature::Verifier;
use sha2::Digest;

verus! {

/// Whether the byte string is a SEC1 encoding of a P-256 public key,
/// as `p256::ecdsa::VerifyingKey::from_sec1_bytes` accepts it.
pub uninterp spec fn key_parses(key: Seq<u8>) -> bool;

/// Whether the byte string is a fixed-width `r || s` encoding of a P-256
/// ECDSA signature, as `p256::ecdsa::Signature::from_slice` accepts it.
pub uninterp spec fn sig_parses(sig: Seq<u8>) -> bool;

/// The outcome of ECDSA/P-256 verification of the signature encoded by `sig`
/// over the message `msg` under the public key encoded by `key`.
pub uninterp spec fn sig_verifies(key: Seq<u8>, msg: Seq<u8>, sig: Seq<u8>) -> bool;

/// The canonical uncompressed SEC1 point encoding of the public key that
/// `key` encodes.
pub uninterp spec fn uncompressed_of(key: Seq<u8>) -> Seq<u8>;

/// The SHA-256 digest of the byte string.
pub uninterp spec fn sha256_of(bytes: Seq<u8>) -> Seq<u8>;

/// Relies on `p256::ecdsa::VerifyingKey::from_sec1_bytes`: it returns `Ok`
/// exactly on a valid SEC1 public-key encoding, a property of the bytes alone.
#[verifier::external_body]
pub(crate) fn key_decodes(key: &Vec<u8>) -> (r: bool)
    ensures
        r == key_parses(key@),
{
    p256::ecdsa::VerifyingKey::from_sec1_bytes(key.as_slice()).is_ok()
}

/// Relies on `p256::ecdsa::Signature::from_slice`: it returns `Ok` exactly on
/// a valid fixed-width signature encoding, a property of the bytes alone.
#[verifier::external_body]
pub(crate) fn sig_decodes(sig: &Vec<u8>) -> (r: bool)
    ensures
        r == sig_parses(sig@),
{
    p256::ecdsa::Signature::from_slice(sig.as_slice()).is_ok()
}

/// Relies on `p256::ecdsa::VerifyingKey::verify` (the `Verifier` impl of the
/// `ecdsa` crate): deterministic in the key, the message and the signature.
/// `from_sec1_bytes` and `from_slice` only convert the byte arguments, which
/// the caller has already checked.
#[verifier::external_body]
pub(crate) fn verify_signature(key: &Vec<u8>, msg: &Vec<u8>, sig: &Vec<u8>) -> (r: bool)
    requires
        key_parses(key@),
        sig_parses(sig@),
    ensures
        r == sig_verifies(key@, msg@, sig@),
{
    let parsed_key = match p256::ecdsa::VerifyingKey::from_sec1_bytes(key.as_slice()) {
        Ok(k) => k,
        Err(_) => return false,
    };
    let parsed_sig = match p256::ecdsa::Signature::from_slice(sig.as_slice()) {
        Ok(s) => s,
        Err(_) => return false,
    };
    parsed_key.verify(msg.as_slice(), &parsed_sig).is_ok()
}

/// Relies on `p256::ecdsa::VerifyingKey::to_sec1_point` with compression
/// off: the canonical uncompressed SEC1 encoding, 65 bytes for P-256, a
/// function of the key alone. `from_sec1_bytes` only converts the byte
/// argument, which the caller has already checked.
#[verifier::external_body]
pub(crate) fn uncompressed_point(key: &Vec<u8>) -> (r: Vec<u8>)
    requires
        key_parses(key@),
    ensures
        r@ == uncompressed_of(key@),
        r@.len() == 65,
{
    let parsed = match p256::ecdsa::VerifyingKey::from_sec1_bytes(key.as_slice()) {
        Ok(k) => k,
        Err(_) => return Vec::new(),
    };
    parsed.to_sec1_point(false).as_bytes().to_vec()
}

/// Relies on `sha2::Sha256` (its `Digest` impl): the 32-byte SHA-256 digest,
/// a function of the input bytes alone.
#[verifier::external_body]
pub(crate) fn sha256_digest(bytes: &Vec<u8>) -> (r: Vec<u8>)
    ensures
        r@ == sha256_of(bytes@),
        r@.len() == 32,
{
    sha2::Sha256::digest(bytes.as_slice()).to_vec()
}

} // verus!
