//! The authorization gate: the one decision function of this crate.
//!
//! Given a hash identifying a pending intent, a signature over that hash, a
//! claimed signer key and a caller-supplied timestamp, `decide` says whether
//! the intent may be executed and, on success, emits an audit token.
//! The checks run in a fixed order and stop at the first failure: input
//! validation, signature verification, then one query of the state oracle.

use vstd::prelude::*;
use crate::crypto::key_decodes;
use crate::crypto::key_parses;
use crate::crypto::sha256_digest;
use crate::crypto::sha256_of;
use crate::crypto::sig_decodes;
use crate::crypto::sig_parses;
use crate::crypto::sig_verifies;
use crate::crypto::uncompressed_of;
use crate::crypto::uncompressed_point;
use crate::crypto::verify_signature;

verus! {

/// The single byte that tags the AUTHORIZED intent state in the signed message.
pub const AUTHORIZED_TAG: u8 = 1;

/// Why a request was denied. The taxonomy is closed: every denial is one
/// of these three, and no denial is ever downgraded to success.
#[derive(Clone, Copy, Debug, PartialEq, Eq, Structural)]
pub enum GateError {
    /// Cryptographic material malformed, or verification failed.
    InvalidSignature,
    /// Cryptography fine, but the intent is not currently AUTHORIZED.
    InvalidState,
    /// Malformed or missing raw input at the boundary.
    HashMismatch,
}

/// The immutable record emitted on a granted request: the intent hash, a
/// digest identifying the approver's key, and the caller-supplied timestamp.
#[derive(Clone, Debug)]
pub struct AuditToken {
    pub intent_hash: Vec<u8>,
    pub approver_id: Vec<u8>,
    pub executed_at: u64,
}

impl AuditToken {
    /// Both digests a token carries are exactly 32 bytes.
    pub open spec fn wf(&self) -> bool {
        self.intent_hash@.len() == 32 && self.approver_id@.len() == 32
    }
}

/// Read-only external service reporting an intent's current state. The decision function
/// queries it exactly once per call, after the cryptographic checks pass.
pub trait StateOracle {
    /// Answers whether the intent identified by the 32-byte hash is currently
    /// in the AUTHORIZED state.
    fn is_authorized(&self, intent_hash: &Vec<u8>) -> bool
        requires
            intent_hash@.len() == 32,
    ;
}

/// Read-only external service reporting whether a key digest belongs to a
/// registered approver. It is part of the boundary but the decision
/// path does not consult it: the caller asserts the key's registration.
pub trait CustodianRegistry {
    /// Answers whether the 32-byte key digest is a registered approver's.
    fn is_registered(&self, key_digest: &Vec<u8>) -> bool
        requires
            key_digest@.len() == 32,
    ;
}

/// The signed message: the intent hash followed by the AUTHORIZED tag byte.
/// This fixed layout binds a signature to one intent in one state.
pub open spec fn message_of(hash: Seq<u8>) -> Seq<u8> {
    hash.push(AUTHORIZED_TAG)
}

/// The raw inputs pass the boundary check: the hash is exactly 32 bytes and
/// neither the signature nor the key is empty.
pub open spec fn inputs_well_formed(hash: Seq<u8>, sig: Seq<u8>, key: Seq<u8>) -> bool {
    hash.len() == 32 && sig.len() > 0 && key.len() > 0
}

/// Both encodings parse and the signature verifies over the reconstructed
/// message under the claimed key.
pub open spec fn signature_accepted(hash: Seq<u8>, sig: Seq<u8>, key: Seq<u8>) -> bool {
    key_parses(key) && sig_parses(sig) && sig_verifies(key, message_of(hash), sig)
}

/// The approver identifier a token carries: the SHA-256 digest of the key's
/// canonical uncompressed point encoding.
pub open spec fn approver_id_of(key: Seq<u8>) -> Seq<u8> {
    sha256_of(uncompressed_of(key))
}

/// A request is granted exactly when its inputs are well formed, its
/// signature is accepted, and the oracle reported the intent AUTHORIZED.
pub open spec fn granted(hash: Seq<u8>, sig: Seq<u8>, key: Seq<u8>, authorized: bool) -> bool {
    inputs_well_formed(hash, sig, key) && signature_accepted(hash, sig, key) && authorized
}

/// The error a denied request reports, by the first check that fails.
pub open spec fn denial_of(hash: Seq<u8>, sig: Seq<u8>, key: Seq<u8>) -> GateError {
    if !inputs_well_formed(hash, sig, key) {
        GateError::HashMismatch
    } else if !signature_accepted(hash, sig, key) {
        GateError::InvalidSignature
    } else {
        GateError::InvalidState
    }
}

/// The token `t` records the request `(hash, key, now)`.
pub open spec fn token_for(t: AuditToken, hash: Seq<u8>, key: Seq<u8>, now: u64) -> bool {
    t.intent_hash@ == hash && t.approver_id@ == approver_id_of(key) && t.executed_at == now
}

/// Builds the 33-byte message that an approver signs: `intent_hash || AUTHORIZED_TAG`.
pub fn build_message(intent_hash: &Vec<u8>) -> (r: Vec<u8>)
    requires
        intent_hash@.len() == 32,
    ensures
        r@ == message_of(intent_hash@),
        r@.len() == 33,
{
    let mut msg = intent_hash.clone();
    msg.push(AUTHORIZED_TAG);
    msg
}

/// The checks that precede the oracle query, in order: boundary validation,
/// then parsing and signature verification.
fn screen(intent_hash: &Vec<u8>, approver_sig: &Vec<u8>, verifying_key: &Vec<u8>) -> (r: Result<
    (),
    GateError,
>)
    ensures
        r is Ok <==> inputs_well_formed(intent_hash@, approver_sig@, verifying_key@)
            && signature_accepted(intent_hash@, approver_sig@, verifying_key@),
        r is Err ==> r->Err_0 == denial_of(intent_hash@, approver_sig@, verifying_key@)
            && r->Err_0 != GateError::InvalidState,
{
    if intent_hash.len() != 32 || approver_sig.len() == 0 || verifying_key.len() == 0 {
        return Err(GateError::HashMismatch);
    }
    if !key_decodes(verifying_key) {
        return Err(GateError::InvalidSignature);
    }
    if !sig_decodes(approver_sig) {
        return Err(GateError::InvalidSignature);
    }
    let msg = build_message(intent_hash);
    if !verify_signature(verifying_key, &msg, approver_sig) {
        return Err(GateError::InvalidSignature);
    }
    Ok(())
}

/// Emits the audit token for a granted request.
fn issue_token(intent_hash: &Vec<u8>, verifying_key: &Vec<u8>, now: u64) -> (t: AuditToken)
    requires
        intent_hash@.len() == 32,
        key_parses(verifying_key@),
    ensures
        t.wf(),
        token_for(t, intent_hash@, verifying_key@, now),
{
    let point = uncompressed_point(verifying_key);
    let approver_id = sha256_digest(&point);
    AuditToken { intent_hash: intent_hash.clone(), approver_id, executed_at: now }
}

/// Decides a request given the oracle's answer for its intent. The contract
/// is exact: the result is a function of the inputs.
pub fn decide_given_state(
    intent_hash: &Vec<u8>,
    approver_sig: &Vec<u8>,
    verifying_key: &Vec<u8>,
    now: u64,
    authorized: bool,
) -> (r: Result<AuditToken, GateError>)
    ensures
        r is Ok <==> granted(intent_hash@, approver_sig@, verifying_key@, authorized),
        r is Ok ==> (r->Ok_0).wf() && token_for(r->Ok_0, intent_hash@, verifying_key@, now),
        r is Err ==> r->Err_0 == denial_of(intent_hash@, approver_sig@, verifying_key@),
{
    match screen(intent_hash, approver_sig, verifying_key) {
        Err(e) => Err(e),
        Ok(()) => {
            if authorized {
                Ok(issue_token(intent_hash, verifying_key, now))
            } else {
                Err(GateError::InvalidState)
            }
        },
    }
}

/// The boundary entry point: validates the inputs, verifies the signature,
/// queries the state oracle exactly once, and emits the audit token or the
/// denial. Which way the oracle answers is the one thing this contract leaves
/// open; everything else is pinned.
pub fn decide<O: StateOracle>(
    oracle: &O,
    intent_hash: &Vec<u8>,
    approver_sig: &Vec<u8>,
    verifying_key: &Vec<u8>,
    now: u64,
) -> (r: Result<AuditToken, GateError>)
    ensures
        r is Ok ==> inputs_well_formed(intent_hash@, approver_sig@, verifying_key@)
            && signature_accepted(intent_hash@, approver_sig@, verifying_key@) && (r->Ok_0).wf()
            && token_for(r->Ok_0, intent_hash@, verifying_key@, now),
        r is Err ==> r->Err_0 == denial_of(intent_hash@, approver_sig@, verifying_key@),
        !(inputs_well_formed(intent_hash@, approver_sig@, verifying_key@) && signature_accepted(
            intent_hash@,
            approver_sig@,
            verifying_key@,
        )) ==> r is Err,
{
    match screen(intent_hash, approver_sig, verifying_key) {
        Err(e) => Err(e),
        Ok(()) => {
            if oracle.is_authorized(intent_hash) {
                Ok(issue_token(intent_hash, verifying_key, now))
            } else {
                Err(GateError::InvalidState)
            }
        },
    }
}

/// A well-formed, correctly signed request that the oracle denies fails with
/// `InvalidState`, never `InvalidSignature` or `HashMismatch`.
pub proof fn lemma_state_denial_is_invalid_state(hash: Seq<u8>, sig: Seq<u8>, key: Seq<u8>)
    requires
        inputs_well_formed(hash, sig, key),
        signature_accepted(hash, sig, key),
    ensures
        denial_of(hash, sig, key) == GateError::InvalidState,
        !granted(hash, sig, key, false),
{
}

/// An empty intent hash, signature or key is never granted and is always
/// reported as `HashMismatch`, whatever the oracle would answer.
pub proof fn lemma_empty_input_is_hash_mismatch(
    hash: Seq<u8>,
    sig: Seq<u8>,
    key: Seq<u8>,
    authorized: bool,
)
    requires
        hash.len() == 0 || sig.len() == 0 || key.len() == 0,
    ensures
        !granted(hash, sig, key, authorized),
        denial_of(hash, sig, key) == GateError::HashMismatch,
{
}

/// The signed message binds the intent hash and the AUTHORIZED tag bit-exactly:
/// 33 bytes for a 32-byte hash, the hash first, the tag last.
pub proof fn lemma_message_layout(hash: Seq<u8>)
    requires
        hash.len() == 32,
    ensures
        message_of(hash).len() == 33,
        message_of(hash).subrange(0, 32) == hash,
        message_of(hash)[32] == AUTHORIZED_TAG,
{
    assert(message_of(hash).subrange(0, 32) =~= hash);
}

/// A message built over any other state tag differs from the AUTHORIZED one,
/// so a signature bound to another state is never checked against the same
/// message as one bound to AUTHORIZED.
pub proof fn lemma_message_binds_state_tag(hash: Seq<u8>, other_tag: u8)
    requires
        other_tag != AUTHORIZED_TAG,
    ensures
        message_of(hash) != hash.push(other_tag),
{
    assert(message_of(hash)[hash.len() as int] == AUTHORIZED_TAG);
    assert(hash.push(other_tag)[hash.len() as int] == other_tag);
}

} // verus!
