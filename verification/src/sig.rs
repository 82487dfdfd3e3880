//! The threshold-signature facade: partial signing and verification with a
//! distributed-key-generation share, aggregation under a quorum, and final
//! verification under the group public key.

use vstd::prelude::*;

use crate::crypto;
use crate::error::Error;

verus! {

/// A node's long-term signing share: its index in the shared polynomial and
/// the private scalar, as opaque bytes.
pub struct Share {
    pub index: usize,
    pub private: Vec<u8>,
}

impl Share {
    /// The index fits in the share-index space.
    pub open spec fn wf(&self) -> bool {
        self.index < 4294967295
    }
}

/// Signs `msg` with the node's share. Deterministic: the result is the
/// partial signature that this share yields on this message, carrying the
/// signer's index.
pub fn partial_sign(share: &Share, msg: &str) -> (r: Vec<u8>)
    requires
        share.wf(),
    ensures
        r@ == crypto::partial_sig_of(share.index as int, share.private@, msg@),
{
    crypto::bls_partial_sign(share.index, &share.private, msg)
}

/// Checks one partial signature against the shared public polynomial: it
/// passes exactly when it matches the public share that the polynomial
/// assigns to the signer's index.
pub fn partial_verify(public: &Vec<u8>, msg: &str, partial: &Vec<u8>) -> (r: bool)
    ensures
        r == crypto::partial_sig_valid(public@, msg@, partial@),
{
    crypto::bls_partial_verify(public, msg, partial)
}

/// Combines at least `threshold` partial signatures into one aggregated
/// signature. Fewer partials than the threshold are refused outright, never
/// silently padded; a set the backing scheme cannot combine — a malformed
/// envelope, a signer index outside the share-index space, or two partials
/// claiming one signer — is reported as a distinct failure. Success holds
/// exactly when the quorum is reached and the set is combinable.
pub fn aggregate(threshold: usize, partials: &Vec<Vec<u8>>) -> (r: Result<Vec<u8>, Error>)
    ensures
        r is Ok <==> partials@.len() >= threshold && crypto::aggregate_ok(
            threshold as int,
            partials.deep_view(),
        ),
        (r matches Err(e) && e == Error::NotEnoughPartialSignatures) <==> partials@.len()
            < threshold,
        (r matches Err(e) && e == Error::AggregationFailed) <==> partials@.len() >= threshold
            && !crypto::aggregate_ok(threshold as int, partials.deep_view()),
        r matches Ok(v) ==> v@ == crypto::aggregate_of(threshold as int, partials.deep_view()),
    {
    if partials.len() < threshold {
        return Err(Error::NotEnoughPartialSignatures);
    }
    match crypto::bls_aggregate(threshold, partials) {
        Some(sig) => Ok(sig),
        None => Err(Error::AggregationFailed),
    }
}

/// Verifies an aggregated signature under the group public key: the
/// system's terminal correctness check before an output is published.
pub fn verify(public_key: &Vec<u8>, msg: &str, signature: &Vec<u8>) -> (r: bool)
    ensures
        r == crypto::signature_valid(public_key@, msg@, signature@),
{
    crypto::bls_verify(public_key, msg, signature)
}

} // verus!
