//! Signature verification for bundles and execution receipts.

use vstd::prelude::*;
use crate::primitives::{ExecutorId, H256, Signature};

verus! {

/// Whether `signature` is a valid sr25519 signature of `message` under the
/// public key `signer`, in the signing context that Substrate uses.
pub uninterp spec fn sr25519_signature_valid(
    signer: Seq<u8>,
    message: Seq<u8>,
    signature: Seq<u8>,
) -> bool;

/// Calls `sp_core::sr25519::Pair::verify`, which is what verification through
/// an executor's application key comes down to. Nothing is proved of it: the
/// outcome is taken to depend on the three byte strings alone, and is named
/// [`sr25519_signature_valid`].
#[verifier::external_body]
pub(crate) fn sr25519_verify(signer: &ExecutorId, message: &H256, signature: &Signature) -> (valid:
    bool)
    ensures
        valid == sr25519_signature_valid(signer@, message@, signature@),
{
    let public = sp_core::sr25519::Public::from_raw(*signer);
    let signature = sp_core::sr25519::Signature::from_raw(*signature);
    <sp_core::sr25519::Pair as sp_core::Pair>::verify(&signature, &message[..], &public)
}

} // verus!
