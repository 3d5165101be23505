//! Participants are known by their public key. The key is taken as it
//! comes: nothing here looks inside it, keys are only copied and compared.

use anchor_lang::prelude::Pubkey;
use vstd::prelude::*;

verus! {

/// `anchor_lang::prelude::Pubkey`, the 32-byte address of an account,
/// declared so that it can stand in fields and signatures. Its contents are
/// not visible to proofs.
#[verifier::external_type_specification]
#[verifier::external_body]
pub struct ExPubkey(anchor_lang::prelude::Pubkey);

/// Calls `Pubkey`'s `==`, which the key type derives and which compares the
/// 32 bytes. Trusted: the result is `true` exactly when the two keys are
/// the same value.
#[verifier::external_body]
pub(crate) fn same_key(a: &Pubkey, b: &Pubkey) -> (same: bool)
    ensures
        same == (*a == *b),
{
    a == b
}

} // verus!
