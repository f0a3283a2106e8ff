//! Account identities as plain 32-byte values.
//!
//! Every participant — agent, provider, oracle, admin, token mint, the
//! signature-verification facility itself — is identified by 32 bytes. The
//! engine never derives or interprets an identity; it only compares them
//! byte for byte.

use vstd::prelude::*;

verus! {

broadcast use vstd::array::group_array_axioms;

/// A 32-byte account identity.
pub type Pubkey = [u8; 32];

/// Identity of the signature-verification facility whose records the
/// verifier accepts: the Ed25519 co-instruction program.
pub const ED25519_PROGRAM_ID: Pubkey = [
    3, 125, 70, 214, 124, 147, 251, 190, 18, 249, 66, 143, 131, 141, 64, 255, 5, 112, 116, 73, 39,
    244, 138, 100, 252, 202, 112, 68, 128, 0, 0, 0,
];

/// Compares two identities byte for byte.
pub fn pubkey_eq(a: &Pubkey, b: &Pubkey) -> (r: bool)
    ensures
        r <==> a@ == b@,
        r <==> *a == *b,
{
    let mut i: usize = 0;
    while i < 32
        invariant
            i <= 32,
            forall|j: int| 0 <= j < i ==> a@[j] == b@[j],
        decreases 32 - i,
    {
        if a[i] != b[i] {
            assert(a@[i as int] != b@[i as int]);
            assert(a@ != b@);
            return false;
        }
        i += 1;
    }
    assert(a@ =~= b@);
    assert(*a =~= *b);
    true
}

/// Whether the list holds this identity.
pub fn contains_pubkey(keys: &Vec<Pubkey>, pk: &Pubkey) -> (r: bool)
    ensures
        r <==> exists|k: int| 0 <= k < keys@.len() && keys@[k] == *pk,
{
    let mut i: usize = 0;
    while i < keys.len()
        invariant
            i <= keys@.len(),
            forall|k: int| 0 <= k < i ==> keys@[k] != *pk,
        decreases keys@.len() - i,
    {
        if pubkey_eq(&keys[i], pk) {
            return true;
        }
        i += 1;
    }
    false
}

} // verus!
