//! Identities of the fungible-token mints the deployment recognises.

use vstd::prelude::*;
use crate::keys::Pubkey;

verus! {

/// Mainnet USDC mint.
pub const USDC_MAINNET: Pubkey = [
    198, 250, 122, 243, 190, 219, 173, 58, 61, 101, 243, 106, 171, 201, 116, 49, 177, 187, 228,
    194, 210, 246, 224, 228, 124, 166, 2, 3, 69, 47, 93, 97,
];

/// Mainnet USDT mint.
pub const USDT_MAINNET: Pubkey = [
    206, 1, 14, 96, 175, 237, 178, 39, 23, 189, 99, 25, 47, 84, 20, 90, 63, 150, 90, 51, 187, 130,
    210, 199, 2, 158, 178, 206, 30, 32, 130, 100,
];

/// Devnet USDC mint.
pub const USDC_DEVNET: Pubkey = [
    233, 40, 57, 85, 9, 101, 255, 212, 214, 74, 202, 175, 70, 212, 93, 247, 49, 142, 91, 79, 87,
    201, 12, 72, 125, 96, 94, 89, 86, 98, 46, 123,
];

/// Whether a mint is one of the supported stablecoins.
pub fn is_stablecoin(mint: &Pubkey) -> (r: bool)
    ensures
        r <==> (*mint == USDC_MAINNET || *mint == USDT_MAINNET || *mint == USDC_DEVNET),
{
    crate::keys::pubkey_eq(mint, &USDC_MAINNET) || crate::keys::pubkey_eq(mint, &USDT_MAINNET)
        || crate::keys::pubkey_eq(mint, &USDC_DEVNET)
}

} // verus!
