use x402_escrow::keys::{contains_pubkey, pubkey_eq};
use x402_escrow::token_mints::{is_stablecoin, USDC_DEVNET, USDC_MAINNET, USDT_MAINNET};

#[test]
fn known_stablecoin_mints_are_recognised() {
    assert!(is_stablecoin(&USDC_MAINNET));
    assert!(is_stablecoin(&USDT_MAINNET));
    assert!(is_stablecoin(&USDC_DEVNET));
}

#[test]
fn other_mints_are_not_stablecoins() {
    assert!(!is_stablecoin(&[0u8; 32]));
    let mut nearly = USDC_MAINNET;
    nearly[31] ^= 1;
    assert!(!is_stablecoin(&nearly));
}

#[test]
fn identity_comparison_is_byte_exact() {
    let a = [7u8; 32];
    let mut b = a;
    assert!(pubkey_eq(&a, &b));
    b[0] = 8;
    assert!(!pubkey_eq(&a, &b));
}

#[test]
fn identity_lookup_scans_the_list() {
    let keys = vec![[1u8; 32], [2u8; 32]];
    assert!(contains_pubkey(&keys, &[2u8; 32]));
    assert!(!contains_pubkey(&keys, &[3u8; 32]));
    assert!(!contains_pubkey(&Vec::new(), &[3u8; 32]));
}
