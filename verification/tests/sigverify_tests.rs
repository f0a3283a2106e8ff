use x402_escrow::errors::EscrowError;
use x402_escrow::keys::ED25519_PROGRAM_ID;
use x402_escrow::sigverify::{score_message, verify_ed25519_signature, InstructionRecord};

/// Lays out a well-formed signature record: one signature, its bytes at
/// offset 16, the public key at offset 80, the message at offset 112.
fn make_record(signature: &[u8; 64], pubkey: &[u8; 32], message: &[u8]) -> InstructionRecord {
    let mut data = vec![0u8; 16];
    data[0] = 1;
    data[2] = 16; // signature offset
    data[6] = 80; // public key offset
    data[10] = 112; // message offset
    data[12] = (message.len() % 256) as u8;
    data[13] = (message.len() / 256) as u8;
    data.extend_from_slice(signature);
    data.extend_from_slice(pubkey);
    data.extend_from_slice(message);
    InstructionRecord { program_id: ED25519_PROGRAM_ID, data }
}

#[test]
fn valid_record_is_accepted() {
    let signature = [0xabu8; 64];
    let signer = [0x11u8; 32];
    let message = b"tx-1:87";
    let records = vec![make_record(&signature, &signer, message)];
    assert_eq!(
        verify_ed25519_signature(&records, &signature, &signer, message, 0),
        Ok(())
    );
}

#[test]
fn one_flipped_message_byte_is_rejected() {
    let signature = [0xabu8; 64];
    let signer = [0x11u8; 32];
    let mut record = make_record(&signature, &signer, b"tx-1:87");
    // Flip a single bit of one embedded message byte.
    let n = record.data.len();
    record.data[n - 1] ^= 1;
    let records = vec![record];
    assert_eq!(
        verify_ed25519_signature(&records, &signature, &signer, b"tx-1:87", 0),
        Err(EscrowError::InvalidSignature)
    );
}

#[test]
fn wrong_signer_is_rejected() {
    let signature = [0xabu8; 64];
    let records = vec![make_record(&signature, &[0x11u8; 32], b"tx-1:87")];
    assert_eq!(
        verify_ed25519_signature(&records, &signature, &[0x12u8; 32], b"tx-1:87", 0),
        Err(EscrowError::InvalidSignature)
    );
}

#[test]
fn wrong_signature_is_rejected() {
    let signer = [0x11u8; 32];
    let records = vec![make_record(&[0xabu8; 64], &signer, b"tx-1:87")];
    assert_eq!(
        verify_ed25519_signature(&records, &[0xacu8; 64], &signer, b"tx-1:87", 0),
        Err(EscrowError::InvalidSignature)
    );
}

#[test]
fn record_from_another_program_is_rejected() {
    let signature = [0xabu8; 64];
    let signer = [0x11u8; 32];
    let mut record = make_record(&signature, &signer, b"tx-1:87");
    record.program_id = [0u8; 32];
    let records = vec![record];
    assert_eq!(
        verify_ed25519_signature(&records, &signature, &signer, b"tx-1:87", 0),
        Err(EscrowError::InvalidSignature)
    );
}

#[test]
fn record_declaring_two_signatures_is_rejected() {
    let signature = [0xabu8; 64];
    let signer = [0x11u8; 32];
    let mut record = make_record(&signature, &signer, b"tx-1:87");
    record.data[0] = 2;
    let records = vec![record];
    assert_eq!(
        verify_ed25519_signature(&records, &signature, &signer, b"tx-1:87", 0),
        Err(EscrowError::InvalidSignature)
    );
}

#[test]
fn missing_record_index_is_rejected() {
    let signature = [0xabu8; 64];
    let signer = [0x11u8; 32];
    let records = vec![make_record(&signature, &signer, b"tx-1:87")];
    assert_eq!(
        verify_ed25519_signature(&records, &signature, &signer, b"tx-1:87", 1),
        Err(EscrowError::InvalidSignature)
    );
}

#[test]
fn truncated_record_is_rejected() {
    let signature = [0xabu8; 64];
    let signer = [0x11u8; 32];
    let mut record = make_record(&signature, &signer, b"tx-1:87");
    record.data.truncate(40);
    let records = vec![record];
    assert_eq!(
        verify_ed25519_signature(&records, &signature, &signer, b"tx-1:87", 0),
        Err(EscrowError::InvalidSignature)
    );
}

#[test]
fn message_uses_decimal_score_after_colon() {
    assert_eq!(score_message(&b"tx-1".to_vec(), 87), b"tx-1:87".to_vec());
    assert_eq!(score_message(&b"tx-1".to_vec(), 100), b"tx-1:100".to_vec());
    assert_eq!(score_message(&b"tx-1".to_vec(), 7), b"tx-1:7".to_vec());
    assert_eq!(score_message(&b"t".to_vec(), 0), b"t:0".to_vec());
    assert_eq!(score_message(&b"t".to_vec(), 10), b"t:10".to_vec());
}
