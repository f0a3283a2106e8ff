//! Verification of authenticated-signature instruction records.
//!
//! The execution environment checks the elliptic-curve math of a signature
//! in a separate co-instruction and leaves behind a record of what it
//! checked. The verifier here defends against substitution and reuse: it
//! re-validates that the record at the claimed position was produced by the
//! signature-verification facility, declares exactly one signature, and
//! embeds exactly the expected signature, signer and message bytes.

use vstd::prelude::*;
use crate::errors::EscrowError;
use crate::keys::{pubkey_eq, Pubkey, ED25519_PROGRAM_ID};

verus! {

/// One instruction record of the surrounding authenticated batch, as the
/// environment hands it over: the identity of the program that produced it
/// and its raw data bytes.
pub struct InstructionRecord {
    /// Identity of the program that produced the record.
    pub program_id: Pubkey,
    /// The record's raw data.
    pub data: Vec<u8>,
}

/// A little-endian 16-bit value read from two bytes.
pub open spec fn le16(lo: u8, hi: u8) -> int {
    lo + 256 * hi
}

/// Whether an instruction record authenticates exactly this signature,
/// signer and message: it was produced by the signature-verification
/// facility, declares exactly one signature, and the bytes at its declared
/// offsets equal the expected ones. The record's layout is: count and
/// padding in bytes 0..2, little-endian offsets of the signature, public
/// key and message (with the message's size) among bytes 2..16, the data
/// they point into after that.
pub open spec fn ed25519_record_matches(
    program_id: Seq<u8>,
    data: Seq<u8>,
    signature: Seq<u8>,
    signer: Seq<u8>,
    message: Seq<u8>,
) -> bool {
    &&& program_id == ED25519_PROGRAM_ID@
    &&& data.len() >= 16
    &&& data[0] == 1
    &&& {
        let sig_offset = le16(data[2], data[3]);
        let pubkey_offset = le16(data[6], data[7]);
        let message_offset = le16(data[10], data[11]);
        let message_size = le16(data[12], data[13]);
        &&& sig_offset + 64 <= data.len()
        &&& data.subrange(sig_offset, sig_offset + 64) == signature
        &&& pubkey_offset + 32 <= data.len()
        &&& data.subrange(pubkey_offset, pubkey_offset + 32) == signer
        &&& message_offset + message_size <= data.len()
        &&& data.subrange(message_offset, message_offset + message_size) == message
    }
}

/// A signature record authenticates at most one message: a record that
/// matches some message matches no message that differs from it, even in a
/// single byte. Together with `verify_ed25519_signature`'s contract, a
/// structurally valid record whose embedded message differs anywhere from
/// the expected one is rejected.
pub proof fn lemma_record_binds_message(
    program_id: Seq<u8>,
    data: Seq<u8>,
    signature: Seq<u8>,
    signer: Seq<u8>,
    message: Seq<u8>,
    other: Seq<u8>,
)
    requires
        message != other,
        ed25519_record_matches(program_id, data, signature, signer, message),
    ensures
        !ed25519_record_matches(program_id, data, signature, signer, other),
{
}

/// A signature record likewise authenticates at most one signer.
pub proof fn lemma_record_binds_signer(
    program_id: Seq<u8>,
    data: Seq<u8>,
    signature: Seq<u8>,
    signer: Seq<u8>,
    other: Seq<u8>,
    message: Seq<u8>,
)
    requires
        signer != other,
        ed25519_record_matches(program_id, data, signature, signer, message),
    ensures
        !ed25519_record_matches(program_id, data, signature, other, message),
{
}

/// Compares `data[offset..offset + expected.len()]` with `expected`.
fn bytes_match_at(data: &Vec<u8>, offset: usize, expected: &[u8]) -> (r: bool)
    requires
        offset + expected@.len() <= data@.len(),
    ensures
        r <==> data@.subrange(offset as int, offset + expected@.len()) == expected@,
{
    let n = expected.len();
    let dlen = data.len();
    let mut i: usize = 0;
    while i < n
        invariant
            i <= n,
            n == expected@.len(),
            dlen == data@.len(),
            offset + n <= dlen,
            forall|j: int| 0 <= j < i ==> data@[offset + j] == expected@[j],
        decreases n - i,
    {
        if data[offset + i] != expected[i] {
            assert(data@.subrange(offset as int, offset + expected@.len())[i as int] != expected@[
            i as int]);
            return false;
        }
        i += 1;
    }
    assert(data@.subrange(offset as int, offset + expected@.len()) =~= expected@);
    true
}

/// Validates the authenticated-signature record at `instruction_index` in
/// the supplied instruction batch: it must come from the Ed25519
/// verification facility, declare exactly one signature, and embed exactly
/// the given signature, signer identity and message. Any mismatch — or a
/// missing or malformed record — fails with `InvalidSignature`.
pub fn verify_ed25519_signature(
    instructions: &Vec<InstructionRecord>,
    signature: &[u8; 64],
    verifier_pubkey: &Pubkey,
    message: &[u8],
    instruction_index: u16,
) -> (r: Result<(), EscrowError>)
    ensures
        r is Ok <==> instruction_index < instructions@.len() && ed25519_record_matches(
            instructions@[instruction_index as int].program_id@,
            instructions@[instruction_index as int].data@,
            signature@,
            verifier_pubkey@,
            message@,
        ),
        r is Err ==> r == Err::<(), EscrowError>(EscrowError::InvalidSignature),
{
    if instruction_index as usize >= instructions.len() {
        return Err(EscrowError::InvalidSignature);
    }
    let ix = &instructions[instruction_index as usize];

    if !pubkey_eq(&ix.program_id, &ED25519_PROGRAM_ID) {
        return Err(EscrowError::InvalidSignature);
    }
    if ix.data.len() < 16 {
        return Err(EscrowError::InvalidSignature);
    }
    if ix.data[0] != 1 {
        return Err(EscrowError::InvalidSignature);
    }

    let sig_offset: usize = ix.data[2] as usize + 256 * (ix.data[3] as usize);
    let pubkey_offset: usize = ix.data[6] as usize + 256 * (ix.data[7] as usize);
    let message_offset: usize = ix.data[10] as usize + 256 * (ix.data[11] as usize);
    let message_size: usize = ix.data[12] as usize + 256 * (ix.data[13] as usize);

    if sig_offset + 64 > ix.data.len() {
        return Err(EscrowError::InvalidSignature);
    }
    if !bytes_match_at(&ix.data, sig_offset, signature.as_slice()) {
        return Err(EscrowError::InvalidSignature);
    }

    if pubkey_offset + 32 > ix.data.len() {
        return Err(EscrowError::InvalidSignature);
    }
    if !bytes_match_at(&ix.data, pubkey_offset, verifier_pubkey.as_slice()) {
        return Err(EscrowError::InvalidSignature);
    }

    if message_offset + message_size > ix.data.len() {
        return Err(EscrowError::InvalidSignature);
    }
    if message_size != message.len() {
        assert(ix.data@.subrange(message_offset as int, message_offset + message_size).len()
            != message@.len());
        return Err(EscrowError::InvalidSignature);
    }
    if !bytes_match_at(&ix.data, message_offset, message) {
        return Err(EscrowError::InvalidSignature);
    }

    Ok(())
}

/// The decimal digits of `n`, as bytes.
pub open spec fn spec_decimal(n: nat) -> Seq<u8>
    decreases n,
{
    if n < 10 {
        seq![(48 + n) as u8]
    } else {
        spec_decimal(n / 10).push((48 + n % 10) as u8)
    }
}

/// The canonical message an oracle signs for a dispute resolution: the
/// transaction identifier, a colon, and the quality score in decimal.
pub open spec fn spec_score_message(transaction_id: Seq<u8>, quality_score: u8) -> Seq<u8> {
    transaction_id + seq![58u8] + spec_decimal(quality_score as nat)
}

/// Builds the canonical dispute-resolution message bytes for a transaction
/// identifier and quality score.
pub fn score_message(transaction_id: &Vec<u8>, quality_score: u8) -> (r: Vec<u8>)
    requires
        quality_score <= 100,
    ensures
        r@ == spec_score_message(transaction_id@, quality_score),
{
    let mut out: Vec<u8> = Vec::new();
    let mut i: usize = 0;
    while i < transaction_id.len()
        invariant
            i <= transaction_id@.len(),
            out@ == transaction_id@.subrange(0, i as int),
        decreases transaction_id@.len() - i,
    {
        out.push(transaction_id[i]);
        assert(out@ =~= transaction_id@.subrange(0, i + 1));
        i += 1;
    }
    assert(out@ =~= transaction_id@);
    out.push(58);
    proof {
        reveal_with_fuel(spec_decimal, 4);
    }
    if quality_score == 100 {
        out.push(49);
        out.push(48);
        out.push(48);
        assert(out@ =~= spec_score_message(transaction_id@, quality_score));
    } else if quality_score >= 10 {
        out.push(48 + quality_score / 10);
        out.push(48 + quality_score % 10);
        assert(out@ =~= spec_score_message(transaction_id@, quality_score));
    } else {
        out.push(48 + quality_score);
        assert(out@ =~= spec_score_message(transaction_id@, quality_score));
    }
    out
}

} // verus!
