use vstd::bytes::{spec_u64_to_le_bytes, u64_to_le_bytes};
use vstd::prelude::*;

use crate::bytes::{append_bytes, bytes_eq, region_eq, Key};
use crate::merkle::{sha256, sha256_of};
use crate::state::SharelyError;

verus! {

/// An instruction submitted in the same transaction: the program it
/// addresses and its data.
#[derive(Clone, Debug, PartialEq, Eq)]
pub struct LoadedInstruction {
    pub program_id: Key,
    pub data: Vec<u8>,
}

/// Offset of the signer's public key in a signature-verification
/// instruction's data, right after the 16-byte offsets header.
pub const PUBKEY_OFFSET: usize = 16;

/// Offset of the 64-byte signature, right after the key.
pub const SIGNATURE_OFFSET: usize = 48;

/// Offset of the signed message, after the key and the signature.
pub const MESSAGE_OFFSET: usize = 112;

/// The instruction index by which an offsets header refers to its own
/// instruction.
pub const THIS_INSTRUCTION: u16 = 0xffff;

/// The id of the ledger's ed25519 signature-verification program,
/// `Ed25519SigVerify111111111111111111111111111` in base 58.
pub const ED25519_PROGRAM_ID: Key = [
    3, 125, 70, 214, 124, 147, 251, 190, 18, 249, 66, 143, 131, 141, 64, 255, 5, 112, 116, 73, 39,
    244, 138, 100, 252, 202, 112, 68, 128, 0, 0, 0,
];

/// Whether a key is the id of the ed25519 signature-verification program.
pub open spec fn is_ed25519_program(program_id: Seq<u8>) -> bool {
    program_id == ED25519_PROGRAM_ID@
}

/// Relies on `solana_program::ed25519_program::check_id`: whether the key
/// equals that program's id.
#[verifier::external_body]
fn ed25519_program_check(program_id: &Key) -> (r: bool)
    ensures
        r == is_ed25519_program(program_id@),
{
    anchor_lang::solana_program::ed25519_program::check_id(
        &anchor_lang::prelude::Pubkey::new_from_array(*program_id),
    )
}

/// The little-endian 16-bit field at `at`.
pub open spec fn u16_field(data: Seq<u8>, at: int) -> int {
    data[at] as int + 256 * (data[at + 1] as int)
}

/// Whether the offsets header of a signature-verification instruction asks
/// for exactly one signature whose signature, key and message all lie in this
/// same instruction, at the fixed offsets, the message running to the end.
pub open spec fn self_contained_header(data: Seq<u8>) -> bool {
    &&& data[0] == 1
    &&& u16_field(data, 2) == SIGNATURE_OFFSET
    &&& u16_field(data, 4) == THIS_INSTRUCTION
    &&& u16_field(data, 6) == PUBKEY_OFFSET
    &&& u16_field(data, 8) == THIS_INSTRUCTION
    &&& u16_field(data, 10) == MESSAGE_OFFSET
    &&& u16_field(data, 12) == data.len() - MESSAGE_OFFSET
    &&& u16_field(data, 14) == THIS_INSTRUCTION
}

/// Whether `ix` makes the ed25519 program check one signature of exactly
/// `message` under the key `signer`, with the key and the message taken from
/// `ix` itself. The ledger rejects the whole transaction if that signature
/// does not verify.
pub open spec fn verifies(ix: LoadedInstruction, signer: Seq<u8>, message: Seq<u8>) -> bool {
    &&& is_ed25519_program(ix.program_id@)
    &&& ix.data@.len() >= MESSAGE_OFFSET
    &&& self_contained_header(ix.data@)
    &&& ix.data@.subrange(PUBKEY_OFFSET as int, PUBKEY_OFFSET + 32) == signer
    &&& ix.data@.subrange(MESSAGE_OFFSET as int, ix.data@.len() as int) == message
}

/// Reads the little-endian 16-bit field at `at`.
fn read_u16_field(data: &[u8], at: usize) -> (r: u64)
    requires
        at + 1 < data@.len(),
    ensures
        r == u16_field(data@, at as int),
{
    data[at] as u64 + 256 * (data[at + 1] as u64)
}

/// Checks the offsets header of a signature-verification instruction.
fn header_is_self_contained(data: &[u8]) -> (r: bool)
    requires
        data@.len() >= MESSAGE_OFFSET,
    ensures
        r == self_contained_header(data@),
{
    let this = THIS_INSTRUCTION as u64;
    data[0] == 1 && read_u16_field(data, 2) == SIGNATURE_OFFSET as u64 && read_u16_field(data, 4)
        == this && read_u16_field(data, 6) == PUBKEY_OFFSET as u64 && read_u16_field(data, 8)
        == this && read_u16_field(data, 10) == MESSAGE_OFFSET as u64 && read_u16_field(data, 12)
        == (data.len() - MESSAGE_OFFSET) as u64 && read_u16_field(data, 14) == this
}

/// Whether some instruction of the transaction checks `message` under `signer`.
pub open spec fn signed_in(ixs: Seq<LoadedInstruction>, signer: Seq<u8>, message: Seq<u8>) -> bool {
    exists|i: int| 0 <= i < ixs.len() && verifies(#[trigger] ixs[i], signer, message)
}

/// The domain-separation tag of approvals, `sharely:v1` in ASCII.
pub open spec fn domain_tag() -> Seq<u8> {
    seq![0x73u8, 0x68u8, 0x61u8, 0x72u8, 0x65u8, 0x6cu8, 0x79u8, 0x3au8, 0x76u8, 0x31u8]
}

/// An approval under the domain digest `domain`: the digest, the three keys
/// and the two integers in little-endian order, one after the other.
pub open spec fn approval_layout(
    domain: Seq<u8>,
    admin: Seq<u8>,
    merchant: Seq<u8>,
    mint: Seq<u8>,
    quest_id: u64,
    total_amount: u64,
) -> Seq<u8> {
    domain + admin + merchant + mint + spec_u64_to_le_bytes(quest_id) + spec_u64_to_le_bytes(
        total_amount,
    )
}

/// The canonical approval of a quest-creation request.
pub open spec fn approval_message(
    admin: Seq<u8>,
    merchant: Seq<u8>,
    mint: Seq<u8>,
    quest_id: u64,
    total_amount: u64,
) -> Seq<u8> {
    approval_layout(sha256_of(domain_tag()), admin, merchant, mint, quest_id, total_amount)
}

/// Checks that the transaction holds a signature check of `message` by the
/// administrator's key.
pub fn verify_ed25519_signature(
    instructions: &Vec<LoadedInstruction>,
    admin_pubkey: &Key,
    message: &[u8],
) -> (r: Result<(), SharelyError>)
    ensures
        match r {
            Ok(()) => signed_in(instructions@, admin_pubkey@, message@),
            Err(e) => !signed_in(instructions@, admin_pubkey@, message@) && e
                == SharelyError::InvalidSignature,
        },
{
    let mut idx: usize = 0;
    while idx < instructions.len()
        invariant
            0 <= idx <= instructions@.len(),
            forall|j: int|
                0 <= j < idx ==> !verifies(#[trigger] instructions@[j], admin_pubkey@, message@),
        decreases instructions@.len() - idx,
    {
        let ix = &instructions[idx];
        if ed25519_program_check(&ix.program_id) && ix.data.len() >= MESSAGE_OFFSET {
            let data = ix.data.as_slice();
            if header_is_self_contained(data) && region_eq(data, PUBKEY_OFFSET, PUBKEY_OFFSET + 32, admin_pubkey.as_slice())
                && region_eq(data, MESSAGE_OFFSET, data.len(), message) {
                assert(verifies(instructions@[idx as int], admin_pubkey@, message@));
                return Ok(());
            }
        }
        idx = idx + 1;
    }
    Err(SharelyError::InvalidSignature)
}

/// Lays out an approval under the domain digest `domain`.
pub fn approval_bytes_with_domain(
    domain: &[u8; 32],
    admin_pubkey: &Key,
    merchant: &Key,
    mint: &Key,
    quest_id: u64,
    total_amount: u64,
) -> (r: Vec<u8>)
    ensures
        r@ == approval_layout(domain@, admin_pubkey@, merchant@, mint@, quest_id, total_amount),
{
    let mut out: Vec<u8> = Vec::new();
    append_bytes(&mut out, domain.as_slice());
    append_bytes(&mut out, admin_pubkey.as_slice());
    append_bytes(&mut out, merchant.as_slice());
    append_bytes(&mut out, mint.as_slice());
    let id = u64_to_le_bytes(quest_id);
    append_bytes(&mut out, id.as_slice());
    let total = u64_to_le_bytes(total_amount);
    append_bytes(&mut out, total.as_slice());
    out
}

/// Builds the canonical approval of a quest-creation request.
pub fn approval_bytes_for(
    admin_pubkey: &Key,
    merchant: &Key,
    mint: &Key,
    quest_id: u64,
    total_amount: u64,
) -> (r: Vec<u8>)
    ensures
        r@ == approval_message(admin_pubkey@, merchant@, mint@, quest_id, total_amount),
{
    let tag: Vec<u8> = vec![0x73u8, 0x68u8, 0x61u8, 0x72u8, 0x65u8, 0x6cu8, 0x79u8, 0x3au8, 0x76u8, 0x31u8];
    assert(tag@ =~= domain_tag());
    let domain = sha256(tag.as_slice());
    approval_bytes_with_domain(&domain, admin_pubkey, merchant, mint, quest_id, total_amount)
}

/// Checks that the signed approval is exactly the canonical encoding of this
/// quest-creation request.
pub fn verify_approval_message(
    approval_bytes: &[u8],
    admin_pubkey: &Key,
    merchant: &Key,
    mint: &Key,
    quest_id: &u64,
    total_amount: &u64,
) -> (r: Result<(), SharelyError>)
    ensures
        match r {
            Ok(()) => approval_bytes@ == approval_message(
                admin_pubkey@,
                merchant@,
                mint@,
                *quest_id,
                *total_amount,
            ),
            Err(e) => approval_bytes@ != approval_message(
                admin_pubkey@,
                merchant@,
                mint@,
                *quest_id,
                *total_amount,
            ) && e == SharelyError::InvalidSignature,
        },
{
    let expected = approval_bytes_for(admin_pubkey, merchant, mint, *quest_id, *total_amount);
    if bytes_eq(approval_bytes, expected.as_slice()) {
        Ok(())
    } else {
        Err(SharelyError::InvalidSignature)
    }
}

} // verus!
