use vstd::prelude::*;
use vstd::bytes::{spec_u16_from_le_bytes, spec_u16_to_le_bytes};
use vstd::bytes::lemma_auto_spec_u16_to_from_le_bytes;
use solana_sdk::secp256k1_instruction::SecpSignatureOffsets;
use crate::bytes::append_bytes;
use crate::codec::RENVM_MINT_MESSAGE_SIZE;
use crate::error::BridgeError;
use crate::instruction::Instruction;

verus! {

/// Width of an Ethereum-style address derived from a secp256k1 public key.
pub const HASHED_PUBKEY_SERIALIZED_SIZE: usize = 20;

/// Offset of the signer's address in the payload.
pub const ETH_ADDRESS_OFFSET: u16 = 12;

/// Offset of `r ‖ s ‖ v` in the payload.
pub const SIGNATURE_OFFSET: u16 = 32;

/// Offset of the signed message in the payload.
pub const MESSAGE_DATA_OFFSET: u16 = 97;

/// Slot of the verification instruction within a mint bundle; every
/// instruction index of its offsets record names this slot.
pub const SECP_INSTRUCTION_INDEX: u8 = 1;

/// Total width of a single-signature payload for a mint message.
pub const SECP_PAYLOAD_SIZE: usize = 233;

/// The offsets record in its wire form: each integer little-endian, in the
/// order signature offset, signature instruction, address offset, address
/// instruction, message offset, message size, message instruction.
pub open spec fn offsets_record(
    signature_offset: u16,
    signature_instruction_index: u8,
    eth_address_offset: u16,
    eth_address_instruction_index: u8,
    message_data_offset: u16,
    message_data_size: u16,
    message_instruction_index: u8,
) -> Seq<u8> {
    spec_u16_to_le_bytes(signature_offset) + seq![signature_instruction_index]
        + spec_u16_to_le_bytes(eth_address_offset) + seq![eth_address_instruction_index]
        + spec_u16_to_le_bytes(message_data_offset) + spec_u16_to_le_bytes(message_data_size)
        + seq![message_instruction_index]
}

/// The offsets record as read from the bytes `p[1..12]` of a payload:
/// `(signature_offset, signature_instruction_index, eth_address_offset,
/// eth_address_instruction_index, message_data_offset, message_data_size,
/// message_instruction_index)`.
pub open spec fn payload_offsets(p: Seq<u8>) -> (u16, u8, u16, u8, u16, u16, u8) {
    (
        spec_u16_from_le_bytes(p.subrange(1, 3)),
        p[3],
        spec_u16_from_le_bytes(p.subrange(4, 6)),
        p[6],
        spec_u16_from_le_bytes(p.subrange(7, 9)),
        spec_u16_from_le_bytes(p.subrange(9, 11)),
        p[11],
    )
}

/// The verification payload for one signature over a mint message: a count
/// of one, the offsets record, then `address ‖ r ‖ s ‖ v ‖ message` with no
/// gaps. `v` is the normalised recovery id.
pub open spec fn secp_payload(
    eth_addr: Seq<u8>,
    sig_r: Seq<u8>,
    sig_s: Seq<u8>,
    v: u8,
    message: Seq<u8>,
) -> Seq<u8> {
    seq![1u8] + offsets_record(
        SIGNATURE_OFFSET,
        SECP_INSTRUCTION_INDEX,
        ETH_ADDRESS_OFFSET,
        SECP_INSTRUCTION_INDEX,
        MESSAGE_DATA_OFFSET,
        RENVM_MINT_MESSAGE_SIZE as u16,
        SECP_INSTRUCTION_INDEX,
    ) + eth_addr + sig_r + sig_s + seq![v] + message
}

/// The address of the runtime's native secp256k1 verification program.
pub open spec fn secp256k1_program_bytes() -> Seq<u8> {
    seq![
        4u8, 198, 252, 32, 240, 80, 204, 240, 85, 132, 215, 33, 28, 159, 140, 245, 158, 193, 71,
        133, 187, 22, 106, 30, 40, 48, 232, 18, 32, 0, 0, 0,
    ]
}

/// The recovery bit for a conventional recovery indicator `v`.
pub open spec fn normalized_recovery_id(v: u8) -> u8 {
    (v - 27) as u8
}

/// Relies on bincode::serialize of solana_sdk's `SecpSignatureOffsets`:
/// bincode's default options write the fields in declaration order, each
/// integer fixed-width and little-endian, nothing between them, and writing
/// into a fresh `Vec` does not fail.
#[verifier::external_body]
fn serialize_offsets(
    signature_offset: u16,
    signature_instruction_index: u8,
    eth_address_offset: u16,
    eth_address_instruction_index: u8,
    message_data_offset: u16,
    message_data_size: u16,
    message_instruction_index: u8,
) -> (r: Vec<u8>)
    ensures
        r@ == offsets_record(
            signature_offset,
            signature_instruction_index,
            eth_address_offset,
            eth_address_instruction_index,
            message_data_offset,
            message_data_size,
            message_instruction_index,
        ),
{
    let offsets = SecpSignatureOffsets {
        signature_offset,
        signature_instruction_index,
        eth_address_offset,
        eth_address_instruction_index,
        message_data_offset,
        message_data_size,
        message_instruction_index,
    };
    bincode::serialize(&offsets).unwrap_or_default()
}

/// Relies on solana_sdk::secp256k1_program::id: the fixed address of the
/// native secp256k1 program, `KeccakSecp256k11111111111111111111111111111`.
#[verifier::external_body]
fn secp256k1_program_id() -> (r: [u8; 32])
    ensures
        r@ == secp256k1_program_bytes(),
{
    solana_sdk::secp256k1_program::id().to_bytes()
}

/// Builds the data of a secp256k1 verification instruction for one signature
/// `(sig_r, sig_s, sig_v)` by the holder of `eth_addr` over `message_arr`.
/// A message that is not 136 bytes or an address that is not 20 bytes is a
/// `SizeMismatch`; otherwise a `sig_v` outside `{27, 28}` is an
/// `InvalidRecoveryId`.
pub fn secp_instruction_data(
    sig_r: &[u8; 32],
    sig_s: &[u8; 32],
    sig_v: u8,
    message_arr: &[u8],
    eth_addr: &[u8],
) -> (r: Result<Vec<u8>, BridgeError>)
    ensures
        (message_arr@.len() != RENVM_MINT_MESSAGE_SIZE || eth_addr@.len()
            != HASHED_PUBKEY_SERIALIZED_SIZE) <==> r == Err::<Vec<u8>, BridgeError>(
            BridgeError::SizeMismatch,
        ),
        (message_arr@.len() == RENVM_MINT_MESSAGE_SIZE && eth_addr@.len()
            == HASHED_PUBKEY_SERIALIZED_SIZE && sig_v != 27 && sig_v != 28) <==> r == Err::<
            Vec<u8>,
            BridgeError,
        >(BridgeError::InvalidRecoveryId),
        r is Ok <==> (message_arr@.len() == RENVM_MINT_MESSAGE_SIZE && eth_addr@.len()
            == HASHED_PUBKEY_SERIALIZED_SIZE && (sig_v == 27 || sig_v == 28)),
        r is Ok ==> r->Ok_0@ == secp_payload(
            eth_addr@,
            sig_r@,
            sig_s@,
            normalized_recovery_id(sig_v),
            message_arr@,
        ),
{
    if message_arr.len() != RENVM_MINT_MESSAGE_SIZE || eth_addr.len()
        != HASHED_PUBKEY_SERIALIZED_SIZE {
        return Err(BridgeError::SizeMismatch);
    }
    if sig_v != 27 && sig_v != 28 {
        return Err(BridgeError::InvalidRecoveryId);
    }
    let mut data: Vec<u8> = Vec::with_capacity(SECP_PAYLOAD_SIZE);
    data.push(1u8);
    let offsets = serialize_offsets(
        SIGNATURE_OFFSET,
        SECP_INSTRUCTION_INDEX,
        ETH_ADDRESS_OFFSET,
        SECP_INSTRUCTION_INDEX,
        MESSAGE_DATA_OFFSET,
        RENVM_MINT_MESSAGE_SIZE as u16,
        SECP_INSTRUCTION_INDEX,
    );
    append_bytes(&mut data, offsets.as_slice());
    append_bytes(&mut data, eth_addr);
    append_bytes(&mut data, sig_r);
    append_bytes(&mut data, sig_s);
    data.push(sig_v - 27);
    append_bytes(&mut data, message_arr);
    Ok(data)
}

/// Builds the secp256k1 verification instruction for a mint: addressed to the
/// native verification program, touching no account, with the data of
/// `secp_instruction_data`, and failing as it does.
pub fn mint_secp_instruction(
    sig_r: &[u8; 32],
    sig_s: &[u8; 32],
    sig_v: u8,
    message_arr: &[u8],
    eth_addr: Vec<u8>,
) -> (r: Result<Instruction, BridgeError>)
    ensures
        (message_arr@.len() != RENVM_MINT_MESSAGE_SIZE || eth_addr@.len()
            != HASHED_PUBKEY_SERIALIZED_SIZE) <==> r == Err::<Instruction, BridgeError>(
            BridgeError::SizeMismatch,
        ),
        (message_arr@.len() == RENVM_MINT_MESSAGE_SIZE && eth_addr@.len()
            == HASHED_PUBKEY_SERIALIZED_SIZE && sig_v != 27 && sig_v != 28) <==> r == Err::<
            Instruction,
            BridgeError,
        >(BridgeError::InvalidRecoveryId),
        r is Ok <==> (message_arr@.len() == RENVM_MINT_MESSAGE_SIZE && eth_addr@.len()
            == HASHED_PUBKEY_SERIALIZED_SIZE && (sig_v == 27 || sig_v == 28)),
        r is Ok ==> is_secp_instruction(
            r->Ok_0,
            eth_addr@,
            sig_r@,
            sig_s@,
            normalized_recovery_id(sig_v),
            message_arr@,
        ),
{
    match secp_instruction_data(sig_r, sig_s, sig_v, message_arr, eth_addr.as_slice()) {
        Ok(data) => Ok(
            Instruction { program_id: secp256k1_program_id(), accounts: Vec::new(), data },
        ),
        Err(e) => Err(e),
    }
}

/// Whether `ix` is the verification instruction for the given record.
pub open spec fn is_secp_instruction(
    ix: Instruction,
    eth_addr: Seq<u8>,
    sig_r: Seq<u8>,
    sig_s: Seq<u8>,
    v: u8,
    message: Seq<u8>,
) -> bool {
    &&& ix.program_id@ == secp256k1_program_bytes()
    &&& ix.accounts@.len() == 0
    &&& ix.data@ == secp_payload(eth_addr, sig_r, sig_s, v, message)
}

/// The offsets table of a verification payload locates exactly what was
/// supplied: slicing the payload at the address offset gives the address,
/// at the signature offset `r ‖ s ‖ v`, and at the message offset, for the
/// recorded size, the message. The payload holds one signature, and every
/// instruction index names the verification instruction's own slot.
pub proof fn lemma_offsets_locate_fields(
    eth_addr: Seq<u8>,
    sig_r: Seq<u8>,
    sig_s: Seq<u8>,
    v: u8,
    message: Seq<u8>,
)
    requires
        eth_addr.len() == HASHED_PUBKEY_SERIALIZED_SIZE,
        sig_r.len() == 32,
        sig_s.len() == 32,
        message.len() == RENVM_MINT_MESSAGE_SIZE,
    ensures
        ({
            let p = secp_payload(eth_addr, sig_r, sig_s, v, message);
            let o = payload_offsets(p);
            &&& p.len() == SECP_PAYLOAD_SIZE
            &&& p[0] == 1
            &&& o.1 == SECP_INSTRUCTION_INDEX
            &&& o.3 == SECP_INSTRUCTION_INDEX
            &&& o.6 == SECP_INSTRUCTION_INDEX
            &&& p.subrange(o.2 as int, o.2 + HASHED_PUBKEY_SERIALIZED_SIZE) == eth_addr
            &&& p.subrange(o.0 as int, o.0 + 65) == sig_r + sig_s + seq![v]
            &&& p.subrange(o.4 as int, o.4 + o.5) == message
        }),
{
    lemma_auto_spec_u16_to_from_le_bytes();
    let rec = offsets_record(
        SIGNATURE_OFFSET,
        SECP_INSTRUCTION_INDEX,
        ETH_ADDRESS_OFFSET,
        SECP_INSTRUCTION_INDEX,
        MESSAGE_DATA_OFFSET,
        RENVM_MINT_MESSAGE_SIZE as u16,
        SECP_INSTRUCTION_INDEX,
    );
    let p = secp_payload(eth_addr, sig_r, sig_s, v, message);
    assert(rec.len() == 11);
    assert(p.subrange(1, 3) =~= spec_u16_to_le_bytes(SIGNATURE_OFFSET));
    assert(p.subrange(4, 6) =~= spec_u16_to_le_bytes(ETH_ADDRESS_OFFSET));
    assert(p.subrange(7, 9) =~= spec_u16_to_le_bytes(MESSAGE_DATA_OFFSET));
    assert(p.subrange(9, 11) =~= spec_u16_to_le_bytes(RENVM_MINT_MESSAGE_SIZE as u16));
    assert(p.subrange(12, 32) =~= eth_addr);
    assert(p.subrange(32, 97) =~= sig_r + sig_s + seq![v]);
    assert(p.subrange(97, 233) =~= message);
}

} // verus!
