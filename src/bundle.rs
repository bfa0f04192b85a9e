use vstd::prelude::*;
use crate::codec::RENVM_MINT_MESSAGE_SIZE;
use crate::error::BridgeError;
use crate::instruction::Instruction;
use crate::token::{is_token_burn, token_burn_instruction, TOKEN_DECIMALS};
use crate::secp::{
    is_secp_instruction, mint_secp_instruction, normalized_recovery_id, payload_offsets,
    secp_payload, HASHED_PUBKEY_SERIALIZED_SIZE, SECP_INSTRUCTION_INDEX,
};

verus! {

/// Whether the instruction at `slot` carries a verification payload whose
/// every instruction index names `slot` itself, so that the runtime reads
/// the signed bytes from that instruction.
pub open spec fn indices_name_slot(ixs: Seq<Instruction>, slot: int) -> bool {
    &&& 0 <= slot < ixs.len()
    &&& ixs[slot].data@.len() >= 12
    &&& {
        let o = payload_offsets(ixs[slot].data@);
        &&& o.1 as int == slot
        &&& o.3 as int == slot
        &&& o.6 as int == slot
    }
}

/// A mint bundle: the bridge's mint instruction in slot 0 and the signature
/// verification instruction in slot 1. No other order can be built.
pub struct MintBundle {
    mint: Instruction,
    verification: Instruction,
}

impl MintBundle {
    /// The bridge's mint instruction.
    pub closed spec fn mint(&self) -> Instruction {
        self.mint
    }

    /// The signature verification instruction.
    pub closed spec fn verification(&self) -> Instruction {
        self.verification
    }

    /// The instructions in bundle order.
    pub open spec fn spec_instructions(&self) -> Seq<Instruction> {
        seq![self.mint(), self.verification()]
    }

    /// Bundles the mint instruction with the verification instruction for
    /// the signature `(sig_r, sig_s, sig_v)` by `eth_addr` over `message`,
    /// failing as `mint_secp_instruction` does.
    pub fn new(
        mint: Instruction,
        sig_r: &[u8; 32],
        sig_s: &[u8; 32],
        sig_v: u8,
        message: &[u8],
        eth_addr: Vec<u8>,
    ) -> (r: Result<MintBundle, BridgeError>)
        ensures
            (message@.len() != RENVM_MINT_MESSAGE_SIZE || eth_addr@.len()
                != HASHED_PUBKEY_SERIALIZED_SIZE) <==> r == Err::<MintBundle, BridgeError>(
                BridgeError::SizeMismatch,
            ),
            (message@.len() == RENVM_MINT_MESSAGE_SIZE && eth_addr@.len()
                == HASHED_PUBKEY_SERIALIZED_SIZE && sig_v != 27 && sig_v != 28) <==> r == Err::<
                MintBundle,
                BridgeError,
            >(BridgeError::InvalidRecoveryId),
            r is Ok <==> (message@.len() == RENVM_MINT_MESSAGE_SIZE && eth_addr@.len()
                == HASHED_PUBKEY_SERIALIZED_SIZE && (sig_v == 27 || sig_v == 28)),
            r is Ok ==> r->Ok_0.mint() == mint && is_secp_instruction(
                r->Ok_0.verification(),
                eth_addr@,
                sig_r@,
                sig_s@,
                normalized_recovery_id(sig_v),
                message@,
            ),
    {
        match mint_secp_instruction(sig_r, sig_s, sig_v, message, eth_addr) {
            Ok(verification) => Ok(MintBundle { mint, verification }),
            Err(e) => Err(e),
        }
    }

    /// The instructions in the order they must be submitted.
    pub fn into_instructions(self) -> (r: Vec<Instruction>)
        ensures
            r@ == self.spec_instructions(),
    {
        vec![self.mint, self.verification]
    }
}

/// In a mint bundle the verification instruction's indices name its own
/// slot, 1, while the mint instruction holds slot 0; with the two swapped,
/// the indices no longer name the slot of the verification instruction, so
/// the reordering is detectable.
pub proof fn lemma_mint_bundle_order(
    mint: Instruction,
    verification: Instruction,
    eth_addr: Seq<u8>,
    sig_r: Seq<u8>,
    sig_s: Seq<u8>,
    v: u8,
    message: Seq<u8>,
)
    requires
        is_secp_instruction(verification, eth_addr, sig_r, sig_s, v, message),
        eth_addr.len() == HASHED_PUBKEY_SERIALIZED_SIZE,
        sig_r.len() == 32,
        sig_s.len() == 32,
        message.len() == RENVM_MINT_MESSAGE_SIZE,
    ensures
        indices_name_slot(seq![mint, verification], 1),
        !indices_name_slot(seq![verification, mint], 0),
{
    crate::secp::lemma_offsets_locate_fields(eth_addr, sig_r, sig_s, v, message);
    assert(SECP_INSTRUCTION_INDEX == 1);
    assert(seq![verification, mint][0] == verification);
    assert(seq![mint, verification][1] == verification);
}

/// A burn bundle: the token program's burn in slot 0, then the bridge's
/// burn-log instruction in slot 1.
pub struct BurnBundle {
    token_burn: Instruction,
    burn_log: Instruction,
}

impl BurnBundle {
    /// The token program's burn instruction.
    pub closed spec fn token_burn(&self) -> Instruction {
        self.token_burn
    }

    /// The bridge's burn-log instruction.
    pub closed spec fn burn_log(&self) -> Instruction {
        self.burn_log
    }

    /// Bundles the burn of `amount` from `owner`'s token `account` of `mint`
    /// with the bridge's burn-log instruction.
    pub fn new(
        owner: &[u8; 32],
        account: &[u8; 32],
        mint: &[u8; 32],
        amount: u64,
        burn_log: Instruction,
    ) -> (r: BurnBundle)
        ensures
            is_token_burn(r.token_burn(), account@, mint@, owner@, amount, TOKEN_DECIMALS),
            r.burn_log() == burn_log,
    {
        BurnBundle { token_burn: token_burn_instruction(account, mint, owner, amount), burn_log }
    }

    /// The instructions in the order they must be submitted.
    pub fn into_instructions(self) -> (r: Vec<Instruction>)
        ensures
            r@ == seq![self.token_burn(), self.burn_log()],
    {
        vec![self.token_burn, self.burn_log]
    }
}

} // verus!
