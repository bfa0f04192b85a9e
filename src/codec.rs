use vstd::prelude::*;
use vstd::bytes::{spec_u64_from_le_bytes, spec_u64_to_le_bytes, u64_from_le_bytes, u64_to_le_bytes};
use vstd::bytes::lemma_auto_spec_u64_to_from_le_bytes;
use crate::bytes::{append_bytes, copy_array_32};
use crate::error::BridgeError;
use crate::hashing::{keccak256, keccak256_of};

verus! {

/// Width in bytes of an encoded mint authorization message.
pub const RENVM_MINT_MESSAGE_SIZE: usize = 136;

/// The mint authorization message signed by the validator network.
#[derive(Debug, Clone, Copy, PartialEq, Eq)]
pub struct MintMessage {
    pub p_hash: [u8; 32],
    pub amount: u64,
    pub selector_hash: [u8; 32],
    pub to: [u8; 32],
    pub n_hash: [u8; 32],
}

/// The canonical encoding: `p_hash ‖ amount (little-endian) ‖ selector_hash ‖ to ‖ n_hash`.
pub open spec fn mint_message_bytes(
    amount: u64,
    selector_hash: Seq<u8>,
    to: Seq<u8>,
    p_hash: Seq<u8>,
    n_hash: Seq<u8>,
) -> Seq<u8> {
    p_hash + spec_u64_to_le_bytes(amount) + selector_hash + to + n_hash
}

/// The fields read back from a 136-byte message, in encoding order:
/// `(amount, selector_hash, to, p_hash, n_hash)`.
pub open spec fn mint_message_fields(b: Seq<u8>) -> (u64, Seq<u8>, Seq<u8>, Seq<u8>, Seq<u8>) {
    (
        spec_u64_from_le_bytes(b.subrange(32, 40)),
        b.subrange(40, 72),
        b.subrange(72, 104),
        b.subrange(0, 32),
        b.subrange(104, 136),
    )
}

impl MintMessage {
    /// The encoding of this message.
    pub open spec fn spec_bytes(&self) -> Seq<u8> {
        mint_message_bytes(self.amount, self.selector_hash@, self.to@, self.p_hash@, self.n_hash@)
    }

    /// Encodes this message in its canonical 136-byte form.
    pub fn to_bytes(&self) -> (r: Vec<u8>)
        ensures
            r@ == self.spec_bytes(),
            r@.len() == RENVM_MINT_MESSAGE_SIZE,
    {
        encode_msg(self.amount, &self.selector_hash, &self.to, &self.p_hash, &self.n_hash)
    }

    /// The digest the validator network signs: Keccak-256 of the encoding.
    pub fn digest(&self) -> (r: [u8; 32])
        ensures
            r@ == keccak256_of(self.spec_bytes()),
    {
        let b = self.to_bytes();
        keccak256(b.as_slice())
    }

    /// Decodes a message from its canonical encoding; any other width is a
    /// `SizeMismatch`.
    pub fn from_bytes(b: &[u8]) -> (r: Result<MintMessage, BridgeError>)
        ensures
            r is Ok <==> b@.len() == RENVM_MINT_MESSAGE_SIZE,
            r is Err ==> r->Err_0 == BridgeError::SizeMismatch,
            r is Ok ==> ({
                let m = r->Ok_0;
                mint_message_fields(b@) == (m.amount, m.selector_hash@, m.to@, m.p_hash@, m.n_hash@)
            }),
    {
        if b.len() != RENVM_MINT_MESSAGE_SIZE {
            return Err(BridgeError::SizeMismatch);
        }
        let p_hash = copy_array_32(b, 0);
        let amount = u64_from_le_bytes(&b[32..40]);
        let selector_hash = copy_array_32(b, 40);
        let to = copy_array_32(b, 72);
        let n_hash = copy_array_32(b, 104);
        Ok(MintMessage { p_hash, amount, selector_hash, to, n_hash })
    }
}

/// Encodes the mint authorization message: 136 bytes, fields in the fixed
/// order `p_hash, amount, selector_hash, to, n_hash`, with no separators.
pub fn encode_msg(
    amount: u64,
    shash: &[u8; 32],
    to: &[u8; 32],
    p_hash: &[u8; 32],
    n_hash: &[u8; 32],
) -> (r: Vec<u8>)
    ensures
        r@ == mint_message_bytes(amount, shash@, to@, p_hash@, n_hash@),
        r@.len() == RENVM_MINT_MESSAGE_SIZE,
{
    proof {
        lemma_auto_spec_u64_to_from_le_bytes();
    }
    let mut r: Vec<u8> = Vec::with_capacity(RENVM_MINT_MESSAGE_SIZE);
    append_bytes(&mut r, p_hash);
    let amount_bytes = u64_to_le_bytes(amount);
    append_bytes(&mut r, amount_bytes.as_slice());
    append_bytes(&mut r, shash);
    append_bytes(&mut r, to);
    append_bytes(&mut r, n_hash);
    r
}

/// Decoding an encoded message gives back every field: the encoding is
/// 136 bytes long whatever the field values, and reading it returns the
/// `(amount, selector_hash, to, p_hash, n_hash)` that were encoded.
pub proof fn lemma_mint_message_round_trip(
    amount: u64,
    selector_hash: Seq<u8>,
    to: Seq<u8>,
    p_hash: Seq<u8>,
    n_hash: Seq<u8>,
)
    requires
        selector_hash.len() == 32,
        to.len() == 32,
        p_hash.len() == 32,
        n_hash.len() == 32,
    ensures
        mint_message_bytes(amount, selector_hash, to, p_hash, n_hash).len()
            == RENVM_MINT_MESSAGE_SIZE,
        mint_message_fields(mint_message_bytes(amount, selector_hash, to, p_hash, n_hash)) == (
            amount,
            selector_hash,
            to,
            p_hash,
            n_hash,
        ),
{
    lemma_auto_spec_u64_to_from_le_bytes();
    let b = mint_message_bytes(amount, selector_hash, to, p_hash, n_hash);
    let le = spec_u64_to_le_bytes(amount);
    assert(b.subrange(0, 32) =~= p_hash);
    assert(b.subrange(32, 40) =~= le);
    assert(b.subrange(40, 72) =~= selector_hash);
    assert(b.subrange(72, 104) =~= to);
    assert(b.subrange(104, 136) =~= n_hash);
}

} // verus!
