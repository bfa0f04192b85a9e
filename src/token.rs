use vstd::prelude::*;
use vstd::bytes::spec_u64_to_le_bytes;
use solana_sdk::pubkey::Pubkey;
use crate::address::{address_matches, derive_address, derived_address, program_address_of, seeds_view};
use crate::bytes::bytes_to_vec;
use crate::error::BridgeError;
use crate::instruction::{AccountMeta, Instruction};

verus! {

/// Decimals of the wrapped asset's token mint.
pub const TOKEN_DECIMALS: u8 = 9;

/// The token program's address, `TokenkegQfeZyiNwAJbNbGKPFXCWuBvf9Ss623VQ5DA`.
pub open spec fn token_program_bytes() -> Seq<u8> {
    seq![
        6u8, 221, 246, 225, 215, 101, 161, 147, 217, 203, 225, 70, 206, 235, 121, 172, 28, 180,
        133, 237, 95, 91, 55, 145, 58, 140, 245, 133, 126, 255, 0, 169,
    ]
}

/// The associated-token-account program's address,
/// `ATokenGPvbdGVxr1b2hvZbsiqW5xWH25efTNsLJA8knL`.
pub open spec fn associated_token_program_bytes() -> Seq<u8> {
    seq![
        140u8, 151, 37, 143, 78, 36, 137, 241, 187, 61, 16, 41, 20, 142, 13, 131, 11, 90, 19, 153,
        218, 255, 16, 132, 4, 142, 123, 216, 219, 233, 248, 89,
    ]
}

/// The seeds of a wallet's token account for a mint.
pub open spec fn token_account_seeds(wallet: Seq<u8>, mint: Seq<u8>) -> Seq<Seq<u8>> {
    seq![wallet, token_program_bytes(), mint]
}

/// Relies on spl_token::id: the token program's fixed address.
#[verifier::external_body]
pub(crate) fn token_program_id() -> (r: [u8; 32])
    ensures
        r@ == token_program_bytes(),
{
    spl_token::id().to_bytes()
}

/// Relies on spl_associated_token_account::id: that program's fixed address.
#[verifier::external_body]
fn associated_token_program_id() -> (r: [u8; 32])
    ensures
        r@ == associated_token_program_bytes(),
{
    spl_associated_token_account::id().to_bytes()
}

/// Relies on spl_associated_token_account::get_associated_token_address: it
/// returns the address that `Pubkey::find_program_address` finds for the
/// seeds `[wallet, token program id, mint]` under the associated-token-account
/// program, and panics where that search finds none, which `requires` excludes.
#[verifier::external_body]
fn associated_token_address(wallet: &[u8; 32], mint: &[u8; 32]) -> (r: [u8; 32])
    requires
        program_address_of(token_account_seeds(wallet@, mint@), associated_token_program_bytes())
            is Some,
    ensures
        r@ == program_address_of(
            token_account_seeds(wallet@, mint@),
            associated_token_program_bytes(),
        )->Some_0.0,
{
    let wallet = Pubkey::new_from_array(*wallet);
    let mint = Pubkey::new_from_array(*mint);
    spl_associated_token_account::get_associated_token_address(&wallet, &mint).to_bytes()
}

/// The associated token account of `wallet` for the token `mint`.
pub fn token_account_address(wallet: &[u8; 32], mint: &[u8; 32]) -> (r: Result<
    [u8; 32],
    BridgeError,
>)
    ensures
        address_matches(
            r,
            derived_address(token_account_seeds(wallet@, mint@), associated_token_program_bytes()),
        ),
{
    let program = associated_token_program_id();
    let token_program = token_program_id();
    let seeds: Vec<Vec<u8>> = vec![
        bytes_to_vec(wallet),
        bytes_to_vec(&token_program),
        bytes_to_vec(mint),
    ];
    assert(seeds_view(seeds@) =~= token_account_seeds(wallet@, mint@));
    match derive_address(&program, &seeds) {
        Ok(_) => Ok(associated_token_address(wallet, mint)),
        Err(e) => Err(e),
    }
}

/// Whether `ix` burns `amount` (with `decimals`) from `account` of `mint`,
/// authorised by the signature of `owner`.
pub open spec fn is_token_burn(
    ix: Instruction,
    account: Seq<u8>,
    mint: Seq<u8>,
    owner: Seq<u8>,
    amount: u64,
    decimals: u8,
) -> bool {
    &&& ix.program_id@ == token_program_bytes()
    &&& ix.accounts@.len() == 3
    &&& ix.accounts@[0].pubkey@ == account && !ix.accounts@[0].is_signer
        && ix.accounts@[0].is_writable
    &&& ix.accounts@[1].pubkey@ == mint && !ix.accounts@[1].is_signer && ix.accounts@[1].is_writable
    &&& ix.accounts@[2].pubkey@ == owner && ix.accounts@[2].is_signer && !ix.accounts@[2].is_writable
    &&& ix.data@ == seq![15u8] + spec_u64_to_le_bytes(amount) + seq![decimals]
}

/// Relies on spl_token::instruction::burn_checked, called with the token
/// program's own id and no multisignature signers: it then succeeds, and
/// builds the instruction that `is_token_burn` describes (tag 15, the amount
/// little-endian, the decimals; the account and the mint writable, the owner
/// a read-only signer).
#[verifier::external_body]
fn token_burn_checked(
    account: &[u8; 32],
    mint: &[u8; 32],
    owner: &[u8; 32],
    amount: u64,
    decimals: u8,
) -> (r: Option<Instruction>)
    ensures
        r is Some,
        r is Some ==> is_token_burn(r->Some_0, account@, mint@, owner@, amount, decimals),
{
    let (account, mint) = (Pubkey::new_from_array(*account), Pubkey::new_from_array(*mint));
    let owner = Pubkey::new_from_array(*owner);
    let ix = spl_token::instruction::burn_checked(
        &spl_token::id(), &account, &mint, &owner, &[], amount, decimals,
    ).ok()?;
    let accounts = ix.accounts.iter().map(
        |a| AccountMeta { pubkey: a.pubkey.to_bytes(), is_signer: a.is_signer, is_writable: a.is_writable },
    );
    Some(Instruction { program_id: ix.program_id.to_bytes(), accounts: accounts.collect(), data: ix.data })
}

/// The token program instruction that burns `amount` of the wrapped asset
/// from `account`, signed by `owner`.
pub fn token_burn_instruction(
    account: &[u8; 32],
    mint: &[u8; 32],
    owner: &[u8; 32],
    amount: u64,
) -> (r: Instruction)
    ensures
        is_token_burn(r, account@, mint@, owner@, amount, TOKEN_DECIMALS),
{
    token_burn_checked(account, mint, owner, amount, TOKEN_DECIMALS).unwrap()
}

/// The rent sysvar's address, `SysvarRent111111111111111111111111111111111`.
pub open spec fn rent_sysvar_bytes() -> Seq<u8> {
    seq![
        6u8, 167, 213, 23, 25, 44, 92, 81, 33, 140, 201, 76, 61, 74, 241, 127, 88, 218, 238, 8, 155,
        161, 253, 68, 227, 219, 217, 138, 0, 0, 0, 0,
    ]
}

/// Whether `m` names `key` with the given flags.
pub open spec fn is_meta(m: AccountMeta, key: Seq<u8>, is_signer: bool, is_writable: bool) -> bool {
    m.pubkey@ == key && m.is_signer == is_signer && m.is_writable == is_writable
}

/// Whether `ix` creates `account`, the token account of `wallet` for
/// `mint`, paid for by `funding`.
pub open spec fn is_create_token_account(
    ix: Instruction,
    funding: Seq<u8>,
    account: Seq<u8>,
    wallet: Seq<u8>,
    mint: Seq<u8>,
) -> bool {
    &&& ix.program_id@ == associated_token_program_bytes()
    &&& ix.accounts@.len() == 7
    &&& is_meta(ix.accounts@[0], funding, true, true)
    &&& is_meta(ix.accounts@[1], account, false, true)
    &&& is_meta(ix.accounts@[2], wallet, false, false)
    &&& is_meta(ix.accounts@[3], mint, false, false)
    &&& is_meta(ix.accounts@[4], Seq::new(32, |i: int| 0u8), false, false)
    &&& is_meta(ix.accounts@[5], token_program_bytes(), false, false)
    &&& is_meta(ix.accounts@[6], rent_sysvar_bytes(), false, false)
    &&& ix.data@.len() == 0
}

/// Relies on spl_associated_token_account::create_associated_token_account
/// (the crate-level form): it names the funding account (writable signer),
/// the address `get_associated_token_address` gives (writable), the wallet,
/// the mint, the system program (all-zero address), the token program and
/// the rent sysvar (read-only), with empty data; it panics where that
/// address search finds none, which `requires` excludes.
#[verifier::external_body]
#[allow(deprecated)]
fn create_associated_token_account(funding: &[u8; 32], wallet: &[u8; 32], mint: &[u8; 32]) -> (r:
    Instruction)
    requires
        program_address_of(token_account_seeds(wallet@, mint@), associated_token_program_bytes())
            is Some,
    ensures
        is_create_token_account(
            r,
            funding@,
            program_address_of(
                token_account_seeds(wallet@, mint@),
                associated_token_program_bytes(),
            )->Some_0.0,
            wallet@,
            mint@,
        ),
{
    let (funding, wallet) = (Pubkey::new_from_array(*funding), Pubkey::new_from_array(*wallet));
    let mint = Pubkey::new_from_array(*mint);
    let ix = spl_associated_token_account::create_associated_token_account(&funding, &wallet, &mint);
    let accounts = ix.accounts.iter().map(
        |a| AccountMeta { pubkey: a.pubkey.to_bytes(), is_signer: a.is_signer, is_writable: a.is_writable },
    );
    Instruction { program_id: ix.program_id.to_bytes(), accounts: accounts.collect(), data: ix.data }
}

/// The instruction that creates `wallet`'s token account for `mint`, paid
/// for by `wallet` itself.
pub fn create_token_account_instruction(wallet: &[u8; 32], mint: &[u8; 32]) -> (r: Result<
    Instruction,
    BridgeError,
>)
    ensures
        match derived_address(token_account_seeds(wallet@, mint@), associated_token_program_bytes()) {
            Ok(account) => r is Ok && is_create_token_account(
                r->Ok_0,
                wallet@,
                account,
                wallet@,
                mint@,
            ),
            Err(e) => r == Err::<Instruction, BridgeError>(e),
        },
{
    match token_account_address(wallet, mint) {
        Ok(_) => Ok(create_associated_token_account(wallet, wallet, mint)),
        Err(e) => Err(e),
    }
}

} // verus!
