use vstd::prelude::*;
use vstd::bytes::spec_u64_to_le_bytes;
use crate::address::{
    derived_address, gateway_state_address, gateway_state_tag, mint_authority_address,
    mint_log_address, token_mint_address,
};
use crate::burn::burn_log_address;
use crate::codec::{mint_message_bytes, MintMessage};
use crate::error::BridgeError;
use crate::hashing::{is_utf8, keccak256_of, selector_hash};
use crate::token::{associated_token_program_bytes, token_account_address, token_account_seeds};

verus! {

/// The accounts an initialisation of the bridge for one asset names.
pub struct InitializeAccounts {
    pub selector_hash: [u8; 32],
    pub gateway_state: [u8; 32],
    pub token_mint: [u8; 32],
}

/// Whether `a` equals the successful derivation `d`.
pub open spec fn is_derived(d: Result<Seq<u8>, BridgeError>, a: [u8; 32]) -> bool {
    d == Ok::<Seq<u8>, BridgeError>(a@)
}

/// The address derived from the single seed `seed`.
pub open spec fn one_seed(seed: Seq<u8>, program_id: Seq<u8>) -> Result<Seq<u8>, BridgeError> {
    derived_address(seq![seed], program_id)
}

/// Whether every address of an initialisation can be derived.
pub open spec fn initialize_succeeds(program_id: Seq<u8>, selector: Seq<u8>) -> bool {
    &&& is_utf8(selector)
    &&& one_seed(gateway_state_tag(), program_id) is Ok
    &&& one_seed(keccak256_of(selector), program_id) is Ok
}

/// Computes the accounts that initialising the bridge for `selector` names.
pub fn initialize_accounts(program_id: &[u8; 32], selector: &[u8]) -> (r: Result<
    InitializeAccounts,
    BridgeError,
>)
    ensures
        r is Ok <==> initialize_succeeds(program_id@, selector@),
        !is_utf8(selector@) ==> r == Err::<InitializeAccounts, BridgeError>(BridgeError::Encoding),
        is_utf8(selector@) && r is Err ==> r->Err_0 == BridgeError::DerivationExhausted,
        r is Ok ==> ({
            let a = r->Ok_0;
            &&& a.selector_hash@ == keccak256_of(selector@)
            &&& is_derived(one_seed(gateway_state_tag(), program_id@), a.gateway_state)
            &&& is_derived(one_seed(keccak256_of(selector@), program_id@), a.token_mint)
        }),
{
    let selector_hash = match selector_hash(selector) {
        Ok(h) => h,
        Err(e) => return Err(e),
    };
    let gateway_state = match gateway_state_address(program_id) {
        Ok(a) => a,
        Err(e) => return Err(e),
    };
    let token_mint = match token_mint_address(program_id, &selector_hash) {
        Ok(a) => a,
        Err(e) => return Err(e),
    };
    Ok(InitializeAccounts { selector_hash, gateway_state, token_mint })
}

/// Everything a mint transaction names or has signed, before the signature.
pub struct MintPlan {
    pub selector_hash: [u8; 32],
    pub gateway_state: [u8; 32],
    pub token_mint: [u8; 32],
    pub mint_authority: [u8; 32],
    pub token_account: [u8; 32],
    pub message: MintMessage,
    pub message_bytes: Vec<u8>,
    pub message_digest: [u8; 32],
    pub mint_log: [u8; 32],
}

/// The digest of the mint message for these fields.
pub open spec fn spec_message_digest(
    selector: Seq<u8>,
    amount: u64,
    to: Seq<u8>,
    p_hash: Seq<u8>,
    n_hash: Seq<u8>,
) -> Seq<u8> {
    keccak256_of(mint_message_bytes(amount, keccak256_of(selector), to, p_hash, n_hash))
}

/// The wallet's token account for the asset's mint, as derived.
pub open spec fn spec_token_account(program_id: Seq<u8>, selector: Seq<u8>, wallet: Seq<u8>) -> Result<
    Seq<u8>,
    BridgeError,
> {
    let token_mint = one_seed(keccak256_of(selector), program_id)->Ok_0;
    derived_address(token_account_seeds(wallet, token_mint), associated_token_program_bytes())
}

/// Whether every address of a mint can be derived.
pub open spec fn mint_succeeds(
    program_id: Seq<u8>,
    selector: Seq<u8>,
    payer: Seq<u8>,
    amount: u64,
    p_hash: Seq<u8>,
    n_hash: Seq<u8>,
) -> bool {
    let token_mint = one_seed(keccak256_of(selector), program_id);
    let account = spec_token_account(program_id, selector, payer);
    &&& initialize_succeeds(program_id, selector)
    &&& one_seed(token_mint->Ok_0, program_id) is Ok
    &&& account is Ok
    &&& one_seed(
        spec_message_digest(selector, amount, account->Ok_0, p_hash, n_hash),
        program_id,
    ) is Ok
}

/// Prepares a mint of `amount` of the asset named by `selector` to the token
/// account of `payer`: the accounts it names, the message to be signed, its
/// digest, and the mint's log account, which that digest seeds.
pub fn plan_mint(
    program_id: &[u8; 32],
    selector: &[u8],
    payer: &[u8; 32],
    amount: u64,
    p_hash: &[u8; 32],
    n_hash: &[u8; 32],
) -> (r: Result<MintPlan, BridgeError>)
    ensures
        r is Ok <==> mint_succeeds(program_id@, selector@, payer@, amount, p_hash@, n_hash@),
        !is_utf8(selector@) ==> r == Err::<MintPlan, BridgeError>(BridgeError::Encoding),
        is_utf8(selector@) && r is Err ==> r->Err_0 == BridgeError::DerivationExhausted,
        r is Ok ==> ({
            let m = r->Ok_0;
            let sh = keccak256_of(selector@);
            &&& m.selector_hash@ == sh
            &&& is_derived(one_seed(gateway_state_tag(), program_id@), m.gateway_state)
            &&& is_derived(one_seed(sh, program_id@), m.token_mint)
            &&& is_derived(one_seed(m.token_mint@, program_id@), m.mint_authority)
            &&& is_derived(spec_token_account(program_id@, selector@, payer@), m.token_account)
            &&& m.message == MintMessage {
                p_hash: *p_hash,
                amount,
                selector_hash: m.selector_hash,
                to: m.token_account,
                n_hash: *n_hash,
            }
            &&& m.message_bytes@ == mint_message_bytes(
                amount,
                sh,
                m.token_account@,
                p_hash@,
                n_hash@,
            )
            &&& m.message_digest@ == spec_message_digest(
                selector@,
                amount,
                m.token_account@,
                p_hash@,
                n_hash@,
            )
            &&& is_derived(one_seed(m.message_digest@, program_id@), m.mint_log)
        }),
{
    let accounts = match initialize_accounts(program_id, selector) {
        Ok(a) => a,
        Err(e) => return Err(e),
    };
    let mint_authority = match mint_authority_address(program_id, &accounts.token_mint) {
        Ok(a) => a,
        Err(e) => return Err(e),
    };
    let token_account = match token_account_address(payer, &accounts.token_mint) {
        Ok(a) => a,
        Err(e) => return Err(e),
    };
    let message = MintMessage {
        p_hash: *p_hash,
        amount,
        selector_hash: accounts.selector_hash,
        to: token_account,
        n_hash: *n_hash,
    };
    let message_bytes = message.to_bytes();
    let message_digest = message.digest();
    let mint_log = match mint_log_address(program_id, &message_digest) {
        Ok(a) => a,
        Err(e) => return Err(e),
    };
    Ok(
        MintPlan {
            selector_hash: accounts.selector_hash,
            gateway_state: accounts.gateway_state,
            token_mint: accounts.token_mint,
            mint_authority,
            token_account,
            message,
            message_bytes,
            message_digest,
            mint_log,
        },
    )
}

/// The accounts a burn transaction names.
pub struct BurnPlan {
    pub selector_hash: [u8; 32],
    pub gateway_state: [u8; 32],
    pub token_mint: [u8; 32],
    pub token_account: [u8; 32],
    pub burn_log: [u8; 32],
}

/// Prepares a burn of the asset named by `selector` from the token account
/// of `payer`, whose log slot is `burn_count`, the value `next_burn_count`
/// gave.
pub fn plan_burn(program_id: &[u8; 32], selector: &[u8], payer: &[u8; 32], burn_count: u64) -> (r:
    Result<BurnPlan, BridgeError>)
    ensures
        r is Ok <==> initialize_succeeds(program_id@, selector@) && spec_token_account(
            program_id@,
            selector@,
            payer@,
        ) is Ok && one_seed(spec_u64_to_le_bytes(burn_count), program_id@) is Ok,
        !is_utf8(selector@) ==> r == Err::<BurnPlan, BridgeError>(BridgeError::Encoding),
        is_utf8(selector@) && r is Err ==> r->Err_0 == BridgeError::DerivationExhausted,
        r is Ok ==> ({
            let b = r->Ok_0;
            let sh = keccak256_of(selector@);
            &&& b.selector_hash@ == sh
            &&& is_derived(one_seed(gateway_state_tag(), program_id@), b.gateway_state)
            &&& is_derived(one_seed(sh, program_id@), b.token_mint)
            &&& is_derived(spec_token_account(program_id@, selector@, payer@), b.token_account)
            &&& is_derived(one_seed(spec_u64_to_le_bytes(burn_count), program_id@), b.burn_log)
        }),
{
    let accounts = match initialize_accounts(program_id, selector) {
        Ok(a) => a,
        Err(e) => return Err(e),
    };
    let token_account = match token_account_address(payer, &accounts.token_mint) {
        Ok(a) => a,
        Err(e) => return Err(e),
    };
    let burn_log = match burn_log_address(program_id, burn_count) {
        Ok(a) => a,
        Err(e) => return Err(e),
    };
    Ok(
        BurnPlan {
            selector_hash: accounts.selector_hash,
            gateway_state: accounts.gateway_state,
            token_mint: accounts.token_mint,
            token_account,
            burn_log,
        },
    )
}

} // verus!
