use vstd::prelude::*;
use solana_sdk::pubkey::Pubkey;
use crate::bytes::bytes_to_vec;
use crate::error::BridgeError;

verus! {

/// What the program-address search yields for a seed list and a program id:
/// the address and its bump, or nothing when no off-curve candidate exists.
pub uninterp spec fn program_address_of(seeds: Seq<Seq<u8>>, program_id: Seq<u8>) -> Option<
    (Seq<u8>, u8),
>;

/// The byte strings held by a list of seeds.
pub open spec fn seeds_view(seeds: Seq<Vec<u8>>) -> Seq<Seq<u8>> {
    seeds.map_values(|s: Vec<u8>| s@)
}

/// The derived address alone, or `DerivationExhausted`.
pub open spec fn derived_address(seeds: Seq<Seq<u8>>, program_id: Seq<u8>) -> Result<
    Seq<u8>,
    BridgeError,
> {
    match program_address_of(seeds, program_id) {
        Some(p) => Ok(p.0),
        None => Err(BridgeError::DerivationExhausted),
    }
}

/// Whether an executable address result agrees with `derived_address`.
pub open spec fn address_matches(r: Result<[u8; 32], BridgeError>, expected: Result<Seq<u8>, BridgeError>) -> bool {
    match r {
        Ok(a) => expected == Ok::<Seq<u8>, BridgeError>(a@),
        Err(e) => expected == Err::<Seq<u8>, BridgeError>(e),
    }
}

/// Relies on solana_sdk's `Pubkey::try_find_program_address`: the search
/// over bump seeds 255 down to 0 is a function of the seeds and the program
/// id alone, and returns `None` when no candidate is off the curve or the
/// seeds exceed the runtime's limits.
#[verifier::external_body]
fn try_find_program_address(seeds: &Vec<Vec<u8>>, program_id: &[u8; 32]) -> (r: Option<
    ([u8; 32], u8),
>)
    ensures
        match r {
            Some(p) => program_address_of(seeds_view(seeds@), program_id@) == Some((p.0@, p.1)),
            None => program_address_of(seeds_view(seeds@), program_id@) is None,
        },
{
    let refs: Vec<&[u8]> = seeds.iter().map(|s| s.as_slice()).collect();
    Pubkey::try_find_program_address(&refs, &Pubkey::new_from_array(*program_id)).map(
        |(k, b)| (k.to_bytes(), b),
    )
}

/// Derives the program-controlled address and bump for an ordered seed list.
pub fn derive_address(program_id: &[u8; 32], seeds: &Vec<Vec<u8>>) -> (r: Result<
    ([u8; 32], u8),
    BridgeError,
>)
    ensures
        match r {
            Ok(p) => program_address_of(seeds_view(seeds@), program_id@) == Some((p.0@, p.1)),
            Err(e) => e == BridgeError::DerivationExhausted && program_address_of(
                seeds_view(seeds@),
                program_id@,
            ) is None,
        },
{
    match try_find_program_address(seeds, program_id) {
        Some(p) => Ok(p),
        None => Err(BridgeError::DerivationExhausted),
    }
}

/// Derives the address for the single seed `seed`.
pub fn program_derived_address(seed: &[u8], program_id: &[u8; 32]) -> (r: Result<
    [u8; 32],
    BridgeError,
>)
    ensures
        address_matches(r, derived_address(seq![seed@], program_id@)),
{
    let seeds: Vec<Vec<u8>> = vec![bytes_to_vec(seed)];
    assert(seeds_view(seeds@) =~= seq![seed@]);
    match derive_address(program_id, &seeds) {
        Ok(p) => Ok(p.0),
        Err(e) => Err(e),
    }
}

/// The tag that seeds the bridge's state account: the ASCII text `GatewayState`.
pub open spec fn gateway_state_tag() -> Seq<u8> {
    seq![71u8, 97, 116, 101, 119, 97, 121, 83, 116, 97, 116, 101]
}

/// The address of the bridge's state account.
pub fn gateway_state_address(program_id: &[u8; 32]) -> (r: Result<[u8; 32], BridgeError>)
    ensures
        address_matches(r, derived_address(seq![gateway_state_tag()], program_id@)),
{
    let tag: Vec<u8> = vec![71u8, 97, 116, 101, 119, 97, 121, 83, 116, 97, 116, 101];
    assert(tag@ =~= gateway_state_tag());
    program_derived_address(tag.as_slice(), program_id)
}

/// The address of the wrapped asset's token mint, seeded by its selector hash.
pub fn token_mint_address(program_id: &[u8; 32], selector_hash: &[u8; 32]) -> (r: Result<
    [u8; 32],
    BridgeError,
>)
    ensures
        address_matches(r, derived_address(seq![selector_hash@], program_id@)),
{
    program_derived_address(selector_hash, program_id)
}

/// The address of the mint authority, seeded by the token mint's address.
pub fn mint_authority_address(program_id: &[u8; 32], token_mint: &[u8; 32]) -> (r: Result<
    [u8; 32],
    BridgeError,
>)
    ensures
        address_matches(r, derived_address(seq![token_mint@], program_id@)),
{
    program_derived_address(token_mint, program_id)
}

/// The address of a mint's log account, seeded by the message digest: one
/// log account for each distinct mint message.
pub fn mint_log_address(program_id: &[u8; 32], message_digest: &[u8; 32]) -> (r: Result<
    [u8; 32],
    BridgeError,
>)
    ensures
        address_matches(r, derived_address(seq![message_digest@], program_id@)),
{
    program_derived_address(message_digest, program_id)
}

/// Deriving twice from the same seed list and program id yields the same
/// address and bump.
pub proof fn lemma_derivation_deterministic(
    seeds1: Seq<Seq<u8>>,
    program_id1: Seq<u8>,
    seeds2: Seq<Seq<u8>>,
    program_id2: Seq<u8>,
)
    requires
        seeds1 == seeds2,
        program_id1 == program_id2,
    ensures
        program_address_of(seeds1, program_id1) == program_address_of(seeds2, program_id2),
        derived_address(seeds1, program_id1) == derived_address(seeds2, program_id2),
{
}

} // verus!
