use vstd::prelude::*;
use vstd::bytes::{spec_u64_to_le_bytes, u64_to_le_bytes};
use crate::address::{address_matches, derived_address, program_derived_address};
use crate::error::BridgeError;

verus! {

/// The burn count that names the next burn's log slot, given the count
/// stored in the bridge's state: one past it. This is the single place where
/// the increment happens; everything downstream uses its result as is.
pub fn next_burn_count(stored_burn_count: u64) -> (r: u64)
    requires
        stored_burn_count < u64::MAX,
    ensures
        r == stored_burn_count + 1,
{
    stored_burn_count + 1
}

/// The seed of a burn's log account: the burn count's eight little-endian bytes.
pub fn burn_log_seed(burn_count: u64) -> (r: Vec<u8>)
    ensures
        r@ == spec_u64_to_le_bytes(burn_count),
{
    u64_to_le_bytes(burn_count)
}

/// The address of the log account of the burn numbered `burn_count`.
pub fn burn_log_address(program_id: &[u8; 32], burn_count: u64) -> (r: Result<
    [u8; 32],
    BridgeError,
>)
    ensures
        address_matches(r, derived_address(seq![spec_u64_to_le_bytes(burn_count)], program_id@)),
{
    let seed = burn_log_seed(burn_count);
    program_derived_address(seed.as_slice(), program_id)
}

} // verus!
