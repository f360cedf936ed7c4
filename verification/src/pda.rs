//! Program-derived addresses.

use vstd::prelude::*;
use crate::pubkey::Pubkey;

verus! {

/// What `Pubkey::try_find_program_address` of solana_program returns for
/// `seeds` and `program_id`: the first off-curve SHA-256 derivation found while
/// the bump seed counts down from 255, with its bump, or `None`.
pub uninterp spec fn derived_program_address(seeds: Seq<Seq<u8>>, program_id: Pubkey) -> Option<(Pubkey, u8)>;

/// The seeds' bytes.
pub open spec fn seeds_view(seeds: Seq<Vec<u8>>) -> Seq<Seq<u8>> {
    seeds.map_values(|s: Vec<u8>| s@)
}

/// Calls `solana_program::pubkey::Pubkey::try_find_program_address`.
/// Claimed: the result is the one named by `derived_program_address` for the
/// same seeds and program id; the derivation depends on nothing else.
#[verifier::external_body]
pub(crate) fn try_find_program_address(seeds: &Vec<Vec<u8>>, program_id: &Pubkey) -> (r: Option<(Pubkey, u8)>)
    ensures
        r == derived_program_address(seeds_view(seeds@), *program_id),
{
    let refs: Vec<&[u8]> = seeds.iter().map(|s| s.as_slice()).collect();
    let id = solana_program::pubkey::Pubkey::new_from_array(program_id.to_array());
    match solana_program::pubkey::Pubkey::try_find_program_address(&refs, &id) {
        Some((key, bump)) => Some((Pubkey::from_bytes(key.as_ref()), bump)),
        None => None,
    }
}

} // verus!
