//! The fields of a token's metadata account that the programs read, and the
//! address of that account.

use vstd::prelude::*;
use crate::pubkey::Pubkey;
use crate::pda::{derived_program_address, try_find_program_address};
use crate::compression::state::metaplex_adapter::{Collection, Creator};

verus! {

/// A token's metadata, as the token-metadata program stores it.
#[derive(Debug, Clone)]
pub struct Metadata {
    /// The mint the metadata describes.
    pub mint: Pubkey,
    /// Royalty in basis points.
    pub seller_fee_basis_points: u16,
    /// The creators and their shares (in percent).
    pub creators: Option<Vec<Creator>>,
    /// The collection the token claims to belong to.
    pub collection: Option<Collection>,
    /// Whether the token is a programmable non-fungible token.
    pub programmable: bool,
}

impl Metadata {
    /// The creators, as a sequence (empty when there are none).
    pub open spec fn creator_seq(self) -> Seq<Creator> {
        match self.creators {
            Some(c) => c@,
            None => Seq::empty(),
        }
    }
}

/// The address of the token-metadata program,
/// `metaqbxxUerdq28cj1RbAWkYQm3ybzjb6a8bt518x1s`.
pub open spec fn spec_token_metadata_program_id() -> Pubkey {
    Pubkey { w0: 0x457cd1e3b165700b, w1: 0xcdc3046b7f529d38, w2: 0xb5fda01a736cb858, w3: 0x4629f803bcd1b649 }
}

pub fn token_metadata_program_id() -> (r: Pubkey)
    ensures
        r == spec_token_metadata_program_id(),
{
    Pubkey { w0: 0x457cd1e3b165700b, w1: 0xcdc3046b7f529d38, w2: 0xb5fda01a736cb858, w3: 0x4629f803bcd1b649 }
}

/// The bytes of `"metadata"`.
pub open spec fn metadata_prefix() -> Seq<u8> {
    seq![109u8, 101u8, 116u8, 97u8, 100u8, 97u8, 116u8, 97u8]
}

/// The seeds of a mint's metadata account: `"metadata"`, the program id, the mint.
pub open spec fn metadata_seeds(mint: Pubkey) -> Seq<Seq<u8>> {
    seq![metadata_prefix(), spec_token_metadata_program_id().bytes(), mint.bytes()]
}

/// The address of the metadata account of `mint`, with its bump seed:
/// the program address of `metadata_seeds(mint)` under the token-metadata
/// program.
pub fn find_metadata_account(mint: &Pubkey) -> (r: Option<(Pubkey, u8)>)
    ensures
        r == derived_program_address(metadata_seeds(*mint), spec_token_metadata_program_id()),
{
    let program_id = token_metadata_program_id();
    let mut seeds: Vec<Vec<u8>> = Vec::new();
    seeds.push(vec![109u8, 101u8, 116u8, 97u8, 100u8, 97u8, 116u8, 97u8]);
    seeds.push(program_id.to_bytes());
    seeds.push(mint.to_bytes());
    assert(crate::pda::seeds_view(seeds@) =~= metadata_seeds(*mint));
    try_find_program_address(&seeds, &program_id)
}

} // verus!
