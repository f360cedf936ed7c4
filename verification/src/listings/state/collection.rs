use vstd::prelude::*;
use crate::pubkey::Pubkey;

verus! {

/// A collection whose NFTs may be listed, with its fee configuration.
#[derive(Clone, Copy, Debug)]
pub struct Collection {
    pub authority: Pubkey,
    pub mint: Pubkey,
    pub config: Config,
    pub reserved: [u8; 64],
    pub bump: u8,
}

#[derive(Clone, Copy, PartialEq, Eq, Structural, Debug)]
pub struct Config {
    pub loan_enabled: bool,
    pub loan_basis_points: u16,
    pub option_enabled: bool,
    pub option_basis_points: u16,
    pub rental_enabled: bool,
    pub rental_basis_points: u16,
}

impl Collection {
    /// Bytes of a collection account: discriminator, authority, mint,
    /// config, reserved space, bump.
    pub fn space() -> (r: usize)
        ensures
            r == 8 + 32 + 32 + (1 + 2 + 1 + 2 + 1 + 2) + 64 + 1,
    {
        8 + 32 + 32 + 1 + 2 + 1 + 2 + 1 + 2 + 64 + 1
    }
}

/// The bytes of `"collection"`, the seed prefix of a collection account.
pub open spec fn collection_prefix() -> Seq<u8> {
    seq![99u8, 111u8, 108u8, 108u8, 101u8, 99u8, 116u8, 105u8, 111u8, 110u8]
}

pub fn collection_prefix_bytes() -> (r: Vec<u8>)
    ensures
        r@ == collection_prefix(),
{
    let r = vec![99u8, 111u8, 108u8, 108u8, 101u8, 99u8, 116u8, 105u8, 111u8, 110u8];
    assert(r@ =~= collection_prefix());
    r
}

} // verus!
