use vstd::prelude::*;
use crate::pubkey::Pubkey;

verus! {

#[derive(Clone, Copy, PartialEq, Eq, Structural, Debug)]
pub enum RentalState {
    Listed,
    Rented,
}

/// A rental listing: the NFT is lent for a daily fee paid into an escrow.
#[derive(Clone, Copy, PartialEq, Eq, Structural, Debug)]
pub struct Rental {
    pub state: RentalState,
    /// The daily cost of the rental.
    pub amount: u64,
    /// The creator fee.
    pub creator_basis_points: u16,
    /// The NFT lender.
    pub lender: Pubkey,
    /// The NFT borrower.
    pub borrower: Option<Pubkey>,
    /// The latest date this NFT may be rented until.
    pub expiry: i64,
    /// The start date of the current rental.
    pub current_start: Option<i64>,
    /// The end date of the current rental.
    pub current_expiry: Option<i64>,
    /// Any amount withheld in escrow.
    pub escrow_balance: u64,
    /// The mint of the NFT.
    pub mint: Pubkey,
    pub bump: u8,
}

impl Rental {
    /// Bytes of a rental account.
    pub fn space() -> (r: usize)
        ensures
            r == 8 + 1 + 8 + 2 + 32 + (1 + 32) + 8 + (1 + 8) + (1 + 8) + 8 + 32 + 1,
    {
        8 + 1 + 8 + 2 + 32 + (1 + 32) + 8 + (1 + 8) + (1 + 8) + 8 + 32 + 1
    }
}

} // verus!
