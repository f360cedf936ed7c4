use vstd::prelude::*;
use crate::pubkey::Pubkey;

verus! {

#[derive(Clone, Copy, PartialEq, Eq, Structural, Debug)]
pub enum HireState {
    Listed,
    Hired,
}

/// A hire listing: the NFT is lent for a daily fee.
#[derive(Clone, Copy, PartialEq, Eq, Structural, Debug)]
pub struct Hire {
    pub state: HireState,
    /// The daily cost of the hire.
    pub amount: u64,
    /// The NFT holder.
    pub borrower: Option<Pubkey>,
    /// The owner lending the NFT.
    pub lender: Pubkey,
    /// The end of the current hire.
    pub current_expiry: Option<i64>,
    /// The expiry of the hire.
    pub expiry: i64,
    /// The mint of the NFT.
    pub mint: Pubkey,
    pub bump: u8,
    /// The start of the current hire period.
    pub current_start: Option<i64>,
    /// The amount held in escrow for the current hire.
    pub escrow_balance: u64,
}

impl Hire {
    /// Bytes of a hire account.
    pub fn space() -> (r: usize)
        ensures
            r == 8 + 1 + 8 + (1 + 32) + 32 + (1 + 8) + 8 + 32 + 1,
    {
        8 + 1 + 8 + (1 + 32) + 32 + (1 + 8) + 8 + 32 + 1
    }
}

} // verus!
