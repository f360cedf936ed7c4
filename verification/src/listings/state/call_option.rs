use vstd::prelude::*;
use crate::pubkey::Pubkey;

verus! {

#[derive(Clone, Copy, PartialEq, Eq, Structural, Debug)]
pub enum CallOptionState {
    Listed,
    Active,
    Exercised,
}

/// A call option on an NFT: the buyer pays `amount` for the right to buy the
/// NFT at `strike_price` until `expiry`.
#[derive(Clone, Copy, PartialEq, Eq, Structural, Debug)]
pub struct CallOption {
    pub state: CallOptionState,
    /// The cost of the call option.
    pub amount: u64,
    /// The creator fee.
    pub creator_basis_points: u16,
    /// The issuer of the call option.
    pub seller: Pubkey,
    /// The buyer of the call option.
    pub buyer: Option<Pubkey>,
    pub expiry: i64,
    pub strike_price: u64,
    /// The mint of the NFT.
    pub mint: Pubkey,
    pub bump: u8,
}

/// A standing bid for a call option on any NFT of a collection.
#[derive(Clone, Copy, PartialEq, Eq, Structural, Debug)]
pub struct CallOptionBid {
    pub id: u8,
    pub buyer: Pubkey,
    pub expiry: i64,
    pub strike_price: u64,
    pub amount: u64,
    pub collection: Pubkey,
    pub bump: u8,
    pub escrow_bump: u8,
}

impl CallOption {
    /// Records the terms of an ask: listed, with the given cost, creator fee,
    /// strike price and expiry.
    pub fn init_ask_state(
        call_option: &mut CallOption,
        amount: u64,
        creator_basis_points: u16,
        strike_price: u64,
        expiry: i64,
    ) -> (r: Result<(), crate::listings::error::ErrorCodes>)
        ensures
            r is Ok,
            *final(call_option) == (CallOption {
                state: CallOptionState::Listed,
                amount,
                creator_basis_points,
                strike_price,
                expiry,
                ..*old(call_option)
            }),
    {
        call_option.state = CallOptionState::Listed;
        call_option.amount = amount;
        call_option.creator_basis_points = creator_basis_points;
        call_option.strike_price = strike_price;
        call_option.expiry = expiry;
        Ok(())
    }
}

} // verus!
