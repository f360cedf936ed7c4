use vstd::prelude::*;
use crate::pubkey::Pubkey;
use crate::dexloan::error::DexloanError;

verus! {

#[derive(Clone, Copy, PartialEq, Eq, Structural, Debug)]
pub enum CallOptionState {
    Listed,
    Active,
    Exercised,
}

/// A call option on an NFT: the buyer pays `amount` for the right to buy the
/// NFT at `strike_price` until `expiry`.
#[derive(Clone, Copy, PartialEq, Eq, Structural, Debug)]
pub struct CallOption {
    /// Whether the option is active.
    pub state: CallOptionState,
    /// The cost of the call option.
    pub amount: u64,
    /// The issuer of the call option.
    pub seller: Pubkey,
    /// The buyer of the call option.
    pub buyer: Option<Pubkey>,
    pub expiry: i64,
    pub strike_price: u64,
    /// The mint of the NFT.
    pub mint: Pubkey,
    /// The mint of the spl-token, if any.
    pub token_mint: Option<Pubkey>,
    pub bump: u8,
}

impl CallOption {
    /// Records the terms of an ask: listed, with the given cost, strike price
    /// and expiry.
    pub fn init_ask_state(call_option: &mut CallOption, amount: u64, strike_price: u64, expiry: i64) -> (r: Result<(), DexloanError>)
        ensures
            r is Ok,
            *final(call_option) == (CallOption {
                state: CallOptionState::Listed,
                amount,
                strike_price,
                expiry,
                ..*old(call_option)
            }),
    {
        call_option.state = CallOptionState::Listed;
        call_option.amount = amount;
        call_option.strike_price = strike_price;
        call_option.expiry = expiry;
        Ok(())
    }

    /// Would start a listed option bought by its buyer.  The seller is
    /// required both to be and not to be the system account, so the call is
    /// always refused.
    pub fn set_active(call_option: &mut CallOption, unix_timestamp: i64) -> (r: Result<(), DexloanError>)
        ensures
            r == Err::<(), DexloanError>(DexloanError::InvalidState),
            *final(call_option) == *old(call_option),
    {
        if call_option.state != CallOptionState::Listed {
            return Err(DexloanError::InvalidState);
        }
        if call_option.buyer.is_none() {
            return Err(DexloanError::InvalidState);
        }
        if call_option.seller != Pubkey::zero() {
            return Err(DexloanError::InvalidState);
        }
        if call_option.seller == Pubkey::zero() {
            return Err(DexloanError::InvalidState);
        }
        if !(call_option.amount > 0) {
            return Err(DexloanError::InvalidState);
        }
        if !(call_option.expiry > unix_timestamp) {
            return Err(DexloanError::InvalidExpiry);
        }
        if !(call_option.strike_price > 0) {
            return Err(DexloanError::InvalidState);
        }
        call_option.state = CallOptionState::Active;
        Ok(())
    }

    /// Bytes of a call option account.
    pub fn space() -> (r: usize)
        ensures
            r == 8 + 1 + 8 + 32 + 1 + 32 + 8 + 8 + 32 + 32 + 1,
    {
        8 + 1 + 8 + 32 + 1 + 32 + 8 + 8 + 32 + 32 + 1
    }
}

/// A standing bid for a call option on any NFT of a collection.
#[derive(Clone, Copy, PartialEq, Eq, Structural, Debug)]
pub struct CallOptionBid {
    pub id: u8,
    /// The buyer making the offer.
    pub buyer: Pubkey,
    pub expiry: i64,
    pub strike_price: u64,
    /// The cost of the call option.
    pub amount: u64,
    /// The collection.
    pub collection: Pubkey,
    pub bump: u8,
    pub escrow_bump: u8,
}

impl CallOptionBid {
    /// Bytes of a call option bid account.
    pub fn space() -> (r: usize)
        ensures
            r == 8 + 1 + 32 + 8 + 8 + 8 + 32 + 1,
    {
        8 + 1 + 32 + 8 + 8 + 8 + 32 + 1
    }
}

} // verus!
