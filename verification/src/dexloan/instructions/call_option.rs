//! The first call option instructions, where the NFT moves to an escrow
//! token account when the option is bought.

use vstd::prelude::*;
use crate::pubkey::Pubkey;
use crate::dexloan::error::ErrorCode;
use crate::dexloan::state::call_option::{CallOption, CallOptionState};

verus! {

/// The seller lists a call option for `amount`, exercisable at
/// `strike_price` until `expiry`.
pub fn init(
    call_option: &mut CallOption,
    seller: Pubkey,
    mint: Pubkey,
    call_option_bump: u8,
    amount: u64,
    strike_price: u64,
    expiry: i64,
    unix_timestamp: i64,
) -> (r: Result<(), ErrorCode>)
    ensures
        r == (if unix_timestamp > expiry {
            Err::<(), ErrorCode>(ErrorCode::InvalidExpiry)
        } else {
            Ok(())
        }),
        r is Err ==> *final(call_option) == *old(call_option),
        r is Ok ==> *final(call_option) == (CallOption {
            seller,
            mint,
            bump: call_option_bump,
            amount,
            expiry,
            strike_price,
            state: CallOptionState::Listed,
            ..*old(call_option)
        }),
{
    if unix_timestamp > expiry {
        return Err(ErrorCode::InvalidExpiry);
    }
    call_option.seller = seller;
    call_option.mint = mint;
    call_option.bump = call_option_bump;
    call_option.amount = amount;
    call_option.expiry = expiry;
    call_option.strike_price = strike_price;
    call_option.state = CallOptionState::Listed;
    Ok(())
}

/// The buyer buys the option: it becomes active, and the result is the price
/// the buyer pays the seller.
pub fn buy(call_option: &mut CallOption, buyer: Pubkey) -> (r: u64)
    ensures
        r == old(call_option).amount,
        *final(call_option) == (CallOption {
            state: CallOptionState::Active,
            buyer: Some(buyer),
            ..*old(call_option)
        }),
{
    call_option.state = CallOptionState::Active;
    call_option.buyer = Some(buyer);
    call_option.amount
}

/// The buyer exercises the option before its expiry; the result is the strike
/// price the buyer pays the seller.
pub fn exercise(call_option: &mut CallOption, unix_timestamp: i64) -> (r: Result<u64, ErrorCode>)
    ensures
        r == (if unix_timestamp > old(call_option).expiry {
            Err::<u64, ErrorCode>(ErrorCode::OptionExpired)
        } else {
            Ok(old(call_option).strike_price)
        }),
        r is Err ==> *final(call_option) == *old(call_option),
        r is Ok ==> *final(call_option) == (CallOption {
            state: CallOptionState::Exercised,
            ..*old(call_option)
        }),
{
    if unix_timestamp > call_option.expiry {
        return Err(ErrorCode::OptionExpired);
    }
    call_option.state = CallOptionState::Exercised;
    Ok(call_option.strike_price)
}

/// What closing an option does with the NFT.
#[derive(Clone, Copy, PartialEq, Eq, Structural, Debug)]
pub enum CloseEscrowAction {
    /// The escrow is empty and holds the delegation: revoke it.
    Revoke,
    /// The escrow is empty and not the delegate: nothing to do.
    Nothing,
    /// Move the NFT from the escrow back to the seller's account.
    ReturnToSeller,
}

/// The seller closes an option that is not active or has expired; the NFT
/// comes back from the escrow, or the escrow's delegation is revoked.
pub fn close(
    call_option: &CallOption,
    unix_timestamp: i64,
    escrow_amount: u64,
    escrow_is_delegate: bool,
) -> (r: Result<CloseEscrowAction, ErrorCode>)
    ensures
        r == (if call_option.state == CallOptionState::Active && call_option.expiry > unix_timestamp {
            Err::<CloseEscrowAction, ErrorCode>(ErrorCode::OptionNotExpired)
        } else if escrow_amount != 0 {
            Ok(CloseEscrowAction::ReturnToSeller)
        } else if escrow_is_delegate {
            Ok(CloseEscrowAction::Revoke)
        } else {
            Ok(CloseEscrowAction::Nothing)
        }),
{
    if call_option.state == CallOptionState::Active && call_option.expiry > unix_timestamp {
        return Err(ErrorCode::OptionNotExpired);
    }
    if escrow_amount == 0 {
        if escrow_is_delegate {
            Ok(CloseEscrowAction::Revoke)
        } else {
            Ok(CloseEscrowAction::Nothing)
        }
    } else {
        Ok(CloseEscrowAction::ReturnToSeller)
    }
}

} // verus!
