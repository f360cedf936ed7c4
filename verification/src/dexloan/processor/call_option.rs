//! Call option instructions: ask, initialize, buy, sell to a bid, exercise,
//! close.

use vstd::prelude::*;
use crate::pubkey::Pubkey;
use crate::metadata::Metadata;
use crate::dexloan::error::DexloanError;
use crate::dexloan::state::call_option::{CallOption, CallOptionBid, CallOptionState};
use crate::dexloan::state::token_manager::{AccountState, TokenManager};
use crate::dexloan::utils::{pay_creator_fees, spec_pay_creator_fees};
use crate::listings::processor::loan::ListedNft;
use crate::listings::utils::{assert_collection_valid, CreatorFee};

verus! {

/// The seller offers a call option on the NFT for `amount`, exercisable at
/// `strike_price` until `expiry`.
pub fn handle_ask_call_option(
    call_option: &mut CallOption,
    token_manager: &mut TokenManager,
    seller: Pubkey,
    nft: ListedNft,
    call_option_bump: u8,
    token_manager_bump: u8,
    amount: u64,
    strike_price: u64,
    expiry: i64,
    unix_timestamp: i64,
) -> (r: Result<(), DexloanError>)
    ensures
        r is Err ==> *final(call_option) == *old(call_option) && *final(token_manager) == *old(token_manager),
        r == (if !nft.collection.config.option_enabled {
            Err::<(), DexloanError>(DexloanError::ConstraintRaw)
        } else if nft.collection_check() is Err {
            Err(nft.collection_check()->Err_0)
        } else if unix_timestamp > expiry {
            Err(DexloanError::InvalidExpiry)
        } else if old(token_manager).accounts.loan {
            Err(DexloanError::InvalidState)
        } else {
            Ok(())
        }),
        r is Ok ==> *final(call_option) == (CallOption {
            seller,
            mint: nft.mint,
            bump: call_option_bump,
            state: CallOptionState::Listed,
            amount,
            strike_price,
            expiry,
            ..*old(call_option)
        }) && *final(token_manager) == (TokenManager {
            accounts: AccountState { call_option: true, ..old(token_manager).accounts },
            bump: token_manager_bump,
        }),
{
    if !nft.collection.config.option_enabled {
        return Err(DexloanError::ConstraintRaw);
    }
    match assert_collection_valid(nft.metadata, nft.mint, nft.collection_address, nft.program_id) {
        Ok(()) => {},
        Err(e) => {
            return Err(e);
        },
    }
    if unix_timestamp > expiry {
        return Err(DexloanError::InvalidExpiry);
    }
    if token_manager.accounts.loan {
        return Err(DexloanError::InvalidState);
    }
    call_option.seller = seller;
    call_option.mint = nft.mint;
    call_option.bump = call_option_bump;
    let _ = CallOption::init_ask_state(call_option, amount, strike_price, expiry);
    token_manager.accounts.call_option = true;
    token_manager.bump = token_manager_bump;
    Ok(())
}

/// The seller lists a call option on the NFT (the first form of the
/// instruction, without a collection).
pub fn handle_init_call_option(
    call_option: &mut CallOption,
    seller: Pubkey,
    mint: Pubkey,
    call_option_bump: u8,
    amount: u64,
    strike_price: u64,
    expiry: i64,
    unix_timestamp: i64,
) -> (r: Result<(), DexloanError>)
    ensures
        r == (if unix_timestamp > expiry {
            Err::<(), DexloanError>(DexloanError::InvalidExpiry)
        } else {
            Ok(())
        }),
        r is Err ==> *final(call_option) == *old(call_option),
        r is Ok ==> *final(call_option) == (CallOption {
            seller,
            mint,
            bump: call_option_bump,
            amount,
            expiry,
            strike_price,
            state: CallOptionState::Listed,
            ..*old(call_option)
        }),
{
    if unix_timestamp > expiry {
        return Err(DexloanError::InvalidExpiry);
    }
    call_option.seller = seller;
    call_option.mint = mint;
    call_option.bump = call_option_bump;
    call_option.amount = amount;
    call_option.expiry = expiry;
    call_option.strike_price = strike_price;
    call_option.state = CallOptionState::Listed;
    Ok(())
}

/// A buyer tries to buy a listed option.  Starting the option never
/// succeeds (see `CallOption::set_active`), so the instruction always fails.
pub fn handle_buy_call_option(call_option: &mut CallOption, buyer: Pubkey, unix_timestamp: i64) -> (r: Result<(), DexloanError>)
    ensures
        r == (if old(call_option).seller == buyer || old(call_option).state != CallOptionState::Listed {
            Err::<(), DexloanError>(DexloanError::ConstraintRaw)
        } else {
            Err(DexloanError::InvalidState)
        }),
{
    if call_option.seller == buyer || call_option.state != CallOptionState::Listed {
        return Err(DexloanError::ConstraintRaw);
    }
    call_option.buyer = Some(buyer);
    match CallOption::set_active(call_option, unix_timestamp) {
        Ok(()) => {},
        Err(e) => {
            return Err(e);
        },
    }
    Ok(())
}

/// The seller sells an option to a standing bid: the option takes the bid's
/// terms and is active at once, and the result is the option's price, which
/// the bid's escrow pays the seller.
pub fn handle_sell_call_option(
    call_option: &mut CallOption,
    token_manager: &mut TokenManager,
    bid: &CallOptionBid,
    seller: Pubkey,
    nft: ListedNft,
    call_option_bump: u8,
    token_manager_bump: u8,
) -> (r: Result<u64, DexloanError>)
    ensures
        r is Err ==> *final(call_option) == *old(call_option) && *final(token_manager) == *old(token_manager),
        r == (if nft.collection_check() is Err {
            Err::<u64, DexloanError>(nft.collection_check()->Err_0)
        } else if old(token_manager).accounts.loan {
            Err(DexloanError::InvalidState)
        } else {
            Ok(bid.amount)
        }),
        r is Ok ==> *final(call_option) == (CallOption {
            seller,
            mint: nft.mint,
            bump: call_option_bump,
            amount: bid.amount,
            expiry: bid.expiry,
            strike_price: bid.strike_price,
            state: CallOptionState::Active,
            ..*old(call_option)
        }) && *final(token_manager) == (TokenManager {
            accounts: AccountState { call_option: true, ..old(token_manager).accounts },
            bump: token_manager_bump,
        }),
{
    match assert_collection_valid(nft.metadata, nft.mint, nft.collection_address, nft.program_id) {
        Ok(()) => {},
        Err(e) => {
            return Err(e);
        },
    }
    if token_manager.accounts.loan {
        return Err(DexloanError::InvalidState);
    }
    call_option.seller = seller;
    call_option.mint = nft.mint;
    call_option.bump = call_option_bump;
    call_option.amount = bid.amount;
    call_option.expiry = bid.expiry;
    call_option.strike_price = bid.strike_price;
    call_option.state = CallOptionState::Active;
    token_manager.accounts.call_option = true;
    token_manager.bump = token_manager_bump;
    Ok(call_option.amount)
}

/// The payments of an exercised option: royalties out of the strike price to
/// the creators and the rest to the seller.
#[derive(Clone, Debug)]
pub struct Exercise {
    pub creator_fees: Vec<CreatorFee>,
    pub seller_amount: u64,
}

/// The buyer exercises an active option before its expiry: the option is
/// exercised and the buyer pays the strike price, royalties to the creators
/// and the rest to the seller.
pub fn handle_exercise_call_option(
    call_option: &mut CallOption,
    token_manager: &TokenManager,
    unix_timestamp: i64,
    mint: &Pubkey,
    metadata: &Metadata,
    metadata_address: &Pubkey,
    metadata_is_empty: bool,
    remaining_accounts: &[Pubkey],
) -> (r: Result<Exercise, DexloanError>)
    ensures
        r is Err ==> *final(call_option) == *old(call_option),
        old(call_option).state != CallOptionState::Active || token_manager.accounts.hire
            || !token_manager.accounts.call_option ==> r == Err::<Exercise, DexloanError>(DexloanError::ConstraintRaw),
        old(call_option).state == CallOptionState::Active && !token_manager.accounts.hire
            && token_manager.accounts.call_option ==> {
            if unix_timestamp > old(call_option).expiry {
                r == Err::<Exercise, DexloanError>(DexloanError::OptionExpired)
            } else {
                match spec_pay_creator_fees(
                    old(call_option).strike_price,
                    *mint,
                    *metadata,
                    *metadata_address,
                    metadata_is_empty,
                    remaining_accounts@,
                ) {
                    Err(e) => r matches Err(e2) && e2 == e,
                    Ok((fees, rest)) => r matches Ok(x) && x.creator_fees@ == fees && x.seller_amount == rest
                        && *final(call_option) == (CallOption {
                        state: CallOptionState::Exercised,
                        ..*old(call_option)
                    }),
                }
            }
        },
{
    if call_option.state != CallOptionState::Active || token_manager.accounts.hire
        || !token_manager.accounts.call_option {
        return Err(DexloanError::ConstraintRaw);
    }
    if unix_timestamp > call_option.expiry {
        return Err(DexloanError::OptionExpired);
    }
    let (creator_fees, seller_amount) = match pay_creator_fees(
        remaining_accounts,
        call_option.strike_price,
        mint,
        metadata,
        metadata_address,
        metadata_is_empty,
    ) {
        Ok(x) => x,
        Err(e) => {
            return Err(e);
        },
    };
    call_option.state = CallOptionState::Exercised;
    Ok(Exercise { creator_fees, seller_amount })
}

/// The seller closes an option that is not active or has expired; the result
/// says whether the deposit account must be thawed before its delegation is
/// revoked.
pub fn handle_close_call_option(call_option: &CallOption, deposit_is_frozen: bool, unix_timestamp: i64) -> (r: Result<bool, DexloanError>)
    ensures
        r == (if call_option.state == CallOptionState::Active && call_option.expiry > unix_timestamp {
            Err::<bool, DexloanError>(DexloanError::OptionNotExpired)
        } else {
            Ok(deposit_is_frozen)
        }),
{
    if call_option.state == CallOptionState::Active {
        if call_option.expiry > unix_timestamp {
            return Err(DexloanError::OptionNotExpired);
        }
    }
    Ok(deposit_is_frozen)
}

} // verus!
