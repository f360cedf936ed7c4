//! Call option instructions: ask, close, exercise.

use vstd::prelude::*;
use crate::pubkey::Pubkey;
use crate::metadata::Metadata;
use crate::listings::error::ErrorCodes;
use crate::listings::state::call_option::{CallOption, CallOptionState};
use crate::listings::state::token_manager::{AccountState, TokenManager};
use crate::listings::processor::loan::ListedNft;
use crate::listings::utils::{get_creator_fees, spec_creator_fees, CreatorFee};

verus! {

/// The first reason a seller may not offer a call option on the NFT: the
/// token manager answers to someone else, options are off for the
/// collection, the NFT is not a verified member, the expiry has passed, a
/// loan holds the NFT, or the deposit account is delegated elsewhere.
pub open spec fn ask_call_option_error(
    token_manager: TokenManager,
    seller: Pubkey,
    nft: ListedNft,
    token_manager_address: Pubkey,
    deposit_delegate: Option<Pubkey>,
    expiry: i64,
    unix_timestamp: i64,
) -> Option<ErrorCodes> {
    if !(token_manager.authority == Some(seller) || token_manager.authority is None) {
        Some(ErrorCodes::Unauthorized)
    } else if !nft.collection.config.option_enabled {
        Some(ErrorCodes::ConstraintRaw)
    } else if nft.collection_check() is Err {
        Some(nft.collection_check()->Err_0)
    } else if unix_timestamp > expiry {
        Some(ErrorCodes::InvalidExpiry)
    } else if token_manager.accounts.loan {
        Some(ErrorCodes::InvalidState)
    } else if deposit_delegate matches Some(d) && d != token_manager_address {
        Some(ErrorCodes::InvalidState)
    } else {
        None
    }
}

/// Offers a call option on the NFT for `amount`, exercisable at
/// `strike_price` until `expiry`, with the collection's option fee going to
/// the creators.  On success the result says whether the deposit account
/// still has to be delegated to the token manager and frozen.
pub fn handle_ask_call_option(
    call_option: &mut CallOption,
    token_manager: &mut TokenManager,
    seller: Pubkey,
    nft: ListedNft,
    call_option_bump: u8,
    token_manager_address: Pubkey,
    token_manager_bump: u8,
    deposit_delegate: Option<Pubkey>,
    amount: u64,
    strike_price: u64,
    expiry: i64,
    unix_timestamp: i64,
) -> (r: Result<bool, ErrorCodes>)
    ensures
        match ask_call_option_error(
            *old(token_manager),
            seller,
            nft,
            token_manager_address,
            deposit_delegate,
            expiry,
            unix_timestamp,
        ) {
            Some(e) => r == Err::<bool, ErrorCodes>(e) && *final(call_option) == *old(call_option)
                && *final(token_manager) == *old(token_manager),
            None => r == Ok::<bool, ErrorCodes>(deposit_delegate is None) && *final(call_option) == (CallOption {
                seller,
                mint: nft.mint,
                bump: call_option_bump,
                state: CallOptionState::Listed,
                amount,
                creator_basis_points: nft.collection.config.option_basis_points,
                strike_price,
                expiry,
                ..*old(call_option)
            }) && *final(token_manager) == (TokenManager {
                accounts: AccountState { call_option: true, ..old(token_manager).accounts },
                authority: Some(seller),
                bump: token_manager_bump,
            }),
        },
{
    if !(token_manager.authority == Some(seller) || token_manager.authority.is_none()) {
        return Err(ErrorCodes::Unauthorized);
    }
    if !nft.collection.config.option_enabled {
        return Err(ErrorCodes::ConstraintRaw);
    }
    match crate::listings::utils::assert_collection_valid(
        nft.metadata,
        nft.mint,
        nft.collection_address,
        nft.program_id,
    ) {
        Ok(()) => {},
        Err(e) => {
            return Err(e);
        },
    }
    if unix_timestamp > expiry {
        return Err(ErrorCodes::InvalidExpiry);
    }
    if token_manager.accounts.loan {
        return Err(ErrorCodes::InvalidState);
    }
    let needs_freeze = match deposit_delegate {
        Some(d) => {
            if d != token_manager_address {
                return Err(ErrorCodes::InvalidState);
            }
            false
        },
        None => true,
    };
    call_option.seller = seller;
    call_option.mint = nft.mint;
    call_option.bump = call_option_bump;
    let _ = CallOption::init_ask_state(
        call_option,
        amount,
        nft.collection.config.option_basis_points,
        strike_price,
        expiry,
    );
    token_manager.authority = Some(seller);
    token_manager.accounts.call_option = true;
    token_manager.bump = token_manager_bump;
    Ok(needs_freeze)
}

/// What closing a call option does to the NFT.
#[derive(Clone, Copy, PartialEq, Eq, Structural, Debug)]
pub enum CloseAction {
    /// Thaw the NFT, revoke the token manager's delegation and close the token
    /// manager.
    ThawRevokeAndClose,
    /// Leave the NFT frozen: a rental still holds it.
    KeepFrozen,
}

/// Closes the seller's call option: it must record `seller` as its seller,
/// and an active option must have expired.  The
/// token manager no longer counts the option; when no rental holds the NFT it
/// is thawed and handed back, otherwise the token manager is told that no
/// loan holds it.
pub fn handle_close_call_option(
    call_option: &CallOption,
    token_manager: &mut TokenManager,
    seller: Pubkey,
    unix_timestamp: i64,
) -> (r: Result<CloseAction, ErrorCodes>)
    requires
        call_option.seller == seller ==> old(token_manager).authority is Some,
    ensures
        r is Err ==> *final(token_manager) == *old(token_manager),
        r == (if call_option.seller != seller {
            Err::<CloseAction, ErrorCodes>(ErrorCodes::ConstraintHasOne)
        } else if old(token_manager).authority->0 != seller {
            Err(ErrorCodes::Unauthorized)
        } else if call_option.state == CallOptionState::Active && call_option.expiry > unix_timestamp {
            Err(ErrorCodes::OptionNotExpired)
        } else if !old(token_manager).accounts.rental {
            Ok(CloseAction::ThawRevokeAndClose)
        } else {
            Ok(CloseAction::KeepFrozen)
        }),
        r is Ok ==> *final(token_manager) == (TokenManager {
            accounts: AccountState {
                call_option: false,
                loan: if old(token_manager).accounts.rental {
                    false
                } else {
                    old(token_manager).accounts.loan
                },
                ..old(token_manager).accounts
            },
            ..*old(token_manager)
        }),
{
    if call_option.seller != seller {
        return Err(ErrorCodes::ConstraintHasOne);
    }
    let authority = match token_manager.authority {
        Some(a) => a,
        None => seller,
    };
    if authority != seller {
        return Err(ErrorCodes::Unauthorized);
    }
    if call_option.state == CallOptionState::Active {
        if call_option.expiry > unix_timestamp {
            return Err(ErrorCodes::OptionNotExpired);
        }
    }
    token_manager.accounts.call_option = false;
    if !token_manager.accounts.rental {
        Ok(CloseAction::ThawRevokeAndClose)
    } else {
        token_manager.accounts.loan = false;
        Ok(CloseAction::KeepFrozen)
    }
}

/// The payments of an exercised option: royalties to the creators out of the
/// strike price and the rest to the seller.
#[derive(Clone, Debug)]
pub struct Exercise {
    pub creator_fees: Vec<CreatorFee>,
    pub seller_amount: u64,
}

/// The first reason the buyer may not exercise: the option is not for `mint`
/// or not `seller`'s; it does not record `buyer` as its buyer, or is not
/// active; a rental holds the NFT; the token manager answers to someone other
/// than the seller; or the option has expired.
pub open spec fn exercise_error(
    call_option: CallOption,
    token_manager: TokenManager,
    buyer: Pubkey,
    seller: Pubkey,
    mint: Pubkey,
    unix_timestamp: i64,
) -> Option<ErrorCodes> {
    if call_option.mint != mint || call_option.seller != seller {
        Some(ErrorCodes::ConstraintHasOne)
    } else if call_option.buyer != Some(buyer) || call_option.state != CallOptionState::Active {
        Some(ErrorCodes::ConstraintRaw)
    } else if token_manager.accounts.rental {
        Some(ErrorCodes::InvalidState)
    } else if token_manager.authority != Some(seller) {
        Some(ErrorCodes::Unauthorized)
    } else if unix_timestamp > call_option.expiry {
        Some(ErrorCodes::OptionExpired)
    } else {
        None
    }
}

/// Exercises the option: the buyer pays the strike price (royalties at the
/// NFT's seller fee to the creators, the rest to the seller), the option is
/// exercised, and the token manager hands control of the NFT to the buyer.
pub fn handle_exercise_call_option(
    call_option: &mut CallOption,
    token_manager: &mut TokenManager,
    buyer: Pubkey,
    seller: Pubkey,
    unix_timestamp: i64,
    mint: &Pubkey,
    metadata: &Metadata,
    metadata_address: &Pubkey,
    metadata_is_empty: bool,
    remaining_accounts: &[Pubkey],
) -> (r: Result<Exercise, ErrorCodes>)
    requires
        old(call_option).mint == *mint && old(call_option).seller == seller ==> old(call_option).buyer is Some,
        old(call_option).mint == *mint && old(call_option).seller == seller && old(call_option).buyer == Some(buyer)
            && old(call_option).state == CallOptionState::Active && !old(token_manager).accounts.rental
            ==> old(token_manager).authority is Some,
    ensures
        r is Err ==> *final(call_option) == *old(call_option) && *final(token_manager) == *old(token_manager),
        match exercise_error(*old(call_option), *old(token_manager), buyer, seller, *mint, unix_timestamp) {
            Some(e) => r == Err::<Exercise, ErrorCodes>(e),
            None => match spec_creator_fees(
                old(call_option).strike_price,
                metadata.seller_fee_basis_points,
                *mint,
                *metadata,
                *metadata_address,
                metadata_is_empty,
                remaining_accounts@,
            ) {
                Err(e) => r matches Err(e2) && e2 == e,
                Ok((fees, rest)) => r matches Ok(x) && x.creator_fees@ == fees && x.seller_amount == rest
                    && *final(call_option) == (CallOption { state: CallOptionState::Exercised, ..*old(call_option) })
                    && *final(token_manager) == (TokenManager {
                    accounts: AccountState {
                        call_option: false,
                        rental: false,
                        ..old(token_manager).accounts
                    },
                    authority: Some(buyer),
                    ..*old(token_manager)
                }),
            },
        },
{
    if call_option.mint != *mint || call_option.seller != seller {
        return Err(ErrorCodes::ConstraintHasOne);
    }
    if call_option.buyer != Some(buyer) || call_option.state != CallOptionState::Active {
        return Err(ErrorCodes::ConstraintRaw);
    }
    if token_manager.accounts.rental {
        return Err(ErrorCodes::InvalidState);
    }
    if token_manager.authority != Some(seller) {
        return Err(ErrorCodes::Unauthorized);
    }
    if unix_timestamp > call_option.expiry {
        return Err(ErrorCodes::OptionExpired);
    }
    let (creator_fees, seller_amount) = match get_creator_fees(
        call_option.strike_price,
        metadata.seller_fee_basis_points,
        mint,
        metadata,
        metadata_address,
        metadata_is_empty,
        remaining_accounts,
    ) {
        Ok(x) => x,
        Err(e) => {
            return Err(e);
        },
    };
    call_option.state = CallOptionState::Exercised;
    token_manager.accounts.call_option = false;
    token_manager.accounts.rental = false;
    token_manager.authority = Some(buyer);
    Ok(Exercise { creator_fees, seller_amount })
}


/// An option cannot be exercised after its expiry: past it, exercising
/// fails (with `OptionExpired` once the accounts check out), and a failed
/// exercise changes neither the option nor the token manager.
pub proof fn law_no_exercise_after_expiry(
    call_option: CallOption,
    token_manager: TokenManager,
    buyer: Pubkey,
    seller: Pubkey,
    mint: Pubkey,
    unix_timestamp: i64,
)
    requires
        unix_timestamp > call_option.expiry,
    ensures
        exercise_error(call_option, token_manager, buyer, seller, mint, unix_timestamp) is Some,
        call_option.mint == mint && call_option.seller == seller && call_option.buyer == Some(buyer)
            && call_option.state == CallOptionState::Active && !token_manager.accounts.rental
            && token_manager.authority == Some(seller) ==> exercise_error(
            call_option,
            token_manager,
            buyer,
            seller,
            mint,
            unix_timestamp,
        ) == Some(ErrorCodes::OptionExpired),
{
}

} // verus!
