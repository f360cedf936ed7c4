//! Rental instructions: list and close.

use vstd::prelude::*;
use crate::pubkey::Pubkey;
use crate::dexloan::error::DexloanError;
use crate::dexloan::state::rental::{Rental, RentalState};
use crate::dexloan::state::token_manager::{AccountState, TokenManager};
use crate::dexloan::utils::{DepositAccount, FreezeAction, freeze_action, spec_freeze_action};
use crate::listings::processor::loan::ListedNft;
use crate::listings::utils::assert_collection_valid;

verus! {

/// The terms of a rental listing.
#[derive(Clone, Copy, PartialEq, Eq, Structural, Debug)]
pub struct RentalArgs {
    pub amount: u64,
    pub expiry: i64,
    pub borrower: Option<Pubkey>,
}

/// The lender lists the NFT for rent at `args.amount` a day until
/// `args.expiry`; a free rental must name its borrower.  The result is what
/// must be done to put the NFT under the token manager.
pub fn handle_init_rental(
    rental: &mut Rental,
    token_manager: &mut TokenManager,
    lender: Pubkey,
    nft: ListedNft,
    rental_bump: u8,
    token_manager_address: Pubkey,
    token_manager_bump: u8,
    deposit: DepositAccount,
    args: RentalArgs,
    unix_timestamp: i64,
) -> (r: Result<FreezeAction, DexloanError>)
    ensures
        r is Err ==> *final(rental) == *old(rental) && *final(token_manager) == *old(token_manager),
        r == (if !nft.collection.config.rental_enabled {
            Err::<FreezeAction, DexloanError>(DexloanError::ConstraintRaw)
        } else if nft.collection_check() is Err {
            Err(nft.collection_check()->Err_0)
        } else if unix_timestamp > args.expiry {
            Err(DexloanError::InvalidExpiry)
        } else if args.amount == 0 && args.borrower is None {
            Err(DexloanError::BorrowerNotSpecified)
        } else {
            spec_freeze_action(deposit, token_manager_address, false)
        }),
        r is Ok ==> *final(rental) == (Rental {
            lender,
            mint: nft.mint,
            bump: rental_bump,
            amount: args.amount,
            escrow_balance: 0,
            expiry: args.expiry,
            state: RentalState::Listed,
            borrower: if args.borrower is Some {
                args.borrower
            } else {
                old(rental).borrower
            },
            ..*old(rental)
        }) && *final(token_manager) == (TokenManager {
            accounts: AccountState { rental: true, ..old(token_manager).accounts },
            bump: token_manager_bump,
        }),
{
    if !nft.collection.config.rental_enabled {
        return Err(DexloanError::ConstraintRaw);
    }
    match assert_collection_valid(nft.metadata, nft.mint, nft.collection_address, nft.program_id) {
        Ok(()) => {},
        Err(e) => {
            return Err(e);
        },
    }
    if unix_timestamp > args.expiry {
        return Err(DexloanError::InvalidExpiry);
    }
    if args.amount == 0 && args.borrower.is_none() {
        return Err(DexloanError::BorrowerNotSpecified);
    }
    let action = match freeze_action(deposit, token_manager_address, false) {
        Ok(a) => a,
        Err(e) => {
            return Err(e);
        },
    };
    rental.lender = lender;
    rental.mint = nft.mint;
    rental.bump = rental_bump;
    rental.amount = args.amount;
    rental.escrow_balance = 0;
    rental.expiry = args.expiry;
    rental.state = RentalState::Listed;
    if args.borrower.is_some() {
        rental.borrower = args.borrower;
    }
    token_manager.accounts.rental = true;
    token_manager.bump = token_manager_bump;
    Ok(action)
}

/// The lender closes a rental that nobody holds; the token manager no longer
/// counts it.  The result says whether the NFT is thawed, its delegation
/// revoked and the token manager closed, which happens only when neither a
/// call option nor a loan holds the NFT.
pub fn handle_close_rental(rental: &Rental, token_manager: &mut TokenManager) -> (r: Result<bool, DexloanError>)
    ensures
        r is Err ==> *final(token_manager) == *old(token_manager),
        r == (if rental.borrower is Some || rental.state == RentalState::Rented {
            Err::<bool, DexloanError>(DexloanError::ConstraintRaw)
        } else {
            Ok(!old(token_manager).accounts.call_option && !old(token_manager).accounts.loan)
        }),
        r is Ok ==> *final(token_manager) == (TokenManager {
            accounts: AccountState { rental: false, ..old(token_manager).accounts },
            ..*old(token_manager)
        }),
{
    if rental.borrower.is_some() || rental.state == RentalState::Rented {
        return Err(DexloanError::ConstraintRaw);
    }
    token_manager.accounts.rental = false;
    Ok(token_manager.accounts.call_option == false && token_manager.accounts.loan == false)
}

} // verus!
