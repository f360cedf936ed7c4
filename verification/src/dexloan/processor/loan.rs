//! Loan instructions: offers, listings, lending, repayment, repossession.

use vstd::prelude::*;
use crate::pubkey::Pubkey;
use crate::dexloan::error::DexloanError;
use crate::dexloan::state::loan::{Loan, LoanOffer, LoanState};
use crate::dexloan::state::rental::Rental;
use crate::dexloan::state::token_manager::{AccountState, TokenManager};
use crate::dexloan::utils::{DepositAccount, FreezeAction, freeze_action, spec_freeze_action};
use crate::listings::state::collection::Collection;
use crate::listings::processor::loan::ListedNft;
use crate::listings::utils::assert_collection_valid;

verus! {

/// A lender offers `amount` for `duration` seconds at `basis_points` a year
/// against any NFT of a collection with loans enabled; the result is the
/// amount the lender moves into the offer's escrow.
pub fn handle_offer_loan(
    offer: &mut LoanOffer,
    collection: &Collection,
    collection_address: Pubkey,
    lender: Pubkey,
    offer_bump: u8,
    escrow_bump: u8,
    amount: u64,
    basis_points: u32,
    duration: i64,
    offer_id: u8,
) -> (r: Result<u64, DexloanError>)
    ensures
        !collection.config.loan_enabled ==> r == Err::<u64, DexloanError>(DexloanError::ConstraintRaw)
            && *final(offer) == *old(offer),
        collection.config.loan_enabled ==> r == Ok::<u64, DexloanError>(amount) && *final(offer) == (LoanOffer {
            collection: collection_address,
            bump: offer_bump,
            escrow_bump,
            id: offer_id,
            lender,
            amount: Some(amount),
            basis_points,
            duration,
            ltv: None,
            threshold: None,
        }),
{
    if !collection.config.loan_enabled {
        return Err(DexloanError::ConstraintRaw);
    }
    offer.collection = collection_address;
    offer.bump = offer_bump;
    offer.escrow_bump = escrow_bump;
    offer.id = offer_id;
    offer.lender = lender;
    offer.amount = Some(amount);
    offer.basis_points = basis_points;
    offer.duration = duration;
    offer.ltv = None;
    offer.threshold = None;
    Ok(amount)
}

/// The loan a taken offer starts from: the offer's terms, listed.
pub open spec fn loan_from_offer(loan: Loan, borrower: Pubkey, lender: Pubkey, mint: Pubkey, offer: LoanOffer, loan_bump: u8) -> Loan {
    Loan {
        mint,
        borrower,
        lender: Some(lender),
        bump: loan_bump,
        amount: offer.amount,
        outstanding: offer.amount->0,
        threshold: None,
        installments: 1,
        basis_points: offer.basis_points,
        duration: offer.duration,
        state: LoanState::Listed,
        ..loan
    }
}

/// A borrower takes a lender's offer against the NFT: the loan starts at
/// `unix_timestamp` on the offer's terms, and the result is the amount the
/// offer's escrow pays the borrower.
pub fn handle_take_loan_offer(
    loan: &mut Loan,
    token_manager: &mut TokenManager,
    offer: &LoanOffer,
    borrower: Pubkey,
    lender: Pubkey,
    nft: ListedNft,
    loan_bump: u8,
    token_manager_bump: u8,
    unix_timestamp: i64,
) -> (r: Result<u64, DexloanError>)
    requires
        offer.amount is Some,
    ensures
        ({
            let started = loan_from_offer(*old(loan), borrower, lender, nft.mint, *offer, loan_bump);
            if nft.collection_check() is Err {
                r == Err::<u64, DexloanError>(nft.collection_check()->Err_0) && *final(loan) == *old(loan)
                    && *final(token_manager) == *old(token_manager)
            } else if old(token_manager).accounts.call_option {
                r == Err::<u64, DexloanError>(DexloanError::InvalidState) && *final(loan) == *old(loan)
                    && *final(token_manager) == *old(token_manager)
            } else if started.activation_error() is Some {
                r == Err::<u64, DexloanError>(started.activation_error()->0) && *final(loan) == *old(loan)
                    && *final(token_manager) == *old(token_manager)
            } else {
                r == Ok::<u64, DexloanError>(offer.amount->0) && *final(loan) == (Loan {
                    state: LoanState::Active,
                    start_date: Some(unix_timestamp),
                    ..started
                }) && *final(token_manager) == (TokenManager {
                    accounts: AccountState { loan: true, ..old(token_manager).accounts },
                    bump: token_manager_bump,
                })
            }
        }),
{
    match assert_collection_valid(nft.metadata, nft.mint, nft.collection_address, nft.program_id) {
        Ok(()) => {},
        Err(e) => {
            return Err(e);
        },
    }
    if token_manager.accounts.call_option {
        return Err(DexloanError::InvalidState);
    }
    let amount = match offer.amount {
        Some(a) => a,
        None => 0,
    };
    let mut next = *loan;
    next.mint = nft.mint;
    next.borrower = borrower;
    next.lender = Some(lender);
    next.bump = loan_bump;
    next.init_state(amount, offer.basis_points, offer.duration);
    match next.set_active(unix_timestamp) {
        Ok(()) => {},
        Err(e) => {
            return Err(e);
        },
    }
    *loan = next;
    token_manager.accounts.loan = true;
    token_manager.bump = token_manager_bump;
    Ok(amount)
}

/// The borrower lists the NFT as collateral for a loan of `amount`; the result
/// is what must be done to put the NFT under the token manager.
pub fn handle_init_loan(
    loan: &mut Loan,
    token_manager: &mut TokenManager,
    borrower: Pubkey,
    nft: ListedNft,
    loan_bump: u8,
    token_manager_address: Pubkey,
    token_manager_bump: u8,
    deposit: DepositAccount,
    amount: u64,
    basis_points: u32,
    duration: i64,
) -> (r: Result<FreezeAction, DexloanError>)
    ensures
        r is Err ==> *final(loan) == *old(loan) && *final(token_manager) == *old(token_manager),
        r == (if nft.collection_check() is Err {
            Err::<FreezeAction, DexloanError>(nft.collection_check()->Err_0)
        } else if old(token_manager).accounts.call_option {
            Err(DexloanError::InvalidState)
        } else {
            spec_freeze_action(deposit, token_manager_address, true)
        }),
        r is Ok ==> *final(loan) == (Loan {
            mint: nft.mint,
            borrower,
            bump: loan_bump,
            amount: Some(amount),
            basis_points,
            duration,
            state: LoanState::Listed,
            ..*old(loan)
        }) && *final(token_manager) == (TokenManager {
            accounts: AccountState { loan: true, ..old(token_manager).accounts },
            bump: token_manager_bump,
        }),
{
    match assert_collection_valid(nft.metadata, nft.mint, nft.collection_address, nft.program_id) {
        Ok(()) => {},
        Err(e) => {
            return Err(e);
        },
    }
    if token_manager.accounts.call_option {
        return Err(DexloanError::InvalidState);
    }
    let action = match freeze_action(deposit, token_manager_address, true) {
        Ok(a) => a,
        Err(e) => {
            return Err(e);
        },
    };
    loan.mint = nft.mint;
    loan.borrower = borrower;
    loan.bump = loan_bump;
    loan.amount = Some(amount);
    loan.basis_points = basis_points;
    loan.duration = duration;
    loan.state = LoanState::Listed;
    token_manager.accounts.loan = true;
    token_manager.bump = token_manager_bump;
    Ok(action)
}

/// A lender funds a listed loan at `unix_timestamp`; the result is the amount
/// the lender pays the borrower.
pub fn handle_give_loan(
    loan: &mut Loan,
    token_manager: &mut TokenManager,
    lender: Pubkey,
    unix_timestamp: i64,
) -> (r: Result<u64, DexloanError>)
    requires
        old(loan).amount is Some,
    ensures
        r is Err ==> *final(loan) == *old(loan) && *final(token_manager) == *old(token_manager),
        r == (if old(loan).borrower == lender || old(loan).state != LoanState::Listed {
            Err::<u64, DexloanError>(DexloanError::ConstraintRaw)
        } else {
            Ok(old(loan).amount->0)
        }),
        r is Ok ==> *final(loan) == (Loan {
            state: LoanState::Active,
            lender: Some(lender),
            start_date: Some(unix_timestamp),
            ..*old(loan)
        }) && *final(token_manager) == (TokenManager {
            accounts: AccountState { loan: true, ..old(token_manager).accounts },
            ..*old(token_manager)
        }),
{
    if loan.borrower == lender || loan.state != LoanState::Listed {
        return Err(DexloanError::ConstraintRaw);
    }
    loan.state = LoanState::Active;
    loan.lender = Some(lender);
    loan.start_date = Some(unix_timestamp);
    token_manager.accounts.loan = true;
    match loan.amount {
        Some(a) => Ok(a),
        None => Ok(0),
    }
}

/// The borrower closes a listed or defaulted loan; the token manager no
/// longer counts it.  The result says whether the NFT is thawed and its
/// delegation revoked, which is not done while a hire holds it.
pub fn handle_close_loan(loan: &Loan, token_manager: &mut TokenManager) -> (r: Result<bool, DexloanError>)
    ensures
        r is Err ==> *final(token_manager) == *old(token_manager),
        r == (if !(loan.state == LoanState::Listed || loan.state == LoanState::Defaulted) {
            Err::<bool, DexloanError>(DexloanError::ConstraintRaw)
        } else {
            Ok(!old(token_manager).accounts.hire)
        }),
        r is Ok ==> *final(token_manager) == (TokenManager {
            accounts: AccountState { loan: false, ..old(token_manager).accounts },
            ..*old(token_manager)
        }),
{
    if !(loan.state == LoanState::Listed || loan.state == LoanState::Defaulted) {
        return Err(DexloanError::ConstraintRaw);
    }
    token_manager.accounts.loan = false;
    if token_manager.accounts.hire == true {
        return Ok(false);
    }
    Ok(true)
}

/// The borrower repays an active loan: the token manager no longer counts it
/// and the NFT is thawed.  The amount due is computed apart.
pub fn handle_repay_loan(loan: &Loan, token_manager: &mut TokenManager) -> (r: Result<(), DexloanError>)
    ensures
        r is Err ==> *final(token_manager) == *old(token_manager),
        r == (if loan.state != LoanState::Active {
            Err::<(), DexloanError>(DexloanError::ConstraintRaw)
        } else {
            Ok(())
        }),
        r is Ok ==> *final(token_manager) == (TokenManager {
            accounts: AccountState { loan: false, ..old(token_manager).accounts },
            ..*old(token_manager)
        }),
{
    if loan.state != LoanState::Active {
        return Err(DexloanError::ConstraintRaw);
    }
    token_manager.accounts.loan = false;
    Ok(())
}

/// Whether an active loan is overdue at `now`.
pub open spec fn repossess_error(loan: Loan, now: i64) -> Option<DexloanError> {
    if loan.state != LoanState::Active {
        Some(DexloanError::ConstraintRaw)
    } else if loan.duration > now - loan.start_date->0 {
        Some(DexloanError::NotOverdue)
    } else {
        None
    }
}

/// The lender repossesses the NFT of an overdue loan: the loan defaults and
/// the token manager no longer counts it.
pub fn handle_repossess(loan: &mut Loan, token_manager: &mut TokenManager, unix_timestamp: i64) -> (r: Result<(), DexloanError>)
    requires
        old(loan).state == LoanState::Active && !old(token_manager).accounts.rental ==> old(loan).start_date is Some
            && i64::MIN <= unix_timestamp - old(loan).start_date->0 <= i64::MAX,
    ensures
        r is Err ==> *final(loan) == *old(loan) && *final(token_manager) == *old(token_manager),
        r == (if old(loan).state != LoanState::Active || old(token_manager).accounts.rental {
            Err::<(), DexloanError>(DexloanError::ConstraintRaw)
        } else if old(loan).duration > unix_timestamp - old(loan).start_date->0 {
            Err(DexloanError::NotOverdue)
        } else {
            Ok(())
        }),
        r is Ok ==> *final(loan) == (Loan { state: LoanState::Defaulted, ..*old(loan) })
            && *final(token_manager) == (TokenManager {
            accounts: AccountState { loan: false, ..old(token_manager).accounts },
            ..*old(token_manager)
        }),
{
    if loan.state != LoanState::Active || token_manager.accounts.rental {
        return Err(DexloanError::ConstraintRaw);
    }
    let start_date = match loan.start_date {
        Some(s) => s,
        None => 0,
    };
    let duration = unix_timestamp - start_date;
    if loan.duration > duration {
        return Err(DexloanError::NotOverdue);
    }
    loan.state = LoanState::Defaulted;
    token_manager.accounts.loan = false;
    Ok(())
}

/// The lender repossesses the NFT of an overdue loan while it is rented out:
/// the loan defaults, the token manager counts neither the loan nor the
/// rental, and the result says whether the rental's escrow must be settled
/// with a borrower.
pub fn handle_repossess_with_rental(
    loan: &mut Loan,
    rental: &Rental,
    token_manager: &mut TokenManager,
    unix_timestamp: i64,
) -> (r: Result<bool, DexloanError>)
    requires
        old(loan).state == LoanState::Active ==> old(loan).start_date is Some && i64::MIN <= unix_timestamp
            - old(loan).start_date->0 <= i64::MAX,
    ensures
        r is Err ==> *final(loan) == *old(loan) && *final(token_manager) == *old(token_manager),
        r == (match repossess_error(*old(loan), unix_timestamp) {
            Some(e) => Err::<bool, DexloanError>(e),
            None => Ok(rental.borrower is Some),
        }),
        r is Ok ==> *final(loan) == (Loan { state: LoanState::Defaulted, ..*old(loan) })
            && *final(token_manager) == (TokenManager {
            accounts: AccountState { loan: false, rental: false, ..old(token_manager).accounts },
            ..*old(token_manager)
        }),
{
    if loan.state != LoanState::Active {
        return Err(DexloanError::ConstraintRaw);
    }
    let start_date = match loan.start_date {
        Some(s) => s,
        None => 0,
    };
    let duration = unix_timestamp - start_date;
    if loan.duration > duration {
        return Err(DexloanError::NotOverdue);
    }
    loan.state = LoanState::Defaulted;
    token_manager.accounts.loan = false;
    token_manager.accounts.rental = false;
    Ok(rental.borrower.is_some())
}


/// An active loan can be repossessed only once its duration has passed
/// since its start: before that the lender is refused with `NotOverdue`.
pub proof fn law_repossess_only_when_overdue(loan: Loan, now: i64)
    requires
        loan.state == LoanState::Active,
    ensures
        now - loan.start_date->0 < loan.duration ==> repossess_error(loan, now) == Some(DexloanError::NotOverdue),
        now - loan.start_date->0 >= loan.duration ==> repossess_error(loan, now) is None,
{
}

/// A taken offer starts the loan on the offer's terms: its interest rate,
/// amount and duration, all of the amount outstanding, the lender who made
/// it and the borrower who took it.
pub proof fn law_taken_offer_keeps_terms(
    loan: Loan,
    borrower: Pubkey,
    lender: Pubkey,
    mint: Pubkey,
    offer: LoanOffer,
    loan_bump: u8,
)
    requires
        offer.amount is Some,
    ensures
        ({
            let started = loan_from_offer(loan, borrower, lender, mint, offer, loan_bump);
            &&& started.basis_points == offer.basis_points
            &&& started.amount == offer.amount
            &&& started.outstanding == offer.amount->0
            &&& started.duration == offer.duration
            &&& started.lender == Some(lender)
            &&& started.borrower == borrower
            &&& started.mint == mint
        }),
{
}

} // verus!
