//! Loan instructions: ask, take an offer, repay, repossess.

use vstd::prelude::*;
use crate::pubkey::Pubkey;
use crate::metadata::Metadata;
use crate::listings::error::ErrorCodes;
use crate::listings::state::collection::Collection;
use crate::listings::state::loan::{Loan, LoanOffer, LoanState};
use crate::listings::state::token_manager::{AccountState, TokenManager};
use crate::listings::utils::{
    assert_collection_valid, spec_collection_valid, calculate_loan_repayment_fee,
    spec_loan_repayment_fee, get_creator_fees, spec_creator_fees, creator_fees_matches, CreatorFee, bp_fee,
};

verus! {

/// The NFT being listed, and where its collection's account should be.
pub struct ListedNft<'a> {
    pub mint: Pubkey,
    pub metadata: &'a Metadata,
    pub collection: Collection,
    pub collection_address: Pubkey,
    pub program_id: Pubkey,
}

impl<'a> ListedNft<'a> {
    pub open spec fn collection_check(self) -> Result<(), ErrorCodes> {
        spec_collection_valid(*self.metadata, self.mint, self.collection_address, self.program_id)
    }
}

/// The first reason a borrower may not ask for a loan against the NFT: the
/// token manager answers to someone else, loans are off for the collection,
/// the NFT is not a verified member, a call option holds the NFT, or the
/// deposit account is delegated to another account.
pub open spec fn ask_loan_error(
    token_manager: TokenManager,
    borrower: Pubkey,
    nft: ListedNft,
    token_manager_address: Pubkey,
    deposit_delegate: Option<Pubkey>,
) -> Option<ErrorCodes> {
    if !(token_manager.authority == Some(borrower) || token_manager.authority is None) {
        Some(ErrorCodes::Unauthorized)
    } else if !nft.collection.config.loan_enabled {
        Some(ErrorCodes::ConstraintRaw)
    } else if nft.collection_check() is Err {
        Some(nft.collection_check()->Err_0)
    } else if token_manager.accounts.call_option {
        Some(ErrorCodes::InvalidState)
    } else if deposit_delegate matches Some(d) && d != token_manager_address {
        Some(ErrorCodes::InvalidState)
    } else {
        None
    }
}

/// Lists the NFT as collateral for a loan of `amount` at `basis_points` a year
/// for `duration` seconds.  On success the result says whether the deposit
/// account still has to be delegated to the token manager and frozen.
pub fn handle_ask_loan(
    loan: &mut Loan,
    token_manager: &mut TokenManager,
    borrower: Pubkey,
    nft: ListedNft,
    loan_bump: u8,
    token_manager_address: Pubkey,
    token_manager_bump: u8,
    deposit_delegate: Option<Pubkey>,
    amount: u64,
    basis_points: u16,
    duration: i64,
) -> (r: Result<bool, ErrorCodes>)
    ensures
        match ask_loan_error(*old(token_manager), borrower, nft, token_manager_address, deposit_delegate) {
            Some(e) => r == Err::<bool, ErrorCodes>(e) && *final(loan) == *old(loan) && *final(token_manager)
                == *old(token_manager),
            None => r == Ok::<bool, ErrorCodes>(deposit_delegate is None) && *final(loan) == (Loan {
                mint: nft.mint,
                borrower,
                bump: loan_bump,
                amount: Some(amount),
                basis_points,
                creator_basis_points: nft.collection.config.loan_basis_points,
                outstanding: amount,
                threshold: None,
                installments: 1,
                duration,
                state: LoanState::Listed,
                ..*old(loan)
            }) && *final(token_manager) == (TokenManager {
                accounts: AccountState { loan: true, ..old(token_manager).accounts },
                authority: Some(borrower),
                bump: token_manager_bump,
            }),
        },
{
    if !(token_manager.authority == Some(borrower) || token_manager.authority.is_none()) {
        return Err(ErrorCodes::Unauthorized);
    }
    if !nft.collection.config.loan_enabled {
        return Err(ErrorCodes::ConstraintRaw);
    }
    match assert_collection_valid(nft.metadata, nft.mint, nft.collection_address, nft.program_id) {
        Ok(()) => {},
        Err(e) => {
            return Err(e);
        },
    }
    if token_manager.accounts.call_option {
        return Err(ErrorCodes::InvalidState);
    }
    let needs_freeze = match deposit_delegate {
        Some(d) => {
            if d != token_manager_address {
                return Err(ErrorCodes::InvalidState);
            }
            false
        },
        None => true,
    };
    loan.mint = nft.mint;
    loan.borrower = borrower;
    loan.bump = loan_bump;
    let _ = Loan::init_ask_state(loan, amount, nft.collection.config.loan_basis_points, basis_points, duration);
    token_manager.accounts.loan = true;
    token_manager.authority = Some(borrower);
    token_manager.bump = token_manager_bump;
    Ok(needs_freeze)
}

/// The first reason a borrower may not take a lender's offer against the NFT:
/// the NFT is not a verified member of the offer's collection, a call option
/// holds it, or the new loan cannot start (see `Loan::can_activate`).
pub open spec fn take_loan_offer_error(
    token_manager: TokenManager,
    nft: ListedNft,
    started: Loan,
) -> Option<ErrorCodes> {
    if nft.collection_check() is Err {
        Some(nft.collection_check()->Err_0)
    } else if token_manager.accounts.call_option {
        Some(ErrorCodes::InvalidState)
    } else if !started.can_activate() {
        Some(ErrorCodes::InvalidState)
    } else {
        None
    }
}

/// The loan a taken offer starts from: the offer's terms, listed.
pub open spec fn loan_from_offer(loan: Loan, borrower: Pubkey, lender: Pubkey, nft: ListedNft, offer: LoanOffer, loan_bump: u8) -> Loan {
    Loan {
        mint: nft.mint,
        borrower,
        lender: Some(lender),
        bump: loan_bump,
        amount: offer.amount,
        basis_points: offer.basis_points,
        creator_basis_points: nft.collection.config.loan_basis_points,
        outstanding: offer.amount->0,
        threshold: None,
        installments: 1,
        duration: offer.duration,
        state: LoanState::Listed,
        ..loan
    }
}

/// Takes a lender's standing offer, which must be `lender`'s (its address is
/// derived from the lender's): the loan starts at `unix_timestamp` on the
/// offer's terms, the NFT is frozen under the token manager, and the result
/// is the amount the offer's escrow pays the borrower.
pub fn handle_take_loan_offer(
    loan: &mut Loan,
    token_manager: &mut TokenManager,
    offer: &LoanOffer,
    borrower: Pubkey,
    lender: Pubkey,
    nft: ListedNft,
    loan_bump: u8,
    token_manager_bump: u8,
    unix_timestamp: i64,
) -> (r: Result<u64, ErrorCodes>)
    requires
        offer.amount is Some,
    ensures
        offer.lender != lender ==> r == Err::<u64, ErrorCodes>(ErrorCodes::ConstraintSeeds) && *final(loan)
            == *old(loan) && *final(token_manager) == *old(token_manager),
        offer.lender == lender ==> ({
            let started = loan_from_offer(*old(loan), borrower, lender, nft, *offer, loan_bump);
            match take_loan_offer_error(*old(token_manager), nft, started) {
                Some(e) => r == Err::<u64, ErrorCodes>(e) && *final(loan) == *old(loan) && *final(token_manager)
                    == *old(token_manager),
                None => r == Ok::<u64, ErrorCodes>(offer.amount->0) && *final(loan) == (Loan {
                    state: LoanState::Active,
                    start_date: Some(unix_timestamp),
                    ..started
                }) && *final(token_manager) == (TokenManager {
                    accounts: AccountState { loan: true, ..old(token_manager).accounts },
                    authority: Some(borrower),
                    bump: token_manager_bump,
                }),
            }
        }),
{
    if offer.lender != lender {
        return Err(ErrorCodes::ConstraintSeeds);
    }
    match assert_collection_valid(nft.metadata, nft.mint, nft.collection_address, nft.program_id) {
        Ok(()) => {},
        Err(e) => {
            return Err(e);
        },
    }
    if token_manager.accounts.call_option {
        return Err(ErrorCodes::InvalidState);
    }
    let amount = match offer.amount {
        Some(a) => a,
        None => 0,
    };
    let mut next = *loan;
    next.mint = nft.mint;
    next.borrower = borrower;
    next.lender = Some(lender);
    next.bump = loan_bump;
    let _ = Loan::init_ask_state(
        &mut next,
        amount,
        nft.collection.config.loan_basis_points,
        offer.basis_points,
        offer.duration,
    );
    match Loan::set_active(&mut next, unix_timestamp) {
        Ok(()) => {},
        Err(e) => {
            return Err(e);
        },
    }
    *loan = next;
    token_manager.authority = Some(borrower);
    token_manager.accounts.loan = true;
    token_manager.bump = token_manager_bump;
    Ok(amount)
}

/// What a repayment moves: the borrower's payment to the lender (principal
/// plus interest) and the creators' royalties on the loan.
#[derive(Clone, Debug)]
pub struct Repayment {
    pub amount_due: u64,
    pub creator_fees: Vec<CreatorFee>,
}

/// The part of the principal a repayment of `amount` pays off.
pub open spec fn repaid_principal(loan: Loan, amount: u64) -> u64 {
    if amount <= loan.outstanding {
        amount
    } else {
        loan.outstanding
    }
}

/// Whether a loan that started at `start` for `duration` seconds is overdue at
/// `now`, if its end is a 64-bit time.
pub open spec fn loan_is_overdue(start: i64, duration: i64, now: i64) -> Option<bool> {
    if start + duration < i64::MIN || start + duration > i64::MAX {
        None
    } else {
        Some(now > start + duration)
    }
}

/// The borrower's payment for repaying `amount` of an active loan at `now`:
/// the principal repaid plus interest (and late fee) on it, or the error the
/// computation meets.
pub open spec fn repayment_due(loan: Loan, amount: u64, now: i64) -> Result<u64, ErrorCodes> {
    let start = loan.start_date->0;
    let payment = repaid_principal(loan, amount);
    if now - start < i64::MIN || now - start > i64::MAX {
        Err(ErrorCodes::NumericalOverflow)
    } else {
        match loan_is_overdue(start, loan.duration, now) {
            None => Err(ErrorCodes::NumericalOverflow),
            Some(overdue) => match spec_loan_repayment_fee(payment, loan.basis_points, (now - start) as i64, overdue) {
                Err(e) => Err(e),
                Ok(interest) => if payment + interest > u64::MAX {
                    Err(ErrorCodes::NumericalOverflow)
                } else {
                    Ok((payment + interest) as u64)
                },
            },
        }
    }
}

/// The creators' cut of a repayment at `now`: their fee rate applied as
/// yearly interest on the whole loan, paid out in full to the creators.
pub open spec fn repayment_creator_fee(loan: Loan, now: i64) -> Result<u64, ErrorCodes> {
    spec_loan_repayment_fee(
        loan.amount->0,
        loan.creator_basis_points,
        (now - loan.start_date->0) as i64,
        false,
    )
}

/// Repays `amount` (at most what is outstanding) of an active loan at
/// `unix_timestamp`: the borrower pays the principal with interest to the
/// lender and the creators their fee; the outstanding amount drops by the
/// principal paid, and a loan with nothing outstanding is repaid.
#[verifier::loop_isolation(false)]
pub fn handle_repay_loan(
    loan: &mut Loan,
    amount: u64,
    unix_timestamp: i64,
    mint: &Pubkey,
    metadata: &Metadata,
    metadata_address: &Pubkey,
    metadata_is_empty: bool,
    remaining_accounts: &[Pubkey],
) -> (r: Result<Repayment, ErrorCodes>)
    requires
        old(loan).state == LoanState::Active ==> old(loan).start_date is Some && old(loan).amount is Some,
    ensures
        r is Err ==> *final(loan) == *old(loan),
        old(loan).state != LoanState::Active ==> r == Err::<Repayment, ErrorCodes>(ErrorCodes::ConstraintRaw),
        old(loan).state == LoanState::Active ==> match repayment_due(*old(loan), amount, unix_timestamp) {
            Err(e) => r matches Err(e2) && e2 == e,
            Ok(due) => match repayment_creator_fee(*old(loan), unix_timestamp) {
                Err(e) => r matches Err(e2) && e2 == e,
                Ok(creator_fee) => match spec_creator_fees(
                    creator_fee,
                    10000,
                    *mint,
                    *metadata,
                    *metadata_address,
                    metadata_is_empty,
                    remaining_accounts@,
                ) {
                    Err(e) => r matches Err(e2) && e2 == e,
                    Ok((fees, _)) => {
                        let outstanding = (old(loan).outstanding - repaid_principal(*old(loan), amount)) as u64;
                        &&& r matches Ok(p) && p.amount_due == due && p.creator_fees@ == fees
                        &&& *final(loan) == (Loan {
                            outstanding,
                            state: if outstanding == 0 {
                                LoanState::Repaid
                            } else {
                                LoanState::Active
                            },
                            ..*old(loan)
                        })
                    },
                },
            },
        },
{
    if loan.state != LoanState::Active {
        return Err(ErrorCodes::ConstraintRaw);
    }
    let start_date = match loan.start_date {
        Some(s) => s,
        None => 0,
    };
    let principal = match loan.amount {
        Some(a) => a,
        None => 0,
    };
    let payment = if amount <= loan.outstanding {
        amount
    } else {
        loan.outstanding
    };
    let duration = match unix_timestamp.checked_sub(start_date) {
        Some(d) => d,
        None => {
            return Err(ErrorCodes::NumericalOverflow);
        },
    };
    let expiry = match start_date.checked_add(loan.duration) {
        Some(e) => e,
        None => {
            return Err(ErrorCodes::NumericalOverflow);
        },
    };
    let is_overdue = unix_timestamp > expiry;
    let interest_due = match calculate_loan_repayment_fee(payment, loan.basis_points, duration, is_overdue) {
        Ok(i) => i,
        Err(e) => {
            return Err(e);
        },
    };
    let amount_due = match payment.checked_add(interest_due) {
        Some(a) => a,
        None => {
            return Err(ErrorCodes::NumericalOverflow);
        },
    };
    let creator_fee = match calculate_loan_repayment_fee(principal, loan.creator_basis_points, duration, false) {
        Ok(f) => f,
        Err(e) => {
            return Err(e);
        },
    };
    let fees = match get_creator_fees(
        creator_fee,
        10000,
        mint,
        metadata,
        metadata_address,
        metadata_is_empty,
        remaining_accounts,
    ) {
        Ok((fees, _)) => fees,
        Err(e) => {
            return Err(e);
        },
    };
    loan.outstanding = loan.outstanding - payment;
    if loan.outstanding == 0 {
        loan.state = LoanState::Repaid;
    }
    Ok(Repayment { amount_due, creator_fees: fees })
}

/// Repossesses the NFT of an overdue active loan: the loan must be the
/// borrower's and record `lender` as its lender.  The loan defaults, the
/// token manager passes control of the NFT to the lender and no longer
/// counts the loan.
pub fn handle_repossess(
    loan: &mut Loan,
    token_manager: &mut TokenManager,
    borrower: Pubkey,
    lender: Pubkey,
    unix_timestamp: i64,
) -> (r: Result<(), ErrorCodes>)
    requires
        old(loan).borrower == borrower ==> old(loan).lender is Some,
        old(loan).borrower == borrower && old(loan).lender == Some(lender) && old(loan).state == LoanState::Active
            && !old(token_manager).accounts.rental && old(token_manager).authority == Some(borrower)
            ==> old(loan).start_date is Some && i64::MIN <= unix_timestamp - old(loan).start_date->0 <= i64::MAX,
    ensures
        r is Err ==> *final(loan) == *old(loan) && *final(token_manager) == *old(token_manager),
        r == (if old(loan).borrower != borrower {
            Err::<(), ErrorCodes>(ErrorCodes::ConstraintHasOne)
        } else if old(loan).lender != Some(lender) || old(loan).state != LoanState::Active {
            Err(ErrorCodes::ConstraintRaw)
        } else if old(token_manager).accounts.rental {
            Err(ErrorCodes::ConstraintRaw)
        } else if old(token_manager).authority != Some(borrower) {
            Err(ErrorCodes::Unauthorized)
        } else if old(loan).duration > unix_timestamp - old(loan).start_date->0 {
            Err(ErrorCodes::NotOverdue)
        } else {
            Ok(())
        }),
        r is Ok ==> *final(loan) == (Loan { state: LoanState::Defaulted, ..*old(loan) })
            && *final(token_manager) == (TokenManager {
                accounts: AccountState { loan: false, ..old(token_manager).accounts },
                authority: Some(lender),
                ..*old(token_manager)
            }),
{
    if loan.borrower != borrower {
        return Err(ErrorCodes::ConstraintHasOne);
    }
    if loan.lender != Some(lender) || loan.state != LoanState::Active {
        return Err(ErrorCodes::ConstraintRaw);
    }
    if token_manager.accounts.rental {
        return Err(ErrorCodes::ConstraintRaw);
    }
    if token_manager.authority != Some(borrower) {
        return Err(ErrorCodes::Unauthorized);
    }
    let start_date = match loan.start_date {
        Some(s) => s,
        None => 0,
    };
    let duration = unix_timestamp - start_date;
    if loan.duration > duration {
        return Err(ErrorCodes::NotOverdue);
    }
    token_manager.authority = Some(lender);
    loan.state = LoanState::Defaulted;
    token_manager.accounts.loan = false;
    Ok(())
}


/// A repayment owes the principal paid (the amount, at most what is
/// outstanding) and interest on it: the yearly fee at the loan's rate,
/// pro rata for the seconds since the start of a 365-day year, rounded down.
/// A late fee of 5 percent of the principal paid is owed only when the
/// repayment comes after the loan's end, its start plus its duration.
pub proof fn law_repayment_late_fee_only_after_end(loan: Loan, amount: u64, now: i64)
    requires
        loan.start_date is Some,
        loan.start_date->0 <= now,
        now - loan.start_date->0 <= i64::MAX,
        i64::MIN <= loan.start_date->0 + loan.duration <= i64::MAX,
        ({
            let payment: int = if amount <= loan.outstanding { amount as int } else { loan.outstanding as int };
            let annual: int = ((loan.basis_points * payment) / 10_000) as u64 as int;
            let interest: int = (annual * (now - loan.start_date->0)) / 31_536_000;
            &&& annual * (now - loan.start_date->0) <= u64::MAX
            &&& payment + interest + (500 * payment) / 10_000 <= u64::MAX
        }),
    ensures
        ({
            let start = loan.start_date->0;
            let payment: int = if amount <= loan.outstanding { amount as int } else { loan.outstanding as int };
            let annual: int = ((loan.basis_points * payment) / 10_000) as u64 as int;
            let interest: int = (annual * (now - start)) / 31_536_000;
            &&& now <= start + loan.duration ==> repayment_due(loan, amount, now) == Ok::<u64, ErrorCodes>(
                (payment + interest) as u64,
            )
            &&& now > start + loan.duration ==> repayment_due(loan, amount, now) == Ok::<u64, ErrorCodes>(
                (payment + interest + (500 * payment) / 10_000) as u64,
            )
        }),
{
    let start = loan.start_date->0;
    let payment: int = if amount <= loan.outstanding { amount as int } else { loan.outstanding as int };
    assert(0 <= (500 * payment) / 10_000) by (nonlinear_arith)
        requires
            0 <= payment,
    ;
    let annual: int = ((loan.basis_points * payment) / 10_000) as u64 as int;
    assert(0 <= annual * (now - start)) by (nonlinear_arith)
        requires
            0 <= annual,
            0 <= now - start,
    ;
    assert(((500 * payment) / 10_000) as u64 as int == (500 * payment) / 10_000);
    let d: i64 = (now - start) as i64;
    assert(d as u64 as int == now - start);
    assert(repaid_principal(loan, amount) as int == payment);
    assert(bp_fee(repaid_principal(loan, amount), loan.basis_points) as int == annual);
}

/// A taken offer starts the loan on the offer's terms: its interest rate,
/// amount and duration, all of the amount outstanding, and the lender who
/// made it; the creators' fee is the collection's loan fee.
pub proof fn law_taken_offer_keeps_terms(
    loan: Loan,
    borrower: Pubkey,
    lender: Pubkey,
    nft: ListedNft,
    offer: LoanOffer,
    loan_bump: u8,
)
    requires
        offer.amount is Some,
    ensures
        ({
            let started = loan_from_offer(loan, borrower, lender, nft, offer, loan_bump);
            &&& started.basis_points == offer.basis_points
            &&& started.creator_basis_points == nft.collection.config.loan_basis_points
            &&& started.amount == offer.amount
            &&& started.outstanding == offer.amount->0
            &&& started.duration == offer.duration
            &&& started.lender == Some(lender)
            &&& started.borrower == borrower
            &&& started.mint == nft.mint
        }),
{
}


/// A repayment pays off the amount given, but never more than is
/// outstanding.
pub proof fn law_repaid_principal_is_capped(loan: Loan, amount: u64)
    ensures
        repaid_principal(loan, amount) <= loan.outstanding,
        repaid_principal(loan, amount) <= amount,
        repaid_principal(loan, amount) == amount || repaid_principal(loan, amount) == loan.outstanding,
{
}

/// The creators' cut of a repayment is their rate, as yearly interest on
/// the whole loan amount, pro rata for the seconds since the start of a
/// 365-day year, rounded down; it carries no late fee.
pub proof fn law_creator_cut_is_interest_on_loan(loan: Loan, now: i64)
    requires
        loan.amount is Some,
        loan.start_date is Some,
        loan.start_date->0 <= now,
        now - loan.start_date->0 <= i64::MAX,
        ((loan.creator_basis_points * loan.amount->0) / 10_000) as u64 as int * (now - loan.start_date->0)
            <= u64::MAX,
    ensures
        repayment_creator_fee(loan, now) == Ok::<u64, ErrorCodes>(
            ((((loan.creator_basis_points * loan.amount->0) / 10_000) as u64 as int * (now - loan.start_date->0))
                / 31_536_000) as u64,
        ),
{
    let annual: int = ((loan.creator_basis_points * loan.amount->0) / 10_000) as u64 as int;
    assert(0 <= annual * (now - loan.start_date->0)) by (nonlinear_arith)
        requires
            0 <= annual,
            0 <= now - loan.start_date->0,
    ;
    let d: i64 = (now - loan.start_date->0) as i64;
    assert(d as u64 as int == now - loan.start_date->0);
    assert(bp_fee(loan.amount->0, loan.creator_basis_points) as int == annual);
}

} // verus!
