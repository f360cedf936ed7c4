//! The first loan instructions.

use vstd::prelude::*;
use crate::pubkey::Pubkey;
use crate::dexloan::error::ErrorCode;
use crate::dexloan::state::loan::{Loan, LoanState};

verus! {

/// The borrower lists the NFT as collateral for `amount` at `basis_points` a
/// year for `duration` seconds.
pub fn init(
    loan: &mut Loan,
    borrower: Pubkey,
    mint: Pubkey,
    loan_bump: u8,
    amount: u64,
    basis_points: u32,
    duration: i64,
)
    ensures
        *final(loan) == (Loan {
            mint,
            bump: loan_bump,
            amount: Some(amount),
            basis_points,
            duration,
            state: LoanState::Listed,
            borrower,
            ..*old(loan)
        }),
{
    loan.mint = mint;
    loan.bump = loan_bump;
    loan.amount = Some(amount);
    loan.basis_points = basis_points;
    loan.duration = duration;
    loan.state = LoanState::Listed;
    loan.borrower = borrower;
}

/// The lender funds the loan at `unix_timestamp`; the result is the amount
/// lent to the borrower.
pub fn lend(loan: &mut Loan, lender: Pubkey, unix_timestamp: i64) -> (r: u64)
    requires
        old(loan).amount is Some,
    ensures
        r == old(loan).amount->0,
        *final(loan) == (Loan {
            state: LoanState::Active,
            lender: Some(lender),
            start_date: Some(unix_timestamp),
            ..*old(loan)
        }),
{
    loan.state = LoanState::Active;
    loan.lender = Some(lender);
    loan.start_date = Some(unix_timestamp);
    match loan.amount {
        Some(a) => a,
        None => 0,
    }
}

/// The lender repossesses the NFT once the loan's duration has passed; the
/// loan defaults.  Times are compared as unsigned seconds.
pub fn repossess(loan: &mut Loan, unix_timestamp: i64) -> (r: Result<(), ErrorCode>)
    requires
        old(loan).start_date is Some,
        (old(loan).start_date->0 as u64) <= (unix_timestamp as u64),
    ensures
        r == (if old(loan).duration > (unix_timestamp as u64) - (old(loan).start_date->0 as u64) {
            Err::<(), ErrorCode>(ErrorCode::NotOverdue)
        } else {
            Ok(())
        }),
        r is Err ==> *final(loan) == *old(loan),
        r is Ok ==> *final(loan) == (Loan { state: LoanState::Defaulted, ..*old(loan) }),
{
    let now = unix_timestamp as u64;
    let start = match loan.start_date {
        Some(s) => s as u64,
        None => 0,
    };
    let elapsed = now - start;
    if (loan.duration as i128) > (elapsed as i128) {
        return Err(ErrorCode::NotOverdue);
    }
    loan.state = LoanState::Defaulted;
    Ok(())
}

} // verus!
