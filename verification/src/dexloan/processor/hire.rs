//! Hire instructions: list, take, extend, recover, close.

use vstd::prelude::*;
use crate::pubkey::Pubkey;
use crate::metadata::Metadata;
use crate::dexloan::error::DexloanError;
use crate::dexloan::state::hire::{Hire, HireState};
use crate::dexloan::state::token_manager::{AccountState, TokenManager};
use crate::dexloan::utils::{
    pay_creator_fees, spec_pay_creator_fees, withdraw_from_escrow_balance, hire_pro_rata,
    hire_withdrawal_defined,
};
use crate::listings::utils::{CreatorFee, SECONDS_PER_DAY};

verus! {

/// The terms of a hire listing.
#[derive(Clone, Copy, PartialEq, Eq, Structural, Debug)]
pub struct HireArgs {
    pub amount: u64,
    pub expiry: i64,
    pub borrower: Option<Pubkey>,
}

/// The lender lists the NFT for hire at `args.amount` a day until
/// `args.expiry`; a free hire must name its borrower.
pub fn handle_init_hire(
    hire: &mut Hire,
    token_manager: &mut TokenManager,
    lender: Pubkey,
    mint: Pubkey,
    hire_bump: u8,
    args: HireArgs,
    unix_timestamp: i64,
) -> (r: Result<(), DexloanError>)
    ensures
        r is Err ==> *final(hire) == *old(hire) && *final(token_manager) == *old(token_manager),
        r == (if unix_timestamp > args.expiry {
            Err::<(), DexloanError>(DexloanError::InvalidExpiry)
        } else if args.amount == 0 && args.borrower is None {
            Err(DexloanError::BorrowerNotSpecified)
        } else {
            Ok(())
        }),
        r is Ok ==> *final(hire) == (Hire {
            lender,
            mint,
            bump: hire_bump,
            amount: args.amount,
            expiry: args.expiry,
            state: HireState::Listed,
            borrower: if args.borrower is Some {
                args.borrower
            } else {
                old(hire).borrower
            },
            ..*old(hire)
        }) && *final(token_manager) == (TokenManager {
            accounts: AccountState { hire: true, ..old(token_manager).accounts },
            ..*old(token_manager)
        }),
{
    if unix_timestamp > args.expiry {
        return Err(DexloanError::InvalidExpiry);
    }
    if args.amount == 0 && args.borrower.is_none() {
        return Err(DexloanError::BorrowerNotSpecified);
    }
    hire.lender = lender;
    hire.mint = mint;
    hire.bump = hire_bump;
    hire.amount = args.amount;
    hire.expiry = args.expiry;
    hire.state = HireState::Listed;
    if args.borrower.is_some() {
        hire.borrower = args.borrower;
    }
    token_manager.accounts.hire = true;
    Ok(())
}

/// The end of a hire of `days` days from `now`.
pub open spec fn hire_end(now: i64, days: u16) -> int {
    now + days as int * SECONDS_PER_DAY
}

/// What taking a hire moves: the royalty transfers and the lender's part of
/// the fee, when the hire costs anything.
#[derive(Clone, Debug)]
pub struct HirePayment {
    pub creator_fees: Vec<CreatorFee>,
    pub lender_amount: u64,
}

/// The borrower takes the hire for `days` days from `unix_timestamp`: a named
/// borrower must be the one taking it, and the hire may not run past its
/// expiry.  A paid hire costs `days` times the daily amount, paid to the
/// creators (royalties) and the lender.
pub fn handle_take_hire(
    hire: &mut Hire,
    borrower: Pubkey,
    days: u16,
    unix_timestamp: i64,
    mint: &Pubkey,
    metadata: &Metadata,
    metadata_address: &Pubkey,
    metadata_is_empty: bool,
    remaining_accounts: &[Pubkey],
) -> (r: Result<Option<HirePayment>, DexloanError>)
    requires
        !(old(hire).borrower matches Some(b) && b != borrower) ==> hire_end(unix_timestamp, days) <= i64::MAX,
        hire_end(unix_timestamp, days) <= old(hire).expiry && old(hire).amount > 0 ==> days as int
            * old(hire).amount as int <= u64::MAX,
    ensures
        r is Err ==> *final(hire) == *old(hire),
        old(hire).borrower matches Some(b) && b != borrower ==> r == Err::<Option<HirePayment>, DexloanError>(
            DexloanError::RequireKeysEqViolated,
        ),
        !(old(hire).borrower matches Some(b) && b != borrower) ==> {
            let taken = Hire {
                state: HireState::Hired,
                borrower: Some(borrower),
                current_expiry: Some(hire_end(unix_timestamp, days) as i64),
                ..*old(hire)
            };
            if hire_end(unix_timestamp, days) > old(hire).expiry {
                r == Err::<Option<HirePayment>, DexloanError>(DexloanError::InvalidExpiry)
            } else if old(hire).amount == 0 {
                r matches Ok(None) && *final(hire) == taken
            } else {
                match spec_pay_creator_fees(
                    (days as int * old(hire).amount as int) as u64,
                    *mint,
                    *metadata,
                    *metadata_address,
                    metadata_is_empty,
                    remaining_accounts@,
                ) {
                    Err(e) => r matches Err(e2) && e2 == e,
                    Ok((fees, rest)) => r matches Ok(Some(p)) && p.creator_fees@ == fees && p.lender_amount == rest
                        && *final(hire) == taken,
                }
            }
        },
{
    let mut next = *hire;
    next.state = HireState::Hired;
    match next.borrower {
        Some(b) => {
            if b != borrower {
                return Err(DexloanError::RequireKeysEqViolated);
            }
        },
        None => {
            next.borrower = Some(borrower);
        },
    }
    let duration: i64 = (days as i64) * SECONDS_PER_DAY;
    let current_expiry = unix_timestamp + duration;
    if current_expiry > next.expiry {
        return Err(DexloanError::InvalidExpiry);
    }
    next.current_expiry = Some(current_expiry);
    let mut payment: Option<HirePayment> = None;
    if next.amount > 0 {
        let amount = (days as u64) * next.amount;
        match pay_creator_fees(remaining_accounts, amount, mint, metadata, metadata_address, metadata_is_empty) {
            Ok((creator_fees, lender_amount)) => {
                payment = Some(HirePayment { creator_fees, lender_amount });
            },
            Err(e) => {
                return Err(e);
            },
        }
    }
    *hire = next;
    Ok(payment)
}

/// What extending a hire moves: the lender's withdrawal from the escrow
/// (amount paid, balance left) when it holds anything, and the fee for the
/// extra days split between the creators and the lender.
#[derive(Clone, Debug)]
pub struct HireExtension {
    pub escrow_withdrawal: Option<(u64, u64)>,
    pub creator_fees: Vec<CreatorFee>,
    pub lender_amount: u64,
}

/// The new end of a hire extended by `days` days at `now`: counted from the
/// current end while the hire runs, from `now` once it has ended.
pub open spec fn extended_expiry(current_expiry: i64, now: i64, days: u16) -> int {
    if current_expiry > now {
        current_expiry + days as int * SECONDS_PER_DAY
    } else {
        now + days as int * SECONDS_PER_DAY
    }
}

/// The borrower extends a running hire by `days` days, paying the daily fee
/// for them (royalties to the creators, the rest to the lender); the lender
/// first takes the pro-rata part of any escrow, and the hire's current period
/// restarts at `unix_timestamp`.
pub fn handle_extend_hire(
    hire: &mut Hire,
    borrower: Pubkey,
    lender: Pubkey,
    days: u16,
    unix_timestamp: i64,
    mint: &Pubkey,
    metadata: &Metadata,
    metadata_address: &Pubkey,
    metadata_is_empty: bool,
    remaining_accounts: &[Pubkey],
) -> (r: Result<HireExtension, DexloanError>)
    requires
        old(hire).state == HireState::Hired && old(hire).borrower == Some(borrower) && old(hire).current_start
            is Some && old(hire).current_expiry is Some ==> {
            &&& (old(hire).escrow_balance > 0 && lender == old(hire).lender ==> hire_withdrawal_defined(
                *old(hire),
                unix_timestamp,
            ))
            &&& days as int * old(hire).amount as int <= u64::MAX
            &&& extended_expiry(old(hire).current_expiry->0, unix_timestamp, days) <= i64::MAX
        },
    ensures
        r is Err ==> *final(hire) == *old(hire),
        old(hire).state != HireState::Hired || old(hire).borrower != Some(borrower) ==> r == Err::<
            HireExtension,
            DexloanError,
        >(DexloanError::ConstraintRaw),
        old(hire).state == HireState::Hired && old(hire).borrower == Some(borrower) ==> {
            if old(hire).current_start is None || old(hire).current_expiry is None {
                r == Err::<HireExtension, DexloanError>(DexloanError::InvalidState)
            } else if old(hire).escrow_balance > 0 && lender != old(hire).lender {
                r == Err::<HireExtension, DexloanError>(DexloanError::RequireKeysEqViolated)
            } else {
                match spec_pay_creator_fees(
                    (days as int * old(hire).amount as int) as u64,
                    *mint,
                    *metadata,
                    *metadata_address,
                    metadata_is_empty,
                    remaining_accounts@,
                ) {
                    Err(e) => r matches Err(e2) && e2 == e,
                    Ok((fees, rest)) => r matches Ok(x) && x.creator_fees@ == fees && x.lender_amount == rest
                        && x.escrow_withdrawal == (if old(hire).escrow_balance > 0 {
                        Some(
                            (
                                (hire_pro_rata(*old(hire), unix_timestamp) as i64) as u64,
                                (old(hire).escrow_balance - (hire_pro_rata(*old(hire), unix_timestamp) as i64) as u64) as u64,
                            ),
                        )
                    } else {
                        None
                    }) && *final(hire) == (Hire {
                        current_expiry: Some(extended_expiry(old(hire).current_expiry->0, unix_timestamp, days) as i64),
                        current_start: Some(unix_timestamp),
                        ..*old(hire)
                    }),
                }
            }
        },
{
    if hire.state != HireState::Hired || hire.borrower != Some(borrower) {
        return Err(DexloanError::ConstraintRaw);
    }
    if hire.current_start.is_none() {
        return Err(DexloanError::InvalidState);
    }
    let current_expiry = match hire.current_expiry {
        Some(e) => e,
        None => {
            return Err(DexloanError::InvalidState);
        },
    };
    let mut escrow_withdrawal: Option<(u64, u64)> = None;
    if hire.escrow_balance > 0 {
        match withdraw_from_escrow_balance(hire, lender, unix_timestamp) {
            Ok(w) => {
                escrow_withdrawal = Some(w);
            },
            Err(e) => {
                return Err(e);
            },
        }
    }
    let amount = (days as u64) * hire.amount;
    let duration: i64 = (days as i64) * SECONDS_PER_DAY;
    let new_current_expiry = if current_expiry > unix_timestamp {
        current_expiry + duration
    } else {
        unix_timestamp + duration
    };
    let (creator_fees, lender_amount) = match pay_creator_fees(
        remaining_accounts,
        amount,
        mint,
        metadata,
        metadata_address,
        metadata_is_empty,
    ) {
        Ok(x) => x,
        Err(e) => {
            return Err(e);
        },
    };
    hire.current_expiry = Some(new_current_expiry);
    hire.current_start = Some(unix_timestamp);
    Ok(HireExtension { escrow_withdrawal, creator_fees, lender_amount })
}

/// The lender recovers the NFT once the hire has ended; the hire is listed
/// again without a borrower.
pub fn handle_recover_hire(hire: &mut Hire, borrower: Pubkey, unix_timestamp: i64) -> (r: Result<(), DexloanError>)
    ensures
        r is Err ==> *final(hire) == *old(hire),
        r == (if old(hire).state != HireState::Hired || old(hire).borrower != Some(borrower) {
            Err::<(), DexloanError>(DexloanError::ConstraintRaw)
        } else if old(hire).current_expiry is None {
            Err(DexloanError::NumericalOverflow)
        } else if old(hire).current_expiry->0 > unix_timestamp {
            Err(DexloanError::NotExpired)
        } else {
            Ok(())
        }),
        r is Ok ==> *final(hire) == (Hire {
            current_expiry: None,
            borrower: None,
            state: HireState::Listed,
            ..*old(hire)
        }),
{
    if hire.state != HireState::Hired || hire.borrower != Some(borrower) {
        return Err(DexloanError::ConstraintRaw);
    }
    let current_expiry = match hire.current_expiry {
        Some(e) => e,
        None => {
            return Err(DexloanError::NumericalOverflow);
        },
    };
    if current_expiry > unix_timestamp {
        return Err(DexloanError::NotExpired);
    }
    hire.current_expiry = None;
    hire.borrower = None;
    hire.state = HireState::Listed;
    Ok(())
}

/// The lender closes a hire that nobody holds; the token manager no longer
/// counts it.
pub fn handle_close_hire(hire: &Hire, token_manager: &mut TokenManager) -> (r: Result<(), DexloanError>)
    ensures
        r is Err ==> *final(token_manager) == *old(token_manager),
        r == (if hire.borrower is Some || hire.state == HireState::Hired {
            Err::<(), DexloanError>(DexloanError::ConstraintRaw)
        } else {
            Ok(())
        }),
        r is Ok ==> *final(token_manager) == (TokenManager {
            accounts: AccountState { hire: false, ..old(token_manager).accounts },
            ..*old(token_manager)
        }),
{
    if hire.borrower.is_some() || hire.state == HireState::Hired {
        return Err(DexloanError::ConstraintRaw);
    }
    token_manager.accounts.hire = false;
    Ok(())
}


/// Extending a hire loses no time already paid for: the new end is `days`
/// days after the current end while the hire runs, and `days` days after
/// `now` once it has ended, so it is never before either.
pub proof fn law_extension_counts_from_later_of_end_and_now(current_expiry: i64, now: i64, days: u16)
    ensures
        extended_expiry(current_expiry, now, days) - days * 86_400 == if current_expiry > now {
            current_expiry as int
        } else {
            now as int
        },
        extended_expiry(current_expiry, now, days) >= current_expiry + days * 86_400,
        extended_expiry(current_expiry, now, days) >= now + days * 86_400,
{
}


/// A taken hire runs from the moment it is taken for exactly `days` days,
/// ending after it starts when `days > 0`.
pub proof fn law_hire_runs_days_from_now(now: i64, days: u16)
    ensures
        hire_end(now, days) == now + days * 86_400,
        days > 0 ==> hire_end(now, days) > now,
{
}

} // verus!
