//! Rental instructions: take, extend, recover, withdraw.

use vstd::prelude::*;
use crate::pubkey::Pubkey;
use crate::metadata::Metadata;
use crate::listings::error::ErrorCodes;
use crate::listings::state::rental::{Rental, RentalState};
use crate::listings::utils::{
    withdraw_from_rental_escrow, withdrawal_outcome, withdrawal_matches, EscrowWithdrawal,
    process_payment_to_rental_escrow, spec_rental_payment, SECONDS_PER_DAY, CreatorFee,
};

verus! {

/// The NFT's metadata and the creators' accounts, for paying royalties.
pub struct Royalties<'a> {
    pub mint: Pubkey,
    pub metadata: &'a Metadata,
    pub metadata_address: Pubkey,
    pub metadata_is_empty: bool,
    pub remaining_accounts: &'a [Pubkey],
}

/// The lender's withdrawal of `withdrawal` with the royalty accounts of `royalties`.
pub open spec fn royalty_withdrawal(rental: Rental, lender: Pubkey, withdrawal: u64, royalties: Royalties, now: i64) -> Result<(Rental, Seq<CreatorFee>, u64, u64), ErrorCodes> {
    withdrawal_outcome(
        rental,
        lender,
        withdrawal,
        royalties.mint,
        *royalties.metadata,
        royalties.metadata_address,
        royalties.metadata_is_empty,
        royalties.remaining_accounts@,
        now,
    )
}

/// What taking a rental moves: the lender's withdrawal of what the previous
/// rental earned, and the borrower's payment into escrow.
#[derive(Clone, Debug)]
pub struct TakeRental {
    pub withdrawal: Option<EscrowWithdrawal>,
    pub payment: Option<u64>,
}

/// The end of a rental of `days` days starting at `now`.
pub open spec fn rental_end(now: i64, days: u16) -> int {
    now + days as int * SECONDS_PER_DAY
}

/// The rental once the earnings of a previous rental are withdrawn (when the
/// escrow holds any), with the withdrawal.
pub open spec fn take_rental_withdrawal(
    rental: Rental,
    lender: Pubkey,
    escrow_bump: Option<u8>,
    withdrawal: u64,
    royalties: Royalties,
    now: i64,
) -> Result<(Rental, Option<(Rental, Seq<CreatorFee>, u64, u64)>), ErrorCodes> {
    let bumped = match escrow_bump {
        Some(b) => Rental { escrow_bump: b, ..rental },
        None => rental,
    };
    if bumped.escrow_balance > 0 {
        match royalty_withdrawal(bumped, lender, withdrawal, royalties, now) {
            Err(e) => Err(e),
            Ok(o) => Ok((o.0, Some(o))),
        }
    } else {
        Ok((bumped, None))
    }
}

/// The borrower takes the rental for `days` days from `now`: a pending
/// escrow balance is first withdrawn by the lender, a named borrower must be
/// the one taking it, and the rental may not run past its expiry.  When the
/// rental has a daily cost the borrower pays it into escrow.
pub open spec fn take_rental_outcome(
    rental: Rental,
    borrower: Pubkey,
    lender: Pubkey,
    days: u16,
    escrow_bump: Option<u8>,
    withdrawal: u64,
    royalties: Royalties,
    now: i64,
) -> Result<(Rental, Option<(Rental, Seq<CreatorFee>, u64, u64)>, Option<u64>), ErrorCodes> {
    match take_rental_withdrawal(rental, lender, escrow_bump, withdrawal, royalties, now) {
        Err(e) => Err(e),
        Ok((r1, w)) => if r1.borrower matches Some(b) && b != borrower {
            Err(ErrorCodes::RequireKeysEqViolated)
        } else if rental_end(now, days) > r1.expiry {
            Err(ErrorCodes::InvalidExpiry)
        } else {
            let r2 = Rental {
                borrower: Some(borrower),
                current_start: Some(now),
                current_expiry: Some(rental_end(now, days) as i64),
                state: RentalState::Rented,
                ..r1
            };
            if r2.amount > 0 {
                match spec_rental_payment(r2, days) {
                    Err(e) => Err(e),
                    Ok(total) => Ok(
                        (
                            Rental {
                                escrow_balance: (r2.escrow_balance + days as int * r2.amount as int) as u64,
                                ..r2
                            },
                            w,
                            Some(total),
                        ),
                    ),
                }
            } else {
                Ok((r2, w, None))
            }
        },
    }
}

pub fn handle_take_rental(
    rental: &mut Rental,
    borrower: Pubkey,
    lender: Pubkey,
    days: u16,
    escrow_bump: Option<u8>,
    withdrawal: u64,
    royalties: Royalties,
    unix_timestamp: i64,
) -> (r: Result<TakeRental, ErrorCodes>)
    requires
        old(rental).escrow_balance > 0 && take_rental_withdrawal(
            *old(rental),
            lender,
            escrow_bump,
            withdrawal,
            royalties,
            unix_timestamp,
        ) is Ok ==> withdrawal <= old(rental).escrow_balance,
        take_rental_withdrawal(*old(rental), lender, escrow_bump, withdrawal, royalties, unix_timestamp) is Ok
            && !(old(rental).borrower matches Some(b) && b != borrower) ==> rental_end(unix_timestamp, days)
            <= i64::MAX,
        take_rental_withdrawal(*old(rental), lender, escrow_bump, withdrawal, royalties, unix_timestamp) is Ok
            && spec_rental_payment(*old(rental), days) is Ok ==> take_rental_withdrawal(
            *old(rental),
            lender,
            escrow_bump,
            withdrawal,
            royalties,
            unix_timestamp,
        )->Ok_0.0.escrow_balance + days as int * old(rental).amount as int <= u64::MAX,
    ensures
        match take_rental_outcome(*old(rental), borrower, lender, days, escrow_bump, withdrawal, royalties, unix_timestamp) {
            Err(e) => r matches Err(e2) && e2 == e && *final(rental) == *old(rental),
            Ok((next, w, payment)) => r matches Ok(t) && *final(rental) == next && t.payment == payment && match w {
                None => t.withdrawal is None,
                Some(o) => t.withdrawal matches Some(tw) && withdrawal_matches(tw, o),
            },
        },
{
    let mut next = *rental;
    if let Some(b) = escrow_bump {
        next.escrow_bump = b;
    }
    let mut withdrawn: Option<EscrowWithdrawal> = None;
    if next.escrow_balance > 0 {
        match withdraw_from_rental_escrow(
            &mut next,
            lender,
            withdrawal,
            &royalties.mint,
            royalties.metadata,
            &royalties.metadata_address,
            royalties.metadata_is_empty,
            royalties.remaining_accounts,
            unix_timestamp,
        ) {
            Ok(w) => {
                withdrawn = Some(w);
            },
            Err(e) => {
                return Err(e);
            },
        }
    }
    match next.borrower {
        Some(b) => {
            if b != borrower {
                return Err(ErrorCodes::RequireKeysEqViolated);
            }
        },
        None => {
            next.borrower = Some(borrower);
        },
    }
    let duration: i64 = (days as i64) * SECONDS_PER_DAY;
    let current_expiry = unix_timestamp + duration;
    if current_expiry > next.expiry {
        return Err(ErrorCodes::InvalidExpiry);
    }
    next.current_start = Some(unix_timestamp);
    next.current_expiry = Some(current_expiry);
    next.state = RentalState::Rented;
    let mut payment: Option<u64> = None;
    if next.amount > 0 {
        match process_payment_to_rental_escrow(&mut next, days) {
            Ok(total) => {
                payment = Some(total);
            },
            Err(e) => {
                return Err(e);
            },
        }
    }
    *rental = next;
    Ok(TakeRental { withdrawal: withdrawn, payment })
}

/// Extends a running rental by `days` days, paid into escrow; the rental must
/// be rented by `borrower`, have a current period, and may not run past its
/// expiry.  The result is what the borrower transfers to the escrow.
pub fn handle_extend_rental(rental: &mut Rental, borrower: Pubkey, days: u16) -> (r: Result<u64, ErrorCodes>)
    requires
        old(rental).current_expiry matches Some(e) ==> e + days as int * SECONDS_PER_DAY <= i64::MAX,
        spec_rental_payment(*old(rental), days) is Ok ==> old(rental).escrow_balance + days as int
            * old(rental).amount as int <= u64::MAX,
    ensures
        r is Err ==> *final(rental) == *old(rental),
        r == (if old(rental).state != RentalState::Rented || old(rental).borrower != Some(borrower) {
            Err::<u64, ErrorCodes>(ErrorCodes::ConstraintRaw)
        } else if old(rental).current_start is None || old(rental).current_expiry is None {
            Err(ErrorCodes::InvalidState)
        } else if old(rental).current_expiry->0 + days as int * SECONDS_PER_DAY > old(rental).expiry {
            Err(ErrorCodes::InvalidExpiry)
        } else {
            spec_rental_payment(*old(rental), days)
        }),
        r is Ok ==> *final(rental) == (Rental {
            current_expiry: Some((old(rental).current_expiry->0 + days as int * SECONDS_PER_DAY) as i64),
            escrow_balance: (old(rental).escrow_balance + days as int * old(rental).amount as int) as u64,
            ..*old(rental)
        }),
{
    if rental.state != RentalState::Rented || rental.borrower != Some(borrower) {
        return Err(ErrorCodes::ConstraintRaw);
    }
    let current_expiry = match rental.current_expiry {
        Some(e) => e,
        None => {
            return Err(ErrorCodes::InvalidState);
        },
    };
    if rental.current_start.is_none() {
        return Err(ErrorCodes::InvalidState);
    }
    let duration: i64 = (days as i64) * SECONDS_PER_DAY;
    let new_current_expiry = current_expiry + duration;
    if new_current_expiry > rental.expiry {
        return Err(ErrorCodes::InvalidExpiry);
    }
    let mut next = *rental;
    next.current_expiry = Some(new_current_expiry);
    let total = match process_payment_to_rental_escrow(&mut next, days) {
        Ok(t) => t,
        Err(e) => {
            return Err(e);
        },
    };
    *rental = next;
    Ok(total)
}

/// The lender recovers the NFT once the current rental period has ended:
/// what the escrow earned is withdrawn and the rental is listed again with no
/// borrower and no current period.
pub fn handle_recover_rental(
    rental: &mut Rental,
    borrower: Pubkey,
    lender: Pubkey,
    withdrawal: u64,
    royalties: Royalties,
    unix_timestamp: i64,
) -> (r: Result<Option<EscrowWithdrawal>, ErrorCodes>)
    requires
        old(rental).escrow_balance > 0 && royalty_withdrawal(*old(rental), lender, withdrawal, royalties, unix_timestamp)
            is Ok ==> withdrawal <= old(rental).escrow_balance,
    ensures
        r is Err ==> *final(rental) == *old(rental),
        old(rental).state != RentalState::Rented || old(rental).borrower != Some(borrower) ==> r
            == Err::<Option<EscrowWithdrawal>, ErrorCodes>(ErrorCodes::ConstraintRaw),
        old(rental).state == RentalState::Rented && old(rental).borrower == Some(borrower) ==> {
            if old(rental).current_start is None || old(rental).current_expiry is None {
                r == Err::<Option<EscrowWithdrawal>, ErrorCodes>(ErrorCodes::InvalidState)
            } else if old(rental).current_expiry->0 > unix_timestamp {
                r == Err::<Option<EscrowWithdrawal>, ErrorCodes>(ErrorCodes::NotExpired)
            } else if old(rental).escrow_balance > 0 {
                match royalty_withdrawal(*old(rental), lender, withdrawal, royalties, unix_timestamp) {
                    Err(e) => r matches Err(e2) && e2 == e,
                    Ok(o) => r matches Ok(Some(w)) && withdrawal_matches(w, o) && *final(rental) == (Rental {
                        current_start: None,
                        current_expiry: None,
                        borrower: None,
                        state: RentalState::Listed,
                        ..o.0
                    }),
                }
            } else {
                r matches Ok(None) && *final(rental) == (Rental {
                    current_start: None,
                    current_expiry: None,
                    borrower: None,
                    state: RentalState::Listed,
                    ..*old(rental)
                })
            }
        },
{
    if rental.state != RentalState::Rented || rental.borrower != Some(borrower) {
        return Err(ErrorCodes::ConstraintRaw);
    }
    if rental.current_start.is_none() {
        return Err(ErrorCodes::InvalidState);
    }
    let current_expiry = match rental.current_expiry {
        Some(e) => e,
        None => {
            return Err(ErrorCodes::InvalidState);
        },
    };
    if current_expiry > unix_timestamp {
        return Err(ErrorCodes::NotExpired);
    }
    let mut next = *rental;
    let mut withdrawn: Option<EscrowWithdrawal> = None;
    if next.escrow_balance > 0 {
        match withdraw_from_rental_escrow(
            &mut next,
            lender,
            withdrawal,
            &royalties.mint,
            royalties.metadata,
            &royalties.metadata_address,
            royalties.metadata_is_empty,
            royalties.remaining_accounts,
            unix_timestamp,
        ) {
            Ok(w) => {
                withdrawn = Some(w);
            },
            Err(e) => {
                return Err(e);
            },
        }
    }
    next.current_start = None;
    next.current_expiry = None;
    next.borrower = None;
    next.state = RentalState::Listed;
    *rental = next;
    Ok(withdrawn)
}

/// The lender withdraws what the escrow has earned so far.
pub fn handle_withdraw_from_rental_escrow(
    rental: &mut Rental,
    lender: Pubkey,
    withdrawal: u64,
    royalties: Royalties,
    unix_timestamp: i64,
) -> (r: Result<EscrowWithdrawal, ErrorCodes>)
    requires
        royalty_withdrawal(*old(rental), lender, withdrawal, royalties, unix_timestamp) is Ok ==> withdrawal
            <= old(rental).escrow_balance,
    ensures
        match royalty_withdrawal(*old(rental), lender, withdrawal, royalties, unix_timestamp) {
            Err(e) => r matches Err(e2) && e2 == e && *final(rental) == *old(rental),
            Ok(o) => r matches Ok(w) && withdrawal_matches(w, o) && *final(rental) == o.0,
        },
{
    withdraw_from_rental_escrow(
        rental,
        lender,
        withdrawal,
        &royalties.mint,
        royalties.metadata,
        &royalties.metadata_address,
        royalties.metadata_is_empty,
        royalties.remaining_accounts,
        unix_timestamp,
    )
}


/// A taken rental runs from the moment it is taken for exactly `days`
/// days: it is rented by the borrower, its current period starts at `now`
/// and ends `days * 86_400` seconds later, after its start when `days > 0`,
/// and never past the rental's expiry.
pub proof fn law_taken_rental_runs_from_now(
    rental: Rental,
    borrower: Pubkey,
    lender: Pubkey,
    days: u16,
    escrow_bump: Option<u8>,
    withdrawal: u64,
    royalties: Royalties,
    now: i64,
)
    requires
        take_rental_outcome(rental, borrower, lender, days, escrow_bump, withdrawal, royalties, now) is Ok,
    ensures
        ({
            let next = take_rental_outcome(rental, borrower, lender, days, escrow_bump, withdrawal, royalties, now)->Ok_0.0;
            &&& next.state == RentalState::Rented
            &&& next.borrower == Some(borrower)
            &&& next.current_start == Some(now)
            &&& next.current_expiry is Some
            &&& next.current_expiry->0 == now + days * 86_400
            &&& days > 0 ==> next.current_expiry->0 > now
            &&& next.current_expiry->0 <= rental.expiry
        }),
{
}

} // verus!
