//! Fee arithmetic, metadata checks and escrow accounting shared by the
//! listing instructions.

use vstd::prelude::*;
use crate::pubkey::Pubkey;
use crate::pda::{derived_program_address, try_find_program_address};
use crate::metadata::{Metadata, metadata_seeds, spec_token_metadata_program_id, find_metadata_account};
use crate::compression::state::metaplex_adapter::Creator;
use crate::listings::error::ErrorCodes;
use crate::listings::state::collection::{collection_prefix, collection_prefix_bytes};
use crate::listings::state::rental::Rental;

verus! {

/// Seconds in a (non-leap) year.
pub const SECONDS_PER_YEAR: u64 = 31_536_000;

/// Seconds in a day.
pub const SECONDS_PER_DAY: i64 = 86_400;

/// The fee charged on top of the interest when a loan is repaid late.
pub const LATE_REPAYMENT_FEE_BASIS_POINTS: u128 = 500;

// ---------------------------------------------------------------------------
// Basis points
// ---------------------------------------------------------------------------

/// `basis_points / 10000` of `amount`, rounded down and truncated to 64 bits;
/// an overflow of the 128-bit product is an error.
pub open spec fn spec_fee_from_basis_points(amount: u128, basis_points: u128) -> Result<u64, ErrorCodes> {
    if basis_points * amount > u128::MAX {
        Err(ErrorCodes::NumericalOverflow)
    } else {
        Ok(((basis_points * amount) / 10000) as u64)
    }
}

pub fn calculate_fee_from_basis_points(amount: u128, basis_points: u128) -> (r: Result<u64, ErrorCodes>)
    ensures
        r == spec_fee_from_basis_points(amount, basis_points),
{
    match basis_points.checked_mul(amount) {
        Some(product) => Ok((product / 10000) as u64),
        None => Err(ErrorCodes::NumericalOverflow),
    }
}

/// The fee on a 64-bit amount at 16-bit basis points; the product never
/// overflows.
pub open spec fn bp_fee(amount: u64, basis_points: u16) -> u64 {
    ((basis_points as int * amount as int) / 10000) as u64
}

pub proof fn lemma_bp_fee(amount: u64, basis_points: u16)
    ensures
        spec_fee_from_basis_points(amount as u128, basis_points as u128) == Ok::<u64, ErrorCodes>(
            bp_fee(amount, basis_points),
        ),
        basis_points <= 10000 ==> bp_fee(amount, basis_points) <= amount,
{
    assert(basis_points as int * amount as int <= 0xffffu64 as int * 0xffff_ffff_ffff_ffffu64 as int)
        by (nonlinear_arith)
        requires
            basis_points <= 0xffffu16,
            amount <= 0xffff_ffff_ffff_ffffu64,
    ;
    if basis_points <= 10000 {
        assert((basis_points as int * amount as int) / 10000 <= amount) by (nonlinear_arith)
            requires
                basis_points <= 10000,
                amount >= 0,
        ;
    }
}

// ---------------------------------------------------------------------------
// Metadata checks
// ---------------------------------------------------------------------------

/// The metadata account at `metadata_address` is the one derived for `mint`
/// and holds data.
pub open spec fn spec_metadata_valid(metadata_address: Pubkey, metadata_is_empty: bool, mint: Pubkey) -> Result<(), ErrorCodes> {
    match derived_program_address(metadata_seeds(mint), spec_token_metadata_program_id()) {
        Some((key, _)) => if key != metadata_address {
            Err(ErrorCodes::DerivedKeyInvalid)
        } else if metadata_is_empty {
            Err(ErrorCodes::MetadataDoesntExist)
        } else {
            Ok(())
        },
        None => Err(ErrorCodes::DerivedKeyInvalid),
    }
}

pub fn assert_metadata_valid(metadata_address: &Pubkey, metadata_is_empty: bool, mint: &Pubkey) -> (r: Result<(), ErrorCodes>)
    ensures
        r == spec_metadata_valid(*metadata_address, metadata_is_empty, *mint),
{
    match find_metadata_account(mint) {
        Some((key, _)) => {
            if key != *metadata_address {
                return Err(ErrorCodes::DerivedKeyInvalid);
            }
            if metadata_is_empty {
                return Err(ErrorCodes::MetadataDoesntExist);
            }
            Ok(())
        },
        None => Err(ErrorCodes::DerivedKeyInvalid),
    }
}

/// The NFT described by `metadata` is `mint` and belongs, verified, to the
/// collection whose account (derived under `program_id`) is `collection_pda`.
pub open spec fn spec_collection_valid(metadata: Metadata, mint: Pubkey, collection_pda: Pubkey, program_id: Pubkey) -> Result<(), ErrorCodes> {
    if metadata.mint != mint {
        Err(ErrorCodes::InvalidMint)
    } else {
        match metadata.collection {
            Some(collection) => match derived_program_address(
                seq![collection_prefix(), collection.key.bytes()],
                program_id,
            ) {
                Some((address, _)) => if address != collection_pda {
                    Err(ErrorCodes::InvalidCollection)
                } else if !collection.verified {
                    Err(ErrorCodes::InvalidCollection)
                } else {
                    Ok(())
                },
                None => Err(ErrorCodes::InvalidCollection),
            },
            None => Err(ErrorCodes::InvalidCollection),
        }
    }
}

pub fn assert_collection_valid(metadata: &Metadata, mint: Pubkey, collection_pda: Pubkey, program_id: Pubkey) -> (r: Result<(), ErrorCodes>)
    ensures
        r == spec_collection_valid(*metadata, mint, collection_pda, program_id),
{
    if metadata.mint != mint {
        return Err(ErrorCodes::InvalidMint);
    }
    match metadata.collection {
        Some(collection) => {
            let mut seeds: Vec<Vec<u8>> = Vec::new();
            seeds.push(collection_prefix_bytes());
            seeds.push(collection.key.to_bytes());
            assert(crate::pda::seeds_view(seeds@) =~= seq![collection_prefix(), collection.key.bytes()]);
            match try_find_program_address(&seeds, &program_id) {
                Some((address, _)) => {
                    if address != collection_pda {
                        return Err(ErrorCodes::InvalidCollection);
                    }
                    if !collection.verified {
                        return Err(ErrorCodes::InvalidCollection);
                    }
                    Ok(())
                },
                None => Err(ErrorCodes::InvalidCollection),
            }
        },
        None => Err(ErrorCodes::InvalidCollection),
    }
}


// ---------------------------------------------------------------------------
// Creator fees
// ---------------------------------------------------------------------------

/// A payment owed to a creator.
#[derive(Clone, Copy, PartialEq, Eq, Structural, Debug)]
pub struct CreatorFee {
    pub amount: u64,
    pub address: Pubkey,
}

/// A creator's part of `total_fee`: `share` percent, rounded down.
pub open spec fn creator_fee(share: u8, total_fee: u64) -> u64 {
    ((share as int * total_fee as int) / 100) as u64
}

/// The parts of the first `n` creators.
pub open spec fn creator_fees_sum(creators: Seq<Creator>, total_fee: u64, n: int) -> int
    decreases n,
{
    if n <= 0 {
        0
    } else {
        creator_fees_sum(creators, total_fee, n - 1) + creator_fee(creators[n - 1].share, total_fee)
    }
}

/// The first error met while paying the first `n` creators of `total_fee`,
/// the creators' accounts being `accounts` in order: the parts paid so far
/// exceed the fee, the accounts run out, or an account is not the creator's.
pub open spec fn creator_split_error(creators: Seq<Creator>, accounts: Seq<Pubkey>, total_fee: u64, n: int) -> Option<ErrorCodes>
    decreases n,
{
    if n <= 0 {
        None
    } else {
        match creator_split_error(creators, accounts, total_fee, n - 1) {
            Some(e) => Some(e),
            None => if creator_fees_sum(creators, total_fee, n) > total_fee {
                Some(ErrorCodes::NumericalOverflow)
            } else if n - 1 >= accounts.len() {
                Some(ErrorCodes::NotEnoughAccountKeys)
            } else if accounts[n - 1] != creators[n - 1].address {
                Some(ErrorCodes::RequireKeysEqViolated)
            } else {
                None
            },
        }
    }
}

/// The payments to the creators of `total_fee`.
pub open spec fn creator_payments(creators: Seq<Creator>, total_fee: u64) -> Seq<CreatorFee> {
    Seq::new(
        creators.len(),
        |i: int| CreatorFee { amount: creator_fee(creators[i].share, total_fee), address: creators[i].address },
    )
}

/// The sum of the amounts of `fees`.
pub open spec fn fees_total(fees: Seq<CreatorFee>) -> int
    decreases fees.len(),
{
    if fees.len() == 0 {
        0
    } else {
        fees_total(fees.drop_last()) + fees.last().amount
    }
}

proof fn lemma_creator_fees_sum_nonneg(creators: Seq<Creator>, total_fee: u64, n: int)
    ensures
        creator_fees_sum(creators, total_fee, n) >= 0,
    decreases n,
{
    if n > 0 {
        lemma_creator_fees_sum_nonneg(creators, total_fee, n - 1);
    }
}

/// Once an error is met, it is the error of every longer prefix.
proof fn lemma_split_error_persists(creators: Seq<Creator>, accounts: Seq<Pubkey>, total_fee: u64, n: int, m: int)
    requires
        0 <= n <= m,
        creator_split_error(creators, accounts, total_fee, n) is Some,
    ensures
        creator_split_error(creators, accounts, total_fee, m) == creator_split_error(creators, accounts, total_fee, n),
    decreases m - n,
{
    if n < m {
        lemma_split_error_persists(creators, accounts, total_fee, n, m - 1);
    }
}

/// Splitting `amount` into creator royalties at `basis_points` and what is
/// left: the payments to the creators (`share` percent each of the royalty)
/// and the rest of `amount`, which includes the royalty's rounding dust.
/// `accounts` are the creators' accounts, in the order of the creators.
pub open spec fn spec_creator_fees(
    amount: u64,
    basis_points: u16,
    mint: Pubkey,
    metadata: Metadata,
    metadata_address: Pubkey,
    metadata_is_empty: bool,
    accounts: Seq<Pubkey>,
) -> Result<(Seq<CreatorFee>, u64), ErrorCodes> {
    let creators = metadata.creator_seq();
    let total_fee = bp_fee(amount, basis_points);
    if metadata.mint != mint {
        Err(ErrorCodes::InvalidMint)
    } else {
        match spec_metadata_valid(metadata_address, metadata_is_empty, mint) {
            Err(e) => Err(e),
            Ok(_) => if total_fee > amount {
                Err(ErrorCodes::NumericalOverflow)
            } else {
                match creator_split_error(creators, accounts, total_fee, creators.len() as int) {
                    Some(e) => Err(e),
                    None => Ok(
                        (
                            creator_payments(creators, total_fee),
                            (amount - creator_fees_sum(creators, total_fee, creators.len() as int)) as u64,
                        ),
                    ),
                }
            },
        }
    }
}

pub open spec fn creator_fees_matches(
    r: Result<(Vec<CreatorFee>, u64), ErrorCodes>,
    s: Result<(Seq<CreatorFee>, u64), ErrorCodes>,
) -> bool {
    match r {
        Ok((fees, rest)) => s == Ok::<(Seq<CreatorFee>, u64), ErrorCodes>((fees@, rest)),
        Err(e) => s == Err::<(Seq<CreatorFee>, u64), ErrorCodes>(e),
    }
}

/// The creators' royalties on `amount` at `basis_points`, checked against the
/// creator accounts `remaining_accounts`, and the rest of `amount`.
#[verifier::loop_isolation(false)]
pub fn get_creator_fees(
    amount: u64,
    basis_points: u16,
    mint: &Pubkey,
    metadata: &Metadata,
    metadata_address: &Pubkey,
    metadata_is_empty: bool,
    remaining_accounts: &[Pubkey],
) -> (r: Result<(Vec<CreatorFee>, u64), ErrorCodes>)
    ensures
        creator_fees_matches(
            r,
            spec_creator_fees(
                amount,
                basis_points,
                *mint,
                *metadata,
                *metadata_address,
                metadata_is_empty,
                remaining_accounts@,
            ),
        ),
{
    if metadata.mint != *mint {
        return Err(ErrorCodes::InvalidMint);
    }
    match assert_metadata_valid(metadata_address, metadata_is_empty, mint) {
        Ok(()) => {},
        Err(e) => {
            return Err(e);
        },
    }
    proof {
        lemma_bp_fee(amount, basis_points);
    }
    let total_fee = match calculate_fee_from_basis_points(amount as u128, basis_points as u128) {
        Ok(f) => f,
        Err(e) => {
            return Err(e);
        },
    };
    let remaining_amount = match amount.checked_sub(total_fee) {
        Some(x) => x,
        None => {
            return Err(ErrorCodes::NumericalOverflow);
        },
    };
    let ghost creators = metadata.creator_seq();
    let ghost accounts = remaining_accounts@;
    let mut remaining_fee: u64 = total_fee;
    let mut fees: Vec<CreatorFee> = Vec::new();
    match &metadata.creators {
        Some(list) => {
            let mut i: usize = 0;
            while i < list.len()
                invariant
                    creators == list@,
                    accounts == remaining_accounts@,
                    0 <= i <= list@.len(),
                    creator_split_error(creators, accounts, total_fee, i as int) is None,
                    remaining_fee == total_fee - creator_fees_sum(creators, total_fee, i as int),
                    fees@ == creator_payments(creators, total_fee).take(i as int),
                decreases list@.len() - i,
            {
                let creator = list[i];
                let pct: u128 = creator.share as u128;
                assert(pct * (total_fee as u128) <= 0xffu128 * 0xffff_ffff_ffff_ffffu128)
                    by (nonlinear_arith)
                    requires
                        pct <= 0xff,
                        total_fee <= 0xffff_ffff_ffff_ffffu64,
                ;
                let share_fee: u64 = (#[verifier::truncate] (((pct * (total_fee as u128)) / 100) as u64));
                assert(share_fee == creator_fee(creator.share, total_fee));
                remaining_fee = match remaining_fee.checked_sub(share_fee) {
                    Some(x) => x,
                    None => {
                        proof {
                            assert(creators[i as int] == creator);
                            assert(creator_fees_sum(creators, total_fee, i + 1) > total_fee);
                            assert(creator_split_error(creators, accounts, total_fee, i + 1) == Some(
                                ErrorCodes::NumericalOverflow,
                            ));
                            lemma_split_error_persists(creators, accounts, total_fee, i + 1, creators.len() as int);
                        }
                        return Err(ErrorCodes::NumericalOverflow);
                    },
                };
                if i >= remaining_accounts.len() {
                    proof {
                        assert(creators[i as int] == creator);
                        assert(creator_split_error(creators, accounts, total_fee, i + 1) == Some(
                            ErrorCodes::NotEnoughAccountKeys,
                        ));
                        lemma_split_error_persists(creators, accounts, total_fee, i + 1, creators.len() as int);
                    }
                    return Err(ErrorCodes::NotEnoughAccountKeys);
                }
                let address = remaining_accounts[i];
                if address != creator.address {
                    proof {
                        lemma_split_error_persists(creators, accounts, total_fee, i + 1, creators.len() as int);
                    }
                    return Err(ErrorCodes::RequireKeysEqViolated);
                }
                fees.push(CreatorFee { amount: share_fee, address });
                proof {
                    assert(fees@ =~= creator_payments(creators, total_fee).take(i + 1));
                }
                i = i + 1;
            }
            assert(fees@ =~= creator_payments(creators, total_fee));
        },
        None => {
            assert(fees@ =~= creator_payments(creators, total_fee));
        },
    }
    proof {
        lemma_creator_fees_sum_nonneg(creators, total_fee, creators.len() as int);
    }
    let rest = match remaining_amount.checked_add(remaining_fee) {
        Some(x) => x,
        None => {
            return Err(ErrorCodes::NumericalOverflow);
        },
    };
    Ok((fees, rest))
}

proof fn lemma_payments_total(creators: Seq<Creator>, total_fee: u64, n: int)
    requires
        0 <= n <= creators.len(),
    ensures
        fees_total(creator_payments(creators, total_fee).take(n)) == creator_fees_sum(creators, total_fee, n),
    decreases n,
{
    if n > 0 {
        let p = creator_payments(creators, total_fee);
        assert(p.take(n).drop_last() =~= p.take(n - 1));
        lemma_payments_total(creators, total_fee, n - 1);
    }
}

/// Law: a royalty split pays out exactly what it was given.  The creators'
/// payments and the rest handed back add up to `amount`.
pub proof fn creator_fees_conserve_amount(
    amount: u64,
    basis_points: u16,
    mint: Pubkey,
    metadata: Metadata,
    metadata_address: Pubkey,
    metadata_is_empty: bool,
    accounts: Seq<Pubkey>,
)
    requires
        spec_creator_fees(amount, basis_points, mint, metadata, metadata_address, metadata_is_empty, accounts) is Ok,
    ensures
        ({
            let (fees, rest) = spec_creator_fees(
                amount,
                basis_points,
                mint,
                metadata,
                metadata_address,
                metadata_is_empty,
                accounts,
            )->Ok_0;
            fees_total(fees) + rest == amount
        }),
{
    let creators = metadata.creator_seq();
    let total_fee = bp_fee(amount, basis_points);
    let n = creators.len() as int;
    lemma_payments_total(creators, total_fee, n);
    assert(creator_payments(creators, total_fee).take(n) =~= creator_payments(creators, total_fee));
    lemma_creator_fees_sum_nonneg(creators, total_fee, n);
    if n > 0 {
        assert(creator_fees_sum(creators, total_fee, n) <= total_fee);
    }
}

// ---------------------------------------------------------------------------
// Loan interest
// ---------------------------------------------------------------------------

/// The interest due on `amount` after `duration` seconds at `basis_points` a
/// year (the yearly fee, times the duration read as an unsigned number,
/// divided by the seconds of a year, rounded down), plus a late fee of
/// `LATE_REPAYMENT_FEE_BASIS_POINTS` of `amount` when overdue.
pub open spec fn spec_loan_repayment_fee(amount: u64, basis_points: u16, duration: i64, is_overdue: bool) -> Result<u64, ErrorCodes> {
    let annual_fee = bp_fee(amount, basis_points);
    let seconds = duration as u64;
    if annual_fee * seconds > u64::MAX {
        Err(ErrorCodes::NumericalOverflow)
    } else {
        let interest = (annual_fee * seconds) / (SECONDS_PER_YEAR as int);
        if !is_overdue {
            Ok(interest as u64)
        } else {
            let late_fee = ((LATE_REPAYMENT_FEE_BASIS_POINTS * amount) / 10000) as u64;
            if interest + late_fee > u64::MAX {
                Err(ErrorCodes::NumericalOverflow)
            } else {
                Ok((interest + late_fee) as u64)
            }
        }
    }
}

pub fn calculate_loan_repayment_fee(amount: u64, basis_points: u16, duration: i64, is_overdue: bool) -> (r: Result<u64, ErrorCodes>)
    ensures
        r == spec_loan_repayment_fee(amount, basis_points, duration, is_overdue),
{
    proof {
        lemma_bp_fee(amount, basis_points);
        lemma_bp_fee(amount, 500);
    }
    let annual_fee = match calculate_fee_from_basis_points(amount as u128, basis_points as u128) {
        Ok(f) => f,
        Err(e) => {
            return Err(e);
        },
    };
    let product = match annual_fee.checked_mul(duration as u64) {
        Some(p) => p,
        None => {
            return Err(ErrorCodes::NumericalOverflow);
        },
    };
    let mut interest_due = product / SECONDS_PER_YEAR;
    if is_overdue {
        let late_repayment_fee = match calculate_fee_from_basis_points(
            amount as u128,
            LATE_REPAYMENT_FEE_BASIS_POINTS,
        ) {
            Ok(f) => f,
            Err(e) => {
                return Err(e);
            },
        };
        interest_due = match interest_due.checked_add(late_repayment_fee) {
            Some(x) => x,
            None => {
                return Err(ErrorCodes::NumericalOverflow);
            },
        };
    }
    Ok(interest_due)
}

// ---------------------------------------------------------------------------
// Rental escrow
// ---------------------------------------------------------------------------

/// The rent for `days` days at `daily` a day, if it fits in 64 bits.
pub open spec fn rent_for_days(days: u16, daily: u64) -> Option<u64> {
    if days as int * daily as int > u64::MAX {
        None
    } else {
        Some((days as int * daily as int) as u64)
    }
}

/// What a borrower pays into escrow for `days` more days of `rental`: the rent
/// plus the creators' fee on it.
pub open spec fn spec_rental_payment(rental: Rental, days: u16) -> Result<u64, ErrorCodes> {
    match rent_for_days(days, rental.amount) {
        None => Err(ErrorCodes::NumericalOverflow),
        Some(rent) => {
            let total = rent + bp_fee(rent, rental.creator_basis_points);
            if total > u64::MAX {
                Err(ErrorCodes::NumericalOverflow)
            } else {
                Ok(total as u64)
            }
        },
    }
}

/// Takes payment for `days` more days into the rental's escrow: the rent is
/// added to the escrow balance, and the amount the borrower transfers to the
/// escrow (rent plus creators' fee) is returned.
pub fn process_payment_to_rental_escrow(rental: &mut Rental, days: u16) -> (r: Result<u64, ErrorCodes>)
    requires
        spec_rental_payment(*old(rental), days) is Ok ==> old(rental).escrow_balance + days as int
            * old(rental).amount as int <= u64::MAX,
    ensures
        r == spec_rental_payment(*old(rental), days),
        r is Err ==> *final(rental) == *old(rental),
        r is Ok ==> *final(rental) == (Rental {
            escrow_balance: (old(rental).escrow_balance + days as int * old(rental).amount as int) as u64,
            ..*old(rental)
        }),
{
    let amount = match (days as u64).checked_mul(rental.amount) {
        Some(a) => a,
        None => {
            return Err(ErrorCodes::NumericalOverflow);
        },
    };
    proof {
        lemma_bp_fee(amount, rental.creator_basis_points);
    }
    let creator_fee = match calculate_fee_from_basis_points(amount as u128, rental.creator_basis_points as u128) {
        Ok(f) => f,
        Err(e) => {
            return Err(e);
        },
    };
    let total_amount = match amount.checked_add(creator_fee) {
        Some(t) => t,
        None => {
            return Err(ErrorCodes::NumericalOverflow);
        },
    };
    rental.escrow_balance = rental.escrow_balance + amount;
    Ok(total_amount)
}

/// What leaves a rental's escrow when the lender withdraws: the creators'
/// royalties, the lender's part, and the balance left in escrow.
#[derive(Clone, Debug)]
pub struct EscrowWithdrawal {
    pub creator_fees: Vec<CreatorFee>,
    pub lender_amount: u64,
    pub remaining: u64,
}

/// The check that comes before a withdrawal: the withdrawing lender is the
/// rental's, and a rental period is under way.
pub open spec fn withdrawal_precheck(rental: Rental, lender: Pubkey) -> Option<ErrorCodes> {
    if lender != rental.lender {
        Some(ErrorCodes::RequireKeysEqViolated)
    } else if rental.current_start is None || rental.current_expiry is None {
        Some(ErrorCodes::InvalidState)
    } else {
        None
    }
}

/// The lender's withdrawal of `withdrawal` from the rental's escrow at
/// `unix_timestamp`: the rental afterwards, the creators' royalties, the
/// lender's part and the balance left.
pub open spec fn withdrawal_outcome(
    rental: Rental,
    lender: Pubkey,
    withdrawal: u64,
    mint: Pubkey,
    metadata: Metadata,
    metadata_address: Pubkey,
    metadata_is_empty: bool,
    accounts: Seq<Pubkey>,
    unix_timestamp: i64,
) -> Result<(Rental, Seq<CreatorFee>, u64, u64), ErrorCodes> {
    match withdrawal_precheck(rental, lender) {
        Some(e) => Err(e),
        None => match spec_creator_fees(
            withdrawal,
            rental.creator_basis_points,
            mint,
            metadata,
            metadata_address,
            metadata_is_empty,
            accounts,
        ) {
            Err(e) => Err(e),
            Ok((fees, rest)) => Ok(
                (
                    Rental {
                        escrow_balance: (rental.escrow_balance - withdrawal) as u64,
                        current_start: Some(unix_timestamp),
                        ..rental
                    },
                    fees,
                    rest,
                    (rental.escrow_balance - withdrawal) as u64,
                ),
            ),
        },
    }
}

/// `w` is the withdrawal that `outcome` describes.
pub open spec fn withdrawal_matches(w: EscrowWithdrawal, outcome: (Rental, Seq<CreatorFee>, u64, u64)) -> bool {
    w.creator_fees@ == outcome.1 && w.lender_amount == outcome.2 && w.remaining == outcome.3
}

/// Pays the lender `withdrawal` (the part of the escrow earned so far) out of
/// the rental's escrow, less the creators' royalties at the rental's creator
/// fee; the escrow balance drops by `withdrawal` and the next earning period
/// starts at `unix_timestamp`.
pub fn withdraw_from_rental_escrow(
    rental: &mut Rental,
    lender: Pubkey,
    withdrawal: u64,
    mint: &Pubkey,
    metadata: &Metadata,
    metadata_address: &Pubkey,
    metadata_is_empty: bool,
    remaining_accounts: &[Pubkey],
    unix_timestamp: i64,
) -> (r: Result<EscrowWithdrawal, ErrorCodes>)
    requires
        withdrawal_precheck(*old(rental), lender) is None && spec_creator_fees(
            withdrawal,
            old(rental).creator_basis_points,
            *mint,
            *metadata,
            *metadata_address,
            metadata_is_empty,
            remaining_accounts@,
        ) is Ok ==> withdrawal <= old(rental).escrow_balance,
    ensures
        match withdrawal_outcome(
            *old(rental),
            lender,
            withdrawal,
            *mint,
            *metadata,
            *metadata_address,
            metadata_is_empty,
            remaining_accounts@,
            unix_timestamp,
        ) {
            Err(e) => r matches Err(e2) && e2 == e && *final(rental) == *old(rental),
            Ok(o) => r matches Ok(w) && withdrawal_matches(w, o) && *final(rental) == o.0,
        },
{
    if lender != rental.lender {
        return Err(ErrorCodes::RequireKeysEqViolated);
    }
    if rental.current_start.is_none() || rental.current_expiry.is_none() {
        return Err(ErrorCodes::InvalidState);
    }
    let (creator_fees, lender_amount) = match get_creator_fees(
        withdrawal,
        rental.creator_basis_points,
        mint,
        metadata,
        metadata_address,
        metadata_is_empty,
        remaining_accounts,
    ) {
        Ok(x) => x,
        Err(e) => {
            return Err(e);
        },
    };
    let remaining = rental.escrow_balance - withdrawal;
    rental.escrow_balance = remaining;
    rental.current_start = Some(unix_timestamp);
    Ok(EscrowWithdrawal { creator_fees, lender_amount, remaining })
}

/// The outcome of settling a rental's escrow: the lender's withdrawal and,
/// when the rental has a borrower, the refund of the unearned balance to them.
#[derive(Clone, Debug)]
pub struct EscrowSettlement {
    pub withdrawal: EscrowWithdrawal,
    pub refund: Option<CreatorFee>,
}

/// Settles a rental's escrow when the NFT leaves the rental early (exercised
/// option, repossessed loan): the lender withdraws what was earned, and any
/// unearned balance goes back to the borrower, whose account follows the
/// creators' accounts; the escrow balance is then zero.
pub fn settle_rental_escrow_balance(
    rental: &mut Rental,
    lender: Pubkey,
    withdrawal: u64,
    mint: &Pubkey,
    metadata: &Metadata,
    metadata_address: &Pubkey,
    metadata_is_empty: bool,
    remaining_accounts: &[Pubkey],
    unix_timestamp: i64,
) -> (r: Result<EscrowSettlement, ErrorCodes>)
    requires
        withdrawal_precheck(*old(rental), lender) is None && spec_creator_fees(
            withdrawal,
            old(rental).creator_basis_points,
            *mint,
            *metadata,
            *metadata_address,
            metadata_is_empty,
            remaining_accounts@,
        ) is Ok ==> withdrawal <= old(rental).escrow_balance,
    ensures
        r is Err ==> *final(rental) == *old(rental),
        withdrawal_precheck(*old(rental), lender) matches Some(e) ==> r == Err::<EscrowSettlement, ErrorCodes>(e),
        withdrawal_precheck(*old(rental), lender) is None ==> match spec_creator_fees(
            withdrawal,
            old(rental).creator_basis_points,
            *mint,
            *metadata,
            *metadata_address,
            metadata_is_empty,
            remaining_accounts@,
        ) {
            Err(e) => r matches Err(e2) && e2 == e,
            Ok((fees, rest)) => {
                let refund_account = fees.len() as int;
                &&& (r is Ok ==> *final(rental) == (Rental {
                    escrow_balance: 0,
                    current_start: Some(unix_timestamp),
                    ..*old(rental)
                }))
                &&& match old(rental).borrower {
                    None => r matches Ok(s) && s.withdrawal.creator_fees@ == fees
                        && s.withdrawal.lender_amount == rest && s.withdrawal.remaining
                        == old(rental).escrow_balance - withdrawal && s.refund is None,
                    Some(borrower) => if refund_account >= remaining_accounts@.len() {
                        r == Err::<EscrowSettlement, ErrorCodes>(ErrorCodes::NotEnoughAccountKeys)
                    } else if remaining_accounts@[refund_account] != borrower {
                        r == Err::<EscrowSettlement, ErrorCodes>(ErrorCodes::RequireKeysEqViolated)
                    } else {
                        r matches Ok(s) && s.withdrawal.creator_fees@ == fees && s.withdrawal.lender_amount
                            == rest && s.withdrawal.remaining == old(rental).escrow_balance - withdrawal
                            && s.refund == Some(
                            CreatorFee {
                                amount: (old(rental).escrow_balance - withdrawal) as u64,
                                address: borrower,
                            },
                        )
                    }
                }
            },
        },
{
    let ghost old_rental = *rental;
    let mut next = *rental;
    let withdrawal_result = match withdraw_from_rental_escrow(
        &mut next,
        lender,
        withdrawal,
        mint,
        metadata,
        metadata_address,
        metadata_is_empty,
        remaining_accounts,
        unix_timestamp,
    ) {
        Ok(w) => w,
        Err(e) => {
            return Err(e);
        },
    };
    let refund = match next.borrower {
        Some(borrower) => {
            let index = withdrawal_result.creator_fees.len();
            if index >= remaining_accounts.len() {
                return Err(ErrorCodes::NotEnoughAccountKeys);
            }
            if remaining_accounts[index] != borrower {
                return Err(ErrorCodes::RequireKeysEqViolated);
            }
            Some(CreatorFee { amount: withdrawal_result.remaining, address: borrower })
        },
        None => None,
    };
    next.escrow_balance = 0;
    *rental = next;
    Ok(EscrowSettlement { withdrawal: withdrawal_result, refund })
}

/// Law: settling a rental's escrow accounts for all of it.  The creators'
/// royalties, the lender's part and the borrower's refund add up to the
/// escrow balance.
pub proof fn rental_settlement_conserves_escrow(
    escrow_balance: u64,
    withdrawal: u64,
    creator_basis_points: u16,
    mint: Pubkey,
    metadata: Metadata,
    metadata_address: Pubkey,
    metadata_is_empty: bool,
    accounts: Seq<Pubkey>,
)
    requires
        withdrawal <= escrow_balance,
        spec_creator_fees(withdrawal, creator_basis_points, mint, metadata, metadata_address, metadata_is_empty, accounts) is Ok,
    ensures
        ({
            let (fees, rest) = spec_creator_fees(
                withdrawal,
                creator_basis_points,
                mint,
                metadata,
                metadata_address,
                metadata_is_empty,
                accounts,
            )->Ok_0;
            fees_total(fees) + rest + (escrow_balance - withdrawal) == escrow_balance
        }),
{
    creator_fees_conserve_amount(withdrawal, creator_basis_points, mint, metadata, metadata_address, metadata_is_empty, accounts);
}

// ---------------------------------------------------------------------------
// Locking the NFT
// ---------------------------------------------------------------------------

/// The delegation asked of the token-metadata program when a listing locks
/// the NFT in its owner's wallet.
#[derive(Clone, Copy, PartialEq, Eq, Structural, Debug)]
pub enum DelegateArgs {
    /// The token can move only to `locked_address`.
    LockedTransferV1 { amount: u64, locked_address: Pubkey },
    StandardV1 { amount: u64 },
}

/// The delegation of the one token to the token manager: a locked transfer
/// to the token manager for a programmable NFT, a standard delegation
/// otherwise.  The token is then locked under the token manager's seeds.
pub fn delegate_args(metadata: &Metadata, token_manager: Pubkey) -> (r: DelegateArgs)
    ensures
        r == if metadata.programmable {
            DelegateArgs::LockedTransferV1 { amount: 1, locked_address: token_manager }
        } else {
            DelegateArgs::StandardV1 { amount: 1 }
        },
{
    if metadata.programmable {
        DelegateArgs::LockedTransferV1 { amount: 1, locked_address: token_manager }
    } else {
        DelegateArgs::StandardV1 { amount: 1 }
    }
}


/// Each creator, paid at the account in its position, gets its share (in
/// percent, rounded down) of the royalty, which is `basis_points` out of
/// 10 000 of the amount, rounded down.
pub proof fn law_creator_fee_shares(
    amount: u64,
    basis_points: u16,
    mint: Pubkey,
    metadata: Metadata,
    metadata_address: Pubkey,
    metadata_is_empty: bool,
    accounts: Seq<Pubkey>,
)
    requires
        spec_creator_fees(amount, basis_points, mint, metadata, metadata_address, metadata_is_empty, accounts) is Ok,
    ensures
        ({
            let fees = spec_creator_fees(
                amount,
                basis_points,
                mint,
                metadata,
                metadata_address,
                metadata_is_empty,
                accounts,
            )->Ok_0.0;
            let creators = metadata.creator_seq();
            let royalty: int = ((basis_points * amount) / 10_000) as u64 as int;
            &&& metadata.mint == mint
            &&& royalty <= amount
            &&& fees.len() == creators.len()
            &&& forall|i: int|
                0 <= i < creators.len() ==> (#[trigger] fees[i]).address == creators[i].address && accounts[i]
                    == creators[i].address && fees[i].amount == ((creators[i].share * royalty) / 100) as u64
        }),
{
    let creators = metadata.creator_seq();
    let total_fee = bp_fee(amount, basis_points);
    let n = creators.len() as int;
    assert forall|i: int| 0 <= i < n implies accounts[i] == creators[i].address by {
        if accounts[i] != creators[i].address {
            assert(creator_split_error(creators, accounts, total_fee, i) is None) by {
                if creator_split_error(creators, accounts, total_fee, i) is Some {
                    lemma_split_error_persists(creators, accounts, total_fee, i, n);
                }
            }
            assert(creator_split_error(creators, accounts, total_fee, i + 1) is Some);
            lemma_split_error_persists(creators, accounts, total_fee, i + 1, n);
        }
    }
}

/// A payment for `days` days of a rental is the rent, `days` times the
/// daily amount, plus the creators' fee on it at the rental's creator
/// rate, rounded down.
pub proof fn law_rental_payment_is_rent_plus_fee(rental: Rental, days: u16)
    requires
        spec_rental_payment(rental, days) is Ok,
    ensures
        ({
            let rent: int = days * rental.amount;
            spec_rental_payment(rental, days) == Ok::<u64, ErrorCodes>(
                (rent + ((rental.creator_basis_points * rent) / 10_000) as u64) as u64,
            )
        }),
{
    let rent: int = days * rental.amount;
    assert(0 <= rent) by (nonlinear_arith)
        requires
            rent == days * rental.amount,
            0 <= days,
            0 <= rental.amount,
    ;
    assert(rent_for_days(days, rental.amount) == Some(rent as u64));
    assert((rent as u64) as int == rent);
}

/// A withdrawal takes exactly `withdrawal` out of the escrow, restarts the
/// earning period at `unix_timestamp`, and leaves the rest of the rental as
/// it was; the lender's part and the royalties add up to `withdrawal`.
pub proof fn law_withdrawal_takes_amount_from_escrow(
    rental: Rental,
    lender: Pubkey,
    withdrawal: u64,
    mint: Pubkey,
    metadata: Metadata,
    metadata_address: Pubkey,
    metadata_is_empty: bool,
    accounts: Seq<Pubkey>,
    unix_timestamp: i64,
)
    requires
        withdrawal <= rental.escrow_balance,
        withdrawal_outcome(
            rental,
            lender,
            withdrawal,
            mint,
            metadata,
            metadata_address,
            metadata_is_empty,
            accounts,
            unix_timestamp,
        ) is Ok,
    ensures
        ({
            let o = withdrawal_outcome(
                rental,
                lender,
                withdrawal,
                mint,
                metadata,
                metadata_address,
                metadata_is_empty,
                accounts,
                unix_timestamp,
            )->Ok_0;
            &&& lender == rental.lender
            &&& o.0.escrow_balance == rental.escrow_balance - withdrawal
            &&& o.0.current_start == Some(unix_timestamp)
            &&& o.0 == (Rental { escrow_balance: o.0.escrow_balance, current_start: o.0.current_start, ..rental })
            &&& o.3 == rental.escrow_balance - withdrawal
            &&& fees_total(o.1) + o.2 == withdrawal
        }),
{
    creator_fees_conserve_amount(
        withdrawal,
        rental.creator_basis_points,
        mint,
        metadata,
        metadata_address,
        metadata_is_empty,
        accounts,
    );
}

} // verus!
