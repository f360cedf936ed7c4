//! Escrow accounting and creator royalties of the Dexloan listings.

use vstd::prelude::*;
use crate::pubkey::Pubkey;
use crate::metadata::Metadata;
use crate::compression::state::metaplex_adapter::Creator;
use crate::dexloan::error::DexloanError;
use crate::dexloan::state::hire::Hire;
use crate::listings::utils::{
    bp_fee, lemma_bp_fee, creator_fee, creator_fees_sum, fees_total, spec_metadata_valid, CreatorFee,
};
pub use crate::listings::utils::{calculate_fee_from_basis_points, assert_metadata_valid};

verus! {

// ---------------------------------------------------------------------------
// Hire escrow
// ---------------------------------------------------------------------------

/// `a / b` rounded toward zero, as machine division does.
pub open spec fn div_toward_zero(a: int, b: int) -> int {
    if a >= 0 && b > 0 {
        a / b
    } else if a < 0 && b < 0 {
        (-a) / (-b)
    } else if a >= 0 {
        -(a / (-b))
    } else {
        -((-a) / b)
    }
}

fn i64_div_toward_zero(a: i64, b: i64) -> (q: i64)
    requires
        b != 0,
        !(a == i64::MIN && b == -1),
    ensures
        q == div_toward_zero(a as int, b as int),
{
    let neg_a = a < 0;
    let neg_b = b < 0;
    let ma: u64 = if neg_a {
        (-(a as i128)) as u64
    } else {
        a as u64
    };
    let mb: u64 = if neg_b {
        (-(b as i128)) as u64
    } else {
        b as u64
    };
    let m: u64 = ma / mb;
    assert(m <= ma) by (nonlinear_arith)
        requires
            m == ma / mb,
            mb >= 1,
    ;
    if neg_a == neg_b {
        assert(m <= i64::MAX) by (nonlinear_arith)
            requires
                m == ma / mb,
                mb >= 1,
                ma <= 0x8000_0000_0000_0000u64,
                neg_a == neg_b,
                neg_a ==> ma <= 0x8000_0000_0000_0000u64,
                !neg_a ==> ma <= 0x7fff_ffff_ffff_ffffu64,
                neg_a && ma == 0x8000_0000_0000_0000u64 ==> mb >= 2,
        ;
        m as i64
    } else {
        -(m as i128) as i64
    }
}

/// The share of a hire's escrow paid out at `now`: the whole periods elapsed
/// since the current start (whole-number division), times the escrow balance.
pub open spec fn hire_pro_rata(hire: Hire, now: i64) -> int {
    div_toward_zero(now - hire.current_start->0, hire.current_expiry->0 - hire.current_start->0)
        * (hire.escrow_balance as i64)
}

/// The conditions under which the pro-rata payout can be computed and paid
/// from the escrow.
pub open spec fn hire_withdrawal_defined(hire: Hire, now: i64) -> bool {
    let start = hire.current_start->0;
    let end = hire.current_expiry->0;
    &&& hire.current_start is Some
    &&& hire.current_expiry is Some
    &&& i64::MIN <= now - start <= i64::MAX
    &&& i64::MIN <= end - start <= i64::MAX
    &&& end != start
    &&& !(now - start == i64::MIN && end - start == -1)
    &&& i64::MIN <= hire_pro_rata(hire, now) <= i64::MAX
    &&& (hire_pro_rata(hire, now) as i64) as u64 <= hire.escrow_balance
}

/// The lender takes the pro-rata part of the hire's escrow; the result is the
/// amount paid to the lender and the balance that remains.
pub fn withdraw_from_escrow_balance(hire: &Hire, lender: Pubkey, unix_timestamp: i64) -> (r: Result<(u64, u64), DexloanError>)
    requires
        lender == hire.lender ==> hire_withdrawal_defined(*hire, unix_timestamp),
    ensures
        lender != hire.lender ==> r == Err::<(u64, u64), DexloanError>(DexloanError::RequireKeysEqViolated),
        lender == hire.lender ==> r == Ok::<(u64, u64), DexloanError>(
            (
                (hire_pro_rata(*hire, unix_timestamp) as i64) as u64,
                (hire.escrow_balance - (hire_pro_rata(*hire, unix_timestamp) as i64) as u64) as u64,
            ),
        ),
{
    if lender != hire.lender {
        return Err(DexloanError::RequireKeysEqViolated);
    }
    let start = match hire.current_start {
        Some(s) => s,
        None => 0,
    };
    let end = match hire.current_expiry {
        Some(e) => e,
        None => 1,
    };
    let periods = i64_div_toward_zero(unix_timestamp - start, end - start);
    let pro_rata = match periods.checked_mul(hire.escrow_balance as i64) {
        Some(p) => p,
        None => 0,
    };
    let paid = pro_rata as u64;
    let remaining_escrow_balance = hire.escrow_balance - paid;
    Ok((paid, remaining_escrow_balance))
}

/// When a call option is exercised or a loan repossessed while a hire is
/// running, the lender takes the earned part of the escrow and the unearned
/// rest goes back to the hire's borrower.  The result is what the lender and
/// the borrower receive.
pub fn settle_hire_escrow_balance(hire: &Hire, borrower: Pubkey, lender: Pubkey, unix_timestamp: i64) -> (r: Result<(u64, u64), DexloanError>)
    requires
        hire.borrower is Some,
        borrower == hire.borrower->0 && lender == hire.lender ==> hire_withdrawal_defined(*hire, unix_timestamp),
    ensures
        borrower != hire.borrower->0 ==> r == Err::<(u64, u64), DexloanError>(DexloanError::RequireKeysEqViolated),
        borrower == hire.borrower->0 && lender != hire.lender ==> r == Err::<(u64, u64), DexloanError>(
            DexloanError::RequireKeysEqViolated,
        ),
        borrower == hire.borrower->0 && lender == hire.lender ==> r == Ok::<(u64, u64), DexloanError>(
            (
                (hire_pro_rata(*hire, unix_timestamp) as i64) as u64,
                (hire.escrow_balance - (hire_pro_rata(*hire, unix_timestamp) as i64) as u64) as u64,
            ),
        ),
{
    let expected = match hire.borrower {
        Some(b) => b,
        None => borrower,
    };
    if borrower != expected {
        return Err(DexloanError::RequireKeysEqViolated);
    }
    withdraw_from_escrow_balance(hire, lender, unix_timestamp)
}

/// Law: settling a hire's escrow pays out exactly the escrow balance between
/// the lender and the borrower.
pub proof fn hire_settlement_conserves_escrow(hire: Hire, now: i64)
    requires
        hire_withdrawal_defined(hire, now),
    ensures
        (hire_pro_rata(hire, now) as i64) as u64 + (hire.escrow_balance - (hire_pro_rata(hire, now) as i64) as u64) as u64
            == hire.escrow_balance,
{
}

// ---------------------------------------------------------------------------
// Creator royalties
// ---------------------------------------------------------------------------

/// The first error met while paying the first `n` creators of `total_fee`
/// through the accounts `accounts`: the parts paid so far exceed the fee, or
/// the accounts run out.
pub open spec fn royalty_split_error(creators: Seq<Creator>, accounts: Seq<Pubkey>, total_fee: u64, n: int) -> Option<DexloanError>
    decreases n,
{
    if n <= 0 {
        None
    } else {
        match royalty_split_error(creators, accounts, total_fee, n - 1) {
            Some(e) => Some(e),
            None => if creator_fees_sum(creators, total_fee, n) > total_fee {
                Some(DexloanError::NumericalOverflow)
            } else if n - 1 >= accounts.len() {
                Some(DexloanError::NotEnoughAccountKeys)
            } else {
                None
            },
        }
    }
}

/// The transfers to the first `n` creators: each creator's part goes to the
/// account in the creator's position, and parts of zero are not transferred.
pub open spec fn royalty_transfers(creators: Seq<Creator>, accounts: Seq<Pubkey>, total_fee: u64, n: int) -> Seq<CreatorFee>
    decreases n,
{
    if n <= 0 {
        Seq::empty()
    } else {
        let earlier = royalty_transfers(creators, accounts, total_fee, n - 1);
        let part = creator_fee(creators[n - 1].share, total_fee);
        if part > 0 {
            earlier.push(CreatorFee { amount: part, address: accounts[n - 1] })
        } else {
            earlier
        }
    }
}

/// Paying royalties at the NFT's seller fee out of `amount`: the transfers to
/// the creators and the rest of `amount` (with the royalty's dust), which goes
/// to the party posting the NFT.
pub open spec fn spec_pay_creator_fees(
    amount: u64,
    mint: Pubkey,
    metadata: Metadata,
    metadata_address: Pubkey,
    metadata_is_empty: bool,
    accounts: Seq<Pubkey>,
) -> Result<(Seq<CreatorFee>, u64), DexloanError> {
    let creators = metadata.creator_seq();
    let total_fee = bp_fee(amount, metadata.seller_fee_basis_points);
    let n = creators.len() as int;
    if metadata.mint != mint {
        Err(DexloanError::InvalidMint)
    } else {
        match spec_metadata_valid(metadata_address, metadata_is_empty, mint) {
            Err(e) => Err(e),
            Ok(_) => if total_fee > amount {
                Err(DexloanError::NumericalOverflow)
            } else {
                match royalty_split_error(creators, accounts, total_fee, n) {
                    Some(e) => Err(e),
                    None => Ok(
                        (
                            royalty_transfers(creators, accounts, total_fee, n),
                            (amount - creator_fees_sum(creators, total_fee, n)) as u64,
                        ),
                    ),
                }
            },
        }
    }
}

proof fn lemma_royalty_error_persists(creators: Seq<Creator>, accounts: Seq<Pubkey>, total_fee: u64, n: int, m: int)
    requires
        0 <= n <= m,
        royalty_split_error(creators, accounts, total_fee, n) is Some,
    ensures
        royalty_split_error(creators, accounts, total_fee, m) == royalty_split_error(creators, accounts, total_fee, n),
    decreases m - n,
{
    if n < m {
        lemma_royalty_error_persists(creators, accounts, total_fee, n, m - 1);
    }
}

proof fn lemma_fees_sum_nonneg(creators: Seq<Creator>, total_fee: u64, n: int)
    ensures
        creator_fees_sum(creators, total_fee, n) >= 0,
    decreases n,
{
    if n > 0 {
        lemma_fees_sum_nonneg(creators, total_fee, n - 1);
    }
}

/// The royalty transfers on `amount` at the NFT's seller fee, paid through the
/// creator accounts `remaining_accounts` in order, and the rest of `amount`.
#[verifier::loop_isolation(false)]
pub fn pay_creator_fees(
    remaining_accounts: &[Pubkey],
    amount: u64,
    mint: &Pubkey,
    metadata: &Metadata,
    metadata_address: &Pubkey,
    metadata_is_empty: bool,
) -> (r: Result<(Vec<CreatorFee>, u64), DexloanError>)
    ensures
        match spec_pay_creator_fees(amount, *mint, *metadata, *metadata_address, metadata_is_empty, remaining_accounts@) {
            Err(e) => r matches Err(e2) && e2 == e,
            Ok((fees, rest)) => r matches Ok((f, x)) && f@ == fees && x == rest,
        },
{
    if metadata.mint != *mint {
        return Err(DexloanError::InvalidMint);
    }
    match assert_metadata_valid(metadata_address, metadata_is_empty, mint) {
        Ok(()) => {},
        Err(e) => {
            return Err(e);
        },
    }
    let basis_points = metadata.seller_fee_basis_points;
    proof {
        lemma_bp_fee(amount, basis_points);
    }
    let total_fee = match calculate_fee_from_basis_points(amount as u128, basis_points as u128) {
        Ok(f) => f,
        Err(e) => {
            return Err(e);
        },
    };
    let remaining_amount = match amount.checked_sub(total_fee) {
        Some(x) => x,
        None => {
            return Err(DexloanError::NumericalOverflow);
        },
    };
    let ghost creators = metadata.creator_seq();
    let ghost accounts = remaining_accounts@;
    let mut remaining_fee: u64 = total_fee;
    let mut transfers: Vec<CreatorFee> = Vec::new();
    match &metadata.creators {
        Some(list) => {
            let mut i: usize = 0;
            while i < list.len()
                invariant
                    creators == list@,
                    0 <= i <= list@.len(),
                    royalty_split_error(creators, accounts, total_fee, i as int) is None,
                    remaining_fee == total_fee - creator_fees_sum(creators, total_fee, i as int),
                    transfers@ == royalty_transfers(creators, accounts, total_fee, i as int),
                decreases list@.len() - i,
            {
                let creator = list[i];
                let pct: u128 = creator.share as u128;
                assert(pct * (total_fee as u128) <= 0xffu128 * 0xffff_ffff_ffff_ffffu128)
                    by (nonlinear_arith)
                    requires
                        pct <= 0xff,
                        total_fee <= 0xffff_ffff_ffff_ffffu64,
                ;
                let creator_part: u64 = (#[verifier::truncate] (((pct * (total_fee as u128)) / 100) as u64));
                assert(creator_part == creator_fee(creator.share, total_fee));
                assert(creators[i as int] == creator);
                remaining_fee = match remaining_fee.checked_sub(creator_part) {
                    Some(x) => x,
                    None => {
                        proof {
                            assert(royalty_split_error(creators, accounts, total_fee, i + 1) == Some(
                                DexloanError::NumericalOverflow,
                            ));
                            lemma_royalty_error_persists(creators, accounts, total_fee, i + 1, creators.len() as int);
                        }
                        return Err(DexloanError::NumericalOverflow);
                    },
                };
                if i >= remaining_accounts.len() {
                    proof {
                        assert(royalty_split_error(creators, accounts, total_fee, i + 1) == Some(
                            DexloanError::NotEnoughAccountKeys,
                        ));
                        lemma_royalty_error_persists(creators, accounts, total_fee, i + 1, creators.len() as int);
                    }
                    return Err(DexloanError::NotEnoughAccountKeys);
                }
                let account = remaining_accounts[i];
                if creator_part > 0 {
                    transfers.push(CreatorFee { amount: creator_part, address: account });
                }
                i = i + 1;
            }
        },
        None => {},
    }
    proof {
        lemma_fees_sum_nonneg(creators, total_fee, creators.len() as int);
    }
    let rest = match remaining_amount.checked_add(remaining_fee) {
        Some(x) => x,
        None => {
            return Err(DexloanError::NumericalOverflow);
        },
    };
    Ok((transfers, rest))
}

// ---------------------------------------------------------------------------
// Deposit accounts
// ---------------------------------------------------------------------------

/// The delegation of the owner's token account holding the NFT.
#[derive(Clone, Copy, PartialEq, Eq, Structural, Debug)]
pub struct DepositAccount {
    pub delegate: Option<Pubkey>,
    pub is_frozen: bool,
    pub delegated_amount: u64,
}

/// What must be done to the deposit account for the token manager to hold
/// the NFT.
#[derive(Clone, Copy, PartialEq, Eq, Structural, Debug)]
pub enum FreezeAction {
    /// Delegate the NFT to the token manager and freeze it.
    DelegateAndFreeze,
    /// Revoke the current delegate, then delegate to the token manager and freeze.
    RevokeThenDelegateAndFreeze,
    /// The token manager already holds the NFT.
    AlreadyDelegated,
}

/// The action for a deposit account: an unfrozen account delegated elsewhere
/// is taken over; an account delegated elsewhere and frozen (or, when
/// `check_amount`, delegated for other than one token) is refused.
pub open spec fn spec_freeze_action(deposit: DepositAccount, token_manager: Pubkey, check_amount: bool) -> Result<FreezeAction, DexloanError> {
    match deposit.delegate {
        None => Ok(FreezeAction::DelegateAndFreeze),
        Some(d) => if !deposit.is_frozen && d != token_manager {
            Ok(FreezeAction::RevokeThenDelegateAndFreeze)
        } else if d != token_manager || (check_amount && deposit.delegated_amount != 1) {
            Err(DexloanError::InvalidDelegate)
        } else {
            Ok(FreezeAction::AlreadyDelegated)
        },
    }
}

pub(crate) fn freeze_action(deposit: DepositAccount, token_manager: Pubkey, check_amount: bool) -> (r: Result<FreezeAction, DexloanError>)
    ensures
        r == spec_freeze_action(deposit, token_manager, check_amount),
{
    match deposit.delegate {
        None => Ok(FreezeAction::DelegateAndFreeze),
        Some(d) => {
            if !deposit.is_frozen && d != token_manager {
                Ok(FreezeAction::RevokeThenDelegateAndFreeze)
            } else if d != token_manager || (check_amount && deposit.delegated_amount != 1) {
                Err(DexloanError::InvalidDelegate)
            } else {
                Ok(FreezeAction::AlreadyDelegated)
            }
        },
    }
}

proof fn lemma_royalty_transfers_total(creators: Seq<Creator>, accounts: Seq<Pubkey>, total_fee: u64, n: int)
    requires
        0 <= n <= creators.len(),
    ensures
        fees_total(royalty_transfers(creators, accounts, total_fee, n)) == creator_fees_sum(creators, total_fee, n),
    decreases n,
{
    if n > 0 {
        lemma_royalty_transfers_total(creators, accounts, total_fee, n - 1);
        let earlier = royalty_transfers(creators, accounts, total_fee, n - 1);
        let part = creator_fee(creators[n - 1].share, total_fee);
        if part > 0 {
            let pushed = earlier.push(CreatorFee { amount: part, address: accounts[n - 1] });
            assert(pushed.drop_last() =~= earlier);
        }
    }
}

proof fn lemma_royalty_sum_within_fee(creators: Seq<Creator>, accounts: Seq<Pubkey>, total_fee: u64, n: int)
    requires
        royalty_split_error(creators, accounts, total_fee, n) is None,
    ensures
        creator_fees_sum(creators, total_fee, n) <= total_fee,
    decreases n,
{
    if n > 0 {
        lemma_royalty_sum_within_fee(creators, accounts, total_fee, n - 1);
    }
}

/// Paying royalties moves exactly the amount paid: the transfers to the
/// creators and the rest add up to it.
pub proof fn royalty_payments_conserve_amount(
    amount: u64,
    mint: Pubkey,
    metadata: Metadata,
    metadata_address: Pubkey,
    metadata_is_empty: bool,
    accounts: Seq<Pubkey>,
)
    requires
        spec_pay_creator_fees(amount, mint, metadata, metadata_address, metadata_is_empty, accounts) is Ok,
    ensures
        ({
            let (fees, rest) = spec_pay_creator_fees(
                amount,
                mint,
                metadata,
                metadata_address,
                metadata_is_empty,
                accounts,
            )->Ok_0;
            fees_total(fees) + rest == amount
        }),
{
    let creators = metadata.creator_seq();
    let total_fee = bp_fee(amount, metadata.seller_fee_basis_points);
    let n = creators.len() as int;
    lemma_royalty_transfers_total(creators, accounts, total_fee, n);
    lemma_royalty_sum_within_fee(creators, accounts, total_fee, n);
    lemma_fees_sum_nonneg(creators, total_fee, n);
}

} // verus!
