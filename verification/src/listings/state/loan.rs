use vstd::prelude::*;
use crate::pubkey::Pubkey;
use crate::listings::error::ErrorCodes;

verus! {

#[derive(Clone, Copy, PartialEq, Eq, Structural, Debug)]
pub enum LoanState {
    Unlisted,
    Listed,
    Active,
    Defaulted,
    Repaid,
}

/// A loan against an NFT held as collateral.
#[derive(Clone, Copy, PartialEq, Eq, Structural, Debug)]
pub struct Loan {
    pub state: LoanState,
    /// The NFT holder.
    pub borrower: Pubkey,
    /// The issuer of the loan.
    pub lender: Option<Pubkey>,
    /// The amount of the loan.
    pub amount: Option<u64>,
    /// Annual interest in basis points.
    pub basis_points: u16,
    /// The creator fee.
    pub creator_basis_points: u16,
    /// The amount outstanding.
    pub outstanding: u64,
    /// The liquidation threshold in basis points.
    pub threshold: Option<u32>,
    /// Number of installments.
    pub installments: u8,
    /// Current installment.
    pub current_installment: u8,
    /// When notice was issued.
    pub notice_issued: Option<i64>,
    /// Duration of the loan in seconds.
    pub duration: i64,
    /// The start date of the loan.
    pub start_date: Option<i64>,
    /// The mint of the NFT used as collateral.
    pub mint: Pubkey,
    /// The mint of the spl-token lent, if not lamports.
    pub token_mint: Option<Pubkey>,
    pub bump: u8,
}

impl Loan {
    /// Records the terms of an ask: listed for `amount`, all of it outstanding,
    /// one installment, no liquidation threshold.
    pub fn init_ask_state(
        loan: &mut Loan,
        amount: u64,
        creator_basis_points: u16,
        basis_points: u16,
        duration: i64,
    ) -> (r: Result<(), ErrorCodes>)
        ensures
            r is Ok,
            *final(loan) == (Loan {
                amount: Some(amount),
                basis_points,
                creator_basis_points,
                outstanding: amount,
                threshold: None,
                installments: 1,
                duration,
                state: LoanState::Listed,
                ..*old(loan)
            }),
    {
        loan.amount = Some(amount);
        loan.basis_points = basis_points;
        loan.creator_basis_points = creator_basis_points;
        loan.outstanding = amount;
        loan.threshold = None;
        loan.installments = 1;
        loan.duration = duration;
        loan.state = LoanState::Listed;
        Ok(())
    }

    /// Whether a listed loan may start: it has a lender and an amount, the
    /// borrower is not the system account, all of the amount is outstanding,
    /// and the installments and duration are positive.
    pub open spec fn can_activate(self) -> bool {
        &&& self.state == LoanState::Listed
        &&& self.lender is Some
        &&& self.amount is Some
        &&& self.borrower != Pubkey::spec_zero()
        &&& self.outstanding == self.amount->0
        &&& self.installments > 0
        &&& self.duration > 0
    }

    /// Starts a listed loan at `unix_timestamp`; refuses with `InvalidState`
    /// when the loan cannot start.
    pub fn set_active(loan: &mut Loan, unix_timestamp: i64) -> (r: Result<(), ErrorCodes>)
        ensures
            r is Ok <==> old(loan).can_activate(),
            r is Err ==> r == Err::<(), ErrorCodes>(ErrorCodes::InvalidState) && *final(loan) == *old(loan),
            r is Ok ==> *final(loan) == (Loan {
                state: LoanState::Active,
                start_date: Some(unix_timestamp),
                ..*old(loan)
            }),
    {
        if loan.state != LoanState::Listed {
            return Err(ErrorCodes::InvalidState);
        }
        if loan.lender.is_none() {
            return Err(ErrorCodes::InvalidState);
        }
        let amount = match loan.amount {
            Some(a) => a,
            None => {
                return Err(ErrorCodes::InvalidState);
            },
        };
        if loan.borrower == Pubkey::zero() {
            return Err(ErrorCodes::InvalidState);
        }
        if loan.outstanding != amount {
            return Err(ErrorCodes::InvalidState);
        }
        if !(loan.installments > 0) {
            return Err(ErrorCodes::InvalidState);
        }
        if !(loan.duration > 0) {
            return Err(ErrorCodes::InvalidState);
        }
        loan.state = LoanState::Active;
        loan.start_date = Some(unix_timestamp);
        Ok(())
    }

    /// Bytes of a loan account.
    pub fn space() -> (r: usize)
        ensures
            r == 8 + 1 + 32 + (1 + 32) + (1 + 8) + 2 + 2 + 8 + (1 + 4) + 1 + 1 + (1 + 8) + 8 + (1
                + 8) + 32 + (1 + 32) + 1,
    {
        8 + 1 + 32 + (1 + 32) + (1 + 8) + 2 + 2 + 8 + (1 + 4) + 1 + 1 + (1 + 8) + 8 + (1 + 8) + 32 + (1
            + 32) + 1
    }
}

/// A lender's standing offer of a loan against any NFT of a collection.
#[derive(Clone, Copy, PartialEq, Eq, Structural, Debug)]
pub struct LoanOffer {
    /// Id of the offer.
    pub id: u8,
    /// The lender making the offer.
    pub lender: Pubkey,
    /// The amount of the loan.
    pub amount: Option<u64>,
    /// Annual interest in basis points.
    pub basis_points: u16,
    /// Duration of the loan in seconds.
    pub duration: i64,
    /// The collection.
    pub collection: Pubkey,
    /// The loan to floor-value of the offer.
    pub ltv: Option<u32>,
    /// The liquidation threshold in basis points.
    pub threshold: Option<u32>,
    pub bump: u8,
    pub escrow_bump: u8,
}

impl LoanOffer {
    /// Bytes of a loan offer account.
    pub fn space() -> (r: usize)
        ensures
            r == 8 + 1 + 32 + (1 + 8) + 2 + 8 + 32 + (1 + 4) + (1 + 4) + 1,
    {
        8 + 1 + 32 + (1 + 8) + 2 + 8 + 32 + (1 + 4) + (1 + 4) + 1
    }
}

} // verus!
