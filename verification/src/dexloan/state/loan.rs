use vstd::prelude::*;
use crate::pubkey::Pubkey;
use crate::dexloan::error::DexloanError;

verus! {

#[derive(Clone, Copy, PartialEq, Eq, Structural, Debug)]
pub enum LoanState {
    Unlisted,
    Listed,
    Active,
    Defaulted,
}

/// A loan against an NFT held as collateral.
#[derive(Clone, Copy, PartialEq, Eq, Structural, Debug)]
pub struct Loan {
    /// Whether the loan is active.
    pub state: LoanState,
    /// The amount of the loan.
    pub amount: Option<u64>,
    /// The amount outstanding.
    pub outstanding: u64,
    /// The liquidation threshold in basis points.
    pub threshold: Option<u32>,
    /// The NFT holder.
    pub borrower: Pubkey,
    /// The issuer of the loan.
    pub lender: Option<Pubkey>,
    /// Annual interest in basis points.
    pub basis_points: u32,
    /// Number of installments.
    pub installments: u8,
    /// Current installment.
    pub current_installment: u8,
    /// When notice was issued.
    pub notice_issued: Option<i64>,
    /// Duration of the loan in seconds.
    pub duration: i64,
    /// The start date of the loan.
    pub start_date: Option<i64>,
    /// The mint of the NFT used as collateral.
    pub mint: Pubkey,
    /// The mint of the spl-token lent, if any.
    pub token_mint: Option<Pubkey>,
    pub bump: u8,
}

impl Loan {
    /// Records the terms of a listing: `amount` lent and all of it
    /// outstanding, one installment, no liquidation threshold.
    pub fn init_state(&mut self, amount: u64, basis_points: u32, duration: i64)
        ensures
            *final(self) == (Loan {
                amount: Some(amount),
                outstanding: amount,
                threshold: None,
                installments: 1,
                basis_points,
                duration,
                state: LoanState::Listed,
                ..*old(self)
            }),
    {
        self.amount = Some(amount);
        self.outstanding = amount;
        self.threshold = None;
        self.installments = 1;
        self.basis_points = basis_points;
        self.duration = duration;
        self.state = LoanState::Listed;
    }

    /// The first reason a loan may not start: it is not listed (reported as
    /// an invalid expiry), it has no amount or lender, the borrower is the
    /// system account, part of the amount is not outstanding, or the
    /// installments or duration are not positive.
    pub open spec fn activation_error(self) -> Option<DexloanError> {
        if self.state != LoanState::Listed {
            Some(DexloanError::InvalidExpiry)
        } else if self.amount is None || self.lender is None || self.borrower == Pubkey::spec_zero()
            || self.outstanding != self.amount->0 || self.installments == 0 || self.duration <= 0 {
            Some(DexloanError::InvalidState)
        } else {
            None
        }
    }

    /// Starts a listed loan at `unix_timestamp`.
    pub fn set_active(&mut self, unix_timestamp: i64) -> (r: Result<(), DexloanError>)
        ensures
            match old(self).activation_error() {
                Some(e) => r == Err::<(), DexloanError>(e) && *final(self) == *old(self),
                None => r is Ok && *final(self) == (Loan {
                    state: LoanState::Active,
                    start_date: Some(unix_timestamp),
                    ..*old(self)
                }),
            },
    {
        if self.state != LoanState::Listed {
            return Err(DexloanError::InvalidExpiry);
        }
        let amount = match self.amount {
            Some(a) => a,
            None => {
                return Err(DexloanError::InvalidState);
            },
        };
        if self.lender.is_none() {
            return Err(DexloanError::InvalidState);
        }
        if self.borrower == Pubkey::zero() {
            return Err(DexloanError::InvalidState);
        }
        if self.outstanding != amount {
            return Err(DexloanError::InvalidState);
        }
        if !(self.installments > 0) {
            return Err(DexloanError::InvalidState);
        }
        if !(self.duration > 0) {
            return Err(DexloanError::InvalidState);
        }
        self.state = LoanState::Active;
        self.start_date = Some(unix_timestamp);
        Ok(())
    }

    /// Bytes of a loan account.
    pub fn space() -> (r: usize)
        ensures
            r == 8 + 1 + (1 + 8) + 8 + (1 + 4) + 32 + (1 + 32) + 4 + 1 + 1 + (1 + 8) + 8 + (1 + 8) + 32
                + (1 + 32) + 1,
    {
        8 + 1 + (1 + 8) + 8 + (1 + 4) + 32 + (1 + 32) + 4 + 1 + 1 + (1 + 8) + 8 + (1 + 8) + 32 + (1 + 32) + 1
    }
}

/// A lender's standing offer of a loan against any NFT of a collection.
#[derive(Clone, Copy, PartialEq, Eq, Structural, Debug)]
pub struct LoanOffer {
    /// Id of the offer.
    pub id: u8,
    /// The lender making the offer.
    pub lender: Pubkey,
    /// The amount of the loan.
    pub amount: Option<u64>,
    /// Annual interest in basis points.
    pub basis_points: u32,
    /// Duration of the loan in seconds.
    pub duration: i64,
    /// The collection.
    pub collection: Pubkey,
    /// The loan to floor-value of the offer.
    pub ltv: Option<u32>,
    /// The liquidation threshold in basis points.
    pub threshold: Option<u32>,
    pub bump: u8,
    pub escrow_bump: u8,
}

impl LoanOffer {
    /// Bytes of a loan offer account.
    pub fn space() -> (r: usize)
        ensures
            r == 8 + 1 + 32 + (1 + 8) + 4 + 8 + 32 + (1 + 4) + (1 + 4) + 1,
    {
        8 + 1 + 32 + (1 + 8) + 4 + 8 + 32 + (1 + 4) + (1 + 4) + 1
    }
}

} // verus!
