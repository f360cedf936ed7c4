//! The awards program: priced awards given to forum entries, with fees for
//! the award's treasury and claims on a matching award.

use vstd::prelude::*;
use crate::pubkey::Pubkey;

verus! {

pub const MAX_NAME_LENGTH: usize = 32;
pub const MAX_SYMBOL_LENGTH: usize = 10;
pub const MAX_URI_LENGTH: usize = 200;
pub const SELLER_FEE_BASIS_POINTS: usize = 500;

/// Errors of the awards program.
#[derive(Clone, Copy, PartialEq, Eq, Structural, Debug)]
pub enum OndaAwardsError {
    Unauthorized,
    NumericOverflow,
    InvalidUri,
    InvalidArgs,
    InvalidTreasury,
    ClaimNotProvided,
    InvalidClaim,
    AwardAmountTooLowForClaim,
}

/// Giving an award earns a claim on this award.
#[derive(Clone, Copy, PartialEq, Eq, Structural, Debug)]
pub struct AwardClaims {
    pub award: Pubkey,
}

#[derive(Clone, Copy, PartialEq, Eq, Structural, Debug)]
pub struct CreateAwardArgs {
    pub amount: u64,
    pub fee_basis_points: u16,
}

#[derive(Clone, Copy, PartialEq, Eq, Structural, Debug)]
pub struct Award {
    /// The cost in lamports to mint a reward.
    pub amount: u64,
    /// The share of the cost, in basis points, that goes to the treasury.
    pub fee_basis_points: u16,
    /// The tree's authority.
    pub authority: Pubkey,
    /// The award's treasury for fees.
    pub treasury: Pubkey,
    /// The merkle tree used for minting compressed NFTs.
    pub merkle_tree: Pubkey,
    /// The award's collection mint.
    pub collection_mint: Pubkey,
    /// Gives claim to the matching award.
    pub matching: Option<AwardClaims>,
}

impl Award {
    /// The account's size: discriminator, amount, fee, four addresses and
    /// the optional claim.
    pub const SIZE: usize = 8 + 8 + 2 + 32 + 32 + 32 + 32 + 1 + 32;
}

/// How many matching awards the recipient may still claim.
#[derive(Clone, Copy, PartialEq, Eq, Structural, Debug)]
pub struct Claim {
    pub amount: u8,
}

impl Claim {
    pub const SIZE: usize = 8 + 1;
}

/// The treasury's fee of an award: `amount * fee_basis_points / 10_000`,
/// rounded down.
pub open spec fn award_fee(award: Award) -> int {
    award.amount * award.fee_basis_points / 10_000
}

/// The fee does not exceed the award's amount (it does not when the fee is
/// at most 10 000 basis points).
pub open spec fn fee_fits(award: Award) -> bool {
    award_fee(award) <= award.amount
}

/// Splits the award's amount into the treasury's fee and the rest.
pub fn calculate_fee(award: &Award) -> (r: (u64, u64))
    requires
        fee_fits(*award),
    ensures
        r.0 == award_fee(*award),
        r.1 == award.amount - award_fee(*award),
{
    let amount: u128 = award.amount as u128;
    let basis_points: u128 = award.fee_basis_points as u128;
    assert(amount * basis_points <= 0xffff_ffff_ffff_ffff * 0xffff) by (nonlinear_arith)
        requires
            amount <= 0xffff_ffff_ffff_ffff,
            basis_points <= 0xffff,
    ;
    let fee: u128 = amount * basis_points / 10_000;
    let remaining_amount: u128 = amount - fee;
    (fee as u64, remaining_amount as u64)
}

/// The fee and the rest make up the award's amount, and a fee of at most
/// 10 000 basis points fits.
pub proof fn law_fee_splits_amount(award: Award)
    requires
        award.fee_basis_points <= 10_000,
    ensures
        fee_fits(award),
        award_fee(award) + (award.amount - award_fee(award)) == award.amount,
        0 <= award_fee(award),
{
    assert(award.amount * award.fee_basis_points <= award.amount * 10_000) by (nonlinear_arith)
        requires
            award.fee_basis_points <= 10_000,
    ;
    assert(award.amount * award.fee_basis_points / 10_000 <= award.amount) by (nonlinear_arith)
        requires
            award.amount * award.fee_basis_points <= award.amount * 10_000,
    ;
    assert(0 <= award.amount * award.fee_basis_points) by (nonlinear_arith);
}

/// The award whose matching award is `matching`, if any.
pub open spec fn new_award(
    payer: Pubkey,
    treasury: Pubkey,
    collection_mint: Pubkey,
    merkle_tree: Pubkey,
    args: CreateAwardArgs,
    matching: Option<AwardClaims>,
) -> Award {
    Award {
        amount: args.amount,
        fee_basis_points: args.fee_basis_points,
        authority: payer,
        treasury,
        collection_mint,
        merkle_tree,
        matching,
    }
}

/// What `create_award` answers: the fee may not exceed 10 000 basis points;
/// a matching award must belong to the payer, and what the recipient gets
/// must cover the rent of a claim account (`claim_rent`).  `matching_award`
/// is the matching award's address and authority.
pub open spec fn spec_create_award(
    payer: Pubkey,
    treasury: Pubkey,
    collection_mint: Pubkey,
    merkle_tree: Pubkey,
    args: CreateAwardArgs,
    matching_award: Option<(Pubkey, Pubkey)>,
    claim_rent: u64,
) -> Result<Award, OndaAwardsError> {
    let plain = new_award(payer, treasury, collection_mint, merkle_tree, args, None);
    if args.fee_basis_points > 10_000 {
        Err(OndaAwardsError::InvalidArgs)
    } else {
        match matching_award {
            None => Ok(plain),
            Some((key, authority)) => if authority != payer {
                Err(OndaAwardsError::Unauthorized)
            } else if claim_rent > plain.amount - award_fee(plain) {
                Err(OndaAwardsError::AwardAmountTooLowForClaim)
            } else {
                Ok(new_award(payer, treasury, collection_mint, merkle_tree, args, Some(AwardClaims { award: key })))
            },
        }
    }
}

/// Sets up an award paid by `payer`; its tree and the collection authority
/// are created afterwards.
pub fn create_award(
    payer: Pubkey,
    treasury: Pubkey,
    collection_mint: Pubkey,
    merkle_tree: Pubkey,
    args: CreateAwardArgs,
    matching_award: Option<(Pubkey, Pubkey)>,
    claim_rent: u64,
) -> (r: Result<Award, OndaAwardsError>)
    ensures
        r == spec_create_award(payer, treasury, collection_mint, merkle_tree, args, matching_award, claim_rent),
{
    if args.fee_basis_points > 10_000 {
        return Err(OndaAwardsError::InvalidArgs);
    }
    let mut award = Award {
        amount: args.amount,
        fee_basis_points: args.fee_basis_points,
        authority: payer,
        treasury,
        collection_mint,
        merkle_tree,
        matching: None,
    };
    match matching_award {
        None => Ok(award),
        Some((key, authority)) => {
            if authority != payer {
                return Err(OndaAwardsError::Unauthorized);
            }
            proof {
                law_fee_splits_amount(award);
            }
            let (_fee, remaining_amount) = calculate_fee(&award);
            if claim_rent > remaining_amount {
                return Err(OndaAwardsError::AwardAmountTooLowForClaim);
            }
            award.matching = Some(AwardClaims { award: key });
            Ok(award)
        },
    }
}

/// The lamports a given award moves from the payer.
#[derive(Clone, Copy, PartialEq, Eq, Structural, Debug)]
pub struct AwardPayment {
    /// To the award's treasury.
    pub fee: u64,
    /// To the entry's author.
    pub to_recipient: u64,
}

/// What `give_award` answers: the treasury must be the award's; an award
/// with a matching award needs the recipient's claim account; the fee goes
/// to the treasury and the rest to the recipient, less the claim account's
/// rent when a claim account is passed.
pub open spec fn spec_give_award(award: Award, has_claim: bool, treasury: Pubkey, claim_rent: u64) -> Result<AwardPayment, OndaAwardsError> {
    if treasury != award.treasury {
        Err(OndaAwardsError::InvalidTreasury)
    } else if award.matching is Some && !has_claim {
        Err(OndaAwardsError::ClaimNotProvided)
    } else {
        Ok(AwardPayment {
            fee: award_fee(award) as u64,
            to_recipient: if has_claim {
                (award.amount - award_fee(award) - claim_rent) as u64
            } else {
                (award.amount - award_fee(award)) as u64
            },
        })
    }
}

/// The recipient's claim after one more matching award.
pub open spec fn claim_after_give(claim: Claim) -> Claim {
    Claim { amount: (claim.amount + 1) as u8 }
}

/// Gives `award` to a forum entry.  A claim account passed counts one more
/// matching award for the recipient.  The entry's leaf is verified, the
/// payment made and the award minted afterwards.
pub fn give_award(award: &Award, claim: &mut Option<Claim>, treasury: Pubkey, claim_rent: u64) -> (r: Result<AwardPayment, OndaAwardsError>)
    requires
        fee_fits(*award),
        *old(claim) is Some ==> award.matching is Some,
        *old(claim) matches Some(c) ==> c.amount < u8::MAX,
        *old(claim) is Some ==> claim_rent <= award.amount - award_fee(*award),
    ensures
        r == spec_give_award(*award, *old(claim) is Some, treasury, claim_rent),
        *final(claim) == match (r, *old(claim)) {
            (Ok(_), Some(c)) => Some(claim_after_give(c)),
            _ => *old(claim),
        },
{
    if treasury != award.treasury {
        return Err(OndaAwardsError::InvalidTreasury);
    }
    if award.matching.is_some() {
        match claim {
            Some(c) => {
                c.amount = c.amount + 1;
            },
            None => {
                return Err(OndaAwardsError::ClaimNotProvided);
            },
        }
    }
    let (fee, remaining_amount) = calculate_fee(award);
    let to_recipient = if claim.is_some() {
        remaining_amount - claim_rent
    } else {
        remaining_amount
    };
    Ok(AwardPayment { fee, to_recipient })
}

/// Whatever was paid for an award reaches the treasury, the recipient or
/// the claim account's rent.
pub proof fn law_give_award_pays_amount(award: Award, has_claim: bool, treasury: Pubkey, claim_rent: u64)
    requires
        award.fee_basis_points <= 10_000,
        has_claim ==> claim_rent <= award.amount - award_fee(award),
        spec_give_award(award, has_claim, treasury, claim_rent) is Ok,
    ensures
        ({
            let p = spec_give_award(award, has_claim, treasury, claim_rent)->Ok_0;
            p.fee + p.to_recipient + (if has_claim { claim_rent as int } else { 0 }) == award.amount
        }),
{
    law_fee_splits_amount(award);
}

/// What `claim_award` answers, and the claim after it: the treasury must be
/// the award's and the claim must hold at least one award; one is taken,
/// and the answer says whether none is left (the claim account is then
/// closed).
pub open spec fn spec_claim_award(award: Award, claim: Claim, treasury: Pubkey) -> (Result<bool, OndaAwardsError>, Claim) {
    if treasury != award.treasury {
        (Err(OndaAwardsError::InvalidTreasury), claim)
    } else if claim.amount == 0 {
        (Err(OndaAwardsError::ClaimNotProvided), claim)
    } else {
        (Ok(claim.amount == 1), Claim { amount: (claim.amount - 1) as u8 })
    }
}

/// Redeems one matching award from `claim` (see `spec_claim_award`).
pub fn claim_award(award: &Award, claim: &mut Claim, treasury: Pubkey) -> (r: Result<bool, OndaAwardsError>)
    ensures
        (r, *final(claim)) == spec_claim_award(*award, *old(claim), treasury),
{
    if treasury != award.treasury {
        return Err(OndaAwardsError::InvalidTreasury);
    }
    if claim.amount == 0 {
        return Err(OndaAwardsError::ClaimNotProvided);
    }
    claim.amount = claim.amount - 1;
    Ok(claim.amount == 0)
}

/// A claim earned by giving an award is redeemed by claiming it once: the
/// claim succeeds, the count is back where it was, and the account closes
/// exactly when it was empty before.
pub proof fn law_give_then_claim_restores(award: Award, claim: Claim, treasury: Pubkey, claim_rent: u64)
    requires
        claim.amount < u8::MAX,
        spec_give_award(award, true, treasury, claim_rent) is Ok,
    ensures
        spec_claim_award(award, claim_after_give(claim), award.treasury) == (
            Ok::<bool, OndaAwardsError>(claim.amount == 0),
            claim,
        ),
{
}


/// The treasury's fee is `fee_basis_points` out of 10 000 of the amount,
/// rounded down: the largest fee with `fee * 10_000 <= amount * basis points`.
pub proof fn law_fee_is_basis_points_of_amount(award: Award)
    ensures
        award_fee(award) * 10_000 <= award.amount * award.fee_basis_points,
        award.amount * award.fee_basis_points < (award_fee(award) + 1) * 10_000,
{
    let p: int = award.amount * award.fee_basis_points;
    assert(p >= 0) by (nonlinear_arith)
        requires
            p == award.amount * award.fee_basis_points,
            award.amount >= 0,
            award.fee_basis_points >= 0,
    ;
    assert((p / 10_000) * 10_000 <= p && p < (p / 10_000 + 1) * 10_000) by (nonlinear_arith)
        requires
            p >= 0,
    ;
}


/// An award's fee may not exceed 10 000 basis points, a matching award must
/// belong to the payer, and with a matching award the recipient's share
/// (the amount less the fee) must cover the rent of a claim account.
pub proof fn law_create_award_checks(
    payer: Pubkey,
    treasury: Pubkey,
    collection_mint: Pubkey,
    merkle_tree: Pubkey,
    args: CreateAwardArgs,
    matching_award: Option<(Pubkey, Pubkey)>,
    claim_rent: u64,
)
    ensures
        args.fee_basis_points > 10_000 ==> spec_create_award(payer, treasury, collection_mint, merkle_tree, args, matching_award, claim_rent)
            == Err::<Award, OndaAwardsError>(OndaAwardsError::InvalidArgs),
        spec_create_award(payer, treasury, collection_mint, merkle_tree, args, matching_award, claim_rent) is Ok
            ==> match matching_award {
            None => true,
            Some((_, authority)) => authority == payer && claim_rent * 10_000 <= args.amount * 10_000
                - args.amount * args.fee_basis_points + 9_999,
        },
{
    if spec_create_award(payer, treasury, collection_mint, merkle_tree, args, matching_award, claim_rent) is Ok {
        if matching_award is Some {
            let plain = new_award(payer, treasury, collection_mint, merkle_tree, args, None);
            law_fee_is_basis_points_of_amount(plain);
        }
    }
}

} // verus!
