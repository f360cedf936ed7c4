use onda::awards::{
    calculate_fee, claim_award, create_award, give_award, Award, AwardClaims, AwardPayment, Claim,
    CreateAwardArgs, OndaAwardsError,
};
use onda::pubkey::Pubkey;

fn key(n: u64) -> Pubkey {
    Pubkey { w0: n, w1: 3, w2: 5, w3: 8 }
}

fn award(amount: u64, fee_basis_points: u16, matching: Option<AwardClaims>) -> Award {
    Award {
        amount,
        fee_basis_points,
        authority: key(1),
        treasury: key(2),
        merkle_tree: key(3),
        collection_mint: key(4),
        matching,
    }
}

#[test]
fn fee_split() {
    assert_eq!(calculate_fee(&award(1_000_000, 500, None)), (50_000, 950_000));
    assert_eq!(calculate_fee(&award(999, 1, None)), (0, 999));
    assert_eq!(calculate_fee(&award(u64::MAX, 10_000, None)), (u64::MAX, 0));
    assert_eq!(calculate_fee(&award(0, 20_000, None)), (0, 0));
    let (fee, rest) = calculate_fee(&award(123_456_789, 2_500, None));
    assert_eq!(fee + rest, 123_456_789);
    assert_eq!(fee, 30_864_197);
}

#[test]
fn award_sizes() {
    assert_eq!(Award::SIZE, 179);
    assert_eq!(Claim::SIZE, 9);
}

#[test]
fn create_award_plain() {
    let args = CreateAwardArgs { amount: 1_000_000, fee_basis_points: 1_000 };
    let award = create_award(key(1), key(2), key(4), key(3), args, None, 0).unwrap();
    assert_eq!(award.amount, 1_000_000);
    assert_eq!(award.fee_basis_points, 1_000);
    assert_eq!(award.authority, key(1));
    assert_eq!(award.treasury, key(2));
    assert_eq!(award.collection_mint, key(4));
    assert_eq!(award.merkle_tree, key(3));
    assert_eq!(award.matching, None);
}

#[test]
fn create_award_errors() {
    let args = CreateAwardArgs { amount: 1_000_000, fee_basis_points: 10_001 };
    assert_eq!(create_award(key(1), key(2), key(4), key(3), args, None, 0), Err(OndaAwardsError::InvalidArgs));
    let args = CreateAwardArgs { amount: 1_000_000, fee_basis_points: 1_000 };
    assert_eq!(
        create_award(key(1), key(2), key(4), key(3), args, Some((key(10), key(11))), 0),
        Err(OndaAwardsError::Unauthorized)
    );
    assert_eq!(
        create_award(key(1), key(2), key(4), key(3), args, Some((key(10), key(1))), 900_001),
        Err(OndaAwardsError::AwardAmountTooLowForClaim)
    );
    let award = create_award(key(1), key(2), key(4), key(3), args, Some((key(10), key(1))), 900_000).unwrap();
    assert_eq!(award.matching, Some(AwardClaims { award: key(10) }));
}

#[test]
fn give_award_pays_treasury_and_recipient() {
    let a = award(1_000_000, 500, None);
    let mut claim = None;
    assert_eq!(give_award(&a, &mut claim, key(2), 100), Ok(AwardPayment { fee: 50_000, to_recipient: 950_000 }));
    assert_eq!(give_award(&a, &mut claim, key(9), 100), Err(OndaAwardsError::InvalidTreasury));
}

#[test]
fn give_award_with_matching_counts_claims() {
    let a = award(1_000_000, 500, Some(AwardClaims { award: key(10) }));
    let mut none = None;
    assert_eq!(give_award(&a, &mut none, key(2), 100), Err(OndaAwardsError::ClaimNotProvided));
    let mut claim = Some(Claim { amount: 0 });
    assert_eq!(give_award(&a, &mut claim, key(2), 100), Ok(AwardPayment { fee: 50_000, to_recipient: 949_900 }));
    assert_eq!(claim, Some(Claim { amount: 1 }));
    let mut c = claim.unwrap();
    assert_eq!(claim_award(&a, &mut c, key(2)), Ok(true));
    assert_eq!(c, Claim { amount: 0 });
    assert_eq!(claim_award(&a, &mut c, key(2)), Err(OndaAwardsError::ClaimNotProvided));
}

#[test]
fn claim_award_errors_and_counts() {
    let a = award(10, 0, None);
    let mut c = Claim { amount: 3 };
    assert_eq!(claim_award(&a, &mut c, key(9)), Err(OndaAwardsError::InvalidTreasury));
    assert_eq!(c.amount, 3);
    assert_eq!(claim_award(&a, &mut c, key(2)), Ok(false));
    assert_eq!(c.amount, 2);
}
