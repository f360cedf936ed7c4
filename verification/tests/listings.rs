use onda::listings::error::ErrorCodes;
use onda::listings::state::rental::{Rental, RentalState};
use onda::listings::utils::{
    delegate_args, DelegateArgs,
    calculate_fee_from_basis_points, calculate_loan_repayment_fee, process_payment_to_rental_escrow,
    SECONDS_PER_YEAR,
};
use onda::metadata::Metadata;
use onda::pubkey::Pubkey;

fn rental(amount: u64, creator_basis_points: u16) -> Rental {
    Rental {
        state: RentalState::Listed,
        amount,
        creator_basis_points,
        lender: Pubkey::zero(),
        borrower: None,
        expiry: 0,
        current_start: None,
        current_expiry: None,
        escrow_balance: 10,
        mint: Pubkey::zero(),
        bump: 0,
        escrow_bump: 0,
    }
}

#[test]
fn fee_from_basis_points() {
    assert_eq!(calculate_fee_from_basis_points(10_000, 250), Ok(250));
    assert_eq!(calculate_fee_from_basis_points(9_999, 1), Ok(0));
    assert_eq!(calculate_fee_from_basis_points(u128::MAX, 2), Err(ErrorCodes::NumericalOverflow));
}

#[test]
fn loan_interest_for_a_year() {
    assert_eq!(calculate_loan_repayment_fee(1_000_000_000, 1_000, SECONDS_PER_YEAR as i64, false), Ok(100_000_000));
    assert_eq!(calculate_loan_repayment_fee(1_000_000_000, 1_000, SECONDS_PER_YEAR as i64, true), Ok(150_000_000));
    assert_eq!(calculate_loan_repayment_fee(1_000_000_000, 1_000, (SECONDS_PER_YEAR / 2) as i64, false), Ok(50_000_000));
    assert_eq!(calculate_loan_repayment_fee(u64::MAX, 10_000, 2, false), Err(ErrorCodes::NumericalOverflow));
}

#[test]
fn rental_payment_adds_creator_fee() {
    let mut r = rental(1_000, 500);
    assert_eq!(process_payment_to_rental_escrow(&mut r, 3), Ok(3_150));
    assert_eq!(r.escrow_balance, 3_010);
    let mut big = rental(u64::MAX, 0);
    assert_eq!(process_payment_to_rental_escrow(&mut big, 2), Err(ErrorCodes::NumericalOverflow));
    assert_eq!(big.escrow_balance, 10);
}

#[test]
fn programmable_nfts_are_locked_to_the_token_manager() {
    let tm = Pubkey { w0: 5, w1: 0, w2: 0, w3: 0 };
    let mut metadata = Metadata {
        mint: Pubkey::zero(),
        seller_fee_basis_points: 0,
        creators: None,
        collection: None,
        programmable: true,
    };
    assert_eq!(delegate_args(&metadata, tm), DelegateArgs::LockedTransferV1 { amount: 1, locked_address: tm });
    metadata.programmable = false;
    assert_eq!(delegate_args(&metadata, tm), DelegateArgs::StandardV1 { amount: 1 });
}

use onda::compression::state::metaplex_adapter::Creator;
use onda::listings::utils::{get_creator_fees, settle_rental_escrow_balance, CreatorFee};
use onda::metadata::find_metadata_account;

fn addr(n: u64) -> Pubkey {
    Pubkey { w0: n, w1: 17, w2: 0, w3: 0 }
}

fn royalty_metadata(mint: Pubkey) -> Metadata {
    Metadata {
        mint,
        seller_fee_basis_points: 500,
        creators: Some(vec![
            Creator { address: addr(1), verified: true, share: 60 },
            Creator { address: addr(2), verified: false, share: 40 },
        ]),
        collection: None,
        programmable: false,
    }
}

#[test]
fn creator_fees_split_by_share() {
    let mint = addr(50);
    let metadata = royalty_metadata(mint);
    let (pda, _) = find_metadata_account(&mint).unwrap();
    let (fees, rest) = get_creator_fees(10_000, 500, &mint, &metadata, &pda, false, &[addr(1), addr(2)]).unwrap();
    assert_eq!(fees, vec![CreatorFee { amount: 300, address: addr(1) }, CreatorFee { amount: 200, address: addr(2) }]);
    assert_eq!(rest, 9_500);
    let total: u64 = fees.iter().map(|f| f.amount).sum::<u64>() + rest;
    assert_eq!(total, 10_000);
}

#[test]
fn creator_fee_errors() {
    let mint = addr(50);
    let metadata = royalty_metadata(mint);
    let (pda, _) = find_metadata_account(&mint).unwrap();
    assert_eq!(
        get_creator_fees(10_000, 500, &mint, &metadata, &pda, false, &[addr(2), addr(1)]).err(),
        Some(ErrorCodes::RequireKeysEqViolated)
    );
    assert_eq!(
        get_creator_fees(10_000, 500, &mint, &metadata, &pda, false, &[addr(1)]).err(),
        Some(ErrorCodes::NotEnoughAccountKeys)
    );
    assert_eq!(
        get_creator_fees(10_000, 500, &mint, &metadata, &addr(9), false, &[addr(1), addr(2)]).err(),
        Some(ErrorCodes::DerivedKeyInvalid)
    );
    assert_eq!(
        get_creator_fees(10_000, 500, &mint, &metadata, &pda, true, &[addr(1), addr(2)]).err(),
        Some(ErrorCodes::MetadataDoesntExist)
    );
    assert_eq!(
        get_creator_fees(10_000, 500, &addr(51), &metadata, &pda, false, &[addr(1), addr(2)]).err(),
        Some(ErrorCodes::InvalidMint)
    );
}

#[test]
fn rental_settlement_empties_escrow() {
    let mint = addr(50);
    let metadata = royalty_metadata(mint);
    let (pda, _) = find_metadata_account(&mint).unwrap();
    let mut r = rental(1_000, 1_000);
    r.lender = addr(7);
    r.borrower = Some(addr(8));
    r.current_start = Some(0);
    r.current_expiry = Some(100);
    r.escrow_balance = 5_000;
    let s = settle_rental_escrow_balance(&mut r, addr(7), 2_000, &mint, &metadata, &pda, false, &[addr(1), addr(2), addr(8)], 40)
        .unwrap();
    let fees: u64 = s.withdrawal.creator_fees.iter().map(|f| f.amount).sum();
    assert_eq!(fees, 200);
    assert_eq!(s.withdrawal.lender_amount, 1_800);
    assert_eq!(s.withdrawal.remaining, 3_000);
    assert_eq!(s.refund, Some(CreatorFee { amount: 3_000, address: addr(8) }));
    assert_eq!(r.escrow_balance, 0);
}

use onda::listings::processor::loan::handle_repossess;
use onda::listings::state::loan::{Loan, LoanState};
use onda::listings::state::token_manager::{AccountState, TokenManager};

fn active_loan(borrower: Pubkey, lender: Pubkey) -> Loan {
    Loan {
        state: LoanState::Active,
        borrower,
        lender: Some(lender),
        amount: Some(1_000),
        basis_points: 1_000,
        creator_basis_points: 0,
        outstanding: 1_000,
        threshold: None,
        installments: 1,
        current_installment: 0,
        notice_issued: None,
        duration: 100,
        start_date: Some(1_000),
        mint: addr(50),
        token_mint: None,
        bump: 0,
    }
}

#[test]
fn repossession_waits_for_the_loan_to_end() {
    let (borrower, lender) = (addr(8), addr(7));
    let mut loan = active_loan(borrower, lender);
    let mut tm = TokenManager {
        accounts: AccountState { loan: true, call_option: false, rental: false },
        authority: Some(borrower),
        bump: 1,
    };
    assert_eq!(handle_repossess(&mut loan, &mut tm, borrower, lender, 1_099), Err(ErrorCodes::NotOverdue));
    assert_eq!(loan.state, LoanState::Active);
    assert_eq!(handle_repossess(&mut loan, &mut tm, lender, lender, 1_100), Err(ErrorCodes::ConstraintHasOne));
    assert_eq!(handle_repossess(&mut loan, &mut tm, borrower, addr(99), 1_100), Err(ErrorCodes::ConstraintRaw));
    assert_eq!(tm.authority, Some(borrower));
    let mut other_tm = TokenManager { authority: Some(addr(98)), ..tm };
    assert_eq!(handle_repossess(&mut loan, &mut other_tm, borrower, lender, 1_100), Err(ErrorCodes::Unauthorized));
    assert_eq!(handle_repossess(&mut loan, &mut tm, borrower, lender, 1_100), Ok(()));
    assert_eq!(loan.state, LoanState::Defaulted);
    assert_eq!(tm.authority, Some(lender));
    assert!(!tm.accounts.loan);
    assert_eq!(handle_repossess(&mut loan, &mut tm, borrower, lender, 1_200), Err(ErrorCodes::ConstraintRaw));
}

use onda::listings::processor::rental::{handle_extend_rental, handle_take_rental, Royalties};

#[test]
fn extension_may_not_pass_expiry() {
    let mut r = rental(100, 0);
    r.state = RentalState::Rented;
    r.borrower = Some(addr(8));
    r.current_start = Some(0);
    r.current_expiry = Some(86_400);
    r.expiry = 3 * 86_400;
    assert_eq!(handle_extend_rental(&mut r, addr(8), 3), Err(ErrorCodes::InvalidExpiry));
    assert_eq!(r.current_expiry, Some(86_400));
    assert_eq!(r.escrow_balance, 10);
    assert_eq!(handle_extend_rental(&mut r, addr(8), 2), Ok(200));
    assert_eq!(r.current_expiry, Some(3 * 86_400));
    assert_eq!(r.escrow_balance, 210);
}

#[test]
fn taking_a_rental_with_empty_escrow_ignores_withdrawal() {
    let mint = addr(50);
    let metadata = royalty_metadata(mint);
    let (pda, _) = find_metadata_account(&mint).unwrap();
    let mut r = rental(100, 0);
    r.lender = addr(7);
    r.escrow_balance = 0;
    r.expiry = 10 * 86_400;
    let royalties = Royalties {
        mint,
        metadata: &metadata,
        metadata_address: pda,
        metadata_is_empty: false,
        remaining_accounts: &[],
    };
    let t = handle_take_rental(&mut r, addr(8), addr(7), 2, None, 999, royalties, 0).unwrap();
    assert!(t.withdrawal.is_none());
    assert_eq!(t.payment, Some(200));
    assert_eq!(r.state, RentalState::Rented);
    assert_eq!(r.borrower, Some(addr(8)));
    assert_eq!(r.escrow_balance, 200);
}

use onda::listings::processor::call_option::{handle_close_call_option, handle_exercise_call_option, CloseAction};
use onda::listings::state::call_option::{CallOption, CallOptionState};

fn active_option(seller: Pubkey, buyer: Pubkey, mint: Pubkey) -> CallOption {
    CallOption {
        state: CallOptionState::Active,
        amount: 10,
        creator_basis_points: 0,
        seller,
        buyer: Some(buyer),
        expiry: 1_000,
        strike_price: 10_000,
        mint,
        bump: 0,
    }
}

#[test]
fn only_the_recorded_buyer_exercises() {
    let (seller, buyer, mint) = (addr(7), addr(8), addr(50));
    let metadata = royalty_metadata(mint);
    let (pda, _) = find_metadata_account(&mint).unwrap();
    let mut option = active_option(seller, buyer, mint);
    let mut tm = TokenManager {
        accounts: AccountState { loan: false, call_option: true, rental: false },
        authority: Some(seller),
        bump: 0,
    };
    let accounts = [addr(1), addr(2)];
    let r = handle_exercise_call_option(&mut option, &mut tm, addr(9), seller, 500, &mint, &metadata, &pda, false, &accounts);
    assert_eq!(r.err(), Some(ErrorCodes::ConstraintRaw));
    assert_eq!(tm.authority, Some(seller));
    let r = handle_exercise_call_option(&mut option, &mut tm, buyer, addr(9), 500, &mint, &metadata, &pda, false, &accounts);
    assert_eq!(r.err(), Some(ErrorCodes::ConstraintHasOne));
    let x = handle_exercise_call_option(&mut option, &mut tm, buyer, seller, 500, &mint, &metadata, &pda, false, &accounts)
        .unwrap();
    assert_eq!(x.seller_amount, 9_500);
    assert_eq!(option.state, CallOptionState::Exercised);
    assert_eq!(tm.authority, Some(buyer));
}

#[test]
fn only_the_recorded_seller_closes() {
    let (seller, mint) = (addr(7), addr(50));
    let option = active_option(seller, addr(8), mint);
    let mut tm = TokenManager {
        accounts: AccountState { loan: false, call_option: true, rental: false },
        authority: Some(addr(9)),
        bump: 0,
    };
    assert_eq!(handle_close_call_option(&option, &mut tm, addr(9), 2_000), Err(ErrorCodes::ConstraintHasOne));
    assert!(tm.accounts.call_option);
    tm.authority = Some(seller);
    assert_eq!(handle_close_call_option(&option, &mut tm, seller, 500), Err(ErrorCodes::OptionNotExpired));
    assert_eq!(handle_close_call_option(&option, &mut tm, seller, 2_000), Ok(CloseAction::ThawRevokeAndClose));
    assert!(!tm.accounts.call_option);
}

use onda::listings::processor::loan::{handle_take_loan_offer, ListedNft};
use onda::listings::state::collection::{Collection, Config};
use onda::listings::state::loan::LoanOffer;

#[test]
fn offer_must_be_the_lenders() {
    let mint = addr(50);
    let metadata = royalty_metadata(mint);
    let config = Config {
        loan_enabled: true,
        loan_basis_points: 0,
        option_enabled: true,
        option_basis_points: 0,
        rental_enabled: true,
        rental_basis_points: 0,
    };
    let collection = Collection { authority: addr(1), mint: addr(60), config, reserved: [0u8; 64], bump: 0 };
    let nft = ListedNft { mint, metadata: &metadata, collection, collection_address: addr(61), program_id: addr(62) };
    let offer = LoanOffer {
        id: 0,
        lender: addr(7),
        amount: Some(1_000),
        basis_points: 500,
        duration: 100,
        collection: addr(60),
        ltv: None,
        threshold: None,
        bump: 0,
        escrow_bump: 0,
    };
    let mut loan = active_loan(addr(8), addr(7));
    loan.state = LoanState::Unlisted;
    let before = loan;
    let mut tm = TokenManager { accounts: AccountState { loan: false, call_option: false, rental: false }, authority: None, bump: 0 };
    assert_eq!(
        handle_take_loan_offer(&mut loan, &mut tm, &offer, addr(8), addr(9), nft, 0, 0, 0),
        Err(ErrorCodes::ConstraintSeeds)
    );
    assert_eq!(loan, before);
    assert_eq!(tm.authority, None);
}
