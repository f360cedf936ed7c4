use onda::dexloan::state::hire::{Hire, HireState};
use onda::dexloan::utils::{settle_hire_escrow_balance, withdraw_from_escrow_balance};
use onda::listings::error::ErrorCodes;
use onda::pubkey::Pubkey;

fn key(n: u64) -> Pubkey {
    Pubkey { w0: n, w1: 0, w2: 0, w3: 0 }
}

fn hire(escrow_balance: u64) -> Hire {
    Hire {
        state: HireState::Hired,
        amount: 100,
        borrower: Some(key(2)),
        lender: key(1),
        current_expiry: Some(200),
        expiry: 1_000,
        mint: key(9),
        bump: 0,
        current_start: Some(100),
        escrow_balance,
    }
}

#[test]
fn hire_escrow_before_end_pays_nothing() {
    assert_eq!(withdraw_from_escrow_balance(&hire(500), key(1), 150), Ok((0, 500)));
    assert_eq!(withdraw_from_escrow_balance(&hire(500), key(2), 150), Err(ErrorCodes::RequireKeysEqViolated));
}

#[test]
fn hire_escrow_after_end_pays_all() {
    assert_eq!(withdraw_from_escrow_balance(&hire(500), key(1), 200), Ok((500, 0)));
    assert_eq!(settle_hire_escrow_balance(&hire(500), key(2), key(1), 250), Ok((500, 0)));
    assert_eq!(settle_hire_escrow_balance(&hire(500), key(3), key(1), 250), Err(ErrorCodes::RequireKeysEqViolated));
}

use onda::compression::state::metaplex_adapter::Creator;
use onda::dexloan::processor::hire::handle_take_hire;
use onda::listings::utils::CreatorFee;
use onda::metadata::{find_metadata_account, Metadata};

#[test]
fn taking_a_paid_hire_pays_royalties_and_lender() {
    let mint = key(9);
    let metadata = Metadata {
        mint,
        seller_fee_basis_points: 500,
        creators: Some(vec![
            Creator { address: key(20), verified: true, share: 60 },
            Creator { address: key(21), verified: true, share: 40 },
        ]),
        collection: None,
        programmable: false,
    };
    let (pda, _) = find_metadata_account(&mint).unwrap();
    let mut h = Hire { borrower: None, current_expiry: None, current_start: None, state: HireState::Listed, ..hire(0) };
    h.amount = 1_000;
    h.expiry = 1_000_000;
    let payment = handle_take_hire(&mut h, key(2), 3, 100, &mint, &metadata, &pda, false, &[key(20), key(21)])
        .unwrap()
        .unwrap();
    assert_eq!(
        payment.creator_fees,
        vec![CreatorFee { amount: 90, address: key(20) }, CreatorFee { amount: 60, address: key(21) }]
    );
    assert_eq!(payment.lender_amount, 2_850);
    let paid: u64 = payment.creator_fees.iter().map(|f| f.amount).sum();
    assert_eq!(paid + payment.lender_amount, 3 * 1_000);
    assert_eq!(h.state, HireState::Hired);
    assert_eq!(h.borrower, Some(key(2)));
    assert_eq!(h.current_expiry, Some(100 + 3 * 86_400));
}

#[test]
fn hire_cannot_run_past_expiry() {
    let mint = key(9);
    let metadata = Metadata { mint, seller_fee_basis_points: 0, creators: None, collection: None, programmable: false };
    let (pda, _) = find_metadata_account(&mint).unwrap();
    let mut h = Hire { borrower: None, state: HireState::Listed, ..hire(0) };
    h.expiry = 86_400;
    assert_eq!(
        handle_take_hire(&mut h, key(2), 2, 0, &mint, &metadata, &pda, false, &[]).err(),
        Some(ErrorCodes::InvalidExpiry)
    );
    assert_eq!(h.state, HireState::Listed);
}
