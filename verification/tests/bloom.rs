use onda::bloom::{
    claim_plankton, feed_plankton, init, plankton_mint, protocol_fee_plankton_ata, Bloom, ClaimMarker, Feeding,
    OndaBloomError, PLANKTON_REWARD,
};
use onda::pubkey::Pubkey;

fn key(n: u64) -> Pubkey {
    Pubkey { w0: n, w1: 1, w2: 2, w3: 3 }
}

fn base58(k: Pubkey) -> String {
    solana_program::pubkey::Pubkey::new_from_array(k.to_array()).to_string()
}

#[test]
fn known_addresses() {
    assert_eq!(base58(plankton_mint()), "pktnre2sUNQZXwHicZj6njpShhSazmzQz5rJtcqnkG5");
    assert_eq!(base58(protocol_fee_plankton_ata()), "EneovF7KrWHBC6QKmoiwC2S6PUFBZnpYcuyUTdD59iYp");
}

#[test]
fn feeding_takes_two_percent() {
    let mut bloom = Bloom { plankton: 0 };
    let r = feed_plankton(&mut bloom, key(1), key(2), key(2), None, protocol_fee_plankton_ata(), plankton_mint(), 1000);
    assert_eq!(r, Ok(Feeding { protocol_fee: 20, to_author: 980 }));
    assert_eq!(bloom.plankton, 1);
    let r = feed_plankton(&mut bloom, key(1), key(2), key(2), None, protocol_fee_plankton_ata(), plankton_mint(), 49);
    assert_eq!(r, Ok(Feeding { protocol_fee: 0, to_author: 49 }));
    assert_eq!(bloom.plankton, 2);
}

#[test]
fn feeding_errors() {
    let mut bloom = Bloom { plankton: 5 };
    let fee = protocol_fee_plankton_ata();
    let mint = plankton_mint();
    assert_eq!(feed_plankton(&mut bloom, key(1), key(1), key(1), None, fee, mint, 10), Err(OndaBloomError::Unauthorized));
    assert_eq!(feed_plankton(&mut bloom, key(1), key(2), key(2), None, key(7), mint, 10), Err(OndaBloomError::ConstraintRaw));
    assert_eq!(feed_plankton(&mut bloom, key(1), key(2), key(2), None, fee, key(7), 10), Err(OndaBloomError::InvalidMint));
    assert_eq!(feed_plankton(&mut bloom, key(1), key(3), key(2), None, fee, mint, 10), Err(OndaBloomError::Unauthorized));
    assert_eq!(feed_plankton(&mut bloom, key(1), key(3), key(2), Some(false), fee, mint, 10), Err(OndaBloomError::InvalidSessionToken));
    assert_eq!(bloom.plankton, 5);
    assert!(feed_plankton(&mut bloom, key(1), key(3), key(2), Some(true), fee, mint, 10).is_ok());
    assert_eq!(bloom.plankton, 6);
}

#[test]
fn plankton_count_saturates() {
    let mut bloom = Bloom { plankton: u64::MAX };
    bloom.increment_plankton_count();
    assert_eq!(bloom.plankton, u64::MAX);
}

#[test]
fn reward_is_claimed_once() {
    let mut marker = None;
    assert_eq!(claim_plankton(key(9), &mut marker), Err(OndaBloomError::InvalidMint));
    assert_eq!(marker, None);
    assert_eq!(claim_plankton(plankton_mint(), &mut marker), Ok(PLANKTON_REWARD));
    assert_eq!(PLANKTON_REWARD, 1000);
    assert_eq!(marker, Some(ClaimMarker { marker: 0 }));
    assert_eq!(claim_plankton(plankton_mint(), &mut marker), Err(OndaBloomError::AlreadyClaimed));
}

#[test]
fn init_checks_mint() {
    assert_eq!(init(plankton_mint()), Ok(()));
    assert_eq!(init(key(1)), Err(OndaBloomError::InvalidMint));
}
