use onda::metadata::token_metadata_program_id;
use onda::pubkey::Pubkey;

#[test]
fn bytes_round_trip() {
    let mut bytes = [0u8; 32];
    for (i, b) in bytes.iter_mut().enumerate() {
        *b = (i as u8).wrapping_mul(37).wrapping_add(5);
    }
    let key = Pubkey::from_bytes(&bytes);
    assert_eq!(key.to_array(), bytes);
    assert_eq!(key.to_bytes(), bytes.to_vec());
    assert_eq!(key.w0, u64::from_le_bytes(bytes[0..8].try_into().unwrap()));
    assert_eq!(key.w3, u64::from_le_bytes(bytes[24..32].try_into().unwrap()));
}

#[test]
fn zero_key_is_system_program() {
    assert_eq!(Pubkey::zero().to_array(), [0u8; 32]);
    assert_eq!(
        solana_program::pubkey::Pubkey::new_from_array(Pubkey::zero().to_array()).to_string(),
        "11111111111111111111111111111111"
    );
}

#[test]
fn token_metadata_program_address() {
    let id = solana_program::pubkey::Pubkey::new_from_array(token_metadata_program_id().to_array());
    assert_eq!(id.to_string(), "metaqbxxUerdq28cj1RbAWkYQm3ybzjb6a8bt518x1s");
}
