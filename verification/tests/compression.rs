use onda::compression::error::OndaSocialError;
use onda::compression::state::metaplex_adapter::{Collection, MetadataArgs, TokenProgramVersion};
use onda::compression::state::{DataV1, ForumConfig, Gate, OperationResult, Operator, Rule};
use onda::compression::{
    add_entry, add_entry_with_compressed_nft, delete_entry, evaluate_operations, gate_operation,
    gate_operations, get_entry_id, NewEntry, init_forum, is_valid_nft, is_valid_token, is_valid_url, set_admin,
    user_owns_nft, validate_flair, validate_post_schema, GateAccounts, MetadataAccount, SignerAccount,
    TokenAccount, MAX_TITLE_LEN, MAX_URI_LEN,
};
use onda::metadata::{find_metadata_account, Metadata};
use onda::pubkey::Pubkey;

fn key(n: u64) -> Pubkey {
    Pubkey { w0: n, w1: 7, w2: 11, w3: 13 }
}

fn forum(admin: Pubkey, gate: Vec<Gate>) -> ForumConfig {
    ForumConfig {
        admin,
        total_capacity: 1024,
        post_count: 0,
        flair: vec!["News".to_string(), "Meme".to_string()],
        gate,
    }
}

fn text_post(uri: &str, flair: Option<&str>) -> DataV1 {
    DataV1::TextPost {
        title: "Hello".to_string(),
        uri: uri.to_string(),
        flair: flair.map(|f| f.to_string()),
        nsfw: false,
        spoiler: false,
    }
}

fn tree() -> Pubkey {
    key(42)
}

fn nonce(r: Result<NewEntry, OndaSocialError>) -> Result<u64, OndaSocialError> {
    r.map(|e| e.nonce)
}

fn no_accounts() -> GateAccounts {
    GateAccounts { mint: None, metadata: None, token_account: None, additional_signer: None }
}

fn op(operator: Operator, result: bool) -> OperationResult {
    OperationResult { operator, result }
}

fn metadata_args(collection: Option<Collection>) -> MetadataArgs {
    MetadataArgs {
        name: "Onda".to_string(),
        symbol: "ONDA".to_string(),
        uri: "https://example.com/nft.json".to_string(),
        seller_fee_basis_points: 0,
        primary_sale_happened: false,
        is_mutable: true,
        edition_nonce: None,
        token_standard: None,
        collection,
        uses: None,
        token_program_version: TokenProgramVersion::Original,
        creators: vec![],
    }
}

#[test]
fn url_validation_follows_the_url_parser() {
    assert!(is_valid_url("https://onda.xyz/post/1"));
    assert!(is_valid_url("ar://abcdef"));
    assert!(!is_valid_url("not a url"));
    assert!(!is_valid_url(""));
}

#[test]
fn post_schema_checks_uri_then_title() {
    assert_eq!(validate_post_schema("Title", "https://example.com/a"), Ok(true));
    assert_eq!(validate_post_schema("Title", "example"), Err(OndaSocialError::InvalidUri));
    let long_uri = format!("https://example.com/{}", "a".repeat(MAX_URI_LEN));
    assert_eq!(validate_post_schema("Title", &long_uri), Err(OndaSocialError::InvalidUri));
    let exact_uri = format!("https://e.com/{}", "a".repeat(MAX_URI_LEN - 14));
    assert_eq!(exact_uri.len(), MAX_URI_LEN);
    assert_eq!(validate_post_schema("Title", &exact_uri), Ok(true));
    let title = "t".repeat(MAX_TITLE_LEN);
    assert_eq!(validate_post_schema(&title, "https://example.com"), Ok(true));
    let long_title = "t".repeat(MAX_TITLE_LEN + 1);
    assert_eq!(validate_post_schema(&long_title, "https://example.com"), Err(OndaSocialError::TitleTooLong));
    assert_eq!(validate_post_schema(&long_title, "bad"), Err(OndaSocialError::InvalidUri));
}

#[test]
fn flair_must_be_listed_and_short() {
    let config = forum(key(1), vec![]);
    assert_eq!(validate_flair(&config, &None), Ok(true));
    assert_eq!(validate_flair(&config, &Some("News".to_string())), Ok(true));
    assert_eq!(validate_flair(&config, &Some("Other".to_string())), Err(OndaSocialError::InvalidFlair));
    assert_eq!(validate_flair(&config, &Some("x".repeat(43))), Err(OndaSocialError::FlairTooLong));
}

#[test]
fn operations_without_gates_allow() {
    assert!(evaluate_operations(vec![]));
}

#[test]
fn operations_need_a_passed_or() {
    assert!(evaluate_operations(vec![op(Operator::Or, true)]));
    assert!(!evaluate_operations(vec![op(Operator::Or, false)]));
    assert!(!evaluate_operations(vec![op(Operator::And, true)]));
    assert!(!evaluate_operations(vec![op(Operator::And, true), op(Operator::And, true)]));
    assert!(evaluate_operations(vec![op(Operator::Or, false), op(Operator::Or, true)]));
}

#[test]
fn operations_and_after_or_must_pass() {
    assert!(!evaluate_operations(vec![op(Operator::Or, true), op(Operator::And, false)]));
    assert!(evaluate_operations(vec![op(Operator::Or, true), op(Operator::And, true)]));
    assert!(evaluate_operations(vec![op(Operator::And, false), op(Operator::Or, true)]));
    assert!(evaluate_operations(vec![op(Operator::Or, true), op(Operator::And, false), op(Operator::Or, true)]));
}

#[test]
fn operations_failed_not_denies() {
    assert!(!evaluate_operations(vec![op(Operator::Or, true), op(Operator::Not, false)]));
    assert!(!evaluate_operations(vec![op(Operator::Not, false), op(Operator::Or, true)]));
    assert!(evaluate_operations(vec![op(Operator::Or, true), op(Operator::Not, true)]));
    assert!(!evaluate_operations(vec![op(Operator::Not, true)]));
}

#[test]
fn token_check_limits_balance() {
    let author = key(1);
    let mint = key(50);
    let ta = TokenAccount { mint, owner: author, amount: 1 };
    assert!(is_valid_token(&mint, &author, &mint, &ta, 1));
    assert!(!is_valid_token(&key(51), &author, &mint, &ta, 1));
    assert!(!is_valid_token(&mint, &key(2), &mint, &ta, 1));
    let empty = TokenAccount { mint, owner: author, amount: 0 };
    assert!(!is_valid_token(&mint, &author, &mint, &empty, 1));
    let many = TokenAccount { mint, owner: author, amount: 5 };
    assert!(!is_valid_token(&mint, &author, &mint, &many, 4));
    assert!(is_valid_token(&mint, &author, &mint, &many, 5));
}

#[test]
fn token_gate_outcome() {
    let author = key(1);
    let mint = key(50);
    let gate = Gate { amount: 10, rule_type: Rule::Token, operator: Operator::Or, address: vec![key(49), mint] };
    let accounts = GateAccounts {
        mint: Some(mint),
        metadata: None,
        token_account: Some(TokenAccount { mint, owner: author, amount: 3 }),
        additional_signer: None,
    };
    assert_eq!(gate_operation(&gate, &author, &accounts), op(Operator::Or, true));
    assert_eq!(gate_operation(&gate, &author, &no_accounts()), op(Operator::Or, false));
    assert_eq!(gate_operation(&gate, &key(2), &accounts), op(Operator::Or, false));
}

fn nft_accounts(author: Pubkey, mint: Pubkey, collection: Pubkey, verified: bool) -> GateAccounts {
    let (pda, _) = find_metadata_account(&mint).unwrap();
    let metadata = Metadata {
        mint,
        seller_fee_basis_points: 0,
        creators: None,
        collection: Some(Collection { verified, key: collection }),
        programmable: false,
    };
    GateAccounts {
        mint: Some(mint),
        metadata: Some(MetadataAccount { key: pda, metadata }),
        token_account: Some(TokenAccount { mint, owner: author, amount: 1 }),
        additional_signer: None,
    }
}

#[test]
fn nft_check_needs_derived_metadata_and_verified_collection() {
    let mint = key(60);
    let collection = key(70);
    let accounts = nft_accounts(key(1), mint, collection, true);
    let metadata = accounts.metadata.clone().unwrap();
    assert!(is_valid_nft(&collection, &mint, &metadata));
    assert!(!is_valid_nft(&key(71), &mint, &metadata));
    let unverified = nft_accounts(key(1), mint, collection, false).metadata.unwrap();
    assert!(!is_valid_nft(&collection, &mint, &unverified));
    let elsewhere = MetadataAccount { key: key(99), metadata: metadata.metadata.clone() };
    assert!(!is_valid_nft(&collection, &mint, &elsewhere));
}

#[test]
fn nft_gate_scans_token_check_first() {
    let author = key(1);
    let mint = key(60);
    let collection = key(70);
    let accounts = nft_accounts(author, mint, collection, true);
    // The token check compares the listed address with the mint, so the mint
    // itself must be listed before any collection.
    let gate = Gate { amount: 1, rule_type: Rule::Nft, operator: Operator::Or, address: vec![collection] };
    assert_eq!(gate_operation(&gate, &author, &accounts), op(Operator::Or, false));
    let own = nft_accounts(author, mint, mint, true);
    let gate = Gate { amount: 1, rule_type: Rule::Nft, operator: Operator::Or, address: vec![mint] };
    assert_eq!(gate_operation(&gate, &author, &own), op(Operator::Or, true));
    assert_eq!(gate_operation(&gate, &key(2), &own), op(Operator::Or, false));
}

#[test]
fn metadata_address_matches_solana_derivation() {
    let mint = key(60);
    let (pda, _bump) = find_metadata_account(&mint).unwrap();
    let program = solana_program::pubkey::Pubkey::new_from_array(
        onda::metadata::token_metadata_program_id().to_array(),
    );
    let (expected, _) = solana_program::pubkey::Pubkey::find_program_address(
        &[b"metadata", program.as_ref(), &mint.to_array()],
        &program,
    );
    assert_eq!(pda.to_array(), expected.to_bytes());
    assert_ne!(pda, mint);
}

#[test]
fn user_owns_exactly_one_token() {
    let user = key(1);
    let mint = key(60);
    let (pda, _) = find_metadata_account(&mint).unwrap();
    let ta = TokenAccount { mint, owner: user, amount: 1 };
    assert!(user_owns_nft(&user, &mint, &pda, &ta));
    assert!(!user_owns_nft(&user, &mint, &key(5), &ta));
    assert!(!user_owns_nft(&key(2), &mint, &pda, &ta));
    let two = TokenAccount { mint, owner: user, amount: 2 };
    assert!(!user_owns_nft(&user, &mint, &pda, &two));
}

#[test]
fn signer_gate_outcome() {
    let extra = key(77);
    let gate = Gate { amount: 0, rule_type: Rule::AdditionalSigner, operator: Operator::Or, address: vec![key(3), extra] };
    let signed = GateAccounts {
        mint: None,
        metadata: None,
        token_account: None,
        additional_signer: Some(SignerAccount { key: extra, is_signer: true }),
    };
    assert_eq!(gate_operation(&gate, &key(1), &signed), op(Operator::Or, true));
    let unsigned = GateAccounts {
        additional_signer: Some(SignerAccount { key: extra, is_signer: false }),
        ..signed.clone()
    };
    assert_eq!(gate_operation(&gate, &key(1), &unsigned), op(Operator::Or, false));
    let not_gate = Gate { operator: Operator::Not, ..gate.clone() };
    assert_eq!(gate_operation(&not_gate, &key(1), &signed), op(Operator::Not, false));
    let cnft = Gate { rule_type: Rule::CompressedNft, ..gate };
    assert_eq!(gate_operation(&cnft, &key(1), &signed), op(Operator::Or, false));
}

#[test]
fn gate_outcomes_in_order() {
    let gates = vec![
        Gate { amount: 0, rule_type: Rule::CompressedNft, operator: Operator::And, address: vec![] },
        Gate { amount: 0, rule_type: Rule::Token, operator: Operator::Not, address: vec![] },
    ];
    let ops = gate_operations(&gates, &key(1), &no_accounts());
    assert_eq!(ops, vec![op(Operator::And, false), op(Operator::Not, false)]);
}

#[test]
fn add_entry_counts_posts() {
    let author = key(1);
    let mut config = forum(key(9), vec![]);
    let data = text_post("https://example.com/1", Some("News"));
    assert_eq!(nonce(add_entry(&mut config, tree(), author, author, None, &data, &no_accounts())), Ok(0));
    assert_eq!(config.post_count, 1);
    assert_eq!(nonce(add_entry(&mut config, tree(), author, author, None, &data, &no_accounts())), Ok(1));
    assert_eq!(config.post_count, 2);
}

#[test]
fn add_entry_authorization() {
    let author = key(1);
    let mut config = forum(key(9), vec![]);
    let data = text_post("https://example.com/1", None);
    assert_eq!(
        nonce(add_entry(&mut config, tree(), author, key(2), None, &data, &no_accounts())),
        Err(OndaSocialError::Unauthorized)
    );
    assert_eq!(
        nonce(add_entry(&mut config, tree(), author, key(2), Some(false), &data, &no_accounts())),
        Err(OndaSocialError::InvalidSessionToken)
    );
    assert_eq!(config.post_count, 0);
    assert_eq!(nonce(add_entry(&mut config, tree(), author, key(2), Some(true), &data, &no_accounts())), Ok(0));
}

#[test]
fn add_entry_rejects_faulty_entries() {
    let author = key(1);
    let mut config = forum(key(9), vec![]);
    let bad = text_post("nope", None);
    assert_eq!(nonce(add_entry(&mut config, tree(), author, author, None, &bad, &no_accounts())), Err(OndaSocialError::InvalidUri));
    let bad_flair = text_post("https://example.com", Some("Other"));
    assert_eq!(
        nonce(add_entry(&mut config, tree(), author, author, None, &bad_flair, &no_accounts())),
        Err(OndaSocialError::InvalidFlair)
    );
    let comment = DataV1::Comment { post: key(5), parent: None, uri: "bad uri".to_string() };
    assert_eq!(nonce(add_entry(&mut config, tree(), author, author, None, &comment, &no_accounts())), Err(OndaSocialError::InvalidUri));
    assert_eq!(config.post_count, 0);
    let good_comment = DataV1::Comment { post: key(5), parent: Some(key(6)), uri: "https://example.com/c".to_string() };
    assert_eq!(nonce(add_entry(&mut config, tree(), author, author, None, &good_comment, &no_accounts())), Ok(0));
}

#[test]
fn add_entry_applies_gates() {
    let author = key(1);
    let extra = key(77);
    let gate = Gate { amount: 0, rule_type: Rule::AdditionalSigner, operator: Operator::Or, address: vec![extra] };
    let mut config = forum(key(9), vec![gate]);
    let data = text_post("https://example.com/1", None);
    assert_eq!(nonce(add_entry(&mut config, tree(), author, author, None, &data, &no_accounts())), Err(OndaSocialError::Unauthorized));
    let signed = GateAccounts {
        mint: None,
        metadata: None,
        token_account: None,
        additional_signer: Some(SignerAccount { key: extra, is_signer: true }),
    };
    assert_eq!(nonce(add_entry(&mut config, tree(), author, author, None, &data, &signed)), Ok(0));
}

#[test]
fn compressed_nft_entries() {
    let collection = key(70);
    let gate = Gate { amount: 0, rule_type: Rule::CompressedNft, operator: Operator::Or, address: vec![collection] };
    let mut config = forum(key(9), vec![gate]);
    let data = text_post("https://example.com/1", None);
    assert_eq!(
        nonce(add_entry_with_compressed_nft(&mut config, tree(), &data, &metadata_args(None))),
        Err(OndaSocialError::InvalidCollection)
    );
    let other = metadata_args(Some(Collection { verified: true, key: key(71) }));
    assert_eq!(nonce(add_entry_with_compressed_nft(&mut config, tree(), &data, &other)), Err(OndaSocialError::Unauthorized));
    let member = metadata_args(Some(Collection { verified: false, key: collection }));
    assert_eq!(nonce(add_entry_with_compressed_nft(&mut config, tree(), &data, &member)), Ok(0));
    assert_eq!(config.post_count, 1);
    let bad = text_post("bad", None);
    assert_eq!(nonce(add_entry_with_compressed_nft(&mut config, tree(), &bad, &member)), Err(OndaSocialError::InvalidUri));
}

#[test]
fn delete_by_author_or_admin() {
    let config = forum(key(9), vec![]);
    assert_eq!(delete_entry(&config, key(1), key(1)), Ok(()));
    assert_eq!(delete_entry(&config, key(9), key(1)), Ok(()));
    assert_eq!(delete_entry(&config, key(2), key(1)), Err(OndaSocialError::Unauthorized));
}

#[test]
fn new_forum_capacity() {
    let config = init_forum(key(1), 14, vec![], None);
    assert_eq!(config.total_capacity, 16384);
    assert_eq!(config.post_count, 0);
    assert_eq!(config.admin, key(1));
    assert!(config.gate.is_empty());
    let config = init_forum(key(1), 0, vec!["a".to_string()], Some(vec![]));
    assert_eq!(config.total_capacity, 1);
    assert_eq!(config.flair.len(), 1);
}

#[test]
fn admin_hands_over_forum() {
    let mut config = forum(key(9), vec![]);
    assert_eq!(set_admin(&mut config, key(2), key(3)), Err(OndaSocialError::Unauthorized));
    assert_eq!(config.admin, key(9));
    assert_eq!(set_admin(&mut config, key(9), key(3)), Ok(()));
    assert_eq!(config.admin, key(3));
}

#[test]
fn post_count_stops_at_max() {
    let mut config = forum(key(9), vec![]);
    config.post_count = u64::MAX;
    config.increment_post_count();
    assert_eq!(config.post_count, u64::MAX);
}

#[test]
fn entry_ids_derive_from_tree_and_nonce() {
    let tree = key(42);
    let id0 = get_entry_id(&tree, 0).unwrap();
    let id1 = get_entry_id(&tree, 1).unwrap();
    assert_ne!(id0, id1);
    assert_ne!(id0, tree);
    let program = solana_program::pubkey::Pubkey::new_from_array(onda::compression::program_id().to_array());
    assert_eq!(program.to_string(), "ondaTPaRbk5xRJiqje7DS8n6nFu7Hg6jvKthXNemsHg");
    let (expected, _) = solana_program::pubkey::Pubkey::find_program_address(
        &[b"entry", &tree.to_array(), &1u64.to_le_bytes()],
        &program,
    );
    assert_eq!(id1.to_array(), expected.to_bytes());
}

#[test]
fn admitted_entries_carry_id_and_data_hash() {
    let author = key(1);
    let mut config = forum(key(9), vec![]);
    config.post_count = 5;
    let data = DataV1::TextPost {
        title: "Hi".to_string(),
        uri: "https://e.com".to_string(),
        flair: Some("News".to_string()),
        nsfw: true,
        spoiler: false,
    };
    let entry = add_entry(&mut config, tree(), author, author, None, &data, &no_accounts()).unwrap();
    assert_eq!(entry.nonce, 5);
    assert_eq!(entry.entry_id, get_entry_id(&tree(), 5));
    let mut bytes = vec![0u8];
    for s in ["Hi", "https://e.com"] {
        bytes.extend_from_slice(&(s.len() as u32).to_le_bytes());
        bytes.extend_from_slice(s.as_bytes());
    }
    bytes.push(1);
    bytes.extend_from_slice(&4u32.to_le_bytes());
    bytes.extend_from_slice(b"News");
    bytes.extend_from_slice(&[1, 0]);
    #[allow(deprecated)]
    let expected = solana_program::keccak::hash(&bytes).to_bytes();
    assert_eq!(entry.data_hash, expected);
    let comment = DataV1::Comment { post: key(3), parent: None, uri: "https://e.com/c".to_string() };
    let entry = add_entry(&mut config, tree(), author, author, None, &comment, &no_accounts()).unwrap();
    assert_eq!(entry.nonce, 6);
    let mut bytes = vec![4u8];
    bytes.extend_from_slice(&key(3).to_array());
    bytes.push(0);
    bytes.extend_from_slice(&15u32.to_le_bytes());
    bytes.extend_from_slice(b"https://e.com/c");
    #[allow(deprecated)]
    let expected = solana_program::keccak::hash(&bytes).to_bytes();
    assert_eq!(entry.data_hash, expected);
    assert_ne!(entry.entry_id, get_entry_id(&tree(), 5));
}
