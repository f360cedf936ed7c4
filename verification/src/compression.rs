//! The forum program: entry validation and gating.

pub mod error;
pub mod state;

use vstd::prelude::*;
use vstd::utf8::encode_utf8;
use vstd::arithmetic::power2::pow2;
use crate::compression::error::OndaSocialError;
use crate::compression::state::{DataV1, ForumConfig, Gate, OperationResult, Operator, Rule};
use crate::pubkey::Pubkey;
use crate::pda::{derived_program_address, seeds_view, try_find_program_address};
use crate::compression::state::metaplex_adapter::MetadataArgs;
use crate::metadata::{Metadata, metadata_seeds, spec_token_metadata_program_id, find_metadata_account};

verus! {

pub const MAX_TITLE_LEN: usize = 300;
pub const MAX_URI_LEN: usize = 128;
pub const MAX_FLAIR_LEN: usize = 42;

/// Whether `url::Url::parse` accepts `input`.
pub uninterp spec fn url_parses(input: Seq<char>) -> bool;

/// Calls `url::Url::parse`.  Claimed: it returns `Ok` exactly when
/// `url_parses` holds of the same characters; the parse depends on nothing
/// but its input.
#[verifier::external_body]
fn parse_url(input: &str) -> (r: bool)
    ensures
        r == url_parses(input@),
{
    url::Url::parse(input).is_ok()
}

/// The length in bytes of the UTF-8 text `s`, as `str::len` gives it.
pub open spec fn str_len(s: Seq<char>) -> usize {
    encode_utf8(s).len() as usize
}

/// Whether `input` parses as a URL.
pub fn is_valid_url(input: &str) -> (r: bool)
    ensures
        r == url_parses(input@),
{
    parse_url(input)
}

/// The first fault of a post's title and URI: the URI does not parse or is
/// longer than `MAX_URI_LEN` bytes, or the title is longer than
/// `MAX_TITLE_LEN` bytes.
pub open spec fn post_schema_error(title: Seq<char>, uri: Seq<char>) -> Option<OndaSocialError> {
    if !url_parses(uri) || str_len(uri) > MAX_URI_LEN {
        Some(OndaSocialError::InvalidUri)
    } else if str_len(title) > MAX_TITLE_LEN {
        Some(OndaSocialError::TitleTooLong)
    } else {
        None
    }
}

/// Checks a post's title and URI (see `post_schema_error`).
pub fn validate_post_schema(title: &str, uri: &str) -> (r: Result<bool, OndaSocialError>)
    ensures
        match post_schema_error(title@, uri@) {
            Some(e) => r == Err::<bool, OndaSocialError>(e),
            None => r == Ok::<bool, OndaSocialError>(true),
        },
{
    if !is_valid_url(uri) {
        return Err(OndaSocialError::InvalidUri);
    }
    if uri.len() > MAX_URI_LEN {
        return Err(OndaSocialError::InvalidUri);
    }
    if title.len() > MAX_TITLE_LEN {
        return Err(OndaSocialError::TitleTooLong);
    }
    Ok(true)
}

/// The forum lists the flair `f`.
pub open spec fn flair_listed(config: ForumConfig, f: Seq<char>) -> bool {
    exists|i: int| 0 <= i < config.flair@.len() && (#[trigger] config.flair@[i])@ == f
}

/// The fault of an entry's flair: longer than `MAX_FLAIR_LEN` bytes, or not
/// one the forum lists.  An entry without flair has none.
pub open spec fn flair_error(config: ForumConfig, flair: Option<String>) -> Option<OndaSocialError> {
    match flair {
        None => None,
        Some(f) => if str_len(f@) > MAX_FLAIR_LEN {
            Some(OndaSocialError::FlairTooLong)
        } else if !flair_listed(config, f@) {
            Some(OndaSocialError::InvalidFlair)
        } else {
            None
        },
    }
}

/// Checks an entry's flair against the forum (see `flair_error`).
pub fn validate_flair(config: &ForumConfig, flair: &Option<String>) -> (r: Result<bool, OndaSocialError>)
    ensures
        match flair_error(*config, *flair) {
            Some(e) => r == Err::<bool, OndaSocialError>(e),
            None => r == Ok::<bool, OndaSocialError>(true),
        },
{
    match flair {
        None => Ok(true),
        Some(f) => {
            if f.as_str().len() > MAX_FLAIR_LEN {
                return Err(OndaSocialError::FlairTooLong);
            }
            let mut i: usize = 0;
            while i < config.flair.len()
                invariant
                    0 <= i <= config.flair@.len(),
                    *flair == Some(*f),
                    str_len(f@) <= MAX_FLAIR_LEN,
                    forall|j: int| 0 <= j < i ==> (#[trigger] config.flair@[j])@ != f@,
                decreases config.flair@.len() - i,
            {
                if config.flair[i] == *f {
                    assert(config.flair@[i as int]@ == f@);
                    return Ok(true);
                }
                i = i + 1;
            }
            Err(OndaSocialError::InvalidFlair)
        },
    }
}

/// The first fault of an entry: for a post, its flair and then its title and
/// URI; for a comment, its URI.
pub open spec fn entry_error(config: ForumConfig, data: DataV1) -> Option<OndaSocialError> {
    match data {
        DataV1::TextPost { title, uri, flair, .. } => post_error(config, title, uri, flair),
        DataV1::ImagePost { title, uri, flair, .. } => post_error(config, title, uri, flair),
        DataV1::LinkPost { title, uri, flair, .. } => post_error(config, title, uri, flair),
        DataV1::VideoPost { title, uri, flair, .. } => post_error(config, title, uri, flair),
        DataV1::Comment { uri, .. } => if !url_parses(uri@) || str_len(uri@) > MAX_URI_LEN {
            Some(OndaSocialError::InvalidUri)
        } else {
            None
        },
    }
}

pub open spec fn post_error(config: ForumConfig, title: String, uri: String, flair: Option<String>) -> Option<OndaSocialError> {
    match flair_error(config, flair) {
        Some(e) => Some(e),
        None => post_schema_error(title@, uri@),
    }
}

fn validate_post(config: &ForumConfig, title: &String, uri: &String, flair: &Option<String>) -> (r: Result<(), OndaSocialError>)
    ensures
        match post_error(*config, *title, *uri, *flair) {
            Some(e) => r == Err::<(), OndaSocialError>(e),
            None => r == Ok::<(), OndaSocialError>(()),
        },
{
    match validate_flair(config, flair) {
        Ok(_) => {},
        Err(e) => {
            return Err(e);
        },
    }
    match validate_post_schema(title.as_str(), uri.as_str()) {
        Ok(_) => Ok(()),
        Err(e) => Err(e),
    }
}

/// Checks an entry before it is added to the forum (see `entry_error`).
pub fn validate_entry(config: &ForumConfig, data: &DataV1) -> (r: Result<(), OndaSocialError>)
    ensures
        match entry_error(*config, *data) {
            Some(e) => r == Err::<(), OndaSocialError>(e),
            None => r == Ok::<(), OndaSocialError>(()),
        },
{
    match data {
        DataV1::TextPost { title, uri, flair, .. } => validate_post(config, title, uri, flair),
        DataV1::ImagePost { title, uri, flair, .. } => validate_post(config, title, uri, flair),
        DataV1::LinkPost { title, uri, flair, .. } => validate_post(config, title, uri, flair),
        DataV1::VideoPost { title, uri, flair, .. } => validate_post(config, title, uri, flair),
        DataV1::Comment { uri, .. } => {
            if !is_valid_url(uri.as_str()) {
                return Err(OndaSocialError::InvalidUri);
            }
            if uri.as_str().len() > MAX_URI_LEN {
                return Err(OndaSocialError::InvalidUri);
            }
            Ok(())
        },
    }
}

/// The fields of a token account that gating reads.
#[derive(Clone, Copy, PartialEq, Eq, Structural, Debug)]
pub struct TokenAccount {
    pub mint: Pubkey,
    pub owner: Pubkey,
    pub amount: u64,
}

/// A metadata account: its address and what it holds.
#[derive(Clone, Debug)]
pub struct MetadataAccount {
    pub key: Pubkey,
    pub metadata: Metadata,
}

/// An account passed to the instruction and whether it signed.
#[derive(Clone, Copy, PartialEq, Eq, Structural, Debug)]
pub struct SignerAccount {
    pub key: Pubkey,
    pub is_signer: bool,
}

/// The optional accounts an author passes to meet a forum's gates.
#[derive(Clone, Debug)]
pub struct GateAccounts {
    /// The address of the mint.
    pub mint: Option<Pubkey>,
    pub metadata: Option<MetadataAccount>,
    pub token_account: Option<TokenAccount>,
    pub additional_signer: Option<SignerAccount>,
}

/// `token_account` holds, for `owner`, between one token and `amount`
/// tokens of `mint`, and `mint` is `address`.
pub open spec fn spec_valid_token(address: Pubkey, owner: Pubkey, mint: Pubkey, token_account: TokenAccount, amount: u64) -> bool {
    &&& mint == address
    &&& token_account.mint == mint
    &&& token_account.owner == owner
    &&& token_account.amount >= 1
    &&& token_account.amount <= amount
}

/// Whether the token account meets a token gate on `address` with limit
/// `amount` (see `spec_valid_token`).
pub fn is_valid_token(address: &Pubkey, owner: &Pubkey, mint: &Pubkey, token_account: &TokenAccount, amount: u64) -> (r: bool)
    ensures
        r == spec_valid_token(*address, *owner, *mint, *token_account, amount),
{
    if *mint != *address {
        return false;
    }
    if token_account.mint != *mint {
        return false;
    }
    if token_account.owner != *owner {
        return false;
    }
    if token_account.amount < 1 {
        return false;
    }
    if amount < token_account.amount {
        return false;
    }
    true
}

/// The metadata account is the one derived for `mint`, and it names
/// `address` as the token's verified collection.  Where no metadata address
/// can be derived for `mint`, it is not.
pub open spec fn spec_valid_nft(address: Pubkey, mint: Pubkey, metadata: MetadataAccount) -> bool {
    match derived_program_address(metadata_seeds(mint), spec_token_metadata_program_id()) {
        Some((pda, _)) => pda == metadata.key && match metadata.metadata.collection {
            Some(collection) => collection.verified && collection.key == address,
            None => false,
        },
        None => false,
    }
}

/// Whether the NFT of `mint` belongs, verified, to the collection `address`
/// (see `spec_valid_nft`).
pub fn is_valid_nft(address: &Pubkey, mint: &Pubkey, metadata: &MetadataAccount) -> (r: bool)
    ensures
        r == spec_valid_nft(*address, *mint, *metadata),
{
    match find_metadata_account(mint) {
        Some((pda, _)) => {
            if pda != metadata.key {
                return false;
            }
            match &metadata.metadata.collection {
                Some(collection) => collection.verified && collection.key == *address,
                None => false,
            }
        },
        None => false,
    }
}

/// `user` holds exactly one token of `mint` in `token_account`, and
/// `metadata` is the metadata address derived for `mint`.
pub open spec fn spec_user_owns_nft(user: Pubkey, mint: Pubkey, metadata: Pubkey, token_account: TokenAccount) -> bool {
    &&& derived_program_address(metadata_seeds(mint), spec_token_metadata_program_id()) matches Some((pda, _))
        && pda == metadata
    &&& token_account.mint == mint
    &&& token_account.amount == 1
    &&& token_account.owner == user
}

/// Whether `user` owns the NFT of `mint` (see `spec_user_owns_nft`).
pub fn user_owns_nft(user: &Pubkey, mint: &Pubkey, metadata: &Pubkey, token_account: &TokenAccount) -> (r: bool)
    ensures
        r == spec_user_owns_nft(*user, *mint, *metadata, *token_account),
{
    match find_metadata_account(mint) {
        Some((pda, _)) => {
            if pda != *metadata {
                return false;
            }
        },
        None => {
            return false;
        },
    }
    if token_account.mint != *mint {
        return false;
    }
    if token_account.amount != 1 {
        return false;
    }
    if token_account.owner != *user {
        return false;
    }
    true
}

/// Whether `author`, with the accounts passed, meets `gate`:
/// - a token gate, when one of its mints is the mint passed and the token
///   account meets it (see `spec_valid_token`);
/// - an NFT gate, when scanning its collections in order, the token account
///   meets the token check for each of them up to one of which the NFT is a
///   verified member;
/// - a compressed-NFT gate, never here (it has an instruction of its own);
/// - a signer gate, when the extra account signed, is one of its addresses
///   and its operator is not `Not`.
pub open spec fn gate_passes(gate: Gate, author: Pubkey, accounts: GateAccounts) -> bool {
    match gate.rule_type {
        Rule::Token => {
            &&& accounts.mint matches Some(mint)
            &&& accounts.token_account matches Some(token_account)
            &&& exists|i: int|
                0 <= i < gate.address@.len() && spec_valid_token(
                    #[trigger] gate.address@[i],
                    author,
                    mint,
                    token_account,
                    gate.amount,
                )
        },
        Rule::Nft => {
            &&& accounts.mint matches Some(mint)
            &&& accounts.token_account matches Some(token_account)
            &&& accounts.metadata matches Some(metadata)
            &&& exists|i: int|
                0 <= i < gate.address@.len() && spec_valid_nft(#[trigger] gate.address@[i], mint, metadata)
                    && forall|j: int|
                    0 <= j <= i ==> spec_valid_token(
                        #[trigger] gate.address@[j],
                        author,
                        mint,
                        token_account,
                        gate.amount,
                    )
        },
        Rule::CompressedNft => false,
        Rule::AdditionalSigner => {
            &&& accounts.additional_signer matches Some(signer)
            &&& signer.is_signer
            &&& gate.address@.contains(signer.key)
            &&& gate.operator != Operator::Not
        },
    }
}

fn token_gate_passes(gate: &Gate, author: &Pubkey, mint: &Pubkey, token_account: &TokenAccount) -> (r: bool)
    ensures
        r == exists|i: int|
            0 <= i < gate.address@.len() && spec_valid_token(
                #[trigger] gate.address@[i],
                *author,
                *mint,
                *token_account,
                gate.amount,
            ),
{
    let mut i: usize = 0;
    while i < gate.address.len()
        invariant
            0 <= i <= gate.address@.len(),
            forall|j: int|
                0 <= j < i ==> !spec_valid_token(
                    #[trigger] gate.address@[j],
                    *author,
                    *mint,
                    *token_account,
                    gate.amount,
                ),
        decreases gate.address@.len() - i,
    {
        if is_valid_token(&gate.address[i], author, mint, token_account, gate.amount) {
            return true;
        }
        i = i + 1;
    }
    false
}

fn nft_gate_passes(gate: &Gate, author: &Pubkey, mint: &Pubkey, token_account: &TokenAccount, metadata: &MetadataAccount) -> (r: bool)
    ensures
        r == exists|i: int|
            0 <= i < gate.address@.len() && spec_valid_nft(#[trigger] gate.address@[i], *mint, *metadata)
                && forall|j: int|
                0 <= j <= i ==> spec_valid_token(
                    #[trigger] gate.address@[j],
                    *author,
                    *mint,
                    *token_account,
                    gate.amount,
                ),
{
    let mut i: usize = 0;
    while i < gate.address.len()
        invariant
            0 <= i <= gate.address@.len(),
            forall|j: int|
                0 <= j < i ==> spec_valid_token(
                    #[trigger] gate.address@[j],
                    *author,
                    *mint,
                    *token_account,
                    gate.amount,
                ) && !spec_valid_nft(gate.address@[j], *mint, *metadata),
        decreases gate.address@.len() - i,
    {
        if !is_valid_token(&gate.address[i], author, mint, token_account, gate.amount) {
            assert forall|k: int| 0 <= k < gate.address@.len() && spec_valid_nft(gate.address@[k], *mint, *metadata) implies
                !(forall|j: int| 0 <= j <= k ==> spec_valid_token(#[trigger] gate.address@[j], *author, *mint, *token_account, gate.amount)) by {
                assert(k >= i);
                assert(!spec_valid_token(gate.address@[i as int], *author, *mint, *token_account, gate.amount));
            }
            return false;
        }
        if is_valid_nft(&gate.address[i], mint, metadata) {
            assert(forall|j: int| 0 <= j <= i ==> spec_valid_token(#[trigger] gate.address@[j], *author, *mint, *token_account, gate.amount));
            return true;
        }
        i = i + 1;
    }
    false
}

fn signer_gate_passes(gate: &Gate, signer: &SignerAccount) -> (r: bool)
    ensures
        r == (signer.is_signer && gate.address@.contains(signer.key) && gate.operator != Operator::Not),
{
    if !signer.is_signer {
        return false;
    }
    let mut i: usize = 0;
    while i < gate.address.len()
        invariant
            0 <= i <= gate.address@.len(),
            signer.is_signer,
            forall|j: int| 0 <= j < i ==> gate.address@[j] != signer.key,
        decreases gate.address@.len() - i,
    {
        if signer.key == gate.address[i] {
            assert(gate.address@[i as int] == signer.key);
            return match gate.operator {
                Operator::Not => false,
                _ => true,
            };
        }
        i = i + 1;
    }
    false
}

/// The outcome of `gate` for `author` (see `gate_passes`).
pub fn gate_operation(gate: &Gate, author: &Pubkey, accounts: &GateAccounts) -> (r: OperationResult)
    ensures
        r == (OperationResult { operator: gate.operator, result: gate_passes(*gate, *author, *accounts) }),
{
    let result = match gate.rule_type {
        Rule::Token => match (&accounts.mint, &accounts.token_account) {
            (Some(mint), Some(token_account)) => token_gate_passes(gate, author, mint, token_account),
            _ => false,
        },
        Rule::Nft => match (&accounts.mint, &accounts.token_account, &accounts.metadata) {
            (Some(mint), Some(token_account), Some(metadata)) => nft_gate_passes(
                gate,
                author,
                mint,
                token_account,
                metadata,
            ),
            _ => false,
        },
        Rule::CompressedNft => false,
        Rule::AdditionalSigner => match &accounts.additional_signer {
            Some(signer) => signer_gate_passes(gate, signer),
            None => false,
        },
    };
    OperationResult { operator: gate.operator, result }
}

/// Outcome `i` is a passed `Or`, and every `And` outcome after it, among the
/// first `n`, passed.
pub open spec fn or_chain_from(ops: Seq<OperationResult>, i: int, n: int) -> bool {
    &&& 0 <= i < n
    &&& ops[i].operator == Operator::Or
    &&& ops[i].result
    &&& forall|k: int| i < k < n && (#[trigger] ops[k]).operator == Operator::And ==> ops[k].result
}

/// Among the first `n` outcomes, a passed `Or` is followed by no failed `And`.
pub open spec fn or_chain(ops: Seq<OperationResult>, n: int) -> bool {
    exists|i: int| #[trigger] or_chain_from(ops, i, n)
}

/// Some `Not` outcome failed.
pub open spec fn failed_not(ops: Seq<OperationResult>) -> bool {
    exists|k: int| 0 <= k < ops.len() && (#[trigger] ops[k]).operator == Operator::Not && !ops[k].result
}

/// Whether the gates' outcomes let the author post: always when there are
/// none; otherwise when no `Not` outcome failed and some passed `Or` outcome
/// is followed by no failed `And` outcome.
pub open spec fn operations_allow(ops: Seq<OperationResult>) -> bool {
    ops.len() == 0 || (!failed_not(ops) && or_chain(ops, ops.len() as int))
}

proof fn lemma_or_chain_step(ops: Seq<OperationResult>, n: int)
    requires
        0 <= n < ops.len(),
    ensures
        ops[n].operator == Operator::And ==> (or_chain(ops, n + 1) == (or_chain(ops, n) && ops[n].result)),
        ops[n].operator == Operator::Or ==> (or_chain(ops, n + 1) == (or_chain(ops, n) || ops[n].result)),
        ops[n].operator == Operator::Not ==> (or_chain(ops, n + 1) == or_chain(ops, n)),
{
    let m = n + 1;
    if or_chain(ops, m) {
        let w = choose|w: int| or_chain_from(ops, w, m);
        if w < n {
            assert(or_chain_from(ops, w, n));
        }
    }
    if or_chain(ops, n) {
        let w = choose|w: int| or_chain_from(ops, w, n);
        if ops[n].operator != Operator::And || ops[n].result {
            assert(or_chain_from(ops, w, m));
        }
    }
    if ops[n].operator == Operator::Or && ops[n].result {
        assert(or_chain_from(ops, n, m));
    }
}

/// Whether the gates' outcomes let the author post (see `operations_allow`).
pub fn evaluate_operations(operations: Vec<OperationResult>) -> (r: bool)
    ensures
        r == operations_allow(operations@),
{
    let mut overall_result = false;
    let mut or_case_result = false;
    if operations.len() == 0 {
        return true;
    }
    let mut i: usize = 0;
    while i < operations.len()
        invariant
            0 < operations@.len(),
            0 <= i <= operations@.len(),
            overall_result == or_case_result,
            or_case_result == or_chain(operations@, i as int),
            forall|k: int|
                0 <= k < i && (#[trigger] operations@[k]).operator == Operator::Not ==> operations@[k].result,
        decreases operations@.len() - i,
    {
        let op = operations[i];
        proof {
            lemma_or_chain_step(operations@, i as int);
        }
        match op.operator {
            Operator::And => {
                overall_result = overall_result && op.result;
                or_case_result = or_case_result && op.result;
            },
            Operator::Or => {
                if op.result {
                    or_case_result = true;
                }
                overall_result = overall_result || or_case_result;
            },
            Operator::Not => {
                if !op.result {
                    assert(failed_not(operations@));
                    return false;
                }
            },
        }
        i = i + 1;
    }
    overall_result
}

/// A forum without gates lets every author post.
pub proof fn law_no_gates_allow(ops: Seq<OperationResult>)
    requires
        ops.len() == 0,
    ensures
        operations_allow(ops),
{
}

/// A failed `Not` gate keeps the author out, whatever the other gates say.
pub proof fn law_failed_not_denies(ops: Seq<OperationResult>, k: int)
    requires
        0 <= k < ops.len(),
        ops[k].operator == Operator::Not,
        !ops[k].result,
    ensures
        !operations_allow(ops),
{
    assert(failed_not(ops));
}

/// Where there are gates, the author gets in only through a passed `Or`
/// gate: gates that are all `And` or `Not` keep every author out.
pub proof fn law_access_needs_passed_or(ops: Seq<OperationResult>)
    requires
        ops.len() > 0,
        operations_allow(ops),
    ensures
        exists|i: int| 0 <= i < ops.len() && (#[trigger] ops[i]).operator == Operator::Or && ops[i].result,
{
    let n = ops.len() as int;
    let w = choose|w: int| or_chain_from(ops, w, n);
    assert(ops[w].operator == Operator::Or && ops[w].result);
}

/// The outcomes of the forum's gates for `author`, in order.
pub open spec fn gate_outcomes(gates: Seq<Gate>, author: Pubkey, accounts: GateAccounts) -> Seq<OperationResult> {
    Seq::new(
        gates.len(),
        |i: int| OperationResult { operator: gates[i].operator, result: gate_passes(gates[i], author, accounts) },
    )
}

/// Whether `author`, with the accounts passed, may post in a forum with `gates`.
pub open spec fn gates_allow(gates: Seq<Gate>, author: Pubkey, accounts: GateAccounts) -> bool {
    operations_allow(gate_outcomes(gates, author, accounts))
}

/// The outcomes of `gates` for `author` (see `gate_outcomes`).
pub fn gate_operations(gates: &Vec<Gate>, author: &Pubkey, accounts: &GateAccounts) -> (r: Vec<OperationResult>)
    ensures
        r@ == gate_outcomes(gates@, *author, *accounts),
{
    let mut r: Vec<OperationResult> = Vec::new();
    let mut i: usize = 0;
    while i < gates.len()
        invariant
            0 <= i <= gates@.len(),
            r@ == gate_outcomes(gates@, *author, *accounts).subrange(0, i as int),
        decreases gates@.len() - i,
    {
        let op = gate_operation(&gates[i], author, accounts);
        r.push(op);
        i = i + 1;
        assert(r@ =~= gate_outcomes(gates@, *author, *accounts).subrange(0, i as int));
    }
    assert(r@ =~= gate_outcomes(gates@, *author, *accounts));
    r
}

/// The address of the forum program,
/// `ondaTPaRbk5xRJiqje7DS8n6nFu7Hg6jvKthXNemsHg`.
pub open spec fn spec_program_id() -> Pubkey {
    Pubkey { w0: 0xe143e955db4ffc0b, w1: 0x1d4bc3a796540a8b, w2: 0x0e91cd4c0853d457, w3: 0x9ff72ecc865636bc }
}

pub fn program_id() -> (r: Pubkey)
    ensures
        r == spec_program_id(),
{
    Pubkey { w0: 0xe143e955db4ffc0b, w1: 0x1d4bc3a796540a8b, w2: 0x0e91cd4c0853d457, w3: 0x9ff72ecc865636bc }
}

/// The bytes of `"entry"`, the first seed of an entry's address.
pub open spec fn entry_prefix() -> Seq<u8> {
    seq![101u8, 110u8, 116u8, 114u8, 121u8]
}

/// The eight little-endian bytes of `n`.
pub open spec fn u64_le_bytes(n: u64) -> Seq<u8> {
    Seq::new(8, |i: int| (n >> ((8 * i) as u64)) as u8)
}

fn le_bytes(n: u64) -> (r: Vec<u8>)
    ensures
        r@ == u64_le_bytes(n),
{
    let mut r: Vec<u8> = Vec::new();
    let mut j: u64 = 0;
    while j < 8
        invariant
            0 <= j <= 8,
            r@ == u64_le_bytes(n).subrange(0, j as int),
        decreases 8 - j,
    {
        r.push((n >> (8 * j)) as u8);
        j = j + 1;
        assert(r@ =~= u64_le_bytes(n).subrange(0, j as int));
    }
    assert(r@ =~= u64_le_bytes(n));
    r
}

/// The seeds of the address of the entry with `nonce` in the forum of `tree_id`.
pub open spec fn entry_seeds(tree_id: Pubkey, nonce: u64) -> Seq<Seq<u8>> {
    seq![entry_prefix(), tree_id.bytes(), u64_le_bytes(nonce)]
}

/// The address of the entry with `nonce` in the forum of `tree_id`, if one
/// can be derived.
pub open spec fn spec_entry_id(tree_id: Pubkey, nonce: u64) -> Option<Pubkey> {
    match derived_program_address(entry_seeds(tree_id, nonce), spec_program_id()) {
        Some((key, _)) => Some(key),
        None => None,
    }
}

/// The address of the entry with `nonce` in the forum of `tree_id`: the
/// program address of `entry_seeds` under the forum program, or `None` where
/// none can be derived.
pub fn get_entry_id(tree_id: &Pubkey, nonce: u64) -> (r: Option<Pubkey>)
    ensures
        r == spec_entry_id(*tree_id, nonce),
{
    let mut seeds: Vec<Vec<u8>> = Vec::new();
    seeds.push(vec![101u8, 110u8, 116u8, 114u8, 121u8]);
    seeds.push(tree_id.to_bytes());
    seeds.push(le_bytes(nonce));
    assert(seeds_view(seeds@) =~= entry_seeds(*tree_id, nonce));
    let id = program_id();
    match try_find_program_address(&seeds, &id) {
        Some((key, _)) => Some(key),
        None => None,
    }
}

/// A new forum of `payer` whose tree has depth `max_depth`: room for
/// `2^max_depth` entries, none yet, with the flairs and gates given.
pub fn init_forum(payer: Pubkey, max_depth: u32, flair: Vec<String>, gate: Option<Vec<Gate>>) -> (r: ForumConfig)
    requires
        max_depth < 64,
    ensures
        r.admin == payer,
        r.total_capacity == pow2(max_depth as nat),
        r.post_count == 0,
        r.flair == flair,
        r.gate@ == match gate {
            Some(g) => g@,
            None => Seq::<Gate>::empty(),
        },
{
    let shift: u64 = max_depth as u64;
    proof {
        vstd::bits::lemma_u64_pow2_no_overflow(shift as nat);
        vstd::bits::lemma_u64_shl_is_mul(1, shift);
    }
    let total_capacity: u64 = 1u64 << shift;
    let gate = match gate {
        Some(g) => g,
        None => Vec::new(),
    };
    ForumConfig { admin: payer, total_capacity, post_count: 0, flair, gate }
}

/// Hands the forum from `admin`, who must be its admin, to `new_admin`.
pub fn set_admin(config: &mut ForumConfig, admin: Pubkey, new_admin: Pubkey) -> (r: Result<(), OndaSocialError>)
    ensures
        old(config).admin != admin ==> r == Err::<(), OndaSocialError>(OndaSocialError::Unauthorized)
            && *final(config) == *old(config),
        old(config).admin == admin ==> r == Ok::<(), OndaSocialError>(()) && *final(config) == (ForumConfig {
            admin: new_admin,
            ..*old(config)
        }),
{
    if config.admin != admin {
        return Err(OndaSocialError::Unauthorized);
    }
    config.set_admin(new_admin);
    Ok(())
}

// ---------------------------------------------------------------------------
// Entry data as stored in the leaf
// ---------------------------------------------------------------------------

/// The Keccak-256 digest of `data`, as `solana_program::keccak::hash`
/// computes it.
pub uninterp spec fn keccak256(data: Seq<u8>) -> Seq<u8>;

/// Calls `solana_program::keccak::hash`.  Claimed: the digest is the one
/// named by `keccak256` for the same bytes; it depends on nothing else.
#[verifier::external_body]
#[allow(deprecated)]
fn keccak_hash(data: &Vec<u8>) -> (r: [u8; 32])
    ensures
        r@ == keccak256(data@),
{
    solana_program::keccak::hash(data.as_slice()).to_bytes()
}

/// The four little-endian bytes of `n`.
pub open spec fn u32_le_bytes(n: u32) -> Seq<u8> {
    Seq::new(4, |i: int| (n >> ((8 * i) as u32)) as u8)
}

/// Borsh's encoding of a string: its length in bytes, then its UTF-8 bytes.
pub open spec fn borsh_string(s: Seq<char>) -> Seq<u8> {
    u32_le_bytes(str_len(s) as u32) + encode_utf8(s)
}

pub open spec fn borsh_bool(b: bool) -> Seq<u8> {
    seq![if b { 1u8 } else { 0u8 }]
}

pub open spec fn borsh_option_string(o: Option<String>) -> Seq<u8> {
    match o {
        None => seq![0u8],
        Some(s) => seq![1u8] + borsh_string(s@),
    }
}

pub open spec fn borsh_option_pubkey(o: Option<Pubkey>) -> Seq<u8> {
    match o {
        None => seq![0u8],
        Some(k) => seq![1u8] + k.bytes(),
    }
}

/// The fields of a post after its variant byte.
pub open spec fn post_bytes(title: String, uri: String, flair: Option<String>, nsfw: bool, spoiler: bool) -> Seq<u8> {
    borsh_string(title@) + borsh_string(uri@) + borsh_option_string(flair) + borsh_bool(nsfw) + borsh_bool(
        spoiler,
    )
}

/// Borsh's encoding of an entry: the variant's index, then its fields in
/// order.
pub open spec fn entry_bytes(data: DataV1) -> Seq<u8> {
    match data {
        DataV1::TextPost { title, uri, flair, nsfw, spoiler } => seq![0u8] + post_bytes(title, uri, flair, nsfw, spoiler),
        DataV1::ImagePost { title, uri, flair, nsfw, spoiler } => seq![1u8] + post_bytes(title, uri, flair, nsfw, spoiler),
        DataV1::LinkPost { title, uri, flair, nsfw, spoiler } => seq![2u8] + post_bytes(title, uri, flair, nsfw, spoiler),
        DataV1::VideoPost { title, uri, flair, nsfw, spoiler } => seq![3u8] + post_bytes(title, uri, flair, nsfw, spoiler),
        DataV1::Comment { post, parent, uri } => seq![4u8] + post.bytes() + borsh_option_pubkey(parent) + borsh_string(
            uri@,
        ),
    }
}

/// The hash of an entry's data that its leaf carries.
pub open spec fn entry_data_hash(data: DataV1) -> Seq<u8> {
    keccak256(entry_bytes(data))
}

fn push_bytes(out: &mut Vec<u8>, b: &[u8])
    ensures
        final(out)@ == old(out)@ + b@,
{
    let ghost start = out@;
    let mut i: usize = 0;
    while i < b.len()
        invariant
            0 <= i <= b@.len(),
            out@ == start + b@.subrange(0, i as int),
        decreases b@.len() - i,
    {
        out.push(b[i]);
        i = i + 1;
        assert(out@ =~= start + b@.subrange(0, i as int));
    }
    assert(b@.subrange(0, b@.len() as int) =~= b@);
}

fn push_u32(out: &mut Vec<u8>, n: u32)
    ensures
        final(out)@ == old(out)@ + u32_le_bytes(n),
{
    let ghost start = out@;
    let mut j: u32 = 0;
    while j < 4
        invariant
            0 <= j <= 4,
            out@ == start + u32_le_bytes(n).subrange(0, j as int),
        decreases 4 - j,
    {
        out.push((n >> (8 * j)) as u8);
        j = j + 1;
        assert(out@ =~= start + u32_le_bytes(n).subrange(0, j as int));
    }
    assert(u32_le_bytes(n).subrange(0, 4) =~= u32_le_bytes(n));
}

fn push_string(out: &mut Vec<u8>, s: &String)
    requires
        str_len(s@) <= u32::MAX,
    ensures
        final(out)@ == old(out)@ + borsh_string(s@),
{
    let ghost start = out@;
    let len = s.as_str().len();
    push_u32(out, len as u32);
    push_bytes(out, s.as_str().as_bytes());
    assert(out@ =~= start + borsh_string(s@));
}

fn push_bool(out: &mut Vec<u8>, b: bool)
    ensures
        final(out)@ == old(out)@ + borsh_bool(b),
{
    out.push(if b { 1u8 } else { 0u8 });
    assert(final(out)@ =~= old(out)@ + borsh_bool(b)) by {}
}

/// The strings of `data` fit Borsh's 32-bit lengths.
pub open spec fn entry_strings_fit(data: DataV1) -> bool {
    match data {
        DataV1::Comment { uri, .. } => str_len(uri@) <= u32::MAX,
        DataV1::TextPost { title, uri, flair, .. } | DataV1::ImagePost { title, uri, flair, .. }
        | DataV1::LinkPost { title, uri, flair, .. } | DataV1::VideoPost { title, uri, flair, .. } => {
            &&& str_len(title@) <= u32::MAX
            &&& str_len(uri@) <= u32::MAX
            &&& (flair matches Some(f) ==> str_len(f@) <= u32::MAX)
        },
    }
}

fn push_post(
    out: &mut Vec<u8>,
    title: &String,
    uri: &String,
    flair: &Option<String>,
    nsfw: bool,
    spoiler: bool,
)
    requires
        str_len(title@) <= u32::MAX,
        str_len(uri@) <= u32::MAX,
        flair matches Some(f) ==> str_len(f@) <= u32::MAX,
    ensures
        final(out)@ == old(out)@ + post_bytes(*title, *uri, *flair, nsfw, spoiler),
{
    let ghost start = out@;
    push_string(out, title);
    push_string(out, uri);
    match flair {
        None => {
            out.push(0u8);
        },
        Some(f) => {
            out.push(1u8);
            push_string(out, f);
        },
    }
    assert(out@ =~= start + borsh_string(title@) + borsh_string(uri@) + borsh_option_string(*flair));
    push_bool(out, nsfw);
    push_bool(out, spoiler);
    assert(out@ =~= start + post_bytes(*title, *uri, *flair, nsfw, spoiler));
}

/// The bytes of an entry that its data hash covers (see `entry_bytes`).
fn entry_data_bytes(data: &DataV1) -> (r: Vec<u8>)
    requires
        entry_strings_fit(*data),
    ensures
        r@ == entry_bytes(*data),
{
    let mut out: Vec<u8> = Vec::new();
    match data {
        DataV1::TextPost { title, uri, flair, nsfw, spoiler } => {
            out.push(0u8);
            push_post(&mut out, title, uri, flair, *nsfw, *spoiler);
        },
        DataV1::ImagePost { title, uri, flair, nsfw, spoiler } => {
            out.push(1u8);
            push_post(&mut out, title, uri, flair, *nsfw, *spoiler);
        },
        DataV1::LinkPost { title, uri, flair, nsfw, spoiler } => {
            out.push(2u8);
            push_post(&mut out, title, uri, flair, *nsfw, *spoiler);
        },
        DataV1::VideoPost { title, uri, flair, nsfw, spoiler } => {
            out.push(3u8);
            push_post(&mut out, title, uri, flair, *nsfw, *spoiler);
        },
        DataV1::Comment { post, parent, uri } => {
            out.push(4u8);
            push_bytes(&mut out, post.to_bytes().as_slice());
            match parent {
                None => {
                    out.push(0u8);
                },
                Some(k) => {
                    out.push(1u8);
                    push_bytes(&mut out, k.to_bytes().as_slice());
                },
            }
            push_string(&mut out, uri);
        },
    }
    assert(out@ =~= entry_bytes(*data));
    out
}

proof fn lemma_valid_entry_fits(config: ForumConfig, data: DataV1)
    requires
        entry_error(config, data) is None,
    ensures
        entry_strings_fit(data),
{
}

/// What the leaf of an admitted entry is made of, besides its author and
/// its creation time.
#[derive(Clone, Copy, PartialEq, Eq, Debug)]
pub struct NewEntry {
    /// The forum's post count before the entry.
    pub nonce: u64,
    /// The entry's address (see `get_entry_id`), where one can be derived.
    pub entry_id: Option<Pubkey>,
    /// The Keccak-256 digest of the entry's Borsh encoding.
    pub data_hash: [u8; 32],
}

/// The leaf parts of an entry admitted to the forum of `tree_id` whose post
/// count was `nonce`.
pub open spec fn new_entry_matches(e: NewEntry, tree_id: Pubkey, nonce: u64, data: DataV1) -> bool {
    &&& e.nonce == nonce
    &&& e.entry_id == spec_entry_id(tree_id, nonce)
    &&& e.data_hash@ == entry_data_hash(data)
}

fn new_entry(tree_id: &Pubkey, nonce: u64, data: &DataV1) -> (r: NewEntry)
    requires
        entry_strings_fit(*data),
    ensures
        new_entry_matches(r, *tree_id, nonce, *data),
{
    let entry_id = get_entry_id(tree_id, nonce);
    let bytes = entry_data_bytes(data);
    let data_hash = keccak_hash(&bytes);
    NewEntry { nonce, entry_id, data_hash }
}

/// The post count after one more entry (it stops at `u64::MAX`).
pub open spec fn next_post_count(n: u64) -> u64 {
    if n == u64::MAX {
        u64::MAX
    } else {
        (n + 1) as u64
    }
}

/// The first reason `author` may not add `data` to the forum: the session
/// token passed was refused, or without one the author did not sign; the
/// entry is faulty (see `entry_error`); the forum's gates keep the author out
/// (see `gates_allow`).  `session` is `None` when no session token was passed
/// and otherwise whether the session check accepted it.
pub open spec fn add_entry_error(
    config: ForumConfig,
    author: Pubkey,
    signer: Pubkey,
    session: Option<bool>,
    data: DataV1,
    accounts: GateAccounts,
) -> Option<OndaSocialError> {
    if session == Some(false) {
        Some(OndaSocialError::InvalidSessionToken)
    } else if session is None && author != signer {
        Some(OndaSocialError::Unauthorized)
    } else if entry_error(config, data) is Some {
        entry_error(config, data)
    } else if !gates_allow(config.gate@, author, accounts) {
        Some(OndaSocialError::Unauthorized)
    } else {
        None
    }
}

/// Admits `data` by `author` to the forum of the tree `merkle_tree`.  On
/// success the result holds the entry's nonce (the forum's post count before
/// the entry), its address and the hash of its data, and the post count goes
/// up by one; the entry's leaf is then built from these, the author and the
/// time, and appended to the tree.
pub fn add_entry(
    config: &mut ForumConfig,
    merkle_tree: Pubkey,
    author: Pubkey,
    signer: Pubkey,
    session: Option<bool>,
    data: &DataV1,
    accounts: &GateAccounts,
) -> (r: Result<NewEntry, OndaSocialError>)
    ensures
        match add_entry_error(*old(config), author, signer, session, *data, *accounts) {
            Some(e) => r matches Err(e2) && e2 == e && *final(config) == *old(config),
            None => {
                &&& r matches Ok(entry)
                &&& new_entry_matches(entry, merkle_tree, old(config).post_count, *data)
                &&& *final(config) == (ForumConfig {
                    post_count: next_post_count(old(config).post_count),
                    ..*old(config)
                })
            },
        },
{
    match session {
        Some(valid) => {
            if !valid {
                return Err(OndaSocialError::InvalidSessionToken);
            }
        },
        None => {
            if author != signer {
                return Err(OndaSocialError::Unauthorized);
            }
        },
    }
    match validate_entry(config, data) {
        Ok(()) => {},
        Err(e) => {
            return Err(e);
        },
    }
    let operation_results = gate_operations(&config.gate, &author, accounts);
    let allow_access = evaluate_operations(operation_results);
    if !allow_access {
        return Err(OndaSocialError::Unauthorized);
    }
    proof {
        lemma_valid_entry_fits(*config, *data);
    }
    let entry = new_entry(&merkle_tree, config.post_count, data);
    config.increment_post_count();
    Ok(entry)
}

fn address_listed(addresses: &Vec<Pubkey>, key: &Pubkey) -> (r: bool)
    ensures
        r == addresses@.contains(*key),
{
    let mut i: usize = 0;
    while i < addresses.len()
        invariant
            0 <= i <= addresses@.len(),
            forall|j: int| 0 <= j < i ==> addresses@[j] != *key,
        decreases addresses@.len() - i,
    {
        if addresses[i] == *key {
            assert(addresses@[i as int] == *key);
            return true;
        }
        i = i + 1;
    }
    false
}

/// Some compressed-NFT gate of the forum lists the collection `key`.
pub open spec fn compressed_nft_gate(gates: Seq<Gate>, key: Pubkey) -> bool {
    exists|i: int|
        0 <= i < gates.len() && (#[trigger] gates[i]).rule_type == Rule::CompressedNft && gates[i].address@.contains(
            key,
        )
}

fn has_compressed_nft_gate(gates: &Vec<Gate>, key: &Pubkey) -> (r: bool)
    ensures
        r == compressed_nft_gate(gates@, *key),
{
    let mut i: usize = 0;
    while i < gates.len()
        invariant
            0 <= i <= gates@.len(),
            forall|j: int|
                0 <= j < i ==> !((#[trigger] gates@[j]).rule_type == Rule::CompressedNft
                    && gates@[j].address@.contains(*key)),
        decreases gates@.len() - i,
    {
        if address_listed(&gates[i].address, key) && gates[i].rule_type == Rule::CompressedNft {
            assert(gates@[i as int].rule_type == Rule::CompressedNft);
            return true;
        }
        i = i + 1;
    }
    false
}

/// The first reason an entry backed by a compressed NFT may not be added:
/// the entry is faulty, the NFT names no collection, or no compressed-NFT
/// gate of the forum lists its collection.
pub open spec fn compressed_nft_entry_error(config: ForumConfig, data: DataV1, metadata_args: MetadataArgs) -> Option<OndaSocialError> {
    if entry_error(config, data) is Some {
        entry_error(config, data)
    } else {
        match metadata_args.collection {
            None => Some(OndaSocialError::InvalidCollection),
            Some(collection) => if !compressed_nft_gate(config.gate@, collection.key) {
                Some(OndaSocialError::Unauthorized)
            } else {
                None
            },
        }
    }
}

/// Admits `data`, by an author who holds the compressed NFT that
/// `metadata_args` describes, to the forum of the tree `merkle_tree`.  On
/// success the result holds the entry's nonce, address and data hash (as for
/// `add_entry`) and the post count goes up by one; the NFT's leaf is then
/// verified against its tree, which fails the instruction if it does not
/// match.
pub fn add_entry_with_compressed_nft(
    config: &mut ForumConfig,
    merkle_tree: Pubkey,
    data: &DataV1,
    metadata_args: &MetadataArgs,
) -> (r: Result<NewEntry, OndaSocialError>)
    ensures
        match compressed_nft_entry_error(*old(config), *data, *metadata_args) {
            Some(e) => r matches Err(e2) && e2 == e && *final(config) == *old(config),
            None => {
                &&& r matches Ok(entry)
                &&& new_entry_matches(entry, merkle_tree, old(config).post_count, *data)
                &&& *final(config) == (ForumConfig {
                    post_count: next_post_count(old(config).post_count),
                    ..*old(config)
                })
            },
        },
{
    match validate_entry(config, data) {
        Ok(()) => {},
        Err(e) => {
            return Err(e);
        },
    }
    let collection = match &metadata_args.collection {
        None => {
            return Err(OndaSocialError::InvalidCollection);
        },
        Some(c) => c,
    };
    if !has_compressed_nft_gate(&config.gate, &collection.key) {
        return Err(OndaSocialError::Unauthorized);
    }
    proof {
        lemma_valid_entry_fits(*config, *data);
    }
    let entry = new_entry(&merkle_tree, config.post_count, data);
    config.increment_post_count();
    Ok(entry)
}

/// Whether `signer` may delete an entry of `author`: it is the author or the
/// forum's admin.
pub fn delete_entry(config: &ForumConfig, signer: Pubkey, author: Pubkey) -> (r: Result<(), OndaSocialError>)
    ensures
        r == if signer == author || config.admin == signer {
            Ok::<(), OndaSocialError>(())
        } else {
            Err(OndaSocialError::Unauthorized)
        },
{
    if signer != author && config.admin != signer {
        return Err(OndaSocialError::Unauthorized);
    }
    Ok(())
}


/// Each admitted entry takes the next nonce: the post count goes up by one,
/// until it can count no further.
pub proof fn law_post_count_steps_by_one(n: u64)
    ensures
        n < u64::MAX ==> next_post_count(n) == n + 1,
        n == u64::MAX ==> next_post_count(n) == n,
{
}


/// The author gets in only through a passed `Or` gate that no failed `And`
/// gate follows.
pub proof fn law_failed_and_after_or_denies(ops: Seq<OperationResult>)
    requires
        ops.len() > 0,
        operations_allow(ops),
    ensures
        exists|i: int|
            0 <= i < ops.len() && (#[trigger] ops[i]).operator == Operator::Or && ops[i].result && forall|k: int|
                i < k < ops.len() && (#[trigger] ops[k]).operator == Operator::And ==> ops[k].result,
{
    let n = ops.len() as int;
    let w = choose|w: int| or_chain_from(ops, w, n);
    assert(or_chain_from(ops, w, n));
}

/// A token gate lets the author in exactly when the mint passed is one of
/// its listed mints and the author's token account holds at least one and
/// at most its `amount` of that mint.
pub proof fn law_token_gate(gate: Gate, author: Pubkey, accounts: GateAccounts)
    requires
        gate.rule_type == Rule::Token,
    ensures
        gate_passes(gate, author, accounts) <==> (accounts.mint matches Some(mint) && accounts.token_account matches Some(
            ta,
        ) && gate.address@.contains(mint) && ta.mint == mint && ta.owner == author && 1 <= ta.amount
            && ta.amount <= gate.amount),
{
    if gate_passes(gate, author, accounts) {
        let mint = accounts.mint->0;
        let ta = accounts.token_account->0;
        let i = choose|i: int|
            0 <= i < gate.address@.len() && spec_valid_token(#[trigger] gate.address@[i], author, mint, ta, gate.amount);
        assert(gate.address@[i] == mint);
    }
    if accounts.mint is Some && accounts.token_account is Some && gate.address@.contains(accounts.mint->0) {
        let mint = accounts.mint->0;
        let ta = accounts.token_account->0;
        let i = choose|i: int| 0 <= i < gate.address@.len() && gate.address@[i] == mint;
        if ta.mint == mint && ta.owner == author && 1 <= ta.amount && ta.amount <= gate.amount {
            assert(spec_valid_token(gate.address@[i], author, mint, ta, gate.amount));
        }
    }
}

/// An entry's flair may be at most `MAX_FLAIR_LEN` (42) bytes and must be
/// one the forum lists; a post's URI must parse and be at most 128 bytes,
/// and its title at most 300 bytes.
pub proof fn law_entry_limits(config: ForumConfig, title: Seq<char>, uri: Seq<char>, flair: Option<String>)
    ensures
        flair matches Some(f) && str_len(f@) > 42 ==> flair_error(config, flair) == Some(OndaSocialError::FlairTooLong),
        flair matches Some(f) && str_len(f@) <= 42 && !flair_listed(config, f@) ==> flair_error(config, flair) == Some(
            OndaSocialError::InvalidFlair,
        ),
        flair is None ==> flair_error(config, flair) is None,
        !url_parses(uri) || str_len(uri) > 128 ==> post_schema_error(title, uri) == Some(OndaSocialError::InvalidUri),
        url_parses(uri) && str_len(uri) <= 128 && str_len(title) > 300 ==> post_schema_error(title, uri) == Some(
            OndaSocialError::TitleTooLong,
        ),
        url_parses(uri) && str_len(uri) <= 128 && str_len(title) <= 300 ==> post_schema_error(title, uri) is None,
{
}


/// An author is admitted only with an accepted session token or, without
/// one, by signing; only with a faultless entry; and only when the forum's
/// gates let the author in.
pub proof fn law_add_entry_admits_only(
    config: ForumConfig,
    author: Pubkey,
    signer: Pubkey,
    session: Option<bool>,
    data: DataV1,
    accounts: GateAccounts,
)
    ensures
        (add_entry_error(config, author, signer, session, data, accounts) is None) == ((session == Some(true)
            || (session is None && author == signer)) && entry_error(config, data) is None && gates_allow(
            config.gate@,
            author,
            accounts,
        )),
        session is None && author != signer ==> add_entry_error(config, author, signer, session, data, accounts)
            == Some(OndaSocialError::Unauthorized),
{
    match session {
        Some(v) => {
            if v {
                assert(session == Some(true));
            } else {
                assert(session == Some(false));
            }
        },
        None => {},
    }
}

} // verus!
