//! The token-metadata values that entries and compressed NFTs carry.

use vstd::prelude::*;
use crate::pubkey::Pubkey;

verus! {

#[derive(PartialEq, Eq, Structural, Debug, Clone, Copy)]
pub enum TokenProgramVersion {
    Original,
    Token2022,
}

#[derive(PartialEq, Eq, Structural, Debug, Clone, Copy)]
pub struct Creator {
    pub address: Pubkey,
    pub verified: bool,
    /// In percentages, not basis points.
    pub share: u8,
}

#[derive(PartialEq, Eq, Structural, Debug, Clone, Copy)]
pub enum TokenStandard {
    /// A master edition.
    NonFungible,
    /// A token with metadata that can also have attributes.
    FungibleAsset,
    /// A token with simple metadata.
    Fungible,
    /// A limited edition.
    NonFungibleEdition,
}

#[derive(PartialEq, Eq, Structural, Debug, Clone, Copy)]
pub enum UseMethod {
    Burn,
    Multiple,
    Single,
}

#[derive(PartialEq, Eq, Structural, Debug, Clone, Copy)]
pub struct Uses {
    pub use_method: UseMethod,
    pub remaining: u64,
    pub total: u64,
}

#[derive(PartialEq, Eq, Structural, Debug, Clone, Copy)]
pub struct Collection {
    pub verified: bool,
    pub key: Pubkey,
}

#[derive(Debug, Clone)]
pub struct MetadataArgs {
    /// The name of the asset.
    pub name: String,
    /// The symbol for the asset.
    pub symbol: String,
    /// URI pointing to JSON representing the asset.
    pub uri: String,
    /// Royalty basis points that go to creators in secondary sales (0-10000).
    pub seller_fee_basis_points: u16,
    /// Once set, all sales of this metadata are considered secondary.
    pub primary_sale_happened: bool,
    /// Whether the data is mutable.
    pub is_mutable: bool,
    /// Nonce for easy calculation of editions, if present.
    pub edition_nonce: Option<u8>,
    pub token_standard: Option<TokenStandard>,
    pub collection: Option<Collection>,
    pub uses: Option<Uses>,
    pub token_program_version: TokenProgramVersion,
    pub creators: Vec<Creator>,
}

} // verus!
