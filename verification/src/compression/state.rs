//! Forum accounts and entry data.

pub mod metaplex_adapter;

use vstd::prelude::*;
use crate::pubkey::Pubkey;

verus! {

/// What a gate asks of the author.
#[derive(Clone, Copy, PartialEq, Eq, Structural, Debug)]
pub enum Rule {
    /// Holds a token of one of the listed mints.
    Token,
    /// Holds an NFT of one of the listed collections.
    Nft,
    /// Holds a compressed NFT of one of the listed collections.
    CompressedNft,
    /// One of the listed addresses signs the transaction too.
    AdditionalSigner,
}

/// How a gate's result combines with the others.
#[derive(Clone, Copy, PartialEq, Eq, Structural, Debug)]
pub enum Operator {
    And,
    Or,
    Not,
}

/// A condition an author must meet to post in a forum.
#[derive(Clone, Debug)]
pub struct Gate {
    /// The largest token balance accepted.
    pub amount: u64,
    pub rule_type: Rule,
    pub operator: Operator,
    /// Mints, collections or signers, by rule.
    pub address: Vec<Pubkey>,
}

/// The outcome of one gate.
#[derive(Clone, Copy, PartialEq, Eq, Structural, Debug)]
pub struct OperationResult {
    pub operator: Operator,
    pub result: bool,
}

/// A forum, keyed by its merkle tree.
#[derive(Clone, Debug)]
pub struct ForumConfig {
    pub admin: Pubkey,
    /// How many leaves the forum's tree holds.
    pub total_capacity: u64,
    /// How many entries were appended; the next entry's nonce.
    pub post_count: u64,
    /// The flairs an entry may carry.
    pub flair: Vec<String>,
    /// The gates an author must pass.
    pub gate: Vec<Gate>,
}

impl ForumConfig {
    /// Hands the forum to `admin`.
    pub fn set_admin(&mut self, admin: Pubkey)
        ensures
            *final(self) == (ForumConfig { admin, ..*old(self) }),
    {
        self.admin = admin;
    }

    /// Counts one more entry, stopping at `u64::MAX`.
    pub fn increment_post_count(&mut self)
        ensures
            *final(self) == (ForumConfig {
                post_count: if old(self).post_count == u64::MAX {
                    u64::MAX
                } else {
                    (old(self).post_count + 1) as u64
                },
                ..*old(self)
            }),
    {
        self.post_count = self.post_count.saturating_add(1);
    }
}

/// The content of a forum entry.
#[derive(Clone, Debug)]
pub enum DataV1 {
    TextPost { title: String, uri: String, flair: Option<String>, nsfw: bool, spoiler: bool },
    ImagePost { title: String, uri: String, flair: Option<String>, nsfw: bool, spoiler: bool },
    LinkPost { title: String, uri: String, flair: Option<String>, nsfw: bool, spoiler: bool },
    VideoPost { title: String, uri: String, flair: Option<String>, nsfw: bool, spoiler: bool },
    Comment { post: Pubkey, parent: Option<Pubkey>, uri: String },
}

} // verus!
