use vstd::prelude::*;
use crate::pubkey::Pubkey;

verus! {

/// Which listings currently hold an NFT.
#[derive(Clone, Copy, PartialEq, Eq, Structural, Debug)]
pub struct AccountState {
    pub loan: bool,
    pub call_option: bool,
    pub rental: bool,
}

/// The per-mint account that is delegate of the frozen NFT and tracks the
/// listings that hold it.
#[derive(Clone, Copy, PartialEq, Eq, Structural, Debug)]
pub struct TokenManager {
    pub accounts: AccountState,
    /// The party in control of the NFT (the owner, or whoever took it over).
    pub authority: Option<Pubkey>,
    pub bump: u8,
}

} // verus!
