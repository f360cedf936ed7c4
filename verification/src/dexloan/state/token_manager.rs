use vstd::prelude::*;

verus! {

/// Which listings currently hold an NFT.
#[derive(Clone, Copy, PartialEq, Eq, Structural, Debug)]
pub struct AccountState {
    pub loan: bool,
    pub call_option: bool,
    pub hire: bool,
    pub rental: bool,
}

/// The per-NFT account that is delegate of the frozen NFT and tracks the
/// listings that hold it.
#[derive(Clone, Copy, PartialEq, Eq, Structural, Debug)]
pub struct TokenManager {
    pub accounts: AccountState,
    pub bump: u8,
}

impl TokenManager {
    /// Bytes of a token manager account: discriminator, three flags, bump.
    pub fn space() -> (r: usize)
        ensures
            r == 8 + 1 * 3 + 1,
    {
        8 + (1 * 3) + 1
    }
}

} // verus!
