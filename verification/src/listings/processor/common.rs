//! Claiming an NFT left in the token manager's escrow.

use vstd::prelude::*;
use crate::pubkey::Pubkey;
use crate::listings::error::ErrorCodes;
use crate::listings::state::token_manager::TokenManager;

verus! {

/// The party in control of the NFT may claim it from escrow once no loan,
/// option or rental holds it.
pub fn handle_claim(token_manager: &TokenManager, authority: Pubkey) -> (r: Result<(), ErrorCodes>)
    ensures
        r == (if token_manager.accounts.loan || token_manager.accounts.call_option
            || token_manager.accounts.rental {
            Err::<(), ErrorCodes>(ErrorCodes::InvalidState)
        } else if token_manager.authority != Some(authority) {
            Err(ErrorCodes::Unauthorized)
        } else {
            Ok(())
        }),
{
    if token_manager.accounts.loan || token_manager.accounts.call_option || token_manager.accounts.rental {
        return Err(ErrorCodes::InvalidState);
    }
    if token_manager.authority != Some(authority) {
        return Err(ErrorCodes::Unauthorized);
    }
    Ok(())
}

} // verus!
