//! Registering a collection.

use vstd::prelude::*;
use crate::pubkey::Pubkey;
use crate::dexloan::error::DexloanError;
use crate::listings::state::collection::{Collection, Config};

verus! {

/// The administrator registers the collection of `mint` with `config`.
pub fn handle_init_collection(
    collection: &mut Collection,
    authority: Pubkey,
    admin: Pubkey,
    mint: Pubkey,
    collection_bump: u8,
    config: Config,
) -> (r: Result<(), DexloanError>)
    ensures
        r == (if authority != admin {
            Err::<(), DexloanError>(DexloanError::RequireKeysEqViolated)
        } else {
            Ok(())
        }),
        r is Err ==> *final(collection) == *old(collection),
        r is Ok ==> *final(collection) == (Collection {
            authority,
            mint,
            bump: collection_bump,
            config,
            ..*old(collection)
        }),
{
    if authority != admin {
        return Err(DexloanError::RequireKeysEqViolated);
    }
    collection.authority = authority;
    collection.mint = mint;
    collection.bump = collection_bump;
    collection.config = config;
    Ok(())
}

} // verus!
