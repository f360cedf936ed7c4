//! Collection instructions: the administrator enables a collection and sets
//! its fees.

use vstd::prelude::*;
use crate::pubkey::Pubkey;
use crate::metadata::Metadata;
use crate::listings::error::ErrorCodes;
use crate::listings::state::collection::{Collection, Config};
use crate::listings::utils::{assert_metadata_valid, spec_metadata_valid};

verus! {

/// The administrator registers the collection of `mint`: the signer must be
/// `admin`, the metadata account must be the mint's, and the mint must be a
/// verified member of a collection.
pub fn handle_init_collection(
    collection: &mut Collection,
    authority: Pubkey,
    admin: Pubkey,
    mint: Pubkey,
    metadata: &Metadata,
    metadata_address: Pubkey,
    metadata_is_empty: bool,
    collection_bump: u8,
    config: Config,
) -> (r: Result<(), ErrorCodes>)
    ensures
        r == (if authority != admin {
            Err::<(), ErrorCodes>(ErrorCodes::RequireKeysEqViolated)
        } else if spec_metadata_valid(metadata_address, metadata_is_empty, mint) is Err {
            spec_metadata_valid(metadata_address, metadata_is_empty, mint)
        } else if !(metadata.collection matches Some(c) && c.verified) {
            Err(ErrorCodes::InvalidCollection)
        } else {
            Ok(())
        }),
        r is Err ==> *final(collection) == *old(collection),
        r is Ok ==> *final(collection) == (Collection {
            authority,
            mint,
            bump: collection_bump,
            config,
            ..*old(collection)
        }),
{
    if authority != admin {
        return Err(ErrorCodes::RequireKeysEqViolated);
    }
    match assert_metadata_valid(&metadata_address, metadata_is_empty, &mint) {
        Ok(()) => {},
        Err(e) => {
            return Err(e);
        },
    }
    match metadata.collection {
        Some(c) => {
            if c.verified != true {
                return Err(ErrorCodes::InvalidCollection);
            }
        },
        None => {
            return Err(ErrorCodes::InvalidCollection);
        },
    }
    collection.authority = authority;
    collection.mint = mint;
    collection.bump = collection_bump;
    collection.config = config;
    Ok(())
}

/// The collection's authority replaces its configuration.
pub fn handle_update_collection(collection: &mut Collection, authority: Pubkey, config: Config) -> (r: Result<(), ErrorCodes>)
    ensures
        r == (if authority != old(collection).authority {
            Err::<(), ErrorCodes>(ErrorCodes::RequireKeysEqViolated)
        } else {
            Ok(())
        }),
        r is Err ==> *final(collection) == *old(collection),
        r is Ok ==> *final(collection) == (Collection { config, ..*old(collection) }),
{
    if authority != collection.authority {
        return Err(ErrorCodes::RequireKeysEqViolated);
    }
    collection.config = config;
    Ok(())
}

/// Only the collection's authority may close it.
pub fn handle_close_collection(collection: &Collection, authority: Pubkey) -> (r: Result<(), ErrorCodes>)
    ensures
        r == (if authority != collection.authority {
            Err::<(), ErrorCodes>(ErrorCodes::RequireKeysEqViolated)
        } else {
            Ok(())
        }),
{
    if authority != collection.authority {
        return Err(ErrorCodes::RequireKeysEqViolated);
    }
    Ok(())
}

} // verus!
