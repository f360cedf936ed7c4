use vstd::prelude::*;

verus! {

/// Errors of the listings programs.
#[derive(Clone, Copy, PartialEq, Eq, Structural, Debug)]
pub enum ErrorCodes {
    NotOverdue,
    NotExpired,
    InvalidExpiry,
    InvalidState,
    InvalidMint,
    InvalidCollection,
    InvalidDelegate,
    BorrowerNotSpecified,
    DerivedKeyInvalid,
    MetadataDoesntExist,
    NumericalOverflow,
    OptionExpired,
    OptionNotExpired,
    Unauthorized,
    // Failures of the account framework rather than of the programs' own
    // checks, under the framework's names.
    /// Solana's `ProgramError::NotEnoughAccountKeys`: the remaining accounts
    /// ran out before every account the instruction reads was found.
    NotEnoughAccountKeys,
    /// Anchor's `ErrorCode::RequireKeysEqViolated`: two addresses compared by
    /// `require_keys_eq!` without an error of the program's own differ.
    RequireKeysEqViolated,
    /// Anchor's `ErrorCode::ConstraintRaw`: an account constraint of the
    /// instruction does not hold.
    ConstraintRaw,
    /// Anchor's `ErrorCode::ConstraintHasOne`: an account's recorded party
    /// (`has_one`) is not the account passed.
    ConstraintHasOne,
    /// Anchor's `ErrorCode::ConstraintSeeds`: an account is not at the
    /// address its seeds derive.
    ConstraintSeeds,
}

} // verus!
