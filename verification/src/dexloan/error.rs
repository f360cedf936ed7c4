use vstd::prelude::*;

verus! {

/// Errors of the first loan and call option instructions.
#[derive(Clone, Copy, PartialEq, Eq, Structural, Debug)]
pub enum ErrorCode {
    NotOverdue,
    InvalidExpiry,
    InvalidState,
    InvalidListingType,
    OptionExpired,
    OptionNotExpired,
}

/// Errors of the listing instructions; they are those of the later listings
/// program.
pub type DexloanError = crate::listings::error::ErrorCodes;

} // verus!
