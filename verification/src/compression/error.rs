use vstd::prelude::*;

verus! {

/// Errors of the forum program.
#[derive(Clone, Copy, PartialEq, Eq, Structural, Debug)]
pub enum OndaSocialError {
    InvalidUri,
    TitleTooLong,
    /// The flair is longer than `MAX_FLAIR_LEN` bytes.
    FlairTooLong,
    InvalidFlair,
    InsufficientPostCapacity,
    Unauthorized,
    /// The compressed NFT names no collection.
    InvalidCollection,
    /// The session library's `SessionError::InvalidToken`, not one of the
    /// program's own codes: a session token was passed and the session check
    /// refused it.
    InvalidSessionToken,
}

} // verus!
