use vstd::prelude::*;

verus! {

/// Errors of the moderation program.
#[derive(Clone, Copy, PartialEq, Eq, Structural, Debug)]
pub enum ErrorCodes {
    MemberAlreadyExists,
    MemberNotFound,
    Unauthorized,
}

} // verus!
