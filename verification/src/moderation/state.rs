use vstd::prelude::*;
use crate::pubkey::Pubkey;

verus! {

#[derive(Clone, Copy, PartialEq, Eq, Structural, Debug)]
pub enum Role {
    Owner,
    Admin,
    Moderator,
}

#[derive(Clone, Copy, PartialEq, Eq, Structural, Debug)]
pub struct Member {
    pub address: Pubkey,
    pub role: Role,
}

/// The moderators of a forum.
#[derive(Clone, Debug)]
pub struct Team {
    pub forum: Pubkey,
    pub members: Vec<Member>,
}

impl Team {
    /// The account size of a team of `members` members: discriminator, forum
    /// address, the list's length and 33 bytes a member.
    pub fn get_size(members: usize) -> (r: usize)
        requires
            8 + 32 + 4 + members * 33 <= usize::MAX,
        ensures
            r == 8 + 32 + 4 + members * 33,
    {
        8 + 32 + 4 + members * 33
    }
}

} // verus!
