//! The bloom program: readers feed plankton tokens to an entry's author,
//! the protocol keeping a share.

use vstd::prelude::*;
use crate::pubkey::Pubkey;

verus! {

pub const BLOOM_SIZE: usize = 8 + 8;

/// Errors of the bloom program.
#[derive(Clone, Copy, PartialEq, Eq, Structural, Debug)]
pub enum OndaBloomError {
    Unauthorized,
    InvalidMint,
    NumericOverflow,
    // Failures of the account framework and the session check rather than
    // of the program's own checks.
    /// Anchor's `ErrorCode::ConstraintRaw`: an account constraint of the
    /// instruction does not hold.
    ConstraintRaw,
    /// The system program refuses to create the signer's claim marker
    /// because it exists already: the reward was claimed.
    AlreadyClaimed,
    /// The session library's `SessionError::InvalidToken`: a session token
    /// was passed and the session check refused it.
    InvalidSessionToken,
}

/// The plankton mint, `pktnre2sUNQZXwHicZj6njpShhSazmzQz5rJtcqnkG5`.
pub open spec fn spec_plankton_mint() -> Pubkey {
    Pubkey { w0: 0x80bdbb138ded3b0c, w1: 0xabe044ae94d23fe9, w2: 0x9f1988edea84c48f, w3: 0x9e8fc2231f32fef5 }
}

pub fn plankton_mint() -> (r: Pubkey)
    ensures
        r == spec_plankton_mint(),
{
    Pubkey { w0: 0x80bdbb138ded3b0c, w1: 0xabe044ae94d23fe9, w2: 0x9f1988edea84c48f, w3: 0x9e8fc2231f32fef5 }
}

/// The protocol's plankton token account,
/// `EneovF7KrWHBC6QKmoiwC2S6PUFBZnpYcuyUTdD59iYp`.
pub open spec fn spec_protocol_fee_plankton_ata() -> Pubkey {
    Pubkey { w0: 0xa9af8d6f30d1d9cc, w1: 0x4044b8e368aa465e, w2: 0x2e3e22d7575aaee8, w3: 0xf9dfad0e0074867a }
}

pub fn protocol_fee_plankton_ata() -> (r: Pubkey)
    ensures
        r == spec_protocol_fee_plankton_ata(),
{
    Pubkey { w0: 0xa9af8d6f30d1d9cc, w1: 0x4044b8e368aa465e, w2: 0x2e3e22d7575aaee8, w3: 0xf9dfad0e0074867a }
}

/// How often an entry's author was fed.
#[derive(Clone, Copy, PartialEq, Eq, Structural, Debug)]
pub struct Bloom {
    pub plankton: u64,
}

impl Bloom {
    /// Counts one more feeding, stopping at `u64::MAX`.
    pub fn increment_plankton_count(&mut self)
        ensures
            final(self).plankton == if old(self).plankton == u64::MAX {
                u64::MAX
            } else {
                (old(self).plankton + 1) as u64
            },
    {
        self.plankton = self.plankton.saturating_add(1);
    }
}

/// Marks that a signer has claimed the plankton reward.
#[derive(Clone, Copy, PartialEq, Eq, Structural, Debug)]
pub struct ClaimMarker {
    pub marker: u8,
}

impl ClaimMarker {
    pub const SIZE: usize = 8 + 1;
}

/// The protocol's share of a feeding: two percent, rounded down.
pub open spec fn protocol_fee(amount: u64) -> u64 {
    amount / 50
}

/// The plankton a feeding moves out of the payer's deposit.
#[derive(Clone, Copy, PartialEq, Eq, Structural, Debug)]
pub struct Feeding {
    /// To the protocol's token account.
    pub protocol_fee: u64,
    /// To the author's escrow.
    pub to_author: u64,
}

/// The first reason `payer` may not feed `author`: they are the same
/// account; the protocol account passed is not the protocol's; the mint is
/// not the plankton mint; the session token passed was refused, or without
/// one the author is not the signer.  `session` is `None` when no session
/// token was passed and otherwise whether the session check accepted it.
pub open spec fn feed_plankton_error(
    payer: Pubkey,
    signer: Pubkey,
    author: Pubkey,
    session: Option<bool>,
    protocol_fee_account: Pubkey,
    mint: Pubkey,
) -> Option<OndaBloomError> {
    if payer == author {
        Some(OndaBloomError::Unauthorized)
    } else if protocol_fee_account != spec_protocol_fee_plankton_ata() {
        Some(OndaBloomError::ConstraintRaw)
    } else if mint != spec_plankton_mint() {
        Some(OndaBloomError::InvalidMint)
    } else if session == Some(false) {
        Some(OndaBloomError::InvalidSessionToken)
    } else if session is None && author != signer {
        Some(OndaBloomError::Unauthorized)
    } else {
        None
    }
}

/// Feeds `amount` plankton from `payer`'s deposit to `author`, counting the
/// feeding on the entry's bloom.  The protocol keeps two percent.
pub fn feed_plankton(
    bloom: &mut Bloom,
    payer: Pubkey,
    signer: Pubkey,
    author: Pubkey,
    session: Option<bool>,
    protocol_fee_account: Pubkey,
    mint: Pubkey,
    amount: u64,
) -> (r: Result<Feeding, OndaBloomError>)
    ensures
        match feed_plankton_error(payer, signer, author, session, protocol_fee_account, mint) {
            Some(e) => r == Err::<Feeding, OndaBloomError>(e) && *final(bloom) == *old(bloom),
            None => r == Ok::<Feeding, OndaBloomError>(
                Feeding { protocol_fee: protocol_fee(amount), to_author: (amount - protocol_fee(amount)) as u64 },
            ) && final(bloom).plankton == if old(bloom).plankton == u64::MAX {
                u64::MAX
            } else {
                (old(bloom).plankton + 1) as u64
            },
        },
{
    if payer == author {
        return Err(OndaBloomError::Unauthorized);
    }
    if protocol_fee_account != protocol_fee_plankton_ata() {
        return Err(OndaBloomError::ConstraintRaw);
    }
    if mint != plankton_mint() {
        return Err(OndaBloomError::InvalidMint);
    }
    match session {
        Some(valid) => {
            if !valid {
                return Err(OndaBloomError::InvalidSessionToken);
            }
        },
        None => {
            if author != signer {
                return Err(OndaBloomError::Unauthorized);
            }
        },
    }
    bloom.increment_plankton_count();
    let fee = amount / 50;
    let remaining_amount = amount - fee;
    Ok(Feeding { protocol_fee: fee, to_author: remaining_amount })
}

/// A feeding moves exactly the amount fed: the protocol's fee and the
/// author's share add up to it, and the author gets at least 98 percent.
pub proof fn law_feeding_conserves_amount(amount: u64)
    ensures
        protocol_fee(amount) + (amount - protocol_fee(amount)) == amount,
        protocol_fee(amount) <= amount,
        50 * (amount - protocol_fee(amount)) >= 49 * amount,
{
}

/// The plankton a signer receives from the reward account, once.
pub const PLANKTON_REWARD: u64 = 1000;

/// What `claim_plankton` answers, and the signer's claim marker after it:
/// a signer whose marker exists has claimed already; the mint must be the
/// plankton mint; otherwise the reward is paid and the marker created.
pub open spec fn spec_claim_plankton(mint: Pubkey, claim_marker: Option<ClaimMarker>) -> (Result<u64, OndaBloomError>, Option<ClaimMarker>) {
    if claim_marker is Some {
        (Err(OndaBloomError::AlreadyClaimed), claim_marker)
    } else if mint != spec_plankton_mint() {
        (Err(OndaBloomError::InvalidMint), claim_marker)
    } else {
        (Ok(PLANKTON_REWARD), Some(ClaimMarker { marker: 0 }))
    }
}

/// Pays the plankton reward to the signer (see `spec_claim_plankton`).
pub fn claim_plankton(mint: Pubkey, claim_marker: &mut Option<ClaimMarker>) -> (r: Result<u64, OndaBloomError>)
    ensures
        (r, *final(claim_marker)) == spec_claim_plankton(mint, *old(claim_marker)),
{
    if claim_marker.is_some() {
        return Err(OndaBloomError::AlreadyClaimed);
    }
    if mint != plankton_mint() {
        return Err(OndaBloomError::InvalidMint);
    }
    *claim_marker = Some(ClaimMarker { marker: 0 });
    Ok(PLANKTON_REWARD)
}

/// Each signer is paid the reward at most once: after a claim that
/// succeeded, the next one fails and leaves the marker as it is.
pub proof fn law_reward_claimed_once(mint: Pubkey, next_mint: Pubkey, claim_marker: Option<ClaimMarker>)
    requires
        spec_claim_plankton(mint, claim_marker).0 is Ok,
    ensures
        ({
            let after = spec_claim_plankton(mint, claim_marker).1;
            spec_claim_plankton(next_mint, after) == (
                Err::<u64, OndaBloomError>(OndaBloomError::AlreadyClaimed),
                after,
            )
        }),
{
}

/// Sets up the reward account; the mint must be the plankton mint.
pub fn init(mint: Pubkey) -> (r: Result<(), OndaBloomError>)
    ensures
        r == if mint == spec_plankton_mint() {
            Ok::<(), OndaBloomError>(())
        } else {
            Err(OndaBloomError::InvalidMint)
        },
{
    if mint != plankton_mint() {
        return Err(OndaBloomError::InvalidMint);
    }
    Ok(())
}


/// The protocol's fee is two percent of the amount fed, rounded down: the
/// largest fee with `50 * fee <= amount`.
pub proof fn law_protocol_fee_is_two_percent(amount: u64)
    ensures
        50 * protocol_fee(amount) <= amount,
        amount < 50 * (protocol_fee(amount) + 1),
{
}

} // verus!
