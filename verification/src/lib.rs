//! Verified core of the Onda / Dexloan Solana programs: listing state
//! machines (loans, call options, rentals, hires), fee arithmetic, forum
//! entry validation and gating, awards, plankton feeding, moderation teams
//! and namespaces.  Each instruction's decision is a function
//! from account state and instruction arguments to the new state and the
//! transfers the program makes; this crate does not perform those transfers
//! (that takes the Anchor, SPL and Metaplex crates, which it does not use).

pub mod pubkey;
pub mod pda;
pub mod metadata;
pub mod compression;
pub mod listings;
pub mod dexloan;
pub mod awards;
pub mod bloom;
pub mod moderation;
pub mod namespace;
