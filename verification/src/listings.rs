//! The NFT listings program: loans, call options and rentals against NFTs
//! held in the owner's wallet, frozen and delegated to a token manager.

pub mod error;
pub mod state;
pub mod utils;
pub mod processor;
