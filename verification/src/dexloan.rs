//! The earlier Dexloan listings program: loans, call options, hires and
//! rentals against NFTs frozen in the owner's wallet.

pub mod error;
pub mod state;
pub mod utils;
pub mod processor;
pub mod instructions;
