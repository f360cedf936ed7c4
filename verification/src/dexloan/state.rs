pub mod call_option;
pub mod hire;
pub mod loan;
pub mod rental;
pub mod token_manager;
