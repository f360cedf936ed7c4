pub mod collection;
pub mod loan;
pub mod rental;
pub mod call_option;
pub mod token_manager;
