pub mod loan;
pub mod call_option;
pub mod rental;
pub mod collection;
pub mod common;
