pub mod loan;
pub mod call_option;
pub mod hire;
pub mod rental;
pub mod collection;
