pub mod call_option;
pub mod loan;
