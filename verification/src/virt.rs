//! The sibling revision of the marketplace: exact-price buys (a submitted
//! price must equal the listing price, not merely cover it), a
//! beneficiary-style fee schedule, and a single option-driven transfer
//! helper for both currencies.

pub mod buy_virtual;
pub mod checks;
pub mod collection_config;
pub mod error;
pub mod fee_schedule;
pub mod listing;
pub mod transfer;
