//! The program's versioned, fixed-layout records, each stored at a derived
//! address: the marketplace and collection configurations, listings, custody
//! records, and mint records.

pub mod collection_config;
pub mod custody_account;
pub mod fee_config;
pub mod listing;
pub mod marketplace_config;
pub mod metadata;
pub mod mint_record;
