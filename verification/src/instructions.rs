//! The instruction handlers' decision cores: one function per instruction,
//! taking the loaded accounts as plain values and returning either the exact
//! state updates, transfers and event to apply, or the typed error that
//! aborts the transaction. The runtime performs the returned effects
//! atomically.

pub mod buy_nft;
pub mod buy_virtual;
pub mod close_mint_record;
pub mod custody;
pub mod delist_nft;
pub mod delist_virtual;
pub mod init_collection_config;
pub mod init_marketplace_config;
pub mod list_nft;
pub mod list_virtual;
pub mod mint_virtual;
pub mod take_ownership;
pub mod uncustody;
pub mod update_listing;
