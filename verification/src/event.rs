//! The events an instruction appends to the log on success: who traded
//! what, at which price and under which fee schedule. Nothing reads them
//! back; they are part of the external interface.

use vstd::prelude::*;
use crate::keys::Key;
use crate::state::fee_config::FeeConfig;

verus! {

/// A listing was created.
#[derive(Clone, Copy, Debug)]
pub struct List {
    pub item_id: [u8; 32],
    pub price: u64,
    pub expiry: i64,
    pub seller: Key,
    pub is_virtual: bool,
    pub currency_mint: Key,
    pub collection_mint: Key,
    pub marketplace_authority: Key,
    pub fee_config: FeeConfig,
}

/// A listing's price or expiry changed.
#[derive(Clone, Copy, Debug)]
pub struct ListingUpdate {
    pub item_id: [u8; 32],
    pub price: u64,
    pub expiry: i64,
    pub seller: Key,
    pub is_virtual: bool,
    pub currency_mint: Key,
    pub collection_mint: Key,
    pub marketplace_authority: Key,
    pub fee_config: FeeConfig,
}

/// A listing was closed without a sale.
#[derive(Clone, Copy, Debug)]
pub struct Delist {
    pub item_id: [u8; 32],
    pub seller: Key,
    pub marketplace_authority: Key,
    pub collection_config: Key,
}

/// A sale completed: the asset moved and the price was split.
#[derive(Clone, Copy, Debug)]
pub struct Buy {
    pub item_id: [u8; 32],
    pub mint: Key,
    pub price: u64,
    pub seller: Key,
    pub buyer: Key,
    pub is_virtual: bool,
    pub currency_mint: Key,
    pub marketplace_authority: Key,
    pub fee_config: FeeConfig,
}

/// A virtual item was minted outside a sale.
#[derive(Clone, Copy, Debug)]
pub struct Mint {
    pub item_id: [u8; 32],
    pub mint: Key,
    pub buyer: Key,
    pub marketplace_authority: Key,
    pub collection_mint: Key,
}

/// An NFT entered custody.
#[derive(Clone, Copy, Debug)]
pub struct Custody {
    pub marketplace_authority: Key,
    pub owner: Key,
    pub mint: Key,
    pub item_id: [u8; 32],
}

/// An NFT left custody, back to its owner.
#[derive(Clone, Copy, Debug)]
pub struct Uncustody {
    pub marketplace_authority: Key,
    pub owner: Key,
    pub mint: Key,
}

} // verus!
