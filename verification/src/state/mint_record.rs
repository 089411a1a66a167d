//! The mint record: one per (collection, item id), created at the moment a
//! virtual item is actually minted, marking the id as consumed.

use vstd::prelude::*;
use crate::keys::Key;

verus! {

#[derive(Clone, Copy, Debug)]
pub struct MintRecord {
    /// The collection configuration the item belongs to.
    pub collection_config: Key,
    /// The item's unique id within the collection.
    pub item_id: [u8; 32],
    /// The mint the item was minted as.
    pub mint: Key,
}

impl MintRecord {
    /// Account size: discriminator and the three fields.
    pub const SPACE: usize = 8 + 32 + 32 + 32;

    /// Fills a freshly created record; never fails.
    pub fn init(&mut self, collection_config: Key, item_id: [u8; 32], mint: Key) -> (r: Result<
        (),
        crate::error::Error,
    >)
        ensures
            r is Ok,
            final(self).collection_config == collection_config,
            final(self).item_id == item_id,
            final(self).mint == mint,
    {
        self.collection_config = collection_config;
        self.item_id = item_id;
        self.mint = mint;
        Ok(())
    }
}

} // verus!
