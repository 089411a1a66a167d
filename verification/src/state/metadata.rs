//! Caller-supplied metadata for a newly minted item, and the full metadata
//! payload the program hands to the external metadata program when minting.

use vstd::prelude::*;
use crate::accounts::{Creator, CollectionRef};

verus! {

/// The name and content address a buyer or authority supplies for a virtual
/// item about to be minted.
pub struct Metadata {
    pub name: String,
    pub uri: String,
}

/// The complete metadata payload for a mint call: the supplied name and uri,
/// plus the symbol, royalty rate, creator list and collection taken from the
/// collection configuration.
pub struct MetadataData {
    pub name: String,
    pub symbol: String,
    pub uri: String,
    pub seller_fee_basis_points: u16,
    pub creators: Option<Vec<Creator>>,
    pub collection: Option<CollectionRef>,
}

} // verus!
