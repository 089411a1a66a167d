//! The collection configuration record: one per verified collection, holding
//! the royalty rate, symbol and authority used when minting items into the
//! collection.

use vstd::prelude::*;
use crate::keys::Key;
use crate::accounts::{Creator, CollectionRef};
use crate::state::metadata::{Metadata, MetadataData};
use crate::pda::collection_prefix;

verus! {

pub struct CollectionConfig {
    /// The stored derivation bump of this record's own address.
    pub bump: u8,
    pub version: u8,
    /// The marketplace authority's wallet.
    pub marketplace_authority: Key,
    /// The verified collection newly minted items are added to.
    pub collection_mint: Key,
    /// Royalty basis points inserted into newly minted metadata.
    pub seller_fee_basis_points: u16,
    /// Symbol inserted into newly minted metadata.
    pub symbol: String,
}

/// The seed list this record presents when signing: its derivation seeds
/// plus its stored bump.
pub open spec fn collection_auth_seeds_spec(collection_mint: Seq<u8>, bump: u8) -> Seq<Seq<u8>> {
    seq![collection_prefix(), collection_mint, seq![bump]]
}

impl CollectionConfig {
    pub const VERSION: u8 = 1;

    pub const MAX_SYMBOL_LENGTH: usize = 16;

    /// Account size: discriminator, bump, version, authority, collection
    /// mint, royalty rate, symbol, and padding for future fields.
    pub const SPACE: usize = 8 + 1 + 1 + 32 + 32 + 32 + 2 + (4 + 16) + 256;

    pub fn auth_seeds(&self) -> (s: Vec<Vec<u8>>)
        ensures
            s.deep_view() == collection_auth_seeds_spec(self.collection_mint@, self.bump),
    {
        let mut s: Vec<Vec<u8>> = Vec::new();
        s.push(vstd::slice::slice_to_vec("collection_config".as_bytes()));
        s.push(self.collection_mint.to_vec());
        let mut bv: Vec<u8> = Vec::new();
        bv.push(self.bump);
        s.push(bv);
        proof {
            assert(s.deep_view() =~~= collection_auth_seeds_spec(
                self.collection_mint@,
                self.bump,
            ));
        }
        s
    }

    /// Fills a freshly created record; never fails.
    pub fn init(
        &mut self,
        bump: u8,
        marketplace_authority: Key,
        collection_mint: Key,
        seller_fee_basis_points: u16,
        symbol: String,
    ) -> (r: Result<(), crate::error::Error>)
        ensures
            r is Ok,
            final(self).bump == bump,
            final(self).version == 1,
            final(self).marketplace_authority == marketplace_authority,
            final(self).collection_mint == collection_mint,
            final(self).seller_fee_basis_points == seller_fee_basis_points,
            final(self).symbol@ == symbol@,
    {
        self.bump = bump;
        self.version = CollectionConfig::VERSION;
        self.marketplace_authority = marketplace_authority;
        self.collection_mint = collection_mint;
        self.seller_fee_basis_points = seller_fee_basis_points;
        self.symbol = symbol;
        Ok(())
    }

    /// The full metadata payload for minting an item of this collection: the
    /// supplied name and uri, this configuration's symbol and royalty rate,
    /// the marketplace authority as sole verified creator with the whole
    /// share, and the collection entry left for later verification.
    pub fn get_mpl_metadata(&self, metadata: Metadata) -> (r: Result<
        MetadataData,
        crate::error::Error,
    >)
        ensures
            r matches Ok(d) ==> {
                &&& d.name@ == metadata.name@
                &&& d.uri@ == metadata.uri@
                &&& d.symbol@ == self.symbol@
                &&& d.seller_fee_basis_points == self.seller_fee_basis_points
                &&& d.creators matches Some(cs) && cs@.len() == 1 && cs@[0].address
                    == self.marketplace_authority && cs@[0].verified && cs@[0].share == 100
                &&& d.collection matches Some(c) && !c.verified && c.key == self.collection_mint
            },
            r is Ok,
    {
        let mut creators: Vec<Creator> = Vec::new();
        creators.push(
            Creator { address: self.marketplace_authority, verified: true, share: 100 },
        );
        Ok(
            MetadataData {
                name: metadata.name,
                uri: metadata.uri,
                symbol: self.symbol.clone(),
                seller_fee_basis_points: self.seller_fee_basis_points,
                creators: Some(creators),
                collection: Some(
                    CollectionRef { verified: false, key: self.collection_mint },
                ),
            },
        )
    }
}

} // verus!
