//! The collection configuration record of the exact-price revision: keyed
//! by authority and collection, and carrying a dedicated mint authority.

use vstd::prelude::*;
use vstd::string::StringSliceAdditionalSpecFns;
use crate::keys::Key;
use crate::accounts::CollectionRef;
use crate::state::metadata::{Metadata, MetadataData};
use crate::virt::error::Error;

verus! {

pub struct CollectionConfig {
    /// The stored derivation bump of this record's own address.
    pub bump: u8,
    pub version: u8,
    /// The marketplace authority's wallet.
    pub authority: Key,
    /// The verified collection newly minted items are added to.
    pub collection_mint: Key,
    /// The mint authority used for newly minted items of this collection.
    pub mint_authority: Key,
    /// Royalty basis points inserted into newly minted metadata.
    pub seller_fee_basis_points: u16,
    /// Symbol inserted into newly minted metadata.
    pub symbol: String,
}

/// This revision keys the configuration by authority and collection.
pub open spec fn collection_seeds_spec(authority: Seq<u8>, collection_mint: Seq<u8>) -> Seq<
    Seq<u8>,
> {
    seq!["collection_config".spec_bytes(), authority, collection_mint]
}

/// The seed list this record presents when signing: its derivation seeds
/// plus its stored bump.
pub open spec fn collection_auth_seeds_spec(
    authority: Seq<u8>,
    collection_mint: Seq<u8>,
    bump: u8,
) -> Seq<Seq<u8>> {
    seq!["collection_config".spec_bytes(), authority, collection_mint, seq![bump]]
}

/// The derivation seed list for the configuration of `authority` and
/// `collection_mint`.
pub fn collection_seeds(authority: &Key, collection_mint: &Key) -> (s: Vec<Vec<u8>>)
    ensures
        s.deep_view() == collection_seeds_spec(authority@, collection_mint@),
{
    let mut s: Vec<Vec<u8>> = Vec::new();
    s.push(vstd::slice::slice_to_vec("collection_config".as_bytes()));
    s.push(authority.to_vec());
    s.push(collection_mint.to_vec());
    proof {
        assert(s.deep_view() =~~= collection_seeds_spec(authority@, collection_mint@));
    }
    s
}

impl CollectionConfig {
    pub const VERSION: u8 = 1;

    pub const MAX_SYMBOL_LENGTH: usize = 16;

    /// Account size: discriminator, bump, version, three keys, royalty
    /// rate, symbol, and padding for future fields.
    pub const SPACE: usize = 8 + 1 + 1 + 32 + 32 + 32 + 2 + (4 + 16) + 256;

    pub fn auth_seeds(&self) -> (s: Vec<Vec<u8>>)
        ensures
            s.deep_view() == collection_auth_seeds_spec(
                self.authority@,
                self.collection_mint@,
                self.bump,
            ),
    {
        let mut s: Vec<Vec<u8>> = Vec::new();
        s.push(vstd::slice::slice_to_vec("collection_config".as_bytes()));
        s.push(self.authority.to_vec());
        s.push(self.collection_mint.to_vec());
        let mut bv: Vec<u8> = Vec::new();
        bv.push(self.bump);
        s.push(bv);
        proof {
            assert(s.deep_view() =~~= collection_auth_seeds_spec(
                self.authority@,
                self.collection_mint@,
                self.bump,
            ));
        }
        s
    }

    /// Fills a freshly created record; never fails.
    pub fn init(
        &mut self,
        bump: u8,
        authority: Key,
        collection_mint: Key,
        mint_authority: Key,
        seller_fee_basis_points: u16,
        symbol: String,
    ) -> (r: Result<(), Error>)
        ensures
            r is Ok,
            final(self).bump == bump,
            final(self).version == 1,
            final(self).authority == authority,
            final(self).collection_mint == collection_mint,
            final(self).mint_authority == mint_authority,
            final(self).seller_fee_basis_points == seller_fee_basis_points,
            final(self).symbol@ == symbol@,
    {
        self.bump = bump;
        self.version = CollectionConfig::VERSION;
        self.authority = authority;
        self.collection_mint = collection_mint;
        self.mint_authority = mint_authority;
        self.seller_fee_basis_points = seller_fee_basis_points;
        self.symbol = symbol;
        Ok(())
    }

    /// The full metadata payload for minting an item of this collection: the
    /// supplied name and uri, this configuration's symbol and royalty rate,
    /// no creator list, and the collection entry left for later
    /// verification.
    pub fn get_mpl_metadata(&self, metadata: Metadata) -> (r: Result<MetadataData, Error>)
        ensures
            r matches Ok(d) ==> {
                &&& d.name@ == metadata.name@
                &&& d.uri@ == metadata.uri@
                &&& d.symbol@ == self.symbol@
                &&& d.seller_fee_basis_points == self.seller_fee_basis_points
                &&& d.creators is None
                &&& d.collection matches Some(c) && !c.verified && c.key == self.collection_mint
            },
            r is Ok,
    {
        Ok(
            MetadataData {
                name: metadata.name,
                uri: metadata.uri,
                symbol: self.symbol.clone(),
                seller_fee_basis_points: self.seller_fee_basis_points,
                creators: None,
                collection: Some(
                    CollectionRef { verified: false, key: self.collection_mint },
                ),
            },
        )
    }
}

/// Fills a fresh configuration record from the instruction arguments; fails
/// only when the creation bump is missing, leaving the record unchanged.
pub fn init_collection_config_handler(
    config: &mut CollectionConfig,
    authority: &Key,
    bump: Option<u8>,
    collection_mint: Key,
    mint_authority: Key,
    seller_fee_basis_points: u16,
    symbol: String,
) -> (r: Result<(), Error>)
    ensures
        r is Ok <==> bump is Some,
        r is Err ==> r == Err::<(), Error>(Error::BumpSeedNotInHashMap) && *final(config) == *old(
            config,
        ),
        r is Ok ==> {
            &&& final(config).bump == bump.unwrap()
            &&& final(config).version == 1
            &&& final(config).authority == *authority
            &&& final(config).collection_mint == collection_mint
            &&& final(config).mint_authority == mint_authority
            &&& final(config).seller_fee_basis_points == seller_fee_basis_points
            &&& final(config).symbol@ == symbol@
        },
{
    let b = match bump {
        Some(b) => b,
        None => {
            return Err(Error::BumpSeedNotInHashMap);
        },
    };
    config.init(
        b,
        *authority,
        collection_mint,
        mint_authority,
        seller_fee_basis_points,
        symbol,
    )?;
    Ok(())
}

} // verus!
