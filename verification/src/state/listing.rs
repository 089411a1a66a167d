//! The listing record: an open sale offer for a minted NFT or a virtual
//! item, with its price, expiry, currency and snapshotted fee schedule.

use vstd::prelude::*;
use crate::keys::{Key, key_eq};
use crate::error::Error;
use crate::abort::Abort;
use crate::pda::{listing_prefix, listing_seeds, listing_seeds_spec, pda_of};
use crate::state::fee_config::FeeConfig;

verus! {

#[derive(Clone, Copy, Debug)]
pub struct Listing {
    /// The stored derivation bump of this record's own address.
    pub bump: u8,
    pub version: u8,
    /// The marketplace authority's wallet.
    pub marketplace_authority: Key,
    /// The seller's wallet.
    pub seller: Key,
    /// The NFT's mint bytes, or a unique 32-byte id for a virtual item.
    pub id: [u8; 32],
    /// True iff the listing is for a virtual item.
    pub is_virtual: bool,
    /// The currency accepted as payment; the native mint stands for the
    /// native currency.
    pub currency_mint: Key,
    /// The collection configuration the item belongs to.
    pub collection_config: Key,
    /// The price, in base units of the currency; strictly positive.
    pub price: u64,
    /// Unix time the listing expires at.
    pub expiry: i64,
    /// The fee schedule snapshotted from the marketplace at creation.
    pub fee_config: FeeConfig,
}

/// The seed list a listing presents when signing: its derivation seeds plus
/// its stored bump.
pub open spec fn listing_auth_seeds_spec(id: Seq<u8>, bump: u8) -> Seq<Seq<u8>> {
    seq![listing_prefix(), id, seq![bump]]
}

/// The marketplace fee owed on `price` under rate `bps`:
/// `floor(price * bps / 10000)`, computed over the unbounded integers.
pub open spec fn fee_amount(price: u64, bps: u16) -> int {
    (price * bps) / 10000
}

/// What creating or updating a listing with this price and expiry decides:
/// the price must be strictly positive and the expiry strictly in the
/// future.
pub open spec fn validate_listing_spec(price: u64, expiry: i64, now: i64) -> Result<(), Error> {
    if price == 0 {
        Err(Error::InvalidPrice)
    } else if expiry <= now {
        Err(Error::InvalidExpiry)
    } else {
        Ok(())
    }
}

/// What a buy attempt against this listing decides: rejected with
/// `ListingExpired` iff the chain time has reached the expiry, else with
/// `MaxPriceExceeded` iff the price exceeds the buyer's ceiling.
pub open spec fn assert_can_buy_spec(l: Listing, max_price: u64, now: i64) -> Result<(), Error> {
    if l.expiry <= now {
        Err(Error::ListingExpired)
    } else if l.price > max_price {
        Err(Error::MaxPriceExceeded)
    } else {
        Ok(())
    }
}

/// What loading the account claiming to be the listing for `id` decides:
/// the claimed address must re-derive from the listing seeds; an empty
/// account is the valid absent state; a non-empty one must be owned by this
/// program and is the listing record.
pub open spec fn listing_lookup_spec(
    account_key: Seq<u8>,
    account_owner: Seq<u8>,
    record: Option<Listing>,
    id: Seq<u8>,
    program_id: Seq<u8>,
) -> Result<Option<Listing>, Abort> {
    match pda_of(listing_seeds_spec(id), program_id) {
        Option::None => Err(Abort::Program(Error::BumpSeedNotInHashMap)),
        Option::Some(p) => if p.0 != account_key {
            Err(Abort::Check(crate::util::error::Error::PublicKeyMismatch))
        } else {
            match record {
                Option::None => Ok(Option::None),
                Option::Some(l) => if account_owner != program_id {
                    Err(Abort::Check(crate::util::error::Error::IncorrectOwner))
                } else {
                    Ok(Option::Some(l))
                },
            }
        },
    }
}

/// Checks a price and expiry as [`validate_listing_spec`] says.
pub fn validate_listing(price: u64, expiry: i64, now: i64) -> (r: Result<(), Error>)
    ensures
        r == validate_listing_spec(price, expiry, now),
{
    if price == 0 {
        return Err(Error::InvalidPrice);
    }
    if expiry <= now {
        return Err(Error::InvalidExpiry);
    }
    Ok(())
}

impl Listing {
    pub const VERSION: u8 = 1;

    /// Account size: discriminator, bump, version, two wallets, id, flag,
    /// currency, collection, price, expiry, fee schedule, and padding.
    pub const SPACE: usize = 8 + 1 + 1 + 32 + 32 + 32 + 1 + 32 + 32 + 8 + 8 + (32 + 2 + 128)
        + 256;

    /// Validates the account claiming to be the listing for `id` and returns
    /// the record, or `None` for the checkable absent state. `record` is the
    /// record deserialized from the account's data, `None` iff the account
    /// holds no data.
    pub fn from_account_info_with_checks(
        account_key: &Key,
        account_owner: &Key,
        record: Option<Listing>,
        id: &[u8; 32],
        program_id: &Key,
    ) -> (r: Result<Option<Listing>, Abort>)
        ensures
            r == listing_lookup_spec(account_key@, account_owner@, record, id@, program_id@),
    {
        let seeds = listing_seeds(id);
        let (expected, _bump) = match crate::pda::find_address(&seeds, program_id) {
            Ok(p) => p,
            Err(e) => {
                return Err(Abort::Program(e));
            },
        };
        if !key_eq(account_key, &expected) {
            return Err(Abort::Check(crate::util::error::Error::PublicKeyMismatch));
        }
        match record {
            None => Ok(None),
            Some(l) => {
                if !key_eq(account_owner, program_id) {
                    Err(Abort::Check(crate::util::error::Error::IncorrectOwner))
                } else {
                    Ok(Some(l))
                }
            },
        }
    }

    pub fn auth_seeds(&self) -> (s: Vec<Vec<u8>>)
        ensures
            s.deep_view() == listing_auth_seeds_spec(self.id@, self.bump),
    {
        let mut s: Vec<Vec<u8>> = Vec::new();
        s.push(vstd::slice::slice_to_vec("listing".as_bytes()));
        s.push(vstd::slice::slice_to_vec(self.id.as_slice()));
        let mut bv: Vec<u8> = Vec::new();
        bv.push(self.bump);
        s.push(bv);
        proof {
            assert(s.deep_view() =~~= listing_auth_seeds_spec(self.id@, self.bump));
        }
        s
    }

    /// Fills a freshly created listing, rejecting a zero price or an expiry
    /// not strictly in the future; on rejection the record is unchanged.
    pub fn init(
        &mut self,
        bump: u8,
        marketplace_authority: Key,
        seller: Key,
        id: [u8; 32],
        is_virtual: bool,
        currency_mint: Key,
        collection_config: Key,
        fee_config: FeeConfig,
        price: u64,
        expiry: i64,
        now: i64,
    ) -> (r: Result<(), Error>)
        ensures
            r == validate_listing_spec(price, expiry, now),
            r is Ok ==> {
                &&& final(self).bump == bump
                &&& final(self).version == 1
                &&& final(self).marketplace_authority == marketplace_authority
                &&& final(self).seller == seller
                &&& final(self).id == id
                &&& final(self).is_virtual == is_virtual
                &&& final(self).currency_mint == currency_mint
                &&& final(self).collection_config == collection_config
                &&& final(self).price == price
                &&& final(self).expiry == expiry
                &&& final(self).fee_config == fee_config
            },
            r is Err ==> *final(self) == *old(self),
    {
        if price == 0 {
            return Err(Error::InvalidPrice);
        }
        if expiry <= now {
            return Err(Error::InvalidExpiry);
        }
        self.bump = bump;
        self.version = Listing::VERSION;
        self.marketplace_authority = marketplace_authority;
        self.seller = seller;
        self.id = id;
        self.is_virtual = is_virtual;
        self.currency_mint = currency_mint;
        self.collection_config = collection_config;
        self.price = price;
        self.expiry = expiry;
        self.fee_config = fee_config;
        Ok(())
    }

    /// Re-validates and replaces the price and expiry; no other field
    /// changes, and on rejection the record is unchanged.
    pub fn update(&mut self, price: u64, expiry: i64, now: i64) -> (r: Result<(), Error>)
        ensures
            r == validate_listing_spec(price, expiry, now),
            r is Ok ==> *final(self) == (Listing { price, expiry, ..*old(self) }),
            r is Err ==> *final(self) == *old(self),
    {
        if price == 0 {
            return Err(Error::InvalidPrice);
        }
        if expiry <= now {
            return Err(Error::InvalidExpiry);
        }
        self.price = price;
        self.expiry = expiry;
        Ok(())
    }

    /// The marketplace fee for this listing's price under its snapshotted
    /// rate, or `OverflowError` if the exact amount does not fit the
    /// currency's base units.
    pub fn get_fee_amount(&self) -> (r: Result<u64, Error>)
        ensures
            r matches Ok(f) ==> f == fee_amount(self.price, self.fee_config.bps),
            r is Ok <==> fee_amount(self.price, self.fee_config.bps) <= u64::MAX,
            r is Err ==> r == Err::<u64, Error>(Error::OverflowError),
    {
        proof {
            assert(self.price as int * self.fee_config.bps as int <= u64::MAX as int
                * u16::MAX as int) by (nonlinear_arith)
                requires
                    self.price <= u64::MAX,
                    self.fee_config.bps <= u16::MAX,
            ;
        }
        let wide: u128 = (self.price as u128) * (self.fee_config.bps as u128);
        let fee: u128 = wide / 10000;
        if fee > u64::MAX as u128 {
            Err(Error::OverflowError)
        } else {
            Ok(fee as u64)
        }
    }

    /// Decides whether a buy at ceiling `max_price` is allowed now.
    pub fn assert_can_buy(&self, max_price: u64, now: i64) -> (r: Result<(), Error>)
        ensures
            r == assert_can_buy_spec(*self, max_price, now),
            r is Ok <==> now < self.expiry && self.price <= max_price,
    {
        if self.expiry <= now {
            return Err(Error::ListingExpired);
        }
        if self.price > max_price {
            return Err(Error::MaxPriceExceeded);
        }
        Ok(())
    }
}

/// For every valid rate (at most the whole price in basis points), the
/// marketplace fee is `floor(price * bps / 10000)`, never negative and never
/// more than the price; a zero rate yields exactly zero.
pub proof fn lemma_fee_bounds(price: u64, bps: u16)
    requires
        bps <= 10000,
    ensures
        0 <= fee_amount(price, bps) <= price,
        bps == 0 ==> fee_amount(price, bps) == 0,
{
    assert(price * bps <= price * 10000) by (nonlinear_arith)
        requires
            bps <= 10000,
    ;
    assert(price * 10000 / 10000 == price) by (nonlinear_arith);
    assert(price * bps / 10000 <= price * 10000 / 10000) by (nonlinear_arith)
        requires
            price * bps <= price * 10000,
    ;
    assert(price * bps >= 0) by (nonlinear_arith);
}

} // verus!
