//! The listing record of the exact-price revision: the item id is itself a
//! key, the fee schedule is fixed at creation, and a buy must name the
//! price exactly.

use vstd::prelude::*;
use crate::keys::Key;
use crate::pda::listing_prefix;
use crate::virt::error::Error;
use crate::virt::fee_schedule::FeeSchedule;

verus! {

#[derive(Clone, Copy, Debug)]
pub struct Listing {
    /// The stored derivation bump of this record's own address.
    pub bump: u8,
    pub version: u8,
    /// The seller's wallet.
    pub authority: Key,
    /// The NFT's mint, or a unique id for a virtual item.
    pub id: Key,
    /// True iff the listing is for a virtual item.
    pub is_virtual: bool,
    /// The currency accepted as payment.
    pub currency_mint: Key,
    /// The price, in base units of the currency; strictly positive.
    pub price: u64,
    /// Unix time the listing expires at.
    pub expiry: i64,
    /// The fee schedule fixed at creation.
    pub fee_schedule: FeeSchedule,
}

/// The seed list a listing presents when signing.
pub open spec fn listing_auth_seeds_spec(id: Seq<u8>, bump: u8) -> Seq<Seq<u8>> {
    seq![listing_prefix(), id, seq![bump]]
}

/// What a buy attempt decides in this revision: rejected with
/// `ListingExpired` iff the chain time has reached the expiry, else with
/// `PriceMismatch` iff the submitted price is not exactly the listing
/// price.
pub open spec fn assert_can_buy_spec(l: Listing, price: u64, now: i64) -> Result<(), Error> {
    if l.expiry <= now {
        Err(Error::ListingExpired)
    } else if l.price != price {
        Err(Error::PriceMismatch)
    } else {
        Ok(())
    }
}

impl Listing {
    pub const VERSION: u8 = 1;

    /// Account size: discriminator, bump, version, wallet, id, flag,
    /// currency, price, expiry, fee schedule, and padding.
    pub const SPACE: usize = 8 + 1 + 1 + 32 + 32 + 1 + 32 + 8 + 8 + (32 + 2 + 128) + 256;

    pub fn auth_seeds(&self) -> (s: Vec<Vec<u8>>)
        ensures
            s.deep_view() == listing_auth_seeds_spec(self.id@, self.bump),
    {
        let mut s: Vec<Vec<u8>> = Vec::new();
        s.push(vstd::slice::slice_to_vec("listing".as_bytes()));
        s.push(self.id.to_vec());
        let mut bv: Vec<u8> = Vec::new();
        bv.push(self.bump);
        s.push(bv);
        proof {
            assert(s.deep_view() =~~= listing_auth_seeds_spec(self.id@, self.bump));
        }
        s
    }

    /// Fills a freshly created listing with the default fee schedule,
    /// rejecting a zero price or an expiry not strictly in the future; on
    /// rejection the record is unchanged.
    pub fn init(
        &mut self,
        bump: u8,
        authority: Key,
        id: Key,
        is_virtual: bool,
        currency_mint: Key,
        price: u64,
        expiry: i64,
        now: i64,
    ) -> (r: Result<(), Error>)
        ensures
            r is Ok <==> price > 0 && expiry > now,
            r matches Err(e) ==> e == (if price == 0 {
                Error::InvalidPrice
            } else {
                Error::InvalidExpiry
            }),
            r is Err ==> *final(self) == *old(self),
            r is Ok ==> {
                &&& final(self).bump == bump
                &&& final(self).version == 1
                &&& final(self).authority == authority
                &&& final(self).id == id
                &&& final(self).is_virtual == is_virtual
                &&& final(self).currency_mint == currency_mint
                &&& final(self).price == price
                &&& final(self).expiry == expiry
                &&& final(self).fee_schedule.bps == 0
                &&& final(self).fee_schedule.beneficiary@ == Seq::new(32, |i: int| 0u8)
            },
    {
        if price == 0 {
            return Err(Error::InvalidPrice);
        }
        if expiry <= now {
            return Err(Error::InvalidExpiry);
        }
        self.bump = bump;
        self.version = Listing::VERSION;
        self.authority = authority;
        self.id = id;
        self.is_virtual = is_virtual;
        self.currency_mint = currency_mint;
        self.price = price;
        self.expiry = expiry;
        self.fee_schedule = FeeSchedule::default();
        Ok(())
    }

    /// The fee for this listing's price under its schedule, or
    /// `OverflowError` if the exact amount does not fit the currency's base
    /// units.
    pub fn get_fee_amount(&self) -> (r: Result<u64, Error>)
        ensures
            r matches Ok(f) ==> f == crate::state::listing::fee_amount(
                self.price,
                self.fee_schedule.bps,
            ),
            r is Ok <==> crate::state::listing::fee_amount(self.price, self.fee_schedule.bps)
                <= u64::MAX,
            r is Err ==> r == Err::<u64, Error>(Error::OverflowError),
    {
        proof {
            assert(self.price as int * self.fee_schedule.bps as int <= u64::MAX as int
                * u16::MAX as int) by (nonlinear_arith)
                requires
                    self.price <= u64::MAX,
                    self.fee_schedule.bps <= u16::MAX,
            ;
        }
        let wide: u128 = (self.price as u128) * (self.fee_schedule.bps as u128);
        let fee: u128 = wide / 10000;
        if fee > u64::MAX as u128 {
            Err(Error::OverflowError)
        } else {
            Ok(fee as u64)
        }
    }

    /// Decides whether a buy naming exactly `price` is allowed now.
    pub fn assert_can_buy(&self, price: u64, now: i64) -> (r: Result<(), Error>)
        ensures
            r == assert_can_buy_spec(*self, price, now),
            r is Ok <==> now < self.expiry && self.price == price,
    {
        if self.expiry <= now {
            return Err(Error::ListingExpired);
        }
        if self.price != price {
            return Err(Error::PriceMismatch);
        }
        Ok(())
    }
}

} // verus!
