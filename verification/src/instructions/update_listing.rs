//! Seller-only mutation of an open listing's price and expiry. The
//! currency, fee snapshot and item identity never change here.

use vstd::prelude::*;
use crate::keys::{Key, key_eq};
use crate::abort::Abort;
use crate::error::Error;
use crate::event::ListingUpdate;
use crate::pda::{canonical_check_spec, check_canonical, listing_seeds, listing_seeds_spec};
use crate::state::listing::{Listing, validate_listing_spec};

verus! {

/// The accounts of the instruction: the signing seller and the listing
/// record at its claimed address.
pub struct UpdateListing {
    pub seller: Key,
    pub listing_key: Key,
    pub listing: Listing,
}

/// What updating a listing decides: the listing must stand at its derived
/// address under its stored bump and belong to the signing seller; the new
/// price must be positive and the new expiry nonnegative and strictly in
/// the future. On success, the updated record — only price and expiry
/// change — and the event to emit.
pub open spec fn update_listing_spec(
    ctx: UpdateListing,
    price: u64,
    expiry: i64,
    now: i64,
    program_id: Key,
) -> Result<(Listing, ListingUpdate), Abort> {
    let l = ctx.listing;
    match canonical_check_spec(
        ctx.listing_key@,
        l.bump,
        listing_seeds_spec(l.id@),
        program_id@,
    ) {
        Err(e) => Err(e),
        Ok(_) => if l.seller@ != ctx.seller@ {
            Err(Abort::Program(Error::InvalidSeller))
        } else if price == 0 {
            Err(Abort::Program(Error::InvalidPrice))
        } else if expiry < 0 {
            Err(Abort::Program(Error::InvalidExpiry))
        } else {
            match validate_listing_spec(price, expiry, now) {
                Err(e) => Err(Abort::Program(e)),
                Ok(_) => {
                    let updated = Listing { price, expiry, ..l };
                    let event = ListingUpdate {
                        item_id: l.id,
                        price,
                        expiry,
                        seller: l.seller,
                        is_virtual: l.is_virtual,
                        currency_mint: l.currency_mint,
                        collection_mint: l.collection_config,
                        marketplace_authority: l.marketplace_authority,
                        fee_config: l.fee_config,
                    };
                    Ok((updated, event))
                },
            }
        },
    }
}

/// Decides a listing update: on success the caller stores the returned
/// record and emits the event.
pub fn update_listing_handler(
    ctx: &UpdateListing,
    price: u64,
    expiry: i64,
    now: i64,
    program_id: &Key,
) -> (r: Result<(Listing, ListingUpdate), Abort>)
    ensures
        r == update_listing_spec(*ctx, price, expiry, now, *program_id),
{
    let seeds = listing_seeds(&ctx.listing.id);
    check_canonical(&ctx.listing_key, ctx.listing.bump, &seeds, program_id)?;
    if !key_eq(&ctx.listing.seller, &ctx.seller) {
        return Err(Abort::Program(Error::InvalidSeller));
    }
    if price == 0 {
        return Err(Abort::Program(Error::InvalidPrice));
    }
    if expiry < 0 {
        return Err(Abort::Program(Error::InvalidExpiry));
    }
    let mut updated = ctx.listing;
    if let Err(e) = updated.update(price, expiry, now) {
        return Err(Abort::Program(e));
    }
    let event = ListingUpdate {
        item_id: ctx.listing.id,
        price,
        expiry,
        seller: ctx.listing.seller,
        is_virtual: ctx.listing.is_virtual,
        currency_mint: ctx.listing.currency_mint,
        collection_mint: ctx.listing.collection_config,
        marketplace_authority: ctx.listing.marketplace_authority,
        fee_config: ctx.listing.fee_config,
    };
    Ok((updated, event))
}

} // verus!
