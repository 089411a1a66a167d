//! Closes a virtual item's listing without a sale, refunding the record's
//! rent to the seller.

use vstd::prelude::*;
use crate::keys::{Key, key_eq};
use crate::abort::Abort;
use crate::error::Error;
use crate::event::Delist;
use crate::pda::{canonical_check_spec, check_canonical, listing_seeds, listing_seeds_spec};
use crate::state::listing::Listing;

verus! {

/// The accounts of the instruction: the signing seller and the listing
/// record at its claimed address.
pub struct DelistVirtual {
    pub seller: Key,
    pub listing_key: Key,
    pub listing: Listing,
}

/// The effect of a successful delisting: the listing record is destroyed,
/// its rent refunded to the named wallet, and the event emitted.
pub struct DelistVirtualEffect {
    pub close_listing_to: Key,
    pub event: Delist,
}

/// What delisting a virtual item decides: the listing must stand at the
/// address derived from the instruction's item id under its stored bump and
/// belong to the signing seller; then it closes with its rent refunded to
/// the seller.
pub open spec fn delist_virtual_spec(
    ctx: DelistVirtual,
    item_id: [u8; 32],
    program_id: Key,
) -> Result<DelistVirtualEffect, Abort> {
    let l = ctx.listing;
    match canonical_check_spec(
        ctx.listing_key@,
        l.bump,
        listing_seeds_spec(item_id@),
        program_id@,
    ) {
        Err(e) => Err(e),
        Ok(_) => if l.seller@ != ctx.seller@ {
            Err(Abort::Program(Error::InvalidSeller))
        } else {
            Ok(
                DelistVirtualEffect {
                    close_listing_to: ctx.seller,
                    event: Delist {
                        item_id,
                        seller: l.seller,
                        marketplace_authority: l.marketplace_authority,
                        collection_config: l.collection_config,
                    },
                },
            )
        },
    }
}

/// Decides a virtual delisting: on success the caller destroys the listing
/// record, refunds its rent, and emits the event.
pub fn delist_virtual_handler(ctx: &DelistVirtual, item_id: [u8; 32], program_id: &Key) -> (r:
    Result<DelistVirtualEffect, Abort>)
    ensures
        r == delist_virtual_spec(*ctx, item_id, *program_id),
{
    let seeds = listing_seeds(&item_id);
    check_canonical(&ctx.listing_key, ctx.listing.bump, &seeds, program_id)?;
    if !key_eq(&ctx.listing.seller, &ctx.seller) {
        return Err(Abort::Program(Error::InvalidSeller));
    }
    Ok(
        DelistVirtualEffect {
            close_listing_to: ctx.seller,
            event: Delist {
                item_id,
                seller: ctx.listing.seller,
                marketplace_authority: ctx.listing.marketplace_authority,
                collection_config: ctx.listing.collection_config,
            },
        },
    )
}

} // verus!
