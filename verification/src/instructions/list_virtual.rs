//! Creates a listing for a virtual (not-yet-minted) item.

use vstd::prelude::*;
use crate::keys::{Key, key_eq};
use crate::abort::Abort;
use crate::error::Error;
use crate::event::List;
use crate::pda::{
    canonical_check_spec, creation_spec, check_canonical, check_creation, collection_seeds,
    collection_seeds_spec, marketplace_seeds, marketplace_seeds_spec, listing_seeds,
    listing_seeds_spec,
};
use crate::state::listing::{Listing, validate_listing, validate_listing_spec};
use crate::state::collection_config::CollectionConfig;
use crate::state::marketplace_config::MarketplaceConfig;

verus! {

/// The accounts of the instruction, as the values the decision reads. The
/// runtime has verified the signatures of the seller and the marketplace
/// authority.
pub struct ListVirtual {
    pub seller: Key,
    pub marketplace_authority: Key,
    /// The currency the listing accepts; the native mint for the native
    /// currency.
    pub currency_mint: Key,
    /// The address the fresh listing record is being created at.
    pub listing_key: Key,
    pub collection_config: CollectionConfig,
    pub collection_config_key: Key,
    pub marketplace_config: MarketplaceConfig,
    pub marketplace_config_key: Key,
}

/// What listing a virtual item decides: the collection and marketplace
/// configurations must stand at their derived addresses and belong to the
/// signing marketplace authority; the fresh listing address must derive
/// from the item id; the price must be positive and the expiry nonnegative
/// and strictly in the future. On success, the filled listing record and
/// the event to emit.
pub open spec fn list_virtual_spec(
    ctx: ListVirtual,
    item_id: [u8; 32],
    price: u64,
    expiry: i64,
    now: i64,
    program_id: Key,
) -> Result<(Listing, List), Abort> {
    let cc = ctx.collection_config;
    let mc = ctx.marketplace_config;
    match canonical_check_spec(
        ctx.collection_config_key@,
        cc.bump,
        collection_seeds_spec(cc.collection_mint@),
        program_id@,
    ) {
        Err(e) => Err(e),
        Ok(_) => if cc.marketplace_authority@ != ctx.marketplace_authority@ {
            Err(Abort::Check(crate::util::error::Error::PublicKeyMismatch))
        } else {
            match canonical_check_spec(
                ctx.marketplace_config_key@,
                mc.bump,
                marketplace_seeds_spec(mc.marketplace_authority@),
                program_id@,
            ) {
                Err(e) => Err(e),
                Ok(_) => if mc.marketplace_authority@ != ctx.marketplace_authority@ {
                    Err(Abort::Check(crate::util::error::Error::PublicKeyMismatch))
                } else {
                    match creation_spec(ctx.listing_key@, listing_seeds_spec(item_id@), program_id@) {
                        Err(e) => Err(e),
                        Ok(bump) => if price == 0 {
                            Err(Abort::Program(Error::InvalidPrice))
                        } else if expiry < 0 {
                            Err(Abort::Program(Error::InvalidExpiry))
                        } else {
                            match validate_listing_spec(price, expiry, now) {
                                Err(e) => Err(Abort::Program(e)),
                                Ok(_) => {
                                    let listing = Listing {
                                        bump,
                                        version: 1,
                                        marketplace_authority: ctx.marketplace_authority,
                                        seller: ctx.seller,
                                        id: item_id,
                                        is_virtual: true,
                                        currency_mint: ctx.currency_mint,
                                        collection_config: ctx.collection_config_key,
                                        price,
                                        expiry,
                                        fee_config: mc.fee_config,
                                    };
                                    let event = List {
                                        item_id,
                                        price,
                                        expiry,
                                        seller: ctx.seller,
                                        is_virtual: true,
                                        currency_mint: ctx.currency_mint,
                                        collection_mint: cc.collection_mint,
                                        marketplace_authority: ctx.marketplace_authority,
                                        fee_config: mc.fee_config,
                                    };
                                    Ok((listing, event))
                                },
                            }
                        },
                    }
                },
            }
        },
    }
}

/// Decides a virtual listing: on success the caller stores the returned
/// record at the listing address and emits the event.
pub fn list_virtual_handler(
    ctx: &ListVirtual,
    item_id: [u8; 32],
    price: u64,
    expiry: i64,
    now: i64,
    program_id: &Key,
) -> (r: Result<(Listing, List), Abort>)
    ensures
        r == list_virtual_spec(*ctx, item_id, price, expiry, now, *program_id),
{
    let cc_seeds = collection_seeds(&ctx.collection_config.collection_mint);
    check_canonical(
        &ctx.collection_config_key,
        ctx.collection_config.bump,
        &cc_seeds,
        program_id,
    )?;
    if !key_eq(&ctx.collection_config.marketplace_authority, &ctx.marketplace_authority) {
        return Err(Abort::Check(crate::util::error::Error::PublicKeyMismatch));
    }
    let mc_seeds = marketplace_seeds(&ctx.marketplace_config.marketplace_authority);
    check_canonical(
        &ctx.marketplace_config_key,
        ctx.marketplace_config.bump,
        &mc_seeds,
        program_id,
    )?;
    if !key_eq(&ctx.marketplace_config.marketplace_authority, &ctx.marketplace_authority) {
        return Err(Abort::Check(crate::util::error::Error::PublicKeyMismatch));
    }
    let l_seeds = listing_seeds(&item_id);
    let bump = check_creation(&ctx.listing_key, &l_seeds, program_id)?;
    if price == 0 {
        return Err(Abort::Program(Error::InvalidPrice));
    }
    if expiry < 0 {
        return Err(Abort::Program(Error::InvalidExpiry));
    }
    if let Err(e) = validate_listing(price, expiry, now) {
        return Err(Abort::Program(e));
    }
    let listing = Listing {
        bump,
        version: 1,
        marketplace_authority: ctx.marketplace_authority,
        seller: ctx.seller,
        id: item_id,
        is_virtual: true,
        currency_mint: ctx.currency_mint,
        collection_config: ctx.collection_config_key,
        price,
        expiry,
        fee_config: ctx.marketplace_config.fee_config,
    };
    let event = List {
        item_id,
        price,
        expiry,
        seller: ctx.seller,
        is_virtual: true,
        currency_mint: ctx.currency_mint,
        collection_mint: ctx.collection_config.collection_mint,
        marketplace_authority: ctx.marketplace_authority,
        fee_config: ctx.marketplace_config.fee_config,
    };
    Ok((listing, event))
}

} // verus!
