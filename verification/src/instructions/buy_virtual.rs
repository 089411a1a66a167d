//! Buys a virtual item: the asset is minted to the buyer just in time,
//! verified into the collection, and the price is split — all inside one
//! atomic instruction which also closes the listing.

use vstd::prelude::*;
use crate::keys::{Key, key_eq};
use crate::abort::Abort;
use crate::error::Error;
use crate::event::Buy;
use crate::accounts::AccountView;
use crate::pda::{
    canonical_check_spec, check_canonical, collection_seeds, collection_seeds_spec, listing_seeds,
    listing_seeds_spec,
};
use crate::state::collection_config::CollectionConfig;
use crate::state::listing::{Listing, assert_can_buy_spec, fee_amount};
use crate::state::metadata::{Metadata, MetadataData};
use crate::util::checks::is_native_mint;

verus! {

/// The accounts of the instruction. `remaining` is the positional trailing
/// account list of the payment protocol, which also names the marketplace
/// authority.
pub struct BuyVirtual {
    pub buyer: Key,
    pub seller: Key,
    /// The fresh mint created for the item.
    pub mint_key: Key,
    pub collection_mint_key: Key,
    pub listing_key: Key,
    pub listing: Listing,
    pub collection_config: CollectionConfig,
    pub collection_config_key: Key,
    pub fee_account: Key,
    pub remaining: Vec<AccountView>,
}

/// The effect of a successful virtual purchase, up to the mint: the caller
/// mints the item to the buyer with the returned metadata payload, verifies
/// it into the collection under the marketplace authority, marks the
/// primary sale, then splits the price with the payment engine using the
/// listing data echoed here, closes the listing, and emits the event.
pub struct BuyVirtualEffect {
    /// The metadata payload for the mint.
    pub mint_data: MetadataData,
    /// The verified marketplace authority wallet, from its protocol
    /// position in the trailing account list.
    pub marketplace_authority: Key,
    /// The marketplace fee owed under the listing's snapshot.
    pub fee: u64,
    /// The gross price to split.
    pub price: u64,
    /// The currency of the sale.
    pub currency_mint: Key,
    /// The listing record is destroyed, its rent refunded here.
    pub close_listing_to: Key,
    pub event: Buy,
}

/// What buying a virtual item decides: the listing must stand at the
/// address derived from the item id under its stored bump, reference
/// exactly the supplied collection configuration, belong to the named
/// seller, list exactly this item id, be virtual, and name the supplied fee
/// account; the collection configuration must stand at its derived address
/// for the collection mint; the buy must be allowed now at the buyer's
/// ceiling; the marketplace authority at its protocol position in the
/// trailing accounts must be the collection's; and the fee must fit the
/// currency's base units.
pub open spec fn buy_virtual_spec(
    ctx: BuyVirtual,
    item_id: [u8; 32],
    max_price: u64,
    now: i64,
    program_id: Key,
) -> Result<(Key, u64, Key, Buy), Abort> {
    let l = ctx.listing;
    let cc = ctx.collection_config;
    match canonical_check_spec(
        ctx.listing_key@,
        l.bump,
        listing_seeds_spec(item_id@),
        program_id@,
    ) {
        Err(e) => Err(e),
        Ok(_) => if l.collection_config@ != ctx.collection_config_key@ {
            Err(Abort::Program(Error::InvalidCollectionConfig))
        } else if l.seller@ != ctx.seller@ {
            Err(Abort::Program(Error::InvalidSeller))
        } else if l.id@ != item_id@ {
            Err(Abort::Check(crate::util::error::Error::PublicKeyMismatch))
        } else if !l.is_virtual {
            Err(Abort::Program(Error::NotVirtual))
        } else if l.fee_config.fee_account@ != ctx.fee_account@ {
            Err(Abort::Program(Error::InvalidFeeAccount))
        } else {
            match canonical_check_spec(
                ctx.collection_config_key@,
                cc.bump,
                collection_seeds_spec(ctx.collection_mint_key@),
                program_id@,
            ) {
                Err(e) => Err(e),
                Ok(_) => if cc.collection_mint@ != ctx.collection_mint_key@ {
                    Err(Abort::Check(crate::util::error::Error::PublicKeyMismatch))
                } else {
                    match assert_can_buy_spec(l, max_price, now) {
                        Err(e) => Err(Abort::Program(e)),
                        Ok(_) => {
                            let auth_index: int = if l.currency_mint@
                                == crate::ids::native_mint_seq() {
                                0
                            } else {
                                2
                            };
                            if ctx.remaining@.len() <= auth_index {
                                Err(Abort::MissingAccount)
                            } else if cc.marketplace_authority@
                                != ctx.remaining@[auth_index].key@ {
                                Err(Abort::Program(Error::InvalidCollectionConfig))
                            } else if fee_amount(l.price, l.fee_config.bps) > u64::MAX {
                                Err(Abort::Program(Error::OverflowError))
                            } else {
                                let fee = fee_amount(l.price, l.fee_config.bps) as u64;
                                Ok(
                                    (
                                        cc.marketplace_authority,
                                        fee,
                                        ctx.seller,
                                        Buy {
                                            item_id,
                                            mint: ctx.mint_key,
                                            price: l.price,
                                            seller: l.seller,
                                            buyer: ctx.buyer,
                                            is_virtual: true,
                                            currency_mint: l.currency_mint,
                                            marketplace_authority: l.marketplace_authority,
                                            fee_config: l.fee_config,
                                        },
                                    ),
                                )
                            }
                        },
                    }
                },
            }
        },
    }
}

/// Decides a virtual purchase up to the mint. The payment itself is planned
/// afterwards, against the freshly minted item's metadata, by the payment
/// engine with the price, fee and currency echoed in the effect.
pub fn buy_virtual_handler(
    ctx: &BuyVirtual,
    item_id: [u8; 32],
    max_price: u64,
    metadata: Metadata,
    now: i64,
    program_id: &Key,
) -> (r: Result<BuyVirtualEffect, Abort>)
    ensures
        r matches Ok(e) ==> {
            &&& buy_virtual_spec(*ctx, item_id, max_price, now, *program_id) matches Ok(s) && s
                == (e.marketplace_authority, e.fee, e.close_listing_to, e.event)
            &&& e.price == ctx.listing.price
            &&& e.currency_mint == ctx.listing.currency_mint
            &&& e.mint_data.name@ == metadata.name@
            &&& e.mint_data.uri@ == metadata.uri@
            &&& e.mint_data.symbol@ == ctx.collection_config.symbol@
            &&& e.mint_data.seller_fee_basis_points
                == ctx.collection_config.seller_fee_basis_points
            &&& e.mint_data.creators matches Some(cs) && cs@.len() == 1 && cs@[0].address
                == ctx.collection_config.marketplace_authority && cs@[0].verified && cs@[0].share
                == 100
            &&& e.mint_data.collection matches Some(c) && !c.verified && c.key
                == ctx.collection_config.collection_mint
        },
        r matches Err(e) ==> buy_virtual_spec(*ctx, item_id, max_price, now, *program_id)
            matches Err(s) && s == e,
{
    let l = &ctx.listing;
    let seeds = listing_seeds(&item_id);
    check_canonical(&ctx.listing_key, l.bump, &seeds, program_id)?;
    if !key_eq(&l.collection_config, &ctx.collection_config_key) {
        return Err(Abort::Program(Error::InvalidCollectionConfig));
    }
    if !key_eq(&l.seller, &ctx.seller) {
        return Err(Abort::Program(Error::InvalidSeller));
    }
    let listing_id_key = Key::from_bytes(l.id);
    let item_id_key = Key::from_bytes(item_id);
    if !key_eq(&listing_id_key, &item_id_key) {
        return Err(Abort::Check(crate::util::error::Error::PublicKeyMismatch));
    }
    if !l.is_virtual {
        return Err(Abort::Program(Error::NotVirtual));
    }
    if !key_eq(&l.fee_config.fee_account, &ctx.fee_account) {
        return Err(Abort::Program(Error::InvalidFeeAccount));
    }
    let cc_seeds = collection_seeds(&ctx.collection_mint_key);
    check_canonical(
        &ctx.collection_config_key,
        ctx.collection_config.bump,
        &cc_seeds,
        program_id,
    )?;
    if !key_eq(&ctx.collection_config.collection_mint, &ctx.collection_mint_key) {
        return Err(Abort::Check(crate::util::error::Error::PublicKeyMismatch));
    }
    if let Err(e) = l.assert_can_buy(max_price, now) {
        return Err(Abort::Program(e));
    }
    let auth_index: usize = if is_native_mint(&l.currency_mint) {
        0
    } else {
        2
    };
    if ctx.remaining.len() <= auth_index {
        return Err(Abort::MissingAccount);
    }
    if !key_eq(&ctx.collection_config.marketplace_authority, &ctx.remaining[auth_index].key) {
        return Err(Abort::Program(Error::InvalidCollectionConfig));
    }
    let fee = match l.get_fee_amount() {
        Ok(f) => f,
        Err(e) => {
            return Err(Abort::Program(e));
        },
    };
    let mint_data = match ctx.collection_config.get_mpl_metadata(metadata) {
        Ok(d) => d,
        Err(e) => {
            return Err(Abort::Program(e));
        },
    };
    Ok(
        BuyVirtualEffect {
            mint_data,
            marketplace_authority: ctx.collection_config.marketplace_authority,
            fee,
            price: l.price,
            currency_mint: l.currency_mint,
            close_listing_to: ctx.seller,
            event: Buy {
                item_id,
                mint: ctx.mint_key,
                price: l.price,
                seller: l.seller,
                buyer: ctx.buyer,
                is_virtual: true,
                currency_mint: l.currency_mint,
                marketplace_authority: l.marketplace_authority,
                fee_config: l.fee_config,
            },
        },
    )
}

} // verus!
