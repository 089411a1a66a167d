//! Creates a listing for a wallet-held NFT. A non-custodied NFT is frozen
//! in place under the fresh listing's own derived authority; a custodied one
//! is already frozen, so its custody record is only marked as listed.

use vstd::prelude::*;
use crate::keys::{Key, key_eq};
use crate::abort::Abort;
use crate::error::Error;
use crate::event::List;
use crate::accounts::{AccountView, MetadataInfo, TokenAccount};
use crate::pda::{
    canonical_check_spec, creation_spec, check_canonical, check_creation, collection_seeds,
    collection_seeds_spec, marketplace_seeds, marketplace_seeds_spec, listing_seeds,
    listing_seeds_spec,
};
use crate::state::listing::{Listing, validate_listing, validate_listing_spec};
use crate::state::collection_config::CollectionConfig;
use crate::state::custody_account::{CustodyAccount, custody_key_check_spec};
use crate::state::marketplace_config::MarketplaceConfig;
use crate::util::checks::{
    assert_is_nft_in_collection, nft_in_collection_spec, assert_keys_equal,
};

verus! {

/// The accounts of the instruction, as the values the decision reads. The
/// runtime has verified the seller's signature; `custody_record` is the
/// custody account's deserialized record, `None` iff it holds no data.
pub struct ListNft {
    pub seller: Key,
    /// The seller's token account of the mint, unpacked.
    pub token_account: TokenAccount,
    pub mint_key: Key,
    pub collection_mint_key: Key,
    pub metadata_account: AccountView,
    pub metadata: MetadataInfo,
    pub currency_mint: Key,
    /// The address the fresh listing record is being created at.
    pub listing_key: Key,
    pub collection_config: CollectionConfig,
    pub collection_config_key: Key,
    pub marketplace_config: MarketplaceConfig,
    pub marketplace_config_key: Key,
    pub custody_account: AccountView,
    pub custody_record: Option<CustodyAccount>,
}

/// The effect of a successful NFT listing.
pub struct ListNftEffect {
    /// The listing record to store.
    pub listing: Listing,
    /// The custody record to store back, marked listed, when the NFT was
    /// already custodied.
    pub custody_update: Option<CustodyAccount>,
    /// True iff the NFT must now be frozen under the listing's authority:
    /// exactly when no custody record exists, so a custodied NFT is never
    /// frozen a second time.
    pub freeze_with_listing_authority: bool,
    pub event: List,
}

/// What listing an NFT decides, in order: the seller must own the supplied
/// token account of the mint; the collection and marketplace configurations
/// must stand at their derived addresses and agree on the marketplace
/// authority; the fresh listing address must derive from the mint; the
/// metadata must prove verified membership in the collection; the custody
/// account must be the derived custody address; the price and expiry must
/// be valid. Then: with no custody record the NFT is frozen under the
/// listing's authority; with one, its marketplace authority must match and
/// only the custody's owner or the marketplace authority may list, and the
/// record is marked listed instead of a second freeze.
pub open spec fn list_nft_spec(
    ctx: ListNft,
    price: u64,
    expiry: i64,
    now: i64,
    program_id: Key,
) -> Result<ListNftEffect, Abort> {
    let cc = ctx.collection_config;
    let mc = ctx.marketplace_config;
    if ctx.token_account.owner@ != ctx.seller@ {
        Err(Abort::Check(crate::util::error::Error::PublicKeyMismatch))
    } else if ctx.token_account.mint@ != ctx.mint_key@ {
        Err(Abort::Check(crate::util::error::Error::PublicKeyMismatch))
    } else {
        match canonical_check_spec(
            ctx.collection_config_key@,
            cc.bump,
            collection_seeds_spec(ctx.collection_mint_key@),
            program_id@,
        ) {
            Err(e) => Err(e),
            Ok(_) => if cc.collection_mint@ != ctx.collection_mint_key@ {
                Err(Abort::Check(crate::util::error::Error::PublicKeyMismatch))
            } else if cc.marketplace_authority@ != mc.marketplace_authority@ {
                Err(Abort::Check(crate::util::error::Error::PublicKeyMismatch))
            } else {
                match canonical_check_spec(
                    ctx.marketplace_config_key@,
                    mc.bump,
                    marketplace_seeds_spec(mc.marketplace_authority@),
                    program_id@,
                ) {
                    Err(e) => Err(e),
                    Ok(_) => match creation_spec(
                        ctx.listing_key@,
                        listing_seeds_spec(ctx.mint_key@),
                        program_id@,
                    ) {
                        Err(e) => Err(e),
                        Ok(bump) => if nft_in_collection_spec(
                            ctx.metadata_account.owner@,
                            ctx.metadata,
                            ctx.mint_key@,
                            ctx.collection_mint_key@,
                        ) is Err {
                            Err(
                                Abort::Check(
                                    nft_in_collection_spec(
                                        ctx.metadata_account.owner@,
                                        ctx.metadata,
                                        ctx.mint_key@,
                                        ctx.collection_mint_key@,
                                    )->Err_0,
                                ),
                            )
                        } else {
                            match custody_key_check_spec(
                                ctx.custody_account.key@,
                                ctx.mint_key@,
                                program_id@,
                            ) {
                                Err(e) => Err(e),
                                Ok(_) => match validate_listing_spec(price, expiry, now) {
                                    Err(e) => Err(Abort::Program(e)),
                                    Ok(_) => {
                                        let listing = Listing {
                                            bump,
                                            version: 1,
                                            marketplace_authority: mc.marketplace_authority,
                                            seller: ctx.seller,
                                            id: ctx.mint_key.bytes,
                                            is_virtual: false,
                                            currency_mint: ctx.currency_mint,
                                            collection_config: ctx.collection_config_key,
                                            price,
                                            expiry,
                                            fee_config: mc.fee_config,
                                        };
                                        let event = List {
                                            item_id: ctx.mint_key.bytes,
                                            price,
                                            expiry,
                                            seller: ctx.seller,
                                            is_virtual: false,
                                            currency_mint: ctx.currency_mint,
                                            collection_mint: cc.collection_mint,
                                            marketplace_authority: mc.marketplace_authority,
                                            fee_config: mc.fee_config,
                                        };
                                        if ctx.custody_account.data@.len() == 0 {
                                            Ok(
                                                ListNftEffect {
                                                    listing,
                                                    custody_update: Option::None,
                                                    freeze_with_listing_authority: true,
                                                    event,
                                                },
                                            )
                                        } else {
                                            match ctx.custody_record {
                                                Option::None => Err(
                                                    Abort::Check(
                                                        crate::util::error::Error::UninitializedAccount,
                                                    ),
                                                ),
                                                Option::Some(cr) => if cr.marketplace_authority@
                                                    != cc.marketplace_authority@ {
                                                    Err(
                                                        Abort::Check(
                                                            crate::util::error::Error::PublicKeyMismatch,
                                                        ),
                                                    )
                                                } else if ctx.seller@ != cr.authority@ && ctx.seller@
                                                    != cc.marketplace_authority@ {
                                                    Err(Abort::Program(Error::InvalidSeller))
                                                } else {
                                                    Ok(
                                                        ListNftEffect {
                                                            listing,
                                                            custody_update: Option::Some(
                                                                CustodyAccount {
                                                                    is_listed: true,
                                                                    ..cr
                                                                },
                                                            ),
                                                            freeze_with_listing_authority: false,
                                                            event,
                                                        },
                                                    )
                                                },
                                            }
                                        }
                                    },
                                },
                            }
                        },
                    },
                }
            },
        }
    }
}

/// Decides an NFT listing: on success the caller stores the listing (and
/// the updated custody record, if any), issues the freeze only when asked
/// to, and emits the event.
pub fn list_nft_handler(
    ctx: &ListNft,
    price: u64,
    expiry: i64,
    now: i64,
    program_id: &Key,
) -> (r: Result<ListNftEffect, Abort>)
    ensures
        r == list_nft_spec(*ctx, price, expiry, now, *program_id),
        r matches Ok(e) ==> (e.custody_update is Some ==> !e.freeze_with_listing_authority),
{
    if !key_eq(&ctx.token_account.owner, &ctx.seller) {
        return Err(Abort::Check(crate::util::error::Error::PublicKeyMismatch));
    }
    if !key_eq(&ctx.token_account.mint, &ctx.mint_key) {
        return Err(Abort::Check(crate::util::error::Error::PublicKeyMismatch));
    }
    let cc_seeds = collection_seeds(&ctx.collection_mint_key);
    check_canonical(
        &ctx.collection_config_key,
        ctx.collection_config.bump,
        &cc_seeds,
        program_id,
    )?;
    if !key_eq(&ctx.collection_config.collection_mint, &ctx.collection_mint_key) {
        return Err(Abort::Check(crate::util::error::Error::PublicKeyMismatch));
    }
    if !key_eq(
        &ctx.collection_config.marketplace_authority,
        &ctx.marketplace_config.marketplace_authority,
    ) {
        return Err(Abort::Check(crate::util::error::Error::PublicKeyMismatch));
    }
    let mc_seeds = marketplace_seeds(&ctx.marketplace_config.marketplace_authority);
    check_canonical(
        &ctx.marketplace_config_key,
        ctx.marketplace_config.bump,
        &mc_seeds,
        program_id,
    )?;
    let id = ctx.mint_key.to_bytes();
    let l_seeds = listing_seeds(&id);
    let bump = check_creation(&ctx.listing_key, &l_seeds, program_id)?;
    if let Err(e) = assert_is_nft_in_collection(
        &ctx.mint_key,
        &ctx.metadata_account,
        &ctx.metadata,
        &ctx.collection_mint_key,
    ) {
        return Err(Abort::Check(e));
    }
    CustodyAccount::assert_is_key_for_mint(&ctx.custody_account.key, &ctx.mint_key, program_id)?;
    if let Err(e) = validate_listing(price, expiry, now) {
        return Err(Abort::Program(e));
    }
    let listing = Listing {
        bump,
        version: 1,
        marketplace_authority: ctx.marketplace_config.marketplace_authority,
        seller: ctx.seller,
        id,
        is_virtual: false,
        currency_mint: ctx.currency_mint,
        collection_config: ctx.collection_config_key,
        price,
        expiry,
        fee_config: ctx.marketplace_config.fee_config,
    };
    let event = List {
        item_id: id,
        price,
        expiry,
        seller: ctx.seller,
        is_virtual: false,
        currency_mint: ctx.currency_mint,
        collection_mint: ctx.collection_config.collection_mint,
        marketplace_authority: ctx.marketplace_config.marketplace_authority,
        fee_config: ctx.marketplace_config.fee_config,
    };
    if ctx.custody_account.data_is_empty() {
        Ok(
            ListNftEffect {
                listing,
                custody_update: None,
                freeze_with_listing_authority: true,
                event,
            },
        )
    } else {
        let cr = match ctx.custody_record {
            Some(cr) => cr,
            None => {
                return Err(Abort::Check(crate::util::error::Error::UninitializedAccount));
            },
        };
        if let Err(e) = assert_keys_equal(
            &cr.marketplace_authority,
            &ctx.collection_config.marketplace_authority,
        ) {
            return Err(Abort::Check(e));
        }
        if !key_eq(&ctx.seller, &cr.authority) && !key_eq(
            &ctx.seller,
            &ctx.collection_config.marketplace_authority,
        ) {
            return Err(Abort::Program(Error::InvalidSeller));
        }
        Ok(
            ListNftEffect {
                listing,
                custody_update: Some(CustodyAccount { is_listed: true, ..cr }),
                freeze_with_listing_authority: false,
                event,
            },
        )
    }
}

} // verus!
