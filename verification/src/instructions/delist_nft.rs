//! Closes an NFT listing without a sale. A self-custodied NFT (frozen under
//! the listing's own authority) is thawed and its delegation revoked; a
//! marketplace-custodied one merely has its custody record marked unlisted.

use vstd::prelude::*;
use crate::keys::{Key, key_eq};
use crate::abort::Abort;
use crate::error::Error;
use crate::accounts::{AccountView, TokenAccount};
use crate::pda::{canonical_check_spec, check_canonical, listing_seeds, listing_seeds_spec};
use crate::state::custody_account::{CustodyAccount, custody_key_check_spec};
use crate::state::listing::Listing;

verus! {

/// The accounts of the instruction. `custody_record` is the custody
/// account's deserialized record, `None` iff it holds no data.
pub struct DelistNft {
    pub seller: Key,
    /// The seller's token account of the mint, unpacked.
    pub token_account: TokenAccount,
    pub mint_key: Key,
    pub listing_key: Key,
    pub listing: Listing,
    pub custody_account: AccountView,
    pub custody_record: Option<CustodyAccount>,
}

/// The effect of a successful delisting.
pub struct DelistNftEffect {
    /// True iff the NFT must be thawed and its delegation revoked under the
    /// listing's authority: exactly when it was not marketplace-custodied.
    pub thaw_and_revoke_with_listing_authority: bool,
    /// The custody record to store back, marked unlisted, when the NFT was
    /// marketplace-custodied.
    pub custody_update: Option<CustodyAccount>,
    /// The listing record is destroyed, its rent refunded here.
    pub close_listing_to: Key,
}

/// What delisting an NFT decides: the seller must own the supplied token
/// account of the mint; the listing must stand at the address derived from
/// the mint under its stored bump, belong to the signing seller, not be
/// virtual, and list exactly this mint; the custody account must be the
/// derived custody address. Without a custody record the freeze-delegation
/// is reversed; with one, its marketplace authority must match the
/// listing's and the record is marked unlisted. Either way the listing
/// closes, rent to the seller.
pub open spec fn delist_nft_spec(ctx: DelistNft, program_id: Key) -> Result<DelistNftEffect, Abort> {
    let l = ctx.listing;
    if ctx.token_account.owner@ != ctx.seller@ {
        Err(Abort::Check(crate::util::error::Error::PublicKeyMismatch))
    } else if ctx.token_account.mint@ != ctx.mint_key@ {
        Err(Abort::Check(crate::util::error::Error::PublicKeyMismatch))
    } else {
        match canonical_check_spec(
            ctx.listing_key@,
            l.bump,
            listing_seeds_spec(ctx.mint_key@),
            program_id@,
        ) {
            Err(e) => Err(e),
            Ok(_) => if l.seller@ != ctx.seller@ {
                Err(Abort::Program(Error::InvalidSeller))
            } else if l.is_virtual {
                Err(Abort::Program(Error::IsVirtual))
            } else if l.id@ != ctx.mint_key@ {
                Err(Abort::Program(Error::InvalidMint))
            } else {
                match custody_key_check_spec(
                    ctx.custody_account.key@,
                    ctx.mint_key@,
                    program_id@,
                ) {
                    Err(e) => Err(e),
                    Ok(_) => if ctx.custody_account.data@.len() == 0 {
                        Ok(
                            DelistNftEffect {
                                thaw_and_revoke_with_listing_authority: true,
                                custody_update: Option::None,
                                close_listing_to: ctx.seller,
                            },
                        )
                    } else {
                        match ctx.custody_record {
                            Option::None => Err(
                                Abort::Check(crate::util::error::Error::UninitializedAccount),
                            ),
                            Option::Some(cr) => if cr.marketplace_authority@
                                != l.marketplace_authority@ {
                                Err(
                                    Abort::Check(
                                        crate::util::error::Error::PublicKeyMismatch,
                                    ),
                                )
                            } else {
                                Ok(
                                    DelistNftEffect {
                                        thaw_and_revoke_with_listing_authority: false,
                                        custody_update: Option::Some(
                                            CustodyAccount { is_listed: false, ..cr },
                                        ),
                                        close_listing_to: ctx.seller,
                                    },
                                )
                            },
                        }
                    },
                }
            },
        }
    }
}

/// Decides an NFT delisting: on success the caller reverses the
/// freeze-delegation only when asked to, stores the custody update if any,
/// and destroys the listing with its rent refunded to the seller.
pub fn delist_nft_handler(ctx: &DelistNft, program_id: &Key) -> (r: Result<DelistNftEffect, Abort>)
    ensures
        r == delist_nft_spec(*ctx, *program_id),
        r matches Ok(e) ==> (e.custody_update is Some
            ==> !e.thaw_and_revoke_with_listing_authority),
{
    if !key_eq(&ctx.token_account.owner, &ctx.seller) {
        return Err(Abort::Check(crate::util::error::Error::PublicKeyMismatch));
    }
    if !key_eq(&ctx.token_account.mint, &ctx.mint_key) {
        return Err(Abort::Check(crate::util::error::Error::PublicKeyMismatch));
    }
    let id = ctx.mint_key.to_bytes();
    let seeds = listing_seeds(&id);
    check_canonical(&ctx.listing_key, ctx.listing.bump, &seeds, program_id)?;
    if !key_eq(&ctx.listing.seller, &ctx.seller) {
        return Err(Abort::Program(Error::InvalidSeller));
    }
    if ctx.listing.is_virtual {
        return Err(Abort::Program(Error::IsVirtual));
    }
    let listing_id_key = Key::from_bytes(ctx.listing.id);
    if !key_eq(&listing_id_key, &ctx.mint_key) {
        return Err(Abort::Program(Error::InvalidMint));
    }
    CustodyAccount::assert_is_key_for_mint(&ctx.custody_account.key, &ctx.mint_key, program_id)?;
    if ctx.custody_account.data_is_empty() {
        Ok(
            DelistNftEffect {
                thaw_and_revoke_with_listing_authority: true,
                custody_update: None,
                close_listing_to: ctx.seller,
            },
        )
    } else {
        let cr = match ctx.custody_record {
            Some(cr) => cr,
            None => {
                return Err(Abort::Check(crate::util::error::Error::UninitializedAccount));
            },
        };
        if !key_eq(&cr.marketplace_authority, &ctx.listing.marketplace_authority) {
            return Err(Abort::Check(crate::util::error::Error::PublicKeyMismatch));
        }
        Ok(
            DelistNftEffect {
                thaw_and_revoke_with_listing_authority: false,
                custody_update: Some(CustodyAccount { is_listed: false, ..cr }),
                close_listing_to: ctx.seller,
            },
        )
    }
}

} // verus!
