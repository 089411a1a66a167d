//! The liquidation path: the marketplace authority of a custody takes the
//! custodied NFT for itself — thaw, transfer to the authority, destroy the
//! custody record.

use vstd::prelude::*;
use crate::keys::{Key, key_eq};
use crate::abort::Abort;
use crate::error::Error;
use crate::accounts::{AccountView, TokenAccount};
use crate::pda::{canonical_check_spec, check_canonical, custody_seeds, custody_seeds_spec};
use crate::state::custody_account::CustodyAccount;
use crate::state::listing::{Listing, listing_lookup_spec};
use crate::util::transfer::{PayStep, transfer_spl, transfer_spl_spec};

verus! {

/// The accounts of the instruction. The runtime has verified the signature
/// of the marketplace authority; the owner need not sign this path.
pub struct TakeOwnership {
    pub marketplace_authority: Key,
    pub owner: Key,
    /// The owner's token account of the mint, unpacked.
    pub token_account: TokenAccount,
    pub token_account_key: Key,
    /// The marketplace authority's token account for the mint.
    pub marketplace_authority_token_account: AccountView,
    pub mint_account: AccountView,
    pub mint_key: Key,
    pub custody_account_key: Key,
    pub custody: CustodyAccount,
    pub listing_account: AccountView,
    pub listing_record: Option<Listing>,
}

/// The effect of a successful seizure: thaw under the custody's authority,
/// transfer the single token to the marketplace authority, destroy the
/// record with its rent refunded to the owner.
pub struct TakeOwnershipEffect {
    /// The custody record whose authority signs the thaw and the transfer.
    pub custody: CustodyAccount,
    pub nft_transfer: PayStep,
    pub close_custody_to: Key,
}

/// What a seizure decides: the owner must own the supplied token account of
/// the mint; the custody record must stand at its derived address under its
/// stored bump and name exactly this marketplace authority, owner and mint
/// — only the verified marketplace authority of this custody may seize; no
/// listing may exist for the mint; the destination token account must be
/// absent (to be created) or the authority's valid associated account.
pub open spec fn take_ownership_spec(ctx: TakeOwnership, program_id: Key) -> Result<
    TakeOwnershipEffect,
    Abort,
> {
    let c = ctx.custody;
    if ctx.token_account.owner@ != ctx.owner@ {
        Err(Abort::Check(crate::util::error::Error::PublicKeyMismatch))
    } else if ctx.token_account.mint@ != ctx.mint_key@ {
        Err(Abort::Check(crate::util::error::Error::PublicKeyMismatch))
    } else {
        match canonical_check_spec(
            ctx.custody_account_key@,
            c.bump,
            custody_seeds_spec(ctx.mint_key@),
            program_id@,
        ) {
            Err(e) => Err(e),
            Ok(_) => if c.marketplace_authority@ != ctx.marketplace_authority@ || c.authority@
                != ctx.owner@ || c.mint@ != ctx.mint_key@ {
                Err(Abort::Check(crate::util::error::Error::PublicKeyMismatch))
            } else {
                match listing_lookup_spec(
                    ctx.listing_account.key@,
                    ctx.listing_account.owner@,
                    ctx.listing_record,
                    ctx.mint_key@,
                    program_id@,
                ) {
                    Err(e) => Err(e),
                    Ok(Option::Some(_)) => Err(Abort::Program(Error::NftIsListed)),
                    Ok(Option::None) => match transfer_spl_spec(
                        ctx.marketplace_authority,
                        ctx.token_account_key,
                        ctx.marketplace_authority_token_account,
                        ctx.mint_account,
                        ctx.custody_account_key,
                        1,
                    ) {
                        Err(e) => Err(Abort::Check(e)),
                        Ok(Option::None) => Err(Abort::MissingAccount),
                        Ok(Option::Some(step)) => Ok(
                            TakeOwnershipEffect {
                                custody: c,
                                nft_transfer: step,
                                close_custody_to: ctx.owner,
                            },
                        ),
                    },
                }
            },
        }
    }
}

/// Decides a seizure: on success the caller thaws under the custody's
/// seeds, performs the transfer, destroys the record and refunds its rent
/// to the owner.
pub fn take_ownership_handler(ctx: &TakeOwnership, program_id: &Key) -> (r: Result<
    TakeOwnershipEffect,
    Abort,
>)
    ensures
        r == take_ownership_spec(*ctx, *program_id),
{
    if !key_eq(&ctx.token_account.owner, &ctx.owner) {
        return Err(Abort::Check(crate::util::error::Error::PublicKeyMismatch));
    }
    if !key_eq(&ctx.token_account.mint, &ctx.mint_key) {
        return Err(Abort::Check(crate::util::error::Error::PublicKeyMismatch));
    }
    let seeds = custody_seeds(&ctx.mint_key);
    check_canonical(&ctx.custody_account_key, ctx.custody.bump, &seeds, program_id)?;
    if !key_eq(&ctx.custody.marketplace_authority, &ctx.marketplace_authority) || !key_eq(
        &ctx.custody.authority,
        &ctx.owner,
    ) || !key_eq(&ctx.custody.mint, &ctx.mint_key) {
        return Err(Abort::Check(crate::util::error::Error::PublicKeyMismatch));
    }
    let id = ctx.mint_key.to_bytes();
    let listing = Listing::from_account_info_with_checks(
        &ctx.listing_account.key,
        &ctx.listing_account.owner,
        ctx.listing_record,
        &id,
        program_id,
    )?;
    if listing.is_some() {
        return Err(Abort::Program(Error::NftIsListed));
    }
    let step = match transfer_spl(
        &ctx.marketplace_authority,
        &ctx.token_account_key,
        &ctx.marketplace_authority_token_account,
        &ctx.mint_account,
        &ctx.custody_account_key,
        1,
    ) {
        Ok(Some(step)) => step,
        Ok(None) => {
            return Err(Abort::MissingAccount);
        },
        Err(e) => {
            return Err(Abort::Check(e));
        },
    };
    Ok(
        TakeOwnershipEffect {
            custody: ctx.custody,
            nft_transfer: step,
            close_custody_to: ctx.owner,
        },
    )
}

} // verus!
