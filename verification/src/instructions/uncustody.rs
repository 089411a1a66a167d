//! Returns a custodied NFT to its owner: thaw, revoke the delegation, and
//! destroy the custody record.

use vstd::prelude::*;
use crate::keys::{Key, key_eq};
use crate::abort::Abort;
use crate::error::Error;
use crate::accounts::{AccountView, TokenAccount};
use crate::pda::{canonical_check_spec, check_canonical, custody_seeds, custody_seeds_spec};
use crate::state::custody_account::CustodyAccount;
use crate::state::listing::{Listing, listing_lookup_spec};

verus! {

/// The accounts of the instruction. `listing_record` is the deserialized
/// record of the account claiming to be the mint's listing, `None` iff that
/// account holds no data.
pub struct Uncustody {
    pub owner: Key,
    pub marketplace_authority: Key,
    /// The owner's token account of the mint, unpacked.
    pub token_account: TokenAccount,
    pub mint_key: Key,
    pub custody_account_key: Key,
    pub custody: CustodyAccount,
    pub listing_account: AccountView,
    pub listing_record: Option<Listing>,
}

/// The effect of a successful uncustody: thaw and revoke under the
/// custody's authority, then destroy the record, rent to the owner.
pub struct UncustodyEffect {
    /// The custody record whose authority signs the thaw and revoke.
    pub custody: CustodyAccount,
    pub close_custody_to: Key,
    pub event: crate::event::Uncustody,
}

/// What releasing a custody decides: the owner must own the supplied token
/// account of the mint; the custody record must stand at its derived
/// address under its stored bump and name exactly this marketplace
/// authority, owner and mint; no listing may exist for the mint. Then the
/// NFT is thawed, the delegation revoked, and the record destroyed with its
/// rent refunded to the owner.
pub open spec fn uncustody_spec(ctx: Uncustody, program_id: Key) -> Result<UncustodyEffect, Abort> {
    let c = ctx.custody;
    if ctx.token_account.owner@ != ctx.owner@ {
        Err(Abort::Check(crate::util::error::Error::PublicKeyMismatch))
    } else if ctx.token_account.mint@ != ctx.mint_key@ {
        Err(Abort::Check(crate::util::error::Error::PublicKeyMismatch))
    } else {
        match canonical_check_spec(
            ctx.custody_account_key@,
            c.bump,
            custody_seeds_spec(ctx.mint_key@),
            program_id@,
        ) {
            Err(e) => Err(e),
            Ok(_) => if c.marketplace_authority@ != ctx.marketplace_authority@ || c.authority@
                != ctx.owner@ || c.mint@ != ctx.mint_key@ {
                Err(Abort::Check(crate::util::error::Error::PublicKeyMismatch))
            } else {
                match listing_lookup_spec(
                    ctx.listing_account.key@,
                    ctx.listing_account.owner@,
                    ctx.listing_record,
                    ctx.mint_key@,
                    program_id@,
                ) {
                    Err(e) => Err(e),
                    Ok(Option::Some(_)) => Err(Abort::Program(Error::NftIsListed)),
                    Ok(Option::None) => Ok(
                        UncustodyEffect {
                            custody: c,
                            close_custody_to: ctx.owner,
                            event: crate::event::Uncustody {
                                marketplace_authority: ctx.marketplace_authority,
                                owner: ctx.owner,
                                mint: ctx.mint_key,
                            },
                        },
                    ),
                }
            },
        }
    }
}

/// Decides an uncustody: on success the caller thaws and revokes under the
/// custody's seeds, destroys the record, refunds its rent to the owner, and
/// emits the event.
pub fn uncustody_handler(ctx: &Uncustody, program_id: &Key) -> (r: Result<UncustodyEffect, Abort>)
    ensures
        r == uncustody_spec(*ctx, *program_id),
{
    if !key_eq(&ctx.token_account.owner, &ctx.owner) {
        return Err(Abort::Check(crate::util::error::Error::PublicKeyMismatch));
    }
    if !key_eq(&ctx.token_account.mint, &ctx.mint_key) {
        return Err(Abort::Check(crate::util::error::Error::PublicKeyMismatch));
    }
    let seeds = custody_seeds(&ctx.mint_key);
    check_canonical(&ctx.custody_account_key, ctx.custody.bump, &seeds, program_id)?;
    if !key_eq(&ctx.custody.marketplace_authority, &ctx.marketplace_authority) || !key_eq(
        &ctx.custody.authority,
        &ctx.owner,
    ) || !key_eq(&ctx.custody.mint, &ctx.mint_key) {
        return Err(Abort::Check(crate::util::error::Error::PublicKeyMismatch));
    }
    let id = ctx.mint_key.to_bytes();
    let listing = Listing::from_account_info_with_checks(
        &ctx.listing_account.key,
        &ctx.listing_account.owner,
        ctx.listing_record,
        &id,
        program_id,
    )?;
    if listing.is_some() {
        return Err(Abort::Program(Error::NftIsListed));
    }
    Ok(
        UncustodyEffect {
            custody: ctx.custody,
            close_custody_to: ctx.owner,
            event: crate::event::Uncustody {
                marketplace_authority: ctx.marketplace_authority,
                owner: ctx.owner,
                mint: ctx.mint_key,
            },
        },
    )
}

} // verus!
