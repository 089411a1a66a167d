//! Places an NFT under custody: the owner voluntarily delegates freeze
//! authority over the mint to the custody record's derived authority.

use vstd::prelude::*;
use crate::keys::{Key, key_eq};
use crate::abort::Abort;
use crate::error::Error;
use crate::accounts::{AccountView, TokenAccount};
use crate::pda::{creation_spec, check_creation, custody_seeds, custody_seeds_spec};
use crate::state::custody_account::CustodyAccount;
use crate::state::listing::{Listing, listing_lookup_spec};

verus! {

/// The accounts of the instruction. `listing_record` is the deserialized
/// record of the account claiming to be the mint's listing, `None` iff that
/// account holds no data — the listing's absence is checked directly from
/// its re-derived address, never from a caller-supplied flag.
pub struct Custody {
    pub owner: Key,
    pub marketplace_authority: Key,
    /// The owner's token account of the mint, unpacked.
    pub token_account: TokenAccount,
    pub mint_key: Key,
    /// The address the fresh custody record is being created at.
    pub custody_account_key: Key,
    pub listing_account: AccountView,
    pub listing_record: Option<Listing>,
}

/// The effect of a successful custody: the record to store, the freeze to
/// issue under the custody's derived authority (whose signing seeds the
/// record's own seed method yields), and the event.
pub struct CustodyEffect {
    pub custody: CustodyAccount,
    pub event: crate::event::Custody,
}

/// What taking an NFT into custody decides: the owner must own the supplied
/// token account of the mint; the fresh custody address must derive from
/// the mint; no listing may exist for the mint — an existing one fails with
/// `NftIsListed`. The record starts unlisted and the NFT is frozen under
/// the custody's authority.
pub open spec fn custody_spec(ctx: Custody, item_id: [u8; 32], program_id: Key) -> Result<
    CustodyEffect,
    Abort,
> {
    if ctx.token_account.owner@ != ctx.owner@ {
        Err(Abort::Check(crate::util::error::Error::PublicKeyMismatch))
    } else if ctx.token_account.mint@ != ctx.mint_key@ {
        Err(Abort::Check(crate::util::error::Error::PublicKeyMismatch))
    } else {
        match creation_spec(
            ctx.custody_account_key@,
            custody_seeds_spec(ctx.mint_key@),
            program_id@,
        ) {
            Err(e) => Err(e),
            Ok(bump) => match listing_lookup_spec(
                ctx.listing_account.key@,
                ctx.listing_account.owner@,
                ctx.listing_record,
                ctx.mint_key@,
                program_id@,
            ) {
                Err(e) => Err(e),
                Ok(Option::Some(_)) => Err(Abort::Program(Error::NftIsListed)),
                Ok(Option::None) => {
                    let custody = CustodyAccount {
                        bump,
                        version: 1,
                        marketplace_authority: ctx.marketplace_authority,
                        authority: ctx.owner,
                        mint: ctx.mint_key,
                        is_listed: false,
                    };
                    Ok(
                        CustodyEffect {
                            custody,
                            event: crate::event::Custody {
                                marketplace_authority: ctx.marketplace_authority,
                                owner: ctx.owner,
                                mint: ctx.mint_key,
                                item_id,
                            },
                        },
                    )
                },
            },
        }
    }
}

/// Decides a custody transition: on success the caller stores the record,
/// issues the approve-and-freeze under the returned seeds, and emits the
/// event.
pub fn custody_handler(ctx: &Custody, item_id: [u8; 32], program_id: &Key) -> (r: Result<
    CustodyEffect,
    Abort,
>)
    ensures
        r == custody_spec(*ctx, item_id, *program_id),
        r matches Ok(e) ==> !e.custody.is_listed,
{
    if !key_eq(&ctx.token_account.owner, &ctx.owner) {
        return Err(Abort::Check(crate::util::error::Error::PublicKeyMismatch));
    }
    if !key_eq(&ctx.token_account.mint, &ctx.mint_key) {
        return Err(Abort::Check(crate::util::error::Error::PublicKeyMismatch));
    }
    let seeds = custody_seeds(&ctx.mint_key);
    let bump = check_creation(&ctx.custody_account_key, &seeds, program_id)?;
    let id = ctx.mint_key.to_bytes();
    let listing = Listing::from_account_info_with_checks(
        &ctx.listing_account.key,
        &ctx.listing_account.owner,
        ctx.listing_record,
        &id,
        program_id,
    )?;
    if listing.is_some() {
        return Err(Abort::Program(Error::NftIsListed));
    }
    let mut custody = CustodyAccount {
        bump: 0,
        version: 0,
        marketplace_authority: ctx.marketplace_authority,
        authority: ctx.owner,
        mint: ctx.mint_key,
        is_listed: false,
    };
    if let Err(e) = custody.init(bump, ctx.marketplace_authority, ctx.owner, ctx.mint_key) {
        return Err(Abort::Program(e));
    }
    Ok(
        CustodyEffect {
            custody,
            event: crate::event::Custody {
                marketplace_authority: ctx.marketplace_authority,
                owner: ctx.owner,
                mint: ctx.mint_key,
                item_id,
            },
        },
    )
}

} // verus!
