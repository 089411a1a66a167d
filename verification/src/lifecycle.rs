//! The listing and custody lifecycles across instructions: what freezing
//! and thawing do to a token, that custody round-trips cleanly, that a
//! custodied item is never frozen twice, and that a closed record is gone
//! for good.

use vstd::prelude::*;
use crate::keys::Key;
use crate::state::listing::{Listing, listing_lookup_spec};
use crate::instructions::custody::{Custody, CustodyEffect, custody_spec};
use crate::instructions::uncustody::{Uncustody, uncustody_spec};
use crate::instructions::list_nft::{ListNft, ListNftEffect, list_nft_spec};

verus! {

/// A token account's escrow-relevant state: whether it is frozen and which
/// delegate, if any, is approved on it.
pub struct TokenState {
    pub frozen: bool,
    pub delegate: Option<Key>,
}

/// What an approve-and-freeze under `delegate` does to a token.
pub open spec fn apply_approve_and_freeze(t: TokenState, delegate: Key) -> TokenState {
    TokenState { frozen: true, delegate: Option::Some(delegate) }
}

/// What a thaw-and-revoke does to a token.
pub open spec fn apply_thaw_and_revoke(t: TokenState) -> TokenState {
    TokenState { frozen: false, delegate: Option::None }
}

/// Taking custody and then releasing it is a clean round trip: when a
/// custody succeeds and the owner then releases it against the very record
/// it created (no listing having appeared in between), the release
/// succeeds, the custody record is destroyed with its rent back to the
/// owner, and the token — frozen under the custody's authority in between —
/// ends unfrozen and undelegated, exactly as it began.
pub proof fn lemma_custody_round_trip(
    c_ctx: Custody,
    u_ctx: Uncustody,
    item_id: [u8; 32],
    program_id: Key,
    effect: CustodyEffect,
    t0: TokenState,
)
    requires
        custody_spec(c_ctx, item_id, program_id) == Ok::<CustodyEffect, crate::abort::Abort>(
            effect,
        ),
        u_ctx.custody == effect.custody,
        u_ctx.owner == c_ctx.owner,
        u_ctx.marketplace_authority == c_ctx.marketplace_authority,
        u_ctx.mint_key == c_ctx.mint_key,
        u_ctx.token_account == c_ctx.token_account,
        u_ctx.custody_account_key == c_ctx.custody_account_key,
        u_ctx.listing_account == c_ctx.listing_account,
        u_ctx.listing_record == c_ctx.listing_record,
        !t0.frozen,
        t0.delegate is None,
    ensures
        uncustody_spec(u_ctx, program_id) matches Ok(u) && u.close_custody_to == c_ctx.owner
            && u.custody == effect.custody,
        apply_thaw_and_revoke(
            apply_approve_and_freeze(t0, c_ctx.custody_account_key),
        ) == t0,
{
}

/// A record closes only once: the account at the derived address is empty
/// afterwards, and an empty account always loads as the checkable absent
/// state, never as a record — so a second close, which needs the loaded
/// record, has nothing to act on.
pub proof fn lemma_listing_closes_once(
    account_key: Seq<u8>,
    account_owner: Seq<u8>,
    id: Seq<u8>,
    program_id: Seq<u8>,
)
    ensures
        listing_lookup_spec(account_key, account_owner, Option::None, id, program_id) is Ok
            ==> listing_lookup_spec(account_key, account_owner, Option::None, id, program_id)
            == Ok::<Option<Listing>, crate::abort::Abort>(Option::<Listing>::None),
{
}

/// A custody record, too, closes only once: a buy that finds the custody
/// account at the derived address already empty takes the listing-authority
/// path and closes no custody record — there is nothing left to close.
pub proof fn lemma_custody_closes_once(
    ctx: crate::instructions::buy_nft::BuyNft,
    max_price: u64,
    now: i64,
    program_id: Key,
)
    requires
        ctx.custody_account.data@.len() == 0,
    ensures
        crate::instructions::buy_nft::buy_nft_spec(ctx, max_price, now, program_id) matches Ok(s)
            ==> !s.0.0 && s.0.1 is None && s.2.0 is None,
{
}

/// Listing an already-custodied NFT never freezes it a second time: when
/// the custody account at the derived address is non-empty and the listing
/// succeeds, the custody record is stored back with its listed flag set and
/// no freeze is issued — the asset stays frozen under the custody authority
/// it already had.
pub proof fn lemma_list_custodied_flips_flag(
    ctx: ListNft,
    price: u64,
    expiry: i64,
    now: i64,
    program_id: Key,
    effect: ListNftEffect,
)
    requires
        ctx.custody_account.data@.len() != 0,
        list_nft_spec(ctx, price, expiry, now, program_id) == Ok::<
            ListNftEffect,
            crate::abort::Abort,
        >(effect),
    ensures
        !effect.freeze_with_listing_authority,
        effect.custody_update matches Some(cr) && cr.is_listed,
        effect.custody_update matches Some(cr) && ctx.custody_record matches Some(before) && cr
            == (crate::state::custody_account::CustodyAccount { is_listed: true, ..before }),
{
}

} // verus!
