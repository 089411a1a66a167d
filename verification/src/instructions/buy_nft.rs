//! Buys a listed NFT: thaw, transfer the asset to the buyer, split the
//! price among marketplace, creators and seller, and close the listing —
//! all inside one atomic instruction.

use vstd::prelude::*;
use crate::keys::{Key, key_eq};
use crate::abort::Abort;
use crate::error::Error;
use crate::event::Buy;
use crate::accounts::{AccountView, MetadataInfo};
use crate::pda::{canonical_check_spec, check_canonical, listing_seeds, listing_seeds_spec};
use crate::state::custody_account::{CustodyAccount, custody_key_check_spec};
use crate::state::listing::{Listing, assert_can_buy_spec, fee_amount};
use crate::util::transfer::{
    PayStep, PaymentPlan, transfer_spl, transfer_spl_spec, transfer_payment,
    transfer_payment_spec,
};

verus! {

/// The accounts of the instruction. `custody_record` is the custody
/// account's deserialized record, `None` iff it holds no data; `remaining`
/// is the positional trailing account list of the payment protocol.
pub struct BuyNft {
    pub buyer: Key,
    pub seller: Key,
    pub mint_account: AccountView,
    pub seller_token_account_key: Key,
    pub buyer_token_account: AccountView,
    pub metadata_account: AccountView,
    pub metadata: MetadataInfo,
    pub listing_key: Key,
    pub listing: Listing,
    pub custody_account: AccountView,
    pub custody_record: Option<CustodyAccount>,
    pub fee_account: Key,
    pub remaining: Vec<AccountView>,
}

/// The effect of a successful purchase.
pub struct BuyNftEffect {
    /// True iff the custody record's authority (not the listing's) signs
    /// the thaw and the asset transfer; the custody record then also closes.
    pub use_custody_authority: bool,
    /// The custody record signing and closing, on the custody path.
    pub custody: Option<CustodyAccount>,
    /// The asset transfer of the single token to the buyer, after the thaw.
    pub nft_transfer: PayStep,
    /// The validated split of the price.
    pub payment: PaymentPlan,
    /// On the custody path, the custody record is destroyed, rent here.
    pub close_custody_to: Option<Key>,
    /// The listing record is destroyed, its rent refunded here.
    pub close_listing_to: Key,
    pub event: Buy,
}

/// What buying an NFT decides, in order: the listing must stand at the
/// address derived from the mint under its stored bump, belong to the named
/// seller, not be virtual, list exactly this mint, and name the supplied
/// fee account in its snapshot; the buy must be allowed now at the buyer's
/// ceiling; the custody account must be the derived custody address; on the
/// custody path the custody's marketplace authority must match the
/// listing's; the buyer's destination token account must be absent or
/// valid; the marketplace fee must fit the currency's base units; and the
/// payment must split exactly.
pub open spec fn buy_nft_spec(ctx: BuyNft, max_price: u64, now: i64, program_id: Key) -> Result<
    ((bool, Option<CustodyAccount>, PayStep), (Seq<PayStep>, u64, u64, u64), (
        Option<Key>,
        Key,
        Buy,
    )),
    Abort,
> {
    let l = ctx.listing;
    let mint_key = ctx.mint_account.key;
    match canonical_check_spec(
        ctx.listing_key@,
        l.bump,
        listing_seeds_spec(mint_key@),
        program_id@,
    ) {
        Err(e) => Err(e),
        Ok(_) => if l.seller@ != ctx.seller@ {
            Err(Abort::Program(Error::InvalidSeller))
        } else if l.is_virtual {
            Err(Abort::Program(Error::IsVirtual))
        } else if l.id@ != mint_key@ {
            Err(Abort::Program(Error::InvalidMint))
        } else if l.fee_config.fee_account@ != ctx.fee_account@ {
            Err(Abort::Program(Error::InvalidFeeAccount))
        } else {
            match assert_can_buy_spec(l, max_price, now) {
                Err(e) => Err(Abort::Program(e)),
                Ok(_) => match custody_key_check_spec(
                    ctx.custody_account.key@,
                    mint_key@,
                    program_id@,
                ) {
                    Err(e) => Err(e),
                    Ok(_) => {
                        let custodied = ctx.custody_account.data@.len() != 0;
                        if custodied && ctx.custody_record is None {
                            Err(Abort::Check(crate::util::error::Error::UninitializedAccount))
                        } else if custodied && ctx.custody_record.unwrap().marketplace_authority@
                            != l.marketplace_authority@ {
                            Err(Abort::Check(crate::util::error::Error::PublicKeyMismatch))
                        } else {
                            let delegate = if custodied {
                                ctx.custody_account.key
                            } else {
                                ctx.listing_key
                            };
                            match transfer_spl_spec(
                                ctx.buyer,
                                ctx.seller_token_account_key,
                                ctx.buyer_token_account,
                                ctx.mint_account,
                                delegate,
                                1,
                            ) {
                                Err(e) => Err(Abort::Check(e)),
                                Ok(Option::None) => Err(Abort::MissingAccount),
                                Ok(Option::Some(nft_transfer)) => if fee_amount(
                                    l.price,
                                    l.fee_config.bps,
                                ) > u64::MAX {
                                    Err(Abort::Program(Error::OverflowError))
                                } else {
                                    let fee = fee_amount(l.price, l.fee_config.bps) as u64;
                                    match transfer_payment_spec(
                                        ctx.buyer,
                                        ctx.seller,
                                        ctx.fee_account,
                                        mint_key,
                                        ctx.metadata_account.key,
                                        ctx.metadata,
                                        l.currency_mint,
                                        ctx.remaining@,
                                        l.price,
                                        fee,
                                    ) {
                                        Err(e) => Err(e),
                                        Ok((steps, creator_total, seller_amount)) => Ok(
                                            (
                                                (
                                                    custodied,
                                                    if custodied {
                                                        ctx.custody_record
                                                    } else {
                                                        Option::None
                                                    },
                                                    nft_transfer,
                                                ),
                                                (steps, creator_total, fee, seller_amount),
                                                (
                                                    if custodied {
                                                        Option::Some(ctx.seller)
                                                    } else {
                                                        Option::None
                                                    },
                                                    ctx.seller,
                                                    Buy {
                                                        item_id: l.id,
                                                        mint: mint_key,
                                                        price: l.price,
                                                        seller: l.seller,
                                                        buyer: ctx.buyer,
                                                        is_virtual: false,
                                                        currency_mint: l.currency_mint,
                                                        marketplace_authority: l.marketplace_authority,
                                                        fee_config: l.fee_config,
                                                    },
                                                ),
                                            ),
                                        ),
                                    }
                                },
                            }
                        }
                    },
                },
            }
        },
    }
}

/// Decides a purchase: on success the caller thaws under the returned
/// authority, performs the asset transfer and the payment steps in order,
/// closes the listing (and the custody record on that path), and emits the
/// event.
pub fn buy_nft_handler(ctx: &BuyNft, max_price: u64, now: i64, program_id: &Key) -> (r: Result<
    BuyNftEffect,
    Abort,
>)
    ensures
        r matches Ok(e) ==> buy_nft_spec(*ctx, max_price, now, *program_id) matches Ok(s) && s
            == (
            (e.use_custody_authority, e.custody, e.nft_transfer),
            (
                e.payment.steps@,
                e.payment.creator_total,
                e.payment.marketplace_fee,
                e.payment.seller_amount,
            ),
            (e.close_custody_to, e.close_listing_to, e.event),
        ),
        r matches Ok(e) ==> e.payment.marketplace_fee + e.payment.creator_total
            + e.payment.seller_amount == ctx.listing.price,
        r matches Err(e) ==> buy_nft_spec(*ctx, max_price, now, *program_id) matches Err(s) && s
            == e,
{
    let l = &ctx.listing;
    let mint_key = ctx.mint_account.key;
    let id = mint_key.to_bytes();
    let seeds = listing_seeds(&id);
    check_canonical(&ctx.listing_key, l.bump, &seeds, program_id)?;
    if !key_eq(&l.seller, &ctx.seller) {
        return Err(Abort::Program(Error::InvalidSeller));
    }
    if l.is_virtual {
        return Err(Abort::Program(Error::IsVirtual));
    }
    let listing_id_key = Key::from_bytes(l.id);
    if !key_eq(&listing_id_key, &mint_key) {
        return Err(Abort::Program(Error::InvalidMint));
    }
    if !key_eq(&l.fee_config.fee_account, &ctx.fee_account) {
        return Err(Abort::Program(Error::InvalidFeeAccount));
    }
    if let Err(e) = l.assert_can_buy(max_price, now) {
        return Err(Abort::Program(e));
    }
    CustodyAccount::assert_is_key_for_mint(&ctx.custody_account.key, &mint_key, program_id)?;
    let custodied = !ctx.custody_account.data_is_empty();
    let custody = if custodied {
        match ctx.custody_record {
            Some(cr) => {
                if !key_eq(&cr.marketplace_authority, &l.marketplace_authority) {
                    return Err(Abort::Check(crate::util::error::Error::PublicKeyMismatch));
                }
                Some(cr)
            },
            None => {
                return Err(Abort::Check(crate::util::error::Error::UninitializedAccount));
            },
        }
    } else {
        None
    };
    let delegate = if custodied {
        ctx.custody_account.key
    } else {
        ctx.listing_key
    };
    let nft_transfer = match transfer_spl(
        &ctx.buyer,
        &ctx.seller_token_account_key,
        &ctx.buyer_token_account,
        &ctx.mint_account,
        &delegate,
        1,
    ) {
        Ok(Some(step)) => step,
        Ok(None) => {
            return Err(Abort::MissingAccount);
        },
        Err(e) => {
            return Err(Abort::Check(e));
        },
    };
    let fee = match l.get_fee_amount() {
        Ok(f) => f,
        Err(e) => {
            return Err(Abort::Program(e));
        },
    };
    let payment = transfer_payment(
        &ctx.buyer,
        &ctx.seller,
        &ctx.fee_account,
        &mint_key,
        &ctx.metadata_account,
        &ctx.metadata,
        &l.currency_mint,
        &ctx.remaining,
        l.price,
        fee,
    )?;
    Ok(
        BuyNftEffect {
            use_custody_authority: custodied,
            custody,
            nft_transfer,
            payment,
            close_custody_to: if custodied {
                Some(ctx.seller)
            } else {
                None
            },
            close_listing_to: ctx.seller,
            event: Buy {
                item_id: l.id,
                mint: mint_key,
                price: l.price,
                seller: l.seller,
                buyer: ctx.buyer,
                is_virtual: false,
                currency_mint: l.currency_mint,
                marketplace_authority: l.marketplace_authority,
                fee_config: l.fee_config,
            },
        },
    )
}

} // verus!
