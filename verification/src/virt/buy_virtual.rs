//! Buying a virtual item in the exact-price revision: mint the item to the
//! buyer, then split the exact price between the fee beneficiary and the
//! selling authority in the native currency; zero legs are skipped.

use vstd::prelude::*;
use crate::keys::{Key, key_eq};
use crate::abort::Abort;
use crate::pda::{canonical_check_spec, check_canonical, listing_seeds, listing_seeds_spec};
use crate::state::metadata::{Metadata, MetadataData};
use crate::state::listing::fee_amount;
use crate::util::checks::is_native_mint;
use crate::util::transfer::PayStep;
use crate::virt::collection_config::{
    CollectionConfig, collection_seeds, collection_seeds_spec,
};
use crate::virt::error::Error;
use crate::virt::listing::{Listing, assert_can_buy_spec};

verus! {

/// The accounts of the instruction. The runtime has verified the signatures
/// of the buyer, the authority, the collection authority, the fresh mint
/// and the mint authority.
pub struct BuyVirtual {
    pub buyer: Key,
    /// The selling marketplace authority's wallet.
    pub authority: Key,
    pub mint_authority: Key,
    pub collection_mint_key: Key,
    pub listing_key: Key,
    pub listing: Listing,
    pub collection_config: CollectionConfig,
    pub collection_config_key: Key,
    pub fee_account: Key,
}

/// The effect of a successful virtual purchase: mint the item to the buyer
/// with the returned payload under the configuration's mint authority, then
/// perform the planned native transfers, and close the listing back to the
/// authority.
pub struct BuyVirtualEffect {
    pub mint_data: MetadataData,
    pub fee: u64,
    pub seller_amount: u64,
    /// The fee and remainder legs, zero amounts omitted. This revision
    /// settles only native-currency sales; a token-currency listing plans
    /// no transfer.
    pub steps: Vec<PayStep>,
    pub close_listing_to: Key,
}

/// What buying a virtual item decides in this revision: the listing must
/// stand at the address derived from its id under its stored bump, belong
/// to the signing authority, list exactly the instruction's id, be virtual,
/// and name the supplied fee account as its beneficiary; the collection
/// configuration must stand at its derived address and name exactly this
/// authority, collection and mint authority; the submitted price must equal
/// the listing price exactly and the listing must not have expired; the fee
/// must fit the currency's base units and never exceed the price.
pub open spec fn buy_virtual_spec(
    ctx: BuyVirtual,
    id: Key,
    price: u64,
    now: i64,
    program_id: Key,
) -> Result<(u64, u64, Seq<PayStep>, Key), Abort> {
    let l = ctx.listing;
    let cc = ctx.collection_config;
    match canonical_check_spec(
        ctx.listing_key@,
        l.bump,
        listing_seeds_spec(id@),
        program_id@,
    ) {
        Err(e) => Err(e),
        Ok(_) => if l.authority@ != ctx.authority@ {
            Err(Abort::Revision(Error::InvalidListingAuthority))
        } else if l.id@ != id@ {
            Err(Abort::Check(crate::util::error::Error::PublicKeyMismatch))
        } else if !l.is_virtual {
            Err(Abort::Revision(Error::NotVirtual))
        } else if l.fee_schedule.beneficiary@ != ctx.fee_account@ {
            Err(Abort::Revision(Error::InvalidFeeAccount))
        } else {
            match canonical_check_spec(
                ctx.collection_config_key@,
                cc.bump,
                collection_seeds_spec(ctx.authority@, ctx.collection_mint_key@),
                program_id@,
            ) {
                Err(e) => Err(e),
                Ok(_) => if cc.authority@ != ctx.authority@ || cc.collection_mint@
                    != ctx.collection_mint_key@ || cc.mint_authority@ != ctx.mint_authority@ {
                    Err(Abort::Check(crate::util::error::Error::PublicKeyMismatch))
                } else {
                    match assert_can_buy_spec(l, price, now) {
                        Err(e) => Err(Abort::Revision(e)),
                        Ok(_) => if fee_amount(l.price, l.fee_schedule.bps) > u64::MAX {
                            Err(Abort::Revision(Error::OverflowError))
                        } else {
                            let fee = fee_amount(l.price, l.fee_schedule.bps) as u64;
                            if l.price - fee < 0 {
                                Err(Abort::Revision(Error::OverflowError))
                            } else {
                                let seller_amount = (l.price - fee) as u64;
                                let steps: Seq<PayStep> = if l.currency_mint@
                                    != crate::ids::native_mint_seq() {
                                    Seq::empty()
                                } else {
                                    (if fee == 0 {
                                        Seq::<PayStep>::empty()
                                    } else {
                                        seq![
                                            PayStep::Sol {
                                                from: ctx.buyer,
                                                to: ctx.fee_account,
                                                amount: fee,
                                            },
                                        ]
                                    }) + (if seller_amount == 0 {
                                        Seq::<PayStep>::empty()
                                    } else {
                                        seq![
                                            PayStep::Sol {
                                                from: ctx.buyer,
                                                to: ctx.authority,
                                                amount: seller_amount,
                                            },
                                        ]
                                    })
                                };
                                Ok((fee, seller_amount, steps, ctx.authority))
                            }
                        },
                    }
                },
            }
        },
    }
}

/// Decides a virtual purchase: on success the caller mints the item to the
/// buyer with the returned payload, performs the planned transfers, and
/// closes the listing. The fee and the remainder always sum to the price
/// exactly.
pub fn buy_virtual_handler(
    ctx: &BuyVirtual,
    id: &Key,
    price: u64,
    metadata: Metadata,
    now: i64,
    program_id: &Key,
) -> (r: Result<BuyVirtualEffect, Abort>)
    ensures
        r matches Ok(e) ==> {
            &&& buy_virtual_spec(*ctx, *id, price, now, *program_id) matches Ok(s) && s == (
                e.fee,
                e.seller_amount,
                e.steps@,
                e.close_listing_to,
            )
            &&& e.fee + e.seller_amount == ctx.listing.price
            &&& e.mint_data.name@ == metadata.name@
            &&& e.mint_data.uri@ == metadata.uri@
            &&& e.mint_data.symbol@ == ctx.collection_config.symbol@
            &&& e.mint_data.seller_fee_basis_points
                == ctx.collection_config.seller_fee_basis_points
            &&& e.mint_data.creators is None
            &&& e.mint_data.collection matches Some(c) && !c.verified && c.key
                == ctx.collection_config.collection_mint
        },
        r matches Err(e) ==> buy_virtual_spec(*ctx, *id, price, now, *program_id) matches Err(s)
            && s == e,
{
    let l = &ctx.listing;
    let id_bytes = id.to_bytes();
    let seeds = listing_seeds(&id_bytes);
    check_canonical(&ctx.listing_key, l.bump, &seeds, program_id)?;
    if !key_eq(&l.authority, &ctx.authority) {
        return Err(Abort::Revision(Error::InvalidListingAuthority));
    }
    if !key_eq(&l.id, id) {
        return Err(Abort::Check(crate::util::error::Error::PublicKeyMismatch));
    }
    if !l.is_virtual {
        return Err(Abort::Revision(Error::NotVirtual));
    }
    if !key_eq(&l.fee_schedule.beneficiary, &ctx.fee_account) {
        return Err(Abort::Revision(Error::InvalidFeeAccount));
    }
    let cc_seeds = collection_seeds(&ctx.authority, &ctx.collection_mint_key);
    check_canonical(
        &ctx.collection_config_key,
        ctx.collection_config.bump,
        &cc_seeds,
        program_id,
    )?;
    if !key_eq(&ctx.collection_config.authority, &ctx.authority) || !key_eq(
        &ctx.collection_config.collection_mint,
        &ctx.collection_mint_key,
    ) || !key_eq(&ctx.collection_config.mint_authority, &ctx.mint_authority) {
        return Err(Abort::Check(crate::util::error::Error::PublicKeyMismatch));
    }
    if let Err(e) = l.assert_can_buy(price, now) {
        return Err(Abort::Revision(e));
    }
    let fee = match l.get_fee_amount() {
        Ok(f) => f,
        Err(_) => {
            return Err(Abort::Revision(Error::OverflowError));
        },
    };
    let seller_amount = match l.price.checked_sub(fee) {
        Some(v) => v,
        None => {
            return Err(Abort::Revision(Error::OverflowError));
        },
    };
    let ghost fee_steps_spec = if fee == 0 {
        Seq::<PayStep>::empty()
    } else {
        seq![PayStep::Sol { from: ctx.buyer, to: ctx.fee_account, amount: fee }]
    };
    let ghost seller_steps_spec = if seller_amount == 0 {
        Seq::<PayStep>::empty()
    } else {
        seq![PayStep::Sol { from: ctx.buyer, to: ctx.authority, amount: seller_amount }]
    };
    let mut steps: Vec<PayStep> = Vec::new();
    if is_native_mint(&l.currency_mint) {
        if fee > 0 {
            steps.push(PayStep::Sol { from: ctx.buyer, to: ctx.fee_account, amount: fee });
        }
        if seller_amount > 0 {
            steps.push(
                PayStep::Sol { from: ctx.buyer, to: ctx.authority, amount: seller_amount },
            );
        }
        proof {
            assert(steps@ =~= fee_steps_spec + seller_steps_spec);
        }
    }
    let mint_data = match ctx.collection_config.get_mpl_metadata(metadata) {
        Ok(d) => d,
        Err(e) => {
            return Err(Abort::Revision(e));
        },
    };
    Ok(
        BuyVirtualEffect {
            mint_data,
            fee,
            seller_amount,
            steps,
            close_listing_to: ctx.authority,
        },
    )
}

} // verus!
