//! Creates a collection configuration record.

use vstd::prelude::*;
use crate::keys::Key;
use crate::error::Error;
use crate::state::collection_config::CollectionConfig;

verus! {

/// The accounts of the instruction: the signing authority and the freshly
/// created record's canonical bump, `None` when the runtime supplied none.
pub struct InitCollectionConfig {
    pub authority: Key,
    pub bump: Option<u8>,
}

pub struct CollectionConfigArgs {
    pub collection_mint: Key,
    /// The mint authority for items of this collection; recorded by sibling
    /// revisions, unused by this one.
    pub mint_authority: Key,
    pub seller_fee_basis_points: u16,
    pub symbol: String,
}

/// Fills the fresh record from the arguments; fails only when the creation
/// bump is missing, leaving the record unchanged.
pub fn init_collection_config_handler(
    config: &mut CollectionConfig,
    ctx: &InitCollectionConfig,
    args: CollectionConfigArgs,
) -> (r: Result<(), Error>)
    ensures
        r is Ok <==> ctx.bump is Some,
        r is Err ==> r == Err::<(), Error>(Error::BumpSeedNotInHashMap) && *final(config)
            == *old(config),
        r is Ok ==> {
            &&& final(config).bump == ctx.bump.unwrap()
            &&& final(config).version == 1
            &&& final(config).marketplace_authority == ctx.authority
            &&& final(config).collection_mint == args.collection_mint
            &&& final(config).seller_fee_basis_points == args.seller_fee_basis_points
            &&& final(config).symbol@ == args.symbol@
        },
{
    let bump = match ctx.bump {
        Some(b) => b,
        None => {
            return Err(Error::BumpSeedNotInHashMap);
        },
    };
    config.init(
        bump,
        ctx.authority,
        args.collection_mint,
        args.seller_fee_basis_points,
        args.symbol,
    )?;
    Ok(())
}

} // verus!
