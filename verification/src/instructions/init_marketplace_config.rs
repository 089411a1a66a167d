//! Creates the marketplace configuration record.

use vstd::prelude::*;
use crate::keys::Key;
use crate::error::Error;
use crate::state::fee_config::FeeConfig;
use crate::state::marketplace_config::MarketplaceConfig;

verus! {

/// The accounts of the instruction, as the values the decision reads: the
/// signing marketplace authority and the freshly created record's canonical
/// bump, `None` when the runtime supplied no bump for it.
pub struct InitMarketplaceConfig {
    pub marketplace_authority: Key,
    pub bump: Option<u8>,
}

pub struct MarketplaceConfigArgs {
    pub fee_config: FeeConfig,
}

/// Fills the fresh record with the authority and the fee schedule; fails
/// only when the creation bump is missing, leaving the record unchanged.
pub fn init_marketplace_config_handler(
    config: &mut MarketplaceConfig,
    ctx: &InitMarketplaceConfig,
    args: &MarketplaceConfigArgs,
) -> (r: Result<(), Error>)
    ensures
        r is Ok <==> ctx.bump is Some,
        r is Err ==> r == Err::<(), Error>(Error::BumpSeedNotInHashMap) && *final(config)
            == *old(config),
        r is Ok ==> {
            &&& final(config).bump == ctx.bump.unwrap()
            &&& final(config).version == 1
            &&& final(config).marketplace_authority == ctx.marketplace_authority
            &&& final(config).fee_config == args.fee_config
        },
{
    let bump = match ctx.bump {
        Some(b) => b,
        None => {
            return Err(Error::BumpSeedNotInHashMap);
        },
    };
    config.init(bump, ctx.marketplace_authority, args.fee_config)?;
    Ok(())
}

} // verus!
