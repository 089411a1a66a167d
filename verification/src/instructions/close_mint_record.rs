//! Reclaims a mint record's rent once the associated edition account is
//! confirmed empty on chain.

use vstd::prelude::*;
use crate::keys::{Key, key_eq};
use crate::abort::Abort;
use crate::error::Error;
use crate::accounts::AccountView;
use crate::pda::{
    canonical_check_spec, creation_spec, check_canonical, check_creation, collection_seeds,
    collection_seeds_spec, mint_record_seeds, mint_record_seeds_spec,
};
use crate::state::collection_config::CollectionConfig;
use crate::state::mint_record::MintRecord;
use crate::util::checks::{assert_is_edition_account, is_edition_account_spec};

verus! {

/// The accounts of the instruction. The runtime has verified the
/// marketplace authority's signature.
pub struct CloseMintRecord {
    pub marketplace_authority: Key,
    pub mint_key: Key,
    pub edition_account: AccountView,
    pub collection_config: CollectionConfig,
    pub collection_config_key: Key,
    pub mint_record_key: Key,
    pub mint_record: MintRecord,
}

/// What closing a mint record decides: the collection configuration must
/// stand at its derived address and belong to the signing marketplace
/// authority; the record must stand at the address derived from the
/// configuration and its own item id, reference that configuration, and
/// name the supplied mint; the supplied edition account must be the derived
/// edition address for the mint and hold no data. Then the record closes,
/// rent to the marketplace authority.
pub open spec fn close_mint_record_spec(ctx: CloseMintRecord, program_id: Key) -> Result<
    Key,
    Abort,
> {
    let cc = ctx.collection_config;
    let mr = ctx.mint_record;
    match canonical_check_spec(
        ctx.collection_config_key@,
        cc.bump,
        collection_seeds_spec(cc.collection_mint@),
        program_id@,
    ) {
        Err(e) => Err(e),
        Ok(_) => if cc.marketplace_authority@ != ctx.marketplace_authority@ {
            Err(Abort::Check(crate::util::error::Error::PublicKeyMismatch))
        } else {
            match creation_spec(
                ctx.mint_record_key@,
                mint_record_seeds_spec(ctx.collection_config_key@, mr.item_id@),
                program_id@,
            ) {
                Err(e) => Err(e),
                Ok(_bump) => if mr.collection_config@ != ctx.collection_config_key@ {
                    Err(Abort::Program(Error::InvalidCollectionConfig))
                } else if mr.mint@ != ctx.mint_key@ {
                    Err(Abort::Program(Error::InvalidMint))
                } else {
                    match is_edition_account_spec(ctx.edition_account.key@, ctx.mint_key@) {
                        Err(e) => Err(e),
                        Ok(_) => if ctx.edition_account.data@.len() != 0 {
                            Err(Abort::Program(Error::InvalidEdition))
                        } else {
                            Ok(ctx.marketplace_authority)
                        },
                    }
                },
            }
        },
    }
}

/// Decides a mint-record closure: on success the caller destroys the
/// record and refunds its rent to the returned wallet.
pub fn close_mint_record_handler(ctx: &CloseMintRecord, program_id: &Key) -> (r: Result<
    Key,
    Abort,
>)
    ensures
        r == close_mint_record_spec(*ctx, *program_id),
{
    let cc_seeds = collection_seeds(&ctx.collection_config.collection_mint);
    check_canonical(
        &ctx.collection_config_key,
        ctx.collection_config.bump,
        &cc_seeds,
        program_id,
    )?;
    if !key_eq(&ctx.collection_config.marketplace_authority, &ctx.marketplace_authority) {
        return Err(Abort::Check(crate::util::error::Error::PublicKeyMismatch));
    }
    let mr_seeds = mint_record_seeds(&ctx.collection_config_key, &ctx.mint_record.item_id);
    let _bump = check_creation(&ctx.mint_record_key, &mr_seeds, program_id)?;
    if !key_eq(&ctx.mint_record.collection_config, &ctx.collection_config_key) {
        return Err(Abort::Program(Error::InvalidCollectionConfig));
    }
    if !key_eq(&ctx.mint_record.mint, &ctx.mint_key) {
        return Err(Abort::Program(Error::InvalidMint));
    }
    assert_is_edition_account(&ctx.edition_account.key, &ctx.mint_key)?;
    if !ctx.edition_account.data_is_empty() {
        return Err(Abort::Program(Error::InvalidEdition));
    }
    Ok(ctx.marketplace_authority)
}

} // verus!
