//! Mints a virtual item directly to a buyer on the marketplace authority's
//! say-so, outside any sale, and records the item id as consumed.

use vstd::prelude::*;
use crate::keys::{Key, key_eq};
use crate::abort::Abort;
use crate::error::Error;
use crate::pda::{
    canonical_check_spec, creation_spec, check_canonical, check_creation, collection_seeds,
    collection_seeds_spec, mint_record_seeds, mint_record_seeds_spec,
};
use crate::state::collection_config::CollectionConfig;
use crate::state::metadata::{Metadata, MetadataData};
use crate::state::mint_record::MintRecord;

verus! {

/// The accounts of the instruction. The runtime has verified the buyer's
/// and the marketplace authority's signatures.
pub struct MintVirtual {
    pub buyer: Key,
    pub marketplace_authority: Key,
    /// The fresh mint created for the item.
    pub mint_key: Key,
    pub collection_mint_key: Key,
    pub collection_config: CollectionConfig,
    pub collection_config_key: Key,
    /// The address the fresh mint record is being created at.
    pub mint_record_key: Key,
}

/// The effect of a successful direct mint: store the record, mint the item
/// to the buyer with the returned payload, verify it into the collection,
/// mark the primary sale, and emit the event.
pub struct MintVirtualEffect {
    pub mint_record: MintRecord,
    pub mint_data: MetadataData,
    pub event: crate::event::Mint,
}

/// What a direct mint decides: the collection configuration must stand at
/// its derived address for the collection mint and belong to the signing
/// marketplace authority; the fresh mint record address must derive from
/// the configuration and the item id, which marks the id as consumed —
/// a second mint of the same id fails at creation.
pub open spec fn mint_virtual_spec(ctx: MintVirtual, item_id: [u8; 32], program_id: Key) -> Result<
    (MintRecord, crate::event::Mint),
    Abort,
> {
    let cc = ctx.collection_config;
    match canonical_check_spec(
        ctx.collection_config_key@,
        cc.bump,
        collection_seeds_spec(ctx.collection_mint_key@),
        program_id@,
    ) {
        Err(e) => Err(e),
        Ok(_) => if cc.marketplace_authority@ != ctx.marketplace_authority@ {
            Err(Abort::Check(crate::util::error::Error::PublicKeyMismatch))
        } else if cc.collection_mint@ != ctx.collection_mint_key@ {
            Err(Abort::Check(crate::util::error::Error::PublicKeyMismatch))
        } else {
            match creation_spec(
                ctx.mint_record_key@,
                mint_record_seeds_spec(ctx.collection_config_key@, item_id@),
                program_id@,
            ) {
                Err(e) => Err(e),
                Ok(_bump) => Ok(
                    (
                        MintRecord {
                            collection_config: ctx.collection_config_key,
                            item_id,
                            mint: ctx.mint_key,
                        },
                        crate::event::Mint {
                            item_id,
                            mint: ctx.mint_key,
                            buyer: ctx.buyer,
                            marketplace_authority: cc.marketplace_authority,
                            collection_mint: cc.collection_mint,
                        },
                    ),
                ),
            }
        },
    }
}

/// Decides a direct mint: on success the caller stores the record, performs
/// the mint and collection-verification calls with the returned payload,
/// and emits the event.
pub fn mint_virtual_handler(
    ctx: &MintVirtual,
    item_id: [u8; 32],
    metadata: Metadata,
    program_id: &Key,
) -> (r: Result<MintVirtualEffect, Abort>)
    ensures
        r matches Ok(e) ==> {
            &&& mint_virtual_spec(*ctx, item_id, *program_id) matches Ok(s) && s == (
                e.mint_record,
                e.event,
            )
            &&& e.mint_data.name@ == metadata.name@
            &&& e.mint_data.uri@ == metadata.uri@
            &&& e.mint_data.symbol@ == ctx.collection_config.symbol@
            &&& e.mint_data.seller_fee_basis_points
                == ctx.collection_config.seller_fee_basis_points
            &&& e.mint_data.creators matches Some(cs) && cs@.len() == 1 && cs@[0].address
                == ctx.collection_config.marketplace_authority && cs@[0].verified && cs@[0].share
                == 100
            &&& e.mint_data.collection matches Some(c) && !c.verified && c.key
                == ctx.collection_config.collection_mint
        },
        r matches Err(e) ==> mint_virtual_spec(*ctx, item_id, *program_id) matches Err(s) && s
            == e,
{
    let cc_seeds = collection_seeds(&ctx.collection_mint_key);
    check_canonical(
        &ctx.collection_config_key,
        ctx.collection_config.bump,
        &cc_seeds,
        program_id,
    )?;
    if !key_eq(&ctx.collection_config.marketplace_authority, &ctx.marketplace_authority) {
        return Err(Abort::Check(crate::util::error::Error::PublicKeyMismatch));
    }
    if !key_eq(&ctx.collection_config.collection_mint, &ctx.collection_mint_key) {
        return Err(Abort::Check(crate::util::error::Error::PublicKeyMismatch));
    }
    let mr_seeds = mint_record_seeds(&ctx.collection_config_key, &item_id);
    let _bump = check_creation(&ctx.mint_record_key, &mr_seeds, program_id)?;
    let mut record = MintRecord {
        collection_config: ctx.collection_config_key,
        item_id,
        mint: ctx.mint_key,
    };
    if let Err(e) = record.init(ctx.collection_config_key, item_id, ctx.mint_key) {
        return Err(Abort::Program(e));
    }
    let mint_data = match ctx.collection_config.get_mpl_metadata(metadata) {
        Ok(d) => d,
        Err(e) => {
            return Err(Abort::Program(e));
        },
    };
    Ok(
        MintVirtualEffect {
            mint_record: record,
            mint_data,
            event: crate::event::Mint {
                item_id,
                mint: ctx.mint_key,
                buyer: ctx.buyer,
                marketplace_authority: ctx.collection_config.marketplace_authority,
                collection_mint: ctx.collection_config.collection_mint,
            },
        },
    )
}

} // verus!
