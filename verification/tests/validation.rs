//! The remaining instruction decisions and their error codes: updates,
//! virtual listings and buys, direct mints, record closes, and the
//! configuration initializers.

use carbon::abort::Abort;
use carbon::accounts::AccountView;
use carbon::error::Error;
use carbon::ids;
use carbon::instructions::buy_virtual::{buy_virtual_handler, BuyVirtual};
use carbon::instructions::close_mint_record::{close_mint_record_handler, CloseMintRecord};
use carbon::instructions::delist_virtual::{delist_virtual_handler, DelistVirtual};
use carbon::instructions::init_collection_config::{
    init_collection_config_handler, CollectionConfigArgs, InitCollectionConfig,
};
use carbon::instructions::init_marketplace_config::{
    init_marketplace_config_handler, InitMarketplaceConfig, MarketplaceConfigArgs,
};
use carbon::instructions::list_virtual::{list_virtual_handler, ListVirtual};
use carbon::instructions::mint_virtual::{mint_virtual_handler, MintVirtual};
use carbon::instructions::update_listing::{update_listing_handler, UpdateListing};
use carbon::keys::{key_eq, Key};
use carbon::state::collection_config::CollectionConfig;
use carbon::state::fee_config::FeeConfig;
use carbon::state::listing::Listing;
use carbon::state::marketplace_config::MarketplaceConfig;
use carbon::state::metadata::Metadata;
use carbon::state::mint_record::MintRecord;

fn k(b: u8) -> Key {
    Key::from_bytes([b; 32])
}

fn program_id() -> Key {
    k(100)
}

fn derived(seeds: &Vec<Vec<u8>>) -> (Key, u8) {
    carbon::pda::find_address(seeds, &program_id()).unwrap()
}

fn collection_config() -> (CollectionConfig, Key) {
    let collection_mint = k(7);
    let (cc_key, cc_bump) = derived(&carbon::pda::collection_seeds(&collection_mint));
    (
        CollectionConfig {
            bump: cc_bump,
            version: 1,
            marketplace_authority: k(9),
            collection_mint,
            seller_fee_basis_points: 500,
            symbol: String::from("ITEM"),
        },
        cc_key,
    )
}

fn marketplace_config() -> (MarketplaceConfig, Key) {
    let (mc_key, mc_bump) = derived(&carbon::pda::marketplace_seeds(&k(9)));
    (
        MarketplaceConfig {
            bump: mc_bump,
            version: 1,
            marketplace_authority: k(9),
            fee_config: FeeConfig {
                fee_account: k(3),
                bps: 250,
            },
        },
        mc_key,
    )
}

fn list_virtual_ctx() -> ListVirtual {
    let (cc, cc_key) = collection_config();
    let (mc, mc_key) = marketplace_config();
    let (listing_key, _) = derived(&carbon::pda::listing_seeds(&[42; 32]));
    ListVirtual {
        seller: k(2),
        marketplace_authority: k(9),
        currency_mint: ids::native_mint(),
        listing_key,
        collection_config: cc,
        collection_config_key: cc_key,
        marketplace_config: mc,
        marketplace_config_key: mc_key,
    }
}

#[test]
fn a_virtual_listing_snapshots_the_fee_schedule() {
    let (listing, event) =
        list_virtual_handler(&list_virtual_ctx(), [42; 32], 1000, 5000, 10, &program_id())
            .unwrap();
    assert!(listing.is_virtual);
    assert_eq!(listing.price, 1000);
    assert_eq!(listing.expiry, 5000);
    assert_eq!(listing.fee_config.bps, 250);
    assert!(key_eq(&listing.fee_config.fee_account, &k(3)));
    assert_eq!(event.price, 1000);
    assert!(event.is_virtual);
}

#[test]
fn a_virtual_listing_rejects_bad_price_and_expiry() {
    let ctx = list_virtual_ctx();
    assert_eq!(
        list_virtual_handler(&ctx, [42; 32], 0, 5000, 10, &program_id()).err().unwrap(),
        Abort::Program(Error::InvalidPrice)
    );
    assert_eq!(
        list_virtual_handler(&ctx, [42; 32], 1000, -1, 10, &program_id()).err().unwrap(),
        Abort::Program(Error::InvalidExpiry)
    );
    assert_eq!(
        list_virtual_handler(&ctx, [42; 32], 1000, 5, 10, &program_id()).err().unwrap(),
        Abort::Program(Error::InvalidExpiry)
    );
}

fn update_ctx(listing: Listing) -> UpdateListing {
    let (listing_key, _) = derived(&carbon::pda::listing_seeds(&listing.id));
    UpdateListing {
        seller: k(2),
        listing_key,
        listing,
    }
}

#[test]
fn update_changes_only_price_and_expiry() {
    let (listing, _) =
        list_virtual_handler(&list_virtual_ctx(), [42; 32], 1000, 5000, 10, &program_id())
            .unwrap();
    let (updated, event) =
        update_listing_handler(&update_ctx(listing), 2000, 9000, 10, &program_id()).unwrap();
    assert_eq!(updated.price, 2000);
    assert_eq!(updated.expiry, 9000);
    assert_eq!(updated.fee_config.bps, listing.fee_config.bps);
    assert!(key_eq(&updated.currency_mint, &listing.currency_mint));
    assert_eq!(updated.id, listing.id);
    assert_eq!(event.price, 2000);
}

#[test]
fn only_the_seller_may_update() {
    let (listing, _) =
        list_virtual_handler(&list_virtual_ctx(), [42; 32], 1000, 5000, 10, &program_id())
            .unwrap();
    let mut ctx = update_ctx(listing);
    ctx.seller = k(50);
    assert_eq!(
        update_listing_handler(&ctx, 2000, 9000, 10, &program_id()).err().unwrap(),
        Abort::Program(Error::InvalidSeller)
    );
}

#[test]
fn delist_virtual_closes_to_the_seller() {
    let (listing, _) =
        list_virtual_handler(&list_virtual_ctx(), [42; 32], 1000, 5000, 10, &program_id())
            .unwrap();
    let (listing_key, _) = derived(&carbon::pda::listing_seeds(&[42; 32]));
    let effect = delist_virtual_handler(
        &DelistVirtual {
            seller: k(2),
            listing_key,
            listing,
        },
        [42; 32],
        &program_id(),
    )
    .unwrap();
    assert!(key_eq(&effect.close_listing_to, &k(2)));
    assert_eq!(effect.event.item_id, [42; 32]);
}

fn buy_virtual_ctx(listing: Listing) -> BuyVirtual {
    let (cc, cc_key) = collection_config();
    let (listing_key, _) = derived(&carbon::pda::listing_seeds(&[42; 32]));
    BuyVirtual {
        buyer: k(1),
        seller: k(2),
        mint_key: k(4),
        collection_mint_key: k(7),
        listing_key,
        listing,
        collection_config: cc,
        collection_config_key: cc_key,
        fee_account: k(3),
        remaining: vec![AccountView {
            key: k(9),
            owner: k(0),
            data: Vec::new(),
        }],
    }
}

#[test]
fn buying_a_virtual_item_mints_with_the_collection_metadata() {
    let ctx = list_virtual_ctx();
    let (listing, _) =
        list_virtual_handler(&ctx, [42; 32], 1000, 5000, 10, &program_id()).unwrap();
    let effect = buy_virtual_handler(
        &buy_virtual_ctx(listing),
        [42; 32],
        1000,
        Metadata {
            name: String::from("Item One"),
            uri: String::from("ipfs://item-one"),
        },
        10,
        &program_id(),
    )
    .unwrap();
    assert_eq!(effect.fee, 25);
    assert_eq!(effect.price, 1000);
    assert!(key_eq(&effect.marketplace_authority, &k(9)));
    assert_eq!(effect.mint_data.name, "Item One");
    assert_eq!(effect.mint_data.symbol, "ITEM");
    assert_eq!(effect.mint_data.seller_fee_basis_points, 500);
    let creators = effect.mint_data.creators.unwrap();
    assert_eq!(creators.len(), 1);
    assert!(key_eq(&creators[0].address, &k(9)));
    assert_eq!(creators[0].share, 100);
    assert!(effect.event.is_virtual);
}

#[test]
fn a_non_virtual_listing_cannot_take_the_virtual_path() {
    let ctx = list_virtual_ctx();
    let (mut listing, _) =
        list_virtual_handler(&ctx, [42; 32], 1000, 5000, 10, &program_id()).unwrap();
    listing.is_virtual = false;
    let r = buy_virtual_handler(
        &buy_virtual_ctx(listing),
        [42; 32],
        1000,
        Metadata {
            name: String::new(),
            uri: String::new(),
        },
        10,
        &program_id(),
    );
    assert_eq!(r.err().unwrap(), Abort::Program(Error::NotVirtual));
}

#[test]
fn a_foreign_collection_config_is_rejected_on_the_virtual_path() {
    let ctx = list_virtual_ctx();
    let (listing, _) = list_virtual_handler(&ctx, [42; 32], 1000, 5000, 10, &program_id())
        .unwrap();
    let mut bctx = buy_virtual_ctx(listing);
    bctx.collection_config_key = k(55);
    let r = buy_virtual_handler(
        &bctx,
        [42; 32],
        1000,
        Metadata {
            name: String::new(),
            uri: String::new(),
        },
        10,
        &program_id(),
    );
    assert_eq!(
        r.err().unwrap(),
        Abort::Program(Error::InvalidCollectionConfig)
    );
}

#[test]
fn mint_virtual_records_the_item_id() {
    let (cc, cc_key) = collection_config();
    let (record_key, _) = derived(&carbon::pda::mint_record_seeds(&cc_key, &[42; 32]));
    let effect = mint_virtual_handler(
        &MintVirtual {
            buyer: k(1),
            marketplace_authority: k(9),
            mint_key: k(4),
            collection_mint_key: k(7),
            collection_config: cc,
            collection_config_key: cc_key,
            mint_record_key: record_key,
        },
        [42; 32],
        Metadata {
            name: String::from("Item Two"),
            uri: String::from("ipfs://item-two"),
        },
        &program_id(),
    )
    .unwrap();
    assert!(key_eq(&effect.mint_record.collection_config, &cc_key));
    assert_eq!(effect.mint_record.item_id, [42; 32]);
    assert!(key_eq(&effect.mint_record.mint, &k(4)));
    assert_eq!(effect.mint_data.name, "Item Two");
}

fn close_record_ctx(edition_data: Vec<u8>) -> CloseMintRecord {
    let (cc, cc_key) = collection_config();
    let (record_key, _) = derived(&carbon::pda::mint_record_seeds(&cc_key, &[42; 32]));
    let mint = k(4);
    let (edition_key, _) = carbon::pda::find_address(
        &carbon::pda::edition_seeds(&mint),
        &ids::metadata_program_id(),
    )
    .unwrap();
    CloseMintRecord {
        marketplace_authority: k(9),
        mint_key: mint,
        edition_account: AccountView {
            key: edition_key,
            owner: ids::metadata_program_id(),
            data: edition_data,
        },
        collection_config: cc,
        collection_config_key: cc_key,
        mint_record_key: record_key,
        mint_record: MintRecord {
            collection_config: cc_key,
            item_id: [42; 32],
            mint,
        },
    }
}

#[test]
fn a_mint_record_closes_only_after_the_edition_is_empty() {
    let r = close_mint_record_handler(&close_record_ctx(vec![1, 2, 3]), &program_id());
    assert_eq!(r.err().unwrap(), Abort::Program(Error::InvalidEdition));

    let to = close_mint_record_handler(&close_record_ctx(Vec::new()), &program_id()).unwrap();
    assert!(key_eq(&to, &k(9)));
}

#[test]
fn the_configuration_initializers_fill_the_records() {
    let mut mc = MarketplaceConfig {
        bump: 0,
        version: 0,
        marketplace_authority: k(0),
        fee_config: FeeConfig {
            fee_account: k(0),
            bps: 0,
        },
    };
    init_marketplace_config_handler(
        &mut mc,
        &InitMarketplaceConfig {
            marketplace_authority: k(9),
            bump: Some(254),
        },
        &MarketplaceConfigArgs {
            fee_config: FeeConfig {
                fee_account: k(3),
                bps: 250,
            },
        },
    )
    .unwrap();
    assert_eq!(mc.bump, 254);
    assert_eq!(mc.version, 1);
    assert!(key_eq(&mc.marketplace_authority, &k(9)));
    assert_eq!(mc.fee_config.bps, 250);

    let mut cc = CollectionConfig {
        bump: 0,
        version: 0,
        marketplace_authority: k(0),
        collection_mint: k(0),
        seller_fee_basis_points: 0,
        symbol: String::new(),
    };
    init_collection_config_handler(
        &mut cc,
        &InitCollectionConfig {
            authority: k(9),
            bump: Some(253),
        },
        CollectionConfigArgs {
            collection_mint: k(7),
            mint_authority: k(9),
            seller_fee_basis_points: 500,
            symbol: String::from("ITEM"),
        },
    )
    .unwrap();
    assert_eq!(cc.version, 1);
    assert_eq!(cc.symbol, "ITEM");
    assert_eq!(cc.seller_fee_basis_points, 500);

    // A missing creation bump is the one failure.
    let r = init_marketplace_config_handler(
        &mut mc,
        &InitMarketplaceConfig {
            marketplace_authority: k(9),
            bump: None,
        },
        &MarketplaceConfigArgs {
            fee_config: FeeConfig {
                fee_account: k(3),
                bps: 250,
            },
        },
    );
    assert_eq!(r, Err(Error::BumpSeedNotInHashMap));
}
