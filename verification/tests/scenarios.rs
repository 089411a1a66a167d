//! End-to-end sale scenarios: list, then buy at the ceiling; buy after
//! expiry; buy under the price.

use carbon::abort::Abort;
use carbon::accounts::{
    AccountView, CollectionRef, MetadataInfo, TokenAccount, TokenAccountState,
};
use carbon::error::Error;
use carbon::ids;
use carbon::instructions::buy_nft::{buy_nft_handler, BuyNft};
use carbon::instructions::list_nft::{list_nft_handler, ListNft};
use carbon::keys::{key_eq, Key};
use carbon::state::collection_config::CollectionConfig;
use carbon::state::fee_config::FeeConfig;
use carbon::state::listing::Listing;
use carbon::state::marketplace_config::MarketplaceConfig;
use solana_program::program_pack::Pack;

fn k(b: u8) -> Key {
    Key::from_bytes([b; 32])
}

fn program_id() -> Key {
    k(100)
}

fn derived(seeds: &Vec<Vec<u8>>) -> (Key, u8) {
    carbon::pda::find_address(seeds, &program_id()).unwrap()
}

fn packed_mint_account(mint: &Key) -> AccountView {
    let m = spl_token::state::Mint {
        mint_authority: solana_program::program_option::COption::None,
        supply: 1,
        decimals: 0,
        is_initialized: true,
        freeze_authority: solana_program::program_option::COption::None,
    };
    let mut data = vec![0u8; spl_token::state::Mint::LEN];
    spl_token::state::Mint::pack(m, &mut data).unwrap();
    AccountView {
        key: *mint,
        owner: ids::token_program_id(),
        data,
    }
}

fn list_ctx() -> ListNft {
    let seller = k(2);
    let mint = k(4);
    let collection_mint = k(7);
    let authority = k(9);
    let (cc_key, cc_bump) = derived(&carbon::pda::collection_seeds(&collection_mint));
    let (mc_key, mc_bump) = derived(&carbon::pda::marketplace_seeds(&authority));
    let (listing_key, _) = derived(&carbon::pda::listing_seeds(&mint.to_bytes()));
    let (custody_key, _) = derived(&carbon::pda::custody_seeds(&mint));
    ListNft {
        seller,
        token_account: TokenAccount {
            mint,
            owner: seller,
            amount: 1,
            state: TokenAccountState::Initialized,
        },
        mint_key: mint,
        collection_mint_key: collection_mint,
        metadata_account: AccountView {
            key: k(14),
            owner: ids::metadata_program_id(),
            data: vec![1],
        },
        metadata: MetadataInfo {
            mint,
            seller_fee_basis_points: 0,
            creators: None,
            collection: Some(CollectionRef {
                verified: true,
                key: collection_mint,
            }),
        },
        currency_mint: ids::native_mint(),
        listing_key,
        collection_config: CollectionConfig {
            bump: cc_bump,
            version: 1,
            marketplace_authority: authority,
            collection_mint,
            seller_fee_basis_points: 500,
            symbol: String::from("ITEM"),
        },
        collection_config_key: cc_key,
        marketplace_config: MarketplaceConfig {
            bump: mc_bump,
            version: 1,
            marketplace_authority: authority,
            fee_config: FeeConfig {
                fee_account: k(3),
                bps: 250,
            },
        },
        marketplace_config_key: mc_key,
        custody_account: AccountView {
            key: custody_key,
            owner: k(0),
            data: Vec::new(),
        },
        custody_record: None,
    }
}

fn buy_ctx(listing: Listing) -> BuyNft {
    let mint = k(4);
    let (listing_key, _) = derived(&carbon::pda::listing_seeds(&mint.to_bytes()));
    let (custody_key, _) = derived(&carbon::pda::custody_seeds(&mint));
    let (metadata_key, _) = carbon::pda::find_address(
        &carbon::pda::metadata_seeds(&mint),
        &ids::metadata_program_id(),
    )
    .unwrap();
    BuyNft {
        buyer: k(1),
        seller: k(2),
        mint_account: packed_mint_account(&mint),
        seller_token_account_key: k(5),
        buyer_token_account: AccountView {
            key: k(6),
            owner: k(0),
            data: Vec::new(),
        },
        metadata_account: AccountView {
            key: metadata_key,
            owner: ids::metadata_program_id(),
            data: vec![1],
        },
        metadata: MetadataInfo {
            mint,
            seller_fee_basis_points: 0,
            creators: None,
            collection: Some(CollectionRef {
                verified: true,
                key: k(7),
            }),
        },
        listing_key,
        listing,
        custody_account: AccountView {
            key: custody_key,
            owner: k(0),
            data: Vec::new(),
        },
        custody_record: None,
        fee_account: k(3),
        remaining: Vec::new(),
    }
}

#[test]
fn list_then_buy_at_the_ceiling_splits_the_price() {
    let ctx = list_ctx();
    let effect = list_nft_handler(&ctx, 1000, 5000, 10, &program_id()).unwrap();
    assert_eq!(effect.listing.price, 1000);
    assert!(!effect.listing.is_virtual);
    assert!(effect.freeze_with_listing_authority);
    assert!(effect.custody_update.is_none());
    assert!(!effect.event.is_virtual);

    let buy = buy_nft_handler(&buy_ctx(effect.listing), 1000, 20, &program_id()).unwrap();
    assert_eq!(buy.payment.marketplace_fee, 25);
    assert_eq!(buy.payment.creator_total, 0);
    assert_eq!(buy.payment.seller_amount, 975);
    assert!(key_eq(&buy.close_listing_to, &k(2)));
    assert!(buy.close_custody_to.is_none());
    assert!(!buy.use_custody_authority);
    assert_eq!(buy.event.price, 1000);
}

#[test]
fn buying_after_expiry_fails_with_listing_expired() {
    let ctx = list_ctx();
    let effect = list_nft_handler(&ctx, 1000, 5000, 10, &program_id()).unwrap();
    let r = buy_nft_handler(&buy_ctx(effect.listing), 1000, 5000, &program_id());
    assert_eq!(r.err().unwrap(), Abort::Program(Error::ListingExpired));
}

#[test]
fn buying_under_the_price_fails_with_max_price_exceeded() {
    let ctx = list_ctx();
    let effect = list_nft_handler(&ctx, 1000, 5000, 10, &program_id()).unwrap();
    let r = buy_nft_handler(&buy_ctx(effect.listing), 999, 20, &program_id());
    assert_eq!(r.err().unwrap(), Abort::Program(Error::MaxPriceExceeded));
}

#[test]
fn a_zero_price_listing_is_rejected() {
    let ctx = list_ctx();
    let r = list_nft_handler(&ctx, 0, 5000, 10, &program_id());
    assert_eq!(r.err().unwrap(), Abort::Program(Error::InvalidPrice));
}

#[test]
fn an_expiry_not_in_the_future_is_rejected() {
    let ctx = list_ctx();
    let r = list_nft_handler(&ctx, 1000, 10, 10, &program_id());
    assert_eq!(r.err().unwrap(), Abort::Program(Error::InvalidExpiry));
}

#[test]
fn a_buyer_cannot_use_a_foreign_fee_account() {
    let ctx = list_ctx();
    let effect = list_nft_handler(&ctx, 1000, 5000, 10, &program_id()).unwrap();
    let mut bctx = buy_ctx(effect.listing);
    bctx.fee_account = k(77);
    let r = buy_nft_handler(&bctx, 1000, 20, &program_id());
    assert_eq!(r.err().unwrap(), Abort::Program(Error::InvalidFeeAccount));
}

#[test]
fn a_buy_of_a_virtual_listing_through_the_nft_path_is_rejected() {
    let ctx = list_ctx();
    let mut listing = list_nft_handler(&ctx, 1000, 5000, 10, &program_id())
        .unwrap()
        .listing;
    listing.is_virtual = true;
    let r = buy_nft_handler(&buy_ctx(listing), 1000, 20, &program_id());
    assert_eq!(r.err().unwrap(), Abort::Program(Error::IsVirtual));
}

#[test]
fn a_listing_for_another_mint_is_rejected() {
    let ctx = list_ctx();
    let mut listing = list_nft_handler(&ctx, 1000, 5000, 10, &program_id())
        .unwrap()
        .listing;
    listing.id = [8; 32];
    let r = buy_nft_handler(&buy_ctx(listing), 1000, 20, &program_id());
    assert_eq!(r.err().unwrap(), Abort::Program(Error::InvalidMint));
}

#[test]
fn only_the_seller_may_sell() {
    let ctx = list_ctx();
    let effect = list_nft_handler(&ctx, 1000, 5000, 10, &program_id()).unwrap();
    let mut bctx = buy_ctx(effect.listing);
    bctx.seller = k(50);
    let r = buy_nft_handler(&bctx, 1000, 20, &program_id());
    assert_eq!(r.err().unwrap(), Abort::Program(Error::InvalidSeller));
}

#[test]
fn unverified_collection_membership_is_rejected() {
    let mut ctx = list_ctx();
    ctx.metadata.collection = Some(CollectionRef {
        verified: false,
        key: k(7),
    });
    let r = list_nft_handler(&ctx, 1000, 5000, 10, &program_id());
    assert_eq!(
        r.err().unwrap(),
        Abort::Check(carbon::util::error::Error::CollectionNotSet)
    );
}
