//! The exact-price revision: price must match exactly, and its one
//! option-driven transfer helper covers both currencies.

use carbon::abort::Abort;
use carbon::accounts::AccountView;
use carbon::ids;
use carbon::keys::{key_eq, Key};
use carbon::util::transfer::PayStep;
use carbon::virt::error::Error;
use carbon::virt::fee_schedule::FeeSchedule;
use carbon::virt::listing::Listing;
use carbon::virt::transfer::transfer;
use solana_program::program_pack::Pack;

fn k(b: u8) -> Key {
    Key::from_bytes([b; 32])
}

fn listing(price: u64, expiry: i64) -> Listing {
    Listing {
        bump: 0,
        version: 1,
        authority: k(2),
        id: k(4),
        is_virtual: true,
        currency_mint: ids::native_mint(),
        price,
        expiry,
        fee_schedule: FeeSchedule {
            beneficiary: k(3),
            bps: 250,
        },
    }
}

#[test]
fn an_exact_price_is_required() {
    let l = listing(1000, 5000);
    assert!(l.assert_can_buy(1000, 10).is_ok());
    assert_eq!(l.assert_can_buy(1001, 10), Err(Error::PriceMismatch));
    assert_eq!(l.assert_can_buy(999, 10), Err(Error::PriceMismatch));
}

#[test]
fn an_expired_listing_cannot_be_bought() {
    let l = listing(1000, 50);
    assert_eq!(l.assert_can_buy(1000, 50), Err(Error::ListingExpired));
}

#[test]
fn init_validates_price_and_expiry() {
    let mut l = listing(1, 1);
    assert_eq!(
        l.init(0, k(2), k(4), true, ids::native_mint(), 0, 5000, 10),
        Err(Error::InvalidPrice)
    );
    assert_eq!(
        l.init(0, k(2), k(4), true, ids::native_mint(), 1000, 10, 10),
        Err(Error::InvalidExpiry)
    );
    assert!(l
        .init(7, k(2), k(4), true, ids::native_mint(), 1000, 5000, 10)
        .is_ok());
    assert_eq!(l.price, 1000);
    assert_eq!(l.fee_schedule.bps, 0);
}

#[test]
fn a_native_transfer_needs_no_currency_accounts() {
    let step = transfer(&k(1), &k(2), None, None, None, 500).unwrap();
    assert!(
        matches!(step, PayStep::Sol { from, to, amount } if key_eq(&from, &k(1)) && key_eq(&to, &k(2)) && amount == 500)
    );
}

#[test]
fn a_token_transfer_validates_the_mint_and_creates_missing_destinations() {
    let mint = k(9);
    let m = spl_token::state::Mint {
        mint_authority: solana_program::program_option::COption::None,
        supply: 10,
        decimals: 0,
        is_initialized: true,
        freeze_authority: solana_program::program_option::COption::None,
    };
    let mut data = vec![0u8; spl_token::state::Mint::LEN];
    spl_token::state::Mint::pack(m, &mut data).unwrap();
    let mint_acct = AccountView {
        key: mint,
        owner: ids::token_program_id(),
        data,
    };
    let dest = AccountView {
        key: k(8),
        owner: k(0),
        data: Vec::new(),
    };
    let from_tok = k(6);
    let step = transfer(&k(1), &k(2), Some(&from_tok), Some(&dest), Some(&mint_acct), 500)
        .unwrap();
    assert!(
        matches!(step, PayStep::Spl { create_dest, amount, .. } if create_dest && amount == 500)
    );

    // A missing currency account list is rejected, not unwrapped.
    let r = transfer(&k(1), &k(2), None, None, Some(&mint_acct), 500);
    assert_eq!(r.err().unwrap(), Abort::MissingAccount);
}

#[test]
fn is_default_recognizes_only_the_zero_key() {
    assert!(carbon::virt::checks::is_default(&Key::from_bytes([0; 32])));
    assert!(!carbon::virt::checks::is_default(&k(1)));
}

fn virt_collection() -> (carbon::virt::collection_config::CollectionConfig, Key) {
    let authority = k(9);
    let collection_mint = k(7);
    let seeds = carbon::virt::collection_config::collection_seeds(&authority, &collection_mint);
    let (cc_key, cc_bump) = carbon::pda::find_address(&seeds, &k(100)).unwrap();
    (
        carbon::virt::collection_config::CollectionConfig {
            bump: cc_bump,
            version: 1,
            authority,
            collection_mint,
            mint_authority: k(10),
            seller_fee_basis_points: 500,
            symbol: String::from("ITEM"),
        },
        cc_key,
    )
}

#[test]
fn an_exact_price_sale_splits_fee_and_remainder() {
    let program_id = k(100);
    let id = k(40);
    let (listing_key, bump) =
        carbon::pda::find_address(&carbon::pda::listing_seeds(&id.to_bytes()), &program_id)
            .unwrap();
    let (cc, cc_key) = virt_collection();
    let mut l = listing(1, 1);
    l.init(bump, k(9), id, true, ids::native_mint(), 1000, 5000, 10)
        .unwrap();
    l.fee_schedule = FeeSchedule {
        beneficiary: k(3),
        bps: 250,
    };
    let ctx = carbon::virt::buy_virtual::BuyVirtual {
        buyer: k(1),
        authority: k(9),
        mint_authority: k(10),
        collection_mint_key: k(7),
        listing_key,
        listing: l,
        collection_config: cc,
        collection_config_key: cc_key,
        fee_account: k(3),
    };
    let effect = carbon::virt::buy_virtual::buy_virtual_handler(
        &ctx,
        &id,
        1000,
        carbon::state::metadata::Metadata {
            name: String::from("Item Three"),
            uri: String::from("ipfs://item-three"),
        },
        10,
        &program_id,
    )
    .unwrap();
    assert_eq!(effect.fee, 25);
    assert_eq!(effect.seller_amount, 975);
    assert_eq!(effect.fee + effect.seller_amount, 1000);
    assert_eq!(effect.steps.len(), 2);
    assert!(key_eq(&effect.close_listing_to, &k(9)));
    assert!(effect.mint_data.creators.is_none());
    assert_eq!(effect.mint_data.symbol, "ITEM");

    // A submitted price that is not exact fails with the revision's code.
    let r = carbon::virt::buy_virtual::buy_virtual_handler(
        &ctx,
        &id,
        999,
        carbon::state::metadata::Metadata {
            name: String::new(),
            uri: String::new(),
        },
        10,
        &program_id,
    );
    assert_eq!(
        r.err().unwrap(),
        carbon::abort::Abort::Revision(Error::PriceMismatch)
    );
}

#[test]
fn the_collection_initializer_fills_the_record() {
    let mut cc = carbon::virt::collection_config::CollectionConfig {
        bump: 0,
        version: 0,
        authority: k(0),
        collection_mint: k(0),
        mint_authority: k(0),
        seller_fee_basis_points: 0,
        symbol: String::new(),
    };
    carbon::virt::collection_config::init_collection_config_handler(
        &mut cc,
        &k(9),
        Some(252),
        k(7),
        k(10),
        500,
        String::from("ITEM"),
    )
    .unwrap();
    assert_eq!(cc.version, 1);
    assert!(key_eq(&cc.mint_authority, &k(10)));
    assert_eq!(cc.symbol, "ITEM");

    let r = carbon::virt::collection_config::init_collection_config_handler(
        &mut cc,
        &k(9),
        None,
        k(7),
        k(10),
        500,
        String::from("ITEM"),
    );
    assert_eq!(r, Err(Error::BumpSeedNotInHashMap));
}
