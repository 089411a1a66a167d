//! The custody lifecycle: round trips, the listed flag on custodied items,
//! and the finality of a close.

use carbon::abort::Abort;
use carbon::accounts::{
    AccountView, CollectionRef, MetadataInfo, TokenAccount, TokenAccountState,
};
use carbon::error::Error;
use carbon::ids;
use carbon::instructions::custody::{custody_handler, Custody};
use carbon::instructions::delist_nft::{delist_nft_handler, DelistNft};
use carbon::instructions::list_nft::{list_nft_handler, ListNft};
use carbon::instructions::take_ownership::{take_ownership_handler, TakeOwnership};
use carbon::instructions::uncustody::{uncustody_handler, Uncustody};
use carbon::keys::{key_eq, Key};
use carbon::state::collection_config::CollectionConfig;
use carbon::state::custody_account::CustodyAccount;
use carbon::state::fee_config::FeeConfig;
use carbon::state::listing::Listing;
use carbon::state::marketplace_config::MarketplaceConfig;
use solana_program::program_pack::Pack;

fn k(b: u8) -> Key {
    Key::from_bytes([b; 32])
}

fn program_id() -> Key {
    k(100)
}

fn derived(seeds: &Vec<Vec<u8>>) -> (Key, u8) {
    carbon::pda::find_address(seeds, &program_id()).unwrap()
}

fn empty_listing_account(mint: &Key) -> AccountView {
    let (listing_key, _) = derived(&carbon::pda::listing_seeds(&mint.to_bytes()));
    AccountView {
        key: listing_key,
        owner: k(0),
        data: Vec::new(),
    }
}

fn custody_ctx() -> Custody {
    let owner = k(2);
    let mint = k(4);
    let (custody_key, _) = derived(&carbon::pda::custody_seeds(&mint));
    Custody {
        owner,
        marketplace_authority: k(9),
        token_account: TokenAccount {
            mint,
            owner,
            amount: 1,
            state: TokenAccountState::Initialized,
        },
        mint_key: mint,
        custody_account_key: custody_key,
        listing_account: empty_listing_account(&mint),
        listing_record: None,
    }
}

fn uncustody_ctx(custody: CustodyAccount) -> Uncustody {
    let owner = k(2);
    let mint = k(4);
    let (custody_key, _) = derived(&carbon::pda::custody_seeds(&mint));
    Uncustody {
        owner,
        marketplace_authority: k(9),
        token_account: TokenAccount {
            mint,
            owner,
            amount: 1,
            state: TokenAccountState::Frozen,
        },
        mint_key: mint,
        custody_account_key: custody_key,
        custody,
        listing_account: empty_listing_account(&mint),
        listing_record: None,
    }
}

#[test]
fn custody_then_uncustody_round_trips() {
    let effect = custody_handler(&custody_ctx(), [5; 32], &program_id()).unwrap();
    assert!(!effect.custody.is_listed);
    assert!(key_eq(&effect.custody.authority, &k(2)));
    assert!(key_eq(&effect.custody.mint, &k(4)));

    let release = uncustody_handler(&uncustody_ctx(effect.custody), &program_id()).unwrap();
    // The record closes back to the owner and the asset is thawed and
    // undelegated under the custody authority's seeds.
    assert!(key_eq(&release.close_custody_to, &k(2)));
    assert!(key_eq(&release.custody.mint, &k(4)));
}

#[test]
fn custody_fails_while_the_item_is_listed() {
    let mint = k(4);
    let (listing_key, bump) = derived(&carbon::pda::listing_seeds(&mint.to_bytes()));
    let listing = Listing {
        bump,
        version: 1,
        marketplace_authority: k(9),
        seller: k(2),
        id: mint.to_bytes(),
        is_virtual: false,
        currency_mint: ids::native_mint(),
        collection_config: k(8),
        price: 1000,
        expiry: 5000,
        fee_config: FeeConfig {
            fee_account: k(3),
            bps: 250,
        },
    };
    let mut ctx = custody_ctx();
    ctx.listing_account = AccountView {
        key: listing_key,
        owner: program_id(),
        data: vec![1],
    };
    ctx.listing_record = Some(listing);
    let r = custody_handler(&ctx, [5; 32], &program_id());
    assert_eq!(r.err().unwrap(), Abort::Program(Error::NftIsListed));
}

#[test]
fn an_emptied_listing_address_never_loads_a_record() {
    // Once a listing closes, its account is empty again: the load yields
    // the absent state, so a second buy or delist has nothing to act on.
    let mint = k(4);
    let (listing_key, _) = derived(&carbon::pda::listing_seeds(&mint.to_bytes()));
    let r = Listing::from_account_info_with_checks(
        &listing_key,
        &k(0),
        None,
        &mint.to_bytes(),
        &program_id(),
    );
    assert!(matches!(r, Ok(None)));
}

#[test]
fn listing_a_custodied_item_flips_the_flag_and_skips_the_freeze() {
    let custody = custody_handler(&custody_ctx(), [5; 32], &program_id()).unwrap().custody;

    let seller = k(2);
    let mint = k(4);
    let collection_mint = k(7);
    let authority = k(9);
    let (cc_key, cc_bump) = derived(&carbon::pda::collection_seeds(&collection_mint));
    let (mc_key, mc_bump) = derived(&carbon::pda::marketplace_seeds(&authority));
    let (listing_key, _) = derived(&carbon::pda::listing_seeds(&mint.to_bytes()));
    let (custody_key, _) = derived(&carbon::pda::custody_seeds(&mint));
    let ctx = ListNft {
        seller,
        token_account: TokenAccount {
            mint,
            owner: seller,
            amount: 1,
            state: TokenAccountState::Frozen,
        },
        mint_key: mint,
        collection_mint_key: collection_mint,
        metadata_account: AccountView {
            key: k(14),
            owner: ids::metadata_program_id(),
            data: vec![1],
        },
        metadata: MetadataInfo {
            mint,
            seller_fee_basis_points: 0,
            creators: None,
            collection: Some(CollectionRef {
                verified: true,
                key: collection_mint,
            }),
        },
        currency_mint: ids::native_mint(),
        listing_key,
        collection_config: CollectionConfig {
            bump: cc_bump,
            version: 1,
            marketplace_authority: authority,
            collection_mint,
            seller_fee_basis_points: 500,
            symbol: String::from("ITEM"),
        },
        collection_config_key: cc_key,
        marketplace_config: MarketplaceConfig {
            bump: mc_bump,
            version: 1,
            marketplace_authority: authority,
            fee_config: FeeConfig {
                fee_account: k(3),
                bps: 250,
            },
        },
        marketplace_config_key: mc_key,
        custody_account: AccountView {
            key: custody_key,
            owner: program_id(),
            data: vec![1],
        },
        custody_record: Some(custody),
    };
    let effect = list_nft_handler(&ctx, 1000, 5000, 10, &program_id()).unwrap();
    assert!(!effect.freeze_with_listing_authority);
    let updated = effect.custody_update.unwrap();
    assert!(updated.is_listed);
    assert!(key_eq(&updated.mint, &mint));

    // Delisting flips the flag back instead of a thaw.
    let delist = delist_nft_handler(
        &DelistNft {
            seller,
            token_account: TokenAccount {
                mint,
                owner: seller,
                amount: 1,
                state: TokenAccountState::Frozen,
            },
            mint_key: mint,
            listing_key,
            listing: effect.listing,
            custody_account: AccountView {
                key: custody_key,
                owner: program_id(),
                data: vec![1],
            },
            custody_record: Some(updated),
        },
        &program_id(),
    )
    .unwrap();
    assert!(!delist.thaw_and_revoke_with_listing_authority);
    assert!(!delist.custody_update.unwrap().is_listed);
    assert!(key_eq(&delist.close_listing_to, &seller));
}

#[test]
fn uncustody_fails_while_the_item_is_listed() {
    let custody = custody_handler(&custody_ctx(), [5; 32], &program_id()).unwrap().custody;
    let mint = k(4);
    let (listing_key, bump) = derived(&carbon::pda::listing_seeds(&mint.to_bytes()));
    let mut ctx = uncustody_ctx(custody);
    ctx.listing_account = AccountView {
        key: listing_key,
        owner: program_id(),
        data: vec![1],
    };
    ctx.listing_record = Some(Listing {
        bump,
        version: 1,
        marketplace_authority: k(9),
        seller: k(2),
        id: mint.to_bytes(),
        is_virtual: false,
        currency_mint: ids::native_mint(),
        collection_config: k(8),
        price: 1000,
        expiry: 5000,
        fee_config: FeeConfig {
            fee_account: k(3),
            bps: 250,
        },
    });
    let r = uncustody_handler(&ctx, &program_id());
    assert_eq!(r.err().unwrap(), Abort::Program(Error::NftIsListed));
}

#[test]
fn only_the_custody_owner_may_uncustody() {
    let custody = custody_handler(&custody_ctx(), [5; 32], &program_id()).unwrap().custody;
    let mut ctx = uncustody_ctx(custody);
    ctx.owner = k(50);
    ctx.token_account.owner = k(50);
    let r = uncustody_handler(&ctx, &program_id());
    assert_eq!(
        r.err().unwrap(),
        Abort::Check(carbon::util::error::Error::PublicKeyMismatch)
    );
}

#[test]
fn delisting_a_non_custodied_nft_reverses_the_freeze_delegation() {
    let seller = k(2);
    let mint = k(4);
    let (listing_key, bump) = derived(&carbon::pda::listing_seeds(&mint.to_bytes()));
    let (custody_key, _) = derived(&carbon::pda::custody_seeds(&mint));
    let listing = Listing {
        bump,
        version: 1,
        marketplace_authority: k(9),
        seller,
        id: mint.to_bytes(),
        is_virtual: false,
        currency_mint: ids::native_mint(),
        collection_config: k(8),
        price: 1000,
        expiry: 5000,
        fee_config: FeeConfig {
            fee_account: k(3),
            bps: 250,
        },
    };
    let effect = delist_nft_handler(
        &DelistNft {
            seller,
            token_account: TokenAccount {
                mint,
                owner: seller,
                amount: 1,
                state: TokenAccountState::Frozen,
            },
            mint_key: mint,
            listing_key,
            listing,
            custody_account: AccountView {
                key: custody_key,
                owner: k(0),
                data: Vec::new(),
            },
            custody_record: None,
        },
        &program_id(),
    )
    .unwrap();
    assert!(effect.thaw_and_revoke_with_listing_authority);
    assert!(effect.custody_update.is_none());
    assert!(key_eq(&effect.close_listing_to, &seller));
}

#[test]
fn the_marketplace_authority_may_take_ownership_of_a_custodied_nft() {
    let custody = custody_handler(&custody_ctx(), [5; 32], &program_id()).unwrap().custody;
    let mint = k(4);
    let (custody_key, _) = derived(&carbon::pda::custody_seeds(&mint));
    let m = spl_token::state::Mint {
        mint_authority: solana_program::program_option::COption::None,
        supply: 1,
        decimals: 0,
        is_initialized: true,
        freeze_authority: solana_program::program_option::COption::None,
    };
    let mut mint_data = vec![0u8; spl_token::state::Mint::LEN];
    spl_token::state::Mint::pack(m, &mut mint_data).unwrap();
    let effect = take_ownership_handler(
        &TakeOwnership {
            marketplace_authority: k(9),
            owner: k(2),
            token_account: TokenAccount {
                mint,
                owner: k(2),
                amount: 1,
                state: TokenAccountState::Frozen,
            },
            token_account_key: k(5),
            marketplace_authority_token_account: AccountView {
                key: k(6),
                owner: k(0),
                data: Vec::new(),
            },
            mint_account: AccountView {
                key: mint,
                owner: ids::token_program_id(),
                data: mint_data,
            },
            mint_key: mint,
            custody_account_key: custody_key,
            custody,
            listing_account: empty_listing_account(&mint),
            listing_record: None,
        },
        &program_id(),
    )
    .unwrap();
    // The asset moves to the marketplace authority, not back to the owner,
    // and the custody record's rent still returns to the owner.
    assert!(key_eq(&effect.close_custody_to, &k(2)));
    assert!(matches!(
        effect.nft_transfer,
        carbon::util::transfer::PayStep::Spl { to_wallet, amount, .. }
            if key_eq(&to_wallet, &k(9)) && amount == 1
    ));

    // Only the custody's verified marketplace authority may seize.
    let mut bad = custody;
    bad.marketplace_authority = k(50);
    let r = take_ownership_handler(
        &TakeOwnership {
            marketplace_authority: k(9),
            owner: k(2),
            token_account: TokenAccount {
                mint,
                owner: k(2),
                amount: 1,
                state: TokenAccountState::Frozen,
            },
            token_account_key: k(5),
            marketplace_authority_token_account: AccountView {
                key: k(6),
                owner: k(0),
                data: Vec::new(),
            },
            mint_account: AccountView {
                key: mint,
                owner: ids::token_program_id(),
                data: Vec::new(),
            },
            mint_key: mint,
            custody_account_key: custody_key,
            custody: bad,
            listing_account: empty_listing_account(&mint),
            listing_record: None,
        },
        &program_id(),
    );
    assert_eq!(
        r.err().unwrap(),
        Abort::Check(carbon::util::error::Error::PublicKeyMismatch)
    );
}
