//! The trusted boundary held against the real crates: derived addresses,
//! associated token addresses, program id constants, and account unpacking.

use carbon::ids;
use carbon::keys::{key_eq, Key};
use carbon::pda;
use carbon::spl;
use solana_program::program_pack::Pack;

fn k(b: u8) -> Key {
    Key::from_bytes([b; 32])
}

#[test]
fn find_address_matches_runtime_derivation() {
    let program_id = k(7);
    let id = [42u8; 32];
    let seeds = pda::listing_seeds(&id);
    let (addr, bump) = pda::find_address(&seeds, &program_id).unwrap();

    let pid = solana_program::pubkey::Pubkey::new_from_array(program_id.to_bytes());
    let (expected, expected_bump) =
        solana_program::pubkey::Pubkey::find_program_address(&[b"listing", &id], &pid);
    assert_eq!(addr.to_bytes(), expected.to_bytes());
    assert_eq!(bump, expected_bump);
}

#[test]
fn custody_and_metadata_seeds_match_runtime_derivation() {
    let program_id = k(9);
    let mint = k(3);
    let seeds = pda::custody_seeds(&mint);
    let (addr, _) = pda::find_address(&seeds, &program_id).unwrap();
    let pid = solana_program::pubkey::Pubkey::new_from_array(program_id.to_bytes());
    let (expected, _) = solana_program::pubkey::Pubkey::find_program_address(
        &[b"custody_account", &mint.to_bytes()],
        &pid,
    );
    assert_eq!(addr.to_bytes(), expected.to_bytes());

    let mpl = ids::metadata_program_id();
    let mseeds = pda::metadata_seeds(&mint);
    let (maddr, _) = pda::find_address(&mseeds, &mpl).unwrap();
    let mpl_pid = mpl_token_metadata::ID;
    let (mexpected, _) = solana_program::pubkey::Pubkey::find_program_address(
        &[b"metadata", mpl_pid.as_ref(), &mint.to_bytes()],
        &mpl_pid,
    );
    assert_eq!(maddr.to_bytes(), mexpected.to_bytes());
}

#[test]
fn program_id_constants_match_the_crates() {
    assert_eq!(
        ids::native_mint().to_bytes(),
        spl_token::native_mint::ID.to_bytes()
    );
    assert_eq!(ids::token_program_id().to_bytes(), spl_token::ID.to_bytes());
    assert_eq!(
        ids::metadata_program_id().to_bytes(),
        mpl_token_metadata::ID.to_bytes()
    );
}

#[test]
fn is_native_mint_recognizes_only_the_native_mint() {
    let native = Key::from_bytes(spl_token::native_mint::ID.to_bytes());
    assert!(carbon::util::checks::is_native_mint(&native));
    assert!(!carbon::util::checks::is_native_mint(&k(1)));
}

#[test]
fn ata_address_matches_runtime_derivation() {
    let wallet = k(11);
    let mint = k(12);
    let w = solana_program::pubkey::Pubkey::new_from_array(wallet.to_bytes());
    let m = solana_program::pubkey::Pubkey::new_from_array(mint.to_bytes());
    let expected = spl_associated_token_account::get_associated_token_address(&w, &m);

    // Reached through the public associated-account check: the canonical
    // address must satisfy it, any other address must not.
    let data = packed_token_account(&mint, &wallet, 5);
    let good = carbon::accounts::AccountView {
        key: Key::from_bytes(expected.to_bytes()),
        owner: ids::token_program_id(),
        data: data.clone(),
    };
    assert!(carbon::util::checks::assert_is_ata(&good, &wallet, &mint).is_ok());

    let bad = carbon::accounts::AccountView {
        key: k(13),
        owner: ids::token_program_id(),
        data,
    };
    assert!(carbon::util::checks::assert_is_ata(&bad, &wallet, &mint).is_err());
}

fn packed_token_account(mint: &Key, owner: &Key, amount: u64) -> Vec<u8> {
    let acct = spl_token::state::Account {
        mint: solana_program::pubkey::Pubkey::new_from_array(mint.to_bytes()),
        owner: solana_program::pubkey::Pubkey::new_from_array(owner.to_bytes()),
        amount,
        delegate: solana_program::program_option::COption::None,
        state: spl_token::state::AccountState::Initialized,
        is_native: solana_program::program_option::COption::None,
        delegated_amount: 0,
        close_authority: solana_program::program_option::COption::None,
    };
    let mut data = vec![0u8; spl_token::state::Account::LEN];
    spl_token::state::Account::pack(acct, &mut data).unwrap();
    data
}

#[test]
fn unpack_token_account_reads_the_packed_layout() {
    let mint = k(21);
    let owner = k(22);
    let data = packed_token_account(&mint, &owner, 77);
    let ta = spl::unpack_token_account(&data).unwrap();
    assert!(key_eq(&ta.mint, &mint));
    assert!(key_eq(&ta.owner, &owner));
    assert_eq!(ta.amount, 77);
    assert!(matches!(
        ta.state,
        carbon::accounts::TokenAccountState::Initialized
    ));

    assert!(spl::unpack_token_account(&[0u8; 10]).is_none());
}

#[test]
fn unpack_mint_reads_the_packed_layout() {
    let m = spl_token::state::Mint {
        mint_authority: solana_program::program_option::COption::None,
        supply: 1,
        decimals: 0,
        is_initialized: true,
        freeze_authority: solana_program::program_option::COption::None,
    };
    let mut data = vec![0u8; spl_token::state::Mint::LEN];
    spl_token::state::Mint::pack(m, &mut data).unwrap();
    let parsed = spl::unpack_mint(&data).unwrap();
    assert_eq!(parsed.supply, 1);
    assert_eq!(parsed.decimals, 0);
    assert!(parsed.is_initialized);

    assert!(spl::unpack_mint(&[1u8; 5]).is_none());
}
