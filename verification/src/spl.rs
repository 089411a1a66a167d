//! The boundary to the external token and associated-token programs: parsing
//! their fixed account layouts and deriving associated token addresses. Each
//! external call stands behind one trusted declaration; everything done with
//! the results is verified.

use vstd::prelude::*;
use crate::keys::Key;
use crate::accounts::{TokenAccount, TokenAccountState, TokenMint};

verus! {

/// The (mint, owner, amount, state) fields stored in a token account's data,
/// `None` when the bytes are not a well-formed token account. A pure function
/// of the bytes.
pub uninterp spec fn token_account_fields_of(data: Seq<u8>) -> Option<(Seq<u8>, Seq<u8>, u64, u8)>;

/// The (supply, decimals, is-initialized) fields stored in a mint's data,
/// `None` when the bytes are not a well-formed mint. A pure function of the
/// bytes.
pub uninterp spec fn mint_fields_of(data: Seq<u8>) -> Option<(u64, u8, bool)>;

/// The associated token account address of a wallet for a mint: a derived
/// address computed from the two keys alone.
pub uninterp spec fn ata_key_of(wallet: Seq<u8>, mint: Seq<u8>) -> Seq<u8>;

/// Relies on spl_token::state::Account::unpack_unchecked: reads the fixed
/// 165-byte token-account layout without an initialization check, failing on
/// any other length or a malformed field; the state byte of a well-formed
/// account is one of its three declared values.
#[verifier::external_body]
fn unpack_token_account_raw(data: &[u8]) -> (r: Option<(Key, Key, u64, u8)>)
    ensures
        match r {
            Some(t) => token_account_fields_of(data@) == Some((t.0@, t.1@, t.2, t.3)) && t.3 <= 2,
            None => token_account_fields_of(data@) is None,
        },
{
    match <spl_token::state::Account as solana_program::program_pack::Pack>::unpack_unchecked(data) {
        Ok(a) => Some((
            Key { bytes: a.mint.to_bytes() },
            Key { bytes: a.owner.to_bytes() },
            a.amount,
            a.state as u8,
        )),
        Err(_) => None,
    }
}

/// Relies on spl_token::state::Mint::unpack_unchecked: reads the fixed
/// 82-byte mint layout without an initialization check, failing on any other
/// length or a malformed field.
#[verifier::external_body]
fn unpack_mint_raw(data: &[u8]) -> (r: Option<(u64, u8, bool)>)
    ensures
        r == mint_fields_of(data@),
{
    match <spl_token::state::Mint as solana_program::program_pack::Pack>::unpack_unchecked(data) {
        Ok(m) => Some((m.supply, m.decimals, m.is_initialized)),
        Err(_) => None,
    }
}

/// Relies on spl_associated_token_account::get_associated_token_address: the
/// canonical associated token address for the wallet and mint under the token
/// program, a deterministic function of the two keys.
#[verifier::external_body]
pub(crate) fn ata_address(wallet: &Key, mint: &Key) -> (r: Key)
    ensures
        r@ == ata_key_of(wallet@, mint@),
{
    let w = solana_program::pubkey::Pubkey::new_from_array(wallet.bytes);
    let m = solana_program::pubkey::Pubkey::new_from_array(mint.bytes);
    Key { bytes: spl_associated_token_account::get_associated_token_address(&w, &m).to_bytes() }
}

/// The state byte a token-account state is stored as.
pub open spec fn state_byte(s: TokenAccountState) -> u8 {
    match s {
        TokenAccountState::Uninitialized => 0,
        TokenAccountState::Initialized => 1,
        TokenAccountState::Frozen => 2,
    }
}

/// What a successful token-account parse yields, over the named fields.
pub open spec fn parsed_token_account(data: Seq<u8>, ta: TokenAccount) -> bool {
    token_account_fields_of(data) == Some((ta.mint@, ta.owner@, ta.amount, state_byte(ta.state)))
}

/// Parses a token account's data, `None` when it is malformed.
pub fn unpack_token_account(data: &[u8]) -> (r: Option<TokenAccount>)
    ensures
        match r {
            Some(ta) => parsed_token_account(data@, ta),
            None => token_account_fields_of(data@) is None,
        },
{
    match unpack_token_account_raw(data) {
        Some((mint, owner, amount, state)) => {
            let state = if state == 0 {
                TokenAccountState::Uninitialized
            } else if state == 1 {
                TokenAccountState::Initialized
            } else {
                TokenAccountState::Frozen
            };
            Some(TokenAccount { mint, owner, amount, state })
        },
        None => None,
    }
}

/// What a successful mint parse yields, over the named fields.
pub open spec fn parsed_mint(data: Seq<u8>, m: TokenMint) -> bool {
    mint_fields_of(data) == Some((m.supply, m.decimals, m.is_initialized))
}

/// Parses a mint's data, `None` when it is malformed.
pub fn unpack_mint(data: &[u8]) -> (r: Option<TokenMint>)
    ensures
        match r {
            Some(m) => parsed_mint(data@, m),
            None => mint_fields_of(data@) is None,
        },
{
    match unpack_mint_raw(data) {
        Some((supply, decimals, is_initialized)) => Some(
            TokenMint { supply, decimals, is_initialized },
        ),
        None => None,
    }
}

} // verus!
