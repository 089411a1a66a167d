//! The exact-price revision's single transfer helper: one function plans a
//! native or token transfer, driven by which optional accounts the caller
//! supplies; the native mint (or no mint at all) selects the native path.

use vstd::prelude::*;
use crate::keys::Key;
use crate::abort::Abort;
use crate::accounts::AccountView;
use crate::util::checks::{
    assert_is_mint, assert_is_mint_spec, assert_is_ata, assert_is_ata_spec, is_native_mint,
};
use crate::util::transfer::PayStep;

verus! {

/// What planning one transfer decides: with no currency mint account, or
/// with the native mint, a native transfer of the amount; otherwise the
/// currency accounts must all be supplied, the mint account must be a
/// valid mint, and the destination must be absent (to be created) or the
/// recipient's valid associated account.
pub open spec fn transfer_spec(
    from: Key,
    to: Key,
    from_currency_account: Option<Key>,
    to_currency_account: Option<AccountView>,
    currency_mint: Option<AccountView>,
    amount: u64,
) -> Result<PayStep, Abort> {
    let is_native = match currency_mint {
        Option::None => true,
        Option::Some(m) => m.key@ == crate::ids::native_mint_seq(),
    };
    if is_native {
        Ok(PayStep::Sol { from, to, amount })
    } else {
        match (from_currency_account, to_currency_account, currency_mint) {
            (Option::Some(from_tok), Option::Some(to_tok), Option::Some(mint_acct)) => {
                if assert_is_mint_spec(mint_acct.owner@, mint_acct.data@) is Err {
                    Err(
                        Abort::Check(
                            assert_is_mint_spec(mint_acct.owner@, mint_acct.data@)->Err_0,
                        ),
                    )
                } else {
                    let create = to_tok.data@.len() == 0;
                    if !create && assert_is_ata_spec(
                        to_tok.owner@,
                        to_tok.data@,
                        to_tok.key@,
                        to@,
                        mint_acct.key@,
                    ) is Err {
                        Err(
                            Abort::Check(
                                assert_is_ata_spec(
                                    to_tok.owner@,
                                    to_tok.data@,
                                    to_tok.key@,
                                    to@,
                                    mint_acct.key@,
                                )->Err_0,
                            ),
                        )
                    } else {
                        Ok(
                            PayStep::Spl {
                                authority: from,
                                to_wallet: to,
                                from_token_account: from_tok,
                                to_token_account: to_tok.key,
                                create_dest: create,
                                amount,
                            },
                        )
                    }
                }
            },
            _ => Err(Abort::MissingAccount),
        }
    }
}

/// Plans one transfer of the amount from `from` to `to`, in the native
/// currency or the supplied token currency, validating the destination
/// before any transfer is issued.
pub fn transfer(
    from: &Key,
    to: &Key,
    from_currency_account: Option<&Key>,
    to_currency_account: Option<&AccountView>,
    currency_mint: Option<&AccountView>,
    amount: u64,
) -> (r: Result<PayStep, Abort>)
    ensures
        r == transfer_spec(
            *from,
            *to,
            match from_currency_account {
                Some(k) => Some(*k),
                None => None,
            },
            match to_currency_account {
                Some(a) => Some(*a),
                None => None,
            },
            match currency_mint {
                Some(a) => Some(*a),
                None => None,
            },
            amount,
        ),
{
    let is_native = match currency_mint {
        None => true,
        Some(m) => is_native_mint(&m.key),
    };
    if is_native {
        return Ok(PayStep::Sol { from: *from, to: *to, amount });
    }
    let (from_tok, to_tok, mint_acct) = match (from_currency_account, to_currency_account,
        currency_mint) {
        (Some(f), Some(t), Some(m)) => (f, t, m),
        _ => {
            return Err(Abort::MissingAccount);
        },
    };
    if let Err(e) = assert_is_mint(mint_acct) {
        return Err(Abort::Check(e));
    }
    let create = to_tok.data_is_empty();
    if !create {
        if let Err(e) = assert_is_ata(to_tok, to, &mint_acct.key) {
            return Err(Abort::Check(e));
        }
    }
    Ok(
        PayStep::Spl {
            authority: *from,
            to_wallet: *to,
            from_token_account: *from_tok,
            to_token_account: to_tok.key,
            create_dest: create,
            amount,
        },
    )
}

} // verus!
