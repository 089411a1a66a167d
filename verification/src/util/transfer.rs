//! The payment-distribution engine. Given a gross sale price, a currency, a
//! fee schedule and the item's metadata, it computes and validates the exact
//! transfers of one sale — marketplace fee, pro-rata creator royalties, and
//! seller remainder — such that the amounts always sum to the price exactly.
//! The runtime performs the returned transfers atomically; any failure here
//! aborts the whole instruction before money moves.

use vstd::prelude::*;
use crate::keys::{Key, key_eq};
use crate::abort::Abort;
use crate::accounts::{AccountView, Creator, MetadataInfo};
use crate::util::error::Error;
use crate::util::checks::{
    assert_is_mint, assert_is_mint_spec, assert_is_ata, assert_is_ata_spec, is_native_mint,
    assert_is_metadata_account, is_metadata_account_spec,
};

verus! {

/// One transfer the runtime must perform, fully determined and validated.
#[derive(Clone, Copy, Debug)]
pub enum PayStep {
    /// A native-currency transfer.
    Sol { from: Key, to: Key, amount: u64 },
    /// A token transfer out of `from_token_account`; when `create_dest`
    /// holds, the destination associated account must first be created.
    Spl {
        /// The wallet or derived authority signing the transfer.
        authority: Key,
        to_wallet: Key,
        from_token_account: Key,
        to_token_account: Key,
        create_dest: bool,
        amount: u64,
    },
}

/// The total royalty owed to the creators on `price` under rate `bps`:
/// `floor(price * bps / 10000)` over the unbounded integers.
pub open spec fn royalty_amount(bps: u16, price: u64) -> int {
    (bps * price) / 10000
}

/// One creator's pro-rata share of the royalty:
/// `floor(royalty * share / 100)` over the unbounded integers.
pub open spec fn creator_fee(share: u8, royalty: u64) -> int {
    (share * royalty) / 100
}

/// What paying the creators from position `i` on decides, consuming trailing
/// accounts from `cursor` with `total` already owed: for each creator in
/// order, its exact fee; creators whose fee rounds to zero are skipped; each
/// paid creator's supplied account must match its recorded address; a fee or
/// a running total that does not fit the currency's base units is an
/// overflow failure. For a token currency each paid creator also supplies a
/// destination account, either absent (to be created) or a valid associated
/// account, and the currency mint account must be a valid mint.
pub open spec fn creators_spec(
    creators: Seq<Creator>,
    i: int,
    royalty: u64,
    is_native: bool,
    from: Key,
    from_token: Key,
    mint_acct: Option<AccountView>,
    accounts: Seq<AccountView>,
    cursor: int,
    total: u64,
) -> Result<(Seq<PayStep>, u64, int), Abort>
    decreases creators.len() - i,
{
    if i < 0 || i >= creators.len() {
        Ok((Seq::empty(), total, cursor))
    } else {
        let c = creators[i];
        let fee = creator_fee(c.share, royalty);
        if fee > u64::MAX {
            Err(Abort::Check(Error::OverflowError))
        } else if fee == 0 {
            creators_spec(
                creators,
                i + 1,
                royalty,
                is_native,
                from,
                from_token,
                mint_acct,
                accounts,
                cursor,
                total,
            )
        } else if cursor < 0 || cursor >= accounts.len() {
            Err(Abort::MissingAccount)
        } else if accounts[cursor].key@ != c.address@ {
            Err(Abort::Check(Error::PublicKeyMismatch))
        } else if total + fee > u64::MAX {
            Err(Abort::Check(Error::OverflowError))
        } else if is_native {
            let step = PayStep::Sol { from, to: c.address, amount: fee as u64 };
            match creators_spec(
                creators,
                i + 1,
                royalty,
                is_native,
                from,
                from_token,
                mint_acct,
                accounts,
                cursor + 1,
                (total + fee) as u64,
            ) {
                Ok((steps, t, cur)) => Ok((seq![step] + steps, t, cur)),
                Err(e) => Err(e),
            }
        } else {
            match mint_acct {
                Option::None => Err(Abort::MissingAccount),
                Option::Some(m) => {
                    if assert_is_mint_spec(m.owner@, m.data@) is Err {
                        Err(
                            Abort::Check(
                                assert_is_mint_spec(m.owner@, m.data@)->Err_0,
                            ),
                        )
                    } else if cursor + 1 >= accounts.len() {
                        Err(Abort::MissingAccount)
                    } else {
                        let ata = accounts[cursor + 1];
                        let create = ata.data@.len() == 0;
                        if !create && assert_is_ata_spec(
                            ata.owner@,
                            ata.data@,
                            ata.key@,
                            c.address@,
                            m.key@,
                        ) is Err {
                            Err(
                                Abort::Check(
                                    assert_is_ata_spec(
                                        ata.owner@,
                                        ata.data@,
                                        ata.key@,
                                        c.address@,
                                        m.key@,
                                    )->Err_0,
                                ),
                            )
                        } else {
                            let step = PayStep::Spl {
                                authority: from,
                                to_wallet: c.address,
                                from_token_account: from_token,
                                to_token_account: ata.key,
                                create_dest: create,
                                amount: fee as u64,
                            };
                            match creators_spec(
                                creators,
                                i + 1,
                                royalty,
                                is_native,
                                from,
                                from_token,
                                mint_acct,
                                accounts,
                                cursor + 2,
                                (total + fee) as u64,
                            ) {
                                Ok((steps, t, cur)) => Ok((seq![step] + steps, t, cur)),
                                Err(e) => Err(e),
                            }
                        }
                    }
                },
            }
        }
    }
}

/// Plans the creator payouts from creator `i` on, mirroring
/// [`creators_spec`] exactly.
fn pay_creators_from(
    creators: &Vec<Creator>,
    i: usize,
    royalty: u64,
    is_native: bool,
    from: &Key,
    from_token: &Key,
    mint_acct: Option<&AccountView>,
    accounts: &Vec<AccountView>,
    cursor: usize,
    total: u64,
) -> (r: Result<(Vec<PayStep>, u64, usize), Abort>)
    ensures
        match r {
            Ok(p) => creators_spec(
                creators@,
                i as int,
                royalty,
                is_native,
                *from,
                *from_token,
                match mint_acct {
                    Some(m) => Some(*m),
                    None => None,
                },
                accounts@,
                cursor as int,
                total,
            ) == Ok::<(Seq<PayStep>, u64, int), Abort>((p.0@, p.1, p.2 as int)),
            Err(e) => creators_spec(
                creators@,
                i as int,
                royalty,
                is_native,
                *from,
                *from_token,
                match mint_acct {
                    Some(m) => Some(*m),
                    None => None,
                },
                accounts@,
                cursor as int,
                total,
            ) == Err::<(Seq<PayStep>, u64, int), Abort>(e),
        },
    decreases creators@.len() - i,
{
    if i >= creators.len() {
        return Ok((Vec::new(), total, cursor));
    }
    let c = &creators[i];
    proof {
        assert(c.share as int * royalty as int <= u8::MAX as int * u64::MAX as int)
            by (nonlinear_arith)
            requires
                c.share <= u8::MAX,
                royalty <= u64::MAX,
        ;
    }
    let wide: u128 = (c.share as u128) * (royalty as u128);
    let fee_wide: u128 = wide / 100;
    if fee_wide > u64::MAX as u128 {
        return Err(Abort::Check(Error::OverflowError));
    }
    let fee: u64 = fee_wide as u64;
    if fee == 0 {
        return pay_creators_from(
            creators,
            i + 1,
            royalty,
            is_native,
            from,
            from_token,
            mint_acct,
            accounts,
            cursor,
            total,
        );
    }
    if cursor >= accounts.len() {
        return Err(Abort::MissingAccount);
    }
    if !key_eq(&accounts[cursor].key, &c.address) {
        return Err(Abort::Check(Error::PublicKeyMismatch));
    }
    let new_total: u64 = match total.checked_add(fee) {
        Some(t) => t,
        None => {
            return Err(Abort::Check(Error::OverflowError));
        },
    };
    if is_native {
        let step = PayStep::Sol { from: *from, to: c.address, amount: fee };
        match pay_creators_from(
            creators,
            i + 1,
            royalty,
            is_native,
            from,
            from_token,
            mint_acct,
            accounts,
            cursor + 1,
            new_total,
        ) {
            Ok((rest, t, cur)) => {
                let mut steps: Vec<PayStep> = Vec::new();
                steps.push(step);
                let mut rest = rest;
                steps.append(&mut rest);
                Ok((steps, t, cur))
            },
            Err(e) => Err(e),
        }
    } else {
        let m = match mint_acct {
            Some(m) => m,
            None => {
                return Err(Abort::MissingAccount);
            },
        };
        if let Err(e) = assert_is_mint(m) {
            return Err(Abort::Check(e));
        }
        if cursor + 1 >= accounts.len() {
            return Err(Abort::MissingAccount);
        }
        let ata = &accounts[cursor + 1];
        let create = ata.data_is_empty();
        if !create {
            if let Err(e) = assert_is_ata(ata, &c.address, &m.key) {
                return Err(Abort::Check(e));
            }
        }
        let step = PayStep::Spl {
            authority: *from,
            to_wallet: c.address,
            from_token_account: *from_token,
            to_token_account: ata.key,
            create_dest: create,
            amount: fee,
        };
        match pay_creators_from(
            creators,
            i + 1,
            royalty,
            is_native,
            from,
            from_token,
            mint_acct,
            accounts,
            cursor + 2,
            new_total,
        ) {
            Ok((rest, t, cur)) => {
                let mut steps: Vec<PayStep> = Vec::new();
                steps.push(step);
                let mut rest = rest;
                steps.append(&mut rest);
                Ok((steps, t, cur))
            },
            Err(e) => Err(e),
        }
    }
}

/// What planning the creator payouts for a sale decides. A zero royalty
/// rate, an absent creator list or an empty one owes nothing; otherwise the
/// metadata account must stand at its derived address, the exact royalty
/// must fit the currency's base units, and the per-creator plan follows
/// [`creators_spec`] — for a token currency after consuming the currency
/// mint account and the buyer's currency account from the trailing list.
pub open spec fn pay_creator_fees_spec(
    currency_mint: Key,
    metadata_acct_key: Key,
    metadata: MetadataInfo,
    mint: Key,
    accounts: Seq<AccountView>,
    from: Key,
    buy_price: u64,
) -> Result<(Seq<PayStep>, u64, int), Abort> {
    if metadata.seller_fee_basis_points == 0 {
        Ok((Seq::empty(), 0, 0))
    } else {
        match metadata.creators {
            Option::None => Ok((Seq::empty(), 0, 0)),
            Option::Some(creators) => {
                if is_metadata_account_spec(metadata_acct_key@, mint@) is Err {
                    Err(is_metadata_account_spec(metadata_acct_key@, mint@)->Err_0)
                } else if creators@.len() == 0 {
                    Ok((Seq::empty(), 0, 0))
                } else if royalty_amount(metadata.seller_fee_basis_points, buy_price)
                    > u64::MAX {
                    Err(Abort::Check(Error::OverflowError))
                } else {
                    let royalty = royalty_amount(metadata.seller_fee_basis_points, buy_price)
                        as u64;
                    let is_native = currency_mint@ == crate::ids::native_mint_seq();
                    if is_native {
                        creators_spec(
                            creators@,
                            0,
                            royalty,
                            true,
                            from,
                            from,
                            Option::None,
                            accounts,
                            0,
                            0,
                        )
                    } else if accounts.len() < 2 {
                        Err(Abort::MissingAccount)
                    } else {
                        creators_spec(
                            creators@,
                            0,
                            royalty,
                            false,
                            from,
                            accounts[1].key,
                            Option::Some(accounts[0]),
                            accounts,
                            2,
                            0,
                        )
                    }
                }
            },
        }
    }
}

/// Plans the creator royalty payouts of a sale and returns the steps, the
/// total owed to creators, and how many trailing accounts were consumed.
/// The amounts are exact: creator `j` is owed
/// `floor(floor(price * bps / 10000) * share_j / 100)`, and the total is
/// their sum.
pub fn pay_creator_fees(
    currency_mint: &Key,
    metadata_acct: &AccountView,
    metadata: &MetadataInfo,
    mint: &Key,
    accounts: &Vec<AccountView>,
    from: &Key,
    buy_price: u64,
) -> (r: Result<(Vec<PayStep>, u64, usize), Abort>)
    ensures
        match r {
            Ok(p) => pay_creator_fees_spec(
                *currency_mint,
                metadata_acct.key,
                *metadata,
                *mint,
                accounts@,
                *from,
                buy_price,
            ) == Ok::<(Seq<PayStep>, u64, int), Abort>((p.0@, p.1, p.2 as int)),
            Err(e) => pay_creator_fees_spec(
                *currency_mint,
                metadata_acct.key,
                *metadata,
                *mint,
                accounts@,
                *from,
                buy_price,
            ) == Err::<(Seq<PayStep>, u64, int), Abort>(e),
        },
{
    if metadata.seller_fee_basis_points == 0 {
        return Ok((Vec::new(), 0, 0));
    }
    let creators = match &metadata.creators {
        Some(cs) => cs,
        None => {
            return Ok((Vec::new(), 0, 0));
        },
    };
    assert_is_metadata_account(&metadata_acct.key, mint)?;
    if creators.len() == 0 {
        return Ok((Vec::new(), 0, 0));
    }
    proof {
        assert(metadata.seller_fee_basis_points as int * buy_price as int <= u16::MAX as int
            * u64::MAX as int) by (nonlinear_arith)
            requires
                metadata.seller_fee_basis_points <= u16::MAX,
                buy_price <= u64::MAX,
        ;
    }
    let wide: u128 = (metadata.seller_fee_basis_points as u128) * (buy_price as u128);
    let royalty_wide: u128 = wide / 10000;
    if royalty_wide > u64::MAX as u128 {
        return Err(Abort::Check(Error::OverflowError));
    }
    let royalty: u64 = royalty_wide as u64;
    if is_native_mint(currency_mint) {
        pay_creators_from(creators, 0, royalty, true, from, from, None, accounts, 0, 0)
    } else {
        if accounts.len() < 2 {
            return Err(Abort::MissingAccount);
        }
        let from_token = accounts[1].key;
        pay_creators_from(
            creators,
            0,
            royalty,
            false,
            from,
            &from_token,
            Some(&accounts[0]),
            accounts,
            2,
            0,
        )
    }
}

/// A native transfer, or nothing at all for a zero amount: zero-amount
/// native transfers are skipped entirely rather than issued as no-ops.
pub fn transfer_sol(from: &Key, to: &Key, amount: u64) -> (r: Option<PayStep>)
    ensures
        r == if amount == 0 {
            Option::<PayStep>::None
        } else {
            Option::Some(PayStep::Sol { from: *from, to: *to, amount })
        },
{
    if amount == 0 {
        None
    } else {
        Some(PayStep::Sol { from: *from, to: *to, amount })
    }
}

/// What planning one token transfer decides: a zero amount is skipped with
/// no checks at all; otherwise the currency mint account must be a valid
/// mint, and the destination account is either absent (to be created) or a
/// valid associated account of the destination wallet for that mint.
pub open spec fn transfer_spl_spec(
    to: Key,
    from_token: Key,
    to_token: AccountView,
    mint_acct: AccountView,
    authority: Key,
    amount: u64,
) -> Result<Option<PayStep>, Error> {
    if amount == 0 {
        Ok(Option::None)
    } else if assert_is_mint_spec(mint_acct.owner@, mint_acct.data@) is Err {
        Err(assert_is_mint_spec(mint_acct.owner@, mint_acct.data@)->Err_0)
    } else {
        let create = to_token.data@.len() == 0;
        if !create && assert_is_ata_spec(
            to_token.owner@,
            to_token.data@,
            to_token.key@,
            to@,
            mint_acct.key@,
        ) is Err {
            Err(
                assert_is_ata_spec(
                    to_token.owner@,
                    to_token.data@,
                    to_token.key@,
                    to@,
                    mint_acct.key@,
                )->Err_0,
            )
        } else {
            Ok(
                Option::Some(
                    PayStep::Spl {
                        authority,
                        to_wallet: to,
                        from_token_account: from_token,
                        to_token_account: to_token.key,
                        create_dest: create,
                        amount,
                    },
                ),
            )
        }
    }
}

/// Plans one token transfer of `amount` to wallet `to`, validating the
/// destination before any transfer is issued.
pub fn transfer_spl(
    to: &Key,
    from_token: &Key,
    to_token: &AccountView,
    mint_acct: &AccountView,
    authority: &Key,
    amount: u64,
) -> (r: Result<Option<PayStep>, Error>)
    ensures
        r == transfer_spl_spec(*to, *from_token, *to_token, *mint_acct, *authority, amount),
{
    if amount == 0 {
        return Ok(None);
    }
    if let Err(e) = assert_is_mint(mint_acct) {
        return Err(e);
    }
    let create = to_token.data_is_empty();
    if !create {
        if let Err(e) = assert_is_ata(to_token, to, &mint_acct.key) {
            return Err(e);
        }
    }
    Ok(
        Some(
            PayStep::Spl {
                authority: *authority,
                to_wallet: *to,
                from_token_account: *from_token,
                to_token_account: to_token.key,
                create_dest: create,
                amount,
            },
        ),
    )
}

/// The complete, validated payment plan of one sale.
pub struct PaymentPlan {
    /// The transfers to perform, in order: creator royalties, then the
    /// marketplace fee, then the seller remainder; zero-amount legs are
    /// omitted.
    pub steps: Vec<PayStep>,
    /// The total owed to creators.
    pub creator_total: u64,
    /// The marketplace fee.
    pub marketplace_fee: u64,
    /// The seller's remainder: exactly the price minus the fee and the
    /// creator total.
    pub seller_amount: u64,
}

/// What planning the full payment of a sale decides: the creator payouts
/// first; then the seller remainder must not underflow — a fee schedule or
/// creator set owing more than the price is an overflow failure, never
/// clamped; for the native currency the fee and seller legs use no trailing
/// accounts, while a token currency takes, in fixed order, the currency
/// mint (checked against the listing's currency), the buyer's currency
/// account, the marketplace authority, its currency account, the fee
/// currency account, and the seller's currency account (shared with the
/// marketplace authority's when the seller is that authority).
pub open spec fn transfer_payment_spec(
    buyer: Key,
    seller: Key,
    fee_account: Key,
    mint: Key,
    metadata_acct_key: Key,
    metadata: MetadataInfo,
    currency_mint_key: Key,
    accounts: Seq<AccountView>,
    price: u64,
    marketplace_fees: u64,
) -> Result<(Seq<PayStep>, u64, u64), Abort> {
    match pay_creator_fees_spec(
        currency_mint_key,
        metadata_acct_key,
        metadata,
        mint,
        accounts,
        buyer,
        price,
    ) {
        Err(e) => Err(e),
        Ok((creator_steps, creator_total, _cursor)) => {
            if price - marketplace_fees - creator_total < 0 {
                Err(Abort::Check(Error::OverflowError))
            } else {
                let seller_amount = (price - marketplace_fees - creator_total) as u64;
                if currency_mint_key@ == crate::ids::native_mint_seq() {
                    let fee_steps = if marketplace_fees == 0 {
                        Seq::<PayStep>::empty()
                    } else {
                        seq![
                            PayStep::Sol { from: buyer, to: fee_account, amount: marketplace_fees },
                        ]
                    };
                    let seller_steps = if seller_amount == 0 {
                        Seq::<PayStep>::empty()
                    } else {
                        seq![PayStep::Sol { from: buyer, to: seller, amount: seller_amount }]
                    };
                    Ok((creator_steps + fee_steps + seller_steps, creator_total, seller_amount))
                } else {
                    if accounts.len() < 5 {
                        Err(Abort::MissingAccount)
                    } else if accounts[0].key@ != currency_mint_key@ {
                        Err(Abort::Check(Error::PublicKeyMismatch))
                    } else {
                        let currency_mint_acct = accounts[0];
                        let buyer_token = accounts[1];
                        let marketplace_authority = accounts[2];
                        let marketplace_token = accounts[3];
                        let fee_token = accounts[4];
                        if seller@ != marketplace_authority.key@ && accounts.len() < 6 {
                            Err(Abort::MissingAccount)
                        } else {
                            let seller_token = if seller@ == marketplace_authority.key@ {
                                marketplace_token
                            } else {
                                accounts[5]
                            };
                            match transfer_spl_spec(
                                fee_account,
                                buyer_token.key,
                                fee_token,
                                currency_mint_acct,
                                buyer,
                                marketplace_fees,
                            ) {
                                Err(e) => Err(Abort::Check(e)),
                                Ok(fee_step) => match transfer_spl_spec(
                                    seller,
                                    buyer_token.key,
                                    seller_token,
                                    currency_mint_acct,
                                    buyer,
                                    seller_amount,
                                ) {
                                    Err(e) => Err(Abort::Check(e)),
                                    Ok(seller_step) => {
                                        let fee_steps = match fee_step {
                                            Option::Some(s) => seq![s],
                                            Option::None => Seq::<PayStep>::empty(),
                                        };
                                        let seller_steps = match seller_step {
                                            Option::Some(s) => seq![s],
                                            Option::None => Seq::<PayStep>::empty(),
                                        };
                                        Ok(
                                            (
                                                creator_steps + fee_steps + seller_steps,
                                                creator_total,
                                                seller_amount,
                                            ),
                                        )
                                    },
                                },
                            }
                        }
                    }
                }
            }
        },
    }
}

/// Plans the entire payment of a sale: creator royalties, marketplace fee,
/// seller remainder. On success the three amounts sum to the price exactly
/// — no leftover and no overpay; when the fee and royalties together exceed
/// the price, the plan fails with an overflow error rather than adjusting
/// anything.
pub fn transfer_payment(
    buyer: &Key,
    seller: &Key,
    fee_account: &Key,
    mint: &Key,
    metadata_acct: &AccountView,
    metadata: &MetadataInfo,
    currency_mint_key: &Key,
    accounts: &Vec<AccountView>,
    price: u64,
    marketplace_fees: u64,
) -> (r: Result<PaymentPlan, Abort>)
    ensures
        match r {
            Ok(plan) => transfer_payment_spec(
                *buyer,
                *seller,
                *fee_account,
                *mint,
                metadata_acct.key,
                *metadata,
                *currency_mint_key,
                accounts@,
                price,
                marketplace_fees,
            ) == Ok::<(Seq<PayStep>, u64, u64), Abort>(
                (plan.steps@, plan.creator_total, plan.seller_amount),
            ) && plan.marketplace_fee == marketplace_fees && plan.marketplace_fee
                + plan.creator_total + plan.seller_amount == price,
            Err(e) => transfer_payment_spec(
                *buyer,
                *seller,
                *fee_account,
                *mint,
                metadata_acct.key,
                *metadata,
                *currency_mint_key,
                accounts@,
                price,
                marketplace_fees,
            ) == Err::<(Seq<PayStep>, u64, u64), Abort>(e),
        },
{
    let (creator_steps, creator_total, _cursor) = pay_creator_fees(
        currency_mint_key,
        metadata_acct,
        metadata,
        mint,
        accounts,
        buyer,
        price,
    )?;
    let after_fees = match price.checked_sub(marketplace_fees) {
        Some(v) => v,
        None => {
            return Err(Abort::Check(Error::OverflowError));
        },
    };
    let seller_amount = match after_fees.checked_sub(creator_total) {
        Some(v) => v,
        None => {
            return Err(Abort::Check(Error::OverflowError));
        },
    };
    let mut steps = creator_steps;
    if is_native_mint(currency_mint_key) {
        if marketplace_fees > 0 {
            steps.push(PayStep::Sol { from: *buyer, to: *fee_account, amount: marketplace_fees });
        }
        if seller_amount > 0 {
            steps.push(PayStep::Sol { from: *buyer, to: *seller, amount: seller_amount });
        }
        proof {
            assert(steps@ =~= creator_steps@ + (if marketplace_fees == 0 {
                Seq::<PayStep>::empty()
            } else {
                seq![
                    PayStep::Sol { from: *buyer, to: *fee_account, amount: marketplace_fees },
                ]
            }) + (if seller_amount == 0 {
                Seq::<PayStep>::empty()
            } else {
                seq![PayStep::Sol { from: *buyer, to: *seller, amount: seller_amount }]
            }));
        }
        Ok(
            PaymentPlan {
                steps,
                creator_total,
                marketplace_fee: marketplace_fees,
                seller_amount,
            },
        )
    } else {
        if accounts.len() < 5 {
            return Err(Abort::MissingAccount);
        }
        if !key_eq(&accounts[0].key, currency_mint_key) {
            return Err(Abort::Check(Error::PublicKeyMismatch));
        }
        let buyer_token_key = accounts[1].key;
        let marketplace_authority_key = accounts[2].key;
        let seller_is_authority = key_eq(seller, &marketplace_authority_key);
        if !seller_is_authority && accounts.len() < 6 {
            return Err(Abort::MissingAccount);
        }
        let fee_step = match transfer_spl(
            fee_account,
            &buyer_token_key,
            &accounts[4],
            &accounts[0],
            buyer,
            marketplace_fees,
        ) {
            Ok(s) => s,
            Err(e) => {
                return Err(Abort::Check(e));
            },
        };
        let seller_token_index: usize = if seller_is_authority {
            3
        } else {
            5
        };
        let seller_step = match transfer_spl(
            seller,
            &buyer_token_key,
            &accounts[seller_token_index],
            &accounts[0],
            buyer,
            seller_amount,
        ) {
            Ok(s) => s,
            Err(e) => {
                return Err(Abort::Check(e));
            },
        };
        let ghost fee_steps_spec = match fee_step {
            Option::Some(s) => seq![s],
            Option::None => Seq::<PayStep>::empty(),
        };
        let ghost seller_steps_spec = match seller_step {
            Option::Some(s) => seq![s],
            Option::None => Seq::<PayStep>::empty(),
        };
        if let Some(s) = fee_step {
            steps.push(s);
        }
        if let Some(s) = seller_step {
            steps.push(s);
        }
        proof {
            assert(steps@ =~= creator_steps@ + fee_steps_spec + seller_steps_spec);
        }
        Ok(
            PaymentPlan {
                steps,
                creator_total,
                marketplace_fee: marketplace_fees,
                seller_amount,
            },
        )
    }
}

/// For every sale the engine accepts, the seller remainder, the marketplace
/// fee and the creator total sum to the price exactly: no leftover and no
/// overpay.
pub proof fn lemma_payment_splits_exactly(
    buyer: Key,
    seller: Key,
    fee_account: Key,
    mint: Key,
    metadata_acct_key: Key,
    metadata: MetadataInfo,
    currency_mint_key: Key,
    accounts: Seq<AccountView>,
    price: u64,
    marketplace_fees: u64,
)
    ensures
        transfer_payment_spec(
            buyer,
            seller,
            fee_account,
            mint,
            metadata_acct_key,
            metadata,
            currency_mint_key,
            accounts,
            price,
            marketplace_fees,
        ) matches Ok(p) ==> marketplace_fees + p.1 + p.2 == price,
{
}

} // verus!
