//! Key-equality, ownership and token-account checks: the sole defense against
//! account-substitution attacks, so each states exactly when it accepts.

use vstd::prelude::*;
use crate::keys::{Key, key_eq};
use crate::util::error::Error;
use crate::accounts::{AccountView, TokenAccount, TokenMint, MetadataInfo};
use crate::spl::{
    token_account_fields_of, mint_fields_of, ata_key_of, parsed_token_account, parsed_mint,
    unpack_token_account, unpack_mint, ata_address,
};
use crate::abort::Abort;

verus! {

/// Fails with `PublicKeyMismatch` unless the two addresses are equal.
pub fn assert_keys_equal(key1: &Key, key2: &Key) -> (r: Result<(), Error>)
    ensures
        r is Ok <==> key1@ == key2@,
        r is Err ==> r == Err::<(), Error>(Error::PublicKeyMismatch),
{
    if key_eq(key1, key2) {
        Ok(())
    } else {
        Err(Error::PublicKeyMismatch)
    }
}

/// True iff the key is the native currency mint.
pub fn is_native_mint(key: &Key) -> (r: bool)
    ensures
        r == (key@ == crate::ids::native_mint_seq()),
{
    let native = crate::ids::native_mint();
    key_eq(key, &native)
}

/// Fails with `IncorrectOwner` unless the account's storage is owned by the
/// given program.
pub fn assert_owned_by(account: &AccountView, owner: &Key) -> (r: Result<(), Error>)
    ensures
        r is Ok <==> account.owner@ == owner@,
        r is Err ==> r == Err::<(), Error>(Error::IncorrectOwner),
{
    if key_eq(&account.owner, owner) {
        Ok(())
    } else {
        Err(Error::IncorrectOwner)
    }
}

/// What reading the account's data as an initialized token account decides.
pub open spec fn assert_initialized_spec(data: Seq<u8>) -> Result<(), Error> {
    match token_account_fields_of(data) {
        Option::None => Err(Error::UninitializedAccount),
        Option::Some(f) => if f.3 == 0 {
            Err(Error::UninitializedAccount)
        } else {
            Ok(())
        },
    }
}

/// Unpacks the account's data as a token account and requires it to be
/// initialized.
pub fn assert_initialized(account: &AccountView) -> (r: Result<TokenAccount, Error>)
    ensures
        r is Ok <==> assert_initialized_spec(account.data@) is Ok,
        r matches Ok(ta) ==> parsed_token_account(account.data@, ta) && ta.is_initialized(),
        r matches Err(e) ==> Err::<(), Error>(e) == assert_initialized_spec(account.data@),
{
    match unpack_token_account(account.data.as_slice()) {
        Some(ta) => {
            if let crate::accounts::TokenAccountState::Uninitialized = ta.state {
                Err(Error::UninitializedAccount)
            } else {
                Ok(ta)
            }
        },
        None => Err(Error::UninitializedAccount),
    }
}

/// What validating an account as the associated token account of `wallet`
/// for `mint` decides: the account must be owned by the token program, hold
/// an initialized token account whose owner and mint match, and stand at the
/// canonical associated address.
pub open spec fn assert_is_ata_spec(
    owner_prog: Seq<u8>,
    data: Seq<u8>,
    key: Seq<u8>,
    wallet: Seq<u8>,
    mint: Seq<u8>,
) -> Result<(), Error> {
    if owner_prog != crate::ids::token_program_seq() {
        Err(Error::IncorrectOwner)
    } else {
        match token_account_fields_of(data) {
            Option::None => Err(Error::UninitializedAccount),
            Option::Some(f) => if f.3 == 0 {
                Err(Error::UninitializedAccount)
            } else if f.1 != wallet {
                Err(Error::PublicKeyMismatch)
            } else if f.0 != mint {
                Err(Error::PublicKeyMismatch)
            } else if ata_key_of(wallet, mint) != key {
                Err(Error::PublicKeyMismatch)
            } else {
                Ok(())
            },
        }
    }
}

/// Validates an account as the associated token account of `wallet` for
/// `mint` and returns its unpacked fields.
pub fn assert_is_ata(ata: &AccountView, wallet: &Key, mint: &Key) -> (r: Result<
    TokenAccount,
    Error,
>)
    ensures
        r is Ok <==> assert_is_ata_spec(ata.owner@, ata.data@, ata.key@, wallet@, mint@) is Ok,
        r matches Ok(ta) ==> parsed_token_account(ata.data@, ta) && ta.is_initialized()
            && ta.owner@ == wallet@ && ta.mint@ == mint@ && ata.key@ == ata_key_of(wallet@, mint@),
        r matches Err(e) ==> Err::<(), Error>(e) == assert_is_ata_spec(
            ata.owner@,
            ata.data@,
            ata.key@,
            wallet@,
            mint@,
        ),
{
    let token_program = crate::ids::token_program_id();
    assert_owned_by(ata, &token_program)?;
    let ta = assert_initialized(ata)?;
    assert_keys_equal(&ta.owner, wallet)?;
    assert_keys_equal(&ta.mint, mint)?;
    let expected = ata_address(wallet, mint);
    assert_keys_equal(&expected, &ata.key)?;
    Ok(ta)
}

/// What validating an account as an initialized mint of the token program
/// decides.
pub open spec fn assert_is_mint_spec(owner_prog: Seq<u8>, data: Seq<u8>) -> Result<(), Error> {
    if owner_prog != crate::ids::token_program_seq() {
        Err(Error::IncorrectOwner)
    } else {
        match mint_fields_of(data) {
            Option::None => Err(Error::UninitializedAccount),
            Option::Some(f) => if !f.2 {
                Err(Error::UninitializedAccount)
            } else {
                Ok(())
            },
        }
    }
}

/// Validates an account as an initialized mint of the token program and
/// returns its unpacked fields.
pub fn assert_is_mint(mint: &AccountView) -> (r: Result<TokenMint, Error>)
    ensures
        r is Ok <==> assert_is_mint_spec(mint.owner@, mint.data@) is Ok,
        r matches Ok(m) ==> parsed_mint(mint.data@, m) && m.is_initialized,
        r matches Err(e) ==> Err::<(), Error>(e) == assert_is_mint_spec(mint.owner@, mint.data@),
{
    let token_program = crate::ids::token_program_id();
    assert_owned_by(mint, &token_program)?;
    match unpack_mint(mint.data.as_slice()) {
        Some(m) => {
            if m.is_initialized {
                Ok(m)
            } else {
                Err(Error::UninitializedAccount)
            }
        },
        None => Err(Error::UninitializedAccount),
    }
}

/// What checking an item's metadata for verified membership in `collection`
/// decides: the record must be owned by the metadata program, describe the
/// item's mint, and carry a verified collection entry naming `collection`.
/// A missing or unverified collection entry is the external-state failure
/// `CollectionNotSet`.
pub open spec fn nft_in_collection_spec(
    metadata_owner: Seq<u8>,
    metadata: MetadataInfo,
    nft_mint: Seq<u8>,
    collection: Seq<u8>,
) -> Result<(), Error> {
    if metadata_owner != crate::ids::metadata_program_seq() {
        Err(Error::IncorrectOwner)
    } else if metadata.mint@ != nft_mint {
        Err(Error::PublicKeyMismatch)
    } else {
        match metadata.collection {
            Option::None => Err(Error::CollectionNotSet),
            Option::Some(c) => if !c.verified {
                Err(Error::CollectionNotSet)
            } else if c.key@ != collection {
                Err(Error::PublicKeyMismatch)
            } else {
                Ok(())
            },
        }
    }
}

/// Checks that the metadata record proves the mint is a verified member of
/// the given collection.
pub fn assert_is_nft_in_collection(
    nft_mint: &Key,
    metadata_account: &AccountView,
    metadata: &MetadataInfo,
    collection: &Key,
) -> (r: Result<(), Error>)
    ensures
        r == nft_in_collection_spec(metadata_account.owner@, *metadata, nft_mint@, collection@),
{
    let metadata_program = crate::ids::metadata_program_id();
    assert_owned_by(metadata_account, &metadata_program)?;
    assert_keys_equal(&metadata.mint, nft_mint)?;
    match &metadata.collection {
        Some(c) => {
            if !c.verified {
                Err(Error::CollectionNotSet)
            } else {
                assert_keys_equal(&c.key, collection)?;
                Ok(())
            }
        },
        None => Err(Error::CollectionNotSet),
    }
}

/// What re-deriving the metadata address for `mint` and comparing it to the
/// claimed address decides.
pub open spec fn is_metadata_account_spec(metadata_account: Seq<u8>, mint: Seq<u8>) -> Result<
    (),
    Abort,
> {
    match crate::pda::pda_of(
        crate::pda::metadata_seeds_spec(mint),
        crate::ids::metadata_program_seq(),
    ) {
        Option::None => Err(Abort::Program(crate::error::Error::BumpSeedNotInHashMap)),
        Option::Some(p) => if p.0 != metadata_account {
            Err(Abort::Check(Error::PublicKeyMismatch))
        } else {
            Ok(())
        },
    }
}

/// Requires the claimed metadata account to be exactly the derived metadata
/// address for the mint.
pub fn assert_is_metadata_account(metadata_account: &Key, mint: &Key) -> (r: Result<(), Abort>)
    ensures
        r == is_metadata_account_spec(metadata_account@, mint@),
{
    let seeds = crate::pda::metadata_seeds(mint);
    let program = crate::ids::metadata_program_id();
    match crate::pda::find_address(&seeds, &program) {
        Ok((expected, _bump)) => {
            if key_eq(metadata_account, &expected) {
                Ok(())
            } else {
                Err(Abort::Check(Error::PublicKeyMismatch))
            }
        },
        Err(e) => Err(Abort::Program(e)),
    }
}

/// What re-deriving the edition address for `mint` and comparing it to the
/// claimed address decides.
pub open spec fn is_edition_account_spec(edition_account: Seq<u8>, mint: Seq<u8>) -> Result<
    (),
    Abort,
> {
    match crate::pda::pda_of(
        crate::pda::edition_seeds_spec(mint),
        crate::ids::metadata_program_seq(),
    ) {
        Option::None => Err(Abort::Program(crate::error::Error::BumpSeedNotInHashMap)),
        Option::Some(p) => if p.0 != edition_account {
            Err(Abort::Check(Error::PublicKeyMismatch))
        } else {
            Ok(())
        },
    }
}

/// Requires the claimed edition account to be exactly the derived edition
/// address for the mint.
pub fn assert_is_edition_account(edition_account: &Key, mint: &Key) -> (r: Result<(), Abort>)
    ensures
        r == is_edition_account_spec(edition_account@, mint@),
{
    let seeds = crate::pda::edition_seeds(mint);
    let program = crate::ids::metadata_program_id();
    match crate::pda::find_address(&seeds, &program) {
        Ok((expected, _bump)) => {
            if key_eq(edition_account, &expected) {
                Ok(())
            } else {
                Err(Abort::Check(Error::PublicKeyMismatch))
            }
        },
        Err(e) => Err(Abort::Program(e)),
    }
}

} // verus!
