//! The program's view of the accounts an instruction receives: for each one,
//! its address, the program that owns it, and its raw data. The host runtime
//! loads and locks the accounts; the handlers re-check everything that
//! matters before acting on them.

use vstd::prelude::*;
use crate::keys::Key;

verus! {

/// One loaded account, reduced to what the handlers read.
#[derive(Clone, Debug)]
pub struct AccountView {
    /// The account's address.
    pub key: Key,
    /// The program that owns the account's storage.
    pub owner: Key,
    /// The account's raw data; empty iff the account does not exist.
    pub data: Vec<u8>,
}

impl AccountView {
    /// Non-existence is a valid, checkable state: an account with no data.
    pub fn data_is_empty(&self) -> (r: bool)
        ensures
            r == (self.data@.len() == 0),
    {
        self.data.len() == 0
    }
}

/// The state byte of a token account: not yet initialized, live, or frozen
/// by its mint's freeze authority.
#[derive(Clone, Copy, Debug, PartialEq, Eq, Structural)]
pub enum TokenAccountState {
    Uninitialized,
    Initialized,
    Frozen,
}

/// A token account of the external token program, as its unpacked fields.
pub struct TokenAccount {
    /// The mint this account holds balances of.
    pub mint: Key,
    /// The wallet with authority over this account.
    pub owner: Key,
    /// The balance.
    pub amount: u64,
    pub state: TokenAccountState,
}

impl TokenAccount {
    pub open spec fn is_initialized(&self) -> bool {
        self.state != TokenAccountState::Uninitialized
    }
}

/// A mint of the external token program, as its unpacked fields.
pub struct TokenMint {
    pub supply: u64,
    pub decimals: u8,
    pub is_initialized: bool,
}

/// One creator entry of an item's external metadata record.
pub struct Creator {
    /// The wallet royalties are owed to.
    pub address: Key,
    pub verified: bool,
    /// This creator's share of the royalty, in percent.
    pub share: u8,
}

/// The collection membership recorded in an item's metadata.
pub struct CollectionRef {
    /// True only once the collection authority has verified the membership.
    pub verified: bool,
    /// The collection's mint.
    pub key: Key,
}

/// An item's external metadata record, reduced to the fields the payment
/// engine and the collection checks read.
pub struct MetadataInfo {
    /// The mint the record describes.
    pub mint: Key,
    /// Royalty basis points owed to the creators on each sale.
    pub seller_fee_basis_points: u16,
    pub creators: Option<Vec<Creator>>,
    pub collection: Option<CollectionRef>,
}

} // verus!
