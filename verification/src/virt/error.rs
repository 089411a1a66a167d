//! Typed error codes of the exact-price revision.

use vstd::prelude::*;

verus! {

#[derive(Clone, Copy, Debug, PartialEq, Eq, Structural)]
pub enum Error {
    /// The derivation bump for a freshly created account was not supplied.
    BumpSeedNotInHashMap,
    /// A listing's expiry is not strictly in the future.
    InvalidExpiry,
    /// A virtual-item path was taken for a listing that is not virtual.
    NotVirtual,
    /// The listing's expiry has passed.
    ListingExpired,
    /// The submitted price does not equal the listing price exactly.
    PriceMismatch,
    /// The signer is not the listing's authority.
    InvalidListingAuthority,
    /// Arithmetic overflow or underflow in a fee or split computation.
    OverflowError,
    /// A listing price must be strictly positive.
    InvalidPrice,
    /// The supplied fee account is not the schedule's beneficiary.
    InvalidFeeAccount,
}

} // verus!
