//! Typed error codes of the marketplace program. Every violated precondition
//! aborts the whole instruction with one of these; there are no recoverable
//! errors.

use vstd::prelude::*;

verus! {

/// Program-level failures raised by the instruction handlers and the
/// listing / custody state machines.
#[derive(Clone, Copy, Debug, PartialEq, Eq, Structural)]
pub enum Error {
    /// The derivation bump for a freshly created account was not supplied.
    BumpSeedNotInHashMap,
    /// A listing's expiry is not strictly in the future.
    InvalidExpiry,
    /// A virtual-item path was taken for a listing that is not virtual.
    NotVirtual,
    /// The listing's expiry has passed.
    ListingExpired,
    /// The submitted price bound is below the listing price.
    MaxPriceExceeded,
    /// The signer is not the listing's seller nor an authority allowed here.
    InvalidSeller,
    /// Arithmetic overflow or underflow in a fee or split computation.
    OverflowError,
    /// The supplied fee account is not the one in the listing's fee snapshot.
    InvalidFeeAccount,
    /// An NFT path was taken for a listing that is virtual.
    IsVirtual,
    /// The supplied mint does not match the listing's item id.
    InvalidMint,
    /// A custody transition was attempted while a listing exists for the mint.
    NftIsListed,
    /// The supplied custody account is not at its derived address.
    InvalidCustodyAccount,
    /// The supplied listing account is not at its derived address.
    InvalidListingAccount,
    /// A listing price must be strictly positive.
    InvalidPrice,
    /// The supplied collection config does not match the listing or signer.
    InvalidCollectionConfig,
    /// The edition account is not empty or not at its derived address.
    InvalidEdition,
}

} // verus!
