//! Error codes of the low-level account checks, kept apart from the
//! program-level codes as the instruction dispatcher reports them separately.

use vstd::prelude::*;

verus! {

#[derive(Clone, Copy, Debug, PartialEq, Eq, Structural)]
pub enum Error {
    /// Two addresses that had to be equal were not.
    PublicKeyMismatch,
    /// An account is owned by the wrong program.
    IncorrectOwner,
    /// An account's data is missing, malformed, or not initialized.
    UninitializedAccount,
    /// Arithmetic overflow or underflow in a fee computation.
    OverflowError,
    /// The metadata record carries no verified collection.
    CollectionNotSet,
}

} // verus!
