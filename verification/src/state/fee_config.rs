//! The marketplace's fee schedule: the account fees are sent to and the fee
//! rate in basis points. A listing snapshots this at creation so later
//! schedule changes never affect an open listing.

use vstd::prelude::*;
use crate::keys::Key;

verus! {

#[derive(Clone, Copy, Debug)]
pub struct FeeConfig {
    /// The account the marketplace fee is paid to.
    pub fee_account: Key,
    /// Fee rate in basis points (hundredths of a percent).
    pub bps: u16,
}

impl FeeConfig {
    /// Bytes reserved for this record inside its enclosing account, padding
    /// for future fields included.
    pub const SPACE: usize = 32 + 2 + 128;

    /// A schedule that collects nothing: zero rate, zero beneficiary.
    pub fn default() -> (c: FeeConfig)
        ensures
            c.fee_account@ == Seq::new(32, |i: int| 0u8),
            c.bps == 0,
    {
        let bytes: [u8; 32] = [0u8; 32];
        proof {
            assert(bytes@ =~= Seq::new(32, |i: int| 0u8));
        }
        FeeConfig { fee_account: Key::from_bytes(bytes), bps: 0 }
    }
}

} // verus!
