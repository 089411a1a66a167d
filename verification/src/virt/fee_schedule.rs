//! The fee schedule of the exact-price revision: a beneficiary wallet and a
//! rate in basis points.

use vstd::prelude::*;
use crate::keys::Key;

verus! {

#[derive(Clone, Copy, Debug)]
pub struct FeeSchedule {
    /// The wallet the fee is paid to.
    pub beneficiary: Key,
    /// Fee rate in basis points.
    pub bps: u16,
}

impl FeeSchedule {
    /// Bytes reserved for this record inside its enclosing account.
    pub const SPACE: usize = 32 + 2 + 128;

    /// A schedule that collects nothing: zero rate, zero beneficiary.
    pub fn default() -> (c: FeeSchedule)
        ensures
            c.beneficiary@ == Seq::new(32, |i: int| 0u8),
            c.bps == 0,
    {
        let bytes: [u8; 32] = [0u8; 32];
        proof {
            assert(bytes@ =~= Seq::new(32, |i: int| 0u8));
        }
        FeeSchedule { beneficiary: Key::from_bytes(bytes), bps: 0 }
    }
}

} // verus!
