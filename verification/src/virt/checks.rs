//! Key checks particular to the exact-price revision.

use vstd::prelude::*;
use crate::keys::{Key, key_eq};

verus! {

/// The all-zero key that stands for "no key supplied".
pub open spec fn default_key_seq() -> Seq<u8> {
    Seq::new(32, |i: int| 0u8)
}

/// True iff the key is the all-zero default.
pub fn is_default(key: &Key) -> (r: bool)
    ensures
        r == (key@ == default_key_seq()),
{
    let zero_bytes: [u8; 32] = [0u8; 32];
    proof {
        assert(zero_bytes@ =~= default_key_seq());
    }
    let zero = Key::from_bytes(zero_bytes);
    key_eq(key, &zero)
}

} // verus!
