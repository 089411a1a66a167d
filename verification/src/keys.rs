//! 32-byte account addresses ("public keys") and item identifiers, held as
//! plain byte arrays so that every comparison the program makes is explicit
//! and verified.

use vstd::prelude::*;

verus! {

/// A 32-byte on-chain address: a wallet, a mint, a program id, or a derived
/// (PDA) address. Also used for the 32-byte synthetic ids of virtual items.
#[derive(Clone, Copy, Debug)]
pub struct Key {
    pub bytes: [u8; 32],
}

impl View for Key {
    type V = Seq<u8>;

    open spec fn view(&self) -> Seq<u8> {
        self.bytes@
    }
}

impl Key {
    pub fn from_bytes(bytes: [u8; 32]) -> (k: Key)
        ensures
            k == (Key { bytes }),
    {
        Key { bytes }
    }

    pub fn to_bytes(&self) -> (b: [u8; 32])
        ensures
            b == self.bytes,
    {
        self.bytes
    }

    /// The address as seed material for address derivation.
    pub fn to_vec(&self) -> (v: Vec<u8>)
        ensures
            v@ == self@,
    {
        let mut v: Vec<u8> = Vec::new();
        let mut i: usize = 0;
        while i < 32
            invariant
                i <= 32,
                v@ == self@.subrange(0, i as int),
            decreases 32 - i,
        {
            v.push(self.bytes[i]);
            proof {
                assert(v@ =~= self@.subrange(0, i + 1 as int));
            }
            i = i + 1;
        }
        proof {
            assert(v@ =~= self@);
        }
        v
    }
}

/// Byte-for-byte equality of two addresses.
pub fn key_eq(a: &Key, b: &Key) -> (r: bool)
    ensures
        r == (a@ == b@),
{
    let mut i: usize = 0;
    while i < 32
        invariant
            i <= 32,
            forall|j: int| 0 <= j < i ==> a@[j] == b@[j],
        decreases 32 - i,
    {
        if a.bytes[i] != b.bytes[i] {
            return false;
        }
        i = i + 1;
    }
    proof {
        assert(a@ =~= b@);
    }
    true
}

} // verus!
