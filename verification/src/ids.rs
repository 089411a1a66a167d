//! Addresses of the external programs this marketplace cooperates with, held
//! as explicit byte constants. Each value is checked against the owning
//! crate's declared id by a test, so a wrong byte here cannot survive the
//! test run.

use vstd::prelude::*;
use crate::keys::Key;

verus! {

/// The native ("wrapped SOL") currency mint of the token program.
pub open spec fn native_mint_seq() -> Seq<u8> {
    seq![
        6u8, 155, 136, 87, 254, 171, 129, 132, 251, 104, 127, 99, 70, 24, 192, 53,
        218, 196, 57, 220, 26, 235, 59, 85, 152, 160, 240, 0, 0, 0, 0, 1,
    ]
}

/// The token program that owns all mint and token accounts.
pub open spec fn token_program_seq() -> Seq<u8> {
    seq![
        6u8, 221, 246, 225, 215, 101, 161, 147, 217, 203, 225, 70, 206, 235, 121, 172,
        28, 180, 133, 237, 95, 91, 55, 145, 58, 140, 245, 133, 126, 255, 0, 169,
    ]
}

/// The metadata program that owns metadata and edition accounts.
pub open spec fn metadata_program_seq() -> Seq<u8> {
    seq![
        11u8, 112, 101, 177, 227, 209, 124, 69, 56, 157, 82, 127, 107, 4, 195, 205,
        88, 184, 108, 115, 26, 160, 253, 181, 73, 182, 209, 188, 3, 248, 41, 70,
    ]
}

pub fn native_mint() -> (k: Key)
    ensures
        k@ == native_mint_seq(),
{
    let bytes: [u8; 32] = [
        6u8, 155, 136, 87, 254, 171, 129, 132, 251, 104, 127, 99, 70, 24, 192, 53,
        218, 196, 57, 220, 26, 235, 59, 85, 152, 160, 240, 0, 0, 0, 0, 1,
    ];
    proof {
        assert(bytes@ =~= native_mint_seq());
    }
    Key::from_bytes(bytes)
}

pub fn token_program_id() -> (k: Key)
    ensures
        k@ == token_program_seq(),
{
    let bytes: [u8; 32] = [
        6u8, 221, 246, 225, 215, 101, 161, 147, 217, 203, 225, 70, 206, 235, 121, 172,
        28, 180, 133, 237, 95, 91, 55, 145, 58, 140, 245, 133, 126, 255, 0, 169,
    ];
    proof {
        assert(bytes@ =~= token_program_seq());
    }
    Key::from_bytes(bytes)
}

pub fn metadata_program_id() -> (k: Key)
    ensures
        k@ == metadata_program_seq(),
{
    let bytes: [u8; 32] = [
        11u8, 112, 101, 177, 227, 209, 124, 69, 56, 157, 82, 127, 107, 4, 195, 205,
        88, 184, 108, 115, 26, 160, 253, 181, 73, 182, 209, 188, 3, 248, 41, 70,
    ];
    proof {
        assert(bytes@ =~= metadata_program_seq());
    }
    Key::from_bytes(bytes)
}

} // verus!
