//! Program-derived addresses. Every record of this program lives at an
//! address derived from a constant prefix plus identifying key material; an
//! account claiming a role must re-derive to the same address, and a mismatch
//! is a hard authorization failure.

use vstd::prelude::*;
use vstd::slice::slice_to_vec;
use vstd::string::StringSliceAdditionalSpecFns;
use crate::keys::Key;
use crate::error::Error;

verus! {

/// The derived (address, bump) for a seed list under a program id, `None` in
/// the statistically improbable case that no bump yields a valid address.
/// The derivation is a collision-resistant hash supplied by the host runtime;
/// it depends on the seeds and the program id alone.
pub uninterp spec fn pda_of(seeds: Seq<Seq<u8>>, program_id: Seq<u8>) -> Option<(Seq<u8>, u8)>;

/// Relies on solana_program::pubkey::Pubkey::try_find_program_address: the
/// result is a deterministic function of the seeds and the program id, and
/// `None` when the seed list is over the runtime's count or length caps or
/// no bump seed yields a valid derived address.
#[verifier::external_body]
fn try_find_pda(seeds: &Vec<Vec<u8>>, program_id: &Key) -> (r: Option<(Key, u8)>)
    ensures
        match r {
            Some(p) => pda_of(seeds.deep_view(), program_id@) == Some((p.0@, p.1)),
            None => pda_of(seeds.deep_view(), program_id@) is None,
        },
{
    let seed_slices: Vec<&[u8]> = seeds.iter().map(|s| s.as_slice()).collect();
    let pid = solana_program::pubkey::Pubkey::new_from_array(program_id.bytes);
    solana_program::pubkey::Pubkey::try_find_program_address(&seed_slices, &pid)
        .map(|(k, b)| (Key { bytes: k.to_bytes() }, b))
}

/// Derives the canonical (address, bump) for the seed list, failing closed
/// with the missing-bump code if no bump yields a valid address.
pub fn find_address(seeds: &Vec<Vec<u8>>, program_id: &Key) -> (r: Result<(Key, u8), Error>)
    ensures
        match r {
            Ok(p) => pda_of(seeds.deep_view(), program_id@) == Some((p.0@, p.1)),
            Err(e) => e == Error::BumpSeedNotInHashMap && pda_of(
                seeds.deep_view(),
                program_id@,
            ) is None,
        },
{
    match try_find_pda(seeds, program_id) {
        Some(p) => Ok(p),
        None => Err(Error::BumpSeedNotInHashMap),
    }
}

/// What holding a record's claimed address and stored bump against the
/// canonical derivation of its seed list decides: a mismatch is a hard
/// authorization failure.
pub open spec fn canonical_check_spec(
    claimed: Seq<u8>,
    bump: u8,
    seeds: Seq<Seq<u8>>,
    program_id: Seq<u8>,
) -> Result<(), crate::abort::Abort> {
    match pda_of(seeds, program_id) {
        Option::None => Err(crate::abort::Abort::Program(Error::BumpSeedNotInHashMap)),
        Option::Some(p) => if p != (claimed, bump) {
            Err(crate::abort::Abort::Check(crate::util::error::Error::PublicKeyMismatch))
        } else {
            Ok(())
        },
    }
}

/// Requires a record's claimed address and stored bump to be the canonical
/// derivation of its seed list.
pub fn check_canonical(claimed: &Key, bump: u8, seeds: &Vec<Vec<u8>>, program_id: &Key) -> (r:
    Result<(), crate::abort::Abort>)
    ensures
        r == canonical_check_spec(claimed@, bump, seeds.deep_view(), program_id@),
{
    match find_address(seeds, program_id) {
        Ok((addr, canonical_bump)) => {
            if crate::keys::key_eq(claimed, &addr) && bump == canonical_bump {
                Ok(())
            } else {
                Err(crate::abort::Abort::Check(crate::util::error::Error::PublicKeyMismatch))
            }
        },
        Err(e) => Err(crate::abort::Abort::Program(e)),
    }
}

/// What deriving the address for a record about to be created decides: the
/// claimed fresh address must be the canonical derivation, whose bump is
/// returned for storage.
pub open spec fn creation_spec(claimed: Seq<u8>, seeds: Seq<Seq<u8>>, program_id: Seq<u8>) -> Result<
    u8,
    crate::abort::Abort,
> {
    match pda_of(seeds, program_id) {
        Option::None => Err(crate::abort::Abort::Program(Error::BumpSeedNotInHashMap)),
        Option::Some(p) => if p.0 != claimed {
            Err(crate::abort::Abort::Check(crate::util::error::Error::PublicKeyMismatch))
        } else {
            Ok(p.1)
        },
    }
}

/// Derives the canonical bump for a record about to be created at `claimed`.
pub fn check_creation(claimed: &Key, seeds: &Vec<Vec<u8>>, program_id: &Key) -> (r: Result<
    u8,
    crate::abort::Abort,
>)
    ensures
        r == creation_spec(claimed@, seeds.deep_view(), program_id@),
{
    match find_address(seeds, program_id) {
        Ok((addr, bump)) => {
            if crate::keys::key_eq(claimed, &addr) {
                Ok(bump)
            } else {
                Err(crate::abort::Abort::Check(crate::util::error::Error::PublicKeyMismatch))
            }
        },
        Err(e) => Err(crate::abort::Abort::Program(e)),
    }
}

/// Seed prefixes of the record kinds, as their byte strings.
pub open spec fn marketplace_prefix() -> Seq<u8> {
    "marketplace_config".spec_bytes()
}

pub open spec fn collection_prefix() -> Seq<u8> {
    "collection_config".spec_bytes()
}

pub open spec fn listing_prefix() -> Seq<u8> {
    "listing".spec_bytes()
}

pub open spec fn custody_prefix() -> Seq<u8> {
    "custody_account".spec_bytes()
}

pub open spec fn mint_record_prefix() -> Seq<u8> {
    "mint_record".spec_bytes()
}

/// Prefix of the external metadata program's metadata and edition accounts.
pub open spec fn metadata_prefix() -> Seq<u8> {
    "metadata".spec_bytes()
}

pub open spec fn edition_suffix() -> Seq<u8> {
    "edition".spec_bytes()
}

pub open spec fn marketplace_seeds_spec(authority: Seq<u8>) -> Seq<Seq<u8>> {
    seq![marketplace_prefix(), authority]
}

pub open spec fn collection_seeds_spec(collection_mint: Seq<u8>) -> Seq<Seq<u8>> {
    seq![collection_prefix(), collection_mint]
}

pub open spec fn listing_seeds_spec(id: Seq<u8>) -> Seq<Seq<u8>> {
    seq![listing_prefix(), id]
}

pub open spec fn custody_seeds_spec(mint: Seq<u8>) -> Seq<Seq<u8>> {
    seq![custody_prefix(), mint]
}

pub open spec fn mint_record_seeds_spec(collection_config: Seq<u8>, item_id: Seq<u8>) -> Seq<
    Seq<u8>,
> {
    seq![mint_record_prefix(), collection_config, item_id]
}

pub open spec fn metadata_seeds_spec(mint: Seq<u8>) -> Seq<Seq<u8>> {
    seq![metadata_prefix(), crate::ids::metadata_program_seq(), mint]
}

pub open spec fn edition_seeds_spec(mint: Seq<u8>) -> Seq<Seq<u8>> {
    seq![metadata_prefix(), crate::ids::metadata_program_seq(), mint, edition_suffix()]
}

pub fn marketplace_seeds(authority: &Key) -> (s: Vec<Vec<u8>>)
    ensures
        s.deep_view() == marketplace_seeds_spec(authority@),
{
    let mut s: Vec<Vec<u8>> = Vec::new();
    s.push(slice_to_vec("marketplace_config".as_bytes()));
    s.push(authority.to_vec());
    proof {
        assert(s.deep_view() =~~= marketplace_seeds_spec(authority@));
    }
    s
}

pub fn collection_seeds(collection_mint: &Key) -> (s: Vec<Vec<u8>>)
    ensures
        s.deep_view() == collection_seeds_spec(collection_mint@),
{
    let mut s: Vec<Vec<u8>> = Vec::new();
    s.push(slice_to_vec("collection_config".as_bytes()));
    s.push(collection_mint.to_vec());
    proof {
        assert(s.deep_view() =~~= collection_seeds_spec(collection_mint@));
    }
    s
}

pub fn listing_seeds(id: &[u8; 32]) -> (s: Vec<Vec<u8>>)
    ensures
        s.deep_view() == listing_seeds_spec(id@),
{
    let mut s: Vec<Vec<u8>> = Vec::new();
    s.push(slice_to_vec("listing".as_bytes()));
    s.push(slice_to_vec(id.as_slice()));
    proof {
        assert(s.deep_view() =~~= listing_seeds_spec(id@));
    }
    s
}

pub fn custody_seeds(mint: &Key) -> (s: Vec<Vec<u8>>)
    ensures
        s.deep_view() == custody_seeds_spec(mint@),
{
    let mut s: Vec<Vec<u8>> = Vec::new();
    s.push(slice_to_vec("custody_account".as_bytes()));
    s.push(mint.to_vec());
    proof {
        assert(s.deep_view() =~~= custody_seeds_spec(mint@));
    }
    s
}

pub fn mint_record_seeds(collection_config: &Key, item_id: &[u8; 32]) -> (s: Vec<Vec<u8>>)
    ensures
        s.deep_view() == mint_record_seeds_spec(collection_config@, item_id@),
{
    let mut s: Vec<Vec<u8>> = Vec::new();
    s.push(slice_to_vec("mint_record".as_bytes()));
    s.push(collection_config.to_vec());
    s.push(slice_to_vec(item_id.as_slice()));
    proof {
        assert(s.deep_view() =~~= mint_record_seeds_spec(collection_config@, item_id@));
    }
    s
}

pub fn metadata_seeds(mint: &Key) -> (s: Vec<Vec<u8>>)
    ensures
        s.deep_view() == metadata_seeds_spec(mint@),
{
    let mut s: Vec<Vec<u8>> = Vec::new();
    s.push(slice_to_vec("metadata".as_bytes()));
    s.push(crate::ids::metadata_program_id().to_vec());
    s.push(mint.to_vec());
    proof {
        assert(s.deep_view() =~~= metadata_seeds_spec(mint@));
    }
    s
}

pub fn edition_seeds(mint: &Key) -> (s: Vec<Vec<u8>>)
    ensures
        s.deep_view() == edition_seeds_spec(mint@),
{
    let mut s: Vec<Vec<u8>> = Vec::new();
    s.push(slice_to_vec("metadata".as_bytes()));
    s.push(crate::ids::metadata_program_id().to_vec());
    s.push(mint.to_vec());
    s.push(slice_to_vec("edition".as_bytes()));
    proof {
        assert(s.deep_view() =~~= edition_seeds_spec(mint@));
    }
    s
}

} // verus!
