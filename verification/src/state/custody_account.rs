//! The custody record: a user's voluntary delegation of freeze authority
//! over an NFT to this program's derived authority, one record per mint.

use vstd::prelude::*;
use crate::keys::{Key, key_eq};
use crate::abort::Abort;
use crate::error::Error;
use crate::pda::{custody_prefix, custody_seeds, custody_seeds_spec, pda_of};

verus! {

#[derive(Clone, Copy, Debug)]
pub struct CustodyAccount {
    /// The stored derivation bump of this record's own address.
    pub bump: u8,
    pub version: u8,
    /// The marketplace authority's wallet.
    pub marketplace_authority: Key,
    /// The owner's wallet; the only key besides the marketplace authority
    /// that may act on the custody.
    pub authority: Key,
    /// The custodied mint.
    pub mint: Key,
    /// True while a listing for the custodied mint exists.
    pub is_listed: bool,
}

/// The seed list a custody record presents when signing: its derivation
/// seeds plus its stored bump.
pub open spec fn custody_auth_seeds_spec(mint: Seq<u8>, bump: u8) -> Seq<Seq<u8>> {
    seq![custody_prefix(), mint, seq![bump]]
}

/// What checking a claimed custody address against the mint's derived
/// custody address decides.
pub open spec fn custody_key_check_spec(
    custody_account: Seq<u8>,
    mint: Seq<u8>,
    program_id: Seq<u8>,
) -> Result<(), Abort> {
    match pda_of(custody_seeds_spec(mint), program_id) {
        Option::None => Err(Abort::Program(Error::BumpSeedNotInHashMap)),
        Option::Some(p) => if p.0 != custody_account {
            Err(Abort::Check(crate::util::error::Error::PublicKeyMismatch))
        } else {
            Ok(())
        },
    }
}

impl CustodyAccount {
    pub const VERSION: u8 = 1;

    /// Account size: discriminator, bump, version, three keys, flag, and
    /// padding for future fields.
    pub const SPACE: usize = 8 + 1 + 1 + 32 + 32 + 32 + 1 + 128;

    /// Requires the claimed custody account to be exactly the derived
    /// custody address for the mint.
    pub fn assert_is_key_for_mint(custody_account: &Key, mint: &Key, program_id: &Key) -> (r:
        Result<(), Abort>)
        ensures
            r == custody_key_check_spec(custody_account@, mint@, program_id@),
    {
        let seeds = custody_seeds(mint);
        match crate::pda::find_address(&seeds, program_id) {
            Ok((expected, _bump)) => {
                if key_eq(custody_account, &expected) {
                    Ok(())
                } else {
                    Err(Abort::Check(crate::util::error::Error::PublicKeyMismatch))
                }
            },
            Err(e) => Err(Abort::Program(e)),
        }
    }

    /// The signing seed list for a custody whose record is not at hand, from
    /// its mint and stored bump.
    pub fn auth_seeds_from_args(mint: &Key, bump: u8) -> (s: Vec<Vec<u8>>)
        ensures
            s.deep_view() == custody_auth_seeds_spec(mint@, bump),
    {
        let mut s: Vec<Vec<u8>> = Vec::new();
        s.push(vstd::slice::slice_to_vec("custody_account".as_bytes()));
        s.push(mint.to_vec());
        let mut bv: Vec<u8> = Vec::new();
        bv.push(bump);
        s.push(bv);
        proof {
            assert(s.deep_view() =~~= custody_auth_seeds_spec(mint@, bump));
        }
        s
    }

    pub fn auth_seeds(&self) -> (s: Vec<Vec<u8>>)
        ensures
            s.deep_view() == custody_auth_seeds_spec(self.mint@, self.bump),
    {
        CustodyAccount::auth_seeds_from_args(&self.mint, self.bump)
    }

    /// Fills a freshly created custody record, unlisted; never fails. The
    /// authority triple is immutable afterwards.
    pub fn init(&mut self, bump: u8, marketplace_authority: Key, authority: Key, mint: Key)
        -> (r: Result<(), Error>)
        ensures
            r is Ok,
            final(self).bump == bump,
            final(self).version == 1,
            final(self).marketplace_authority == marketplace_authority,
            final(self).authority == authority,
            final(self).mint == mint,
            !final(self).is_listed,
    {
        self.bump = bump;
        self.version = CustodyAccount::VERSION;
        self.marketplace_authority = marketplace_authority;
        self.authority = authority;
        self.mint = mint;
        self.is_listed = false;
        Ok(())
    }
}

} // verus!
