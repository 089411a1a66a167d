//! The marketplace configuration record: one per marketplace authority,
//! holding the fee schedule that new listings snapshot.

use vstd::prelude::*;
use crate::keys::Key;
use crate::state::fee_config::FeeConfig;
use crate::pda::marketplace_prefix;

verus! {

#[derive(Clone, Copy, Debug)]
pub struct MarketplaceConfig {
    /// The stored derivation bump of this record's own address.
    pub bump: u8,
    pub version: u8,
    /// The marketplace authority's wallet.
    pub marketplace_authority: Key,
    /// The fee schedule new listings snapshot.
    pub fee_config: FeeConfig,
}

/// The seed list this record presents when signing: its derivation seeds
/// plus its stored bump.
pub open spec fn marketplace_auth_seeds_spec(authority: Seq<u8>, bump: u8) -> Seq<Seq<u8>> {
    seq![marketplace_prefix(), authority, seq![bump]]
}

impl MarketplaceConfig {
    pub const VERSION: u8 = 1;

    /// Account size: discriminator, bump, version, authority, fee schedule,
    /// and padding for future fields.
    pub const SPACE: usize = 8 + 1 + 1 + 32 + (32 + 2 + 128) + 256;

    pub fn auth_seeds(&self) -> (s: Vec<Vec<u8>>)
        ensures
            s.deep_view() == marketplace_auth_seeds_spec(self.marketplace_authority@, self.bump),
    {
        let mut s: Vec<Vec<u8>> = Vec::new();
        s.push(vstd::slice::slice_to_vec("marketplace_config".as_bytes()));
        s.push(self.marketplace_authority.to_vec());
        let mut bv: Vec<u8> = Vec::new();
        bv.push(self.bump);
        s.push(bv);
        proof {
            assert(s.deep_view() =~~= marketplace_auth_seeds_spec(
                self.marketplace_authority@,
                self.bump,
            ));
        }
        s
    }

    /// Fills a freshly created record; never fails.
    pub fn init(&mut self, bump: u8, marketplace_authority: Key, fee_config: FeeConfig) -> (r:
        Result<(), crate::error::Error>)
        ensures
            r is Ok,
            final(self).bump == bump,
            final(self).version == 1,
            final(self).marketplace_authority == marketplace_authority,
            final(self).fee_config == fee_config,
    {
        self.bump = bump;
        self.version = MarketplaceConfig::VERSION;
        self.marketplace_authority = marketplace_authority;
        self.fee_config = fee_config;
        Ok(())
    }
}

} // verus!
