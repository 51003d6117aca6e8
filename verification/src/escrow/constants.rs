//! The seeds under which the escrow program finds its accounts.

use vstd::prelude::*;
use vstd::slice::slice_to_vec;

use crate::framework::seeds_view;
use crate::pubkey::Pubkey;

verus! {

/// The seed constants of the escrow and reputation programs, and the
/// reputation program's id, under which the escrow program derives the
/// addresses it checks.
pub struct ProgramSeeds {
    /// Seed of each gig's vault, followed by the gig's address.
    pub vault: Vec<u8>,
    /// Seed of the escrow program's signing authority.
    pub escrow_authority: Vec<u8>,
    /// Seed of each freelancer's reputation profile, followed by the
    /// freelancer's address, under the reputation program.
    pub profile: Vec<u8>,
    /// The reputation program's id.
    pub reputation_program: Pubkey,
}

/// The seeds of a gig's vault address, its bump included.
pub open spec fn vault_seeds(seeds: ProgramSeeds, gig: Pubkey, bump: u8) -> Seq<Seq<u8>> {
    seq![seeds.vault@, gig@, seq![bump]]
}

/// The seeds of the escrow authority's address, before its bump.
pub open spec fn escrow_authority_seeds(seeds: ProgramSeeds) -> Seq<Seq<u8>> {
    seq![seeds.escrow_authority@]
}

/// The seeds of a freelancer's profile address, its bump included.
pub open spec fn profile_seeds(seeds: ProgramSeeds, freelancer: Pubkey, bump: u8) -> Seq<Seq<u8>> {
    seq![seeds.profile@, freelancer@, seq![bump]]
}

/// A seed list of one prefix, an address and a bump.
fn keyed_seeds(prefix: &Vec<u8>, key: &Pubkey, bump: u8) -> (seeds: Vec<Vec<u8>>)
    ensures
        seeds_view(seeds@) == seq![prefix@, key@, seq![bump]],
{
    let mut seeds: Vec<Vec<u8>> = Vec::new();
    seeds.push(slice_to_vec(prefix.as_slice()));
    seeds.push(slice_to_vec(key.bytes.as_slice()));
    let mut b: Vec<u8> = Vec::new();
    b.push(bump);
    seeds.push(b);
    assert(seeds_view(seeds@) =~= seq![prefix@, key@, seq![bump]]);
    seeds
}

impl ProgramSeeds {
    /// The seeds of a gig's vault address.
    pub fn vault_seeds(&self, gig: &Pubkey, bump: u8) -> (seeds: Vec<Vec<u8>>)
        ensures
            seeds_view(seeds@) == vault_seeds(*self, *gig, bump),
    {
        keyed_seeds(&self.vault, gig, bump)
    }

    /// The seeds of the escrow authority's address, before its bump.
    pub fn escrow_authority_seeds(&self) -> (seeds: Vec<Vec<u8>>)
        ensures
            seeds_view(seeds@) == escrow_authority_seeds(*self),
    {
        let mut seeds: Vec<Vec<u8>> = Vec::new();
        seeds.push(slice_to_vec(self.escrow_authority.as_slice()));
        assert(seeds_view(seeds@) =~= escrow_authority_seeds(*self));
        seeds
    }

    /// The seeds of a freelancer's profile address.
    pub fn profile_seeds(&self, freelancer: &Pubkey, bump: u8) -> (seeds: Vec<Vec<u8>>)
        ensures
            seeds_view(seeds@) == profile_seeds(*self, *freelancer, bump),
    {
        keyed_seeds(&self.profile, freelancer, bump)
    }
}

} // verus!
