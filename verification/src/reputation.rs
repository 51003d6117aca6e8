//! What the achievement and escrow programs read of the reputation
//! program's types: the badges it awards and the freelancer profiles it
//! keeps.

use vstd::prelude::*;

verus! {

/// A badge that a freelancer's profile can earn.
#[derive(Clone, Copy, Debug, PartialEq, Eq, Structural)]
pub enum BadgeType {
    FirstGig,
    TenCompletedJobs,
    HundredCompletedJobs,
    FiveStarPerformer,
    TrustedFreelancer,
    FastDeliverer,
    TopRated,
}

/// A freelancer's reputation profile, as far as other programs read it: the
/// bump seed of its address.
#[derive(Clone, Copy, Debug, PartialEq, Eq, Structural)]
pub struct UserProfile {
    pub bump: u8,
}

} // verus!
