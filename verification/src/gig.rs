//! What the escrow program reads of the gig program's accounts.

use vstd::prelude::*;

use crate::pubkey::Pubkey;

verus! {

/// Where a gig stands in its lifecycle.
#[derive(Clone, Copy, Debug, PartialEq, Eq, Structural)]
pub enum GigStatus {
    Open,
    Assigned,
    InProgress,
    Completed,
    Cancelled,
}

/// A gig: the client who posted it, the freelancer assigned to it, and its
/// status.
#[derive(Clone, Copy, Debug)]
pub struct Gig {
    pub client: Pubkey,
    pub freelancer: Pubkey,
    pub status: GigStatus,
}

} // verus!
