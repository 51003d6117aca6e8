//! Events that the escrow program emits.

use vstd::prelude::*;

use crate::pubkey::Pubkey;

verus! {

/// A milestone was closed before any money was put into it.
#[derive(Clone, Copy, Debug)]
pub struct MilestoneCancelledBeforeFunding {
    pub gig: Pubkey,
    pub milestone: Pubkey,
    pub index: u32,
}

} // verus!
