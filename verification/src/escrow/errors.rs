//! The escrow program's own errors.

use vstd::prelude::*;

verus! {

/// Why an escrow instruction was refused.
#[derive(Clone, Copy, Debug, PartialEq, Eq, Structural)]
pub enum EscrowError {
    /// An account does not belong to the gig, or the signer is not its
    /// client.
    Unauthorized,
    /// The milestone has already been funded.
    AlreadyFunded,
    /// The gig is not in a state that allows the instruction.
    InvalidStatus,
}

} // verus!
