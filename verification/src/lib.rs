//! Verified core of the PayGig on-chain programs: the achievement program's
//! badge metadata and configuration rules, and the escrow program's
//! milestone cancellation and reputation settlement decisions, together with
//! the account constraints that guard them.

pub mod achievement;
pub mod escrow;
pub mod framework;
pub mod gig;
pub mod pubkey;
pub mod reputation;
