//! The escrow program's instructions.

pub mod cancel_before_funding;
pub mod settle_reputation;
