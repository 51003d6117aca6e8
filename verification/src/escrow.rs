//! The escrow program: holds a gig's milestone payments and, once every
//! milestone is accounted for, reports the gig's outcome to the reputation
//! program.

pub mod constants;
pub mod errors;
pub mod events;
pub mod instructions;
pub mod laws;
pub mod state;
