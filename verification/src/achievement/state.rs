//! Accounts that the achievement program owns.

pub mod config;
