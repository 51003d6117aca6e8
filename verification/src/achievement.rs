//! The achievement program: turns badges earned in the reputation program
//! into collection NFTs, whose metadata it serves from a configurable base
//! URI.

pub mod constants;
pub mod errors;
pub mod instructions;
pub mod laws;
pub mod state;

pub use crate::reputation::BadgeType;

use vstd::prelude::*;

use crate::achievement::errors::AchievementError;
use crate::achievement::instructions::init_collection::{
    init_collection_outcome, CreateCollection, InitCollection,
};
use crate::achievement::instructions::set_base_uri::{config_seeds, set_base_uri_outcome, SetBaseUri};
use crate::framework::{program_address, Context, InstructionError};

verus! {

/// One-time admin setup: records the shared collection every achievement
/// is minted into and the metadata base URI, and returns the collection NFT
/// to create. Settlement never touches this program: claiming is always a
/// separate, user-initiated transaction.
pub fn init_collection(ctx: &mut Context<InitCollection>, name: String, uri: String, base_uri: String) -> (r:
    Result<CreateCollection, InstructionError<AchievementError>>)
    ensures
        match init_collection_outcome(*old(ctx), base_uri@) {
            Ok(config) => {
                &&& r matches Ok(create) && create.collection == old(ctx).accounts.collection.key
                    && create.name@ == name@ && create.uri@ == uri@
                &&& final(ctx).accounts.config.data matches Some(c) && c@ == config
                &&& config.well_formed()
                &&& program_address(config_seeds(config.bump), old(ctx).program_id@) == Some(
                    old(ctx).accounts.config.key@,
                )
                &&& final(ctx).program_id == old(ctx).program_id
                &&& final(ctx).accounts.admin == old(ctx).accounts.admin
                &&& final(ctx).accounts.collection == old(ctx).accounts.collection
                &&& final(ctx).accounts.config.key == old(ctx).accounts.config.key
                &&& final(ctx).accounts.config.is_writable == old(ctx).accounts.config.is_writable
            },
            Err(e) => r matches Err(x) && x == e && *final(ctx) == *old(ctx),
        },
{
    instructions::init_collection::handler(ctx, name, uri, base_uri)
}

/// Admin-only: repoints badge metadata at a new host. Affects assets minted
/// after the change; already-minted NFTs keep their URI.
pub fn set_base_uri(ctx: &mut Context<SetBaseUri>, base_uri: String) -> (r: Result<
    (),
    InstructionError<AchievementError>,
>)
    ensures
        match set_base_uri_outcome(*old(ctx), base_uri@) {
            Ok(config) => {
                &&& r is Ok
                &&& final(ctx).accounts.config.data@ == config
                &&& final(ctx).program_id == old(ctx).program_id
                &&& final(ctx).accounts.admin == old(ctx).accounts.admin
                &&& final(ctx).accounts.config.key == old(ctx).accounts.config.key
                &&& final(ctx).accounts.config.is_writable == old(ctx).accounts.config.is_writable
            },
            Err(e) => r == Err::<(), _>(e) && *final(ctx) == *old(ctx),
        },
{
    instructions::set_base_uri::handler(ctx, base_uri)
}

} // verus!
