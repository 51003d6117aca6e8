//! Admin-only update of the metadata host. Existing NFTs keep the URI they
//! were minted with; this only affects assets minted after the change.

use vstd::prelude::*;
use vstd::slice::slice_to_vec;

use crate::achievement::constants::CONFIG_SEED;
use crate::achievement::errors::AchievementError;
use crate::achievement::state::config::{
    base_uri_acceptable, AchievementConfig, AchievementConfigView,
};
use crate::framework::{
    create_program_address, program_address, seeds_view, Account, Context, FrameworkError,
    InstructionError, Signer,
};

verus! {

/// The accounts of `set_base_uri`: the signing admin and the configuration,
/// which sits at the address that `CONFIG_SEED` and its stored bump derive,
/// is writable, and names the signer as its admin.
pub struct SetBaseUri {
    pub admin: Signer,
    pub config: Account<AchievementConfig>,
}

/// The seeds of the configuration's address, its bump included.
pub open spec fn config_seeds(bump: u8) -> Seq<Seq<u8>> {
    seq![CONFIG_SEED@, seq![bump]]
}

/// What `set_base_uri` does: the first check that fails, in the order the
/// account constraints and the handler make them, or the configuration with
/// its new base URI.
pub open spec fn set_base_uri_outcome(ctx: Context<SetBaseUri>, base_uri: Seq<char>) -> Result<
    AchievementConfigView,
    InstructionError<AchievementError>,
> {
    let config = ctx.accounts.config;
    let pda = program_address(config_seeds(config.data.bump), ctx.program_id@);
    if pda is None || pda->0 != config.key@ {
        Err(InstructionError::Framework(FrameworkError::ConstraintSeeds))
    } else if !config.is_writable {
        Err(InstructionError::Framework(FrameworkError::ConstraintMut))
    } else if config.data.admin@ != ctx.accounts.admin.key@ {
        Err(InstructionError::Program(AchievementError::Unauthorized))
    } else if !base_uri_acceptable(base_uri) {
        Err(InstructionError::Program(AchievementError::BaseUriTooLong))
    } else {
        Ok(AchievementConfigView { base_uri, ..config.data@ })
    }
}

/// Replaces the configuration's base URI, after the account constraints and
/// the length checks pass. On any error nothing changes.
pub fn handler(ctx: &mut Context<SetBaseUri>, base_uri: String) -> (r: Result<
    (),
    InstructionError<AchievementError>,
>)
    ensures
        match set_base_uri_outcome(*old(ctx), base_uri@) {
            Ok(config) => {
                &&& r is Ok
                &&& final(ctx).accounts.config.data@ == config
                &&& final(ctx).program_id == old(ctx).program_id
                &&& final(ctx).accounts.admin == old(ctx).accounts.admin
                &&& final(ctx).accounts.config.key == old(ctx).accounts.config.key
                &&& final(ctx).accounts.config.is_writable == old(ctx).accounts.config.is_writable
            },
            Err(e) => r == Err::<(), _>(e) && *final(ctx) == *old(ctx),
        },
{
    let mut seeds: Vec<Vec<u8>> = Vec::new();
    seeds.push(slice_to_vec(CONFIG_SEED.as_slice()));
    let mut bump: Vec<u8> = Vec::new();
    bump.push(ctx.accounts.config.data.bump);
    seeds.push(bump);
    assert(seeds_view(seeds@) =~= config_seeds(ctx.accounts.config.data.bump));
    match create_program_address(&seeds, &ctx.program_id) {
        None => {
            return Err(InstructionError::Framework(FrameworkError::ConstraintSeeds));
        },
        Some(pda) => {
            if !pda.same_as(&ctx.accounts.config.key) {
                return Err(InstructionError::Framework(FrameworkError::ConstraintSeeds));
            }
        },
    }
    if !ctx.accounts.config.is_writable {
        return Err(InstructionError::Framework(FrameworkError::ConstraintMut));
    }
    if !ctx.accounts.config.data.admin.same_as(&ctx.accounts.admin.key) {
        return Err(InstructionError::Program(AchievementError::Unauthorized));
    }
    if base_uri.as_str().is_empty() {
        return Err(InstructionError::Program(AchievementError::BaseUriTooLong));
    }
    if base_uri.as_str().as_bytes().len() > AchievementConfig::MAX_BASE_URI_LEN {
        return Err(InstructionError::Program(AchievementError::BaseUriTooLong));
    }
    ctx.accounts.config.data.base_uri = base_uri;
    Ok(())
}

} // verus!
