//! One-time admin setup: records who administers the shared collection,
//! which collection achievements are minted into, and the metadata base URI,
//! and asks for the collection to be created.

use vstd::prelude::*;
use vstd::slice::slice_to_vec;
use vstd::utf8::encode_scalar;

use crate::achievement::constants::{CONFIG_SEED, DEFAULT_METADATA_BASE_URI};
use crate::achievement::errors::AchievementError;
use crate::achievement::instructions::set_base_uri::config_seeds;
use crate::achievement::state::config::{
    base_uri_acceptable, stored_len, AchievementConfig, AchievementConfigView,
};
use crate::framework::{
    bumped_program_address, find_program_address, found_bump, found_key, program_address,
    seeds_view, Account, Context, FrameworkError, InstructionError, Signer, UncheckedAccount,
};

verus! {

/// The accounts of `init_collection`: the signing admin, the collection
/// that achievements are minted into, and the configuration account at the
/// address that `CONFIG_SEED` derives, which holds `None` until the
/// collection is set up.
pub struct InitCollection {
    pub admin: Signer,
    pub collection: UncheckedAccount,
    pub config: Account<Option<AchievementConfig>>,
}

/// The collection NFT that `init_collection` asks to be created.
pub struct CreateCollection {
    pub collection: crate::pubkey::Pubkey,
    pub name: String,
    pub uri: String,
}

/// The seeds of the configuration's address, before its bump.
pub open spec fn config_search_seeds() -> Seq<Seq<u8>> {
    seq![CONFIG_SEED@]
}

/// The base URI that the configuration starts with: the fallback host where
/// none is given, else the given one.
pub open spec fn initial_base_uri(base_uri: Seq<char>) -> Seq<char> {
    if base_uri.len() == 0 {
        DEFAULT_METADATA_BASE_URI@
    } else {
        base_uri
    }
}

/// What `init_collection` does: the first check that fails, or the
/// configuration it records. The configuration must sit at the address that
/// `CONFIG_SEED` derives with the first bump found for it, which it
/// records; it must not exist yet, which makes the setup happen once; and a
/// given base URI must fit the space that the configuration reserves for it.
pub open spec fn init_collection_outcome(ctx: Context<InitCollection>, base_uri: Seq<char>) -> Result<
    AchievementConfigView,
    InstructionError<AchievementError>,
> {
    let a = ctx.accounts;
    let found = bumped_program_address(config_search_seeds(), ctx.program_id@);
    if found is None {
        Err(InstructionError::Framework(FrameworkError::NoViableBump))
    } else if found_key(found) != a.config.key@ {
        Err(InstructionError::Framework(FrameworkError::ConstraintSeeds))
    } else if a.config.data is Some {
        Err(InstructionError::Program(AchievementError::CollectionAlreadyInitialized))
    } else if !base_uri_acceptable(initial_base_uri(base_uri)) {
        Err(InstructionError::Program(AchievementError::BaseUriTooLong))
    } else {
        Ok(
            AchievementConfigView {
                admin: a.admin.key,
                collection: a.collection.key,
                base_uri: initial_base_uri(base_uri),
                bump: found_bump(found),
            },
        )
    }
}

/// No character takes more than four bytes in UTF-8.
proof fn stored_len_at_most_four_per_char(s: Seq<char>)
    ensures
        stored_len(s) <= 4 * s.len(),
    decreases s.len(),
{
    if s.len() > 0 {
        assert(encode_scalar(s[0] as u32).len() <= 4);
        stored_len_at_most_four_per_char(s.drop_first());
    }
}

/// The fallback base URI is not empty and takes at most 128 bytes.
pub proof fn default_base_uri_acceptable()
    ensures
        DEFAULT_METADATA_BASE_URI@.len() > 0,
        vstd::utf8::encode_utf8(DEFAULT_METADATA_BASE_URI@).len() <= 128,
        base_uri_acceptable(DEFAULT_METADATA_BASE_URI@),
{
    reveal_strlit("https://paygig.app/achievements");
    stored_len_at_most_four_per_char(DEFAULT_METADATA_BASE_URI@);
}

/// Sets up the configuration, once: the fallback base URI where `base_uri`
/// is empty, else `base_uri` itself, which must fit in the reserved space.
/// Returns the collection NFT to create. On any error nothing changes; in
/// particular an existing configuration is refused with
/// `CollectionAlreadyInitialized` and kept as it was.
pub fn handler(ctx: &mut Context<InitCollection>, name: String, uri: String, base_uri: String) -> (r:
    Result<CreateCollection, InstructionError<AchievementError>>)
    ensures
        match init_collection_outcome(*old(ctx), base_uri@) {
            Ok(config) => {
                &&& r matches Ok(create) && create.collection == old(ctx).accounts.collection.key
                    && create.name@ == name@ && create.uri@ == uri@
                &&& final(ctx).accounts.config.data matches Some(c) && c@ == config
                &&& config.well_formed()
                &&& program_address(config_seeds(config.bump), old(ctx).program_id@) == Some(
                    old(ctx).accounts.config.key@,
                )
                &&& final(ctx).program_id == old(ctx).program_id
                &&& final(ctx).accounts.admin == old(ctx).accounts.admin
                &&& final(ctx).accounts.collection == old(ctx).accounts.collection
                &&& final(ctx).accounts.config.key == old(ctx).accounts.config.key
                &&& final(ctx).accounts.config.is_writable == old(ctx).accounts.config.is_writable
            },
            Err(e) => r matches Err(x) && x == e && *final(ctx) == *old(ctx),
        },
{
    proof {
        default_base_uri_acceptable();
    }
    let mut seeds: Vec<Vec<u8>> = Vec::new();
    seeds.push(slice_to_vec(CONFIG_SEED.as_slice()));
    assert(seeds_view(seeds@) =~= config_search_seeds());
    let bump: u8 = match find_program_address(&seeds, &ctx.program_id) {
        None => {
            return Err(InstructionError::Framework(FrameworkError::NoViableBump));
        },
        Some((address, bump)) => {
            if !address.same_as(&ctx.accounts.config.key) {
                return Err(InstructionError::Framework(FrameworkError::ConstraintSeeds));
            }
            bump
        },
    };
    assert(seeds_view(seeds@).push(seq![bump]) =~= config_seeds(bump));
    if ctx.accounts.config.data.is_some() {
        return Err(InstructionError::Program(AchievementError::CollectionAlreadyInitialized));
    }
    let stored = if base_uri.as_str().is_empty() {
        String::from_str(DEFAULT_METADATA_BASE_URI)
    } else {
        if base_uri.as_str().as_bytes().len() > AchievementConfig::MAX_BASE_URI_LEN {
            return Err(InstructionError::Program(AchievementError::BaseUriTooLong));
        }
        base_uri
    };
    let config = AchievementConfig {
        admin: ctx.accounts.admin.key,
        collection: ctx.accounts.collection.key,
        base_uri: stored,
        bump,
    };
    ctx.accounts.config.data = Some(config);
    Ok(CreateCollection { collection: ctx.accounts.collection.key, name, uri })
}

} // verus!
