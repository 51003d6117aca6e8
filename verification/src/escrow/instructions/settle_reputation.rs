//! Reporting a gig's outcome to the reputation program.

use vstd::prelude::*;

use crate::escrow::constants::{escrow_authority_seeds, profile_seeds, vault_seeds, ProgramSeeds};
use crate::escrow::errors::EscrowError;
use crate::escrow::state::EscrowVault;
use crate::framework::{
    bumped_program_address, derives_address, found_bump, found_key, find_program_address, program_address, Account,
    Context, FrameworkError, InstructionError, Program, UncheckedAccount,
};
use crate::gig::{Gig, GigStatus};
use crate::pubkey::Pubkey;
use crate::reputation::UserProfile;

verus! {

/// The accounts of `settle_reputation`: the gig; its vault at its derived
/// address, with every milestone accounted for and the outcome not yet
/// reported; the escrow authority, which signs the call into the reputation
/// program; the freelancer's profile at its address under the reputation
/// program; and the reputation program.
pub struct SettleReputation {
    pub gig: Account<Gig>,
    pub vault: Account<EscrowVault>,
    pub escrow_authority: UncheckedAccount,
    pub freelancer_profile: Account<UserProfile>,
    pub reputation_program: Program,
}

/// The completion report to send to the reputation program.
#[derive(Clone, Copy, Debug)]
pub struct UpdateCompletion {
    /// The profile to credit.
    pub profile: Pubkey,
    /// Whether the gig ended completed rather than cancelled.
    pub successful: bool,
    /// What the freelancer was paid out of the vault.
    pub earnings: u64,
    /// The bump with which the escrow authority signs the call.
    pub escrow_authority_bump: u8,
}

/// Whether every milestone ever created is accounted for, either fully
/// released or cancelled before funding, for a gig with at least one
/// milestone.
pub open spec fn milestones_accounted_for(vault: EscrowVault) -> bool {
    vault.milestone_count > 0 && (if vault.active_milestone + vault.cancelled_milestones > u32::MAX {
        u32::MAX as int
    } else {
        vault.active_milestone + vault.cancelled_milestones
    }) >= vault.milestone_count
}

/// What `settle_reputation` does: the first check that fails, in the order
/// the account constraints make them, or the new vault and the report to
/// send.
pub open spec fn settle_reputation_outcome(ctx: Context<SettleReputation>, seeds: ProgramSeeds) -> Result<
    (EscrowVault, UpdateCompletion),
    InstructionError<EscrowError>,
> {
    let a = ctx.accounts;
    let vault_pda = program_address(vault_seeds(seeds, a.gig.key, a.vault.data.bump), ctx.program_id@);
    let authority = bumped_program_address(escrow_authority_seeds(seeds), ctx.program_id@);
    let profile_pda = program_address(
        profile_seeds(seeds, a.gig.data.freelancer, a.freelancer_profile.data.bump),
        seeds.reputation_program@,
    );
    if a.freelancer_profile.key@ == a.vault.key@ {
        Err(InstructionError::Framework(FrameworkError::ConstraintDuplicateMutableAccount))
    } else if vault_pda != Some(a.vault.key@) {
        Err(InstructionError::Framework(FrameworkError::ConstraintSeeds))
    } else if !a.vault.is_writable {
        Err(InstructionError::Framework(FrameworkError::ConstraintMut))
    } else if a.vault.data.gig@ != a.gig.key@ {
        Err(InstructionError::Program(EscrowError::Unauthorized))
    } else if !milestones_accounted_for(a.vault.data) {
        Err(InstructionError::Program(EscrowError::InvalidStatus))
    } else if a.vault.data.reputation_synced {
        Err(InstructionError::Program(EscrowError::InvalidStatus))
    } else if authority is None {
        Err(InstructionError::Framework(FrameworkError::NoViableBump))
    } else if found_key(authority) != a.escrow_authority.key@ {
        Err(InstructionError::Framework(FrameworkError::ConstraintSeeds))
    } else if profile_pda != Some(a.freelancer_profile.key@) {
        Err(InstructionError::Framework(FrameworkError::ConstraintSeeds))
    } else if !a.freelancer_profile.is_writable {
        Err(InstructionError::Framework(FrameworkError::ConstraintMut))
    } else {
        let vault = EscrowVault { reputation_synced: true, ..a.vault.data };
        let report = UpdateCompletion {
            profile: a.freelancer_profile.key,
            successful: a.gig.data.status == GigStatus::Completed,
            earnings: a.vault.data.total_released,
            escrow_authority_bump: found_bump(authority),
        };
        Ok((vault, report))
    }
}

/// Permissionlessly notifies the reputation program once every milestone of
/// the gig has been accounted for; the vault's own state is the sole
/// trigger, and `reputation_synced` makes the report (and its earnings
/// credit) happen at most once per gig.
///
/// The success flag comes from the gig's own terminal status: a completed
/// gig settles as successful, a cancelled one does not. On any error nothing
/// changes.
pub fn handler(ctx: &mut Context<SettleReputation>, seeds: &ProgramSeeds) -> (r: Result<
    UpdateCompletion,
    InstructionError<EscrowError>,
>)
    ensures
        match settle_reputation_outcome(*old(ctx), *seeds) {
            Ok((vault, report)) => {
                &&& r matches Ok(u) && u == report
                &&& final(ctx).accounts.vault.data == vault
                &&& program_address(
                    escrow_authority_seeds(*seeds).push(seq![report.escrow_authority_bump]),
                    old(ctx).program_id@,
                ) == Some(old(ctx).accounts.escrow_authority.key@)
                &&& final(ctx).program_id == old(ctx).program_id
                &&& final(ctx).accounts.gig == old(ctx).accounts.gig
                &&& final(ctx).accounts.vault.key == old(ctx).accounts.vault.key
                &&& final(ctx).accounts.vault.is_writable == old(ctx).accounts.vault.is_writable
                &&& final(ctx).accounts.escrow_authority == old(ctx).accounts.escrow_authority
                &&& final(ctx).accounts.freelancer_profile == old(ctx).accounts.freelancer_profile
                &&& final(ctx).accounts.reputation_program == old(ctx).accounts.reputation_program
            },
            Err(e) => r matches Err(x) && x == e && *final(ctx) == *old(ctx),
        },
{
    let a = &ctx.accounts;
    if a.freelancer_profile.key.same_as(&a.vault.key) {
        return Err(InstructionError::Framework(FrameworkError::ConstraintDuplicateMutableAccount));
    }
    let vault_seeds = seeds.vault_seeds(&a.gig.key, a.vault.data.bump);
    if !derives_address(&vault_seeds, &ctx.program_id, &a.vault.key) {
        return Err(InstructionError::Framework(FrameworkError::ConstraintSeeds));
    }
    if !a.vault.is_writable {
        return Err(InstructionError::Framework(FrameworkError::ConstraintMut));
    }
    if !a.vault.data.gig.same_as(&a.gig.key) {
        return Err(InstructionError::Program(EscrowError::Unauthorized));
    }
    // Every milestone ever created must be accounted for: either fully
    // released or cancelled before funding.
    let v = &a.vault.data;
    if !(v.milestone_count > 0 && v.active_milestone.saturating_add(v.cancelled_milestones)
        >= v.milestone_count) {
        return Err(InstructionError::Program(EscrowError::InvalidStatus));
    }
    if v.reputation_synced {
        return Err(InstructionError::Program(EscrowError::InvalidStatus));
    }
    let authority_seeds = seeds.escrow_authority_seeds();
    let authority_bump: u8 = match find_program_address(&authority_seeds, &ctx.program_id) {
        None => {
            return Err(InstructionError::Framework(FrameworkError::NoViableBump));
        },
        Some((authority, bump)) => {
            if !authority.same_as(&a.escrow_authority.key) {
                return Err(InstructionError::Framework(FrameworkError::ConstraintSeeds));
            }
            bump
        },
    };
    let profile_seeds = seeds.profile_seeds(&a.gig.data.freelancer, a.freelancer_profile.data.bump);
    if !derives_address(&profile_seeds, &seeds.reputation_program, &a.freelancer_profile.key) {
        return Err(InstructionError::Framework(FrameworkError::ConstraintSeeds));
    }
    if !a.freelancer_profile.is_writable {
        return Err(InstructionError::Framework(FrameworkError::ConstraintMut));
    }

    let report = UpdateCompletion {
        profile: a.freelancer_profile.key,
        successful: a.gig.data.status == GigStatus::Completed,
        earnings: v.total_released,
        escrow_authority_bump: authority_bump,
    };
    ctx.accounts.vault.data.reputation_synced = true;
    Ok(report)
}

} // verus!
