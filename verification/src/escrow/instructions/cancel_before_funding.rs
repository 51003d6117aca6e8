//! Closing a milestone that was never funded.

use vstd::prelude::*;

use crate::escrow::constants::{escrow_authority_seeds, vault_seeds, ProgramSeeds};
use crate::escrow::errors::EscrowError;
use crate::escrow::events::MilestoneCancelledBeforeFunding;
use crate::escrow::state::{EscrowVault, Milestone, MilestoneStatus};
use crate::framework::{
    bumped_program_address, derives_address, found_bump, found_key, find_program_address, program_address, Account,
    Context, FrameworkError, InstructionError, Program, Signer, UncheckedAccount,
};
use crate::gig::{Gig, GigStatus};
use crate::pubkey::Pubkey;

verus! {

/// The accounts of `cancel_before_funding`: the signing client; the gig,
/// which names that client; the unfunded milestone of that gig, which is
/// closed with its rent going to the client; the gig's vault at its derived
/// address; the escrow authority, which signs the call into the gig program;
/// and the gig program.
pub struct CancelBeforeFunding {
    pub client: Signer,
    pub gig: Account<Gig>,
    pub milestone: Account<Milestone>,
    pub vault: Account<EscrowVault>,
    pub escrow_authority: UncheckedAccount,
    pub gig_program: Program,
}

/// What `cancel_before_funding` leaves for the runtime to carry out besides
/// the vault update.
#[derive(Clone, Copy, Debug)]
pub struct CancelBeforeFundingEffects {
    /// The event to emit.
    pub event: MilestoneCancelledBeforeFunding,
    /// Whether to cancel the gig through the gig program.
    pub cancel_gig: bool,
    /// The bump with which the escrow authority signs that call.
    pub escrow_authority_bump: u8,
    /// Who receives the closed milestone's rent: the client.
    pub close_milestone_to: Pubkey,
}

/// A counter one higher, wrapping to zero past its maximum: the count goes
/// through a 64-bit sum that is cut back to 32 bits.
pub open spec fn bumped_count(count: u32) -> u32 {
    if count == u32::MAX {
        0
    } else {
        (count + 1) as u32
    }
}

/// Whether closing an unfunded milestone also cancels the gig: only when
/// nothing was ever locked in the vault and the gig is still live (assigned
/// or in progress).
pub open spec fn cancels_gig(vault: EscrowVault, status: GigStatus) -> bool {
    vault.total_locked == 0 && (status == GigStatus::Assigned || status == GigStatus::InProgress)
}

/// What `cancel_before_funding` does: the first check that fails, in the
/// order the account constraints make them, or the new vault and the effects
/// to carry out.
pub open spec fn cancel_before_funding_outcome(
    ctx: Context<CancelBeforeFunding>,
    seeds: ProgramSeeds,
) -> Result<(EscrowVault, CancelBeforeFundingEffects), InstructionError<EscrowError>> {
    let a = ctx.accounts;
    let vault_pda = program_address(vault_seeds(seeds, a.gig.key, a.vault.data.bump), ctx.program_id@);
    let authority = bumped_program_address(escrow_authority_seeds(seeds), ctx.program_id@);
    if a.milestone.key@ == a.gig.key@ || a.vault.key@ == a.gig.key@ || a.vault.key@
        == a.milestone.key@ {
        Err(InstructionError::Framework(FrameworkError::ConstraintDuplicateMutableAccount))
    } else if !a.client.is_writable {
        Err(InstructionError::Framework(FrameworkError::ConstraintMut))
    } else if !a.gig.is_writable {
        Err(InstructionError::Framework(FrameworkError::ConstraintMut))
    } else if a.gig.data.client@ != a.client.key@ {
        Err(InstructionError::Program(EscrowError::Unauthorized))
    } else if !a.milestone.is_writable {
        Err(InstructionError::Framework(FrameworkError::ConstraintMut))
    } else if a.milestone.data.gig@ != a.gig.key@ {
        Err(InstructionError::Program(EscrowError::Unauthorized))
    } else if a.milestone.data.status != MilestoneStatus::PendingFunding {
        Err(InstructionError::Program(EscrowError::AlreadyFunded))
    } else if a.milestone.key@ == a.client.key@ {
        Err(InstructionError::Framework(FrameworkError::ConstraintClose))
    } else if vault_pda != Some(a.vault.key@) {
        Err(InstructionError::Framework(FrameworkError::ConstraintSeeds))
    } else if !a.vault.is_writable {
        Err(InstructionError::Framework(FrameworkError::ConstraintMut))
    } else if a.vault.data.gig@ != a.gig.key@ {
        Err(InstructionError::Program(EscrowError::Unauthorized))
    } else if authority is None {
        Err(InstructionError::Framework(FrameworkError::NoViableBump))
    } else if found_key(authority) != a.escrow_authority.key@ {
        Err(InstructionError::Framework(FrameworkError::ConstraintSeeds))
    } else {
        let vault = EscrowVault {
            cancelled_milestones: bumped_count(a.vault.data.cancelled_milestones),
            ..a.vault.data
        };
        let effects = CancelBeforeFundingEffects {
            event: MilestoneCancelledBeforeFunding {
                gig: a.gig.key,
                milestone: a.milestone.key,
                index: a.milestone.data.index,
            },
            cancel_gig: cancels_gig(a.vault.data, a.gig.data.status),
            escrow_authority_bump: found_bump(authority),
            close_milestone_to: a.client.key,
        };
        Ok((vault, effects))
    }
}

/// Closes a milestone that was never funded and refunds its rent to the
/// client.
///
/// The gig itself is cancelled through the gig program only when no money
/// has ever entered the vault, so closing one unfunded milestone never tears
/// down a gig whose other milestones were funded. The milestone still counts
/// as cancelled, which keeps the gig's settlement reachable. On any error
/// nothing changes.
pub fn handler(ctx: &mut Context<CancelBeforeFunding>, seeds: &ProgramSeeds) -> (r: Result<
    CancelBeforeFundingEffects,
    InstructionError<EscrowError>,
>)
    ensures
        match cancel_before_funding_outcome(*old(ctx), *seeds) {
            Ok((vault, effects)) => {
                &&& r matches Ok(e) && e == effects
                &&& final(ctx).accounts.vault.data == vault
                &&& program_address(
                    escrow_authority_seeds(*seeds).push(seq![effects.escrow_authority_bump]),
                    old(ctx).program_id@,
                ) == Some(old(ctx).accounts.escrow_authority.key@)
                &&& final(ctx).program_id == old(ctx).program_id
                &&& final(ctx).accounts.client == old(ctx).accounts.client
                &&& final(ctx).accounts.gig == old(ctx).accounts.gig
                &&& final(ctx).accounts.milestone == old(ctx).accounts.milestone
                &&& final(ctx).accounts.vault.key == old(ctx).accounts.vault.key
                &&& final(ctx).accounts.vault.is_writable == old(ctx).accounts.vault.is_writable
                &&& final(ctx).accounts.escrow_authority == old(ctx).accounts.escrow_authority
                &&& final(ctx).accounts.gig_program == old(ctx).accounts.gig_program
            },
            Err(e) => r matches Err(x) && x == e && *final(ctx) == *old(ctx),
        },
{
    let a = &ctx.accounts;
    if a.milestone.key.same_as(&a.gig.key) || a.vault.key.same_as(&a.gig.key)
        || a.vault.key.same_as(&a.milestone.key) {
        return Err(InstructionError::Framework(FrameworkError::ConstraintDuplicateMutableAccount));
    }
    if !a.client.is_writable {
        return Err(InstructionError::Framework(FrameworkError::ConstraintMut));
    }
    if !a.gig.is_writable {
        return Err(InstructionError::Framework(FrameworkError::ConstraintMut));
    }
    if !a.gig.data.client.same_as(&a.client.key) {
        return Err(InstructionError::Program(EscrowError::Unauthorized));
    }
    if !a.milestone.is_writable {
        return Err(InstructionError::Framework(FrameworkError::ConstraintMut));
    }
    if !a.milestone.data.gig.same_as(&a.gig.key) {
        return Err(InstructionError::Program(EscrowError::Unauthorized));
    }
    if a.milestone.data.status != MilestoneStatus::PendingFunding {
        return Err(InstructionError::Program(EscrowError::AlreadyFunded));
    }
    if a.milestone.key.same_as(&a.client.key) {
        return Err(InstructionError::Framework(FrameworkError::ConstraintClose));
    }
    let vault_seeds = seeds.vault_seeds(&a.gig.key, a.vault.data.bump);
    if !derives_address(&vault_seeds, &ctx.program_id, &a.vault.key) {
        return Err(InstructionError::Framework(FrameworkError::ConstraintSeeds));
    }
    if !a.vault.is_writable {
        return Err(InstructionError::Framework(FrameworkError::ConstraintMut));
    }
    if !a.vault.data.gig.same_as(&a.gig.key) {
        return Err(InstructionError::Program(EscrowError::Unauthorized));
    }
    let authority_seeds = seeds.escrow_authority_seeds();
    let authority_bump: u8 = match find_program_address(&authority_seeds, &ctx.program_id) {
        None => {
            return Err(InstructionError::Framework(FrameworkError::NoViableBump));
        },
        Some((authority, bump)) => {
            if !authority.same_as(&a.escrow_authority.key) {
                return Err(InstructionError::Framework(FrameworkError::ConstraintSeeds));
            }
            bump
        },
    };

    let event = MilestoneCancelledBeforeFunding {
        gig: a.gig.key,
        milestone: a.milestone.key,
        index: a.milestone.data.index,
    };
    let client = a.client.key;
    let gig_status = a.gig.data.status;

    let vault = &mut ctx.accounts.vault.data;
    vault.cancelled_milestones = vault.cancelled_milestones.wrapping_add(1);

    // Only unwind the gig if nothing was ever locked. A gig that has taken
    // funds stays alive so its remaining milestones can still settle. The
    // status guard keeps repeat cancellations from failing at the gig
    // program once the gig has already been cancelled.
    let should_cancel_gig = vault.total_locked == 0 && (gig_status == GigStatus::Assigned
        || gig_status == GigStatus::InProgress);

    Ok(
        CancelBeforeFundingEffects {
            event,
            cancel_gig: should_cancel_gig,
            escrow_authority_bump: authority_bump,
            close_milestone_to: client,
        },
    )
}

} // verus!
