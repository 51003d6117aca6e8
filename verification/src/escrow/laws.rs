//! What holds of the escrow program across all inputs and across its
//! instructions.

use vstd::prelude::*;

use crate::escrow::constants::{escrow_authority_seeds, profile_seeds, vault_seeds, ProgramSeeds};
use crate::escrow::errors::EscrowError;
use crate::escrow::instructions::cancel_before_funding::{
    cancel_before_funding_outcome, CancelBeforeFunding,
};
use crate::escrow::instructions::settle_reputation::{
    milestones_accounted_for, settle_reputation_outcome, SettleReputation,
};
use crate::escrow::state::EscrowVault;
use crate::framework::{
    bumped_program_address, found_key, program_address, Account, Context, InstructionError,
};
use crate::gig::GigStatus;

verus! {

/// Cancelling an unfunded milestone changes nothing in the vault but the
/// count of cancelled milestones, which goes up by one; in particular the
/// count of milestones ever created, which allocates milestone indices,
/// stays as it was.
pub proof fn cancellation_only_counts_the_milestone(
    ctx: Context<CancelBeforeFunding>,
    seeds: ProgramSeeds,
)
    requires
        cancel_before_funding_outcome(ctx, seeds) is Ok,
        ctx.accounts.vault.data.cancelled_milestones < u32::MAX,
    ensures
        ({
            let old_vault = ctx.accounts.vault.data;
            let vault = cancel_before_funding_outcome(ctx, seeds)->Ok_0.0;
            &&& vault.cancelled_milestones == old_vault.cancelled_milestones + 1
            &&& vault == EscrowVault { cancelled_milestones: vault.cancelled_milestones, ..old_vault }
            &&& vault.milestone_count == old_vault.milestone_count
        }),
{
}

/// A gig is cancelled along with an unfunded milestone exactly when nothing
/// was ever locked in its vault and it is still assigned or in progress: a
/// gig holding funded milestones survives, and a gig that is already
/// cancelled is not cancelled again.
pub proof fn gig_cancelled_only_when_nothing_was_locked(
    ctx: Context<CancelBeforeFunding>,
    seeds: ProgramSeeds,
)
    requires
        cancel_before_funding_outcome(ctx, seeds) is Ok,
    ensures
        ({
            let effects = cancel_before_funding_outcome(ctx, seeds)->Ok_0.1;
            let status = ctx.accounts.gig.data.status;
            &&& effects.cancel_gig <==> (ctx.accounts.vault.data.total_locked == 0 && (status
                == GigStatus::Assigned || status == GigStatus::InProgress))
            &&& ctx.accounts.vault.data.total_locked > 0 ==> !effects.cancel_gig
            &&& status == GigStatus::Cancelled ==> !effects.cancel_gig
        }),
{
}

/// Only an unfunded milestone can be cancelled: one in any other status is
/// refused with `AlreadyFunded` or an earlier account error.
pub proof fn funded_milestone_not_cancelled(ctx: Context<CancelBeforeFunding>, seeds: ProgramSeeds)
    requires
        ctx.accounts.milestone.data.status != crate::escrow::state::MilestoneStatus::PendingFunding,
    ensures
        cancel_before_funding_outcome(ctx, seeds) is Err,
{
}

/// Cancelling a milestone never takes away a settlement that was due: if
/// every milestone was accounted for before, it still is after.
pub proof fn cancellation_keeps_settlement_due(ctx: Context<CancelBeforeFunding>, seeds: ProgramSeeds)
    requires
        cancel_before_funding_outcome(ctx, seeds) is Ok,
        milestones_accounted_for(ctx.accounts.vault.data),
        ctx.accounts.vault.data.cancelled_milestones < u32::MAX,
    ensures
        milestones_accounted_for(cancel_before_funding_outcome(ctx, seeds)->Ok_0.0),
{
}

/// A cancelled milestone counts towards settlement: a vault whose
/// milestones are all released or cancelled can be settled, however many of
/// them were cancelled.
pub proof fn cancelled_milestones_count_towards_settlement(vault: EscrowVault)
    requires
        vault.milestone_count > 0,
        vault.active_milestone + vault.cancelled_milestones >= vault.milestone_count,
    ensures
        milestones_accounted_for(vault),
{
}

/// The vault of `ctx` replaced by `vault`.
pub open spec fn with_vault(ctx: Context<SettleReputation>, vault: EscrowVault) -> Context<
    SettleReputation,
> {
    Context {
        accounts: SettleReputation {
            vault: Account { data: vault, ..ctx.accounts.vault },
            ..ctx.accounts
        },
        ..ctx
    }
}

/// Settlement happens at most once per gig: once it has succeeded, settling
/// the same accounts again is refused with `InvalidStatus`.
pub proof fn settlement_happens_once(ctx: Context<SettleReputation>, seeds: ProgramSeeds)
    requires
        settle_reputation_outcome(ctx, seeds) is Ok,
    ensures
        settle_reputation_outcome(
            with_vault(ctx, settle_reputation_outcome(ctx, seeds)->Ok_0.0),
            seeds,
        ) == Err::<(EscrowVault, crate::escrow::instructions::settle_reputation::UpdateCompletion), _>(
            InstructionError::Program(EscrowError::InvalidStatus),
        ),
{
}

/// A settlement reports success exactly when the gig reached `Completed`,
/// credits what the vault released, and changes nothing in the vault but
/// marking it settled.
pub proof fn settlement_reports_the_gig_outcome(ctx: Context<SettleReputation>, seeds: ProgramSeeds)
    requires
        settle_reputation_outcome(ctx, seeds) is Ok,
    ensures
        ({
            let (vault, report) = settle_reputation_outcome(ctx, seeds)->Ok_0;
            &&& report.successful <==> ctx.accounts.gig.data.status == GigStatus::Completed
            &&& report.earnings == ctx.accounts.vault.data.total_released
            &&& vault == EscrowVault { reputation_synced: true, ..ctx.accounts.vault.data }
        }),
{
}

/// A gig whose milestones are not all accounted for cannot be settled.
pub proof fn unaccounted_milestones_block_settlement(
    ctx: Context<SettleReputation>,
    seeds: ProgramSeeds,
)
    requires
        !milestones_accounted_for(ctx.accounts.vault.data),
    ensures
        settle_reputation_outcome(ctx, seeds) is Err,
{
}

/// Closing an unfunded milestone reports that very milestone: the event
/// names the gig, the cancelled milestone and its own index, and the
/// milestone's rent goes to the signing client.
pub proof fn cancellation_event_names_the_milestone(
    ctx: Context<CancelBeforeFunding>,
    seeds: ProgramSeeds,
)
    requires
        cancel_before_funding_outcome(ctx, seeds) is Ok,
    ensures
        ({
            let effects = cancel_before_funding_outcome(ctx, seeds)->Ok_0.1;
            &&& effects.event.gig == ctx.accounts.gig.key
            &&& effects.event.milestone == ctx.accounts.milestone.key
            &&& effects.event.index == ctx.accounts.milestone.data.index
            &&& effects.close_milestone_to == ctx.accounts.client.key
        }),
{
}

/// Settlement goes through only once every milestone ever created is
/// released or cancelled (for a gig with at least one milestone), and only
/// once: it never settles early, while a milestone is still in flight.
pub proof fn settlement_waits_for_every_milestone(ctx: Context<SettleReputation>, seeds: ProgramSeeds)
    requires
        settle_reputation_outcome(ctx, seeds) is Ok,
    ensures
        ctx.accounts.vault.data.milestone_count > 0,
        ctx.accounts.vault.data.active_milestone + ctx.accounts.vault.data.cancelled_milestones
            >= ctx.accounts.vault.data.milestone_count,
        !ctx.accounts.vault.data.reputation_synced,
{
}

/// With its accounts in order, a gig whose milestones are all released or
/// cancelled and which is not yet settled is settled: the report says
/// whether the gig completed and credits what the vault released.
pub proof fn settlement_due_goes_through(ctx: Context<SettleReputation>, seeds: ProgramSeeds)
    requires
        ctx.accounts.freelancer_profile.key@ != ctx.accounts.vault.key@,
        program_address(
            vault_seeds(seeds, ctx.accounts.gig.key, ctx.accounts.vault.data.bump),
            ctx.program_id@,
        ) == Some(ctx.accounts.vault.key@),
        ctx.accounts.vault.is_writable,
        ctx.accounts.vault.data.gig@ == ctx.accounts.gig.key@,
        ctx.accounts.vault.data.milestone_count > 0,
        ctx.accounts.vault.data.active_milestone + ctx.accounts.vault.data.cancelled_milestones
            >= ctx.accounts.vault.data.milestone_count,
        !ctx.accounts.vault.data.reputation_synced,
        bumped_program_address(escrow_authority_seeds(seeds), ctx.program_id@) is Some,
        found_key(bumped_program_address(escrow_authority_seeds(seeds), ctx.program_id@))
            == ctx.accounts.escrow_authority.key@,
        program_address(
            profile_seeds(seeds, ctx.accounts.gig.data.freelancer, ctx.accounts.freelancer_profile.data.bump),
            seeds.reputation_program@,
        ) == Some(ctx.accounts.freelancer_profile.key@),
        ctx.accounts.freelancer_profile.is_writable,
    ensures
        settle_reputation_outcome(ctx, seeds) is Ok,
        ({
            let (vault, report) = settle_reputation_outcome(ctx, seeds)->Ok_0;
            &&& vault.reputation_synced
            &&& report.successful == (ctx.accounts.gig.data.status == GigStatus::Completed)
            &&& report.earnings == ctx.accounts.vault.data.total_released
            &&& report.profile == ctx.accounts.freelancer_profile.key
        }),
{
}

} // verus!
