use anchor_lang::prelude::Pubkey as AnchorPubkey;

use paygig::escrow::constants::ProgramSeeds;
use paygig::escrow::errors::EscrowError;
use paygig::escrow::instructions::cancel_before_funding::{self, CancelBeforeFunding};
use paygig::escrow::instructions::settle_reputation::{self, SettleReputation};
use paygig::escrow::state::{EscrowVault, Milestone, MilestoneStatus};
use paygig::framework::{
    Account, Context, FrameworkError, InstructionError, Program, Signer, UncheckedAccount,
};
use paygig::gig::{Gig, GigStatus};
use paygig::pubkey::Pubkey;
use paygig::reputation::UserProfile;

const STANDARD_AMOUNT: u64 = 1_000_000;

fn key(b: u8) -> Pubkey {
    Pubkey::new_from_array([b; 32])
}

fn anchor(k: &Pubkey) -> AnchorPubkey {
    AnchorPubkey::new_from_array(k.to_bytes())
}

fn ours(k: &AnchorPubkey) -> Pubkey {
    Pubkey::new_from_array(k.to_bytes())
}

const ESCROW_PROGRAM: u8 = 50;
const REPUTATION_PROGRAM: u8 = 60;
const CLIENT: u8 = 1;
const FREELANCER: u8 = 2;
const GIG: u8 = 10;

fn seeds() -> ProgramSeeds {
    ProgramSeeds {
        vault: b"vault".to_vec(),
        escrow_authority: b"escrow_authority".to_vec(),
        profile: b"profile".to_vec(),
        reputation_program: key(REPUTATION_PROGRAM),
    }
}

fn find(seeds: &[&[u8]], program: u8) -> (Pubkey, u8) {
    let (k, b) = AnchorPubkey::find_program_address(seeds, &anchor(&key(program)));
    (ours(&k), b)
}

fn vault_address(gig: &Pubkey) -> (Pubkey, u8) {
    find(&[b"vault", &gig.to_bytes()], ESCROW_PROGRAM)
}

fn authority_address() -> (Pubkey, u8) {
    find(&[b"escrow_authority"], ESCROW_PROGRAM)
}

fn profile_address(freelancer: &Pubkey) -> (Pubkey, u8) {
    find(&[b"profile", &freelancer.to_bytes()], REPUTATION_PROGRAM)
}

/// A gig with its vault, as the escrow program holds them.
struct Escrow {
    gig: Account<Gig>,
    vault: Account<EscrowVault>,
}

fn escrow(status: GigStatus, milestone_count: u32, total_locked: u64) -> Escrow {
    let gig_key = key(GIG);
    let (vault_key, bump) = vault_address(&gig_key);
    Escrow {
        gig: Account {
            key: gig_key,
            is_writable: true,
            data: Gig { client: key(CLIENT), freelancer: key(FREELANCER), status },
        },
        vault: Account {
            key: vault_key,
            is_writable: true,
            data: EscrowVault {
                gig: gig_key,
                milestone_count,
                active_milestone: 0,
                cancelled_milestones: 0,
                total_locked,
                total_released: 0,
                reputation_synced: false,
                bump,
            },
        },
    }
}

fn unfunded_milestone(index: u32) -> Account<Milestone> {
    Account {
        key: key(100 + index as u8),
        is_writable: true,
        data: Milestone { gig: key(GIG), index, status: MilestoneStatus::PendingFunding },
    }
}

fn cancel_ctx(e: &Escrow, milestone: Account<Milestone>) -> Context<CancelBeforeFunding> {
    Context {
        program_id: key(ESCROW_PROGRAM),
        accounts: CancelBeforeFunding {
            client: Signer { key: key(CLIENT), is_writable: true },
            gig: e.gig.clone(),
            milestone,
            vault: e.vault.clone(),
            escrow_authority: UncheckedAccount { key: authority_address().0 },
            gig_program: Program { key: key(70) },
        },
    }
}

fn settle_ctx(e: &Escrow) -> Context<SettleReputation> {
    let (profile_key, profile_bump) = profile_address(&key(FREELANCER));
    Context {
        program_id: key(ESCROW_PROGRAM),
        accounts: SettleReputation {
            gig: Account { is_writable: false, ..e.gig.clone() },
            vault: e.vault.clone(),
            escrow_authority: UncheckedAccount { key: authority_address().0 },
            freelancer_profile: Account {
                key: profile_key,
                is_writable: true,
                data: UserProfile { bump: profile_bump },
            },
            reputation_program: Program { key: key(REPUTATION_PROGRAM) },
        },
    }
}

/// Cancels `milestone` and carries the result back into `e`, as the runtime
/// would, including the gig program's cancellation of the gig.
fn cancel(e: &mut Escrow, milestone: Account<Milestone>) -> cancel_before_funding::CancelBeforeFundingEffects {
    let mut ctx = cancel_ctx(e, milestone);
    let effects = cancel_before_funding::handler(&mut ctx, &seeds()).unwrap();
    e.vault = ctx.accounts.vault;
    if effects.cancel_gig {
        e.gig.data.status = GigStatus::Cancelled;
    }
    effects
}

#[test]
fn cancelling_unfunded_milestone_keeps_funded_gig_alive() {
    let mut e = escrow(GigStatus::InProgress, 2, STANDARD_AMOUNT);
    let effects = cancel(&mut e, unfunded_milestone(1));
    assert!(!effects.cancel_gig);
    assert_eq!(
        e.gig.data.status,
        GigStatus::InProgress,
        "a gig holding funded milestones must survive the cancellation of an unfunded one"
    );
    assert_eq!(e.vault.data.cancelled_milestones, 1);
    assert_eq!(
        e.vault.data.milestone_count, 2,
        "milestone_count allocates PDA indices and must stay monotonic"
    );
}

#[test]
fn cancelling_only_unfunded_milestone_still_cancels_gig() {
    let mut e = escrow(GigStatus::Assigned, 1, 0);
    let effects = cancel(&mut e, unfunded_milestone(0));
    assert!(effects.cancel_gig);
    assert_eq!(e.gig.data.status, GigStatus::Cancelled);
}

#[test]
fn settlement_reachable_after_cancelled_milestone() {
    let mut e = escrow(GigStatus::InProgress, 2, STANDARD_AMOUNT);
    cancel(&mut e, unfunded_milestone(1));
    // The funded milestone is submitted and approved in full.
    e.vault.data.active_milestone = 1;
    e.vault.data.total_released = STANDARD_AMOUNT;
    e.gig.data.status = GigStatus::Completed;

    let mut ctx = settle_ctx(&e);
    let report = settle_reputation::handler(&mut ctx, &seeds()).unwrap();
    assert!(report.successful, "the gig reached Completed, so it settles as successful");
    assert_eq!(report.earnings, STANDARD_AMOUNT);
    assert_eq!(report.profile, profile_address(&key(FREELANCER)).0);
    assert!(ctx.accounts.vault.data.reputation_synced);
}

#[test]
fn cancelled_gig_settles_as_unsuccessful() {
    let mut e = escrow(GigStatus::Assigned, 1, 0);
    // Nothing was ever funded, so this cancels the gig as well as the milestone.
    cancel(&mut e, unfunded_milestone(0));
    assert_eq!(e.gig.data.status, GigStatus::Cancelled);

    let mut ctx = settle_ctx(&e);
    let report = settle_reputation::handler(&mut ctx, &seeds()).unwrap();
    assert!(!report.successful, "a cancelled gig must count against the freelancer");
    assert_eq!(report.earnings, 0);
}

#[test]
fn cancel_reports_event_and_rent_destination() {
    let mut e = escrow(GigStatus::InProgress, 3, 0);
    let milestone = unfunded_milestone(2);
    let milestone_key = milestone.key;
    let effects = cancel(&mut e, milestone);
    assert_eq!(effects.event.gig, key(GIG));
    assert_eq!(effects.event.milestone, milestone_key);
    assert_eq!(effects.event.index, 2);
    assert_eq!(effects.close_milestone_to, key(CLIENT));
    assert_eq!(effects.escrow_authority_bump, authority_address().1);
    assert!(effects.cancel_gig);
}

#[test]
fn repeat_cancellation_does_not_cancel_gig_again() {
    let mut e = escrow(GigStatus::Assigned, 2, 0);
    assert!(cancel(&mut e, unfunded_milestone(0)).cancel_gig);
    assert!(!cancel(&mut e, unfunded_milestone(1)).cancel_gig);
    assert_eq!(e.vault.data.cancelled_milestones, 2);
}

#[test]
fn cancel_refuses_funded_milestone() {
    let e = escrow(GigStatus::InProgress, 1, STANDARD_AMOUNT);
    let mut milestone = unfunded_milestone(0);
    milestone.data.status = MilestoneStatus::Submitted;
    let mut ctx = cancel_ctx(&e, milestone);
    assert_eq!(
        cancel_before_funding::handler(&mut ctx, &seeds()).err(),
        Some(InstructionError::Program(EscrowError::AlreadyFunded))
    );
    assert_eq!(ctx.accounts.vault.data.cancelled_milestones, 0);
}

#[test]
fn cancel_refuses_other_client_and_foreign_milestone() {
    let e = escrow(GigStatus::InProgress, 1, 0);
    let mut ctx = cancel_ctx(&e, unfunded_milestone(0));
    ctx.accounts.client.key = key(3);
    assert_eq!(
        cancel_before_funding::handler(&mut ctx, &seeds()).err(),
        Some(InstructionError::Program(EscrowError::Unauthorized))
    );
    let mut milestone = unfunded_milestone(0);
    milestone.data.gig = key(11);
    let mut ctx = cancel_ctx(&e, milestone);
    assert_eq!(
        cancel_before_funding::handler(&mut ctx, &seeds()).err(),
        Some(InstructionError::Program(EscrowError::Unauthorized))
    );
}

#[test]
fn cancel_framework_checks() {
    let e = escrow(GigStatus::InProgress, 1, 0);
    let mut ctx = cancel_ctx(&e, unfunded_milestone(0));
    ctx.accounts.client.is_writable = false;
    assert_eq!(
        cancel_before_funding::handler(&mut ctx, &seeds()).err(),
        Some(InstructionError::Framework(FrameworkError::ConstraintMut))
    );
    let mut milestone = unfunded_milestone(0);
    milestone.key = key(CLIENT);
    let mut ctx = cancel_ctx(&e, milestone);
    assert_eq!(
        cancel_before_funding::handler(&mut ctx, &seeds()).err(),
        Some(InstructionError::Framework(FrameworkError::ConstraintClose))
    );
    let mut ctx = cancel_ctx(&e, unfunded_milestone(0));
    ctx.accounts.vault.key = key(99);
    assert_eq!(
        cancel_before_funding::handler(&mut ctx, &seeds()).err(),
        Some(InstructionError::Framework(FrameworkError::ConstraintSeeds))
    );
    let mut ctx = cancel_ctx(&e, unfunded_milestone(0));
    ctx.accounts.escrow_authority.key = key(98);
    assert_eq!(
        cancel_before_funding::handler(&mut ctx, &seeds()).err(),
        Some(InstructionError::Framework(FrameworkError::ConstraintSeeds))
    );
}

#[test]
fn cancelled_count_wraps_at_its_maximum() {
    let mut e = escrow(GigStatus::InProgress, 1, 1);
    e.vault.data.cancelled_milestones = u32::MAX;
    cancel(&mut e, unfunded_milestone(0));
    assert_eq!(e.vault.data.cancelled_milestones, 0);
}

#[test]
fn settlement_happens_once() {
    let mut e = escrow(GigStatus::Completed, 1, STANDARD_AMOUNT);
    e.vault.data.active_milestone = 1;
    e.vault.data.total_released = STANDARD_AMOUNT;
    let mut ctx = settle_ctx(&e);
    assert!(settle_reputation::handler(&mut ctx, &seeds()).is_ok());
    assert_eq!(
        settle_reputation::handler(&mut ctx, &seeds()).err(),
        Some(InstructionError::Program(EscrowError::InvalidStatus))
    );
}

#[test]
fn settlement_waits_for_every_milestone() {
    let mut e = escrow(GigStatus::InProgress, 2, STANDARD_AMOUNT);
    e.vault.data.active_milestone = 1;
    let mut ctx = settle_ctx(&e);
    assert_eq!(
        settle_reputation::handler(&mut ctx, &seeds()).err(),
        Some(InstructionError::Program(EscrowError::InvalidStatus))
    );
    assert!(!ctx.accounts.vault.data.reputation_synced);
    let e = escrow(GigStatus::Open, 0, 0);
    let mut ctx = settle_ctx(&e);
    assert_eq!(
        settle_reputation::handler(&mut ctx, &seeds()).err(),
        Some(InstructionError::Program(EscrowError::InvalidStatus))
    );
}

#[test]
fn settlement_counts_saturate() {
    let mut e = escrow(GigStatus::Completed, u32::MAX, 0);
    e.vault.data.active_milestone = u32::MAX;
    e.vault.data.cancelled_milestones = 5;
    let mut ctx = settle_ctx(&e);
    assert!(settle_reputation::handler(&mut ctx, &seeds()).is_ok());
}

#[test]
fn settlement_checks_profile_and_vault() {
    let mut e = escrow(GigStatus::Completed, 1, 0);
    e.vault.data.active_milestone = 1;
    let mut ctx = settle_ctx(&e);
    ctx.accounts.freelancer_profile.key = key(97);
    assert_eq!(
        settle_reputation::handler(&mut ctx, &seeds()).err(),
        Some(InstructionError::Framework(FrameworkError::ConstraintSeeds))
    );
    let mut ctx = settle_ctx(&e);
    ctx.accounts.freelancer_profile.is_writable = false;
    assert_eq!(
        settle_reputation::handler(&mut ctx, &seeds()).err(),
        Some(InstructionError::Framework(FrameworkError::ConstraintMut))
    );
    let mut ctx = settle_ctx(&e);
    ctx.accounts.vault.data.gig = key(12);
    assert_eq!(
        settle_reputation::handler(&mut ctx, &seeds()).err(),
        Some(InstructionError::Program(EscrowError::Unauthorized))
    );
}

#[test]
fn duplicate_mutable_accounts_refused_first() {
    let e = escrow(GigStatus::InProgress, 1, 0);
    let mut milestone = unfunded_milestone(0);
    milestone.key = key(GIG);
    let mut ctx = cancel_ctx(&e, milestone);
    ctx.accounts.client.is_writable = false;
    assert_eq!(
        cancel_before_funding::handler(&mut ctx, &seeds()).err(),
        Some(InstructionError::Framework(FrameworkError::ConstraintDuplicateMutableAccount))
    );
    let mut e = escrow(GigStatus::Completed, 1, 0);
    e.vault.data.active_milestone = 1;
    let mut ctx = settle_ctx(&e);
    ctx.accounts.freelancer_profile.key = ctx.accounts.vault.key;
    assert_eq!(
        settle_reputation::handler(&mut ctx, &seeds()).err(),
        Some(InstructionError::Framework(FrameworkError::ConstraintDuplicateMutableAccount))
    );
}
