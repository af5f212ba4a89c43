//! Edge cases of the state machine: authorization, terminal statuses,
//! the bookkeeping invariant, and every error of the taxonomy that an
//! operation can produce.

use vaultix_escrow::escrow::Error;
use vaultix_escrow::escrow::EscrowStatus;
use vaultix_escrow::escrow::Milestone;
use vaultix_escrow::escrow::MilestoneStatus;
use vaultix_escrow::escrow::Resolution;
use vaultix_escrow::registry::VaultixEscrow;

const DEPOSITOR: u64 = 1;
const RECIPIENT: u64 = 2;
const ADMIN: u64 = 3;
const STRANGER: u64 = 4;

fn tranche(amount: i128, description: &str) -> Milestone {
    Milestone { amount, status: MilestoneStatus::Pending, description: String::from(description) }
}

fn fresh_escrow(registry: &mut VaultixEscrow, escrow_id: u64, amounts: &[i128]) {
    let mut milestones = Vec::new();
    for (i, &amount) in amounts.iter().enumerate() {
        milestones.push(tranche(amount, &format!("Step{}", i)));
    }
    registry
        .create_escrow(escrow_id, DEPOSITOR, RECIPIENT, milestones, DEPOSITOR)
        .unwrap();
}

#[test]
fn released_total_tracks_released_milestones() {
    let mut registry = VaultixEscrow::new();
    fresh_escrow(&mut registry, 1, &[100, 200, 300]);

    registry.release_milestone(1, 0, DEPOSITOR).unwrap();
    registry.release_milestone(1, 2, DEPOSITOR).unwrap();

    let escrow = registry.get_escrow(1).unwrap();
    let released_sum: i128 = escrow
        .milestones
        .iter()
        .filter(|m| m.status == MilestoneStatus::Released)
        .map(|m| m.amount)
        .sum();
    assert_eq!(escrow.total_released, released_sum);
    assert_eq!(escrow.total_released, 400);
    assert!(escrow.total_released <= escrow.total_amount);
    assert_eq!(escrow.total_amount, 600);
}

#[test]
fn failed_second_release_changes_nothing() {
    let mut registry = VaultixEscrow::new();
    fresh_escrow(&mut registry, 1, &[5000, 5000]);
    registry.release_milestone(1, 0, DEPOSITOR).unwrap();

    let before = registry.get_escrow(1).unwrap();
    assert_eq!(
        registry.release_milestone(1, 0, DEPOSITOR),
        Err(Error::MilestoneAlreadyReleased)
    );
    let after = registry.get_escrow(1).unwrap();

    assert_eq!(after.total_released, before.total_released);
    assert_eq!(after.status, before.status);
    for (a, b) in after.milestones.iter().zip(before.milestones.iter()) {
        assert_eq!(a.amount, b.amount);
        assert_eq!(a.status, b.status);
        assert_eq!(a.description, b.description);
    }
}

#[test]
fn cancelled_escrow_is_terminal() {
    let mut registry = VaultixEscrow::new();
    registry.init(ADMIN, ADMIN).unwrap();
    fresh_escrow(&mut registry, 1, &[700]);
    registry.cancel_escrow(1, DEPOSITOR).unwrap();

    assert_eq!(registry.release_milestone(1, 0, DEPOSITOR), Err(Error::EscrowNotActive));
    assert_eq!(registry.raise_dispute(1, DEPOSITOR), Err(Error::InvalidEscrowStatus));
    assert_eq!(registry.resolve_dispute(1, DEPOSITOR, ADMIN), Err(Error::InvalidEscrowStatus));
    assert_eq!(registry.cancel_escrow(1, DEPOSITOR), Err(Error::InvalidEscrowStatus));
    assert_eq!(registry.complete_escrow(1, DEPOSITOR), Err(Error::InvalidEscrowStatus));

    let escrow = registry.get_escrow(1).unwrap();
    assert_eq!(escrow.status, EscrowStatus::Cancelled);
    assert_eq!(escrow.total_released, 0);
    assert_eq!(escrow.milestones[0].status, MilestoneStatus::Pending);
}

#[test]
fn resolved_escrow_is_terminal() {
    let mut registry = VaultixEscrow::new();
    registry.init(ADMIN, ADMIN).unwrap();
    fresh_escrow(&mut registry, 1, &[700]);
    registry.raise_dispute(1, RECIPIENT).unwrap();
    registry.resolve_dispute(1, RECIPIENT, ADMIN).unwrap();

    assert_eq!(registry.release_milestone(1, 0, DEPOSITOR), Err(Error::EscrowNotActive));
    assert_eq!(registry.raise_dispute(1, RECIPIENT), Err(Error::InvalidEscrowStatus));
    assert_eq!(registry.resolve_dispute(1, DEPOSITOR, ADMIN), Err(Error::InvalidEscrowStatus));

    let escrow = registry.get_escrow(1).unwrap();
    assert_eq!(escrow.status, EscrowStatus::Resolved);
    assert_eq!(escrow.resolution, Resolution::Recipient);
    assert_eq!(escrow.total_released, 700);
}

#[test]
fn completed_escrow_is_terminal() {
    let mut registry = VaultixEscrow::new();
    fresh_escrow(&mut registry, 1, &[700]);
    registry.release_milestone(1, 0, DEPOSITOR).unwrap();
    registry.complete_escrow(1, DEPOSITOR).unwrap();

    assert_eq!(registry.release_milestone(1, 0, DEPOSITOR), Err(Error::EscrowNotActive));
    assert_eq!(registry.raise_dispute(1, DEPOSITOR), Err(Error::InvalidEscrowStatus));
    assert_eq!(registry.cancel_escrow(1, DEPOSITOR), Err(Error::InvalidEscrowStatus));

    let escrow = registry.get_escrow(1).unwrap();
    assert_eq!(escrow.status, EscrowStatus::Completed);
}

#[test]
fn dispute_freezes_every_index() {
    let mut registry = VaultixEscrow::new();
    fresh_escrow(&mut registry, 1, &[10, 20, 30]);
    registry.release_milestone(1, 1, DEPOSITOR).unwrap();
    registry.raise_dispute(1, RECIPIENT).unwrap();

    // Every index fails alike, the already-released one and out-of-range
    // ones included: the dispute check comes first.
    for index in 0..5u32 {
        assert_eq!(
            registry.release_milestone(1, index, DEPOSITOR),
            Err(Error::EscrowNotActive)
        );
    }

    // Released milestones are untouched by the dispute, pending ones are
    // frozen; nothing already paid is clawed back.
    let escrow = registry.get_escrow(1).unwrap();
    assert_eq!(escrow.milestones[0].status, MilestoneStatus::Disputed);
    assert_eq!(escrow.milestones[1].status, MilestoneStatus::Released);
    assert_eq!(escrow.milestones[2].status, MilestoneStatus::Disputed);
    assert_eq!(escrow.total_released, 20);
}

#[test]
fn depositor_resolution_keeps_prior_payouts() {
    let mut registry = VaultixEscrow::new();
    registry.init(ADMIN, ADMIN).unwrap();
    fresh_escrow(&mut registry, 1, &[10, 20]);
    registry.release_milestone(1, 0, DEPOSITOR).unwrap();
    registry.raise_dispute(1, DEPOSITOR).unwrap();
    registry.resolve_dispute(1, DEPOSITOR, ADMIN).unwrap();

    let escrow = registry.get_escrow(1).unwrap();
    assert_eq!(escrow.status, EscrowStatus::Resolved);
    assert_eq!(escrow.resolution, Resolution::Depositor);
    assert_eq!(escrow.total_released, 10);
    assert_eq!(escrow.milestones[0].status, MilestoneStatus::Released);
    assert_eq!(escrow.milestones[1].status, MilestoneStatus::Disputed);
}

#[test]
fn authorization_is_checked_on_every_operation() {
    let mut registry = VaultixEscrow::new();
    registry.init(ADMIN, ADMIN).unwrap();
    fresh_escrow(&mut registry, 1, &[500]);

    assert_eq!(
        registry.create_escrow(2, DEPOSITOR, RECIPIENT, vec![tranche(1, "A")], STRANGER),
        Err(Error::UnauthorizedAccess)
    );
    assert_eq!(registry.release_milestone(1, 0, RECIPIENT), Err(Error::UnauthorizedAccess));
    assert_eq!(registry.raise_dispute(1, STRANGER), Err(Error::UnauthorizedAccess));
    assert_eq!(registry.cancel_escrow(1, RECIPIENT), Err(Error::UnauthorizedAccess));
    assert_eq!(registry.complete_escrow(1, STRANGER), Err(Error::UnauthorizedAccess));
    registry.raise_dispute(1, DEPOSITOR).unwrap();
    assert_eq!(
        registry.resolve_dispute(1, RECIPIENT, STRANGER),
        Err(Error::UnauthorizedAccess)
    );
}

#[test]
fn admin_registry_is_set_at_most_once() {
    let mut registry = VaultixEscrow::new();
    assert_eq!(registry.get_admin(), Err(Error::AdminNotInitialized));
    assert_eq!(registry.init(ADMIN, STRANGER), Err(Error::UnauthorizedAccess));
    registry.init(ADMIN, ADMIN).unwrap();
    assert_eq!(registry.get_admin(), Ok(ADMIN));
    assert_eq!(registry.init(STRANGER, STRANGER), Err(Error::AlreadyInitialized));
    assert_eq!(registry.get_admin(), Ok(ADMIN));
}

#[test]
fn resolution_requires_admin_and_dispute() {
    let mut registry = VaultixEscrow::new();
    fresh_escrow(&mut registry, 1, &[500]);

    // No admin registered yet.
    assert_eq!(
        registry.resolve_dispute(1, RECIPIENT, ADMIN),
        Err(Error::AdminNotInitialized)
    );

    registry.init(ADMIN, ADMIN).unwrap();

    // The escrow is active, not in dispute.
    assert_eq!(
        registry.resolve_dispute(1, RECIPIENT, ADMIN),
        Err(Error::InvalidEscrowStatus)
    );

    registry.raise_dispute(1, DEPOSITOR).unwrap();

    // The winner must be one of the two parties.
    assert_eq!(registry.resolve_dispute(1, STRANGER, ADMIN), Err(Error::InvalidWinner));
    assert_eq!(registry.resolve_dispute(1, ADMIN, ADMIN), Err(Error::InvalidWinner));
}

#[test]
fn missing_escrows_are_reported() {
    let mut registry = VaultixEscrow::new();
    registry.init(ADMIN, ADMIN).unwrap();
    assert_eq!(registry.get_escrow(42).err(), Some(Error::EscrowNotFound));
    assert_eq!(registry.release_milestone(42, 0, DEPOSITOR), Err(Error::EscrowNotFound));
    assert_eq!(registry.raise_dispute(42, DEPOSITOR), Err(Error::EscrowNotFound));
    assert_eq!(registry.resolve_dispute(42, RECIPIENT, ADMIN), Err(Error::EscrowNotFound));
    assert_eq!(registry.cancel_escrow(42, DEPOSITOR), Err(Error::EscrowNotFound));
    assert_eq!(registry.complete_escrow(42, DEPOSITOR), Err(Error::EscrowNotFound));
}

#[test]
fn milestone_bounds_and_amounts_are_validated() {
    let mut registry = VaultixEscrow::new();

    // An empty schedule is rejected.
    assert_eq!(
        registry.create_escrow(1, DEPOSITOR, RECIPIENT, Vec::new(), DEPOSITOR),
        Err(Error::VectorTooLarge)
    );

    // Twenty milestones are the maximum and are accepted.
    let mut twenty = Vec::new();
    for i in 0..20 {
        twenty.push(tranche(50, &format!("T{}", i)));
    }
    registry
        .create_escrow(1, DEPOSITOR, RECIPIENT, twenty, DEPOSITOR)
        .unwrap();
    assert_eq!(registry.get_escrow(1).unwrap().total_amount, 1000);

    // A negative amount is rejected.
    assert_eq!(
        registry.create_escrow(2, DEPOSITOR, RECIPIENT, vec![tranche(-5, "Bad")], DEPOSITOR),
        Err(Error::InvalidMilestoneAmount)
    );

    // A schedule whose total overflows the integer domain is rejected.
    assert_eq!(
        registry.create_escrow(
            3,
            DEPOSITOR,
            RECIPIENT,
            vec![tranche(i128::MAX, "Huge"), tranche(1, "Tiny")],
            DEPOSITOR,
        ),
        Err(Error::InvalidMilestoneAmount)
    );

    // A single milestone of the largest amount is fine.
    registry
        .create_escrow(4, DEPOSITOR, RECIPIENT, vec![tranche(i128::MAX, "Whole")], DEPOSITOR)
        .unwrap();
    assert_eq!(registry.get_escrow(4).unwrap().total_amount, i128::MAX);
}

#[test]
fn release_index_must_be_in_bounds() {
    let mut registry = VaultixEscrow::new();
    fresh_escrow(&mut registry, 1, &[100, 200]);
    assert_eq!(registry.release_milestone(1, 2, DEPOSITOR), Err(Error::MilestoneNotFound));
    assert_eq!(registry.release_milestone(1, u32::MAX, DEPOSITOR), Err(Error::MilestoneNotFound));
}

#[test]
fn cancel_is_blocked_after_a_payout() {
    let mut registry = VaultixEscrow::new();
    fresh_escrow(&mut registry, 1, &[100, 200]);
    registry.release_milestone(1, 0, DEPOSITOR).unwrap();
    assert_eq!(registry.cancel_escrow(1, DEPOSITOR), Err(Error::MilestoneAlreadyReleased));
    assert_eq!(registry.get_escrow(1).unwrap().status, EscrowStatus::Active);
}

#[test]
fn complete_needs_every_milestone_released() {
    let mut registry = VaultixEscrow::new();
    fresh_escrow(&mut registry, 1, &[100, 200]);
    registry.release_milestone(1, 0, DEPOSITOR).unwrap();
    assert_eq!(registry.complete_escrow(1, DEPOSITOR), Err(Error::EscrowNotActive));
    registry.release_milestone(1, 1, DEPOSITOR).unwrap();
    registry.complete_escrow(1, DEPOSITOR).unwrap();
    assert_eq!(registry.get_escrow(1).unwrap().status, EscrowStatus::Completed);
}

#[test]
fn raise_dispute_twice_is_rejected() {
    let mut registry = VaultixEscrow::new();
    fresh_escrow(&mut registry, 1, &[100]);
    registry.raise_dispute(1, RECIPIENT).unwrap();
    assert_eq!(registry.raise_dispute(1, DEPOSITOR), Err(Error::AlreadyInDispute));
}

#[test]
fn creation_forces_milestones_to_pending() {
    let mut registry = VaultixEscrow::new();
    let supplied = vec![
        Milestone {
            amount: 10,
            status: MilestoneStatus::Released,
            description: String::from("Sneaky"),
        },
        Milestone {
            amount: 20,
            status: MilestoneStatus::Disputed,
            description: String::from("Odd"),
        },
    ];
    registry
        .create_escrow(1, DEPOSITOR, RECIPIENT, supplied, DEPOSITOR)
        .unwrap();
    let escrow = registry.get_escrow(1).unwrap();
    assert_eq!(escrow.total_released, 0);
    assert_eq!(escrow.resolution, Resolution::Unresolved);
    for m in escrow.milestones.iter() {
        assert_eq!(m.status, MilestoneStatus::Pending);
    }
    assert_eq!(escrow.milestones[0].description, "Sneaky");
    assert_eq!(escrow.milestones[1].description, "Odd");
}
