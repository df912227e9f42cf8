use bounty_escrow::accounts::{
    BountyDeposited, BountyRefunded, BountyReleased, CustomError, DisputeResolved, EscrowEvent,
    EscrowStatus, DEFAULT_APPROVAL_THRESHOLD, REFUND_TIMEOUT_SECS,
};
use bounty_escrow::engine::{
    approve_bounty_release, deposit_bounty, emergency_refund, emergency_withdraw, raise_dispute,
    release_bounty, resolve_dispute, EscrowEngine,
};
use bounty_escrow::governance::{add_approver, initialize, pause, remove_approver, set_registry};
use bounty_escrow::identity::Identity;

fn id(n: u128) -> Identity {
    Identity::new(0, n)
}

const ADMIN: u128 = 1;
const REGISTRY: u128 = 2;
const A1: u128 = 11;
const A2: u128 = 12;
const A3: u128 = 13;
const RESEARCHER: u128 = 100;

/// Admin 1, registry 2, approvers 11 and 12 besides the admin.
fn program() -> EscrowEngine {
    let mut e = initialize(id(ADMIN));
    set_registry(&mut e, id(ADMIN), id(REGISTRY)).unwrap();
    add_approver(&mut e, id(ADMIN), id(A1)).unwrap();
    add_approver(&mut e, id(ADMIN), id(A2)).unwrap();
    e
}

fn held_plus_paid(e: &EscrowEngine) -> u128 {
    let held: u128 = e.escrows.iter().map(|v| v.balance as u128).sum();
    let paid: u128 = e.credits.iter().map(|c| c.amount as u128).sum();
    held + paid
}

#[test]
fn initialize_sets_defaults() {
    let e = initialize(id(ADMIN));
    assert_eq!(e.state.admin, id(ADMIN));
    assert_eq!(e.state.vulnerability_registry, Identity::zero());
    assert_eq!(e.state.vulnerability_registry, Identity::default());
    assert_eq!(e.state.approvers, vec![id(ADMIN)]);
    assert!(!e.state.paused);
    assert_eq!(e.state.approval_threshold, 2);
    assert_eq!(DEFAULT_APPROVAL_THRESHOLD, 2);
    assert_eq!(e.state.total_escrowed, 0);
    assert!(e.escrows.is_empty());
}

#[test]
fn deposit_opens_vault() {
    let mut e = program();
    assert_eq!(deposit_bounty(&mut e, id(RESEARCHER), 7, 1000, 50), Ok(()));
    let v = e.escrow(7).unwrap();
    assert_eq!(v.vuln_id, 7);
    assert_eq!(v.researcher, id(RESEARCHER));
    assert_eq!(v.amount, 1000);
    assert_eq!(v.balance, 1000);
    assert_eq!(v.deposit_time, 50);
    assert_eq!(v.status, EscrowStatus::Deposited);
    assert_eq!(v.approval_count, 0);
    assert!(!v.is_disputed);
    assert_eq!(e.state.total_escrowed, 1000);
    assert_eq!(
        e.events.last(),
        Some(&EscrowEvent::Deposited(BountyDeposited { vuln_id: 7, researcher: id(RESEARCHER), amount: 1000 }))
    );
}

#[test]
fn deposit_zero_is_invalid_amount() {
    let mut e = program();
    assert_eq!(deposit_bounty(&mut e, id(RESEARCHER), 7, 0, 0), Err(CustomError::InvalidAmount));
    assert_eq!(e.escrow(7), None);
    assert_eq!(e.state.total_escrowed, 0);
}

#[test]
fn second_deposit_for_same_id_is_rejected() {
    let mut e = program();
    deposit_bounty(&mut e, id(RESEARCHER), 7, 1000, 0).unwrap();
    assert_eq!(deposit_bounty(&mut e, id(A3), 7, 5, 0), Err(CustomError::EscrowExists));
    let v = e.escrow(7).unwrap();
    assert_eq!(v.amount, 1000);
    assert_eq!(v.researcher, id(RESEARCHER));
    assert_eq!(e.state.total_escrowed, 1000);
}

#[test]
fn deposit_of_largest_amount() {
    let mut e = program();
    deposit_bounty(&mut e, id(RESEARCHER), 1, u64::MAX, 0).unwrap();
    assert_eq!(e.state.total_escrowed, u64::MAX);
    release_bounty(&mut e, id(REGISTRY), 1, 9).unwrap();
    assert_eq!(e.credited_to(id(RESEARCHER)), u64::MAX);
}

#[test]
fn multisig_release_pays_researcher() {
    let mut e = program();
    deposit_bounty(&mut e, id(RESEARCHER), 7, 1000, 0).unwrap();
    assert_eq!(approve_bounty_release(&mut e, id(A1), 7, 10), Ok(()));
    let v = e.escrow(7).unwrap();
    assert_eq!(v.approval_count, 1);
    assert_eq!(v.status, EscrowStatus::Deposited);
    assert_eq!(e.credited_to(id(RESEARCHER)), 0);
    assert_eq!(approve_bounty_release(&mut e, id(A2), 7, 20), Ok(()));
    let v = e.escrow(7).unwrap();
    assert_eq!(v.status, EscrowStatus::Released);
    assert_eq!(v.approval_count, 2);
    assert_eq!(v.balance, 0);
    assert_eq!(v.release_time, 20);
    assert_eq!(e.credited_to(id(RESEARCHER)), 1000);
    assert_eq!(
        e.events.last(),
        Some(&EscrowEvent::Released(BountyReleased { vuln_id: 7, researcher: id(RESEARCHER), amount: 1000 }))
    );
}

#[test]
fn approval_after_release_is_invalid_status() {
    let mut e = program();
    deposit_bounty(&mut e, id(RESEARCHER), 7, 1000, 0).unwrap();
    approve_bounty_release(&mut e, id(A1), 7, 1).unwrap();
    approve_bounty_release(&mut e, id(A2), 7, 2).unwrap();
    assert_eq!(approve_bounty_release(&mut e, id(ADMIN), 7, 3), Err(CustomError::InvalidStatus));
    assert_eq!(release_bounty(&mut e, id(REGISTRY), 7, 3), Err(CustomError::InvalidStatus));
    assert_eq!(emergency_refund(&mut e, 7, i64::MAX), Err(CustomError::InvalidStatus));
    assert_eq!(resolve_dispute(&mut e, id(REGISTRY), 7, true, 3), Err(CustomError::NoActiveDispute));
    assert_eq!(e.credited_to(id(RESEARCHER)), 1000);
    assert_eq!(e.escrow(7).unwrap().approval_count, 2);
}

#[test]
fn same_approver_cannot_vote_twice() {
    let mut e = program();
    deposit_bounty(&mut e, id(RESEARCHER), 7, 1000, 0).unwrap();
    approve_bounty_release(&mut e, id(A1), 7, 1).unwrap();
    assert!(e.has_approved(7, id(A1)));
    assert_eq!(approve_bounty_release(&mut e, id(A1), 7, 2), Err(CustomError::AlreadyApproved));
    assert_eq!(e.escrow(7).unwrap().approval_count, 1);
    assert_eq!(e.approvals.len(), 1);
    assert_eq!(e.escrow(7).unwrap().status, EscrowStatus::Deposited);
}

#[test]
fn vote_on_one_vault_does_not_count_for_another() {
    let mut e = program();
    deposit_bounty(&mut e, id(RESEARCHER), 7, 1000, 0).unwrap();
    deposit_bounty(&mut e, id(RESEARCHER), 8, 300, 0).unwrap();
    approve_bounty_release(&mut e, id(A1), 7, 1).unwrap();
    assert_eq!(approve_bounty_release(&mut e, id(A1), 8, 1), Ok(()));
    assert!(e.has_approved(8, id(A1)));
    assert!(!e.has_approved(8, id(A2)));
    assert_eq!(e.escrow(8).unwrap().approval_count, 1);
}

#[test]
fn stranger_cannot_approve() {
    let mut e = program();
    deposit_bounty(&mut e, id(RESEARCHER), 7, 1000, 0).unwrap();
    assert_eq!(approve_bounty_release(&mut e, id(A3), 7, 1), Err(CustomError::NotApprover));
    assert_eq!(e.escrow(7).unwrap().approval_count, 0);
}

#[test]
fn approve_unknown_vault_is_not_found() {
    let mut e = program();
    assert_eq!(approve_bounty_release(&mut e, id(A1), 3, 1), Err(CustomError::EscrowNotFound));
    assert_eq!(release_bounty(&mut e, id(REGISTRY), 3, 1), Err(CustomError::EscrowNotFound));
    assert_eq!(raise_dispute(&mut e, id(A1), 3), Err(CustomError::EscrowNotFound));
    assert_eq!(resolve_dispute(&mut e, id(REGISTRY), 3, true, 1), Err(CustomError::EscrowNotFound));
    assert_eq!(emergency_refund(&mut e, 3, 1), Err(CustomError::EscrowNotFound));
}

#[test]
fn registry_release_pays_researcher() {
    let mut e = program();
    deposit_bounty(&mut e, id(RESEARCHER), 5, 250, 0).unwrap();
    assert_eq!(release_bounty(&mut e, id(REGISTRY), 5, 77), Ok(()));
    let v = e.escrow(5).unwrap();
    assert_eq!(v.status, EscrowStatus::Released);
    assert_eq!(v.release_time, 77);
    assert_eq!(v.balance, 0);
    assert_eq!(e.credited_to(id(RESEARCHER)), 250);
    assert_eq!(e.credited_to(id(REGISTRY)), 0);
}

#[test]
fn release_by_other_identity_is_unauthorized() {
    let mut e = program();
    deposit_bounty(&mut e, id(RESEARCHER), 5, 250, 0).unwrap();
    assert_eq!(release_bounty(&mut e, id(A1), 5, 1), Err(CustomError::UnauthorizedRegistry));
    assert_eq!(e.escrow(5).unwrap().status, EscrowStatus::Deposited);
    assert_eq!(e.credited_to(id(RESEARCHER)), 0);
}

#[test]
fn dispute_then_reject_refunds_registry() {
    let mut e = program();
    deposit_bounty(&mut e, id(RESEARCHER), 9, 500, 0).unwrap();
    assert_eq!(raise_dispute(&mut e, id(A1), 9), Ok(()));
    assert_eq!(approve_bounty_release(&mut e, id(A2), 9, 1), Err(CustomError::Disputed));
    assert_eq!(resolve_dispute(&mut e, id(REGISTRY), 9, false, 2), Ok(()));
    let v = e.escrow(9).unwrap();
    assert_eq!(v.status, EscrowStatus::Refunded);
    assert_eq!(v.balance, 0);
    assert!(!v.is_disputed);
    assert_eq!(e.credited_to(id(REGISTRY)), 500);
    assert_eq!(e.credited_to(id(RESEARCHER)), 0);
    let n = e.events.len();
    assert_eq!(
        e.events[n - 2],
        EscrowEvent::Refunded(BountyRefunded { vuln_id: 9, researcher: id(RESEARCHER), amount: 500 })
    );
    assert_eq!(e.events[n - 1], EscrowEvent::Resolved(DisputeResolved { vuln_id: 9, approved: false }));
}

#[test]
fn dispute_blocks_release_and_keeps_count() {
    let mut e = program();
    deposit_bounty(&mut e, id(RESEARCHER), 9, 500, 0).unwrap();
    approve_bounty_release(&mut e, id(A1), 9, 1).unwrap();
    raise_dispute(&mut e, id(A2), 9).unwrap();
    assert_eq!(release_bounty(&mut e, id(REGISTRY), 9, 2), Err(CustomError::Disputed));
    assert_eq!(approve_bounty_release(&mut e, id(A2), 9, 2), Err(CustomError::Disputed));
    let v = e.escrow(9).unwrap();
    assert!(v.is_disputed);
    assert_eq!(v.approval_count, 1);
    assert_eq!(v.status, EscrowStatus::Deposited);
}

#[test]
fn dispute_resolved_in_favour_pays_researcher() {
    let mut e = program();
    deposit_bounty(&mut e, id(RESEARCHER), 9, 500, 0).unwrap();
    raise_dispute(&mut e, id(A1), 9).unwrap();
    assert_eq!(resolve_dispute(&mut e, id(REGISTRY), 9, true, 30), Ok(()));
    let v = e.escrow(9).unwrap();
    assert_eq!(v.status, EscrowStatus::Released);
    assert_eq!(v.release_time, 30);
    assert_eq!(e.credited_to(id(RESEARCHER)), 500);
    assert_eq!(e.credited_to(id(REGISTRY)), 0);
    assert_eq!(e.events.last(), Some(&EscrowEvent::Resolved(DisputeResolved { vuln_id: 9, approved: true })));
}

#[test]
fn dispute_errors() {
    let mut e = program();
    deposit_bounty(&mut e, id(RESEARCHER), 9, 500, 0).unwrap();
    assert_eq!(raise_dispute(&mut e, id(A3), 9), Err(CustomError::NotApprover));
    assert_eq!(resolve_dispute(&mut e, id(REGISTRY), 9, true, 1), Err(CustomError::NoActiveDispute));
    raise_dispute(&mut e, id(A1), 9).unwrap();
    assert_eq!(raise_dispute(&mut e, id(A2), 9), Err(CustomError::AlreadyDisputed));
    assert_eq!(resolve_dispute(&mut e, id(A1), 9, true, 1), Err(CustomError::UnauthorizedRegistry));
    resolve_dispute(&mut e, id(REGISTRY), 9, true, 1).unwrap();
    assert_eq!(raise_dispute(&mut e, id(A1), 9), Err(CustomError::InvalidStatus));
}

#[test]
fn emergency_refund_boundary() {
    let mut e = program();
    deposit_bounty(&mut e, id(RESEARCHER), 4, 800, 1_000).unwrap();
    let due = 1_000 + REFUND_TIMEOUT_SECS;
    assert_eq!(REFUND_TIMEOUT_SECS, 180 * 24 * 60 * 60);
    assert_eq!(emergency_refund(&mut e, 4, due - 1), Err(CustomError::TimeoutNotReached));
    assert_eq!(e.escrow(4).unwrap().status, EscrowStatus::Deposited);
    assert_eq!(emergency_refund(&mut e, 4, due), Ok(()));
    let v = e.escrow(4).unwrap();
    assert_eq!(v.status, EscrowStatus::Refunded);
    assert_eq!(v.balance, 0);
    assert_eq!(e.credited_to(id(RESEARCHER)), 800);
    assert_eq!(emergency_refund(&mut e, 4, due), Err(CustomError::InvalidStatus));
}

#[test]
fn emergency_refund_ignores_dispute() {
    let mut e = program();
    deposit_bounty(&mut e, id(RESEARCHER), 4, 800, 0).unwrap();
    raise_dispute(&mut e, id(A1), 4).unwrap();
    assert_eq!(emergency_refund(&mut e, 4, REFUND_TIMEOUT_SECS), Ok(()));
    let v = e.escrow(4).unwrap();
    assert_eq!(v.status, EscrowStatus::Refunded);
    assert!(!v.is_disputed);
    assert_eq!(resolve_dispute(&mut e, id(REGISTRY), 4, true, 1), Err(CustomError::NoActiveDispute));
    assert_eq!(e.credited_to(id(RESEARCHER)), 800);
}

#[test]
fn emergency_refund_near_end_of_time() {
    let mut e = program();
    deposit_bounty(&mut e, id(RESEARCHER), 4, 800, i64::MAX - 5).unwrap();
    assert_eq!(emergency_refund(&mut e, 4, i64::MAX), Err(CustomError::TimeoutNotReached));
}

#[test]
fn value_is_conserved() {
    let mut e = program();
    deposit_bounty(&mut e, id(RESEARCHER), 1, 1000, 0).unwrap();
    deposit_bounty(&mut e, id(A3), 2, 500, 0).unwrap();
    deposit_bounty(&mut e, id(RESEARCHER), 3, 70, 0).unwrap();
    deposit_bounty(&mut e, id(A3), 4, 9, 0).unwrap();
    assert_eq!(held_plus_paid(&e), 1579);
    approve_bounty_release(&mut e, id(A1), 1, 1).unwrap();
    approve_bounty_release(&mut e, id(A2), 1, 1).unwrap();
    assert_eq!(held_plus_paid(&e), 1579);
    raise_dispute(&mut e, id(A1), 2).unwrap();
    resolve_dispute(&mut e, id(REGISTRY), 2, false, 2).unwrap();
    assert_eq!(held_plus_paid(&e), 1579);
    emergency_refund(&mut e, 3, REFUND_TIMEOUT_SECS).unwrap();
    pause(&mut e, id(ADMIN), true).unwrap();
    emergency_withdraw(&mut e, id(ADMIN), 4).unwrap();
    assert_eq!(held_plus_paid(&e), 1579);
    assert_eq!(e.state.total_escrowed, 1579);
    assert_eq!(e.credited_to(id(RESEARCHER)), 1070);
    assert_eq!(e.credited_to(id(REGISTRY)), 500);
    assert_eq!(e.credited_to(id(ADMIN)), 9);
    assert_eq!(e.credited_to(id(A3)), 0);
}

#[test]
fn emergency_withdraw_needs_pause_and_admin() {
    let mut e = program();
    deposit_bounty(&mut e, id(RESEARCHER), 6, 40, 0).unwrap();
    assert_eq!(emergency_withdraw(&mut e, id(ADMIN), 6), Err(CustomError::NotPaused));
    assert_eq!(pause(&mut e, id(A1), true), Err(CustomError::NotAdmin));
    pause(&mut e, id(ADMIN), true).unwrap();
    assert!(e.state.paused);
    assert_eq!(emergency_withdraw(&mut e, id(A1), 6), Err(CustomError::NotAdmin));
    assert_eq!(emergency_withdraw(&mut e, id(ADMIN), 60), Err(CustomError::EscrowNotFound));
    assert_eq!(emergency_withdraw(&mut e, id(ADMIN), 6), Ok(()));
    let v = e.escrow(6).unwrap();
    assert_eq!(v.balance, 0);
    assert_eq!(v.status, EscrowStatus::Refunded);
    assert_eq!(e.credited_to(id(ADMIN)), 40);
    assert_eq!(release_bounty(&mut e, id(REGISTRY), 6, 1), Err(CustomError::InvalidStatus));
    pause(&mut e, id(ADMIN), false).unwrap();
    assert!(!e.state.paused);
}

#[test]
fn pause_does_not_block_normal_flow() {
    let mut e = program();
    pause(&mut e, id(ADMIN), true).unwrap();
    deposit_bounty(&mut e, id(RESEARCHER), 6, 40, 0).unwrap();
    assert_eq!(release_bounty(&mut e, id(REGISTRY), 6, 1), Ok(()));
}

#[test]
fn roster_changes() {
    let mut e = program();
    assert_eq!(add_approver(&mut e, id(ADMIN), id(A1)), Err(CustomError::AlreadyApprover));
    assert_eq!(add_approver(&mut e, id(A1), id(A3)), Err(CustomError::NotAdmin));
    add_approver(&mut e, id(ADMIN), id(A3)).unwrap();
    assert_eq!(e.state.approvers, vec![id(ADMIN), id(A1), id(A2), id(A3)]);
    assert_eq!(remove_approver(&mut e, id(A1), id(A2)), Err(CustomError::NotAdmin));
    assert_eq!(remove_approver(&mut e, id(ADMIN), id(RESEARCHER)), Err(CustomError::NotApprover));
    remove_approver(&mut e, id(ADMIN), id(A1)).unwrap();
    assert_eq!(e.state.approvers, vec![id(ADMIN), id(A2), id(A3)]);
    deposit_bounty(&mut e, id(RESEARCHER), 7, 10, 0).unwrap();
    assert_eq!(approve_bounty_release(&mut e, id(A1), 7, 1), Err(CustomError::NotApprover));
}

#[test]
fn set_registry_is_admin_only() {
    let mut e = program();
    assert_eq!(set_registry(&mut e, id(A1), id(A1)), Err(CustomError::NotAdmin));
    assert_eq!(e.state.vulnerability_registry, id(REGISTRY));
    set_registry(&mut e, id(ADMIN), id(A3)).unwrap();
    assert_eq!(e.state.vulnerability_registry, id(A3));
    deposit_bounty(&mut e, id(RESEARCHER), 7, 10, 0).unwrap();
    assert_eq!(release_bounty(&mut e, id(REGISTRY), 7, 1), Err(CustomError::UnauthorizedRegistry));
    assert_eq!(release_bounty(&mut e, id(A3), 7, 1), Ok(()));
}

#[test]
fn identities_compare_by_both_words() {
    assert_ne!(Identity::new(1, 5), Identity::new(0, 5));
    assert_ne!(Identity::new(1, 5), Identity::new(1, 6));
    assert_eq!(Identity::new(3, 4), Identity::new(3, 4));
}

#[test]
fn error_messages() {
    assert_eq!(CustomError::InvalidAmount.message(), "Amount must be greater than 0");
    assert_eq!(CustomError::UnauthorizedRegistry.message(), "Unauthorized registry");
    assert_eq!(CustomError::TimeoutNotReached.message(), "Timeout not reached");
}

#[test]
fn sweep_of_released_vault_moves_nothing() {
    let mut e = program();
    deposit_bounty(&mut e, id(RESEARCHER), 6, 40, 0).unwrap();
    release_bounty(&mut e, id(REGISTRY), 6, 1).unwrap();
    pause(&mut e, id(ADMIN), true).unwrap();
    assert_eq!(emergency_withdraw(&mut e, id(ADMIN), 6), Ok(()));
    let v = e.escrow(6).unwrap();
    assert_eq!(v.status, EscrowStatus::Released);
    assert_eq!(e.credited_to(id(ADMIN)), 0);
    assert_eq!(e.credited_to(id(RESEARCHER)), 40);
}

#[test]
fn last_approver_cannot_be_removed() {
    let mut e = initialize(id(ADMIN));
    deposit_bounty(&mut e, id(RESEARCHER), 7, 10, 0).unwrap();
    assert_eq!(remove_approver(&mut e, id(ADMIN), id(ADMIN)), Err(CustomError::LastApprover));
    assert_eq!(e.state.approvers, vec![id(ADMIN)]);
    add_approver(&mut e, id(ADMIN), id(A1)).unwrap();
    assert_eq!(remove_approver(&mut e, id(ADMIN), id(ADMIN)), Ok(()));
    assert_eq!(e.state.approvers, vec![id(A1)]);
    assert_eq!(remove_approver(&mut e, id(ADMIN), id(A1)), Err(CustomError::LastApprover));
    assert_eq!(CustomError::LastApprover.message(), "Cannot remove the last approver");
}
