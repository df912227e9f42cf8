//! Properties of the state machine over sequences of operations.
use vstd::prelude::*;
use crate::identity::Identity;
use crate::accounts::{CustomError, EscrowStatus, REFUND_TIMEOUT_SECS};
use crate::governance::remove_approver_result;
use crate::engine::{
    approve_result, approve_step, deposit_step, emergency_refund_result, emergency_refund_step,
    release_result,
    resolve_dispute_result, resolve_dispute_step, vaults_progress, EscrowEngine,
};
use crate::ledger::{credit_total, held_total, lemma_vault_at, votes_for};

verus! {

/// Progress of vault statuses composes over a sequence of operations.
pub proof fn lemma_progress_transitive(a: EscrowEngine, b: EscrowEngine, c: EscrowEngine)
    requires
        vaults_progress(a, b),
        vaults_progress(b, c),
    ensures
        vaults_progress(a, c),
{
    assert forall|id: u64| #[trigger] a.vault(id) is Some implies c.vault(id) is Some && (
    a.vault(id)->0.status == c.vault(id)->0.status || a.vault(id)->0.status
        == EscrowStatus::Deposited) by {
        assert(b.vault(id) is Some);
    }
}

/// Once a vault is released or refunded its status never changes again: it
/// can be neither reversed nor moved to the other terminal status.
pub proof fn lemma_terminal_status_kept(a: EscrowEngine, b: EscrowEngine, id: u64)
    requires
        vaults_progress(a, b),
        a.vault(id) is Some,
        a.vault(id)->0.status != EscrowStatus::Deposited,
    ensures
        b.vault(id) is Some,
        b.vault(id)->0.status == a.vault(id)->0.status,
{
    assert(a.vault(id) is Some);
}

/// No value is created or destroyed: what the vaults hold plus everything
/// paid out of them equals everything ever deposited.
pub proof fn lemma_conservation(e: EscrowEngine)
    requires
        e.wf(),
    ensures
        held_total(e.escrows@) + credit_total(e.credits@) == e.state.total_escrowed,
{
}

/// No approver holds two approval records for one vulnerability id.
pub proof fn lemma_one_record_per_vote(e: EscrowEngine, i: int, j: int)
    requires
        e.wf(),
        0 <= i < e.approvals@.len(),
        0 <= j < e.approvals@.len(),
        i != j,
    ensures
        !(e.approvals@[i].vuln_id == e.approvals@[j].vuln_id && e.approvals@[i].approver
            == e.approvals@[j].approver),
{
}

/// A vault's approval count is the number of approval records filed for it,
/// each from a distinct approver.
pub proof fn lemma_count_is_votes(e: EscrowEngine, vuln_id: u64)
    requires
        e.wf(),
        e.vault(vuln_id) is Some,
    ensures
        e.vault(vuln_id)->0.approval_count == votes_for(e.approvals@, vuln_id),
{
    let i = choose|i: int| 0 <= i < e.escrows@.len() && e.escrows@[i].vuln_id == vuln_id;
    lemma_vault_at(e.escrows@, i);
}

/// After an approver's vote is recorded, the same approver cannot vote on
/// that vault again.
pub proof fn lemma_second_vote_fails(
    pre: EscrowEngine,
    post: EscrowEngine,
    approver: Identity,
    vuln_id: u64,
    now: i64,
)
    requires
        pre.wf(),
        approve_step(pre, post, approver, vuln_id, now, Ok(())),
    ensures
        approve_result(post, approver, vuln_id) is Err,
{
    let n = pre.approvals@.len() as int;
    assert(post.approvals@[n].vuln_id == vuln_id && post.approvals@[n].approver == approver);
    assert(post.approved(vuln_id, approver));
}

/// The vote that reaches the threshold releases the vault and pays its amount
/// to the researcher; from then on every approval fails with `InvalidStatus`,
/// and no other path can pay it again.
pub proof fn lemma_release_once(
    pre: EscrowEngine,
    post: EscrowEngine,
    approver: Identity,
    vuln_id: u64,
    now: i64,
    other: Identity,
    later: i64,
)
    requires
        pre.wf(),
        approve_step(pre, post, approver, vuln_id, now, Ok(())),
        pre.vault(vuln_id)->0.approval_count + 1 >= pre.state.approval_threshold,
    ensures
        post.vault(vuln_id)->0.status == EscrowStatus::Released,
        post.credited(pre.vault(vuln_id)->0.researcher) == pre.credited(
            pre.vault(vuln_id)->0.researcher,
        ) + pre.vault(vuln_id)->0.amount,
        approve_result(post, other, vuln_id) == Err::<(), CustomError>(CustomError::InvalidStatus),
        release_result(post, other, vuln_id) is Err,
        resolve_dispute_result(post, other, vuln_id) is Err,
        emergency_refund_result(post, vuln_id, later) == Err::<(), CustomError>(
            CustomError::InvalidStatus,
        ),
{
}

/// An approval below the threshold leaves the vault deposited, holding its
/// amount, and pays no one.
pub proof fn lemma_below_threshold_holds(
    pre: EscrowEngine,
    post: EscrowEngine,
    approver: Identity,
    vuln_id: u64,
    now: i64,
)
    requires
        pre.wf(),
        approve_step(pre, post, approver, vuln_id, now, Ok(())),
        pre.vault(vuln_id)->0.approval_count + 1 < pre.state.approval_threshold,
    ensures
        post.vault(vuln_id)->0.status == EscrowStatus::Deposited,
        post.vault(vuln_id)->0.approval_count == pre.vault(vuln_id)->0.approval_count + 1,
        post.vault(vuln_id)->0.balance == pre.vault(vuln_id)->0.amount,
        forall|w: Identity| #[trigger] post.credited(w) == pre.credited(w),
{
}

/// A disputed vault can be neither released by the registry nor approved.
pub proof fn lemma_dispute_blocks(e: EscrowEngine, vuln_id: u64, caller: Identity)
    requires
        e.wf(),
        e.vault(vuln_id) is Some,
        e.vault(vuln_id)->0.is_disputed,
    ensures
        release_result(e, caller, vuln_id) is Err,
        caller == e.state.vulnerability_registry ==> release_result(e, caller, vuln_id)
            == Err::<(), CustomError>(CustomError::Disputed),
        approve_result(e, caller, vuln_id) == Err::<(), CustomError>(CustomError::Disputed),
{
    let i = choose|i: int| 0 <= i < e.escrows@.len() && e.escrows@[i].vuln_id == vuln_id;
    assert(e.escrows@[i] == e.vault(vuln_id)->0);
}

/// Resolving a dispute against the researcher refunds the vault's amount to
/// the registry and pays the researcher nothing (when the researcher is not
/// the registry itself).
pub proof fn lemma_rejection_never_pays_researcher(
    pre: EscrowEngine,
    post: EscrowEngine,
    caller: Identity,
    vuln_id: u64,
    now: i64,
)
    requires
        pre.wf(),
        resolve_dispute_step(pre, post, caller, vuln_id, false, now, Ok(())),
        pre.vault(vuln_id)->0.researcher != pre.state.vulnerability_registry,
    ensures
        post.vault(vuln_id)->0.status == EscrowStatus::Refunded,
        post.credited(pre.vault(vuln_id)->0.researcher) == pre.credited(
            pre.vault(vuln_id)->0.researcher,
        ),
        post.credited(pre.state.vulnerability_registry) == pre.credited(
            pre.state.vulnerability_registry,
        ) + pre.vault(vuln_id)->0.amount,
{
}

/// The emergency refund is refused before `deposit_time + REFUND_TIMEOUT_SECS`
/// and allowed from that second on.
pub proof fn lemma_refund_timeout(e: EscrowEngine, vuln_id: u64, now: i64)
    requires
        e.vault(vuln_id) is Some,
        e.vault(vuln_id)->0.status == EscrowStatus::Deposited,
    ensures
        emergency_refund_result(e, vuln_id, now) is Ok <==> now >= e.vault(vuln_id)->0.deposit_time
            + REFUND_TIMEOUT_SECS,
        now == e.vault(vuln_id)->0.deposit_time + REFUND_TIMEOUT_SECS - 1
            ==> emergency_refund_result(e, vuln_id, now) == Err::<(), CustomError>(
            CustomError::TimeoutNotReached,
        ),
{
}

/// A second deposit for an existing vulnerability id is refused and changes
/// nothing, whatever the status of the existing vault.
pub proof fn lemma_redeposit_refused(
    pre: EscrowEngine,
    post: EscrowEngine,
    researcher: Identity,
    vuln_id: u64,
    amount: u64,
    now: i64,
    r: Result<(), CustomError>,
)
    requires
        deposit_step(pre, post, researcher, vuln_id, amount, now, r),
        amount > 0,
        pre.vault(vuln_id) is Some,
    ensures
        r == Err::<(), CustomError>(CustomError::EscrowExists),
        post == pre,
{
}

/// While a vault is deposited it holds exactly its amount.
pub proof fn lemma_deposited_holds_amount(e: EscrowEngine, vuln_id: u64)
    requires
        e.wf(),
        e.vault(vuln_id) is Some,
        e.vault(vuln_id)->0.status == EscrowStatus::Deposited,
    ensures
        e.vault(vuln_id)->0.balance == e.vault(vuln_id)->0.amount,
{
    let i = choose|i: int| 0 <= i < e.escrows@.len() && e.escrows@[i].vuln_id == vuln_id;
    lemma_vault_at(e.escrows@, i);
}

/// The approver roster is never empty and holds no identity twice.
pub proof fn lemma_roster_never_empty(e: EscrowEngine)
    requires
        e.wf(),
    ensures
        e.state.approvers@.len() > 0,
        e.state.approvers@.no_duplicates(),
{
}

/// Removing the sole approver is refused.
pub proof fn lemma_last_approver_stays(e: EscrowEngine, approver: Identity)
    requires
        e.state.approvers@ == seq![approver],
    ensures
        remove_approver_result(e, e.state.admin, approver) == Err::<(), CustomError>(
            CustomError::LastApprover,
        ),
{
    assert(e.state.approvers@[0] == approver);
}

/// A timeout refund pays the vault's amount to its researcher and ends it
/// refunded.
pub proof fn lemma_timeout_refund_pays_researcher(
    pre: EscrowEngine,
    post: EscrowEngine,
    vuln_id: u64,
    now: i64,
)
    requires
        pre.wf(),
        emergency_refund_step(pre, post, vuln_id, now, Ok(())),
    ensures
        post.vault(vuln_id)->0.status == EscrowStatus::Refunded,
        post.vault(vuln_id)->0.balance == 0,
        post.credited(pre.vault(vuln_id)->0.researcher) == pre.credited(
            pre.vault(vuln_id)->0.researcher,
        ) + pre.vault(vuln_id)->0.amount,
{
}

} // verus!
