//! The escrow state machine: deposit, release, multi-party approval,
//! disputes, timeout refund and the admin sweep. Each operation is specified
//! by a step predicate relating the records before and after it.
use vstd::prelude::*;
use crate::identity::Identity;
use crate::accounts::{
    ApprovalRecord, BountyDeposited, BountyEscrowState, BountyRefunded, BountyReleased, Credit,
    CustomError, DisputeRaised, DisputeResolved, EscrowAccount, EscrowEvent, EscrowStatus,
    REFUND_TIMEOUT_SECS,
};
use crate::ledger::{
    add_credit, approved_in, credit_of, credit_total, find_escrow, held_total, ids_unique,
    lemma_credit_nonneg, lemma_held_entry, lemma_held_push, lemma_held_update, lemma_vault_at,
    lemma_vault_push, lemma_vault_update, vault_of, votes_unique, has_approval,
    contains_identity, lemma_vote_push, lemma_held_nonneg, credit_for, has_vault, votes_for,
    lemma_votes_push, lemma_no_votes,
};

verus! {

/// All records of the escrow program: governance state, vaults, approval
/// records, what has been paid out of vaults, and the notifications emitted.
pub struct EscrowEngine {
    pub state: BountyEscrowState,
    pub escrows: Vec<EscrowAccount>,
    pub approvals: Vec<ApprovalRecord>,
    pub credits: Vec<Credit>,
    pub events: Vec<EscrowEvent>,
}

/// The invariant of a single vault under a given approval threshold.
pub open spec fn vault_wf(v: EscrowAccount, threshold: u8) -> bool {
    &&& v.amount > 0
    &&& v.status == EscrowStatus::Deposited ==> v.balance == v.amount
    &&& v.status != EscrowStatus::Deposited ==> v.balance == 0 && !v.is_disputed
    &&& v.status == EscrowStatus::Deposited ==> v.approval_count < threshold
}

/// A vault just funded.
pub open spec fn opened(vuln_id: u64, researcher: Identity, amount: u64, now: i64) -> EscrowAccount {
    EscrowAccount {
        vuln_id,
        researcher,
        amount,
        deposit_time: now,
        release_time: 0,
        status: EscrowStatus::Deposited,
        approval_count: 0,
        is_disputed: false,
        balance: amount,
    }
}

/// The vault after paying its researcher.
pub open spec fn released(v: EscrowAccount, now: i64) -> EscrowAccount {
    EscrowAccount { status: EscrowStatus::Released, release_time: now, balance: 0, is_disputed: false, ..v }
}

/// The vault after a refund.
pub open spec fn refunded(v: EscrowAccount) -> EscrowAccount {
    EscrowAccount { status: EscrowStatus::Refunded, balance: 0, is_disputed: false, ..v }
}

/// The vault after the admin sweep: a deposited vault is refunded, a
/// terminal one already holds nothing.
pub open spec fn swept(v: EscrowAccount) -> EscrowAccount {
    if v.status == EscrowStatus::Deposited {
        refunded(v)
    } else {
        v
    }
}

/// A vault's status may only stay, or leave `Deposited`.
pub open spec fn status_follows(a: EscrowStatus, b: EscrowStatus) -> bool {
    a == b || a == EscrowStatus::Deposited
}

impl EscrowEngine {
    pub open spec fn vault(self, id: u64) -> Option<EscrowAccount> {
        vault_of(self.escrows@, id)
    }

    pub open spec fn approved(self, id: u64, who: Identity) -> bool {
        approved_in(self.approvals@, id, who)
    }

    /// Everything paid out of vaults to `who` so far.
    pub open spec fn credited(self, who: Identity) -> int {
        credit_of(self.credits@, who)
    }

    pub open spec fn is_approver(self, who: Identity) -> bool {
        self.state.approvers@.contains(who)
    }

    pub open spec fn wf(self) -> bool {
        &&& self.state.approval_threshold >= 1
        &&& self.state.approvers@.len() > 0
        &&& self.state.approvers@.no_duplicates()
        &&& ids_unique(self.escrows@)
        &&& votes_unique(self.approvals@)
        &&& forall|i: int|
            0 <= i < self.escrows@.len() ==> vault_wf(
                #[trigger] self.escrows@[i],
                self.state.approval_threshold,
            ) && self.escrows@[i].approval_count == votes_for(
                self.approvals@,
                self.escrows@[i].vuln_id,
            )
        &&& forall|k: int|
            0 <= k < self.approvals@.len() ==> has_vault(
                self.escrows@,
                #[trigger] self.approvals@[k].vuln_id,
            )
        &&& held_total(self.escrows@) + credit_total(self.credits@) == self.state.total_escrowed
    }
}

/// Every vault of `pre` is in `post`, with a status that follows its old one.
pub open spec fn vaults_progress(pre: EscrowEngine, post: EscrowEngine) -> bool {
    forall|id: u64| #[trigger]
        pre.vault(id) is Some ==> post.vault(id) is Some && status_follows(
            pre.vault(id)->0.status,
            post.vault(id)->0.status,
        )
}

/// Vault `id` becomes `v`, `payee` is paid `amount`, and no other vault,
/// credit or governance field changes.
pub open spec fn settles(
    pre: EscrowEngine,
    post: EscrowEngine,
    id: u64,
    v: EscrowAccount,
    payee: Identity,
    amount: int,
) -> bool {
    &&& post.vault(id) == Some(v)
    &&& forall|k: u64| k != id ==> #[trigger] post.vault(k) == pre.vault(k)
    &&& post.state == pre.state
    &&& forall|w: Identity|
        #[trigger] post.credited(w) == pre.credited(w) + if w == payee {
            amount
        } else {
            0
        }
}

// ---- deposit ----

pub open spec fn deposit_result(e: EscrowEngine, vuln_id: u64, amount: u64) -> Result<(), CustomError> {
    if amount == 0 {
        Err(CustomError::InvalidAmount)
    } else if e.vault(vuln_id) is Some {
        Err(CustomError::EscrowExists)
    } else {
        Ok(())
    }
}

pub open spec fn deposit_step(
    pre: EscrowEngine,
    post: EscrowEngine,
    researcher: Identity,
    vuln_id: u64,
    amount: u64,
    now: i64,
    r: Result<(), CustomError>,
) -> bool {
    &&& r == deposit_result(pre, vuln_id, amount)
    &&& r is Err ==> post == pre
    &&& r is Ok ==> {
        &&& post.vault(vuln_id) == Some(opened(vuln_id, researcher, amount, now))
        &&& forall|k: u64| k != vuln_id ==> #[trigger] post.vault(k) == pre.vault(k)
        &&& post.state == (BountyEscrowState {
            total_escrowed: (pre.state.total_escrowed + amount) as u64,
            ..pre.state
        })
        &&& post.approvals@ == pre.approvals@
        &&& post.credits@ == pre.credits@
        &&& post.events@ == pre.events@.push(
            EscrowEvent::Deposited(BountyDeposited { vuln_id, researcher, amount }),
        )
    }
}

/// Opens the vault for `vuln_id` holding `amount`, payable to `researcher`.
pub fn deposit_bounty(
    engine: &mut EscrowEngine,
    researcher: Identity,
    vuln_id: u64,
    amount: u64,
    now: i64,
) -> (r: Result<(), CustomError>)
    requires
        old(engine).wf(),
        deposit_result(*old(engine), vuln_id, amount) is Ok ==> old(engine).state.total_escrowed
            + amount <= u64::MAX,
    ensures
        final(engine).wf(),
        deposit_step(*old(engine), *final(engine), researcher, vuln_id, amount, now, r),
        vaults_progress(*old(engine), *final(engine)),
{
    if amount == 0 {
        return Err(CustomError::InvalidAmount);
    }
    match find_escrow(&engine.escrows, vuln_id) {
        Some(i) => {
            proof {
                lemma_vault_at(engine.escrows@, i as int);
            }
            return Err(CustomError::EscrowExists);
        },
        None => {},
    }
    let v = EscrowAccount {
        vuln_id,
        researcher,
        amount,
        deposit_time: now,
        release_time: 0,
        status: EscrowStatus::Deposited,
        approval_count: 0,
        is_disputed: false,
        balance: amount,
    };
    let ghost pre = *engine;
    proof {
        lemma_vault_push(engine.escrows@, v);
        lemma_held_push(engine.escrows@, v);
        assert forall|k: int| 0 <= k < engine.approvals@.len() implies engine.approvals@[k].vuln_id
            != vuln_id by {
            assert(has_vault(engine.escrows@, engine.approvals@[k].vuln_id));
        }
        lemma_no_votes(engine.approvals@, vuln_id);
    }
    engine.escrows.push(v);
    proof {
        assert forall|k: int| 0 <= k < engine.approvals@.len() implies has_vault(
            engine.escrows@,
            #[trigger] engine.approvals@[k].vuln_id,
        ) by {
            let j = choose|j: int|
                0 <= j < pre.escrows@.len() && pre.escrows@[j].vuln_id == engine.approvals@[k].vuln_id;
            assert(engine.escrows@[j] == pre.escrows@[j]);
        }
        assert forall|j: int| 0 <= j < engine.escrows@.len() implies vault_wf(
            #[trigger] engine.escrows@[j],
            engine.state.approval_threshold,
        ) && engine.escrows@[j].approval_count == votes_for(
            engine.approvals@,
            engine.escrows@[j].vuln_id,
        ) by {
            if j < pre.escrows@.len() {
                assert(engine.escrows@[j] == pre.escrows@[j]);
            }
        }
    }
    engine.state.total_escrowed = engine.state.total_escrowed + amount;
    engine.events.push(EscrowEvent::Deposited(BountyDeposited { vuln_id, researcher, amount }));
    Ok(())
}


impl EscrowEngine {
    /// Replaces vault `i` by `v`, pays what the vault gave up to `payee`, and
    /// files `vote` when the change counts one more approval.
    fn store_vault(&mut self, i: usize, v: EscrowAccount, payee: Identity, vote: Option<ApprovalRecord>)
        requires
            old(self).wf(),
            i < old(self).escrows@.len(),
            v.vuln_id == old(self).escrows@[i as int].vuln_id,
            v.balance <= old(self).escrows@[i as int].balance,
            vault_wf(v, old(self).state.approval_threshold),
            match vote {
                Some(a) => a.vuln_id == v.vuln_id && !old(self).approved(a.vuln_id, a.approver)
                    && v.approval_count == old(self).escrows@[i as int].approval_count + 1,
                None => v.approval_count == old(self).escrows@[i as int].approval_count,
            },
        ensures
            final(self).wf(),
            settles(
                *old(self),
                *final(self),
                v.vuln_id,
                v,
                payee,
                old(self).escrows@[i as int].balance - v.balance,
            ),
            final(self).approvals@ == match vote {
                Some(a) => old(self).approvals@.push(a),
                None => old(self).approvals@,
            },
            final(self).events@ == old(self).events@,
    {
        let ghost pre = *self;
        if let Some(a) = vote {
            proof {
                lemma_vote_push(self.approvals@, a);
                lemma_votes_push(self.approvals@, a);
            }
            self.approvals.push(a);
        }
        let paid = self.escrows[i].balance - v.balance;
        proof {
            lemma_held_entry(self.escrows@, i as int);
            lemma_held_update(self.escrows@, i as int, v);
            lemma_vault_update(self.escrows@, i as int, v);
            lemma_credit_nonneg(self.credits@);
        }
        self.escrows.set(i, v);
        if paid > 0 {
            add_credit(&mut self.credits, payee, paid);
        }
        proof {
            assert forall|j: int| 0 <= j < self.escrows@.len() implies vault_wf(
                #[trigger] self.escrows@[j],
                self.state.approval_threshold,
            ) && self.escrows@[j].approval_count == votes_for(
                self.approvals@,
                self.escrows@[j].vuln_id,
            ) by {
                if j != i {
                    assert(self.escrows@[j] == pre.escrows@[j]);
                    assert(pre.escrows@[j].vuln_id != pre.escrows@[i as int].vuln_id);
                }
            }
            assert forall|k: int| 0 <= k < self.approvals@.len() implies has_vault(
                self.escrows@,
                #[trigger] self.approvals@[k].vuln_id,
            ) by {
                if k < pre.approvals@.len() {
                    assert(self.approvals@[k] == pre.approvals@[k]);
                    assert(has_vault(pre.escrows@, pre.approvals@[k].vuln_id));
                    let j = choose|j: int|
                        0 <= j < pre.escrows@.len() && pre.escrows@[j].vuln_id
                            == pre.approvals@[k].vuln_id;
                    assert(self.escrows@[j].vuln_id == pre.approvals@[k].vuln_id);
                } else {
                    assert(self.escrows@[i as int].vuln_id == self.approvals@[k].vuln_id);
                }
            }
        }
    }
}

/// Locates vault `id`, proving it is the model's vault for that id.
fn locate(engine: &EscrowEngine, id: u64) -> (r: Option<usize>)
    requires
        engine.wf(),
    ensures
        match r {
            Some(i) => i < engine.escrows@.len() && engine.vault(id) == Some(engine.escrows@[i as int]),
            None => engine.vault(id) is None,
        },
{
    let r = find_escrow(&engine.escrows, id);
    proof {
        if let Some(i) = r {
            lemma_vault_at(engine.escrows@, i as int);
        }
    }
    r
}

/// `settles` only reads vaults, credits and governance state.
proof fn lemma_settles_frame(
    pre0: EscrowEngine,
    pre1: EscrowEngine,
    post0: EscrowEngine,
    post1: EscrowEngine,
    id: u64,
    v: EscrowAccount,
    payee: Identity,
    amount: int,
)
    requires
        settles(pre0, post0, id, v, payee, amount),
        pre1.escrows@ == pre0.escrows@,
        pre1.credits@ == pre0.credits@,
        pre1.state == pre0.state,
        post1.escrows@ == post0.escrows@,
        post1.credits@ == post0.credits@,
        post1.state == post0.state,
    ensures
        settles(pre1, post1, id, v, payee, amount),
{
    assert forall|k: u64| k != id implies #[trigger] post1.vault(k) == pre1.vault(k) by {
        assert(post0.vault(k) == pre0.vault(k));
    }
    assert forall|w: Identity|
        #[trigger] post1.credited(w) == pre1.credited(w) + if w == payee {
            amount
        } else {
            0
        } by {
        assert(post0.credited(w) == pre0.credited(w) + if w == payee {
            amount
        } else {
            0
        });
    }
}

// ---- release by the registry ----

pub open spec fn release_result(e: EscrowEngine, caller: Identity, vuln_id: u64) -> Result<(), CustomError> {
    match e.vault(vuln_id) {
        None => Err(CustomError::EscrowNotFound),
        Some(v) => if caller != e.state.vulnerability_registry {
            Err(CustomError::UnauthorizedRegistry)
        } else if v.status != EscrowStatus::Deposited {
            Err(CustomError::InvalidStatus)
        } else if v.is_disputed {
            Err(CustomError::Disputed)
        } else {
            Ok(())
        },
    }
}

pub open spec fn release_step(
    pre: EscrowEngine,
    post: EscrowEngine,
    caller: Identity,
    vuln_id: u64,
    now: i64,
    r: Result<(), CustomError>,
) -> bool {
    &&& r == release_result(pre, caller, vuln_id)
    &&& r is Err ==> post == pre
    &&& r is Ok ==> {
        let v = pre.vault(vuln_id)->0;
        &&& settles(pre, post, vuln_id, released(v, now), v.researcher, v.amount as int)
        &&& post.approvals@ == pre.approvals@
        &&& post.events@ == pre.events@.push(
            EscrowEvent::Released(
                BountyReleased { vuln_id, researcher: v.researcher, amount: v.amount },
            ),
        )
    }
}

/// Pays vault `vuln_id` to its researcher, on the registry's authority.
pub fn release_bounty(engine: &mut EscrowEngine, caller: Identity, vuln_id: u64, now: i64) -> (r:
    Result<(), CustomError>)
    requires
        old(engine).wf(),
    ensures
        final(engine).wf(),
        release_step(*old(engine), *final(engine), caller, vuln_id, now, r),
        vaults_progress(*old(engine), *final(engine)),
{
    let i = match locate(engine, vuln_id) {
        Some(i) => i,
        None => return Err(CustomError::EscrowNotFound),
    };
    let v = engine.escrows[i];
    if caller != engine.state.vulnerability_registry {
        return Err(CustomError::UnauthorizedRegistry);
    }
    if v.status != EscrowStatus::Deposited {
        return Err(CustomError::InvalidStatus);
    }
    if v.is_disputed {
        return Err(CustomError::Disputed);
    }
    let ghost pre = *engine;
    assert(vault_wf(engine.escrows@[i as int], engine.state.approval_threshold));
    let nv = EscrowAccount { status: EscrowStatus::Released, release_time: now, balance: 0, is_disputed: false, ..v };
    engine.store_vault(i, nv, v.researcher, None);
    let ghost mid = *engine;
    engine.events.push(
        EscrowEvent::Released(BountyReleased { vuln_id, researcher: v.researcher, amount: v.amount }),
    );
    proof {
        lemma_settles_frame(pre, pre, mid, *engine, vuln_id, nv, v.researcher, v.amount as int);
    }
    Ok(())
}


// ---- multi-party approval ----

/// The vault with one more approval counted.
pub open spec fn counted(v: EscrowAccount) -> EscrowAccount {
    EscrowAccount { approval_count: (v.approval_count + 1) as u8, ..v }
}

pub open spec fn approve_result(e: EscrowEngine, approver: Identity, vuln_id: u64) -> Result<(), CustomError> {
    match e.vault(vuln_id) {
        None => Err(CustomError::EscrowNotFound),
        Some(v) => if v.status != EscrowStatus::Deposited {
            Err(CustomError::InvalidStatus)
        } else if v.is_disputed {
            Err(CustomError::Disputed)
        } else if !e.is_approver(approver) {
            Err(CustomError::NotApprover)
        } else if e.approved(vuln_id, approver) {
            Err(CustomError::AlreadyApproved)
        } else {
            Ok(())
        },
    }
}

pub open spec fn approve_step(
    pre: EscrowEngine,
    post: EscrowEngine,
    approver: Identity,
    vuln_id: u64,
    now: i64,
    r: Result<(), CustomError>,
) -> bool {
    &&& r == approve_result(pre, approver, vuln_id)
    &&& r is Err ==> post == pre
    &&& r is Ok ==> {
        let v = pre.vault(vuln_id)->0;
        let c = counted(v);
        &&& post.approvals@ == pre.approvals@.push(
            ApprovalRecord { vuln_id, approver, timestamp: now },
        )
        &&& if c.approval_count >= pre.state.approval_threshold {
            &&& settles(pre, post, vuln_id, released(c, now), v.researcher, v.amount as int)
            &&& post.events@ == pre.events@.push(
                EscrowEvent::Released(
                    BountyReleased { vuln_id, researcher: v.researcher, amount: v.amount },
                ),
            )
        } else {
            &&& settles(pre, post, vuln_id, c, v.researcher, 0)
            &&& post.events@ == pre.events@
        }
    }
}

/// Records `approver`'s vote for vault `vuln_id`; the vote that reaches the
/// threshold pays the researcher in the same step.
pub fn approve_bounty_release(
    engine: &mut EscrowEngine,
    approver: Identity,
    vuln_id: u64,
    now: i64,
) -> (r: Result<(), CustomError>)
    requires
        old(engine).wf(),
    ensures
        final(engine).wf(),
        approve_step(*old(engine), *final(engine), approver, vuln_id, now, r),
        vaults_progress(*old(engine), *final(engine)),
{
    let i = match locate(engine, vuln_id) {
        Some(i) => i,
        None => return Err(CustomError::EscrowNotFound),
    };
    let v = engine.escrows[i];
    if v.status != EscrowStatus::Deposited {
        return Err(CustomError::InvalidStatus);
    }
    if v.is_disputed {
        return Err(CustomError::Disputed);
    }
    if !contains_identity(&engine.state.approvers, approver) {
        return Err(CustomError::NotApprover);
    }
    if has_approval(&engine.approvals, vuln_id, approver) {
        return Err(CustomError::AlreadyApproved);
    }
    let ghost pre = *engine;
    let rec = ApprovalRecord { vuln_id, approver, timestamp: now };
    assert(vault_wf(engine.escrows@[i as int], engine.state.approval_threshold));
    let count = v.approval_count + 1;
    let c = EscrowAccount { approval_count: count, ..v };
    if count >= engine.state.approval_threshold {
        let nv = EscrowAccount { status: EscrowStatus::Released, release_time: now, balance: 0, is_disputed: false, ..c };
        engine.store_vault(i, nv, v.researcher, Some(rec));
        let ghost mid = *engine;
        engine.events.push(
            EscrowEvent::Released(BountyReleased { vuln_id, researcher: v.researcher, amount: v.amount }),
        );
        proof {
            lemma_settles_frame(pre, pre, mid, *engine, vuln_id, nv, v.researcher, v.amount as int);
        }
    } else {
        engine.store_vault(i, c, v.researcher, Some(rec));
    }
    Ok(())
}

// ---- disputes ----

pub open spec fn raise_dispute_result(e: EscrowEngine, approver: Identity, vuln_id: u64) -> Result<(), CustomError> {
    match e.vault(vuln_id) {
        None => Err(CustomError::EscrowNotFound),
        Some(v) => if !e.is_approver(approver) {
            Err(CustomError::NotApprover)
        } else if v.is_disputed {
            Err(CustomError::AlreadyDisputed)
        } else if v.status != EscrowStatus::Deposited {
            Err(CustomError::InvalidStatus)
        } else {
            Ok(())
        },
    }
}

pub open spec fn raise_dispute_step(
    pre: EscrowEngine,
    post: EscrowEngine,
    approver: Identity,
    vuln_id: u64,
    r: Result<(), CustomError>,
) -> bool {
    &&& r == raise_dispute_result(pre, approver, vuln_id)
    &&& r is Err ==> post == pre
    &&& r is Ok ==> {
        let v = pre.vault(vuln_id)->0;
        &&& settles(pre, post, vuln_id, EscrowAccount { is_disputed: true, ..v }, v.researcher, 0)
        &&& post.approvals@ == pre.approvals@
        &&& post.events@ == pre.events@.push(
            EscrowEvent::DisputeRaised(DisputeRaised { vuln_id, disputer: approver }),
        )
    }
}

/// Freezes vault `vuln_id` until its dispute is resolved.
pub fn raise_dispute(engine: &mut EscrowEngine, approver: Identity, vuln_id: u64) -> (r: Result<
    (),
    CustomError,
>)
    requires
        old(engine).wf(),
    ensures
        final(engine).wf(),
        raise_dispute_step(*old(engine), *final(engine), approver, vuln_id, r),
        vaults_progress(*old(engine), *final(engine)),
{
    let i = match locate(engine, vuln_id) {
        Some(i) => i,
        None => return Err(CustomError::EscrowNotFound),
    };
    let v = engine.escrows[i];
    if !contains_identity(&engine.state.approvers, approver) {
        return Err(CustomError::NotApprover);
    }
    if v.is_disputed {
        return Err(CustomError::AlreadyDisputed);
    }
    if v.status != EscrowStatus::Deposited {
        return Err(CustomError::InvalidStatus);
    }
    let ghost pre = *engine;
    assert(vault_wf(engine.escrows@[i as int], engine.state.approval_threshold));
    let nv = EscrowAccount { is_disputed: true, ..v };
    engine.store_vault(i, nv, v.researcher, None);
    let ghost mid = *engine;
    engine.events.push(EscrowEvent::DisputeRaised(DisputeRaised { vuln_id, disputer: approver }));
    proof {
        lemma_settles_frame(pre, pre, mid, *engine, vuln_id, nv, v.researcher, 0);
    }
    Ok(())
}

pub open spec fn resolve_dispute_result(e: EscrowEngine, caller: Identity, vuln_id: u64) -> Result<(), CustomError> {
    match e.vault(vuln_id) {
        None => Err(CustomError::EscrowNotFound),
        Some(v) => if caller != e.state.vulnerability_registry {
            Err(CustomError::UnauthorizedRegistry)
        } else if !v.is_disputed {
            Err(CustomError::NoActiveDispute)
        } else {
            Ok(())
        },
    }
}

pub open spec fn resolve_dispute_step(
    pre: EscrowEngine,
    post: EscrowEngine,
    caller: Identity,
    vuln_id: u64,
    approve: bool,
    now: i64,
    r: Result<(), CustomError>,
) -> bool {
    &&& r == resolve_dispute_result(pre, caller, vuln_id)
    &&& r is Err ==> post == pre
    &&& r is Ok ==> {
        let v = pre.vault(vuln_id)->0;
        let resolved = EscrowEvent::Resolved(DisputeResolved { vuln_id, approved: approve });
        &&& post.approvals@ == pre.approvals@
        &&& if approve {
            &&& settles(pre, post, vuln_id, released(v, now), v.researcher, v.amount as int)
            &&& post.events@ == pre.events@.push(
                EscrowEvent::Released(
                    BountyReleased { vuln_id, researcher: v.researcher, amount: v.amount },
                ),
            ).push(resolved)
        } else {
            &&& settles(
                pre,
                post,
                vuln_id,
                refunded(v),
                pre.state.vulnerability_registry,
                v.amount as int,
            )
            &&& post.events@ == pre.events@.push(
                EscrowEvent::Refunded(
                    BountyRefunded { vuln_id, researcher: v.researcher, amount: v.amount },
                ),
            ).push(resolved)
        }
    }
}

/// Ends the dispute on vault `vuln_id`: pays the researcher when `approve`,
/// else refunds the registry.
pub fn resolve_dispute(
    engine: &mut EscrowEngine,
    caller: Identity,
    vuln_id: u64,
    approve: bool,
    now: i64,
) -> (r: Result<(), CustomError>)
    requires
        old(engine).wf(),
    ensures
        final(engine).wf(),
        resolve_dispute_step(*old(engine), *final(engine), caller, vuln_id, approve, now, r),
        vaults_progress(*old(engine), *final(engine)),
{
    let i = match locate(engine, vuln_id) {
        Some(i) => i,
        None => return Err(CustomError::EscrowNotFound),
    };
    let v = engine.escrows[i];
    if caller != engine.state.vulnerability_registry {
        return Err(CustomError::UnauthorizedRegistry);
    }
    if !v.is_disputed {
        return Err(CustomError::NoActiveDispute);
    }
    let ghost pre = *engine;
    assert(vault_wf(engine.escrows@[i as int], engine.state.approval_threshold));
    if approve {
        let nv = EscrowAccount { status: EscrowStatus::Released, release_time: now, balance: 0, is_disputed: false, ..v };
        engine.store_vault(i, nv, v.researcher, None);
        let ghost mid = *engine;
        engine.events.push(
            EscrowEvent::Released(BountyReleased { vuln_id, researcher: v.researcher, amount: v.amount }),
        );
        engine.events.push(EscrowEvent::Resolved(DisputeResolved { vuln_id, approved: true }));
        proof {
            lemma_settles_frame(pre, pre, mid, *engine, vuln_id, nv, v.researcher, v.amount as int);
        }
    } else {
        let registry = engine.state.vulnerability_registry;
        let nv = EscrowAccount { status: EscrowStatus::Refunded, balance: 0, is_disputed: false, ..v };
        engine.store_vault(i, nv, registry, None);
        let ghost mid = *engine;
        engine.events.push(
            EscrowEvent::Refunded(BountyRefunded { vuln_id, researcher: v.researcher, amount: v.amount }),
        );
        engine.events.push(EscrowEvent::Resolved(DisputeResolved { vuln_id, approved: false }));
        proof {
            lemma_settles_frame(pre, pre, mid, *engine, vuln_id, nv, registry, v.amount as int);
        }
    }
    Ok(())
}

// ---- timeout refund ----

pub open spec fn emergency_refund_result(e: EscrowEngine, vuln_id: u64, now: i64) -> Result<(), CustomError> {
    match e.vault(vuln_id) {
        None => Err(CustomError::EscrowNotFound),
        Some(v) => if v.status != EscrowStatus::Deposited {
            Err(CustomError::InvalidStatus)
        } else if now < v.deposit_time + REFUND_TIMEOUT_SECS {
            Err(CustomError::TimeoutNotReached)
        } else {
            Ok(())
        },
    }
}

pub open spec fn emergency_refund_step(
    pre: EscrowEngine,
    post: EscrowEngine,
    vuln_id: u64,
    now: i64,
    r: Result<(), CustomError>,
) -> bool {
    &&& r == emergency_refund_result(pre, vuln_id, now)
    &&& r is Err ==> post == pre
    &&& r is Ok ==> {
        let v = pre.vault(vuln_id)->0;
        &&& settles(pre, post, vuln_id, refunded(v), v.researcher, v.amount as int)
        &&& post.approvals@ == pre.approvals@
        &&& post.events@ == pre.events@.push(
            EscrowEvent::Refunded(
                BountyRefunded { vuln_id, researcher: v.researcher, amount: v.amount },
            ),
        )
    }
}

/// Returns vault `vuln_id` to its researcher once the refund timeout has run,
/// whether or not it is disputed.
pub fn emergency_refund(engine: &mut EscrowEngine, vuln_id: u64, now: i64) -> (r: Result<
    (),
    CustomError,
>)
    requires
        old(engine).wf(),
    ensures
        final(engine).wf(),
        emergency_refund_step(*old(engine), *final(engine), vuln_id, now, r),
        vaults_progress(*old(engine), *final(engine)),
{
    let i = match locate(engine, vuln_id) {
        Some(i) => i,
        None => return Err(CustomError::EscrowNotFound),
    };
    let v = engine.escrows[i];
    if v.status != EscrowStatus::Deposited {
        return Err(CustomError::InvalidStatus);
    }
    if (now as i128) < (v.deposit_time as i128) + (REFUND_TIMEOUT_SECS as i128) {
        return Err(CustomError::TimeoutNotReached);
    }
    let ghost pre = *engine;
    assert(vault_wf(engine.escrows@[i as int], engine.state.approval_threshold));
    let nv = EscrowAccount { status: EscrowStatus::Refunded, balance: 0, is_disputed: false, ..v };
    engine.store_vault(i, nv, v.researcher, None);
    let ghost mid = *engine;
    engine.events.push(
        EscrowEvent::Refunded(BountyRefunded { vuln_id, researcher: v.researcher, amount: v.amount }),
    );
    proof {
        lemma_settles_frame(pre, pre, mid, *engine, vuln_id, nv, v.researcher, v.amount as int);
    }
    Ok(())
}

// ---- admin sweep ----

pub open spec fn emergency_withdraw_result(e: EscrowEngine, caller: Identity, vuln_id: u64) -> Result<(), CustomError> {
    if caller != e.state.admin {
        Err(CustomError::NotAdmin)
    } else if !e.state.paused {
        Err(CustomError::NotPaused)
    } else if e.vault(vuln_id) is None {
        Err(CustomError::EscrowNotFound)
    } else {
        Ok(())
    }
}

pub open spec fn emergency_withdraw_step(
    pre: EscrowEngine,
    post: EscrowEngine,
    caller: Identity,
    vuln_id: u64,
    r: Result<(), CustomError>,
) -> bool {
    &&& r == emergency_withdraw_result(pre, caller, vuln_id)
    &&& r is Err ==> post == pre
    &&& r is Ok ==> {
        let v = pre.vault(vuln_id)->0;
        &&& settles(pre, post, vuln_id, swept(v), pre.state.admin, v.balance as int)
        &&& post.approvals@ == pre.approvals@
        &&& post.events@ == pre.events@
    }
}

/// While paused, sweeps what vault `vuln_id` holds to the admin, whatever its
/// status; a deposited vault ends refunded.
pub fn emergency_withdraw(engine: &mut EscrowEngine, caller: Identity, vuln_id: u64) -> (r: Result<
    (),
    CustomError,
>)
    requires
        old(engine).wf(),
    ensures
        final(engine).wf(),
        emergency_withdraw_step(*old(engine), *final(engine), caller, vuln_id, r),
        vaults_progress(*old(engine), *final(engine)),
{
    if caller != engine.state.admin {
        return Err(CustomError::NotAdmin);
    }
    if !engine.state.paused {
        return Err(CustomError::NotPaused);
    }
    let i = match locate(engine, vuln_id) {
        Some(i) => i,
        None => return Err(CustomError::EscrowNotFound),
    };
    let v = engine.escrows[i];
    assert(vault_wf(engine.escrows@[i as int], engine.state.approval_threshold));
    let admin = engine.state.admin;
    let nv = if v.status == EscrowStatus::Deposited {
        EscrowAccount { status: EscrowStatus::Refunded, balance: 0, is_disputed: false, ..v }
    } else {
        v
    };
    engine.store_vault(i, nv, admin, None);
    Ok(())
}


impl EscrowEngine {
    /// The vault for `vuln_id`, if one was opened.
    pub fn escrow(&self, vuln_id: u64) -> (r: Option<EscrowAccount>)
        requires
            self.wf(),
        ensures
            r == self.vault(vuln_id),
    {
        match locate(self, vuln_id) {
            Some(i) => Some(self.escrows[i]),
            None => None,
        }
    }

    /// Everything paid out of vaults to `who`.
    pub fn credited_to(&self, who: Identity) -> (r: u64)
        requires
            self.wf(),
        ensures
            r == self.credited(who),
    {
        proof {
            lemma_held_nonneg(self.escrows@);
        }
        credit_for(&self.credits, who)
    }

    /// Whether `who` has voted to release vault `vuln_id`.
    pub fn has_approved(&self, vuln_id: u64, who: Identity) -> (r: bool)
        ensures
            r == self.approved(vuln_id, who),
    {
        has_approval(&self.approvals, vuln_id, who)
    }
}

} // verus!
