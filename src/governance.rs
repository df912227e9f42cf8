//! Creation of the program and the admin-only operations on its configuration.
use vstd::prelude::*;
use crate::identity::Identity;
use crate::accounts::{
    ApproverAdded, ApproverRemoved, BountyEscrowState, CustomError, EscrowEvent,
    DEFAULT_APPROVAL_THRESHOLD,
};
use crate::engine::{vaults_progress, EscrowEngine};
use crate::ledger::contains_identity;

verus! {

/// Vaults, approval records and credits are untouched.
pub open spec fn records_unchanged(pre: EscrowEngine, post: EscrowEngine) -> bool {
    &&& post.escrows@ == pre.escrows@
    &&& post.approvals@ == pre.approvals@
    &&& post.credits@ == pre.credits@
}

/// Every governance field but the roster is untouched.
pub open spec fn settings_unchanged(pre: BountyEscrowState, post: BountyEscrowState) -> bool {
    &&& post.admin == pre.admin
    &&& post.vulnerability_registry == pre.vulnerability_registry
    &&& post.paused == pre.paused
    &&& post.approval_threshold == pre.approval_threshold
    &&& post.total_escrowed == pre.total_escrowed
}

/// Holds of every identity but `who`.
pub open spec fn other_than(who: Identity) -> spec_fn(Identity) -> bool {
    |a: Identity| a != who
}

pub open spec fn admin_result(e: EscrowEngine, caller: Identity) -> Result<(), CustomError> {
    if caller != e.state.admin {
        Err(CustomError::NotAdmin)
    } else {
        Ok(())
    }
}

/// A fresh program: `admin` is its sole approver, no registry is set, and
/// nothing is escrowed.
pub fn initialize(admin: Identity) -> (r: EscrowEngine)
    ensures
        r.wf(),
        r.state.admin == admin,
        r.state.vulnerability_registry == (Identity { high: 0, low: 0 }),
        r.state.approvers@ == seq![admin],
        !r.state.paused,
        r.state.approval_threshold == DEFAULT_APPROVAL_THRESHOLD,
        r.state.total_escrowed == 0,
        r.escrows@.len() == 0,
        r.approvals@.len() == 0,
        r.credits@.len() == 0,
        r.events@.len() == 0,
{
    let state = BountyEscrowState {
        admin,
        vulnerability_registry: Identity::zero(),
        approvers: vec![admin],
        paused: false,
        approval_threshold: DEFAULT_APPROVAL_THRESHOLD,
        total_escrowed: 0,
    };
    let r = EscrowEngine {
        state,
        escrows: Vec::new(),
        approvals: Vec::new(),
        credits: Vec::new(),
        events: Vec::new(),
    };
    assert(r.state.approvers@ =~= seq![admin]);
    r
}

pub open spec fn add_approver_result(e: EscrowEngine, caller: Identity, approver: Identity) -> Result<(), CustomError> {
    if caller != e.state.admin {
        Err(CustomError::NotAdmin)
    } else if e.is_approver(approver) {
        Err(CustomError::AlreadyApprover)
    } else {
        Ok(())
    }
}

pub open spec fn add_approver_step(
    pre: EscrowEngine,
    post: EscrowEngine,
    caller: Identity,
    approver: Identity,
    r: Result<(), CustomError>,
) -> bool {
    &&& r == add_approver_result(pre, caller, approver)
    &&& r is Err ==> post == pre
    &&& r is Ok ==> {
        &&& post.state.approvers@ == pre.state.approvers@.push(approver)
        &&& settings_unchanged(pre.state, post.state)
        &&& records_unchanged(pre, post)
        &&& post.events@ == pre.events@.push(EscrowEvent::ApproverAdded(ApproverAdded { approver }))
    }
}

/// Appends `approver` to the roster.
pub fn add_approver(engine: &mut EscrowEngine, caller: Identity, approver: Identity) -> (r: Result<
    (),
    CustomError,
>)
    requires
        old(engine).wf(),
    ensures
        final(engine).wf(),
        vaults_progress(*old(engine), *final(engine)),
        add_approver_step(*old(engine), *final(engine), caller, approver, r),
{
    if caller != engine.state.admin {
        return Err(CustomError::NotAdmin);
    }
    if contains_identity(&engine.state.approvers, approver) {
        return Err(CustomError::AlreadyApprover);
    }
    let ghost roster = engine.state.approvers@;
    engine.state.approvers.push(approver);
    proof {
        assert forall|i: int, j: int|
            0 <= i < engine.state.approvers@.len() && 0 <= j < engine.state.approvers@.len() && i
                != j implies engine.state.approvers@[i] != engine.state.approvers@[j] by {
            if i == roster.len() {
                assert(roster[j] != approver);
            } else if j == roster.len() {
                assert(roster[i] != approver);
            }
        }
    }
    engine.events.push(EscrowEvent::ApproverAdded(ApproverAdded { approver }));
    Ok(())
}

pub open spec fn remove_approver_result(e: EscrowEngine, caller: Identity, approver: Identity) -> Result<(), CustomError> {
    if caller != e.state.admin {
        Err(CustomError::NotAdmin)
    } else if !e.is_approver(approver) {
        Err(CustomError::NotApprover)
    } else if e.state.approvers@.len() == 1 {
        Err(CustomError::LastApprover)
    } else {
        Ok(())
    }
}

pub open spec fn remove_approver_step(
    pre: EscrowEngine,
    post: EscrowEngine,
    caller: Identity,
    approver: Identity,
    r: Result<(), CustomError>,
) -> bool {
    &&& r == remove_approver_result(pre, caller, approver)
    &&& r is Err ==> post == pre
    &&& r is Ok ==> {
        &&& post.state.approvers@ == pre.state.approvers@.filter(other_than(approver))
        &&& settings_unchanged(pre.state, post.state)
        &&& records_unchanged(pre, post)
        &&& post.events@ == pre.events@.push(
            EscrowEvent::ApproverRemoved(ApproverRemoved { approver }),
        )
    }
}

/// Drops `approver` from the roster, keeping the order of the others; the
/// last approver cannot be removed.
pub fn remove_approver(engine: &mut EscrowEngine, caller: Identity, approver: Identity) -> (r:
    Result<(), CustomError>)
    requires
        old(engine).wf(),
    ensures
        final(engine).wf(),
        vaults_progress(*old(engine), *final(engine)),
        remove_approver_step(*old(engine), *final(engine), caller, approver, r),
{
    if caller != engine.state.admin {
        return Err(CustomError::NotAdmin);
    }
    if !contains_identity(&engine.state.approvers, approver) {
        return Err(CustomError::NotApprover);
    }
    if engine.state.approvers.len() == 1 {
        return Err(CustomError::LastApprover);
    }
    let ghost keep = other_than(approver);
    let ghost roster = engine.state.approvers@;
    let mut kept: Vec<Identity> = Vec::new();
    let mut i: usize = 0;
    while i < engine.state.approvers.len()
        invariant
            i <= roster.len(),
            engine.state.approvers@ == roster,
            keep == other_than(approver),
            kept@ == roster.subrange(0, i as int).filter(keep),
            roster.no_duplicates(),
            kept@.no_duplicates(),
            forall|k: int| #![trigger kept@[k]] 0 <= k < kept@.len() ==> exists|j: int| 0 <= j < i && roster[j] == kept@[k],
        decreases roster.len() - i,
    {
        let a = engine.state.approvers[i];
        proof {
            let next = roster.subrange(0, i as int + 1);
            let prev = roster.subrange(0, i as int);
            assert(next.drop_last() =~= prev);
            assert(next.last() == a);
            assert(keep(a) == (a != approver));
            reveal(Seq::filter);
            assert(next.filter(keep) == if keep(a) {
                prev.filter(keep).push(a)
            } else {
                prev.filter(keep)
            });
        }
        if a != approver {
            proof {
                assert forall|k: int| 0 <= k < kept@.len() implies kept@[k] != a by {
                    let j = choose|j: int| 0 <= j < i && roster[j] == kept@[k];
                    assert(roster[j] != roster[i as int]);
                }
            }
            let ghost before = kept@;
            kept.push(a);
            proof {
                assert forall|k: int| #![trigger kept@[k]] 0 <= k < kept@.len() implies exists|j: int|
                    0 <= j < i + 1 && roster[j] == kept@[k] by {
                    if k < before.len() {
                        let j = choose|j: int| 0 <= j < i && roster[j] == before[k];
                        assert(roster[j] == kept@[k]);
                    } else {
                        assert(roster[i as int] == kept@[k]);
                    }
                }
            }
        }
        assert(kept@ == roster.subrange(0, i as int + 1).filter(keep));
        i = i + 1;
    }
    proof {
        assert(roster.subrange(0, roster.len() as int) =~= roster);
        let other: int = if roster[0] != approver { 0 } else { 1 };
        assert(roster[other] != approver);
        roster.lemma_filter_contains(keep, other);
        assert(kept@.contains(roster[other]));
    }
    engine.state.approvers = kept;
    engine.events.push(EscrowEvent::ApproverRemoved(ApproverRemoved { approver }));
    Ok(())
}

pub open spec fn set_registry_step(
    pre: EscrowEngine,
    post: EscrowEngine,
    caller: Identity,
    registry: Identity,
    r: Result<(), CustomError>,
) -> bool {
    &&& r == admin_result(pre, caller)
    &&& r is Err ==> post == pre
    &&& r is Ok ==> {
        &&& post.state == (BountyEscrowState { vulnerability_registry: registry, ..pre.state })
        &&& records_unchanged(pre, post)
        &&& post.events@ == pre.events@
    }
}

/// Names the identity whose calls may release vaults and resolve disputes.
pub fn set_registry(engine: &mut EscrowEngine, caller: Identity, registry: Identity) -> (r: Result<
    (),
    CustomError,
>)
    requires
        old(engine).wf(),
    ensures
        final(engine).wf(),
        vaults_progress(*old(engine), *final(engine)),
        set_registry_step(*old(engine), *final(engine), caller, registry, r),
{
    if caller != engine.state.admin {
        return Err(CustomError::NotAdmin);
    }
    engine.state.vulnerability_registry = registry;
    Ok(())
}

pub open spec fn pause_step(
    pre: EscrowEngine,
    post: EscrowEngine,
    caller: Identity,
    paused: bool,
    r: Result<(), CustomError>,
) -> bool {
    &&& r == admin_result(pre, caller)
    &&& r is Err ==> post == pre
    &&& r is Ok ==> {
        &&& post.state == (BountyEscrowState { paused, ..pre.state })
        &&& records_unchanged(pre, post)
        &&& post.events@ == pre.events@
    }
}

/// Sets the pause switch; only the emergency withdraw depends on it.
pub fn pause(engine: &mut EscrowEngine, caller: Identity, paused: bool) -> (r: Result<
    (),
    CustomError,
>)
    requires
        old(engine).wf(),
    ensures
        final(engine).wf(),
        vaults_progress(*old(engine), *final(engine)),
        pause_step(*old(engine), *final(engine), caller, paused, r),
{
    if caller != engine.state.admin {
        return Err(CustomError::NotAdmin);
    }
    engine.state.paused = paused;
    Ok(())
}

} // verus!
