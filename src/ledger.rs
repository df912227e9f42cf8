//! Models of the record collections (vaults by id, approval records,
//! credits) with the lemmas and lookups that the operations use.
use vstd::prelude::*;
use crate::identity::Identity;
use crate::accounts::{ApprovalRecord, Credit, EscrowAccount};

verus! {

// ---- vaults, keyed by vulnerability id ----

/// No two vaults share a vulnerability id.
pub open spec fn ids_unique(s: Seq<EscrowAccount>) -> bool {
    forall|i: int, j: int|
        0 <= i < s.len() && 0 <= j < s.len() && i != j ==> s[i].vuln_id != s[j].vuln_id
}

pub open spec fn has_vault(s: Seq<EscrowAccount>, id: u64) -> bool {
    exists|i: int| 0 <= i < s.len() && s[i].vuln_id == id
}

/// The vault for `id`, if there is one.
pub open spec fn vault_of(s: Seq<EscrowAccount>, id: u64) -> Option<EscrowAccount> {
    if has_vault(s, id) {
        Some(s[choose|i: int| 0 <= i < s.len() && s[i].vuln_id == id])
    } else {
        None
    }
}

pub proof fn lemma_vault_at(s: Seq<EscrowAccount>, i: int)
    requires
        ids_unique(s),
        0 <= i < s.len(),
    ensures
        vault_of(s, s[i].vuln_id) == Some(s[i]),
{
    assert(has_vault(s, s[i].vuln_id));
}

pub proof fn lemma_vault_update(s: Seq<EscrowAccount>, i: int, v: EscrowAccount)
    requires
        ids_unique(s),
        0 <= i < s.len(),
        v.vuln_id == s[i].vuln_id,
    ensures
        ids_unique(s.update(i, v)),
        vault_of(s.update(i, v), v.vuln_id) == Some(v),
        forall|k: u64| k != v.vuln_id ==> vault_of(s.update(i, v), k) == vault_of(s, k),
{
    let t = s.update(i, v);
    assert(ids_unique(t));
    lemma_vault_at(t, i);
    assert forall|k: u64| k != v.vuln_id implies vault_of(t, k) == vault_of(s, k) by {
        if has_vault(s, k) {
            let j = choose|j: int| 0 <= j < s.len() && s[j].vuln_id == k;
            assert(t[j] == s[j]);
            lemma_vault_at(s, j);
            lemma_vault_at(t, j);
        }
        if has_vault(t, k) {
            let j = choose|j: int| 0 <= j < t.len() && t[j].vuln_id == k;
            assert(s[j] == t[j]);
        }
    }
}

pub proof fn lemma_vault_push(s: Seq<EscrowAccount>, v: EscrowAccount)
    requires
        ids_unique(s),
        !has_vault(s, v.vuln_id),
    ensures
        ids_unique(s.push(v)),
        vault_of(s.push(v), v.vuln_id) == Some(v),
        forall|k: u64| k != v.vuln_id ==> vault_of(s.push(v), k) == vault_of(s, k),
{
    let t = s.push(v);
    assert forall|i: int, j: int|
        0 <= i < t.len() && 0 <= j < t.len() && i != j implies t[i].vuln_id != t[j].vuln_id by {
        if i < s.len() && j < s.len() {
        } else if i < s.len() {
            assert(s[i].vuln_id != v.vuln_id);
        } else {
            assert(s[j].vuln_id != v.vuln_id);
        }
    }
    lemma_vault_at(t, s.len() as int);
    assert forall|k: u64| k != v.vuln_id implies vault_of(t, k) == vault_of(s, k) by {
        if has_vault(s, k) {
            let j = choose|j: int| 0 <= j < s.len() && s[j].vuln_id == k;
            assert(t[j] == s[j]);
            lemma_vault_at(s, j);
            lemma_vault_at(t, j);
        }
        if has_vault(t, k) {
            let j = choose|j: int| 0 <= j < t.len() && t[j].vuln_id == k;
            assert(s[j] == t[j]);
        }
    }
}

/// Sum of what the vaults hold.
pub open spec fn held_total(s: Seq<EscrowAccount>) -> int
    decreases s.len(),
{
    if s.len() == 0 {
        0
    } else {
        held_total(s.drop_last()) + s.last().balance
    }
}

pub proof fn lemma_held_update(s: Seq<EscrowAccount>, i: int, v: EscrowAccount)
    requires
        0 <= i < s.len(),
    ensures
        held_total(s.update(i, v)) == held_total(s) - s[i].balance + v.balance,
    decreases s.len(),
{
    let t = s.update(i, v);
    if i == s.len() - 1 {
        assert(t.drop_last() =~= s.drop_last());
    } else {
        assert(t.drop_last() =~= s.drop_last().update(i, v));
        lemma_held_update(s.drop_last(), i, v);
    }
}

pub proof fn lemma_held_push(s: Seq<EscrowAccount>, v: EscrowAccount)
    ensures
        held_total(s.push(v)) == held_total(s) + v.balance,
{
    assert(s.push(v).drop_last() =~= s);
}

pub proof fn lemma_held_entry(s: Seq<EscrowAccount>, i: int)
    requires
        0 <= i < s.len(),
    ensures
        0 <= s[i].balance <= held_total(s),
    decreases s.len(),
{
    lemma_held_nonneg(s.drop_last());
    if i < s.len() - 1 {
        lemma_held_entry(s.drop_last(), i);
    }
}

pub proof fn lemma_held_nonneg(s: Seq<EscrowAccount>)
    ensures
        held_total(s) >= 0,
    decreases s.len(),
{
    if s.len() > 0 {
        lemma_held_nonneg(s.drop_last());
    }
}

pub fn find_escrow(escrows: &Vec<EscrowAccount>, id: u64) -> (r: Option<usize>)
    ensures
        match r {
            Some(i) => i < escrows@.len() && escrows@[i as int].vuln_id == id,
            None => !has_vault(escrows@, id),
        },
{
    let mut i: usize = 0;
    while i < escrows.len()
        invariant
            i <= escrows@.len(),
            forall|j: int| 0 <= j < i ==> escrows@[j].vuln_id != id,
        decreases escrows@.len() - i,
    {
        if escrows[i].vuln_id == id {
            return Some(i);
        }
        i = i + 1;
    }
    None
}

// ---- approval records, keyed by (vulnerability id, approver) ----

pub open spec fn approved_in(s: Seq<ApprovalRecord>, id: u64, who: Identity) -> bool {
    exists|i: int| 0 <= i < s.len() && s[i].vuln_id == id && s[i].approver == who
}

/// No approver holds two records for one vulnerability id.
pub open spec fn votes_unique(s: Seq<ApprovalRecord>) -> bool {
    forall|i: int, j: int|
        0 <= i < s.len() && 0 <= j < s.len() && i != j ==> !(s[i].vuln_id == s[j].vuln_id
            && s[i].approver == s[j].approver)
}

pub proof fn lemma_vote_push(s: Seq<ApprovalRecord>, a: ApprovalRecord)
    requires
        votes_unique(s),
        !approved_in(s, a.vuln_id, a.approver),
    ensures
        votes_unique(s.push(a)),
        forall|k: u64, w: Identity|
            approved_in(s.push(a), k, w) == (approved_in(s, k, w) || (k == a.vuln_id && w
                == a.approver)),
{
    let t = s.push(a);
    assert forall|i: int, j: int|
        0 <= i < t.len() && 0 <= j < t.len() && i != j implies !(t[i].vuln_id == t[j].vuln_id
        && t[i].approver == t[j].approver) by {
        if i < s.len() && j < s.len() {
        } else if i < s.len() {
            assert(!(s[i].vuln_id == a.vuln_id && s[i].approver == a.approver));
        } else {
            assert(!(s[j].vuln_id == a.vuln_id && s[j].approver == a.approver));
        }
    }
    assert forall|k: u64, w: Identity|
        approved_in(t, k, w) == (approved_in(s, k, w) || (k == a.vuln_id && w
            == a.approver)) by {
        if approved_in(s, k, w) {
            let j = choose|j: int| 0 <= j < s.len() && s[j].vuln_id == k && s[j].approver == w;
            assert(t[j] == s[j]);
        }
        if k == a.vuln_id && w == a.approver {
            assert(t[s.len() as int] == a);
        }
        if approved_in(t, k, w) {
            let j = choose|j: int| 0 <= j < t.len() && t[j].vuln_id == k && t[j].approver == w;
            if j < s.len() {
                assert(s[j] == t[j]);
            }
        }
    }
}

/// How many approval records name vulnerability `id`.
pub open spec fn votes_for(s: Seq<ApprovalRecord>, id: u64) -> nat
    decreases s.len(),
{
    if s.len() == 0 {
        0
    } else {
        votes_for(s.drop_last(), id) + if s.last().vuln_id == id {
            1nat
        } else {
            0nat
        }
    }
}

pub proof fn lemma_votes_push(s: Seq<ApprovalRecord>, a: ApprovalRecord)
    ensures
        forall|id: u64|
            #[trigger] votes_for(s.push(a), id) == votes_for(s, id) + if a.vuln_id == id {
                1nat
            } else {
                0nat
            },
{
    assert(s.push(a).drop_last() =~= s);
}

pub proof fn lemma_no_votes(s: Seq<ApprovalRecord>, id: u64)
    requires
        forall|k: int| 0 <= k < s.len() ==> s[k].vuln_id != id,
    ensures
        votes_for(s, id) == 0,
    decreases s.len(),
{
    if s.len() > 0 {
        lemma_no_votes(s.drop_last(), id);
    }
}

pub fn has_approval(approvals: &Vec<ApprovalRecord>, id: u64, who: Identity) -> (r: bool)
    ensures
        r == approved_in(approvals@, id, who),
{
    let mut i: usize = 0;
    while i < approvals.len()
        invariant
            i <= approvals@.len(),
            forall|j: int|
                0 <= j < i ==> !(approvals@[j].vuln_id == id && approvals@[j].approver == who),
        decreases approvals@.len() - i,
    {
        if approvals[i].vuln_id == id && approvals[i].approver == who {
            return true;
        }
        i = i + 1;
    }
    false
}

pub fn contains_identity(v: &Vec<Identity>, who: Identity) -> (r: bool)
    ensures
        r == v@.contains(who),
{
    let mut i: usize = 0;
    while i < v.len()
        invariant
            i <= v@.len(),
            forall|j: int| 0 <= j < i ==> v@[j] != who,
        decreases v@.len() - i,
    {
        if v[i] == who {
            assert(v@[i as int] == who);
            return true;
        }
        i = i + 1;
    }
    false
}

// ---- credits paid out of vaults ----

pub open spec fn credit_total(s: Seq<Credit>) -> int
    decreases s.len(),
{
    if s.len() == 0 {
        0
    } else {
        credit_total(s.drop_last()) + s.last().amount
    }
}

/// Everything paid out to `who`.
pub open spec fn credit_of(s: Seq<Credit>, who: Identity) -> int
    decreases s.len(),
{
    if s.len() == 0 {
        0
    } else {
        credit_of(s.drop_last(), who) + if s.last().owner == who {
            s.last().amount as int
        } else {
            0
        }
    }
}

pub proof fn lemma_credit_update(s: Seq<Credit>, i: int, c: Credit)
    requires
        0 <= i < s.len(),
        c.owner == s[i].owner,
    ensures
        credit_total(s.update(i, c)) == credit_total(s) - s[i].amount + c.amount,
        forall|w: Identity|
            credit_of(s.update(i, c), w) == credit_of(s, w) + if w == c.owner {
                c.amount - s[i].amount
            } else {
                0
            },
    decreases s.len(),
{
    let t = s.update(i, c);
    if i == s.len() - 1 {
        assert(t.drop_last() =~= s.drop_last());
    } else {
        assert(t.drop_last() =~= s.drop_last().update(i, c));
        lemma_credit_update(s.drop_last(), i, c);
    }
    assert forall|w: Identity|
        credit_of(t, w) == credit_of(s, w) + if w == c.owner {
            c.amount - s[i].amount
        } else {
            0
        } by {
        assert(credit_of(t, w) == credit_of(t.drop_last(), w) + if t.last().owner == w {
            t.last().amount as int
        } else {
            0
        });
    }
}

pub proof fn lemma_credit_push(s: Seq<Credit>, c: Credit)
    ensures
        credit_total(s.push(c)) == credit_total(s) + c.amount,
        forall|w: Identity|
            credit_of(s.push(c), w) == credit_of(s, w) + if w == c.owner {
                c.amount as int
            } else {
                0
            },
{
    assert(s.push(c).drop_last() =~= s);
}

pub proof fn lemma_credit_entry(s: Seq<Credit>, i: int)
    requires
        0 <= i < s.len(),
    ensures
        s[i].amount <= credit_total(s),
    decreases s.len(),
{
    lemma_credit_nonneg(s.drop_last());
    if i < s.len() - 1 {
        lemma_credit_entry(s.drop_last(), i);
    }
}

pub proof fn lemma_credit_nonneg(s: Seq<Credit>)
    ensures
        credit_total(s) >= 0,
    decreases s.len(),
{
    if s.len() > 0 {
        lemma_credit_nonneg(s.drop_last());
    }
}

/// Pays `amount` to `who`: adds to its entry, or opens one.
pub fn add_credit(credits: &mut Vec<Credit>, who: Identity, amount: u64)
    requires
        credit_total(old(credits)@) + amount <= u64::MAX,
    ensures
        credit_total(final(credits)@) == credit_total(old(credits)@) + amount,
        forall|w: Identity|
            credit_of(final(credits)@, w) == credit_of(old(credits)@, w) + if w == who {
                amount as int
            } else {
                0
            },
{
    let mut i: usize = 0;
    while i < credits.len()
        invariant
            i <= credits@.len(),
            credits@ == old(credits)@,
            credit_total(credits@) + amount <= u64::MAX,
            forall|j: int| 0 <= j < i ==> credits@[j].owner != who,
        decreases credits@.len() - i,
    {
        if credits[i].owner == who {
            proof {
                lemma_credit_entry(credits@, i as int);
            }
            let c = Credit { owner: who, amount: credits[i].amount + amount };
            proof {
                lemma_credit_update(credits@, i as int, c);
            }
            credits.set(i, c);
            return;
        }
        i = i + 1;
    }
    let c = Credit { owner: who, amount };
    proof {
        lemma_credit_push(credits@, c);
    }
    credits.push(c);
}


pub proof fn lemma_credit_of_bounds(s: Seq<Credit>, who: Identity)
    ensures
        0 <= credit_of(s, who) <= credit_total(s),
    decreases s.len(),
{
    if s.len() > 0 {
        lemma_credit_of_bounds(s.drop_last(), who);
    }
}

pub proof fn lemma_credit_prefix(s: Seq<Credit>, i: int)
    requires
        0 <= i <= s.len(),
    ensures
        credit_total(s.subrange(0, i)) <= credit_total(s),
    decreases s.len(),
{
    if i < s.len() {
        assert(s.drop_last().subrange(0, i) =~= s.subrange(0, i));
        lemma_credit_prefix(s.drop_last(), i);
    } else {
        assert(s.subrange(0, i) =~= s);
    }
}

/// Sums what the entries pay to `who`.
pub fn credit_for(credits: &Vec<Credit>, who: Identity) -> (r: u64)
    requires
        credit_total(credits@) <= u64::MAX,
    ensures
        r == credit_of(credits@, who),
{
    let mut sum: u64 = 0;
    let mut i: usize = 0;
    while i < credits.len()
        invariant
            i <= credits@.len(),
            credit_total(credits@) <= u64::MAX,
            sum == credit_of(credits@.subrange(0, i as int), who),
        decreases credits@.len() - i,
    {
        proof {
            let next = credits@.subrange(0, i as int + 1);
            assert(next.drop_last() =~= credits@.subrange(0, i as int));
            lemma_credit_of_bounds(next, who);
            lemma_credit_prefix(credits@, i as int + 1);
        }
        if credits[i].owner == who {
            sum = sum + credits[i].amount;
        }
        i = i + 1;
    }
    assert(credits@.subrange(0, credits@.len() as int) =~= credits@);
    sum
}

} // verus!
