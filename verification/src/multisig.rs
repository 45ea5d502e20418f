use vstd::prelude::*;

use crate::errors::ErrorCode;
use crate::project::dispatch_allowed;
use crate::project::dispatch_result;
use crate::project::mark_current_milestone_completed;
use crate::project::start_project;
use crate::project::stop_project;
use crate::state::AccountKey;
use crate::state::Multisig;
use crate::state::MultisigAuth;
use crate::state::ProjectInfo;
use crate::state::ProposedAction;
use crate::state::Transaction;
use crate::utils::unique_owners;
use vstd::pervasive::VecAdditionalExecFns;

verus! {

/// How many approval slots of a bitmap are set.
pub open spec fn count_true(s: Seq<bool>) -> int
    decreases s.len(),
{
    if s.len() == 0 {
        0
    } else {
        count_true(s.drop_last()) + (if s.last() {
            1int
        } else {
            0int
        })
    }
}

/// Whether an identity is a member of the owner list.
pub open spec fn is_owner(owners: Seq<AccountKey>, who: AccountKey) -> bool {
    exists|i: int| 0 <= i < owners.len() && owners[i] == who
}

/// The slot an owner's approval is recorded in; with pairwise distinct
/// owners there is exactly one such slot.
pub open spec fn owner_index(owners: Seq<AccountKey>, who: AccountKey) -> int {
    choose|i: int| 0 <= i < owners.len() && owners[i] == who
}

/// With pairwise distinct owners, any slot holding the identity is the
/// slot `owner_index` names.
pub proof fn lemma_owner_index_unique(owners: Seq<AccountKey>, who: AccountKey, i: int)
    requires
        unique_owners(owners),
        0 <= i < owners.len(),
        owners[i] == who,
    ensures
        is_owner(owners, who),
        owner_index(owners, who) == i,
{
    assert(is_owner(owners, who));
    let j = owner_index(owners, who);
    assert(0 <= j < owners.len() && owners[j] == who);
    if i < j {
        assert(owners[i] != owners[j]);
    } else if j < i {
        assert(owners[j] != owners[i]);
    }
}

/// The slot, if any, of the first owner equal to the identity.
fn find_owner(owners: &Vec<AccountKey>, who: AccountKey) -> (r: Option<usize>)
    ensures
        match r {
            Some(i) => i < owners@.len() && owners@[i as int] == who,
            None => !is_owner(owners@, who),
        },
{
    let mut i: usize = 0;
    while i < owners.len()
        invariant
            i <= owners@.len(),
            forall|k: int| 0 <= k < i ==> owners@[k] != who,
        decreases owners@.len() - i,
    {
        if owners[i] == who {
            return Some(i);
        }
        i = i + 1;
    }
    None
}

/// Counts the set slots of the bitmap as it will stand once slot `idx` is
/// set, without committing that update.
fn count_approvals_with(signers: &Vec<bool>, idx: usize) -> (n: u64)
    requires
        idx < signers@.len(),
    ensures
        n == count_true(signers@.update(idx as int, true)),
{
    let ghost t: Seq<bool> = signers@.update(idx as int, true);
    let mut n: u64 = 0;
    let mut i: usize = 0;
    while i < signers.len()
        invariant
            idx < signers@.len(),
            t == signers@.update(idx as int, true),
            i <= signers@.len(),
            n == count_true(t.take(i as int)),
            n <= i,
        decreases signers@.len() - i,
    {
        let b = if i == idx {
            true
        } else {
            signers[i]
        };
        proof {
            assert(t.take(i as int + 1).drop_last() =~= t.take(i as int));
            assert(t.take(i as int + 1).last() == t[i as int]);
        }
        if b {
            n = n + 1;
        }
        i = i + 1;
    }
    proof {
        assert(t.take(signers@.len() as int) =~= t);
    }
    n
}

/// The proposal differs from `t0` in at most its bitmap and execution
/// flag: the bitmap is `s`, the flag is `executed`, all else carries over.
pub open spec fn tx_advanced(t1: Transaction, t0: Transaction, s: Seq<bool>, executed: bool) -> bool {
    &&& t1.signers@ == s
    &&& t1.did_execute == executed
    &&& t1.action == t0.action
    &&& t1.data@ == t0.data@
    &&& t1.multisig == t0.multisig
    &&& t1.seqno == t0.seqno
    &&& t1.proposer == t0.proposer
}

/// Creates a proposal for a privileged action against the project governed
/// by the given owner set. The caller must be a member; the fresh proposal
/// carries one approval slot per owner, with only the proposer's slot set,
/// and is stamped with the owner set's current sequence value.
pub fn create_transaction(
    multisig: &Multisig,
    multisig_key: AccountKey,
    proposer: AccountKey,
    action: ProposedAction,
    data: Vec<u8>,
) -> (r: Result<Transaction, ErrorCode>)
    requires
        multisig.well_formed(),
    ensures
        !is_owner(multisig.owners@, proposer) ==> r == Err::<Transaction, ErrorCode>(
            ErrorCode::InvalidOwner,
        ),
        is_owner(multisig.owners@, proposer) ==> (r matches Ok(tx) && {
            &&& tx.signers@.len() == multisig.owners@.len()
            &&& forall|k: int|
                0 <= k < multisig.owners@.len() ==> tx.signers@[k] == (multisig.owners@[k]
                    == proposer)
            &&& count_true(tx.signers@) == 1
            &&& tx.did_execute == false
            &&& tx.seqno == multisig.seqno
            &&& tx.multisig == multisig_key
            &&& tx.proposer == proposer
            &&& tx.action == action
            &&& tx.data@ == data@
        }),
{
    let idx = match find_owner(&multisig.owners, proposer) {
        Some(i) => i,
        None => {
            return Err(ErrorCode::InvalidOwner);
        },
    };
    proof {
        lemma_owner_index_unique(multisig.owners@, proposer, idx as int);
    }
    let n = multisig.owners.len();
    let mut signers: Vec<bool> = Vec::new();
    let mut k: usize = 0;
    while k < n
        invariant
            n == multisig.owners@.len(),
            k <= n,
            signers@.len() == k,
            forall|p: int| 0 <= p < k ==> signers@[p] == (multisig.owners@[p] == proposer),
        decreases n - k,
    {
        signers.push(multisig.owners[k] == proposer);
        k = k + 1;
    }
    proof {
        assert forall|p: int| 0 <= p < n implies signers@[p] == (p == idx as int) by {
            if multisig.owners@[p] == proposer {
                lemma_owner_index_unique(multisig.owners@, proposer, p);
                lemma_owner_index_unique(multisig.owners@, proposer, idx as int);
            }
        }
        lemma_count_true_single(signers@, idx as int);
    }
    Ok(
        Transaction {
            action,
            data,
            signers,
            multisig: multisig_key,
            did_execute: false,
            seqno: multisig.seqno,
            proposer,
        },
    )
}

/// Records the caller's approval on the proposal and, at the moment the
/// approval count first reaches the owner set's threshold, dispatches the
/// proposed action against the project record under authority scoped to
/// that project, marking the proposal executed.
///
/// Below the threshold a successful call only advances the bitmap; once a
/// proposal is executed, a further threshold-meeting call fails with
/// `AlreadyExecuted`; and a failed dispatch propagates its error with no
/// state change, leaving the proposal unexecuted.
pub fn approve(
    multisig: &Multisig,
    multisig_key: AccountKey,
    transaction: &mut Transaction,
    project_info: &mut ProjectInfo,
    owner: AccountKey,
) -> (r: Result<(), ErrorCode>)
    requires
        multisig.well_formed(),
        old(transaction).multisig == multisig_key,
        old(project_info).multisig == multisig_key,
        old(transaction).seqno == multisig.seqno,
        old(transaction).signers@.len() == multisig.owners@.len(),
    ensures
        ({
            let o_tx = *old(transaction);
            let o_pi = *old(project_info);
            let idx = owner_index(multisig.owners@, owner);
            let s1 = o_tx.signers@.update(idx, true);
            let cnt = count_true(s1);
            if !is_owner(multisig.owners@, owner) {
                &&& r == Err::<(), ErrorCode>(ErrorCode::InvalidOwner)
                &&& *final(transaction) == o_tx
                &&& *final(project_info) == o_pi
            } else if cnt < multisig.threshold {
                &&& r == Ok::<(), ErrorCode>(())
                &&& tx_advanced(*final(transaction), o_tx, s1, o_tx.did_execute)
                &&& *final(project_info) == o_pi
            } else if o_tx.did_execute {
                &&& r == Err::<(), ErrorCode>(ErrorCode::AlreadyExecuted)
                &&& *final(transaction) == o_tx
                &&& *final(project_info) == o_pi
            } else if dispatch_allowed(o_tx.action, o_pi) {
                &&& r == Ok::<(), ErrorCode>(())
                &&& tx_advanced(*final(transaction), o_tx, s1, true)
                &&& *final(project_info) == dispatch_result(o_tx.action, o_pi)
            } else {
                &&& r == Err::<(), ErrorCode>(ErrorCode::Overflow)
                &&& *final(transaction) == o_tx
                &&& *final(project_info) == o_pi
            }
        }),
        // Law: execution is at most once. An executed proposal stays
        // executed and nothing is ever dispatched for it again.
        old(transaction).did_execute ==> final(transaction).did_execute && *final(project_info)
            == *old(project_info),
        // Law: the execution flag turns on exactly when a member's approval
        // brings the count to the threshold on a not-yet-executed proposal.
        (!old(transaction).did_execute && final(transaction).did_execute) <==> (r is Ok && !old(
            transaction,
        ).did_execute && is_owner(multisig.owners@, owner) && count_true(
            old(transaction).signers@.update(owner_index(multisig.owners@, owner), true),
        ) >= multisig.threshold),
        old(project_info).well_formed() ==> final(project_info).well_formed(),
{
    let idx = match find_owner(&multisig.owners, owner) {
        Some(i) => i,
        None => {
            return Err(ErrorCode::InvalidOwner);
        },
    };
    proof {
        lemma_owner_index_unique(multisig.owners@, owner, idx as int);
    }
    let cnt = count_approvals_with(&transaction.signers, idx);
    if cnt < multisig.threshold {
        transaction.signers.set(idx, true);
        return Ok(());
    }
    if transaction.did_execute {
        return Err(ErrorCode::AlreadyExecuted);
    }
    let auth = MultisigAuth::new(multisig_key);
    let dispatch = match transaction.action {
        ProposedAction::StartProject => start_project(project_info, &auth),
        ProposedAction::MarkCurrentMilestoneCompleted => mark_current_milestone_completed(
            project_info,
            &auth,
        ),
        ProposedAction::StopProject => stop_project(project_info, &auth),
    };
    match dispatch {
        Ok(()) => {
            transaction.signers.set(idx, true);
            transaction.did_execute = true;
            Ok(())
        },
        Err(e) => Err(e),
    }
}

/// No slot of the bitmap is set: its count is zero.
proof fn lemma_count_true_all_false(s: Seq<bool>)
    requires
        forall|k: int| 0 <= k < s.len() ==> !s[k],
    ensures
        count_true(s) == 0,
    decreases s.len(),
{
    if s.len() > 0 {
        lemma_count_true_all_false(s.drop_last());
    }
}

/// Exactly one slot of the bitmap is set: its count is one.
proof fn lemma_count_true_single(s: Seq<bool>, i: int)
    requires
        0 <= i < s.len(),
        forall|k: int| 0 <= k < s.len() ==> s[k] == (k == i),
    ensures
        count_true(s) == 1,
    decreases s.len(),
{
    if i == s.len() - 1 {
        lemma_count_true_all_false(s.drop_last());
    } else {
        lemma_count_true_single(s.drop_last(), i);
    }
}

/// Law: recording an approval is idempotent. Setting a slot that is
/// already set leaves the bitmap itself unchanged, so the count cannot
/// rise; setting a clear slot raises the count by exactly one.
pub proof fn lemma_approval_update(s: Seq<bool>, i: int)
    requires
        0 <= i < s.len(),
    ensures
        s[i] ==> s.update(i, true) == s,
        !s[i] ==> count_true(s.update(i, true)) == count_true(s) + 1,
    decreases s.len(),
{
    if s[i] {
        assert(s.update(i, true) =~= s);
    } else if i == s.len() - 1 {
        assert(s.update(i, true).drop_last() =~= s.drop_last());
    } else {
        lemma_approval_update(s.drop_last(), i);
        assert(s.update(i, true).drop_last() =~= s.drop_last().update(i, true));
        assert(s.update(i, true).last() == s.last());
    }
}

} // verus!
