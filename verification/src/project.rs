use vstd::prelude::*;

use crate::errors::ErrorCode;
use crate::state::AccountKey;
use crate::state::Escrow;
use crate::state::Multisig;
use crate::state::MultisigAuth;
use crate::state::ProjectInfo;
use crate::state::ProjectStatus;
use crate::state::ProposedAction;
use crate::state::status_code;
use crate::utils::unique_owners;

verus! {

/// Whether dispatching the given privileged action against the given
/// project record succeeds.
pub open spec fn dispatch_allowed(action: ProposedAction, pi: ProjectInfo) -> bool {
    match action {
        ProposedAction::StartProject => true,
        ProposedAction::MarkCurrentMilestoneCompleted => pi.milestones_reached < pi.milestones,
        ProposedAction::StopProject => true,
    }
}

/// The project record after a successful dispatch of the given action.
pub open spec fn dispatch_result(action: ProposedAction, pi: ProjectInfo) -> ProjectInfo {
    match action {
        ProposedAction::StartProject => (ProjectInfo {
            status: status_code(ProjectStatus::Running),
            ..pi
        }),
        ProposedAction::MarkCurrentMilestoneCompleted => (ProjectInfo {
            milestones_reached: (pi.milestones_reached + 1) as u8,
            ..pi
        }),
        ProposedAction::StopProject => (ProjectInfo {
            status: status_code(ProjectStatus::Cancelled),
            ..pi
        }),
    }
}

/// Privileged: moves the project into its running stage. Reachable only
/// through the approval engine's dispatch, which alone can mint the
/// authority; any prior status is accepted, as the status transition is
/// already gated by the threshold vote.
pub fn start_project(project_info: &mut ProjectInfo, auth: &MultisigAuth) -> (r: Result<
    (),
    ErrorCode,
>)
    requires
        auth.scope() == old(project_info).multisig,
    ensures
        r == Ok::<(), ErrorCode>(()),
        *final(project_info) == dispatch_result(ProposedAction::StartProject, *old(project_info)),
        old(project_info).well_formed() ==> final(project_info).well_formed(),
{
    project_info.status = ProjectStatus::Running.to_code();
    Ok(())
}

/// Privileged: marks the current milestone as completed, so the freelancer
/// can withdraw the funds gated by it. Fails with `Overflow` when every
/// milestone is already reached, so the count never exceeds the milestone
/// total; a failed call leaves the record unchanged.
pub fn mark_current_milestone_completed(project_info: &mut ProjectInfo, auth: &MultisigAuth) -> (r:
    Result<(), ErrorCode>)
    requires
        auth.scope() == old(project_info).multisig,
    ensures
        old(project_info).milestones_reached < old(project_info).milestones ==> ({
            &&& r == Ok::<(), ErrorCode>(())
            &&& *final(project_info) == dispatch_result(
                ProposedAction::MarkCurrentMilestoneCompleted,
                *old(project_info),
            )
        }),
        old(project_info).milestones_reached >= old(project_info).milestones ==> ({
            &&& r == Err::<(), ErrorCode>(ErrorCode::Overflow)
            &&& *final(project_info) == *old(project_info)
        }),
        old(project_info).well_formed() ==> final(project_info).well_formed(),
{
    if project_info.milestones_reached >= project_info.milestones {
        return Err(ErrorCode::Overflow);
    }
    project_info.milestones_reached = project_info.milestones_reached + 1;
    Ok(())
}

/// Bootstraps one project: initializes its owner set with the client, the
/// freelancer and a neutral observer under a two-of-three threshold, writes
/// a fresh project record in `Pending` with zeroed progress counters, and
/// locks the client's funds in custody. The caller performs the actual
/// value transfer of `total_project_funds` from the client into the
/// returned custodial holding; a failure leaves the owner set unchanged
/// and creates nothing.
pub fn initialize_project(
    multisig: &mut Multisig,
    multisig_key: AccountKey,
    client: AccountKey,
    freelancer: AccountKey,
    observer: AccountKey,
    total_project_funds: u64,
    milestones: u8,
) -> (r: Result<(ProjectInfo, Escrow), ErrorCode>)
    ensures
        ({
            let m0 = *old(multisig);
            if m0.owners@.len() > 0 {
                &&& r == Err::<(ProjectInfo, Escrow), ErrorCode>(
                    ErrorCode::MultisigAlreadyInitialized,
                )
                &&& *final(multisig) == m0
            } else if client == freelancer || client == observer || freelancer == observer {
                &&& r == Err::<(ProjectInfo, Escrow), ErrorCode>(ErrorCode::UniqueOwners)
                &&& *final(multisig) == m0
            } else {
                &&& (r matches Ok(p) && {
                    let (pi, escrow) = p;
                    &&& pi == (ProjectInfo {
                        total_project_funds,
                        milestones,
                        milestones_reached: 0,
                        milestone_funds_withdrawn: 0,
                        client,
                        freelancer,
                        multisig: multisig_key,
                        status: status_code(ProjectStatus::Pending),
                    })
                    &&& pi.well_formed()
                    &&& escrow.balance == total_project_funds
                })
                &&& final(multisig).owners@ == seq![client, freelancer, observer]
                &&& final(multisig).threshold == 2
                &&& final(multisig).seqno == 0
                &&& final(multisig).well_formed()
            }
        }),
{
    let mut owner_list: Vec<AccountKey> = Vec::new();
    owner_list.push(client);
    owner_list.push(freelancer);
    owner_list.push(observer);
    proof {
        assert(owner_list@ =~= seq![client, freelancer, observer]);
        if client != freelancer && client != observer && freelancer != observer {
            assert forall|i: int, j: int|
                0 <= i < j < owner_list@.len() implies owner_list@[i] != owner_list@[j] by {}
            assert(unique_owners(owner_list@));
        } else {
            assert(!unique_owners(owner_list@)) by {
                if client == freelancer {
                    assert(owner_list@[0] == owner_list@[1]);
                } else if client == observer {
                    assert(owner_list@[0] == owner_list@[2]);
                } else {
                    assert(owner_list@[1] == owner_list@[2]);
                }
            }
        }
    }
    match Multisig::init(multisig, owner_list, 2) {
        Ok(()) => {},
        Err(e) => {
            return Err(e);
        },
    }
    let project_info = ProjectInfo {
        total_project_funds,
        milestones,
        milestones_reached: 0,
        milestone_funds_withdrawn: 0,
        client,
        freelancer,
        multisig: multisig_key,
        status: ProjectStatus::Pending.to_code(),
    };
    let escrow = Escrow { balance: total_project_funds };
    Ok((project_info, escrow))
}

/// Privileged: a collective stop. Unconditionally cancels the project,
/// regardless of its current status.
pub fn stop_project(project_info: &mut ProjectInfo, auth: &MultisigAuth) -> (r: Result<
    (),
    ErrorCode,
>)
    requires
        auth.scope() == old(project_info).multisig,
    ensures
        r == Ok::<(), ErrorCode>(()),
        *final(project_info) == dispatch_result(ProposedAction::StopProject, *old(project_info)),
        old(project_info).well_formed() ==> final(project_info).well_formed(),
{
    project_info.status = ProjectStatus::Cancelled.to_code();
    Ok(())
}

/// Freelancer-initiated payout for the milestones reached since the last
/// withdrawal. Each milestone releases an equal share of the total locked
/// funds (integer division, floored); on the withdrawal made once every
/// milestone is reached, the entire remaining custodial balance is paid
/// instead, absorbing the division remainder, and the project completes.
///
/// A call finding nothing newly payable succeeds and changes nothing. The
/// disbursement counter advances by one per paying call, however many
/// milestones that call paid for. Any failure — a zero milestone count, a
/// disbursement counter ahead of the reached counter, an amount overflow,
/// or an amount above the custodial balance — aborts with `Overflow` and
/// no state change.
pub fn withdraw_milestone_funds(
    project_info: &mut ProjectInfo,
    escrow: &mut Escrow,
    caller: AccountKey,
) -> (r: Result<u64, ErrorCode>)
    requires
        caller == old(project_info).freelancer,
    ensures
        ({
            let o = *old(project_info);
            let e0 = old(escrow).balance;
            let per = o.total_project_funds as int / o.milestones as int;
            let payable = o.milestones_reached - o.milestone_funds_withdrawn;
            if o.milestones == 0 || payable < 0 {
                &&& r == Err::<u64, ErrorCode>(ErrorCode::Overflow)
            } else if payable == 0 {
                &&& r == Ok::<u64, ErrorCode>(0)
                &&& *final(project_info) == o
                &&& *final(escrow) == *old(escrow)
            } else if per * payable > u64::MAX {
                &&& r == Err::<u64, ErrorCode>(ErrorCode::Overflow)
            } else if o.milestones_reached == o.milestones {
                &&& r == Ok::<u64, ErrorCode>(e0)
                &&& final(escrow).balance == 0
                &&& *final(project_info) == (ProjectInfo {
                    status: status_code(ProjectStatus::Completed),
                    milestone_funds_withdrawn: (o.milestone_funds_withdrawn + 1) as u8,
                    ..o
                })
            } else if per * payable > e0 {
                &&& r == Err::<u64, ErrorCode>(ErrorCode::Overflow)
            } else {
                &&& r == Ok::<u64, ErrorCode>((per * payable) as u64)
                &&& final(escrow).balance == e0 - per * payable
                &&& *final(project_info) == (ProjectInfo {
                    milestone_funds_withdrawn: (o.milestone_funds_withdrawn + 1) as u8,
                    ..o
                })
            }
        }),
        // Law: a payout never exceeds the custodial balance, which absorbs
        // exactly what was paid.
        (r matches Ok(a) ==> a <= old(escrow).balance && final(escrow).balance == old(
            escrow,
        ).balance - a),
        r is Err ==> *final(project_info) == *old(project_info) && *final(escrow) == *old(escrow),
        old(project_info).well_formed() ==> final(project_info).well_formed(),
{
    let per = match project_info.total_project_funds.checked_div(project_info.milestones as u64) {
        Some(v) => v,
        None => {
            return Err(ErrorCode::Overflow);
        },
    };
    let payable = match project_info.milestones_reached.checked_sub(
        project_info.milestone_funds_withdrawn,
    ) {
        Some(v) => v,
        None => {
            return Err(ErrorCode::Overflow);
        },
    };
    if payable == 0 {
        return Ok(0);
    }
    let mut amount = match per.checked_mul(payable as u64) {
        Some(v) => v,
        None => {
            return Err(ErrorCode::Overflow);
        },
    };
    if project_info.milestones_reached == project_info.milestones {
        amount = escrow.balance;
        project_info.status = ProjectStatus::Completed.to_code();
    } else if amount > escrow.balance {
        return Err(ErrorCode::Overflow);
    }
    escrow.balance = escrow.balance - amount;
    project_info.milestone_funds_withdrawn = project_info.milestone_funds_withdrawn + 1;
    Ok(amount)
}

/// Client-initiated cancellation before the project runs: returns the full
/// remaining custodial balance to the client. Only the recorded client may
/// call it, and only while the project is `Pending` or already `Cancelled`;
/// the caller performs the actual refund transfer of the returned amount
/// and releases the emptied records.
pub fn cancel_project(project_info: &ProjectInfo, escrow: &mut Escrow, caller: AccountKey) -> (r:
    Result<u64, ErrorCode>)
    ensures
        ({
            let e0 = old(escrow).balance;
            if caller != project_info.client {
                &&& r == Err::<u64, ErrorCode>(ErrorCode::ClientOnly)
                &&& *final(escrow) == *old(escrow)
            } else if project_info.status == status_code(ProjectStatus::Pending)
                || project_info.status == status_code(ProjectStatus::Cancelled) {
                &&& r == Ok::<u64, ErrorCode>(e0)
                &&& final(escrow).balance == 0
            } else {
                &&& r == Err::<u64, ErrorCode>(ErrorCode::InvalidStatus)
                &&& *final(escrow) == *old(escrow)
            }
        }),
{
    if caller != project_info.client {
        return Err(ErrorCode::ClientOnly);
    }
    let status = match ProjectStatus::from(project_info.status) {
        Ok(s) => s,
        Err(e) => {
            return Err(e);
        },
    };
    if status == ProjectStatus::Pending || status == ProjectStatus::Cancelled {
        let refund = escrow.balance;
        escrow.balance = 0;
        Ok(refund)
    } else {
        Err(ErrorCode::InvalidStatus)
    }
}

/// Total of a sequence of payout amounts.
pub open spec fn sum_payouts(s: Seq<u64>) -> int
    decreases s.len(),
{
    if s.len() == 0 {
        0
    } else {
        sum_payouts(s.drop_last()) + s.last()
    }
}

/// Law: payouts that each debit the custodial balance can never exceed,
/// cumulatively, the balance the custody started with; and once the
/// balance is emptied, the cumulative payout equals that initial balance
/// exactly. `balances[k]` is the custodial balance before the `k`-th
/// payout, as `withdraw_milestone_funds` leaves it.
pub proof fn lemma_cumulative_payouts(balances: Seq<u64>, payouts: Seq<u64>)
    requires
        balances.len() == payouts.len() + 1,
        forall|k: int|
            0 <= k < payouts.len() ==> payouts[k] <= balances[k] && balances[k + 1] == balances[k]
                - payouts[k],
    ensures
        sum_payouts(payouts) + balances.last() == balances.first(),
        sum_payouts(payouts) <= balances.first(),
    decreases payouts.len(),
{
    if payouts.len() == 0 {
        assert(balances.last() == balances.first());
    } else {
        let bs = balances.drop_last();
        let ps = payouts.drop_last();
        assert forall|k: int|
            0 <= k < ps.len() implies ps[k] <= bs[k] && bs[k + 1] == bs[k] - ps[k] by {
            assert(payouts[k] <= balances[k] && balances[k + 1] == balances[k] - payouts[k]);
        }
        lemma_cumulative_payouts(bs, ps);
        let n = payouts.len() as int;
        assert(payouts.last() <= balances[n - 1] && balances[n] == balances[n - 1]
            - payouts.last());
    }
}

} // verus!
