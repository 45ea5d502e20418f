use vstd::prelude::*;

use crate::errors::ErrorCode;
use crate::utils::assert_unique_owners;
use crate::utils::unique_owners;

verus! {

/// An identity or record address on the ledger, modeled as a plain key.
pub type AccountKey = u64;

/// Lifecycle stage of the escrowed project.
#[derive(Clone, Copy, Debug, PartialEq, Eq, Structural)]
pub enum ProjectStatus {
    /// The client can still cancel the project and withdraw the funds.
    Pending,
    /// The ongoing stage.
    Running,
    /// All milestones reached and paid out.
    Completed,
    /// Collective cancellation.
    Cancelled,
}

/// The stored byte encoding of each status (the status is kept as a plain
/// integer in the durable project record).
pub open spec fn status_code(s: ProjectStatus) -> u8 {
    match s {
        ProjectStatus::Pending => 0,
        ProjectStatus::Running => 1,
        ProjectStatus::Completed => 2,
        ProjectStatus::Cancelled => 3,
    }
}

impl ProjectStatus {
    /// The stored byte encoding of this status.
    pub fn to_code(&self) -> (r: u8)
        ensures
            r == status_code(*self),
    {
        match self {
            ProjectStatus::Pending => 0,
            ProjectStatus::Running => 1,
            ProjectStatus::Completed => 2,
            ProjectStatus::Cancelled => 3,
        }
    }

    /// Decodes a stored status byte; every byte outside the four known
    /// codes is rejected with `InvalidStatus`.
    pub fn from(val: u8) -> (r: Result<ProjectStatus, ErrorCode>)
        ensures
            val <= 3 ==> (r matches Ok(s) && status_code(s) == val),
            val > 3 ==> r == Err::<ProjectStatus, ErrorCode>(ErrorCode::InvalidStatus),
    {
        match val {
            0 => Ok(ProjectStatus::Pending),
            1 => Ok(ProjectStatus::Running),
            2 => Ok(ProjectStatus::Completed),
            3 => Ok(ProjectStatus::Cancelled),
            _ => Err(ErrorCode::InvalidStatus),
        }
    }
}

/// The durable record of one escrowed project.
#[derive(Clone, Copy, Debug, PartialEq, Eq, Structural)]
pub struct ProjectInfo {
    /// Total value locked for the project at bootstrap.
    pub total_project_funds: u64,
    /// Total milestone count the project is divided into.
    pub milestones: u8,
    /// Milestones marked complete so far.
    pub milestones_reached: u8,
    /// Milestone payouts already disbursed.
    pub milestone_funds_withdrawn: u8,
    /// The identity that funded the project.
    pub client: AccountKey,
    /// The identity paid per milestone.
    pub freelancer: AccountKey,
    /// Address of the owner set governing this project.
    pub multisig: AccountKey,
    /// Stored byte encoding of the current `ProjectStatus`.
    pub status: u8,
}

impl ProjectInfo {
    /// The progress counters never run ahead of each other or of the
    /// milestone count, and the stored status byte decodes.
    pub open spec fn well_formed(self) -> bool {
        &&& self.milestone_funds_withdrawn <= self.milestones_reached <= self.milestones
        &&& self.status <= 3
    }
}

/// The custodial holding for a project's locked funds. It is controlled
/// only by authority derived from the project itself, never by any single
/// owner; the surrounding platform moves the actual value.
#[derive(Clone, Copy, Debug, PartialEq, Eq, Structural)]
pub struct Escrow {
    /// Value currently held in custody.
    pub balance: u64,
}

/// An immutable-after-init ordered list of authorized identities, with the
/// approval threshold and a sequence counter stamped onto proposals.
pub struct Multisig {
    /// The authorized identities, pairwise distinct once initialized.
    pub owners: Vec<AccountKey>,
    /// Minimum number of distinct owner approvals required to execute.
    pub threshold: u64,
    /// Epoch counter copied onto each proposal at creation.
    pub seqno: u64,
}

impl Multisig {
    /// Owners are pairwise distinct and the threshold never exceeds the
    /// owner count.
    pub open spec fn well_formed(self) -> bool {
        &&& unique_owners(self.owners@)
        &&& 1 <= self.threshold <= self.owners@.len()
    }

    /// A freshly allocated, not yet initialized owner set, as the platform
    /// hands it to `init`.
    pub fn new() -> (r: Multisig)
        ensures
            r.owners@.len() == 0,
            r.threshold == 0,
            r.seqno == 0,
    {
        Multisig { owners: Vec::new(), threshold: 0, seqno: 0 }
    }

    /// Stores the owner list and threshold into a fresh owner set. Fails on
    /// a set that was already initialized, on an empty or duplicated owner
    /// list, and on a threshold of zero or above the owner count; a failed
    /// call leaves the set unchanged.
    pub fn init(multisig: &mut Multisig, owners: Vec<AccountKey>, threshold: u64) -> (r: Result<
        (),
        ErrorCode,
    >)
        ensures
            ({
                let m0 = *old(multisig);
                if m0.owners@.len() > 0 {
                    &&& r == Err::<(), ErrorCode>(ErrorCode::MultisigAlreadyInitialized)
                    &&& *final(multisig) == m0
                } else if owners@.len() == 0 {
                    &&& r == Err::<(), ErrorCode>(ErrorCode::InvalidOwnersLen)
                    &&& *final(multisig) == m0
                } else if !unique_owners(owners@) {
                    &&& r == Err::<(), ErrorCode>(ErrorCode::UniqueOwners)
                    &&& *final(multisig) == m0
                } else if threshold == 0 || threshold > owners@.len() {
                    &&& r == Err::<(), ErrorCode>(ErrorCode::InvalidThreshold)
                    &&& *final(multisig) == m0
                } else {
                    &&& r == Ok::<(), ErrorCode>(())
                    &&& final(multisig).owners@ == owners@
                    &&& final(multisig).threshold == threshold
                    &&& final(multisig).seqno == 0
                    &&& final(multisig).well_formed()
                }
            }),
    {
        if multisig.owners.len() > 0 {
            return Err(ErrorCode::MultisigAlreadyInitialized);
        }
        if owners.len() == 0 {
            return Err(ErrorCode::InvalidOwnersLen);
        }
        match assert_unique_owners(&owners) {
            Ok(()) => {},
            Err(e) => {
                return Err(e);
            },
        }
        if threshold == 0 || threshold > owners.len() as u64 {
            return Err(ErrorCode::InvalidThreshold);
        }
        multisig.owners = owners;
        multisig.threshold = threshold;
        multisig.seqno = 0;
        Ok(())
    }
}

/// Which privileged project entry point a proposal asks to invoke: the
/// decoded form of a proposal's target action descriptor.
#[derive(Clone, Copy, Debug, PartialEq, Eq, Structural)]
pub enum ProposedAction {
    /// Move the project into its running stage.
    StartProject,
    /// Mark the current milestone as completed.
    MarkCurrentMilestoneCompleted,
    /// Cancel the project collectively, whatever its current status.
    StopProject,
}

/// A pending or executed privileged action: the proposal record the
/// approval engine counts votes against.
pub struct Transaction {
    /// The privileged entry point this proposal will invoke once approved.
    pub action: ProposedAction,
    /// Encoded parameter payload carried to the invoked entry point.
    pub data: Vec<u8>,
    /// One approval slot per owner of the governing set.
    pub signers: Vec<bool>,
    /// Address of the owner set this proposal belongs to.
    pub multisig: AccountKey,
    /// Becomes true exactly once, when the action is dispatched.
    pub did_execute: bool,
    /// Copy of the owner set's sequence counter at creation time.
    pub seqno: u64,
    /// The owner that created the proposal.
    pub proposer: AccountKey,
}

/// Proof of collective authorization, scoped to one owner set. Only the
/// approval engine constructs a value of this type, and only when a
/// proposal has met its threshold; the privileged project entry points
/// demand one, so no single identity can invoke them directly.
pub struct MultisigAuth {
    multisig: AccountKey,
}

impl MultisigAuth {
    /// The owner-set record this authority is scoped to.
    pub closed spec fn scope(self) -> AccountKey {
        self.multisig
    }

    /// Derives the authority for one owner set; kept inside the crate so
    /// that only the approval engine's dispatch can mint it.
    pub(crate) fn new(multisig_key: AccountKey) -> (r: MultisigAuth)
        ensures
            r.scope() == multisig_key,
    {
        MultisigAuth { multisig: multisig_key }
    }
}

} // verus!
