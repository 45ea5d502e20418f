use payment_protocol::errors::ErrorCode;
use payment_protocol::multisig::approve;
use payment_protocol::multisig::create_transaction;
use payment_protocol::project::initialize_project;
use payment_protocol::state::Escrow;
use payment_protocol::state::Multisig;
use payment_protocol::state::ProjectInfo;
use payment_protocol::state::ProposedAction;
use payment_protocol::state::Transaction;
use payment_protocol::utils::assert_unique_owners;

const MULTISIG_KEY: u64 = 77;
const CLIENT: u64 = 10;
const FREELANCER: u64 = 20;
const OBSERVER: u64 = 30;
const OUTSIDER: u64 = 99;

fn bootstrap(total_funds: u64, milestones: u8) -> (Multisig, ProjectInfo, Escrow) {
    let mut multisig = Multisig::new();
    let (project_info, escrow) = initialize_project(
        &mut multisig,
        MULTISIG_KEY,
        CLIENT,
        FREELANCER,
        OBSERVER,
        total_funds,
        milestones,
    )
    .expect("bootstrap must succeed");
    (multisig, project_info, escrow)
}

fn propose(multisig: &Multisig, proposer: u64, action: ProposedAction) -> Transaction {
    create_transaction(multisig, MULTISIG_KEY, proposer, action, Vec::new())
        .expect("proposal by a member must succeed")
}

#[test]
fn init_rejects_empty_owner_list() {
    let mut multisig = Multisig::new();
    let r = Multisig::init(&mut multisig, Vec::new(), 1);
    assert_eq!(r, Err(ErrorCode::InvalidOwnersLen));
}

#[test]
fn init_rejects_duplicate_owners() {
    let mut multisig = Multisig::new();
    let r = Multisig::init(&mut multisig, vec![1, 2, 1], 2);
    assert_eq!(r, Err(ErrorCode::UniqueOwners));
}

#[test]
fn init_rejects_threshold_above_owner_count() {
    let mut multisig = Multisig::new();
    let r = Multisig::init(&mut multisig, vec![1, 2, 3], 4);
    assert_eq!(r, Err(ErrorCode::InvalidThreshold));
}

#[test]
fn init_rejects_zero_threshold() {
    let mut multisig = Multisig::new();
    let r = Multisig::init(&mut multisig, vec![1, 2, 3], 0);
    assert_eq!(r, Err(ErrorCode::InvalidThreshold));
}

#[test]
fn init_stores_owners_threshold_and_sequence() {
    let mut multisig = Multisig::new();
    let r = Multisig::init(&mut multisig, vec![1, 2, 3], 2);
    assert_eq!(r, Ok(()));
    assert_eq!(multisig.owners, vec![1, 2, 3]);
    assert_eq!(multisig.threshold, 2);
    assert_eq!(multisig.seqno, 0);
}

#[test]
fn init_rejects_second_initialization() {
    let mut multisig = Multisig::new();
    assert_eq!(Multisig::init(&mut multisig, vec![1, 2, 3], 2), Ok(()));
    let r = Multisig::init(&mut multisig, vec![4, 5, 6], 2);
    assert_eq!(r, Err(ErrorCode::MultisigAlreadyInitialized));
    assert_eq!(multisig.owners, vec![1, 2, 3]);
}

#[test]
fn unique_owners_check_accepts_distinct_list() {
    assert_eq!(assert_unique_owners(&vec![1, 2, 3]), Ok(()));
    assert_eq!(assert_unique_owners(&Vec::new()), Ok(()));
}

#[test]
fn unique_owners_check_rejects_duplicates() {
    assert_eq!(assert_unique_owners(&vec![5, 7, 5]), Err(ErrorCode::UniqueOwners));
}

#[test]
fn create_transaction_rejects_non_member() {
    let (multisig, _, _) = bootstrap(100, 4);
    let r = create_transaction(
        &multisig,
        MULTISIG_KEY,
        OUTSIDER,
        ProposedAction::StartProject,
        Vec::new(),
    );
    assert!(matches!(r, Err(ErrorCode::InvalidOwner)));
}

#[test]
fn create_transaction_auto_approves_only_the_proposer() {
    let (multisig, _, _) = bootstrap(100, 4);
    let tx = propose(&multisig, FREELANCER, ProposedAction::StopProject);
    assert_eq!(tx.signers, vec![false, true, false]);
    assert!(!tx.did_execute);
    assert_eq!(tx.seqno, multisig.seqno);
    assert_eq!(tx.multisig, MULTISIG_KEY);
    assert_eq!(tx.proposer, FREELANCER);
}

#[test]
fn approve_by_non_member_fails_and_leaves_bitmap_unchanged() {
    let (multisig, mut project_info, _) = bootstrap(100, 4);
    let mut tx = propose(&multisig, CLIENT, ProposedAction::StartProject);
    let before = tx.signers.clone();
    let r = approve(&multisig, MULTISIG_KEY, &mut tx, &mut project_info, OUTSIDER);
    assert_eq!(r, Err(ErrorCode::InvalidOwner));
    assert_eq!(tx.signers, before);
    assert!(!tx.did_execute);
}

#[test]
fn reapprove_by_same_owner_is_idempotent() {
    let mut multisig = Multisig::new();
    // A threshold of three keeps the proposal below execution throughout.
    assert_eq!(Multisig::init(&mut multisig, vec![CLIENT, FREELANCER, OBSERVER], 3), Ok(()));
    let mut project_info = ProjectInfo {
        total_project_funds: 100,
        milestones: 4,
        milestones_reached: 0,
        milestone_funds_withdrawn: 0,
        client: CLIENT,
        freelancer: FREELANCER,
        multisig: MULTISIG_KEY,
        status: 0,
    };
    let mut tx = propose(&multisig, CLIENT, ProposedAction::StartProject);
    assert_eq!(tx.signers, vec![true, false, false]);
    let r = approve(&multisig, MULTISIG_KEY, &mut tx, &mut project_info, CLIENT);
    assert_eq!(r, Ok(()));
    assert_eq!(tx.signers, vec![true, false, false]);
    assert!(!tx.did_execute);
    assert_eq!(project_info.status, 0);
}

#[test]
fn proposal_executes_exactly_when_threshold_first_met() {
    let (multisig, mut project_info, _) = bootstrap(100, 4);
    let mut tx = propose(&multisig, CLIENT, ProposedAction::StartProject);
    assert_eq!(project_info.status, 0);
    // The second distinct approval meets the two-of-three threshold.
    let r = approve(&multisig, MULTISIG_KEY, &mut tx, &mut project_info, FREELANCER);
    assert_eq!(r, Ok(()));
    assert!(tx.did_execute);
    assert_eq!(project_info.status, 1);
    // A further threshold-meeting approval cannot execute twice.
    let r2 = approve(&multisig, MULTISIG_KEY, &mut tx, &mut project_info, OBSERVER);
    assert_eq!(r2, Err(ErrorCode::AlreadyExecuted));
    assert!(tx.did_execute);
    assert_eq!(project_info.status, 1);
}

#[test]
fn failed_dispatch_propagates_and_does_not_mark_executed() {
    let (multisig, mut project_info, _) = bootstrap(100, 1);
    project_info.milestones_reached = 1;
    // Every milestone is already reached, so the dispatched increment fails.
    let mut tx = propose(&multisig, CLIENT, ProposedAction::MarkCurrentMilestoneCompleted);
    let r = approve(&multisig, MULTISIG_KEY, &mut tx, &mut project_info, OBSERVER);
    assert_eq!(r, Err(ErrorCode::Overflow));
    assert!(!tx.did_execute);
    assert_eq!(tx.signers, vec![true, false, false]);
    assert_eq!(project_info.milestones_reached, 1);
}

#[test]
fn stop_project_cancels_from_any_status() {
    let (multisig, mut project_info, _) = bootstrap(100, 4);
    let mut start = propose(&multisig, CLIENT, ProposedAction::StartProject);
    assert_eq!(approve(&multisig, MULTISIG_KEY, &mut start, &mut project_info, OBSERVER), Ok(()));
    assert_eq!(project_info.status, 1);
    let mut stop = propose(&multisig, FREELANCER, ProposedAction::StopProject);
    assert_eq!(approve(&multisig, MULTISIG_KEY, &mut stop, &mut project_info, CLIENT), Ok(()));
    assert_eq!(project_info.status, 3);
}
