use ledger_governance::{DaoVotingSystem, GovError, ProposalStatus};

const WEEK: u64 = 604800;

fn dao_with_two_members() -> (DaoVotingSystem, u64, u64, u64) {
    let admin: u64 = 1;
    let member_a: u64 = 10;
    let member_b: u64 = 20;
    let mut dao = DaoVotingSystem::initialize(77, admin, WEEK);
    dao.add_member(admin, member_a).unwrap();
    dao.add_member(admin, member_b).unwrap();
    (dao, admin, member_a, member_b)
}

#[test]
fn test_dao_workflow() {
    let (mut dao, admin, member1, member2) = dao_with_two_members();

    // Member creates a proposal
    let action = [0u8; 32];
    let proposal_id = dao
        .create_proposal(
            member1,
            "Upgrade contract".to_string(),
            "Upgrade to version 2.0".to_string(),
            action,
            100,
        )
        .unwrap();

    // Admin starts voting with a one-week period
    dao.start_voting(admin, proposal_id, 200).unwrap();

    // Members vote: yes with 1000 power, no with 500 power
    dao.vote(member1, proposal_id, true, 1000, 300).unwrap();
    dao.vote(member2, proposal_id, false, 500, 400).unwrap();

    // Fast forward time to the end of the voting period and execute
    dao.execute_proposal(member1, proposal_id, 200 + WEEK).unwrap();

    // Verify the proposal status is executed
    let proposal = dao.get_proposal(proposal_id).unwrap();
    assert_eq!(proposal.status, ProposalStatus::Executed);
}

#[test]
fn majority_yes_executes_and_notifies() {
    // admin registers A (weight 1000) and B (weight 500); A votes yes, B no;
    // at the window's end any member resolves: Executed, with the action
    // payload handed back for the execution notification, because 1000 > 500.
    let (mut dao, admin, member_a, member_b) = dao_with_two_members();
    let action = [7u8; 32];
    let id = dao
        .create_proposal(member_a, "t".to_string(), "d".to_string(), action, 50)
        .unwrap();
    dao.start_voting(admin, id, 60).unwrap();
    dao.vote(member_a, id, true, 1000, 70).unwrap();
    dao.vote(member_b, id, false, 500, 80).unwrap();
    let notice = dao.execute_proposal(member_b, id, 60 + WEEK).unwrap();
    assert_eq!(notice, Some(action));
    let proposal = dao.get_proposal(id).unwrap();
    assert_eq!(proposal.status, ProposalStatus::Executed);
    assert_eq!(proposal.yes_weight, 1000);
    assert_eq!(proposal.no_weight, 500);
}

#[test]
fn majority_no_fails() {
    // same setup but A votes no and B votes yes: 500 > 1000 is false, so
    // resolution yields Failed and no notification.
    let (mut dao, admin, member_a, member_b) = dao_with_two_members();
    let id = dao
        .create_proposal(member_a, "t".to_string(), "d".to_string(), [7u8; 32], 50)
        .unwrap();
    dao.start_voting(admin, id, 60).unwrap();
    dao.vote(member_a, id, false, 1000, 70).unwrap();
    dao.vote(member_b, id, true, 500, 80).unwrap();
    let notice = dao.execute_proposal(member_a, id, 60 + WEEK).unwrap();
    assert_eq!(notice, None);
    let proposal = dao.get_proposal(id).unwrap();
    assert_eq!(proposal.status, ProposalStatus::Failed);
}

#[test]
fn tie_resolves_to_failed() {
    let (mut dao, admin, member_a, member_b) = dao_with_two_members();
    let id = dao
        .create_proposal(member_a, "t".to_string(), "d".to_string(), [1u8; 32], 0)
        .unwrap();
    dao.start_voting(admin, id, 10).unwrap();
    dao.vote(member_a, id, true, 500, 20).unwrap();
    dao.vote(member_b, id, false, 500, 30).unwrap();
    let notice = dao.execute_proposal(member_a, id, 10 + WEEK).unwrap();
    assert_eq!(notice, None);
    assert_eq!(dao.get_proposal(id).unwrap().status, ProposalStatus::Failed);
}

#[test]
fn unregistered_creator_appends_nothing() {
    let (mut dao, _admin, _a, _b) = dao_with_two_members();
    let outsider: u64 = 99;
    let err = dao
        .create_proposal(outsider, "t".to_string(), "d".to_string(), [0u8; 32], 5)
        .unwrap_err();
    assert_eq!(err, GovError::Unauthorized);
    // store length unchanged: index 0 still does not exist
    assert_eq!(dao.get_proposal(0).unwrap_err(), GovError::NotFound);
}

#[test]
fn vote_on_pending_is_invalid_state() {
    let (mut dao, _admin, member_a, _b) = dao_with_two_members();
    let id = dao
        .create_proposal(member_a, "t".to_string(), "d".to_string(), [0u8; 32], 5)
        .unwrap();
    let err = dao.vote(member_a, id, true, 1000, 6).unwrap_err();
    assert_eq!(err, GovError::InvalidState);
}

#[test]
fn vote_at_window_end_is_closed() {
    let (mut dao, admin, member_a, _b) = dao_with_two_members();
    let id = dao
        .create_proposal(member_a, "t".to_string(), "d".to_string(), [0u8; 32], 5)
        .unwrap();
    dao.start_voting(admin, id, 100).unwrap();
    // the window is [100, 100 + WEEK): its last instant still accepts
    dao.vote(member_a, id, true, 10, 100 + WEEK - 1).unwrap();
    let err = dao.vote(member_a, id, true, 10, 100 + WEEK).unwrap_err();
    assert_eq!(err, GovError::WindowClosed);
    let err = dao.vote(member_a, id, true, 10, 100 + WEEK + 5).unwrap_err();
    assert_eq!(err, GovError::WindowClosed);
}

#[test]
fn vote_guards_reject_outsiders_and_zero_weight() {
    let (mut dao, admin, member_a, _b) = dao_with_two_members();
    let id = dao
        .create_proposal(member_a, "t".to_string(), "d".to_string(), [0u8; 32], 5)
        .unwrap();
    dao.start_voting(admin, id, 10).unwrap();
    assert_eq!(dao.vote(99, id, true, 1000, 20).unwrap_err(), GovError::Unauthorized);
    assert_eq!(dao.vote(member_a, id, true, 0, 20).unwrap_err(), GovError::Unauthorized);
    assert_eq!(dao.vote(member_a, 5, true, 1000, 20).unwrap_err(), GovError::NotFound);
    // none of the refused calls changed the tallies
    let proposal = dao.get_proposal(id).unwrap();
    assert_eq!(proposal.yes_weight, 0);
    assert_eq!(proposal.no_weight, 0);
}

#[test]
fn double_votes_accumulate_sampled_weights() {
    // no one-shot guard exists: the same member may vote repeatedly, and each
    // vote counts the weight the oracle reported at that very call.
    let (mut dao, admin, member_a, _b) = dao_with_two_members();
    let id = dao
        .create_proposal(member_a, "t".to_string(), "d".to_string(), [0u8; 32], 5)
        .unwrap();
    dao.start_voting(admin, id, 10).unwrap();
    dao.vote(member_a, id, true, 300, 20).unwrap();
    dao.vote(member_a, id, true, 200, 30).unwrap();
    dao.vote(member_a, id, false, 100, 40).unwrap();
    let proposal = dao.get_proposal(id).unwrap();
    assert_eq!(proposal.yes_weight, 500);
    assert_eq!(proposal.no_weight, 100);
}

#[test]
fn start_voting_guards() {
    let (mut dao, admin, member_a, _b) = dao_with_two_members();
    let id = dao
        .create_proposal(member_a, "t".to_string(), "d".to_string(), [0u8; 32], 5)
        .unwrap();
    assert_eq!(dao.start_voting(member_a, id, 10).unwrap_err(), GovError::Unauthorized);
    assert_eq!(dao.start_voting(admin, 9, 10).unwrap_err(), GovError::NotFound);
    dao.start_voting(admin, id, 10).unwrap();
    // starting twice is refused: the proposal is no longer Pending
    assert_eq!(dao.start_voting(admin, id, 11).unwrap_err(), GovError::InvalidState);
    let proposal = dao.get_proposal(id).unwrap();
    assert_eq!(proposal.voting_starts_at, 10);
    assert_eq!(proposal.voting_ends_at, 10 + WEEK);
}

#[test]
fn resolve_before_deadline_is_window_open() {
    let (mut dao, admin, member_a, member_b) = dao_with_two_members();
    let id = dao
        .create_proposal(member_a, "t".to_string(), "d".to_string(), [0u8; 32], 5)
        .unwrap();
    dao.start_voting(admin, id, 100).unwrap();
    // a crushing majority changes nothing: the window is still open
    dao.vote(member_a, id, true, 100000, 150).unwrap();
    let err = dao.execute_proposal(member_b, id, 100 + WEEK - 1).unwrap_err();
    assert_eq!(err, GovError::WindowOpen);
    assert_eq!(dao.get_proposal(id).unwrap().status, ProposalStatus::Active);
}

#[test]
fn resolve_finalizes_exactly_once() {
    let (mut dao, admin, member_a, member_b) = dao_with_two_members();
    let id = dao
        .create_proposal(member_a, "t".to_string(), "d".to_string(), [0u8; 32], 5)
        .unwrap();
    dao.start_voting(admin, id, 10).unwrap();
    dao.vote(member_a, id, true, 1000, 20).unwrap();
    dao.execute_proposal(member_a, id, 10 + WEEK).unwrap();
    assert_eq!(dao.get_proposal(id).unwrap().status, ProposalStatus::Executed);
    // the second and every later attempt fails, whoever calls and whenever
    let err = dao.execute_proposal(member_b, id, 10 + WEEK + 1).unwrap_err();
    assert_eq!(err, GovError::InvalidState);
    let err = dao.execute_proposal(member_a, id, 10 + 2 * WEEK).unwrap_err();
    assert_eq!(err, GovError::InvalidState);
}

#[test]
fn resolve_guards_reject_outsiders_and_missing_indices() {
    let (mut dao, admin, member_a, _b) = dao_with_two_members();
    let id = dao
        .create_proposal(member_a, "t".to_string(), "d".to_string(), [0u8; 32], 5)
        .unwrap();
    dao.start_voting(admin, id, 10).unwrap();
    assert_eq!(dao.execute_proposal(99, id, 10 + WEEK).unwrap_err(), GovError::Unauthorized);
    assert_eq!(dao.execute_proposal(member_a, 4, 10 + WEEK).unwrap_err(), GovError::NotFound);
    // resolving a Pending proposal is refused too
    let id2 = dao
        .create_proposal(member_a, "t2".to_string(), "d2".to_string(), [0u8; 32], 5)
        .unwrap();
    assert_eq!(
        dao.execute_proposal(member_a, id2, 10 + WEEK).unwrap_err(),
        GovError::InvalidState
    );
}

#[test]
fn register_is_admin_only_and_idempotent() {
    let admin: u64 = 1;
    let mut dao = DaoVotingSystem::initialize(77, admin, WEEK);
    assert_eq!(dao.add_member(5, 10).unwrap_err(), GovError::Unauthorized);
    assert!(!dao.is_member(10));
    dao.add_member(admin, 10).unwrap();
    // re-registering is a no-op, not an error
    dao.add_member(admin, 10).unwrap();
    assert!(dao.is_member(10));
    assert!(!dao.is_member(99));
    let id = dao
        .create_proposal(10, "t".to_string(), "d".to_string(), [0u8; 32], 5)
        .unwrap();
    assert_eq!(id, 0);
}

#[test]
fn proposal_indices_are_sequential() {
    let (mut dao, _admin, member_a, _b) = dao_with_two_members();
    for expected in 0u32..3 {
        let id = dao
            .create_proposal(member_a, "t".to_string(), "d".to_string(), [0u8; 32], 5)
            .unwrap();
        assert_eq!(id, expected);
    }
    let proposal = dao.get_proposal(2).unwrap();
    assert_eq!(proposal.creator, member_a);
    assert_eq!(proposal.title, "t");
    assert_eq!(proposal.description, "d");
    assert_eq!(proposal.action, [0u8; 32]);
    assert_eq!(proposal.status, ProposalStatus::Pending);
    assert_eq!(proposal.created_at, 5);
    assert_eq!(proposal.voting_starts_at, 0);
    assert_eq!(proposal.voting_ends_at, 0);
}
