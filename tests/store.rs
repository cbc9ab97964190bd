use sunshine_bounty::application::ApplicationState;
use sunshine_bounty::error::{BountyError, Stage, Transition};
use sunshine_bounty::ledger::BountyInformation;
use sunshine_bounty::milestone::MilestoneStatus;
use sunshine_bounty::review::{FlatPetitionBoard, ReviewBoard};
use sunshine_bounty::store::BountyStore;
use sunshine_bounty::types::{TeamID, TermsOfAgreement, VoteID};

fn board() -> ReviewBoard {
    ReviewBoard::FlatPetitionReview(FlatPetitionBoard {
        sudo: None,
        org: 3,
        flat_share_id: 1,
        approval_threshold: 2,
        rejection_threshold: None,
        topic: Some(42),
    })
}

fn store_with_bounty(claimed: u64) -> BountyStore {
    let mut store = BountyStore::new();
    let info = BountyInformation::new(77, 3, 1, 1, claimed, claimed, board(), None, 200_000).unwrap();
    assert_eq!(store.post_bounty(info), 0);
    store
}

fn terms() -> TermsOfAgreement {
    TermsOfAgreement { supervisor: None, share_metadata: vec![(5, 1)] }
}

fn team() -> TeamID {
    TeamID::new(3, None, 4, 5)
}

fn live_grant(store: &mut BountyStore, amount: u64) -> u64 {
    let app = store.submit_application(0, 11, amount, terms()).unwrap();
    store.start_review(0, app, VoteID::Petition(1)).unwrap();
    store.approve_pending_team_consent(0, app, 7, VoteID::Threshold(2)).unwrap();
    store.approve_grant(0, app, team()).unwrap();
    app
}

#[test]
fn unknown_keys_not_found() {
    let mut store = store_with_bounty(1000);
    assert_eq!(store.bounty(1), Err(BountyError::NotFound));
    assert_eq!(store.payments(1).map(|t| t.due()), Err(BountyError::NotFound));
    assert_eq!(store.submit_application(1, 11, 10, terms()), Err(BountyError::NotFound));
    let app = store.submit_application(0, 11, 10, terms()).unwrap();
    assert_eq!(app, 0);
    assert!(store.application(1, app).is_err());
    assert!(store.application(0, app + 1).is_err());
    assert_eq!(store.start_review(1, app, VoteID::Petition(1)), Err(BountyError::NotFound));
    assert_eq!(store.close(0, 5), Err(BountyError::NotFound));
    assert_eq!(store.milestone(app, 0), Err(BountyError::NotFound));
    assert_eq!(store.approve_transfer(app, 0), Err(BountyError::NotFound));
    assert_eq!(store.application(0, app).unwrap().state(), ApplicationState::SubmittedAwaitingResponse);
}

#[test]
fn application_over_capacity_refused() {
    let mut store = store_with_bounty(1000);
    assert_eq!(store.submit_application(0, 11, 1001, terms()), Err(BountyError::ConsistencyError));
    assert_eq!(store.submit_application(0, 11, 1000, terms()), Ok(0));
    assert_eq!(store.submit_application(0, 12, 400, terms()), Ok(1));
}

#[test]
fn keyed_application_lifecycle() {
    let mut store = store_with_bounty(1000);
    let app = store.submit_application(0, 11, 400, terms()).unwrap();
    assert_eq!(store.start_review(0, app, VoteID::Petition(1)), Ok(()));
    assert_eq!(
        store.start_review(0, app, VoteID::Petition(1)),
        Err(BountyError::InvalidTransition {
            attempted: Transition::StartReview,
            actual: Stage::UnderReviewByAcceptanceCommittee,
        })
    );
    assert_eq!(store.approve_pending_team_consent(0, app, 7, VoteID::Threshold(2)), Ok(()));
    assert_eq!(store.approve_grant(0, app, TeamID::new(9, None, 4, 5)), Err(BountyError::ConsistencyError));
    assert_eq!(store.approve_grant(0, app, team()), Ok(()));
    assert_eq!(store.application(0, app).unwrap().state(), ApplicationState::ApprovedAndLive(team()));
    assert_eq!(store.application(0, app).unwrap().total_amount(), 400);
}

#[test]
fn keyed_close_twice() {
    let mut store = store_with_bounty(1000);
    let app = store.submit_application(0, 11, 400, terms()).unwrap();
    assert_eq!(store.close(0, app), Ok(()));
    assert_eq!(store.close(0, app), Ok(()));
    assert_eq!(store.application(0, app).unwrap().state(), ApplicationState::Closed);
}

#[test]
fn milestone_release_credits_ledger_once() {
    let mut store = store_with_bounty(1000);
    let app = live_grant(&mut store, 400);
    assert_eq!(store.submit_milestone(0, app, TeamID::new(3, None, 4, 6), 21, 100), Err(BountyError::Unauthorized));
    let m = store.submit_milestone(0, app, team(), 21, 100).unwrap();
    assert_eq!(store.milestone(app, m).unwrap().review(), None);
    assert_eq!(
        store.approve_transfer(app, m),
        Err(BountyError::InvalidTransition { attempted: Transition::ApproveTransfer, actual: Stage::MilestoneFiled })
    );
    assert_eq!(store.start_milestone_review(app, m, VoteID::Petition(3)), Ok(()));
    assert_eq!(store.request_changes(app, m, VoteID::Petition(4)), Ok(()));
    assert_eq!(store.approve_transfer(app, m), Ok(()));
    assert_eq!(store.payments(0).unwrap().received(), 100);
    assert_eq!(
        store.approve_transfer(app, m),
        Err(BountyError::InvalidTransition {
            attempted: Transition::ApproveTransfer,
            actual: Stage::MilestoneApprovedAndTransferEnabled,
        })
    );
    assert_eq!(store.payments(0).unwrap().received(), 100);
    assert_eq!(store.milestone(app, m).unwrap().review(), Some(MilestoneStatus::ApprovedAndTransferEnabled));
}

#[test]
fn milestone_release_beyond_due_refused() {
    let mut store = store_with_bounty(150);
    let app = live_grant(&mut store, 150);
    let first = store.submit_milestone(0, app, team(), 21, 100).unwrap();
    let second = store.submit_milestone(0, app, team(), 22, 100).unwrap();
    assert_eq!(second, first + 1);
    store.start_milestone_review(app, first, VoteID::Petition(3)).unwrap();
    store.start_milestone_review(app, second, VoteID::Petition(4)).unwrap();
    assert_eq!(store.approve_transfer(app, first), Ok(()));
    assert_eq!(store.approve_transfer(app, second), Err(BountyError::ConsistencyError));
    assert_eq!(
        store.milestone(app, second).unwrap().review(),
        Some(MilestoneStatus::SubmittedReviewStarted(VoteID::Petition(4)))
    );
    assert_eq!(store.payments(0).unwrap().received(), 100);
}

#[test]
fn listing_by_key_prefix() {
    let mut store = store_with_bounty(1000);
    let info = BountyInformation::new(78, 3, 1, 2, 500, 500, board(), None, 200_000).unwrap();
    assert_eq!(store.post_bounty(info), 1);
    let a0 = store.submit_application(0, 11, 100, terms()).unwrap();
    let a1 = store.submit_application(1, 12, 100, terms()).unwrap();
    let a2 = store.submit_application(0, 13, 100, terms()).unwrap();
    assert_eq!(store.applications_of(0), vec![a0, a2]);
    assert_eq!(store.applications_of(1), vec![a1]);
    assert_eq!(store.applications_of(2), Vec::<u64>::new());
    assert_eq!(store.milestones_of(a0), Vec::<u64>::new());
}

#[test]
fn listing_milestones_of_application() {
    let mut store = store_with_bounty(1000);
    let first = live_grant(&mut store, 300);
    let second = live_grant(&mut store, 300);
    let m0 = store.submit_milestone(0, first, team(), 21, 100).unwrap();
    let m1 = store.submit_milestone(0, second, team(), 22, 100).unwrap();
    let m2 = store.submit_milestone(0, first, team(), 23, 100).unwrap();
    assert_eq!(store.milestones_of(first), vec![m0, m2]);
    assert_eq!(store.milestones_of(second), vec![m1]);
}
