use sunshine_bounty::application::{ApplicationState, GrantApplication};
use sunshine_bounty::error::{confirm_event, BountyError, Stage, Transition};
use sunshine_bounty::ledger::{BountyInformation, BountyPaymentTracker};
use sunshine_bounty::milestone::{MilestoneStatus, MilestoneSubmission};
use sunshine_bounty::review::{
    FlatPetitionBoard, ReviewBoard, SupportedVoteTypes, WeightedThreshold, WeightedThresholdBoard,
};
use sunshine_bounty::types::{BountyMapID, TeamID, TermsOfAgreement, VoteID};

const BOUND_ONE_FIFTH: u32 = 200_000;

fn flat_board(sudo: Option<u64>) -> ReviewBoard {
    ReviewBoard::FlatPetitionReview(FlatPetitionBoard {
        sudo,
        org: 3,
        flat_share_id: 1,
        approval_threshold: 2,
        rejection_threshold: Some(1),
        topic: None,
    })
}

fn weighted_board(sudo: Option<u64>) -> ReviewBoard {
    ReviewBoard::WeightedThresholdReview(WeightedThresholdBoard {
        sudo,
        org: 3,
        weighted_share_id: 2,
        vote_type: SupportedVoteTypes::PercentThreshold,
        threshold: WeightedThreshold::Percent { support_ppm: 500_000, turnout_ppm: None },
    })
}

fn bounty(foundation: u32) -> BountyInformation {
    BountyInformation::new(77, foundation, 1, 1, 500, 1000, flat_board(None), None, BOUND_ONE_FIFTH)
        .unwrap()
}

fn terms() -> TermsOfAgreement {
    TermsOfAgreement { supervisor: Some(5), share_metadata: vec![(5, 10), (6, 20)] }
}

fn team(org: u32) -> TeamID {
    TeamID::new(org, None, 4, 5)
}

fn live_application(team_id: TeamID) -> GrantApplication {
    let mut app = GrantApplication::new(11, 400, terms());
    app.start_review(VoteID::Petition(1)).unwrap();
    app.approve_pending_team_consent(7, VoteID::Threshold(2)).unwrap();
    app.approve_grant(team_id, &bounty(team_id.org)).unwrap();
    app
}

#[test]
fn collateralization_gate() {
    let r = BountyInformation::new(1, 3, 1, 1, 100, 1000, flat_board(None), None, BOUND_ONE_FIFTH);
    assert_eq!(r, Err(BountyError::InsufficientCollateralization));
    let b = BountyInformation::new(1, 3, 1, 1, 500, 1000, flat_board(None), None, BOUND_ONE_FIFTH)
        .unwrap();
    assert_eq!(b.foundation(), 3);
    assert_eq!(b.funding_reserved(), 500);
    assert_eq!(b.claimed_funding_available(), 1000);
    assert_eq!(b.acceptance_committee(), flat_board(None));
}

#[test]
fn collateralization_bound_is_inclusive() {
    let at_bound =
        BountyInformation::new(1, 3, 1, 1, 200, 1000, flat_board(None), None, BOUND_ONE_FIFTH);
    assert!(at_bound.is_ok());
    let below =
        BountyInformation::new(1, 3, 1, 1, 199, 1000, flat_board(None), None, BOUND_ONE_FIFTH);
    assert_eq!(below, Err(BountyError::InsufficientCollateralization));
    let nothing_claimed =
        BountyInformation::new(1, 3, 1, 1, 0, 0, flat_board(None), None, BOUND_ONE_FIFTH);
    assert!(nothing_claimed.is_ok());
    let largest = BountyInformation::new(
        1, 3, 1, 1, u64::MAX, u64::MAX, flat_board(None), None, u32::MAX,
    );
    assert_eq!(largest, Err(BountyError::InsufficientCollateralization));
}

#[test]
fn supervision_committee_defaults_to_acceptance() {
    let b = bounty(3);
    assert_eq!(b.supervision_committee(), flat_board(None));
    let with_supervisors = BountyInformation::new(
        1, 3, 1, 1, 500, 1000, flat_board(None), Some(weighted_board(Some(9))), BOUND_ONE_FIFTH,
    )
    .unwrap();
    assert_eq!(with_supervisors.supervision_committee(), weighted_board(Some(9)));
    assert_eq!(with_supervisors.acceptance_committee(), flat_board(None));
}

#[test]
fn review_board_sudo() {
    assert!(flat_board(Some(8)).is_sudo(&8));
    assert!(!flat_board(Some(8)).is_sudo(&9));
    assert!(!flat_board(None).is_sudo(&8));
    assert!(weighted_board(Some(8)).is_sudo(&8));
    assert!(!weighted_board(None).is_sudo(&8));
    assert_eq!(weighted_board(None).org(), 3);
}

#[test]
fn submit_then_start_review_once() {
    let mut app = GrantApplication::new(11, 400, terms());
    assert_eq!(app.state(), ApplicationState::SubmittedAwaitingResponse);
    assert_eq!(app.total_amount(), 400);
    assert_eq!(app.description(), 11);
    assert_eq!(app.terms_of_agreement().share_metadata, vec![(5, 10), (6, 20)]);
    assert_eq!(app.start_review(VoteID::Petition(1)), Ok(()));
    assert_eq!(app.state(), ApplicationState::UnderReviewByAcceptanceCommittee(VoteID::Petition(1)));
    assert_eq!(app.get_application_review_id(), Some(VoteID::Petition(1)));
    assert_eq!(
        app.start_review(VoteID::Petition(1)),
        Err(BountyError::InvalidTransition {
            attempted: Transition::StartReview,
            actual: Stage::UnderReviewByAcceptanceCommittee,
        })
    );
    assert_eq!(app.state(), ApplicationState::UnderReviewByAcceptanceCommittee(VoteID::Petition(1)));
}

#[test]
fn team_consent_then_foreign_team_rejected() {
    let mut app = GrantApplication::new(11, 400, terms());
    app.start_review(VoteID::Petition(1)).unwrap();
    assert_eq!(app.approve_pending_team_consent(7, VoteID::Threshold(2)), Ok(()));
    let awaiting = ApplicationState::ApprovedByFoundationAwaitingTeamConsent(7, VoteID::Threshold(2));
    assert_eq!(app.state(), awaiting);
    assert_eq!(app.get_team_flat_id(), Some(7));
    assert_eq!(app.get_team_consent_id(), Some(VoteID::Threshold(2)));
    let foundation_three = bounty(3);
    assert_eq!(app.approve_grant(team(9), &foundation_three), Err(BountyError::ConsistencyError));
    assert_eq!(app.state(), awaiting);
    assert_eq!(app.approve_grant(team(3), &foundation_three), Ok(()));
    assert_eq!(app.state(), ApplicationState::ApprovedAndLive(team(3)));
    assert_eq!(app.get_full_team_id(), Some(team(3)));
}

#[test]
fn foreign_team_rejected_in_every_state() {
    let foundation_three = bounty(3);
    let mut fresh = GrantApplication::new(11, 400, terms());
    assert_eq!(fresh.approve_grant(team(9), &foundation_three), Err(BountyError::ConsistencyError));
    assert_eq!(fresh.state(), ApplicationState::SubmittedAwaitingResponse);
    let mut closed = GrantApplication::new(11, 400, terms());
    closed.close().unwrap();
    assert_eq!(closed.approve_grant(team(9), &foundation_three), Err(BountyError::ConsistencyError));
    assert_eq!(closed.state(), ApplicationState::Closed);
}

#[test]
fn out_of_order_transitions_refused() {
    let mut app = GrantApplication::new(11, 400, terms());
    assert_eq!(
        app.approve_pending_team_consent(7, VoteID::Threshold(2)),
        Err(BountyError::InvalidTransition {
            attempted: Transition::ApproveTeamConsent,
            actual: Stage::SubmittedAwaitingResponse,
        })
    );
    assert_eq!(
        app.approve_grant(team(3), &bounty(3)),
        Err(BountyError::InvalidTransition {
            attempted: Transition::ApproveGrant,
            actual: Stage::SubmittedAwaitingResponse,
        })
    );
    assert_eq!(app.state(), ApplicationState::SubmittedAwaitingResponse);
    assert_eq!(app.get_application_review_id(), None);
    assert_eq!(app.get_full_team_id(), None);
}

#[test]
fn close_is_idempotent() {
    let mut app = GrantApplication::new(11, 400, terms());
    app.start_review(VoteID::Petition(1)).unwrap();
    assert_eq!(app.close(), Ok(()));
    assert_eq!(app.state(), ApplicationState::Closed);
    assert_eq!(app.close(), Ok(()));
    assert_eq!(app.state(), ApplicationState::Closed);
    assert_eq!(app.total_amount(), 400);
}

#[test]
fn closed_application_does_not_reopen() {
    let mut app = GrantApplication::new(11, 400, terms());
    app.close().unwrap();
    assert_eq!(
        app.start_review(VoteID::Petition(3)),
        Err(BountyError::InvalidTransition { attempted: Transition::StartReview, actual: Stage::Closed })
    );
    assert_eq!(app.state(), ApplicationState::Closed);
}

#[test]
fn live_grant_cannot_be_closed() {
    let mut app = live_application(team(3));
    assert_eq!(
        app.close(),
        Err(BountyError::InvalidTransition { attempted: Transition::Close, actual: Stage::ApprovedAndLive })
    );
    assert_eq!(app.state(), ApplicationState::ApprovedAndLive(team(3)));
}

#[test]
fn live_states() {
    assert!(ApplicationState::SubmittedAwaitingResponse.live());
    assert!(ApplicationState::UnderReviewByAcceptanceCommittee(VoteID::Petition(1)).live());
    assert!(!ApplicationState::ApprovedByFoundationAwaitingTeamConsent(7, VoteID::Threshold(2)).live());
    assert!(!ApplicationState::ApprovedAndLive(team(3)).live());
    assert!(!ApplicationState::Closed.live());
}

#[test]
fn registered_team_matching() {
    let state = ApplicationState::ApprovedAndLive(team(3));
    assert!(state.matches_registered_team(team(3)));
    assert!(!state.matches_registered_team(TeamID::new(3, Some(1), 4, 5)));
    assert!(!ApplicationState::Closed.matches_registered_team(team(3)));
}

#[test]
fn milestone_needs_the_registered_team() {
    let app = live_application(team(3));
    assert_eq!(app.submit_milestone(TeamID::new(3, None, 4, 6), 21, 100), Err(BountyError::Unauthorized));
    let m = app.submit_milestone(team(3), 21, 100).unwrap();
    assert_eq!(m.review(), None);
    assert_eq!(m.amount(), 100);
    assert_eq!(m.submission(), 21);
    let pending = GrantApplication::new(11, 400, terms());
    assert_eq!(pending.submit_milestone(team(3), 21, 100), Err(BountyError::Unauthorized));
}

#[test]
fn milestone_approval_needs_review() {
    let mut m = MilestoneSubmission::new(21, 100);
    assert_eq!(m.review(), None);
    assert_eq!(
        m.approve_transfer(),
        Err(BountyError::InvalidTransition {
            attempted: Transition::ApproveTransfer,
            actual: Stage::MilestoneFiled,
        })
    );
    assert_eq!(m.review(), None);
}

#[test]
fn milestone_review_then_approval() {
    let mut m = MilestoneSubmission::new(21, 100);
    assert_eq!(m.start_milestone_review(VoteID::Petition(4)), Ok(()));
    assert_eq!(m.review(), Some(MilestoneStatus::SubmittedReviewStarted(VoteID::Petition(4))));
    assert_eq!(m.approve_transfer(), Ok(()));
    assert_eq!(m.review(), Some(MilestoneStatus::ApprovedAndTransferEnabled));
    assert_eq!(m.amount(), 100);
}

#[test]
fn milestone_changes_requested_then_approval() {
    let mut m = MilestoneSubmission::new(21, 100);
    m.start_milestone_review(VoteID::Petition(4)).unwrap();
    assert_eq!(m.request_changes(VoteID::Petition(5)), Ok(()));
    assert_eq!(
        m.review(),
        Some(MilestoneStatus::ChangesRequestedAwaitingChanges(VoteID::Petition(5)))
    );
    assert_eq!(
        m.request_changes(VoteID::Petition(6)),
        Err(BountyError::InvalidTransition {
            attempted: Transition::RequestChanges,
            actual: Stage::MilestoneChangesRequested,
        })
    );
    assert_eq!(
        m.start_milestone_review(VoteID::Petition(6)),
        Err(BountyError::InvalidTransition {
            attempted: Transition::StartMilestoneReview,
            actual: Stage::MilestoneChangesRequested,
        })
    );
    assert_eq!(m.approve_transfer(), Ok(()));
}

#[test]
fn approved_milestone_released_once() {
    let mut m = MilestoneSubmission::new(21, 100);
    m.start_milestone_review(VoteID::Threshold(4)).unwrap();
    m.approve_transfer().unwrap();
    let refused = |attempted| {
        Err(BountyError::InvalidTransition {
            attempted,
            actual: Stage::MilestoneApprovedAndTransferEnabled,
        })
    };
    assert_eq!(m.approve_transfer(), refused(Transition::ApproveTransfer));
    assert_eq!(m.request_changes(VoteID::Threshold(5)), refused(Transition::RequestChanges));
    assert_eq!(
        m.start_milestone_review(VoteID::Threshold(5)),
        refused(Transition::StartMilestoneReview)
    );
    assert_eq!(m.review(), Some(MilestoneStatus::ApprovedAndTransferEnabled));
}

#[test]
fn payment_tracker_never_overdrawn() {
    let mut t = BountyPaymentTracker::new(300);
    assert_eq!(t.received(), 0);
    assert_eq!(t.due(), 300);
    assert_eq!(t.update(100), Ok(()));
    assert_eq!(t.update(200), Ok(()));
    assert_eq!(t.received(), 300);
    assert_eq!(t.update(1), Err(BountyError::ConsistencyError));
    assert_eq!(t.received(), 300);
    let mut full = BountyPaymentTracker::new(u64::MAX);
    assert_eq!(full.update(u64::MAX), Ok(()));
    assert_eq!(full.update(u64::MAX), Err(BountyError::ConsistencyError));
}

#[test]
fn bounty_map_default() {
    assert_eq!(BountyMapID::default(), BountyMapID::ApplicationId);
}

#[test]
fn confirming_event_required() {
    assert_eq!(confirm_event(Some(5u32)), Ok(5));
    assert_eq!(confirm_event::<u32>(None), Err(BountyError::EventNotFound));
}

#[test]
fn snapshot_kept_across_transition() {
    let mut app = GrantApplication::new(11, 400, terms());
    let snapshot = app.clone();
    app.start_review(VoteID::Petition(1)).unwrap();
    assert_eq!(snapshot.state(), ApplicationState::SubmittedAwaitingResponse);
    assert_eq!(snapshot.total_amount(), 400);
    assert_eq!(app.state(), ApplicationState::UnderReviewByAcceptanceCommittee(VoteID::Petition(1)));
}
